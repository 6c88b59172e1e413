//! The data the engine works on: feed snapshot entries and persisted rows.
//!
//! A feed snapshot mixes two shapes of entry.  A [`DetailedPoi`] carries the
//! stable identity (`backend`) that reconciliation keys on; a [`ClusterPoi`]
//! is an aggregated map marker without any per-POI identity and is never
//! reconciled.  A [`KnownPoi`] is one active persisted row: a POI the system
//! has notified about and not yet retracted, together with the handles of the
//! messages that were sent for it.

use vstd::prelude::*;
use vstd::string::StringExecFns;
use crate::location_type::LocationType;

verus! {

/// Address snapshot of a fetched POI, as the feed reports it.
#[derive(Debug)]
pub struct Address {
    pub country: String,
    pub state: String,
    pub zip_code: String,
    pub city: String,
    pub city_district: String,
    pub street: String,
}

impl Clone for Address {
    fn clone(&self) -> (r: Self)
        ensures
            r == *self,
    {
        Address {
            country: self.country.clone(),
            state: self.state.clone(),
            zip_code: self.zip_code.clone(),
            city: self.city.clone(),
            city_district: self.city_district.clone(),
            street: self.street.clone(),
        }
    }
}

/// Free-text extras of a fetched POI.
#[derive(Debug)]
pub struct Info {
    pub desc: Option<String>,
}

impl Clone for Info {
    fn clone(&self) -> (r: Self)
        ensures
            r == *self,
    {
        Info {
            desc: match &self.desc {
                Some(d) => Some(d.clone()),
                None => None,
            },
        }
    }
}

/// A feed entry with a stable identity.  `backend` is the reconciliation key:
/// unlike `id`, which the feed may regenerate on every poll, it stays the
/// same for the lifetime of the physical POI.
#[derive(Debug)]
pub struct DetailedPoi {
    pub id: String,
    pub lat: String,
    pub lng: String,
    pub address: Address,
    pub content: String,
    pub backend: String,
    pub poi_type: String,
    pub vmax: String,
    pub create_date: String,
    pub confirm_date: String,
    pub info: Info,
}

impl Clone for DetailedPoi {
    fn clone(&self) -> (r: Self)
        ensures
            r == *self,
    {
        DetailedPoi {
            id: self.id.clone(),
            lat: self.lat.clone(),
            lng: self.lng.clone(),
            address: self.address.clone(),
            content: self.content.clone(),
            backend: self.backend.clone(),
            poi_type: self.poi_type.clone(),
            vmax: self.vmax.clone(),
            create_date: self.create_date.clone(),
            confirm_date: self.confirm_date.clone(),
            info: self.info.clone(),
        }
    }
}

/// An aggregated map marker.  It has no stable identity, so the engine only
/// observes and discards it; the coordinates are kept as the feed's decimal
/// text.
#[derive(Debug)]
pub struct ClusterPoi {
    pub style: Option<u32>,
    pub counter: Option<String>,
    pub lat: String,
    pub lng: String,
    pub cluster_type: Option<String>,
}

impl Clone for ClusterPoi {
    fn clone(&self) -> (r: Self)
        ensures
            r == *self,
    {
        ClusterPoi {
            style: match self.style {
                Some(s) => Some(s),
                None => None,
            },
            counter: match &self.counter {
                Some(c) => Some(c.clone()),
                None => None,
            },
            lat: self.lat.clone(),
            lng: self.lng.clone(),
            cluster_type: match &self.cluster_type {
                Some(t) => Some(t.clone()),
                None => None,
            },
        }
    }
}

/// One entry of a feed snapshot, in either of its two shapes.  Only the
/// `Detailed` shape carries an identity; the type makes asking a `Cluster`
/// for one impossible.
#[derive(Debug)]
pub enum Poi {
    Detailed(DetailedPoi),
    Cluster(ClusterPoi),
}

impl Clone for Poi {
    fn clone(&self) -> (r: Self)
        ensures
            r == *self,
    {
        match self {
            Poi::Detailed(d) => Poi::Detailed(d.clone()),
            Poi::Cluster(c) => Poi::Cluster(c.clone()),
        }
    }
}

/// A full feed snapshot as handed to the engine.
#[derive(Debug)]
pub struct ApiResponse {
    pub pois: Vec<Poi>,
}

/// One active persisted row: a POI that has been notified about and not yet
/// retracted, with the handles of both sent messages.
#[derive(Debug)]
pub struct KnownPoi {
    pub id: String,
    pub backend_id: String,
    pub chat_id: i64,
    pub message_id_info: i32,
    pub message_id_location: i32,
}

impl Clone for KnownPoi {
    fn clone(&self) -> (r: Self)
        ensures
            r == *self,
    {
        KnownPoi {
            id: self.id.clone(),
            backend_id: self.backend_id.clone(),
            chat_id: self.chat_id,
            message_id_info: self.message_id_info,
            message_id_location: self.message_id_location,
        }
    }
}

impl DetailedPoi {
    /// The "zip city" line of the alert, with the district in parentheses
    /// when the feed reports one.
    pub open spec fn city_line(self) -> Seq<char> {
        let base = self.address.zip_code@ + " "@ + self.address.city@;
        if self.address.city_district@.len() == 0 {
            base
        } else {
            base + " ("@ + self.address.city_district@ + ")"@
        }
    }

    /// The exact text of the alert sent for a newly found POI.  Empty only
    /// in the unreachable case of an unknown category code.
    pub open spec fn telegram_message_spec(self) -> Seq<char> {
        match LocationType::parse_code(self.poi_type@) {
            Some(t) => {
                let head = "Attention: A new point of interest found at "@ + self.city_line()
                    + ": \n\nAddress: "@ + self.address.street@ + "\nType: "@ + t.label_spec()
                    + "\nMax speed: "@ + self.vmax@;
                match self.info.desc {
                    Some(d) => head + " \n\nAdditional info: "@ + d@,
                    None => head,
                }
            },
            None => Seq::empty(),
        }
    }

    /// Renders the alert text for this POI.
    pub fn to_telegram_message(&self) -> (r: String)
        requires
            LocationType::parse_code(self.poi_type@) is Some,
        ensures
            r@ == self.telegram_message_spec(),
    {
        let t = match LocationType::from_code(self.poi_type.as_str()) {
            Some(t) => t,
            None => unreached(),
        };
        let mut city = self.address.zip_code.clone();
        city.append(" ");
        city.append(self.address.city.as_str());
        if !self.address.city_district.as_str().is_empty() {
            city.append(" (");
            city.append(self.address.city_district.as_str());
            city.append(")");
        }
        let mut msg = String::from_str("Attention: A new point of interest found at ");
        msg.append(city.as_str());
        msg.append(": \n\nAddress: ");
        msg.append(self.address.street.as_str());
        msg.append("\nType: ");
        msg.append(t.label());
        msg.append("\nMax speed: ");
        msg.append(self.vmax.as_str());
        match &self.info.desc {
            Some(d) => {
                msg.append(" \n\nAdditional info: ");
                msg.append(d.as_str());
            },
            None => {},
        }
        proof {
            assert(msg@ =~= self.telegram_message_spec());
        }
        msg
    }
}

} // verus!
