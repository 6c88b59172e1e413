//! Building the feed request: zoom level, watched categories and area.
//!
//! The upstream feed takes its parameters as one query string.  The engine
//! renders it here, digit by digit, so that the exact text is pinned by the
//! contracts; the application only appends it to the feed's base URL.

use vstd::prelude::*;
use vstd::string::StringExecFns;
use crate::location_type::LocationType;

verus! {

/// The geographic area to poll, as two corner coordinates in the feed's
/// decimal notation.  The engine never computes with the coordinates, so it
/// keeps them as the text that goes into the request.
#[derive(Debug)]
pub struct LocationBox {
    pub lat_min: String,
    pub lng_min: String,
    pub lat_max: String,
    pub lng_max: String,
}

impl LocationBox {
    /// The box as the request's `box` parameter writes it: the four
    /// coordinates, comma-separated.
    pub open spec fn text_spec(self) -> Seq<char> {
        self.lat_min@ + ","@ + self.lng_min@ + ","@ + self.lat_max@ + ","@ + self.lng_max@
    }

    /// Renders the box for the request.
    pub fn to_text(&self) -> (r: String)
        ensures
            r@ == self.text_spec(),
    {
        let mut out = self.lat_min.clone();
        out.append(",");
        out.append(self.lng_min.as_str());
        out.append(",");
        out.append(self.lat_max.as_str());
        out.append(",");
        out.append(self.lng_max.as_str());
        proof {
            assert(out@ =~= self.text_spec());
        }
        out
    }
}

/// The decimal text of a digit.
pub open spec fn decimal_digit(d: int) -> Seq<char> {
    if d == 0 {
        "0"@
    } else if d == 1 {
        "1"@
    } else if d == 2 {
        "2"@
    } else if d == 3 {
        "3"@
    } else if d == 4 {
        "4"@
    } else if d == 5 {
        "5"@
    } else if d == 6 {
        "6"@
    } else if d == 7 {
        "7"@
    } else if d == 8 {
        "8"@
    } else {
        "9"@
    }
}

/// The decimal text of a non-negative number, most significant digit first.
pub open spec fn decimal_nat(n: nat) -> Seq<char>
    decreases n,
{
    if n < 10 {
        decimal_digit(n as int)
    } else {
        decimal_nat(n / 10) + decimal_digit((n % 10) as int)
    }
}

/// The decimal text of a number, with a leading minus where negative.
pub open spec fn decimal_int(n: int) -> Seq<char> {
    if n < 0 {
        "-"@ + decimal_nat((-n) as nat)
    } else {
        decimal_nat(n as nat)
    }
}

fn digit_text(d: u64) -> (r: &'static str)
    requires
        d < 10,
    ensures
        r@ == decimal_digit(d as int),
{
    match d {
        0 => "0",
        1 => "1",
        2 => "2",
        3 => "3",
        4 => "4",
        5 => "5",
        6 => "6",
        7 => "7",
        8 => "8",
        _ => "9",
    }
}

fn nat_text(n: u64) -> (r: String)
    ensures
        r@ == decimal_nat(n as nat),
    decreases n,
{
    if n < 10 {
        String::from_str(digit_text(n))
    } else {
        let head = nat_text(n / 10);
        head.concat(digit_text(n % 10))
    }
}

fn int_text(n: i32) -> (r: String)
    ensures
        r@ == decimal_int(n as int),
{
    if n < 0 {
        let m: u64 = (-(n as i64)) as u64;
        String::from_str("-").concat(nat_text(m).as_str())
    } else {
        nat_text(n as u64)
    }
}

/// The category codes joined with commas, in list order.
pub open spec fn joined_codes(types: Seq<LocationType>) -> Seq<char>
    decreases types.len(),
{
    if types.len() == 0 {
        Seq::empty()
    } else if types.len() == 1 {
        types[0].code_spec()
    } else {
        joined_codes(types.drop_last()) + ","@ + types.last().code_spec()
    }
}

/// One feed request: how far to zoom, which categories to ask for, where.
#[derive(Debug)]
pub struct BlitzerClientRequestParams {
    pub zoom_level: i32,
    pub types: Vec<LocationType>,
    pub location_box: LocationBox,
}

impl BlitzerClientRequestParams {
    /// The full query string of the feed request.
    pub open spec fn request_params_spec(self) -> Seq<char> {
        "?z="@ + decimal_int(self.zoom_level as int) + "&type="@ + joined_codes(self.types@)
            + "&box="@ + self.location_box.text_spec()
    }

    /// Renders the query string appended to the feed's base URL.
    pub fn get_request_params(&self) -> (r: String)
        ensures
            r@ == self.request_params_spec(),
    {
        let mut joined = String::new();
        let mut i: usize = 0;
        while i < self.types.len()
            invariant
                i <= self.types.len(),
                joined@ == joined_codes(self.types@.take(i as int)),
            decreases self.types.len() - i,
        {
            proof {
                assert(self.types@.take(i as int + 1).drop_last() =~= self.types@.take(i as int));
                assert(self.types@.take(i as int + 1).last() == self.types@[i as int]);
            }
            if i > 0 {
                joined.append(",");
            }
            joined.append(self.types[i].code());
            i += 1;
        }
        proof {
            assert(self.types@.take(self.types@.len() as int) =~= self.types@);
        }
        let mut out = String::from_str("?z=");
        out.append(int_text(self.zoom_level).as_str());
        out.append("&type=");
        out.append(joined.as_str());
        out.append("&box=");
        out.append(self.location_box.to_text().as_str());
        proof {
            assert(out@ =~= self.request_params_spec());
        }
        out
    }
}

/// The categories a standard run watches, in the order they are declared.
pub open spec fn default_location_types() -> Seq<LocationType> {
    seq![
        LocationType::BlitzerMobile0,
        LocationType::BlitzerMobile1,
        LocationType::BlitzerMobile2,
        LocationType::BlitzerMobile3,
        LocationType::BlitzerMobile4,
        LocationType::BlitzerMobile5,
        LocationType::BlitzerMobile6,
        LocationType::Blitzer101,
        LocationType::Blitzer102,
        LocationType::Blitzer103,
        LocationType::Blitzer104,
        LocationType::Blitzer105,
        LocationType::Blitzer106,
        LocationType::Blitzer107,
        LocationType::Blitzer108,
        LocationType::Blitzer109,
        LocationType::Blitzer110,
        LocationType::Blitzer111,
        LocationType::Blitzer112,
        LocationType::Blitzer113,
        LocationType::Tunnel,
        LocationType::Blitzer115,
        LocationType::Blitzer117,
        LocationType::BlitzerTeilstat,
        LocationType::Polizeimeldung1,
    ]
}

/// The watch list of a standard run holds exactly the categories marked as
/// default, each once.
pub proof fn lemma_default_types_are_default()
    ensures
        forall|i: int| 0 <= i < default_location_types().len()
            ==> (#[trigger] default_location_types()[i]).is_default_spec(),
        forall|t: LocationType| t.is_default_spec() ==> default_location_types().contains(t),
{
    assert forall|t: LocationType| t.is_default_spec() implies default_location_types().contains(
        t,
    ) by {
        let s = default_location_types();
        match t {
            LocationType::BlitzerMobile0 => assert(s[0] == t),
            LocationType::BlitzerMobile1 => assert(s[1] == t),
            LocationType::BlitzerMobile2 => assert(s[2] == t),
            LocationType::BlitzerMobile3 => assert(s[3] == t),
            LocationType::BlitzerMobile4 => assert(s[4] == t),
            LocationType::BlitzerMobile5 => assert(s[5] == t),
            LocationType::BlitzerMobile6 => assert(s[6] == t),
            LocationType::Blitzer101 => assert(s[7] == t),
            LocationType::Blitzer102 => assert(s[8] == t),
            LocationType::Blitzer103 => assert(s[9] == t),
            LocationType::Blitzer104 => assert(s[10] == t),
            LocationType::Blitzer105 => assert(s[11] == t),
            LocationType::Blitzer106 => assert(s[12] == t),
            LocationType::Blitzer107 => assert(s[13] == t),
            LocationType::Blitzer108 => assert(s[14] == t),
            LocationType::Blitzer109 => assert(s[15] == t),
            LocationType::Blitzer110 => assert(s[16] == t),
            LocationType::Blitzer111 => assert(s[17] == t),
            LocationType::Blitzer112 => assert(s[18] == t),
            LocationType::Blitzer113 => assert(s[19] == t),
            LocationType::Tunnel => assert(s[20] == t),
            LocationType::Blitzer115 => assert(s[21] == t),
            LocationType::Blitzer117 => assert(s[22] == t),
            LocationType::BlitzerTeilstat => assert(s[23] == t),
            LocationType::Polizeimeldung1 => assert(s[24] == t),
            _ => assert(!t.is_default_spec()),
        }
    }
}

/// Builds the request a standard run sends: zoom level 5 and the default
/// watch list over the configured area.
pub fn default_request_params(location_box: LocationBox) -> (r: BlitzerClientRequestParams)
    ensures
        r.zoom_level == 5,
        r.types@ == default_location_types(),
        r.location_box == location_box,
{
    let types: Vec<LocationType> = vec![
        LocationType::BlitzerMobile0,
        LocationType::BlitzerMobile1,
        LocationType::BlitzerMobile2,
        LocationType::BlitzerMobile3,
        LocationType::BlitzerMobile4,
        LocationType::BlitzerMobile5,
        LocationType::BlitzerMobile6,
        LocationType::Blitzer101,
        LocationType::Blitzer102,
        LocationType::Blitzer103,
        LocationType::Blitzer104,
        LocationType::Blitzer105,
        LocationType::Blitzer106,
        LocationType::Blitzer107,
        LocationType::Blitzer108,
        LocationType::Blitzer109,
        LocationType::Blitzer110,
        LocationType::Blitzer111,
        LocationType::Blitzer112,
        LocationType::Blitzer113,
        LocationType::Tunnel,
        LocationType::Blitzer115,
        LocationType::Blitzer117,
        LocationType::BlitzerTeilstat,
        LocationType::Polizeimeldung1,
    ];
    proof {
        assert(types@ =~= default_location_types());
    }
    BlitzerClientRequestParams { zoom_level: 5, types, location_box }
}

} // verus!
