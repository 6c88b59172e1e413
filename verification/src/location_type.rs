//! The feed's POI categories and their wire codes.
//!
//! The upstream feed identifies each category by a short code (`"0"`,
//! `"101"`, `"ts"`, ...).  The engine needs the table in both directions: the
//! request builder joins the codes of the categories it asks for, and the
//! message builder parses the code found on a fetched POI back into a
//! category.

use vstd::prelude::*;
use vstd::string::StringExecFns;

verus! {

/// One POI category of the upstream feed.
#[derive(Clone, Copy, Debug, PartialEq, Eq, Structural)]
pub enum LocationType {
    BlitzerMobile0,
    BlitzerMobile1,
    BlitzerMobile2,
    BlitzerMobile3,
    BlitzerMobile4,
    BlitzerMobile5,
    BlitzerMobile6,
    Stauende,
    Gefahrenstelle21,
    Baustelle22,
    Gefahrenstelle23,
    Gefahrenstelle24,
    Gefahrenstelle25,
    Baustelle26,
    Gefahrenstelle29,
    Blitzer101,
    Blitzer102,
    Blitzer103,
    Blitzer104,
    Blitzer105,
    Blitzer106,
    Blitzer107,
    Blitzer108,
    Blitzer109,
    Blitzer110,
    Blitzer111,
    Blitzer112,
    Blitzer113,
    Tunnel,
    Blitzer115,
    Blitzer117,
    Kulturguide1015,
    Kulturguide1016,
    Hotspot2015,
    BlitzerTeilstat,
    Polizeimeldung1,
    Polizeimeldung2,
    PolylineTraffic,
    BlitzerBilder,
}

impl LocationType {
    /// The wire code under which the feed knows this category.
    pub open spec fn code_spec(self) -> Seq<char> {
        match self {
            LocationType::BlitzerMobile0 => "0"@,
            LocationType::BlitzerMobile1 => "1"@,
            LocationType::BlitzerMobile2 => "2"@,
            LocationType::BlitzerMobile3 => "3"@,
            LocationType::BlitzerMobile4 => "4"@,
            LocationType::BlitzerMobile5 => "5"@,
            LocationType::BlitzerMobile6 => "6"@,
            LocationType::Stauende => "20"@,
            LocationType::Gefahrenstelle21 => "21"@,
            LocationType::Baustelle22 => "22"@,
            LocationType::Gefahrenstelle23 => "23"@,
            LocationType::Gefahrenstelle24 => "24"@,
            LocationType::Gefahrenstelle25 => "25"@,
            LocationType::Baustelle26 => "26"@,
            LocationType::Gefahrenstelle29 => "29"@,
            LocationType::Blitzer101 => "101"@,
            LocationType::Blitzer102 => "102"@,
            LocationType::Blitzer103 => "103"@,
            LocationType::Blitzer104 => "104"@,
            LocationType::Blitzer105 => "105"@,
            LocationType::Blitzer106 => "106"@,
            LocationType::Blitzer107 => "107"@,
            LocationType::Blitzer108 => "108"@,
            LocationType::Blitzer109 => "109"@,
            LocationType::Blitzer110 => "110"@,
            LocationType::Blitzer111 => "111"@,
            LocationType::Blitzer112 => "112"@,
            LocationType::Blitzer113 => "113"@,
            LocationType::Tunnel => "114"@,
            LocationType::Blitzer115 => "115"@,
            LocationType::Blitzer117 => "117"@,
            LocationType::Kulturguide1015 => "1015"@,
            LocationType::Kulturguide1016 => "1016"@,
            LocationType::Hotspot2015 => "2015"@,
            LocationType::BlitzerTeilstat => "ts"@,
            LocationType::Polizeimeldung1 => "vwd"@,
            LocationType::Polizeimeldung2 => "vwda"@,
            LocationType::PolylineTraffic => "traffic"@,
            LocationType::BlitzerBilder => "pics"@,
        }
    }

    /// The wire code of this category, as sent in a feed request.
    pub fn code(&self) -> (r: &'static str)
        ensures
            r@ == self.code_spec(),
    {
        match self {
            LocationType::BlitzerMobile0 => "0",
            LocationType::BlitzerMobile1 => "1",
            LocationType::BlitzerMobile2 => "2",
            LocationType::BlitzerMobile3 => "3",
            LocationType::BlitzerMobile4 => "4",
            LocationType::BlitzerMobile5 => "5",
            LocationType::BlitzerMobile6 => "6",
            LocationType::Stauende => "20",
            LocationType::Gefahrenstelle21 => "21",
            LocationType::Baustelle22 => "22",
            LocationType::Gefahrenstelle23 => "23",
            LocationType::Gefahrenstelle24 => "24",
            LocationType::Gefahrenstelle25 => "25",
            LocationType::Baustelle26 => "26",
            LocationType::Gefahrenstelle29 => "29",
            LocationType::Blitzer101 => "101",
            LocationType::Blitzer102 => "102",
            LocationType::Blitzer103 => "103",
            LocationType::Blitzer104 => "104",
            LocationType::Blitzer105 => "105",
            LocationType::Blitzer106 => "106",
            LocationType::Blitzer107 => "107",
            LocationType::Blitzer108 => "108",
            LocationType::Blitzer109 => "109",
            LocationType::Blitzer110 => "110",
            LocationType::Blitzer111 => "111",
            LocationType::Blitzer112 => "112",
            LocationType::Blitzer113 => "113",
            LocationType::Tunnel => "114",
            LocationType::Blitzer115 => "115",
            LocationType::Blitzer117 => "117",
            LocationType::Kulturguide1015 => "1015",
            LocationType::Kulturguide1016 => "1016",
            LocationType::Hotspot2015 => "2015",
            LocationType::BlitzerTeilstat => "ts",
            LocationType::Polizeimeldung1 => "vwd",
            LocationType::Polizeimeldung2 => "vwda",
            LocationType::PolylineTraffic => "traffic",
            LocationType::BlitzerBilder => "pics",
        }
    }

    /// The category's name, as it appears in a notification message.
    pub open spec fn label_spec(self) -> Seq<char> {
        match self {
            LocationType::BlitzerMobile0 => "BlitzerMobile0"@,
            LocationType::BlitzerMobile1 => "BlitzerMobile1"@,
            LocationType::BlitzerMobile2 => "BlitzerMobile2"@,
            LocationType::BlitzerMobile3 => "BlitzerMobile3"@,
            LocationType::BlitzerMobile4 => "BlitzerMobile4"@,
            LocationType::BlitzerMobile5 => "BlitzerMobile5"@,
            LocationType::BlitzerMobile6 => "BlitzerMobile6"@,
            LocationType::Stauende => "Stauende"@,
            LocationType::Gefahrenstelle21 => "Gefahrenstelle21"@,
            LocationType::Baustelle22 => "Baustelle22"@,
            LocationType::Gefahrenstelle23 => "Gefahrenstelle23"@,
            LocationType::Gefahrenstelle24 => "Gefahrenstelle24"@,
            LocationType::Gefahrenstelle25 => "Gefahrenstelle25"@,
            LocationType::Baustelle26 => "Baustelle26"@,
            LocationType::Gefahrenstelle29 => "Gefahrenstelle29"@,
            LocationType::Blitzer101 => "Blitzer101"@,
            LocationType::Blitzer102 => "Blitzer102"@,
            LocationType::Blitzer103 => "Blitzer103"@,
            LocationType::Blitzer104 => "Blitzer104"@,
            LocationType::Blitzer105 => "Blitzer105"@,
            LocationType::Blitzer106 => "Blitzer106"@,
            LocationType::Blitzer107 => "Blitzer107"@,
            LocationType::Blitzer108 => "Blitzer108"@,
            LocationType::Blitzer109 => "Blitzer109"@,
            LocationType::Blitzer110 => "Blitzer110"@,
            LocationType::Blitzer111 => "Blitzer111"@,
            LocationType::Blitzer112 => "Blitzer112"@,
            LocationType::Blitzer113 => "Blitzer113"@,
            LocationType::Tunnel => "Tunnel"@,
            LocationType::Blitzer115 => "Blitzer115"@,
            LocationType::Blitzer117 => "Blitzer117"@,
            LocationType::Kulturguide1015 => "Kulturguide1015"@,
            LocationType::Kulturguide1016 => "Kulturguide1016"@,
            LocationType::Hotspot2015 => "Hotspot2015"@,
            LocationType::BlitzerTeilstat => "BlitzerTeilstat"@,
            LocationType::Polizeimeldung1 => "Polizeimeldung1"@,
            LocationType::Polizeimeldung2 => "Polizeimeldung2"@,
            LocationType::PolylineTraffic => "PolylineTraffic"@,
            LocationType::BlitzerBilder => "BlitzerBilder"@,
        }
    }

    /// The category's name for use in a notification message.
    pub fn label(&self) -> (r: &'static str)
        ensures
            r@ == self.label_spec(),
    {
        match self {
            LocationType::BlitzerMobile0 => "BlitzerMobile0",
            LocationType::BlitzerMobile1 => "BlitzerMobile1",
            LocationType::BlitzerMobile2 => "BlitzerMobile2",
            LocationType::BlitzerMobile3 => "BlitzerMobile3",
            LocationType::BlitzerMobile4 => "BlitzerMobile4",
            LocationType::BlitzerMobile5 => "BlitzerMobile5",
            LocationType::BlitzerMobile6 => "BlitzerMobile6",
            LocationType::Stauende => "Stauende",
            LocationType::Gefahrenstelle21 => "Gefahrenstelle21",
            LocationType::Baustelle22 => "Baustelle22",
            LocationType::Gefahrenstelle23 => "Gefahrenstelle23",
            LocationType::Gefahrenstelle24 => "Gefahrenstelle24",
            LocationType::Gefahrenstelle25 => "Gefahrenstelle25",
            LocationType::Baustelle26 => "Baustelle26",
            LocationType::Gefahrenstelle29 => "Gefahrenstelle29",
            LocationType::Blitzer101 => "Blitzer101",
            LocationType::Blitzer102 => "Blitzer102",
            LocationType::Blitzer103 => "Blitzer103",
            LocationType::Blitzer104 => "Blitzer104",
            LocationType::Blitzer105 => "Blitzer105",
            LocationType::Blitzer106 => "Blitzer106",
            LocationType::Blitzer107 => "Blitzer107",
            LocationType::Blitzer108 => "Blitzer108",
            LocationType::Blitzer109 => "Blitzer109",
            LocationType::Blitzer110 => "Blitzer110",
            LocationType::Blitzer111 => "Blitzer111",
            LocationType::Blitzer112 => "Blitzer112",
            LocationType::Blitzer113 => "Blitzer113",
            LocationType::Tunnel => "Tunnel",
            LocationType::Blitzer115 => "Blitzer115",
            LocationType::Blitzer117 => "Blitzer117",
            LocationType::Kulturguide1015 => "Kulturguide1015",
            LocationType::Kulturguide1016 => "Kulturguide1016",
            LocationType::Hotspot2015 => "Hotspot2015",
            LocationType::BlitzerTeilstat => "BlitzerTeilstat",
            LocationType::Polizeimeldung1 => "Polizeimeldung1",
            LocationType::Polizeimeldung2 => "Polizeimeldung2",
            LocationType::PolylineTraffic => "PolylineTraffic",
            LocationType::BlitzerBilder => "BlitzerBilder",
        }
    }

    /// The categories that are watched by default: speed enforcement of every
    /// kind plus police reports, but no road-works, culture or traffic layers.
    pub open spec fn is_default_spec(self) -> bool {
        match self {
            LocationType::Blitzer101
            | LocationType::Blitzer102
            | LocationType::Blitzer103
            | LocationType::Blitzer104
            | LocationType::Blitzer105
            | LocationType::Blitzer106
            | LocationType::Blitzer107
            | LocationType::Blitzer108
            | LocationType::Blitzer109
            | LocationType::Blitzer110
            | LocationType::Blitzer111
            | LocationType::Blitzer112
            | LocationType::Blitzer113
            | LocationType::Tunnel
            | LocationType::Blitzer115
            | LocationType::Blitzer117
            | LocationType::BlitzerTeilstat
            | LocationType::BlitzerMobile0
            | LocationType::BlitzerMobile1
            | LocationType::BlitzerMobile2
            | LocationType::BlitzerMobile3
            | LocationType::BlitzerMobile4
            | LocationType::BlitzerMobile5
            | LocationType::BlitzerMobile6
            | LocationType::Polizeimeldung1 => true,
            _ => false,
        }
    }

    /// Whether this category belongs to the default watch list.
    pub fn is_default(&self) -> (r: bool)
        ensures
            r == self.is_default_spec(),
    {
        matches!(
            self,
            LocationType::Blitzer101
            | LocationType::Blitzer102
            | LocationType::Blitzer103
            | LocationType::Blitzer104
            | LocationType::Blitzer105
            | LocationType::Blitzer106
            | LocationType::Blitzer107
            | LocationType::Blitzer108
            | LocationType::Blitzer109
            | LocationType::Blitzer110
            | LocationType::Blitzer111
            | LocationType::Blitzer112
            | LocationType::Blitzer113
            | LocationType::Tunnel
            | LocationType::Blitzer115
            | LocationType::Blitzer117
            | LocationType::BlitzerTeilstat
            | LocationType::BlitzerMobile0
            | LocationType::BlitzerMobile1
            | LocationType::BlitzerMobile2
            | LocationType::BlitzerMobile3
            | LocationType::BlitzerMobile4
            | LocationType::BlitzerMobile5
            | LocationType::BlitzerMobile6
            | LocationType::Polizeimeldung1
        )
    }
    /// Which category a wire code denotes, if any.
    pub open spec fn parse_code(s: Seq<char>) -> Option<LocationType> {
        if s == "0"@ {
            Some(LocationType::BlitzerMobile0)
        } else if s == "1"@ {
            Some(LocationType::BlitzerMobile1)
        } else if s == "2"@ {
            Some(LocationType::BlitzerMobile2)
        } else if s == "3"@ {
            Some(LocationType::BlitzerMobile3)
        } else if s == "4"@ {
            Some(LocationType::BlitzerMobile4)
        } else if s == "5"@ {
            Some(LocationType::BlitzerMobile5)
        } else if s == "6"@ {
            Some(LocationType::BlitzerMobile6)
        } else if s == "20"@ {
            Some(LocationType::Stauende)
        } else if s == "21"@ {
            Some(LocationType::Gefahrenstelle21)
        } else if s == "22"@ {
            Some(LocationType::Baustelle22)
        } else if s == "23"@ {
            Some(LocationType::Gefahrenstelle23)
        } else if s == "24"@ {
            Some(LocationType::Gefahrenstelle24)
        } else if s == "25"@ {
            Some(LocationType::Gefahrenstelle25)
        } else if s == "26"@ {
            Some(LocationType::Baustelle26)
        } else if s == "29"@ {
            Some(LocationType::Gefahrenstelle29)
        } else if s == "101"@ {
            Some(LocationType::Blitzer101)
        } else if s == "102"@ {
            Some(LocationType::Blitzer102)
        } else if s == "103"@ {
            Some(LocationType::Blitzer103)
        } else if s == "104"@ {
            Some(LocationType::Blitzer104)
        } else if s == "105"@ {
            Some(LocationType::Blitzer105)
        } else if s == "106"@ {
            Some(LocationType::Blitzer106)
        } else if s == "107"@ {
            Some(LocationType::Blitzer107)
        } else if s == "108"@ {
            Some(LocationType::Blitzer108)
        } else if s == "109"@ {
            Some(LocationType::Blitzer109)
        } else if s == "110"@ {
            Some(LocationType::Blitzer110)
        } else if s == "111"@ {
            Some(LocationType::Blitzer111)
        } else if s == "112"@ {
            Some(LocationType::Blitzer112)
        } else if s == "113"@ {
            Some(LocationType::Blitzer113)
        } else if s == "114"@ {
            Some(LocationType::Tunnel)
        } else if s == "115"@ {
            Some(LocationType::Blitzer115)
        } else if s == "117"@ {
            Some(LocationType::Blitzer117)
        } else if s == "1015"@ {
            Some(LocationType::Kulturguide1015)
        } else if s == "1016"@ {
            Some(LocationType::Kulturguide1016)
        } else if s == "2015"@ {
            Some(LocationType::Hotspot2015)
        } else if s == "ts"@ {
            Some(LocationType::BlitzerTeilstat)
        } else if s == "vwd"@ {
            Some(LocationType::Polizeimeldung1)
        } else if s == "vwda"@ {
            Some(LocationType::Polizeimeldung2)
        } else if s == "traffic"@ {
            Some(LocationType::PolylineTraffic)
        } else if s == "pics"@ {
            Some(LocationType::BlitzerBilder)
        } else {
            None
        }
    }

    /// Parses a wire code back into its category.
    pub fn from_code(code: &str) -> (r: Option<LocationType>)
        ensures
            r == Self::parse_code(code@),
    {
        let c = String::from_str(code);
        if c == String::from_str("0") {
            Some(LocationType::BlitzerMobile0)
        } else if c == String::from_str("1") {
            Some(LocationType::BlitzerMobile1)
        } else if c == String::from_str("2") {
            Some(LocationType::BlitzerMobile2)
        } else if c == String::from_str("3") {
            Some(LocationType::BlitzerMobile3)
        } else if c == String::from_str("4") {
            Some(LocationType::BlitzerMobile4)
        } else if c == String::from_str("5") {
            Some(LocationType::BlitzerMobile5)
        } else if c == String::from_str("6") {
            Some(LocationType::BlitzerMobile6)
        } else if c == String::from_str("20") {
            Some(LocationType::Stauende)
        } else if c == String::from_str("21") {
            Some(LocationType::Gefahrenstelle21)
        } else if c == String::from_str("22") {
            Some(LocationType::Baustelle22)
        } else if c == String::from_str("23") {
            Some(LocationType::Gefahrenstelle23)
        } else if c == String::from_str("24") {
            Some(LocationType::Gefahrenstelle24)
        } else if c == String::from_str("25") {
            Some(LocationType::Gefahrenstelle25)
        } else if c == String::from_str("26") {
            Some(LocationType::Baustelle26)
        } else if c == String::from_str("29") {
            Some(LocationType::Gefahrenstelle29)
        } else if c == String::from_str("101") {
            Some(LocationType::Blitzer101)
        } else if c == String::from_str("102") {
            Some(LocationType::Blitzer102)
        } else if c == String::from_str("103") {
            Some(LocationType::Blitzer103)
        } else if c == String::from_str("104") {
            Some(LocationType::Blitzer104)
        } else if c == String::from_str("105") {
            Some(LocationType::Blitzer105)
        } else if c == String::from_str("106") {
            Some(LocationType::Blitzer106)
        } else if c == String::from_str("107") {
            Some(LocationType::Blitzer107)
        } else if c == String::from_str("108") {
            Some(LocationType::Blitzer108)
        } else if c == String::from_str("109") {
            Some(LocationType::Blitzer109)
        } else if c == String::from_str("110") {
            Some(LocationType::Blitzer110)
        } else if c == String::from_str("111") {
            Some(LocationType::Blitzer111)
        } else if c == String::from_str("112") {
            Some(LocationType::Blitzer112)
        } else if c == String::from_str("113") {
            Some(LocationType::Blitzer113)
        } else if c == String::from_str("114") {
            Some(LocationType::Tunnel)
        } else if c == String::from_str("115") {
            Some(LocationType::Blitzer115)
        } else if c == String::from_str("117") {
            Some(LocationType::Blitzer117)
        } else if c == String::from_str("1015") {
            Some(LocationType::Kulturguide1015)
        } else if c == String::from_str("1016") {
            Some(LocationType::Kulturguide1016)
        } else if c == String::from_str("2015") {
            Some(LocationType::Hotspot2015)
        } else if c == String::from_str("ts") {
            Some(LocationType::BlitzerTeilstat)
        } else if c == String::from_str("vwd") {
            Some(LocationType::Polizeimeldung1)
        } else if c == String::from_str("vwda") {
            Some(LocationType::Polizeimeldung2)
        } else if c == String::from_str("traffic") {
            Some(LocationType::PolylineTraffic)
        } else if c == String::from_str("pics") {
            Some(LocationType::BlitzerBilder)
        } else {
            None
        }
    }
}

} // verus!
