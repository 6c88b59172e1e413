use blitzer_notifier::location_type::LocationType;
use blitzer_notifier::model::{Address, DetailedPoi, Info};

fn poi() -> DetailedPoi {
    DetailedPoi {
        id: "9911".to_string(),
        lat: "52.5200".to_string(),
        lng: "13.4050".to_string(),
        address: Address {
            country: "DE".to_string(),
            state: "BE".to_string(),
            zip_code: "10115".to_string(),
            city: "Berlin".to_string(),
            city_district: "Mitte".to_string(),
            street: "Invalidenstr.".to_string(),
        },
        content: "poi".to_string(),
        backend: "B-42".to_string(),
        poi_type: "101".to_string(),
        vmax: "30".to_string(),
        create_date: "2024-05-01 10:00:00".to_string(),
        confirm_date: "2024-05-02 11:00:00".to_string(),
        info: Info { desc: Some("left lane".to_string()) },
    }
}

#[test]
fn message_with_district_and_description() {
    let m = poi().to_telegram_message();
    assert_eq!(
        m,
        "Attention: A new point of interest found at 10115 Berlin (Mitte): \n\n\
         Address: Invalidenstr.\nType: Blitzer101\nMax speed: 30 \n\n\
         Additional info: left lane"
    );
}

#[test]
fn message_without_district_or_description() {
    let mut p = poi();
    p.address.city_district = String::new();
    p.info.desc = None;
    p.poi_type = "vwd".to_string();
    let m = p.to_telegram_message();
    assert_eq!(
        m,
        "Attention: A new point of interest found at 10115 Berlin: \n\n\
         Address: Invalidenstr.\nType: Polizeimeldung1\nMax speed: 30"
    );
}

#[test]
fn codes_parse_back_to_their_category() {
    let all = [
        LocationType::BlitzerMobile0,
        LocationType::BlitzerMobile1,
        LocationType::BlitzerMobile2,
        LocationType::BlitzerMobile3,
        LocationType::BlitzerMobile4,
        LocationType::BlitzerMobile5,
        LocationType::BlitzerMobile6,
        LocationType::Stauende,
        LocationType::Gefahrenstelle21,
        LocationType::Baustelle22,
        LocationType::Gefahrenstelle23,
        LocationType::Gefahrenstelle24,
        LocationType::Gefahrenstelle25,
        LocationType::Baustelle26,
        LocationType::Gefahrenstelle29,
        LocationType::Blitzer101,
        LocationType::Blitzer102,
        LocationType::Blitzer103,
        LocationType::Blitzer104,
        LocationType::Blitzer105,
        LocationType::Blitzer106,
        LocationType::Blitzer107,
        LocationType::Blitzer108,
        LocationType::Blitzer109,
        LocationType::Blitzer110,
        LocationType::Blitzer111,
        LocationType::Blitzer112,
        LocationType::Blitzer113,
        LocationType::Tunnel,
        LocationType::Blitzer115,
        LocationType::Blitzer117,
        LocationType::Kulturguide1015,
        LocationType::Kulturguide1016,
        LocationType::Hotspot2015,
        LocationType::BlitzerTeilstat,
        LocationType::Polizeimeldung1,
        LocationType::Polizeimeldung2,
        LocationType::PolylineTraffic,
        LocationType::BlitzerBilder,
    ];
    for t in all {
        assert_eq!(LocationType::from_code(t.code()), Some(t));
    }
}

#[test]
fn specific_codes_and_labels() {
    assert_eq!(LocationType::BlitzerMobile0.code(), "0");
    assert_eq!(LocationType::Tunnel.code(), "114");
    assert_eq!(LocationType::BlitzerTeilstat.code(), "ts");
    assert_eq!(LocationType::PolylineTraffic.code(), "traffic");
    assert_eq!(LocationType::Blitzer101.label(), "Blitzer101");
    assert_eq!(LocationType::Polizeimeldung1.label(), "Polizeimeldung1");
}

#[test]
fn unknown_code_is_rejected() {
    assert_eq!(LocationType::from_code(""), None);
    assert_eq!(LocationType::from_code("116"), None);
    assert_eq!(LocationType::from_code("nonsense"), None);
}

#[test]
fn default_watch_list_membership() {
    assert!(LocationType::Blitzer101.is_default());
    assert!(LocationType::BlitzerMobile0.is_default());
    assert!(LocationType::Tunnel.is_default());
    assert!(LocationType::BlitzerTeilstat.is_default());
    assert!(LocationType::Polizeimeldung1.is_default());
    assert!(!LocationType::Stauende.is_default());
    assert!(!LocationType::Baustelle22.is_default());
    assert!(!LocationType::Kulturguide1015.is_default());
    assert!(!LocationType::Hotspot2015.is_default());
    assert!(!LocationType::Polizeimeldung2.is_default());
    assert!(!LocationType::PolylineTraffic.is_default());
    assert!(!LocationType::BlitzerBilder.is_default());
}

#[test]
fn cloning_keeps_every_field() {
    let p = poi();
    let q = p.clone();
    assert_eq!(p.id, q.id);
    assert_eq!(p.backend, q.backend);
    assert_eq!(p.address.city_district, q.address.city_district);
    assert_eq!(p.info.desc, q.info.desc);
    assert_eq!(p.vmax, q.vmax);
}
