use blitzer_notifier::lifecycle::{creation_row, plan, retraction_mark, MessageRef, WorkItem};
use blitzer_notifier::model::{Address, DetailedPoi, Info, KnownPoi, Poi};
use blitzer_notifier::reconcile::reconcile;

fn detailed(backend: &str) -> DetailedPoi {
    DetailedPoi {
        id: "1".to_string(),
        lat: "48.0".to_string(),
        lng: "11.0".to_string(),
        address: Address {
            country: "DE".to_string(),
            state: "BY".to_string(),
            zip_code: "80331".to_string(),
            city: "Munich".to_string(),
            city_district: String::new(),
            street: "Marienplatz".to_string(),
        },
        content: String::new(),
        backend: backend.to_string(),
        poi_type: "0".to_string(),
        vmax: "".to_string(),
        create_date: String::new(),
        confirm_date: String::new(),
        info: Info { desc: None },
    }
}

fn known(id: &str, backend: &str) -> KnownPoi {
    KnownPoi {
        id: id.to_string(),
        backend_id: backend.to_string(),
        chat_id: 9,
        message_id_info: 11,
        message_id_location: 12,
    }
}

#[test]
fn row_is_persisted_only_with_both_handles() {
    let p = detailed("X1");
    let info = MessageRef { chat_id: 42, message_id: 7 };
    let loc = MessageRef { chat_id: 42, message_id: 8 };

    let row = creation_row(&p, Some(info), Some(loc)).expect("both sends delivered");
    assert_eq!(row.poi.backend, "X1");
    assert_eq!(row.chat_id, 42);
    assert_eq!(row.message_id_info, 7);
    assert_eq!(row.message_id_location, 8);

    assert!(creation_row(&p, None, Some(loc)).is_none());
    assert!(creation_row(&p, Some(info), None).is_none());
    assert!(creation_row(&p, None, None).is_none());
}

#[test]
fn failed_deletion_keeps_the_row_open() {
    let row = known("a", "X1");
    assert_eq!(retraction_mark(&row, true), Some("a".to_string()));
    assert_eq!(retraction_mark(&row, false), None);
}

#[test]
fn plan_orders_all_creations_before_any_retraction() {
    let fetched = vec![Poi::Detailed(detailed("N1")), Poi::Detailed(detailed("N2"))];
    let rows = vec![known("a", "O1"), known("b", "O2")];
    let outcome = reconcile(&fetched, &rows);
    let work = plan(&outcome);
    let rendered: Vec<String> = work
        .iter()
        .map(|w| match w {
            WorkItem::Create(d) => format!("create {}", d.backend),
            WorkItem::Retract(k) => format!("retract {}", k.backend_id),
        })
        .collect();
    assert_eq!(rendered, vec!["create N1", "create N2", "retract O1", "retract O2"]);
}

#[test]
fn plan_of_an_empty_outcome_is_empty() {
    let fetched: Vec<Poi> = Vec::new();
    let rows: Vec<KnownPoi> = Vec::new();
    let outcome = reconcile(&fetched, &rows);
    assert!(plan(&outcome).is_empty());
}
