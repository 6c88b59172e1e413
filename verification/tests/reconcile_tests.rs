use blitzer_notifier::model::{Address, ClusterPoi, DetailedPoi, Info, KnownPoi, Poi};
use blitzer_notifier::reconcile::reconcile;

fn detailed(backend: &str) -> DetailedPoi {
    DetailedPoi {
        id: format!("feed-{backend}"),
        lat: "48.137".to_string(),
        lng: "11.575".to_string(),
        address: Address {
            country: "DE".to_string(),
            state: "BY".to_string(),
            zip_code: "80331".to_string(),
            city: "Munich".to_string(),
            city_district: String::new(),
            street: "Sendlinger Str.".to_string(),
        },
        content: String::new(),
        backend: backend.to_string(),
        poi_type: "101".to_string(),
        vmax: "50".to_string(),
        create_date: "2024-01-01 00:00:00".to_string(),
        confirm_date: "2024-01-02 00:00:00".to_string(),
        info: Info { desc: None },
    }
}

fn cluster() -> ClusterPoi {
    ClusterPoi {
        style: Some(3),
        counter: Some("17".to_string()),
        lat: "48.2".to_string(),
        lng: "11.6".to_string(),
        cluster_type: Some("cluster".to_string()),
    }
}

fn known(id: &str, backend: &str) -> KnownPoi {
    KnownPoi {
        id: id.to_string(),
        backend_id: backend.to_string(),
        chat_id: 77,
        message_id_info: 100,
        message_id_location: 101,
    }
}

fn create_ids(out: &[DetailedPoi]) -> Vec<&str> {
    out.iter().map(|d| d.backend.as_str()).collect()
}

fn retract_ids(out: &[KnownPoi]) -> Vec<&str> {
    out.iter().map(|k| k.backend_id.as_str()).collect()
}

#[test]
fn empty_store_creates_new_poi() {
    let fetched = vec![Poi::Detailed(detailed("X1"))];
    let known_rows: Vec<KnownPoi> = Vec::new();
    let outcome = reconcile(&fetched, &known_rows);
    assert_eq!(create_ids(&outcome.to_create), vec!["X1"]);
    assert!(outcome.to_retract.is_empty());
}

#[test]
fn matching_poi_needs_no_action() {
    let fetched = vec![Poi::Detailed(detailed("X1"))];
    let known_rows = vec![known("a", "X1")];
    let outcome = reconcile(&fetched, &known_rows);
    assert!(outcome.to_create.is_empty());
    assert!(outcome.to_retract.is_empty());
}

#[test]
fn vanished_poi_is_retracted() {
    let fetched: Vec<Poi> = Vec::new();
    let known_rows = vec![known("a", "X1")];
    let outcome = reconcile(&fetched, &known_rows);
    assert!(outcome.to_create.is_empty());
    assert_eq!(retract_ids(&outcome.to_retract), vec!["X1"]);
}

#[test]
fn mixed_snapshot_splits_both_ways() {
    let fetched = vec![Poi::Detailed(detailed("X2")), Poi::Detailed(detailed("X3"))];
    let known_rows = vec![known("a", "X1"), known("b", "X2")];
    let outcome = reconcile(&fetched, &known_rows);
    assert_eq!(create_ids(&outcome.to_create), vec!["X3"]);
    assert_eq!(retract_ids(&outcome.to_retract), vec!["X1"]);
}

#[test]
fn failed_retraction_is_retried_next_run() {
    // The retract set is derived from the store alone: a row whose
    // mark-retracted step failed is still active, so the next run lists it
    // again and the retraction is retried.
    let fetched: Vec<Poi> = Vec::new();
    let mut store = vec![known("a", "X1")];

    let outcome = reconcile(&fetched, &store);
    assert_eq!(retract_ids(&outcome.to_retract), vec!["X1"]);
    let deleted = false;
    let mark = blitzer_notifier::lifecycle::retraction_mark(&outcome.to_retract[0], deleted);
    assert_eq!(mark, None);
    // The store was not touched, so listing active rows still returns X1 ...
    assert_eq!(store.len(), 1);
    assert_eq!(store[0].backend_id, "X1");

    // ... and the next run derives the same retraction again.
    let second = reconcile(&fetched, &store);
    assert_eq!(retract_ids(&second.to_retract), vec!["X1"]);

    // Once the deletion succeeds the row is marked and leaves the store.
    let mark = blitzer_notifier::lifecycle::retraction_mark(&second.to_retract[0], true);
    assert_eq!(mark, Some("a".to_string()));
    store.retain(|row| row.id != "a");
    let third = reconcile(&fetched, &store);
    assert!(third.to_retract.is_empty());
}

#[test]
fn clusters_influence_nothing() {
    let fetched = vec![
        Poi::Cluster(cluster()),
        Poi::Detailed(detailed("X2")),
        Poi::Cluster(cluster()),
    ];
    let known_rows = vec![known("a", "X1")];
    let outcome = reconcile(&fetched, &known_rows);
    assert_eq!(create_ids(&outcome.to_create), vec!["X2"]);
    assert_eq!(retract_ids(&outcome.to_retract), vec!["X1"]);

    let only_clusters = vec![Poi::Cluster(cluster())];
    let outcome = reconcile(&only_clusters, &known_rows);
    assert!(outcome.to_create.is_empty());
    assert_eq!(retract_ids(&outcome.to_retract), vec!["X1"]);
}

#[test]
fn reconcile_is_deterministic() {
    let fetched = vec![Poi::Detailed(detailed("X2")), Poi::Detailed(detailed("X3"))];
    let known_rows = vec![known("a", "X1"), known("b", "X2")];
    let first = reconcile(&fetched, &known_rows);
    let second = reconcile(&fetched, &known_rows);
    assert_eq!(create_ids(&first.to_create), create_ids(&second.to_create));
    assert_eq!(retract_ids(&first.to_retract), retract_ids(&second.to_retract));
}

#[test]
fn creation_order_follows_the_feed() {
    let fetched = vec![
        Poi::Detailed(detailed("X3")),
        Poi::Detailed(detailed("X1")),
        Poi::Detailed(detailed("X2")),
    ];
    let known_rows: Vec<KnownPoi> = Vec::new();
    let outcome = reconcile(&fetched, &known_rows);
    assert_eq!(create_ids(&outcome.to_create), vec!["X3", "X1", "X2"]);
}

#[test]
fn matching_entry_consumes_its_row_once() {
    // A matching detailed entry removes its row from the working set, so a
    // second entry with the same identity finds no active row any more and
    // is treated as new.
    let fetched = vec![Poi::Detailed(detailed("X1")), Poi::Detailed(detailed("X1"))];
    let known_rows = vec![known("a", "X1")];
    let outcome = reconcile(&fetched, &known_rows);
    assert_eq!(create_ids(&outcome.to_create), vec!["X1"]);
    assert!(outcome.to_retract.is_empty());
}

#[test]
fn id_present_in_both_is_processed_nowhere() {
    let fetched = vec![Poi::Detailed(detailed("X1"))];
    let known_rows = vec![known("a", "X1")];
    let outcome = reconcile(&fetched, &known_rows);
    assert!(!create_ids(&outcome.to_create).contains(&"X1"));
    assert!(!retract_ids(&outcome.to_retract).contains(&"X1"));
}
