use devtrack_store::record::Record;
use devtrack_store::store::Store;
use devtrack_store::value::DbValue;

fn open_store() -> Store {
    let conn = rusqlite::Connection::open_in_memory().expect("open in-memory database");
    Store::open(conn).expect("bootstrap the fixed tables")
}

fn client(id: &str, name: &str) -> Record {
    Record {
        fields: vec![
            ("id".to_string(), DbValue::Text(id.to_string())),
            ("name".to_string(), DbValue::Text(name.to_string())),
        ],
    }
}

fn find<'a>(recs: &'a [Record], id: &str) -> &'a Record {
    recs.iter()
        .find(|r| match r.field("id") {
            Some(DbValue::Text(t)) => t.as_str() == id,
            _ => false,
        })
        .expect("row with the given id")
}

#[test]
fn round_trip_keeps_scalar_fields() {
    let mut store = open_store();
    let rec = Record {
        fields: vec![
            ("id".to_string(), DbValue::Text("w-1".to_string())),
            ("hours".to_string(), DbValue::Real("2.5".to_string())),
            ("description".to_string(), DbValue::Text("fix".to_string())),
            ("ticketId".to_string(), DbValue::Null),
        ],
    };
    store.put("worklogs", &rec).expect("put");
    let rows = store.get_all("worklogs").expect("get_all");
    assert_eq!(rows.len(), 1);
    let got = find(&rows, "w-1");
    assert!(got.field("hours").unwrap().same(&DbValue::Real("2.5".to_string())));
    assert!(got.field("description").unwrap().same(&DbValue::Text("fix".to_string())));
    assert!(got.field("ticketId").unwrap().same(&DbValue::Null));
}

#[test]
fn round_trip_narrows_booleans_to_integers() {
    let mut store = open_store();
    let rec = Record {
        fields: vec![
            ("id".to_string(), DbValue::Text("cu-1".to_string())),
            ("name".to_string(), DbValue::Text("shop".to_string())),
            ("isInactive".to_string(), DbValue::Bool(true)),
        ],
    };
    store.put("customers", &rec).expect("put");
    let rows = store.get_all("customers").expect("get_all");
    let got = find(&rows, "cu-1");
    let flag = got.field("isInactive").unwrap();
    assert!(flag.same(&DbValue::Int(1)));
    assert!(!flag.same(&DbValue::Bool(true)));
}

#[test]
fn round_trip_keeps_blobs() {
    let mut store = open_store();
    let rec = Record {
        fields: vec![
            ("id".to_string(), DbValue::Text("c-b".to_string())),
            ("code".to_string(), DbValue::Blob(vec![0, 255, 7])),
        ],
    };
    store.put("clients", &rec).expect("put");
    let rows = store.get_all("clients").expect("get_all");
    let got = find(&rows, "c-b");
    assert!(got.field("code").unwrap().same(&DbValue::Blob(vec![0, 255, 7])));
}

#[test]
fn nested_values_store_and_read_back_as_text() {
    let mut store = open_store();
    let rec = Record {
        fields: vec![
            ("id".to_string(), DbValue::Text("c-j".to_string())),
            ("address".to_string(), DbValue::Json("{\"city\":\"X\"}".to_string())),
        ],
    };
    store.put("clients", &rec).expect("put");
    let rows = store.get_all("clients").expect("get_all");
    let got = find(&rows, "c-j");
    assert!(got.field("address").unwrap().same(&DbValue::Text("{\"city\":\"X\"}".to_string())));
}

#[test]
fn put_fails_on_an_unknown_column() {
    let mut store = open_store();
    let mut bad = client("c-1", "Acme");
    bad.fields.push(("no_such_column".to_string(), DbValue::Int(1)));
    assert!(store.put("clients", &bad).is_err());
    assert_eq!(store.get_all("clients").expect("get_all").len(), 0);
}

#[test]
fn absent_columns_come_back_null() {
    let mut store = open_store();
    store.put("clients", &client("c-1", "Acme")).expect("put");
    let rows = store.get_all("clients").expect("get_all");
    let got = find(&rows, "c-1");
    assert!(got.field("code").unwrap().same(&DbValue::Null));
    assert!(got.field("address").unwrap().same(&DbValue::Null));
}

#[test]
fn put_twice_leaves_a_single_row() {
    let mut store = open_store();
    let rec = client("c-1", "Acme");
    store.put("clients", &rec).expect("first put");
    store.put("clients", &rec).expect("second put");
    let rows = store.get_all("clients").expect("get_all");
    assert_eq!(rows.len(), 1);
    assert!(find(&rows, "c-1").field("name").unwrap().same(&DbValue::Text("Acme".to_string())));
}

#[test]
fn put_with_same_id_replaces_whole_row() {
    let mut store = open_store();
    let mut first = client("c-1", "Acme");
    first.fields.push(("code".to_string(), DbValue::Text("A1".to_string())));
    store.put("clients", &first).expect("first put");
    store.put("clients", &client("c-1", "Bcme")).expect("second put");
    let rows = store.get_all("clients").expect("get_all");
    assert_eq!(rows.len(), 1);
    let got = find(&rows, "c-1");
    assert!(got.field("name").unwrap().same(&DbValue::Text("Bcme".to_string())));
    assert!(got.field("code").unwrap().same(&DbValue::Null));
}

#[test]
fn bulk_put_failing_midway_writes_nothing() {
    let mut store = open_store();
    let mut bad = client("c-2", "Broken");
    bad.fields.push(("no_such_column".to_string(), DbValue::Int(1)));
    let batch = vec![client("c-1", "Acme"), bad, client("c-3", "Last")];
    assert!(store.bulk_put("clients", &batch).is_err());
    let rows = store.get_all("clients").expect("get_all");
    assert_eq!(rows.len(), 0);
}

#[test]
fn bulk_put_commits_all_rows() {
    let mut store = open_store();
    let batch = vec![client("c-1", "A"), client("c-2", "B"), client("c-3", "C")];
    store.bulk_put("clients", &batch).expect("bulk put");
    let rows = store.get_all("clients").expect("get_all");
    assert_eq!(rows.len(), 3);
}

#[test]
fn bulk_put_applies_records_in_input_order() {
    let mut store = open_store();
    let batch = vec![client("c-1", "First"), client("c-1", "Second")];
    store.bulk_put("clients", &batch).expect("bulk put");
    let rows = store.get_all("clients").expect("get_all");
    assert_eq!(rows.len(), 1);
    assert!(find(&rows, "c-1").field("name").unwrap().same(&DbValue::Text("Second".to_string())));
}

#[test]
fn bulk_put_empty_succeeds() {
    let mut store = open_store();
    store.bulk_put("clients", &vec![]).expect("empty bulk put");
    assert_eq!(store.get_all("clients").expect("get_all").len(), 0);
}

#[test]
fn delete_missing_id_succeeds_and_changes_nothing() {
    let mut store = open_store();
    store.put("clients", &client("c-1", "Acme")).expect("put");
    store.delete("clients", "nonexistent-id").expect("delete of a missing id");
    assert_eq!(store.get_all("clients").expect("get_all").len(), 1);
}

#[test]
fn delete_removes_the_row_with_the_key() {
    let mut store = open_store();
    store.put("clients", &client("c-1", "Acme")).expect("put");
    store.put("clients", &client("c-2", "Bcme")).expect("put");
    store.delete("clients", "c-1").expect("delete");
    let rows = store.get_all("clients").expect("get_all");
    assert_eq!(rows.len(), 1);
    assert!(find(&rows, "c-2").field("name").unwrap().same(&DbValue::Text("Bcme".to_string())));
}

#[test]
fn clear_all_empties_all_four_tables() {
    let mut store = open_store();
    store.put("clients", &client("c-1", "A")).expect("put client");
    store
        .put(
            "customers",
            &Record {
                fields: vec![
                    ("id".to_string(), DbValue::Text("cu-1".to_string())),
                    ("name".to_string(), DbValue::Text("n".to_string())),
                ],
            },
        )
        .expect("put customer");
    store
        .put(
            "tickets",
            &Record {
                fields: vec![
                    ("id".to_string(), DbValue::Text("t-1".to_string())),
                    ("title".to_string(), DbValue::Text("t".to_string())),
                ],
            },
        )
        .expect("put ticket");
    store
        .put(
            "worklogs",
            &Record {
                fields: vec![
                    ("id".to_string(), DbValue::Text("w-1".to_string())),
                    ("hours".to_string(), DbValue::Real("1.5".to_string())),
                ],
            },
        )
        .expect("put worklog");
    store.clear_all().expect("clear_all");
    assert_eq!(store.get_all("clients").expect("clients").len(), 0);
    assert_eq!(store.get_all("customers").expect("customers").len(), 0);
    assert_eq!(store.get_all("tickets").expect("tickets").len(), 0);
    assert_eq!(store.get_all("worklogs").expect("worklogs").len(), 0);
}

#[test]
fn get_all_fails_on_a_missing_table() {
    let store = open_store();
    assert!(store.get_all("no_such_table").is_err());
}

#[test]
fn fresh_store_has_four_empty_tables() {
    let store = open_store();
    assert_eq!(store.get_all("clients").expect("clients").len(), 0);
    assert_eq!(store.get_all("customers").expect("customers").len(), 0);
    assert_eq!(store.get_all("tickets").expect("tickets").len(), 0);
    assert_eq!(store.get_all("worklogs").expect("worklogs").len(), 0);
}
