use devtrack_store::record::Record;
use devtrack_store::sql::{build_clear, build_delete, build_select_all, build_upsert, fixed_tables};
use devtrack_store::value::DbValue;

#[test]
fn select_all_text() {
    assert_eq!(build_select_all("clients"), "SELECT * FROM clients");
}

#[test]
fn delete_text() {
    assert_eq!(build_delete("tickets"), "DELETE FROM tickets WHERE id = ?");
}

#[test]
fn clear_text() {
    assert_eq!(build_clear("worklogs"), "DELETE FROM worklogs");
}

#[test]
fn upsert_text_one_column() {
    let rec = Record { fields: vec![("id".to_string(), DbValue::Text("x".to_string()))] };
    assert_eq!(build_upsert("clients", &rec), "INSERT OR REPLACE INTO clients (id) VALUES (?)");
}

#[test]
fn upsert_text_many_columns() {
    let rec = Record {
        fields: vec![
            ("id".to_string(), DbValue::Text("x".to_string())),
            ("name".to_string(), DbValue::Text("n".to_string())),
            ("code".to_string(), DbValue::Int(1)),
        ],
    };
    assert_eq!(
        build_upsert("clients", &rec),
        "INSERT OR REPLACE INTO clients (id, name, code) VALUES (?, ?, ?)"
    );
}

#[test]
fn upsert_text_no_columns() {
    let rec = Record { fields: vec![] };
    assert_eq!(build_upsert("clients", &rec), "INSERT OR REPLACE INTO clients () VALUES ()");
}

#[test]
fn fixed_tables_are_the_four_known_ones() {
    assert_eq!(fixed_tables(), vec!["clients", "customers", "tickets", "worklogs"]);
}
