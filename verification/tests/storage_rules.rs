use ck_quant_rust::domain::OrderStatus;
use ck_quant_rust::storage::{
    history_database_url, history_database_url_with, is_active, remove_active_statement,
    status_name, table_name, upsert_plan, upsert_statement, OrderTable, StorageError, StorageStep,
};

#[test]
fn derives_a_separate_history_file() {
    assert_eq!(
        history_database_url("sqlite://user_data/trades.sqlite").unwrap(),
        "sqlite://user_data/trades.history.sqlite"
    );
}

#[test]
fn history_file_keeps_scheme_and_directory() {
    assert_eq!(
        history_database_url("sqlite:/var/lib/bot/trades.db").unwrap(),
        "sqlite:/var/lib/bot/trades.history.db"
    );
    assert_eq!(history_database_url("sqlite://trades").unwrap(), "sqlite://trades.history.sqlite");
    assert_eq!(
        history_database_url("sqlite://data/.hidden").unwrap(),
        "sqlite://data/.hidden.history.sqlite"
    );
    assert_eq!(
        history_database_url("sqlite://data/archive.tar.gz").unwrap(),
        "sqlite://data/archive.tar.history.gz"
    );
}

#[test]
fn history_url_refuses_other_databases() {
    let err = history_database_url("postgres://localhost/db").unwrap_err();
    assert_eq!(err, StorageError::UnsupportedDatabase("postgres://localhost/db".to_string()));
    assert_eq!(
        err.message(),
        "only SQLite storage is currently supported: postgres://localhost/db"
    );
}

#[test]
fn history_url_needs_a_file_name() {
    assert_eq!(history_database_url("sqlite://").unwrap_err(), StorageError::MissingFileName);
    assert_eq!(history_database_url("sqlite://data/..").unwrap_err(), StorageError::MissingFileName);
    assert_eq!(
        StorageError::MissingFileName.message(),
        "database URL must end in a file name"
    );
}

#[test]
fn memory_database_gets_private_history() {
    let id = 0xa1a2a3a4b1b2c1c2d1d2d3d4d5d6d7d8u128;
    assert_eq!(
        history_database_url_with("sqlite::memory:", id).unwrap(),
        "sqlite:file:ck_quant_history_a1a2a3a4-b1b2-c1c2-d1d2-d3d4d5d6d7d8?mode=memory&cache=shared"
    );
    let a = history_database_url("sqlite::memory:").unwrap();
    let b = history_database_url("sqlite::memory:").unwrap();
    assert!(a.starts_with("sqlite:file:ck_quant_history_"));
    assert!(a.ends_with("?mode=memory&cache=shared"));
    assert_ne!(a, b);
}

#[test]
fn live_orders_stay_in_the_active_table() {
    for status in [OrderStatus::Pending, OrderStatus::Open, OrderStatus::PartiallyFilled] {
        assert!(is_active(status));
        assert_eq!(upsert_plan(status), vec![StorageStep::Upsert(OrderTable::Active)]);
    }
}

#[test]
fn terminal_orders_are_archived_before_leaving_the_active_table() {
    for status in [OrderStatus::Filled, OrderStatus::Cancelled, OrderStatus::Rejected] {
        assert!(!is_active(status));
        assert_eq!(
            upsert_plan(status),
            vec![StorageStep::Upsert(OrderTable::History), StorageStep::RemoveFromActive]
        );
    }
}

#[test]
fn statuses_are_stored_by_name() {
    assert_eq!(status_name(OrderStatus::Pending), "pending");
    assert_eq!(status_name(OrderStatus::Open), "open");
    assert_eq!(status_name(OrderStatus::PartiallyFilled), "partially_filled");
    assert_eq!(status_name(OrderStatus::Filled), "filled");
    assert_eq!(status_name(OrderStatus::Cancelled), "cancelled");
    assert_eq!(status_name(OrderStatus::Rejected), "rejected");
}

#[test]
fn statements_name_their_table() {
    assert_eq!(table_name(OrderTable::Active), "active_orders");
    assert_eq!(table_name(OrderTable::History), "order_history");
    let sql = upsert_statement(OrderTable::History);
    assert!(sql.starts_with("INSERT INTO order_history(client_id, exchange_id, pair, status"));
    assert!(sql.contains("ON CONFLICT(client_id) DO UPDATE SET"));
    assert_eq!(remove_active_statement(), "DELETE FROM active_orders WHERE client_id = ?");
}

#[test]
fn history_database_is_never_the_active_one() {
    for url in [
        "sqlite::memory:",
        "sqlite://trades.sqlite",
        "sqlite:trades",
        "sqlite:///abs/dir/x.db",
        "sqlite://dir/sub/",
        "sqlite://./x.y.z",
    ] {
        let history = history_database_url(url).unwrap();
        assert_ne!(history, url);
    }
    assert_eq!(
        ck_quant_rust::storage::history_file_name("trades.sqlite"),
        "trades.history.sqlite"
    );
    assert_eq!(ck_quant_rust::storage::history_file_name("trades"), "trades.history.sqlite");
    assert_eq!(ck_quant_rust::storage::history_file_name(".env"), ".env.history.sqlite");
    assert_eq!(ck_quant_rust::storage::history_file_name(".."), "...history.sqlite");
    assert_eq!(ck_quant_rust::storage::history_file_name("a."), "a.history.");
}
