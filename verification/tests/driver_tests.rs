//! Tests against the driver contract itself, through the in-memory driver.

use rdbc::ColumnType;
use rdbc::Database;
use rdbc::DbError;
use rdbc::DbPoll;
use rdbc::Handle;
use rdbc::HandleKind;
use rdbc::MemDriver;
use rdbc::SqlValue;

fn col(name: &str) -> ColumnType {
    ColumnType {
        database_type_name: "TEXT".to_string(),
        decimal_size: None,
        length: None,
        name: name.to_string(),
        nullable: Some(true),
    }
}

fn two_row_driver() -> MemDriver {
    let cols = vec![col("id"), col("name")];
    let table = vec![
        vec![SqlValue::Int(1), SqlValue::Text("a".to_string())],
        vec![SqlValue::Int(2), SqlValue::Text("b".to_string())],
    ];
    MemDriver::new(cols, table)
}

/// Opens a connection directly against one driver: starts the connect and
/// polls it to readiness, as the registry's `open` does.
fn open_conn(d: &mut MemDriver) -> rdbc::DbConn {
    let h = d.start_connect("mem").unwrap();
    match d.poll_connect(&h) {
        DbPoll::Ready(Ok(())) => {}
        _ => panic!("connect failed"),
    }
    rdbc::DbConn { handle: h }
}

#[test]
fn get_before_first_next_is_rejected() {
    let mut d = two_row_driver();
    let conn = open_conn(&mut d);
    let stmt = conn.prepare(&mut d, "SELECT id, name FROM t").unwrap();
    let rs = stmt.query(&mut d, &[]).unwrap();
    // The cursor stands before the first row: no value can be fetched yet.
    assert!(matches!(rs.get(&mut d, 0), Err(DbError::NoCurrentRow)));
}

#[test]
fn mismatched_handle_kind_is_a_contract_violation() {
    let mut d = two_row_driver();
    let conn_handle = d.start_connect("mem").unwrap();
    assert_eq!(conn_handle.kind, HandleKind::Connection);

    // A prepared statement can only be compiled against a connection or a
    // transaction, never against a result set.
    let forged = Handle { kind: HandleKind::ResultSet, id: conn_handle.id };
    assert!(matches!(d.start_prepare(&forged, "q"), Err(DbError::HandleKindMismatch)));

    // A transaction can only begin on a connection.
    let not_a_conn = Handle { kind: HandleKind::Statement, id: conn_handle.id };
    match d.begin(&not_a_conn) {
        DbPoll::Ready(Err(DbError::HandleKindMismatch)) => {}
        _ => panic!("expected a handle-kind violation"),
    }
}

#[test]
fn failing_query_reports_a_backend_error() {
    let mut d = two_row_driver();
    let conn = open_conn(&mut d);
    let stmt = conn.prepare(&mut d, "SELECT id, name FROM t").unwrap();
    d.set_fail_queries(true);
    assert!(matches!(stmt.query(&mut d, &[]), Err(DbError::Backend(_))));
    assert!(matches!(stmt.exec(&mut d, &[]), Err(DbError::Backend(_))));
    d.set_fail_queries(false);
    assert!(stmt.query(&mut d, &[]).is_ok());
}

#[test]
fn one_result_set_at_a_time() {
    let mut d = two_row_driver();
    let conn = open_conn(&mut d);
    let stmt = conn.prepare(&mut d, "SELECT id, name FROM t").unwrap();
    let rs = stmt.query(&mut d, &[]).unwrap();
    // The in-memory driver serves a single cursor at a time.
    assert!(matches!(stmt.query(&mut d, &[]), Err(DbError::Backend(_))));
    // Releasing the open cursor makes room for a new one.
    rs.close(&mut d);
    assert!(stmt.query(&mut d, &[]).is_ok());
}

#[test]
fn metadata_fails_after_the_result_set_is_closed() {
    let mut d = two_row_driver();
    let conn = open_conn(&mut d);
    let stmt = conn.prepare(&mut d, "SELECT id, name FROM t").unwrap();
    let rs = stmt.query(&mut d, &[]).unwrap();
    let stale = Handle { kind: rs.handle.kind, id: rs.handle.id };
    rs.close(&mut d);
    // The driver refuses metadata for a released cursor.
    match d.poll_cols(&stale) {
        DbPoll::Ready(Err(_)) => {}
        _ => panic!("expected an error for a closed result set"),
    }
    match d.poll_col_types(&stale) {
        DbPoll::Ready(Err(_)) => {}
        _ => panic!("expected an error for a closed result set"),
    }
}
