//! The release hook of every handle fires exactly once — never zero, never
//! more — across normal, early-closed, and error-terminated lifecycles.

use rdbc::ColumnType;
use rdbc::Database;
use rdbc::DbPoll;
use rdbc::MemDriver;
use rdbc::SqlValue;

fn col(name: &str) -> ColumnType {
    ColumnType {
        database_type_name: "TEXT".to_string(),
        decimal_size: None,
        length: None,
        name: name.to_string(),
        nullable: Some(true),
    }
}

fn two_row_driver() -> MemDriver {
    let cols = vec![col("id"), col("name")];
    let table = vec![
        vec![SqlValue::Int(1), SqlValue::Text("a".to_string())],
        vec![SqlValue::Int(2), SqlValue::Text("b".to_string())],
    ];
    MemDriver::new(cols, table)
}

/// Opens a connection directly against one driver: starts the connect and
/// polls it to readiness, as the registry's `open` does.
fn open_conn(d: &mut MemDriver) -> rdbc::DbConn {
    let h = d.start_connect("mem").unwrap();
    match d.poll_connect(&h) {
        DbPoll::Ready(Ok(())) => {}
        _ => panic!("connect failed"),
    }
    rdbc::DbConn { handle: h }
}

fn count(events: &[u64], id: u64) -> usize {
    events.iter().filter(|&&e| e == id).count()
}

#[test]
fn full_lifecycle_releases_each_handle_once() {
    let mut d = two_row_driver();
    let conn = open_conn(&mut d);
    let conn_id = conn.handle.id;
    let tx = conn.begin(&mut d).unwrap();
    let tx_id = tx.handle.id;
    let stmt = tx.prepare(&mut d, "SELECT id, name FROM t").unwrap();
    let stmt_id = stmt.handle.id;
    let rs = stmt.query(&mut d, &[]).unwrap();
    let rs_id = rs.handle.id;
    while rs.next(&mut d).unwrap() {}
    rs.close(&mut d);
    stmt.close(&mut d);
    tx.commit(&mut d).unwrap();
    conn.close(&mut d);

    let events = d.release_events().clone();
    assert_eq!(count(&events, conn_id), 1);
    assert_eq!(count(&events, tx_id), 1);
    assert_eq!(count(&events, stmt_id), 1);
    assert_eq!(count(&events, rs_id), 1);
    assert_eq!(events.len(), 4);
}

#[test]
fn early_close_after_prepare_releases_once() {
    let mut d = two_row_driver();
    let conn = open_conn(&mut d);
    let conn_id = conn.handle.id;
    let stmt = conn.prepare(&mut d, "SELECT id, name FROM t").unwrap();
    let stmt_id = stmt.handle.id;
    // The statement is abandoned before ever being queried.
    stmt.close(&mut d);
    conn.close(&mut d);

    let events = d.release_events().clone();
    assert_eq!(count(&events, conn_id), 1);
    assert_eq!(count(&events, stmt_id), 1);
    assert_eq!(events.len(), 2);
}

#[test]
fn error_during_query_still_releases_once() {
    let mut d = two_row_driver();
    let conn = open_conn(&mut d);
    let conn_id = conn.handle.id;
    let stmt = conn.prepare(&mut d, "SELECT id, name FROM t").unwrap();
    let stmt_id = stmt.handle.id;
    d.set_fail_queries(true);
    assert!(stmt.query(&mut d, &[]).is_err());
    // The failed query issued no result-set handle, so nothing was
    // released by the failure itself.
    assert_eq!(d.release_events().len(), 0);
    stmt.close(&mut d);
    conn.close(&mut d);

    let events = d.release_events().clone();
    assert_eq!(count(&events, conn_id), 1);
    assert_eq!(count(&events, stmt_id), 1);
    assert_eq!(events.len(), 2);
}

#[test]
fn exec_spends_its_internal_handle_once() {
    let mut d = two_row_driver();
    let conn = open_conn(&mut d);
    let stmt = conn.prepare(&mut d, "DELETE FROM t").unwrap();
    stmt.exec(&mut d, &[]).unwrap();
    // The in-flight execution handle was released by `exec` itself.
    assert_eq!(d.release_events().len(), 1);
    stmt.exec(&mut d, &[]).unwrap();
    assert_eq!(d.release_events().len(), 2);
}
