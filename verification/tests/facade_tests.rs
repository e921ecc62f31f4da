use rdbc::Database;
use rdbc::DbPoll;
use rdbc::ColumnType;
use rdbc::DbError;
use rdbc::MemDriver;
use rdbc::Registry;
use rdbc::SqlValue;

fn col(name: &str) -> ColumnType {
    ColumnType {
        database_type_name: "TEXT".to_string(),
        decimal_size: None,
        length: None,
        name: name.to_string(),
        nullable: Some(true),
    }
}

fn two_row_driver() -> MemDriver {
    let cols = vec![col("id"), col("name")];
    let table = vec![
        vec![SqlValue::Int(1), SqlValue::Text("a".to_string())],
        vec![SqlValue::Int(2), SqlValue::Text("b".to_string())],
    ];
    MemDriver::new(cols, table)
}

/// Opens a connection directly against one driver: starts the connect and
/// polls it to readiness, as the registry's `open` does.
fn open_conn(d: &mut MemDriver) -> rdbc::DbConn {
    let h = d.start_connect("mem").unwrap();
    match d.poll_connect(&h) {
        DbPoll::Ready(Ok(())) => {}
        _ => panic!("connect failed"),
    }
    rdbc::DbConn { handle: h }
}

fn assert_int(v: &SqlValue, expected: i64) {
    match v {
        SqlValue::Int(i) => assert_eq!(*i, expected),
        _ => panic!("expected an integer value"),
    }
}

fn assert_text(v: &SqlValue, expected: &str) {
    match v {
        SqlValue::Text(s) => assert_eq!(s, expected),
        _ => panic!("expected a text value"),
    }
}

#[test]
fn end_to_end_scenario() {
    let mut reg: Registry<MemDriver> = Registry::new();
    reg.register("fake".to_string(), two_row_driver()).unwrap();
    let conn = reg.open("fake", "mem").unwrap();
    let d = reg.driver_mut(0);
    let stmt = conn.prepare(d, "SELECT id, name FROM t").unwrap();
    let rs = stmt.query(d, &[]).unwrap();
    assert_eq!(rs.next(d).unwrap(), true);
    assert_int(&rs.get(d, 0).unwrap(), 1);
    assert_text(&rs.get(d, 1).unwrap(), "a");
    assert_eq!(rs.next(d).unwrap(), true);
    assert_int(&rs.get(d, 0).unwrap(), 2);
    assert_eq!(rs.next(d).unwrap(), false);
}

#[test]
fn cursor_exhaustion_is_idempotent() {
    let mut reg: Registry<MemDriver> = Registry::new();
    reg.register("fake".to_string(), two_row_driver()).unwrap();
    let conn = reg.open("fake", "mem").unwrap();
    let dr = reg.driver_mut(0);
    let stmt = conn.prepare(dr, "SELECT id, name FROM t").unwrap();
    let rs = stmt.query(dr, &[]).unwrap();
    assert_eq!(rs.next(dr).unwrap(), true);
    assert_eq!(rs.next(dr).unwrap(), true);
    assert_eq!(rs.next(dr).unwrap(), false);
    // Once exhausted, every further `next` keeps answering false ...
    assert_eq!(rs.next(dr).unwrap(), false);
    assert_eq!(rs.next(dr).unwrap(), false);
    // ... and fetches are rejected with a cursor error.
    assert!(matches!(rs.get(dr, 0), Err(DbError::NoCurrentRow)));
}

#[test]
fn out_of_range_fetch_is_an_error() {
    let mut d = two_row_driver();
    let conn = open_conn(&mut d);
    let stmt = conn.prepare(&mut d, "SELECT id, name FROM t").unwrap();
    let rs = stmt.query(&mut d, &[]).unwrap();
    assert_eq!(rs.next(&mut d).unwrap(), true);
    // Two columns: index 2 (zero-based) is out of range.
    assert!(matches!(rs.get(&mut d, 2), Err(DbError::ColumnOutOfRange)));
    // In range still answers.
    assert_int(&rs.get(&mut d, 0).unwrap(), 1);
}

#[test]
fn column_lookup_round_trip() {
    let mut d = two_row_driver();
    let conn = open_conn(&mut d);
    let stmt = conn.prepare(&mut d, "SELECT id, name FROM t").unwrap();
    let rs = stmt.query(&mut d, &[]).unwrap();
    assert_eq!(rs.next(&mut d).unwrap(), true);
    let descriptors = rs.column_types(&mut d).unwrap();
    assert_eq!(descriptors.len(), 2);
    assert_eq!(descriptors[0].name, "id");
    assert_eq!(descriptors[1].name, "name");
    let by_name = rs.get_by_col_name(&mut d, "name", &descriptors).unwrap();
    let by_index = rs.get(&mut d, 1).unwrap();
    assert_text(&by_name, "a");
    assert_text(&by_index, "a");
    let missing = rs.get_by_col_name(&mut d, "missing", &descriptors);
    assert!(matches!(missing, Err(DbError::UnknownColumn)));
}

#[test]
fn columns_reports_names_in_order() {
    let mut d = two_row_driver();
    let conn = open_conn(&mut d);
    let stmt = conn.prepare(&mut d, "SELECT id, name FROM t").unwrap();
    let rs = stmt.query(&mut d, &[]).unwrap();
    let names = rs.columns(&mut d).unwrap();
    assert_eq!(names, vec!["id".to_string(), "name".to_string()]);
}

#[test]
fn exec_reports_completion() {
    let mut d = two_row_driver();
    let conn = open_conn(&mut d);
    let stmt = conn.prepare(&mut d, "DELETE FROM t").unwrap();
    let (last_insert_id, rows_affected) = stmt.exec(&mut d, &[]).unwrap();
    assert_eq!(last_insert_id, 0);
    assert_eq!(rows_affected, 0);
}

#[test]
fn transaction_prepare_commit_and_rollback() {
    let mut d = two_row_driver();
    let conn = open_conn(&mut d);

    let tx = conn.begin(&mut d).unwrap();
    let stmt = tx.prepare(&mut d, "SELECT id, name FROM t").unwrap();
    stmt.close(&mut d);
    tx.commit(&mut d).unwrap();

    let tx2 = conn.begin(&mut d).unwrap();
    tx2.rollback(&mut d).unwrap();
}

#[test]
fn query_binds_are_accepted() {
    let mut d = two_row_driver();
    let conn = open_conn(&mut d);
    let stmt = conn.prepare(&mut d, "SELECT id, name FROM t WHERE id = ?").unwrap();
    let params = [
        SqlValue::Bool(true),
        SqlValue::BigInt(1),
        SqlValue::Float(2.5f64.to_bits()),
        SqlValue::Binary(vec![1, 2, 3]),
        SqlValue::Null,
    ];
    let rs = stmt.query(&mut d, &params).unwrap();
    assert_eq!(rs.next(&mut d).unwrap(), true);
}

#[test]
fn commit_is_performed_and_recorded_once() {
    let mut d = two_row_driver();
    let conn = open_conn(&mut d);
    let tx = conn.begin(&mut d).unwrap();
    let tx_id = tx.handle.id;
    assert!(d.commit_events().is_empty());
    tx.commit(&mut d).unwrap();
    // The driver's commit ran, exactly once, for this transaction —
    // and rollback never did.
    assert_eq!(d.commit_events(), &vec![tx_id]);
    assert!(d.rollback_events().is_empty());
}

#[test]
fn rollback_is_performed_and_recorded_once() {
    let mut d = two_row_driver();
    let conn = open_conn(&mut d);
    let tx = conn.begin(&mut d).unwrap();
    let tx_id = tx.handle.id;
    tx.rollback(&mut d).unwrap();
    // The driver's rollback ran, exactly once — and commit never did.
    assert_eq!(d.rollback_events(), &vec![tx_id]);
    assert!(d.commit_events().is_empty());
}

#[test]
fn exec_is_driven_to_completion() {
    let mut d = two_row_driver();
    let conn = open_conn(&mut d);
    let stmt = conn.prepare(&mut d, "DELETE FROM t").unwrap();
    assert!(d.exec_events().is_empty());
    stmt.exec(&mut d, &[]).unwrap();
    // The driver reported the execution complete before the façade
    // returned: one execution handle reached completion.
    assert_eq!(d.exec_events().len(), 1);
}
