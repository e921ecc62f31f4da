use rdbc::ColumnType;
use rdbc::DbError;
use rdbc::MemDriver;
use rdbc::Registry;
use rdbc::SqlValue;

fn col(name: &str) -> ColumnType {
    ColumnType {
        database_type_name: "TEXT".to_string(),
        decimal_size: None,
        length: None,
        name: name.to_string(),
        nullable: Some(true),
    }
}

fn small_driver() -> MemDriver {
    let cols = vec![col("id"), col("name")];
    let table = vec![
        vec![SqlValue::Int(1), SqlValue::Text("a".to_string())],
        vec![SqlValue::Int(2), SqlValue::Text("b".to_string())],
    ];
    MemDriver::new(cols, table)
}

#[test]
fn unknown_driver_is_not_found() {
    let mut reg: Registry<MemDriver> = Registry::new();
    let r = reg.open("nonexistent", "x");
    assert!(matches!(r, Err(DbError::UnknownDriver)));
}

#[test]
fn unknown_driver_makes_no_connection_attempt() {
    let mut reg: Registry<MemDriver> = Registry::new();
    reg.register("fake".to_string(), small_driver()).unwrap();
    let r = reg.open("nonexistent", "x");
    assert!(matches!(r, Err(DbError::UnknownDriver)));
    // The registered driver saw nothing: no handle was issued or released.
    assert!(reg.driver_mut(0).release_events().is_empty());
}

#[test]
fn duplicate_registration_is_fatal_not_overwrite() {
    let mut reg: Registry<MemDriver> = Registry::new();
    assert!(reg.try_register("fake".to_string(), small_driver()).is_ok());
    let second = reg.try_register("fake".to_string(), MemDriver::new(Vec::new(), Vec::new()));
    assert!(matches!(second, Err(DbError::DuplicateDriver)));
    // The first registration still answers: the two-column driver, not the
    // empty one, is still bound to the name.
    let conn = reg.open("fake", "mem").unwrap();
    let d = reg.driver_mut(0);
    let stmt = conn.prepare(d, "SELECT id, name FROM t").unwrap();
    let rs = stmt.query(d, &[]).unwrap();
    let names = rs.columns(d).unwrap();
    assert_eq!(names, vec!["id".to_string(), "name".to_string()]);
}

#[test]
fn open_connects_through_the_registered_driver() {
    let mut reg: Registry<MemDriver> = Registry::new();
    reg.register("fake".to_string(), small_driver()).unwrap();
    let conn = reg.open("fake", "mem").unwrap();
    conn.close(reg.driver_mut(0));
    assert_eq!(reg.driver_mut(0).release_events().len(), 1);
}

#[test]
fn failing_connect_still_releases_the_handle() {
    let mut reg: Registry<MemDriver> = Registry::new();
    reg.register("fake".to_string(), small_driver()).unwrap();
    reg.driver_mut(0).set_fail_connects(true);
    let r = reg.open("fake", "mem");
    assert!(matches!(r, Err(DbError::Backend(_))));
    // The connect handle the attempt issued was released exactly once.
    assert_eq!(reg.driver_mut(0).release_events().len(), 1);
}

#[test]
fn lookup_finds_registered_names_only() {
    let mut reg: Registry<MemDriver> = Registry::new();
    assert_eq!(reg.lookup("fake"), None);
    reg.register("fake".to_string(), small_driver()).unwrap();
    reg.register("other".to_string(), small_driver()).unwrap();
    assert_eq!(reg.lookup("fake"), Some(0));
    assert_eq!(reg.lookup("other"), Some(1));
    assert_eq!(reg.lookup("missing"), None);
}
