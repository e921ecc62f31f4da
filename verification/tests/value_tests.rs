use rdbc::ColumnType;
use rdbc::DbError;
use rdbc::SqlDecimal;
use rdbc::SqlValue;

#[test]
fn clone_value_preserves_every_variant() {
    let samples = vec![
        SqlValue::Bool(true),
        SqlValue::Int(-7),
        SqlValue::BigInt(1i128 << 100),
        SqlValue::Float(3.25f64.to_bits()),
        SqlValue::Decimal(SqlDecimal { negative: true, digits: vec![1, 2, 5], scale: 2 }),
        SqlValue::Binary(vec![0, 255, 7]),
        SqlValue::Text("hello".to_string()),
        SqlValue::Null,
    ];
    for v in &samples {
        let c = v.clone_value();
        match (v, &c) {
            (SqlValue::Bool(a), SqlValue::Bool(b)) => assert_eq!(a, b),
            (SqlValue::Int(a), SqlValue::Int(b)) => assert_eq!(a, b),
            (SqlValue::BigInt(a), SqlValue::BigInt(b)) => assert_eq!(a, b),
            (SqlValue::Float(a), SqlValue::Float(b)) => assert_eq!(a, b),
            (SqlValue::Decimal(a), SqlValue::Decimal(b)) => {
                assert_eq!(a.negative, b.negative);
                assert_eq!(a.digits, b.digits);
                assert_eq!(a.scale, b.scale);
            },
            (SqlValue::Binary(a), SqlValue::Binary(b)) => assert_eq!(a, b),
            (SqlValue::Text(a), SqlValue::Text(b)) => assert_eq!(a, b),
            (SqlValue::Null, SqlValue::Null) => {},
            _ => panic!("clone changed the variant"),
        }
    }
}

#[test]
fn float_round_trips_through_bits() {
    let x = -12.375f64;
    let v = SqlValue::Float(x.to_bits());
    match v {
        SqlValue::Float(bits) => assert_eq!(f64::from_bits(bits), x),
        _ => panic!("expected a float value"),
    }
}

#[test]
fn column_type_clone_preserves_fields() {
    let c = ColumnType {
        database_type_name: "DECIMAL".to_string(),
        decimal_size: Some((10, 2)),
        length: Some(i64::MAX),
        name: "price".to_string(),
        nullable: None,
    };
    let d = c.clone_type();
    assert_eq!(d.database_type_name, "DECIMAL");
    assert_eq!(d.decimal_size, Some((10, 2)));
    assert_eq!(d.length, Some(i64::MAX));
    assert_eq!(d.name, "price");
    assert_eq!(d.nullable, None);
}

#[test]
fn errors_describe_themselves() {
    assert_eq!(DbError::UnknownDriver.describe(), "unknown driver");
    assert_eq!(DbError::DuplicateDriver.describe(), "driver name registered twice");
    assert_eq!(DbError::HandleKindMismatch.describe(), "handle kind mismatch");
    assert_eq!(DbError::ColumnOutOfRange.describe(), "column index out of range");
    assert_eq!(DbError::NoCurrentRow.describe(), "no current row");
    assert_eq!(DbError::UnknownColumn.describe(), "unknown column name or alias");
    assert_eq!(DbError::Backend("boom".to_string()).describe(), "backend error");
}
