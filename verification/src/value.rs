//! The value and metadata model: the tagged union carried between clients and
//! drivers, and the per-column descriptor record.

use vstd::prelude::*;

verus! {

/// An arbitrary-precision decimal held as plain values: a sign, base-10
/// digits (most significant first), and a scale giving the number of digits
/// that fall after the decimal point.
pub struct SqlDecimal {
    /// Whether the value is negative.
    pub negative: bool,
    /// Base-10 digits, most significant first; each entry is in `0..10`.
    pub digits: Vec<u8>,
    /// How many of the trailing digits fall after the decimal point.
    pub scale: i64,
}

/// The mathematical image of a [`SqlDecimal`].
pub ghost struct SqlDecimalModel {
    pub negative: bool,
    pub digits: Seq<u8>,
    pub scale: i64,
}

impl View for SqlDecimal {
    type V = SqlDecimalModel;

    open spec fn view(&self) -> SqlDecimalModel {
        SqlDecimalModel { negative: self.negative, digits: self.digits@, scale: self.scale }
    }
}

/// A variant type for sql: the sole currency for both bound parameters
/// (client to driver) and fetched values (driver to client).
///
/// Fetched values own their data: the underlying cursor may advance or be
/// released before the caller consumes the value.
pub enum SqlValue {
    /// A boolean.
    Bool(bool),
    /// A 64-bit integer.
    Int(i64),
    /// A 128-bit integer.
    BigInt(i128),
    /// A floating-point value, carried as its IEEE-754 bit pattern so the
    /// layer itself never computes with it.
    Float(u64),
    /// An arbitrary-precision decimal.
    Decimal(SqlDecimal),
    /// A binary blob.
    Binary(Vec<u8>),
    /// A text value.
    Text(String),
    /// The absence of a value.
    Null,
}

/// The mathematical image of a [`SqlValue`].
pub ghost enum SqlValueModel {
    Bool(bool),
    Int(i64),
    BigInt(i128),
    Float(u64),
    Decimal(SqlDecimalModel),
    Binary(Seq<u8>),
    Text(Seq<char>),
    Null,
}

impl View for SqlValue {
    type V = SqlValueModel;

    open spec fn view(&self) -> SqlValueModel {
        match self {
            SqlValue::Bool(b) => SqlValueModel::Bool(*b),
            SqlValue::Int(i) => SqlValueModel::Int(*i),
            SqlValue::BigInt(i) => SqlValueModel::BigInt(*i),
            SqlValue::Float(bits) => SqlValueModel::Float(*bits),
            SqlValue::Decimal(d) => SqlValueModel::Decimal(d@),
            SqlValue::Binary(b) => SqlValueModel::Binary(b@),
            SqlValue::Text(s) => SqlValueModel::Text(s@),
            SqlValue::Null => SqlValueModel::Null,
        }
    }
}

/// Copies a byte vector element by element.
fn copy_bytes(src: &Vec<u8>) -> (r: Vec<u8>)
    ensures
        r@ == src@,
{
    let mut out: Vec<u8> = Vec::new();
    let mut i: usize = 0;
    while i < src.len()
        invariant
            i <= src@.len(),
            out@ == src@.subrange(0, i as int),
        decreases src@.len() - i,
    {
        out.push(src[i]);
        i = i + 1;
        proof {
            assert(out@ =~= src@.subrange(0, i as int));
        }
    }
    proof {
        assert(out@ =~= src@);
    }
    out
}

impl SqlDecimal {
    /// Returns an owned copy with the same mathematical image.
    pub fn clone_decimal(&self) -> (r: SqlDecimal)
        ensures
            r@ == self@,
    {
        SqlDecimal { negative: self.negative, digits: copy_bytes(&self.digits), scale: self.scale }
    }
}

impl SqlValue {
    /// Returns an owned copy with the same mathematical image.
    pub fn clone_value(&self) -> (r: SqlValue)
        ensures
            r@ == self@,
    {
        match self {
            SqlValue::Bool(b) => SqlValue::Bool(*b),
            SqlValue::Int(i) => SqlValue::Int(*i),
            SqlValue::BigInt(i) => SqlValue::BigInt(*i),
            SqlValue::Float(bits) => SqlValue::Float(*bits),
            SqlValue::Decimal(d) => SqlValue::Decimal(d.clone_decimal()),
            SqlValue::Binary(b) => SqlValue::Binary(copy_bytes(b)),
            SqlValue::Text(s) => SqlValue::Text(s.clone()),
            SqlValue::Null => SqlValue::Null,
        }
    }
}

/// This type contains the name and type of a column.
///
/// Column descriptor order matches column order as returned by the driver and
/// used for positional `get`.
pub struct ColumnType {
    /// The database system name of the column type.
    pub database_type_name: String,

    /// The scale and precision of a decimal type, if applicable.
    pub decimal_size: Option<(i64, i64)>,

    /// The column type length for variable length column types.
    /// If the type length is unbounded the value is [`i64::MAX`] (any
    /// database limits still apply). If the column type is not variable
    /// length, such as an int, or if not supported by the driver, `None`.
    pub length: Option<i64>,

    /// The name or alias of the column.
    pub name: String,

    /// Whether the column may be null; `None` when the driver does not
    /// support reporting it.
    pub nullable: Option<bool>,
}

/// The mathematical image of a [`ColumnType`].
pub ghost struct ColumnTypeModel {
    pub database_type_name: Seq<char>,
    pub decimal_size: Option<(i64, i64)>,
    pub length: Option<i64>,
    pub name: Seq<char>,
    pub nullable: Option<bool>,
}

impl View for ColumnType {
    type V = ColumnTypeModel;

    open spec fn view(&self) -> ColumnTypeModel {
        ColumnTypeModel {
            database_type_name: self.database_type_name@,
            decimal_size: self.decimal_size,
            length: self.length,
            name: self.name@,
            nullable: self.nullable,
        }
    }
}

impl ColumnType {
    /// Returns an owned copy with the same mathematical image.
    pub fn clone_type(&self) -> (r: ColumnType)
        ensures
            r@ == self@,
    {
        ColumnType {
            database_type_name: self.database_type_name.clone(),
            decimal_size: self.decimal_size,
            length: self.length,
            name: self.name.clone(),
            nullable: self.nullable,
        }
    }
}

} // verus!
