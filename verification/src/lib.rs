//! A driver-agnostic database connectivity layer.
//!
//! Applications code against one façade API ([`DbConn`], [`Tx`], [`Stmt`],
//! [`ResultSet`]); backends implement the [`Database`] contract, a
//! non-blocking, cancellable, poll-based protocol over opaque [`Handle`]s;
//! a [`Registry`] maps driver names to driver instances.

pub mod driver;
pub mod error;
pub mod facade;
pub mod mem;
pub mod registry;
mod text;
pub mod value;

pub use driver::Database;
pub use driver::DbPoll;
pub use driver::Handle;
pub use driver::HandleKind;
pub use error::DbError;
pub use facade::DbConn;
pub use facade::ResultSet;
pub use facade::Stmt;
pub use facade::Tx;
pub use mem::MemDriver;
pub use registry::Registry;
pub use value::ColumnType;
pub use value::SqlDecimal;
pub use value::SqlValue;
