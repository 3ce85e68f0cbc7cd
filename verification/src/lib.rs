//! Maps record types onto relational tables and derives, from each type's
//! field metadata, the insert operations that keep the record's primary key
//! synchronized with the database-assigned value after a write.
//!
//! The library is the decision core: it validates entity metadata, derives
//! the operation set a keyed entity offers, builds the bound statements those
//! operations send, and writes the returned keys back into the caller's
//! records. The network round-trip itself is performed by a backend outside
//! the library; the propagation functions take its outcome as a value.

pub mod descriptor;
pub mod errors;
pub mod laws;
pub mod ops;
pub mod record;
pub mod rows;
pub mod value;
