//! A small verified persistence core for a business-tracking application:
//! dynamic records (ordered maps of field name to scalar value) stored into
//! a fixed set of relational tables through a single engine connection.
//!
//! The crate is split along the data flow: `value` converts between field
//! values and the engine's value kinds, `record` maps whole records to
//! column lists and bound parameters and back, `sql` builds the statement
//! texts, `model` states the replace-by-primary-key semantics the engine
//! applies to them, `store` owns the connection, runs the statements and
//! keeps a ghost journal of exactly what its write path handed to the
//! engine, and `paths` holds the pure path decisions around the database
//! file.

pub mod model;
pub mod paths;
pub mod record;
pub mod sql;
pub mod store;
pub mod value;
