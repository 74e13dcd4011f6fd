//! The verified core of a binding to an embedded, ordered key-value storage
//! engine.
//!
//! The engine lives behind a C interface and is never called from here. Every
//! operation of the binding is split in two: a function that decides which
//! engine routine is to run and with which arguments (a [`call::Call`]), and a
//! function that turns what the engine handed back into the result the caller
//! sees. The program around this library performs the calls.

pub mod batch;
pub mod bytes;
pub mod c_string;
pub mod call;
pub mod cf_map;
pub mod db;
pub mod error;
pub mod handle;
pub mod iterator;
pub mod open;
pub mod options;
pub mod property;
pub mod range;
pub mod snapshot;
pub mod vector;

pub use batch::{Writable, WriteBatch};
pub use call::Call;
pub use db::{Fetched, DB};
pub use handle::{DBCFHandle, Handle};
pub use iterator::{DBIterator, Kv, SeekKey};
pub use open::{OpenCall, Opening};
pub use options::{Options, ReadOptions, UnsafeSnap, WriteOptions};
pub use range::Range;
pub use snapshot::Snapshot;
pub use vector::DBVector;
