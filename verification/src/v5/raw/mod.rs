//! Borrowing views of version 5 structures: the bytes stay where they are
//! and each field is read when it is asked for.

pub mod header;
pub mod record;
pub mod set;

pub use header::Header;
pub use record::Record;
pub use set::{FlowSet, RecordIterator};
