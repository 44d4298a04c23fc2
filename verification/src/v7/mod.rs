//! NetFlow version 7.

pub mod header;
pub mod record;
pub mod set;

pub use header::Header;
pub use record::Record;
pub use set::FlowSet;
