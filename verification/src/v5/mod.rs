//! NetFlow version 5.

pub mod generic;
pub mod header;
pub mod parsed;
pub mod raw;
pub mod record;
pub mod set;

pub use header::Header;
pub use record::Record;
pub use set::FlowSet;
