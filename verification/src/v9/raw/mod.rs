//! Borrowing views of version 9 structures: the bytes stay where they are
//! and each field is read when it is asked for.

pub mod header;
pub mod set;
pub mod setheader;

pub use header::Header;
pub use set::{DataFlowSet, OptionsTemplate, RawSet, TemplateFlowSet};
pub use setheader::SetHeader;
