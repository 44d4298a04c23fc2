//! NetFlow version 9: template-announced record layouts.

pub mod cache;
pub mod data;
pub mod header;
pub mod laws;
pub mod packet;
pub mod raw;
pub mod set;
pub mod template;

pub use cache::TemplateCache;
pub use data::{DataField, DataFieldView, DataRecord};
pub use header::{Header, PacketHeader};
pub use packet::{decode_packet, Packet};
pub use set::{DataFlowSet, FlowSet, FlowSetHeader, OptionFlowSet, TemplateFlowSet};
pub use template::{
    Definition, DefinitionView, FieldDefinition, FieldSpec, OptionsTemplateDefinition,
    OptionsTemplateView, TemplateDefinition, TemplateRecord, TemplateView, VARIABLE_LENGTH,
};
