//! A stateful decoder for IPFIX (RFC 7011) messages.
//!
//! An exporter first sends template records that describe the layout of later
//! data records. [`IpfixConsumer`] keeps those templates, decodes each data set
//! against the template that its set id names, and gives every field a name and
//! a typed value through a registry keyed by enterprise number and field id.

pub mod consumer;
pub mod conversions;
pub mod dataset;
pub mod error;
pub mod formatter;
pub mod header;
pub mod iana;
pub mod laws;
pub mod printer;
pub mod record;
pub mod template;
pub mod text;

pub use crate::consumer::{IpfixConsumer, IpfixMessage, IpfixSet};
pub use crate::conversions::{be_buf_to_u16, be_buf_to_u32, be_buf_to_u64};
pub use crate::error::ParseError;
pub use crate::formatter::{
    be_int, be_string, ipv4_addr, ipv6_addr, mpls_stack, EnterpriseFormatter, FieldFormatter,
    FieldParser,
};
pub use crate::header::{IpfixHeader, SetHeader, SetKind, SetSlice};
pub use crate::iana::get_default_parsers;
pub use crate::printer::IpfixPrinter;
pub use crate::record::{DataRecord, DataRecordKey, DataRecordValue, DataSet};
pub use crate::template::{
    FieldSpecifier, OptionsTemplate, OptionsTemplateHeader, OptionsTemplateSet, Template,
    TemplateHeader, TemplateSet,
};
