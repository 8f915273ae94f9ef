//! A structured error value: a message/cause chain (carried by an
//! `anyhow::Error` handle) extended with an ordered list of named,
//! pre-rendered diagnostic fields, together with a deterministic
//! construction resolver for mixed field/message argument lists.

mod cause;
mod context;
mod error;
mod message;
mod resolver;
mod text;

pub use cause::spec_chain_of;
pub use context::Context;
pub use error::lemma_field_order;
pub use error::lemma_lookup_first_match;
pub use error::spec_attach_all;
pub use error::spec_debug_line;
pub use error::spec_debug_lines;
pub use error::spec_debug_listing;
pub use error::spec_display;
pub use error::spec_field_entry;
pub use error::spec_fields_joined;
pub use error::spec_lookup;
pub use error::Error;
pub use message::format_message;
pub use message::spec_arg_views;
pub use message::spec_format;
pub use message::spec_prepend;
pub use message::FormatError;
pub use resolver::bail;
pub use resolver::ensure;
pub use resolver::resolve;
pub use resolver::resolve_format;
pub use resolver::spec_resolved_fields;
pub use resolver::spec_resolved_name;
pub use resolver::FieldName;
pub use resolver::FieldSpec;
pub use text::spec_str_debug;
