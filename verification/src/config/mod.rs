//! Configuration: the schema's plain types and the rules applied to a
//! configuration text before it is parsed.

pub mod schema;
pub mod substitute;

pub use schema::{
    default_buffer_size, default_enabled, default_key, default_sample_rate, default_scale,
    first_unknown_source, has_source, AudioConfig, AudioConfigError, MappingKind, SourceKind,
    VoiceKind,
};
pub use substitute::substitute_vars;
