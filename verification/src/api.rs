//! What the host calls to expose its own types.
pub mod build_type;
