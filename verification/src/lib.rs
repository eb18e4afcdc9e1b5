//! Feature flags of an Unleash client, resolved for OpenFeature.

pub mod client;
pub mod context;
pub mod evaluation;
pub mod json;
pub mod laws;
pub mod lifecycle;
pub mod payload;
pub mod provider;
pub mod text;
pub mod text_map;
pub mod value;
