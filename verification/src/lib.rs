//! Verified core of a local dictation assistant: model tiers, settings
//! normalisation, reformulation and translation request planning, and the
//! small wire formats the application produces.

pub mod text;
pub mod model;
pub mod config;
pub mod reformulate;
pub mod profiles;
pub mod normalize;
pub mod pipeline;
pub mod translate;
pub mod groq_stt;
pub mod hardware;
pub mod foreground;
pub mod session;
pub mod laws;
