//! A resume-quality analyzer: a scoring engine that inspects document text
//! for section triggers, keywords, action verbs and technical skills, and an
//! in-memory store of the analyses it produced, keyed by user.

pub mod api;
mod clock;
pub mod engine;
pub mod ids;
pub mod record;
pub mod rules;
pub mod store;
pub mod text;
