//! Library of a clipboard URL cleaner: per-host rules name tracking query
//! parameters, the rewriter strips them from URL text, and the coordinator
//! decides, for each buffer-change event, whether the buffer is written back.

pub mod pattern;
pub mod rulefile;
pub mod rules;
pub mod urlparts;
pub mod rewrite;
pub mod coordinator;
