//! A resource-safe handle over a platform's native font-rendering engine.
//!
//! The engine parses font program data and answers glyph and metric queries;
//! this library owns the chain of three engine resources that such queries
//! need (raw-data provider, outline font, sized font) and guarantees that the
//! chain is acquired atomically, is never observable half-built, and is
//! released exactly once in reverse acquisition order.  The engine itself is
//! an opaque collaborator: an unverified driver performs each native call and
//! hands its raw answer to the functions here, which make every decision —
//! validity checks, failure cleanup, release planning, and the interpretation
//! of glyph, advance, and metric answers.

pub mod glyph;
pub mod handle;
pub mod metrics;
pub mod units;
