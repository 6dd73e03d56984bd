//! A verified generation engine for record builders.
//!
//! Given the structural description of a record type (an ordered schema of
//! named fields with declared types and attribute annotations), the engine
//! synthesizes a description of a companion builder: one setter per field,
//! accumulator setters for annotated sequence fields, and a validating
//! finalizer.  A sibling generator plans a deterministic textual rendering of
//! record instances.  The runtime semantics of the synthesized builder
//! (setters, accumulation, finalization) and of the renderer are implemented
//! and verified here as well.

pub mod schema;
pub mod classify;
pub mod attrs;
pub mod artifact;
pub mod instance;
pub mod render;
