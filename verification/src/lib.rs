//! Orchestration core of a post-compilation linker for a restricted,
//! kernel-embeddable target.
//!
//! The backend (parsing, pass execution, code emission) is an external
//! collaborator driven from unverified glue; this crate holds the decisions
//! the driver makes: which symbols the visibility policy internalizes, when
//! the target sanitizer clears the module-level inline assembly, which pass
//! pipeline an optimization level selects, how embedded bitcode is located
//! inside an object file's sections, and how backend-reported outcomes are
//! interpreted and propagated.

pub mod bytes;
pub mod diagnostics;
pub mod image;
pub mod optimize;
pub mod pipeline;
pub mod sanitizer;
pub mod stripper;
pub mod visibility;
