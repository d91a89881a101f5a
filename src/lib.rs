//! Generates the two sides of a typed host/plugin call boundary from an
//! interface description: guest exports that adapt an implementation to the
//! plugin runtime's entry-point shape, and asynchronous host wrappers that
//! call those exports by name through a shared plugin handle.
//!
//! - `descriptor`: validated method descriptors from declarations.
//! - `naming` and `transform`: wire names, positional parameter names, and
//!   signatures rewritten for each side.
//! - `emit` and `assembly`: the generated text and the two-stage artifact.
//! - `boundary`: the result envelopes the generated code goes through.

pub mod assembly;
pub mod boundary;
pub mod descriptor;
pub mod emit;
pub mod naming;
pub mod transform;
