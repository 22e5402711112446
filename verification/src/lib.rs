//! Compile-time planning of derived code for a record type.
//!
//! The input is a structural description of a user-defined record: its name,
//! generic parameters, and named fields with type expressions and declared
//! attributes.  From that description the crate derives two independent
//! artifacts:
//!
//! * a plan for a fluent builder that accumulates field values and validates
//!   required fields before producing an instance, together with an
//!   executable model of the planned builder's behaviour, and
//! * a plan for a structured textual-debug rendering of the record, with
//!   per-field format overrides and inference of the minimal set of
//!   debug-capability bounds on the generic parameters.
//!
//! Rendering the plans as concrete source text, and parsing source text into
//! the structural description, are left to the host toolchain.

pub mod attrs;
pub mod bounds;
pub mod builder_gen;
pub mod builder_run;
pub mod classify;
pub mod debug_gen;
pub mod diag;
pub mod model;
pub mod render;
pub mod sample;
