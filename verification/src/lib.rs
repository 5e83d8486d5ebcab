//! A verified compiler from a device-independent GPU kernel intermediate
//! representation to a WGSL compute-shader record.
//!
//! The compiler walks a nested kernel IR — scopes, branches, loops,
//! arithmetic, atomics, subgroup collectives, metadata queries — and lowers
//! each construct to a target-dialect instruction, while tracking which GPU
//! built-ins, shared memories, local arrays and helper-function extensions
//! the emitted program needs, and fixing the layout of the per-binding
//! metadata side-table the host must reproduce.
//!
//! Every lowering function is specified against a mathematical model of the
//! translation ([`lower`]); turning the shader record into text and handing
//! it to a graphics driver is left to the surrounding program.

use vstd::prelude::*;

pub mod ir;
pub mod wgsl;
pub mod wgsl_model;
pub mod metadata;
pub mod state;
pub mod extensions;
pub mod lower;
pub mod compiler;
pub mod laws;

verus! {

/// The fatal compile-time failures. None is recoverable: the compiler
/// surfaces the failure and emits no partial shader.
#[derive(Clone, Copy, Debug, PartialEq, Eq, Structural)]
pub enum CompileError {
    /// An element kind outside the supported target subset.
    UnsupportedType(ir::Elem),
    /// A vectorization factor other than 1, 2, 3 or 4.
    UnsupportedVectorization(u32),
    /// Cooperative-matrix variables or operations.
    UnsupportedFeature,
    /// An operation expected an output variable and none was supplied, or a
    /// metadata position was requested for a variable that has none.
    InvariantViolation,
}

} // verus!
