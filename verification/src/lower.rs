//! The mathematical model of the lowering.
//!
//! Each function here defines, as a total function over ghost values, what
//! one step of the compiler does: the state it leaves behind and the result
//! it produces, or the first error it reports. The executable compiler in
//! [`crate::compiler`] is proved to agree with this model exactly, so the
//! model is the single place to read the translation off.
//!
//! Stateful steps return the new state paired with the result; when a step
//! fails, the state is the one reached just before the failing sub-step,
//! and no later sub-step runs.

use vstd::prelude::*;

use crate::ir;
use crate::metadata::Metadata;
use crate::state::{CompilerState, Flags};
use crate::wgsl;
use crate::wgsl_model::{ConstantArrayV, InstructionV};
use crate::CompileError;

verus! {

/// Map a source element kind to its target scalar, or reject it. The
/// flexible 32-bit float collapses to the plain one: it is a host-side
/// precision hint only.
pub open spec fn lower_elem(e: ir::Elem) -> Result<wgsl::Elem, CompileError> {
    match e {
        ir::Elem::Float(ir::FloatKind::Flex32) => Ok(wgsl::Elem::F32),
        ir::Elem::Float(ir::FloatKind::F32) => Ok(wgsl::Elem::F32),
        ir::Elem::Int(ir::IntKind::I32) => Ok(wgsl::Elem::I32),
        ir::Elem::UInt(ir::UIntKind::U32) => Ok(wgsl::Elem::U32),
        ir::Elem::Bool => Ok(wgsl::Elem::Bool),
        ir::Elem::AtomicInt(ir::IntKind::I32) => Ok(wgsl::Elem::AtomicI32),
        ir::Elem::AtomicUInt(ir::UIntKind::U32) => Ok(wgsl::Elem::AtomicU32),
        _ => Err(CompileError::UnsupportedType(e)),
    }
}

/// Map an item: the element first (its failure wins), then the
/// vectorization factor, which must be 1 to 4.
pub open spec fn lower_item(item: ir::Item) -> Result<wgsl::Item, CompileError> {
    match lower_elem(item.elem) {
        Err(e) => Err(e),
        Ok(elem) => if item.vectorization == 1 {
            Ok(wgsl::Item::Scalar(elem))
        } else if item.vectorization == 2 {
            Ok(wgsl::Item::Vec2(elem))
        } else if item.vectorization == 3 {
            Ok(wgsl::Item::Vec3(elem))
        } else if item.vectorization == 4 {
            Ok(wgsl::Item::Vec4(elem))
        } else {
            Err(CompileError::UnsupportedVectorization(item.vectorization))
        },
    }
}

/// The target form of a built-in reference.
pub open spec fn builtin_variable(b: ir::Builtin) -> wgsl::Variable {
    match b {
        ir::Builtin::AbsolutePos => wgsl::Variable::Id,
        ir::Builtin::UnitPos => wgsl::Variable::LocalInvocationIndex,
        ir::Builtin::UnitPosX => wgsl::Variable::LocalInvocationIdX,
        ir::Builtin::UnitPosY => wgsl::Variable::LocalInvocationIdY,
        ir::Builtin::UnitPosZ => wgsl::Variable::LocalInvocationIdZ,
        ir::Builtin::CubePosX => wgsl::Variable::WorkgroupIdX,
        ir::Builtin::CubePosY => wgsl::Variable::WorkgroupIdY,
        ir::Builtin::CubePosZ => wgsl::Variable::WorkgroupIdZ,
        ir::Builtin::AbsolutePosX => wgsl::Variable::GlobalInvocationIdX,
        ir::Builtin::AbsolutePosY => wgsl::Variable::GlobalInvocationIdY,
        ir::Builtin::AbsolutePosZ => wgsl::Variable::GlobalInvocationIdZ,
        ir::Builtin::CubeDimX => wgsl::Variable::WorkgroupSizeX,
        ir::Builtin::CubeDimY => wgsl::Variable::WorkgroupSizeY,
        ir::Builtin::CubeDimZ => wgsl::Variable::WorkgroupSizeZ,
        ir::Builtin::CubeCountX => wgsl::Variable::NumWorkgroupsX,
        ir::Builtin::CubeCountY => wgsl::Variable::NumWorkgroupsY,
        ir::Builtin::CubeCountZ => wgsl::Variable::NumWorkgroupsZ,
        ir::Builtin::CubePos => wgsl::Variable::WorkgroupId,
        ir::Builtin::CubeDim => wgsl::Variable::WorkgroupSize,
        ir::Builtin::CubeCount => wgsl::Variable::NumWorkgroups,
        ir::Builtin::SubcubeDim => wgsl::Variable::SubgroupSize,
    }
}

/// The usage flag a built-in reference sets, if any; the axis-less
/// composites set their own aggregate flags.
pub open spec fn builtin_flags(b: ir::Builtin) -> Flags {
    match b {
        ir::Builtin::AbsolutePos => Flags { id: true, ..Flags::none() },
        ir::Builtin::UnitPos => Flags { local_invocation_index: true, ..Flags::none() },
        ir::Builtin::UnitPosX => Flags { local_invocation_id: true, ..Flags::none() },
        ir::Builtin::UnitPosY => Flags { local_invocation_id: true, ..Flags::none() },
        ir::Builtin::UnitPosZ => Flags { local_invocation_id: true, ..Flags::none() },
        ir::Builtin::CubePosX => Flags { workgroup_id: true, ..Flags::none() },
        ir::Builtin::CubePosY => Flags { workgroup_id: true, ..Flags::none() },
        ir::Builtin::CubePosZ => Flags { workgroup_id: true, ..Flags::none() },
        ir::Builtin::AbsolutePosX => Flags { global_invocation_id: true, ..Flags::none() },
        ir::Builtin::AbsolutePosY => Flags { global_invocation_id: true, ..Flags::none() },
        ir::Builtin::AbsolutePosZ => Flags { global_invocation_id: true, ..Flags::none() },
        ir::Builtin::CubeDimX => Flags::none(),
        ir::Builtin::CubeDimY => Flags::none(),
        ir::Builtin::CubeDimZ => Flags::none(),
        ir::Builtin::CubeCountX => Flags { num_workgroups: true, ..Flags::none() },
        ir::Builtin::CubeCountY => Flags { num_workgroups: true, ..Flags::none() },
        ir::Builtin::CubeCountZ => Flags { num_workgroups: true, ..Flags::none() },
        ir::Builtin::CubePos => Flags { workgroup_id_no_axis: true, ..Flags::none() },
        ir::Builtin::CubeDim => Flags { workgroup_size_no_axis: true, ..Flags::none() },
        ir::Builtin::CubeCount => Flags { num_workgroup_no_axis: true, ..Flags::none() },
        ir::Builtin::SubcubeDim => Flags { subgroup_size: true, ..Flags::none() },
    }
}

/// The flags lowering one variable reference sets: those of its built-in,
/// none for every other kind.
pub open spec fn var_flags(v: ir::Variable) -> Flags {
    match v.kind {
        ir::VariableKind::Builtin(b) => builtin_flags(b),
        _ => Flags::none(),
    }
}

/// Whether a shared memory with this index is already declared.
pub open spec fn has_shared(s: Seq<wgsl::SharedMemory>, id: u32) -> bool {
    exists|i: int| 0 <= i < s.len() && s[i].index == id
}

/// Whether a local array with this index is already declared.
pub open spec fn has_local_array(s: Seq<wgsl::LocalArray>, id: u32) -> bool {
    exists|i: int| 0 <= i < s.len() && s[i].index == id
}

/// Lower one variable reference. Pure for scalars, constants, globals,
/// locals and slices; declares a shared memory or local array on first
/// sight; sets the usage flag of a built-in; rejects cooperative matrices.
pub open spec fn lower_var(st: CompilerState, v: ir::Variable) -> (CompilerState, Result<
    wgsl::Variable,
    CompileError,
>) {
    match v.kind {
        ir::VariableKind::GlobalInputArray(id) => match lower_item(v.item) {
            Err(e) => (st, Err(e)),
            Ok(item) => (st, Ok(wgsl::Variable::GlobalInputArray(id, item))),
        },
        ir::VariableKind::GlobalOutputArray(id) => match lower_item(v.item) {
            Err(e) => (st, Err(e)),
            Ok(item) => (st, Ok(wgsl::Variable::GlobalOutputArray(id, item))),
        },
        ir::VariableKind::GlobalScalar(id) => match lower_elem(v.item.elem) {
            Err(e) => (st, Err(e)),
            Ok(elem) => (st, Ok(wgsl::Variable::GlobalScalar(id, elem, v.item.elem))),
        },
        ir::VariableKind::Local { id, depth } => match lower_item(v.item) {
            Err(e) => (st, Err(e)),
            Ok(item) => (st, Ok(wgsl::Variable::Local { id, item, depth })),
        },
        ir::VariableKind::Versioned { id, depth, .. } => match lower_item(v.item) {
            Err(e) => (st, Err(e)),
            Ok(item) => (st, Ok(wgsl::Variable::Local { id, item, depth })),
        },
        ir::VariableKind::LocalBinding { id } => match lower_item(v.item) {
            Err(e) => (st, Err(e)),
            Ok(item) => (st, Ok(wgsl::Variable::LocalBinding { id, item })),
        },
        ir::VariableKind::Slice { id, depth } => match lower_item(v.item) {
            Err(e) => (st, Err(e)),
            Ok(item) => (st, Ok(wgsl::Variable::Slice { id, item, depth })),
        },
        ir::VariableKind::ConstantScalar(value) => match lower_elem(value.elem()) {
            Err(e) => (st, Err(e)),
            Ok(elem) => (st, Ok(wgsl::Variable::ConstantScalar(value, elem))),
        },
        ir::VariableKind::ConstantArray { id, length } => match lower_item(v.item) {
            Err(e) => (st, Err(e)),
            Ok(item) => (st, Ok(wgsl::Variable::ConstantArray(id, item, length))),
        },
        ir::VariableKind::SharedMemory { id, length } => match lower_item(v.item) {
            Err(e) => (st, Err(e)),
            Ok(item) => {
                let st2 = if has_shared(st.shared_memories, id) {
                    st
                } else {
                    CompilerState {
                        shared_memories: st.shared_memories.push(
                            wgsl::SharedMemory { index: id, item, size: length },
                        ),
                        ..st
                    }
                };
                (st2, Ok(wgsl::Variable::SharedMemory(id, item, length)))
            },
        },
        ir::VariableKind::LocalArray { id, depth, length } => match lower_item(v.item) {
            Err(e) => (st, Err(e)),
            Ok(item) => {
                let st2 = if has_local_array(st.local_arrays, id) {
                    st
                } else {
                    CompilerState {
                        local_arrays: st.local_arrays.push(
                            wgsl::LocalArray { index: id, item, depth, size: length },
                        ),
                        ..st
                    }
                };
                (st2, Ok(wgsl::Variable::LocalArray(id, item, depth, length)))
            },
        },
        ir::VariableKind::Builtin(b) => (
            CompilerState { flags: st.flags.union(builtin_flags(b)), ..st },
            Ok(builtin_variable(b)),
        ),
        ir::VariableKind::Matrix => (st, Err(CompileError::UnsupportedFeature)),
    }
}

/// The metadata position of a global array: how many extended-meta
/// bindings stand strictly before it. Any other variable kind, or an index
/// outside the binding lists, is an invariant violation.
pub open spec fn ext_pos_of(st: CompilerState, v: ir::Variable) -> Result<u32, CompileError> {
    match v.kind {
        ir::VariableKind::GlobalInputArray(id) => if id < st.ext_meta_pos.len() {
            Ok(st.ext_meta_pos[id as int])
        } else {
            Err(CompileError::InvariantViolation)
        },
        ir::VariableKind::GlobalOutputArray(id) => if st.num_inputs + id
            < st.ext_meta_pos.len() {
            Ok(st.ext_meta_pos[st.num_inputs + id])
        } else {
            Err(CompileError::InvariantViolation)
        },
        _ => Err(CompileError::InvariantViolation),
    }
}

/// Lower two variable references in order.
pub open spec fn lower_var2(st: CompilerState, a: ir::Variable, b: ir::Variable) -> (
    CompilerState,
    Result<(wgsl::Variable, wgsl::Variable), CompileError>,
) {
    let (st1, r1) = lower_var(st, a);
    match r1 {
        Err(e) => (st1, Err(e)),
        Ok(wa) => {
            let (st2, r2) = lower_var(st1, b);
            match r2 {
                Err(e) => (st2, Err(e)),
                Ok(wb) => (st2, Ok((wa, wb))),
            }
        },
    }
}

/// Lower three variable references in order.
pub open spec fn lower_var3(st: CompilerState, a: ir::Variable, b: ir::Variable, c: ir::Variable)
    -> (CompilerState, Result<(wgsl::Variable, wgsl::Variable, wgsl::Variable), CompileError>) {
    let (st1, r1) = lower_var2(st, a, b);
    match r1 {
        Err(e) => (st1, Err(e)),
        Ok((wa, wb)) => {
            let (st2, r2) = lower_var(st1, c);
            match r2 {
                Err(e) => (st2, Err(e)),
                Ok(wc) => (st2, Ok((wa, wb, wc))),
            }
        },
    }
}

/// Lower four variable references in order.
pub open spec fn lower_var4(
    st: CompilerState,
    a: ir::Variable,
    b: ir::Variable,
    c: ir::Variable,
    d: ir::Variable,
) -> (
    CompilerState,
    Result<(wgsl::Variable, wgsl::Variable, wgsl::Variable, wgsl::Variable), CompileError>,
) {
    let (st1, r1) = lower_var3(st, a, b, c);
    match r1 {
        Err(e) => (st1, Err(e)),
        Ok((wa, wb, wc)) => {
            let (st2, r2) = lower_var(st1, d);
            match r2 {
                Err(e) => (st2, Err(e)),
                Ok(wd) => (st2, Ok((wa, wb, wc, wd))),
            }
        },
    }
}

/// Lower a list of variable references, left to right.
pub open spec fn lower_vars(st: CompilerState, vs: Seq<ir::Variable>) -> (
    CompilerState,
    Result<Seq<wgsl::Variable>, CompileError>,
)
    decreases vs,
{
    if vs.len() == 0 {
        (st, Ok(Seq::empty()))
    } else {
        let (st1, r1) = lower_vars(st, vs.drop_last());
        match r1 {
            Err(e) => (st1, Err(e)),
            Ok(ws) => {
                let (st2, r2) = lower_var(st1, vs.last());
                match r2 {
                    Err(e) => (st2, Err(e)),
                    Ok(w) => (st2, Ok(ws.push(w))),
                }
            },
        }
    }
}

/// Lower one primitive operation to its target instruction; `out` is the
/// operation's required output, already checked for presence.
pub open spec fn lower_operator(st: CompilerState, op: ir::Operator, out: ir::Variable) -> (
    CompilerState,
    Result<InstructionV, CompileError>,
) {
    match op {
        ir::Operator::Add(o) => {
            let (st1, r1) = lower_var3(st, o.lhs, o.rhs, out);
            match r1 {
                Err(e) => (st1, Err(e)),
                Ok((l, r, w)) => (st1, Ok(InstructionV::Add { lhs: l, rhs: r, out: w })),
            }
        },
        ir::Operator::Sub(o) => {
            let (st1, r1) = lower_var3(st, o.lhs, o.rhs, out);
            match r1 {
                Err(e) => (st1, Err(e)),
                Ok((l, r, w)) => (st1, Ok(InstructionV::Sub { lhs: l, rhs: r, out: w })),
            }
        },
        ir::Operator::Mul(o) => {
            let (st1, r1) = lower_var3(st, o.lhs, o.rhs, out);
            match r1 {
                Err(e) => (st1, Err(e)),
                Ok((l, r, w)) => (st1, Ok(InstructionV::Mul { lhs: l, rhs: r, out: w })),
            }
        },
        ir::Operator::Div(o) => {
            let (st1, r1) = lower_var3(st, o.lhs, o.rhs, out);
            match r1 {
                Err(e) => (st1, Err(e)),
                Ok((l, r, w)) => (st1, Ok(InstructionV::Div { lhs: l, rhs: r, out: w })),
            }
        },
        ir::Operator::Modulo(o) => {
            let (st1, r1) = lower_var3(st, o.lhs, o.rhs, out);
            match r1 {
                Err(e) => (st1, Err(e)),
                Ok((l, r, w)) => (st1, Ok(InstructionV::Modulo { lhs: l, rhs: r, out: w })),
            }
        },
        ir::Operator::Remainder(o) => {
            let (st1, r1) = lower_var3(st, o.lhs, o.rhs, out);
            match r1 {
                Err(e) => (st1, Err(e)),
                Ok((l, r, w)) => (st1, Ok(InstructionV::Remainder { lhs: l, rhs: r, out: w })),
            }
        },
        ir::Operator::Max(o) => {
            let (st1, r1) = lower_var3(st, o.lhs, o.rhs, out);
            match r1 {
                Err(e) => (st1, Err(e)),
                Ok((l, r, w)) => (st1, Ok(InstructionV::Max { lhs: l, rhs: r, out: w })),
            }
        },
        ir::Operator::Min(o) => {
            let (st1, r1) = lower_var3(st, o.lhs, o.rhs, out);
            match r1 {
                Err(e) => (st1, Err(e)),
                Ok((l, r, w)) => (st1, Ok(InstructionV::Min { lhs: l, rhs: r, out: w })),
            }
        },
        ir::Operator::Index(o) => {
            let (st1, r1) = lower_var3(st, o.lhs, o.rhs, out);
            match r1 {
                Err(e) => (st1, Err(e)),
                Ok((l, r, w)) => (st1, Ok(InstructionV::Index { lhs: l, rhs: r, out: w })),
            }
        },
        ir::Operator::UncheckedIndex(o) => {
            let (st1, r1) = lower_var3(st, o.lhs, o.rhs, out);
            match r1 {
                Err(e) => (st1, Err(e)),
                Ok((l, r, w)) => (st1, Ok(InstructionV::Index { lhs: l, rhs: r, out: w })),
            }
        },
        ir::Operator::IndexAssign(o) => {
            let (st1, r1) = lower_var3(st, o.lhs, o.rhs, out);
            match r1 {
                Err(e) => (st1, Err(e)),
                Ok((l, r, w)) => (st1, Ok(InstructionV::IndexAssign { lhs: l, rhs: r, out: w })),
            }
        },
        ir::Operator::UncheckedIndexAssign(o) => {
            let (st1, r1) = lower_var3(st, o.lhs, o.rhs, out);
            match r1 {
                Err(e) => (st1, Err(e)),
                Ok((l, r, w)) => (st1, Ok(InstructionV::IndexAssign { lhs: l, rhs: r, out: w })),
            }
        },
        ir::Operator::Powf(o) => {
            let (st1, r1) = lower_var3(st, o.lhs, o.rhs, out);
            match r1 {
                Err(e) => (st1, Err(e)),
                Ok((l, r, w)) => (st1, Ok(InstructionV::Powf { lhs: l, rhs: r, out: w })),
            }
        },
        ir::Operator::Equal(o) => {
            let (st1, r1) = lower_var3(st, o.lhs, o.rhs, out);
            match r1 {
                Err(e) => (st1, Err(e)),
                Ok((l, r, w)) => (st1, Ok(InstructionV::Equal { lhs: l, rhs: r, out: w })),
            }
        },
        ir::Operator::NotEqual(o) => {
            let (st1, r1) = lower_var3(st, o.lhs, o.rhs, out);
            match r1 {
                Err(e) => (st1, Err(e)),
                Ok((l, r, w)) => (st1, Ok(InstructionV::NotEqual { lhs: l, rhs: r, out: w })),
            }
        },
        ir::Operator::Lower(o) => {
            let (st1, r1) = lower_var3(st, o.lhs, o.rhs, out);
            match r1 {
                Err(e) => (st1, Err(e)),
                Ok((l, r, w)) => (st1, Ok(InstructionV::Lower { lhs: l, rhs: r, out: w })),
            }
        },
        ir::Operator::Greater(o) => {
            let (st1, r1) = lower_var3(st, o.lhs, o.rhs, out);
            match r1 {
                Err(e) => (st1, Err(e)),
                Ok((l, r, w)) => (st1, Ok(InstructionV::Greater { lhs: l, rhs: r, out: w })),
            }
        },
        ir::Operator::LowerEqual(o) => {
            let (st1, r1) = lower_var3(st, o.lhs, o.rhs, out);
            match r1 {
                Err(e) => (st1, Err(e)),
                Ok((l, r, w)) => (st1, Ok(InstructionV::LowerEqual { lhs: l, rhs: r, out: w })),
            }
        },
        ir::Operator::GreaterEqual(o) => {
            let (st1, r1) = lower_var3(st, o.lhs, o.rhs, out);
            match r1 {
                Err(e) => (st1, Err(e)),
                Ok((l, r, w)) => (st1, Ok(InstructionV::GreaterEqual { lhs: l, rhs: r, out: w })),
            }
        },
        ir::Operator::And(o) => {
            let (st1, r1) = lower_var3(st, o.lhs, o.rhs, out);
            match r1 {
                Err(e) => (st1, Err(e)),
                Ok((l, r, w)) => (st1, Ok(InstructionV::And { lhs: l, rhs: r, out: w })),
            }
        },
        ir::Operator::Or(o) => {
            let (st1, r1) = lower_var3(st, o.lhs, o.rhs, out);
            match r1 {
                Err(e) => (st1, Err(e)),
                Ok((l, r, w)) => (st1, Ok(InstructionV::Or { lhs: l, rhs: r, out: w })),
            }
        },
        ir::Operator::BitwiseOr(o) => {
            let (st1, r1) = lower_var3(st, o.lhs, o.rhs, out);
            match r1 {
                Err(e) => (st1, Err(e)),
                Ok((l, r, w)) => (st1, Ok(InstructionV::BitwiseOr { lhs: l, rhs: r, out: w })),
            }
        },
        ir::Operator::BitwiseAnd(o) => {
            let (st1, r1) = lower_var3(st, o.lhs, o.rhs, out);
            match r1 {
                Err(e) => (st1, Err(e)),
                Ok((l, r, w)) => (st1, Ok(InstructionV::BitwiseAnd { lhs: l, rhs: r, out: w })),
            }
        },
        ir::Operator::BitwiseXor(o) => {
            let (st1, r1) = lower_var3(st, o.lhs, o.rhs, out);
            match r1 {
                Err(e) => (st1, Err(e)),
                Ok((l, r, w)) => (st1, Ok(InstructionV::BitwiseXor { lhs: l, rhs: r, out: w })),
            }
        },
        ir::Operator::ShiftLeft(o) => {
            let (st1, r1) = lower_var3(st, o.lhs, o.rhs, out);
            match r1 {
                Err(e) => (st1, Err(e)),
                Ok((l, r, w)) => (st1, Ok(InstructionV::ShiftLeft { lhs: l, rhs: r, out: w })),
            }
        },
        ir::Operator::ShiftRight(o) => {
            let (st1, r1) = lower_var3(st, o.lhs, o.rhs, out);
            match r1 {
                Err(e) => (st1, Err(e)),
                Ok((l, r, w)) => (st1, Ok(InstructionV::ShiftRight { lhs: l, rhs: r, out: w })),
            }
        },
        ir::Operator::Dot(o) => {
            let (st1, r1) = lower_var3(st, o.lhs, o.rhs, out);
            match r1 {
                Err(e) => (st1, Err(e)),
                Ok((l, r, w)) => (st1, Ok(InstructionV::Dot { lhs: l, rhs: r, out: w })),
            }
        },
        ir::Operator::Abs(o) => {
            let (st1, r1) = lower_var2(st, o.input, out);
            match r1 {
                Err(e) => (st1, Err(e)),
                Ok((x, w)) => (st1, Ok(InstructionV::Abs { input: x, out: w })),
            }
        },
        ir::Operator::Exp(o) => {
            let (st1, r1) = lower_var2(st, o.input, out);
            match r1 {
                Err(e) => (st1, Err(e)),
                Ok((x, w)) => (st1, Ok(InstructionV::Exp { input: x, out: w })),
            }
        },
        ir::Operator::Log(o) => {
            let (st1, r1) = lower_var2(st, o.input, out);
            match r1 {
                Err(e) => (st1, Err(e)),
                Ok((x, w)) => (st1, Ok(InstructionV::Log { input: x, out: w })),
            }
        },
        ir::Operator::Log1p(o) => {
            let (st1, r1) = lower_var2(st, o.input, out);
            match r1 {
                Err(e) => (st1, Err(e)),
                Ok((x, w)) => (st1, Ok(InstructionV::Log1p { input: x, out: w })),
            }
        },
        ir::Operator::Cos(o) => {
            let (st1, r1) = lower_var2(st, o.input, out);
            match r1 {
                Err(e) => (st1, Err(e)),
                Ok((x, w)) => (st1, Ok(InstructionV::Cos { input: x, out: w })),
            }
        },
        ir::Operator::Sin(o) => {
            let (st1, r1) = lower_var2(st, o.input, out);
            match r1 {
                Err(e) => (st1, Err(e)),
                Ok((x, w)) => (st1, Ok(InstructionV::Sin { input: x, out: w })),
            }
        },
        ir::Operator::Tanh(o) => {
            let (st1, r1) = lower_var2(st, o.input, out);
            match r1 {
                Err(e) => (st1, Err(e)),
                Ok((x, w)) => (st1, Ok(InstructionV::Tanh { input: x, out: w })),
            }
        },
        ir::Operator::Sqrt(o) => {
            let (st1, r1) = lower_var2(st, o.input, out);
            match r1 {
                Err(e) => (st1, Err(e)),
                Ok((x, w)) => (st1, Ok(InstructionV::Sqrt { input: x, out: w })),
            }
        },
        ir::Operator::Round(o) => {
            let (st1, r1) = lower_var2(st, o.input, out);
            match r1 {
                Err(e) => (st1, Err(e)),
                Ok((x, w)) => (st1, Ok(InstructionV::Round { input: x, out: w })),
            }
        },
        ir::Operator::Floor(o) => {
            let (st1, r1) = lower_var2(st, o.input, out);
            match r1 {
                Err(e) => (st1, Err(e)),
                Ok((x, w)) => (st1, Ok(InstructionV::Floor { input: x, out: w })),
            }
        },
        ir::Operator::Ceil(o) => {
            let (st1, r1) = lower_var2(st, o.input, out);
            match r1 {
                Err(e) => (st1, Err(e)),
                Ok((x, w)) => (st1, Ok(InstructionV::Ceil { input: x, out: w })),
            }
        },
        ir::Operator::Erf(o) => {
            let (st1, r1) = lower_var2(st, o.input, out);
            match r1 {
                Err(e) => (st1, Err(e)),
                Ok((x, w)) => (st1, Ok(InstructionV::Erf { input: x, out: w })),
            }
        },
        ir::Operator::Recip(o) => {
            let (st1, r1) = lower_var2(st, o.input, out);
            match r1 {
                Err(e) => (st1, Err(e)),
                Ok((x, w)) => (st1, Ok(InstructionV::Recip { input: x, out: w })),
            }
        },
        ir::Operator::Cast(o) => {
            let (st1, r1) = lower_var2(st, o.input, out);
            match r1 {
                Err(e) => (st1, Err(e)),
                Ok((x, w)) => (st1, Ok(InstructionV::Assign { input: x, out: w })),
            }
        },
        ir::Operator::Bitcast(o) => {
            let (st1, r1) = lower_var2(st, o.input, out);
            match r1 {
                Err(e) => (st1, Err(e)),
                Ok((x, w)) => (st1, Ok(InstructionV::Bitcast { input: x, out: w })),
            }
        },
        ir::Operator::Not(o) => {
            let (st1, r1) = lower_var2(st, o.input, out);
            match r1 {
                Err(e) => (st1, Err(e)),
                Ok((x, w)) => (st1, Ok(InstructionV::Not { input: x, out: w })),
            }
        },
        ir::Operator::Neg(o) => {
            let (st1, r1) = lower_var2(st, o.input, out);
            match r1 {
                Err(e) => (st1, Err(e)),
                Ok((x, w)) => (st1, Ok(InstructionV::Negate { input: x, out: w })),
            }
        },
        ir::Operator::Magnitude(o) => {
            let (st1, r1) = lower_var2(st, o.input, out);
            match r1 {
                Err(e) => (st1, Err(e)),
                Ok((x, w)) => (st1, Ok(InstructionV::Magnitude { input: x, out: w })),
            }
        },
        ir::Operator::Normalize(o) => {
            let (st1, r1) = lower_var2(st, o.input, out);
            match r1 {
                Err(e) => (st1, Err(e)),
                Ok((x, w)) => (st1, Ok(InstructionV::Normalize { input: x, out: w })),
            }
        },
        ir::Operator::Fma(o) => {
            let (st1, r1) = lower_var4(st, o.a, o.b, o.c, out);
            match r1 {
                Err(e) => (st1, Err(e)),
                Ok((a, b, c, w)) => (st1, Ok(InstructionV::Fma { a, b, c, out: w })),
            }
        },
        ir::Operator::Clamp(o) => {
            let (st1, r1) = lower_var4(st, o.input, o.min_value, o.max_value, out);
            match r1 {
                Err(e) => (st1, Err(e)),
                Ok((x, lo, hi, w)) => (st1, Ok(
                    InstructionV::Clamp { input: x, min_value: lo, max_value: hi, out: w },
                )),
            }
        },
        ir::Operator::Select(o) => {
            let (st1, r1) = lower_var4(st, o.cond, o.then_value, o.or_else, out);
            match r1 {
                Err(e) => (st1, Err(e)),
                Ok((c, t, f, w)) => (st1, Ok(
                    InstructionV::Select { cond: c, then_value: t, or_else: f, out: w },
                )),
            }
        },
        ir::Operator::Slice(o) => {
            let (st1, r1) = lower_var4(st, o.input, o.start, o.end, out);
            match r1 {
                Err(e) => (st1, Err(e)),
                Ok((x, s0, s1, w)) => (st1, Ok(
                    InstructionV::Slice { input: x, start: s0, end: s1, out: w },
                )),
            }
        },
        ir::Operator::CopyMemory(o) => {
            let (st1, r1) = lower_var4(st, o.input, o.in_index, out, o.out_index);
            match r1 {
                Err(e) => (st1, Err(e)),
                Ok((x, ii, w, oi)) => (st1, Ok(
                    InstructionV::Copy { input: x, in_index: ii, out: w, out_index: oi },
                )),
            }
        },
        ir::Operator::CopyMemoryBulk(o) => {
            let (st1, r1) = lower_var4(st, o.input, o.in_index, out, o.out_index);
            match r1 {
                Err(e) => (st1, Err(e)),
                Ok((x, ii, w, oi)) => (st1, Ok(
                    InstructionV::CopyBulk {
                        input: x,
                        in_index: ii,
                        out: w,
                        out_index: oi,
                        len: o.len,
                    },
                )),
            }
        },
        ir::Operator::InitLine(o) => {
            let (st1, r1) = lower_vars(st, o.inputs@);
            match r1 {
                Err(e) => (st1, Err(e)),
                Ok(ins) => {
                    let (st2, r2) = lower_var(st1, out);
                    match r2 {
                        Err(e) => (st2, Err(e)),
                        Ok(w) => (st2, Ok(InstructionV::VecInit { inputs: ins, out: w })),
                    }
                },
            }
        },
    }
}

/// Lower one atomic operation.
pub open spec fn lower_atomic(st: CompilerState, op: ir::AtomicOp, out: ir::Variable) -> (
    CompilerState,
    Result<InstructionV, CompileError>,
) {
    match op {
        ir::AtomicOp::Add(o) => {
            let (st1, r1) = lower_var3(st, o.lhs, o.rhs, out);
            match r1 {
                Err(e) => (st1, Err(e)),
                Ok((l, r, w)) => (st1, Ok(InstructionV::AtomicAdd { lhs: l, rhs: r, out: w })),
            }
        },
        ir::AtomicOp::Sub(o) => {
            let (st1, r1) = lower_var3(st, o.lhs, o.rhs, out);
            match r1 {
                Err(e) => (st1, Err(e)),
                Ok((l, r, w)) => (st1, Ok(InstructionV::AtomicSub { lhs: l, rhs: r, out: w })),
            }
        },
        ir::AtomicOp::Max(o) => {
            let (st1, r1) = lower_var3(st, o.lhs, o.rhs, out);
            match r1 {
                Err(e) => (st1, Err(e)),
                Ok((l, r, w)) => (st1, Ok(InstructionV::AtomicMax { lhs: l, rhs: r, out: w })),
            }
        },
        ir::AtomicOp::Min(o) => {
            let (st1, r1) = lower_var3(st, o.lhs, o.rhs, out);
            match r1 {
                Err(e) => (st1, Err(e)),
                Ok((l, r, w)) => (st1, Ok(InstructionV::AtomicMin { lhs: l, rhs: r, out: w })),
            }
        },
        ir::AtomicOp::And(o) => {
            let (st1, r1) = lower_var3(st, o.lhs, o.rhs, out);
            match r1 {
                Err(e) => (st1, Err(e)),
                Ok((l, r, w)) => (st1, Ok(InstructionV::AtomicAnd { lhs: l, rhs: r, out: w })),
            }
        },
        ir::AtomicOp::Or(o) => {
            let (st1, r1) = lower_var3(st, o.lhs, o.rhs, out);
            match r1 {
                Err(e) => (st1, Err(e)),
                Ok((l, r, w)) => (st1, Ok(InstructionV::AtomicOr { lhs: l, rhs: r, out: w })),
            }
        },
        ir::AtomicOp::Xor(o) => {
            let (st1, r1) = lower_var3(st, o.lhs, o.rhs, out);
            match r1 {
                Err(e) => (st1, Err(e)),
                Ok((l, r, w)) => (st1, Ok(InstructionV::AtomicXor { lhs: l, rhs: r, out: w })),
            }
        },
        ir::AtomicOp::Swap(o) => {
            let (st1, r1) = lower_var3(st, o.lhs, o.rhs, out);
            match r1 {
                Err(e) => (st1, Err(e)),
                Ok((l, r, w)) => (st1, Ok(InstructionV::AtomicSwap { lhs: l, rhs: r, out: w })),
            }
        },
        ir::AtomicOp::Load(o) => {
            let (st1, r1) = lower_var2(st, o.input, out);
            match r1 {
                Err(e) => (st1, Err(e)),
                Ok((x, w)) => (st1, Ok(InstructionV::AtomicLoad { input: x, out: w })),
            }
        },
        ir::AtomicOp::Store(o) => {
            let (st1, r1) = lower_var2(st, o.input, out);
            match r1 {
                Err(e) => (st1, Err(e)),
                Ok((x, w)) => (st1, Ok(InstructionV::AtomicStore { input: x, out: w })),
            }
        },
        ir::AtomicOp::CompareAndSwap(o) => {
            let (st1, r1) = lower_var4(st, o.input, o.cmp, o.val, out);
            match r1 {
                Err(e) => (st1, Err(e)),
                Ok((x, cmp, value, w)) => (st1, Ok(
                    InstructionV::AtomicCompareExchangeWeak { lhs: x, cmp, value, out: w },
                )),
            }
        },
    }
}

/// Lower one subgroup collective.
pub open spec fn lower_subgroup(st: CompilerState, op: ir::Subcube, out: ir::Variable) -> (
    CompilerState,
    Result<InstructionV, CompileError>,
) {
    match op {
        ir::Subcube::Elect => {
            let (st1, r1) = lower_var(st, out);
            match r1 {
                Err(e) => (st1, Err(e)),
                Ok(w) => (st1, Ok(InstructionV::Subgroup(wgsl::Subgroup::Elect { out: w }))),
            }
        },
        ir::Subcube::All(o) => {
            let (st1, r1) = lower_var2(st, o.input, out);
            match r1 {
                Err(e) => (st1, Err(e)),
                Ok((x, w)) => (st1, Ok(
                    InstructionV::Subgroup(wgsl::Subgroup::All { input: x, out: w }),
                )),
            }
        },
        ir::Subcube::Any(o) => {
            let (st1, r1) = lower_var2(st, o.input, out);
            match r1 {
                Err(e) => (st1, Err(e)),
                Ok((x, w)) => (st1, Ok(
                    InstructionV::Subgroup(wgsl::Subgroup::Any { input: x, out: w }),
                )),
            }
        },
        ir::Subcube::Sum(o) => {
            let (st1, r1) = lower_var2(st, o.input, out);
            match r1 {
                Err(e) => (st1, Err(e)),
                Ok((x, w)) => (st1, Ok(
                    InstructionV::Subgroup(wgsl::Subgroup::Sum { input: x, out: w }),
                )),
            }
        },
        ir::Subcube::Prod(o) => {
            let (st1, r1) = lower_var2(st, o.input, out);
            match r1 {
                Err(e) => (st1, Err(e)),
                Ok((x, w)) => (st1, Ok(
                    InstructionV::Subgroup(wgsl::Subgroup::Prod { input: x, out: w }),
                )),
            }
        },
        ir::Subcube::Min(o) => {
            let (st1, r1) = lower_var2(st, o.input, out);
            match r1 {
                Err(e) => (st1, Err(e)),
                Ok((x, w)) => (st1, Ok(
                    InstructionV::Subgroup(wgsl::Subgroup::Min { input: x, out: w }),
                )),
            }
        },
        ir::Subcube::Max(o) => {
            let (st1, r1) = lower_var2(st, o.input, out);
            match r1 {
                Err(e) => (st1, Err(e)),
                Ok((x, w)) => (st1, Ok(
                    InstructionV::Subgroup(wgsl::Subgroup::Max { input: x, out: w }),
                )),
            }
        },
        ir::Subcube::Broadcast(o) => {
            let (st1, r1) = lower_var3(st, o.lhs, o.rhs, out);
            match r1 {
                Err(e) => (st1, Err(e)),
                Ok((l, r, w)) => (st1, Ok(
                    InstructionV::Subgroup(wgsl::Subgroup::Broadcast { lhs: l, rhs: r, out: w }),
                )),
            }
        },
    }
}

/// Reduction of an offset to the 64-bit word that carries it.
pub open spec fn wrap64(x: int) -> u64 {
    (x % 0x1_0000_0000_0000_0000) as u64
}

/// The emitted constant carrying a metadata-table offset: an unsigned
/// 32-bit scalar.
pub open spec fn meta_const(offset: int) -> wgsl::Variable {
    wgsl::Variable::ConstantScalar(
        ir::ConstantScalarValue::UInt(wrap64(offset), ir::UIntKind::U32),
        wgsl::Elem::U32,
    )
}

/// Offset of the `rank` entry of extended binding `pos`; see
/// [`Metadata::rank_index`].
pub open spec fn rank_index_val(m: Metadata, pos: u32) -> int {
    2 * m.num_meta + pos
}

/// Offset of the stored shape offset of extended binding `pos`; see
/// [`Metadata::shape_offset_index`].
pub open spec fn shape_offset_val(m: Metadata, pos: u32) -> int {
    2 * m.num_meta + m.num_ext + pos
}

/// Offset of the stored stride offset of extended binding `pos`; see
/// [`Metadata::stride_offset_index`].
pub open spec fn stride_offset_val(m: Metadata, pos: u32) -> int {
    2 * m.num_meta + 2 * m.num_ext + pos
}

/// Offset of the `buffer_length` entry of binding `position`; see
/// [`Metadata::buffer_len_index`].
pub open spec fn buffer_len_val(m: Metadata, position: int) -> int {
    m.num_meta + position
}

/// Lower one metadata query. Rank, shape and stride go through the
/// extended-meta position of the queried global array; lengths of global
/// arrays go through the binding position; a length of anything else is a
/// direct length instruction.
pub open spec fn lower_metadata(st: CompilerState, m: ir::MetadataOp, out: ir::Variable) -> (
    CompilerState,
    Result<InstructionV, CompileError>,
) {
    match m {
        ir::MetadataOp::Rank { var } => match ext_pos_of(st, var) {
            Err(e) => (st, Err(e)),
            Ok(pos) => {
                let (st1, r1) = lower_var(st, out);
                match r1 {
                    Err(e) => (st1, Err(e)),
                    Ok(w) => (st1, Ok(
                        InstructionV::Metadata {
                            out: w,
                            info_offset: meta_const(rank_index_val(st.metadata, pos)),
                        },
                    )),
                }
            },
        },
        ir::MetadataOp::Stride { dim, var } => match ext_pos_of(st, var) {
            Err(e) => (st, Err(e)),
            Ok(pos) => {
                let (st1, r1) = lower_var2(st, dim, out);
                match r1 {
                    Err(e) => (st1, Err(e)),
                    Ok((d, w)) => (st1, Ok(
                        InstructionV::ExtendedMeta {
                            info_offset: meta_const(stride_offset_val(st.metadata, pos)),
                            dim: d,
                            out: w,
                        },
                    )),
                }
            },
        },
        ir::MetadataOp::Shape { dim, var } => match ext_pos_of(st, var) {
            Err(e) => (st, Err(e)),
            Ok(pos) => {
                let (st1, r1) = lower_var2(st, dim, out);
                match r1 {
                    Err(e) => (st1, Err(e)),
                    Ok((d, w)) => (st1, Ok(
                        InstructionV::ExtendedMeta {
                            info_offset: meta_const(shape_offset_val(st.metadata, pos)),
                            dim: d,
                            out: w,
                        },
                    )),
                }
            },
        },
        ir::MetadataOp::Length { var } => match var.kind {
            ir::VariableKind::GlobalInputArray(id) => {
                let (st1, r1) = lower_var(st, out);
                match r1 {
                    Err(e) => (st1, Err(e)),
                    Ok(w) => (st1, Ok(
                        InstructionV::Metadata { out: w, info_offset: meta_const(id as int) },
                    )),
                }
            },
            ir::VariableKind::GlobalOutputArray(id) => {
                let (st1, r1) = lower_var(st, out);
                match r1 {
                    Err(e) => (st1, Err(e)),
                    Ok(w) => (st1, Ok(
                        InstructionV::Metadata {
                            out: w,
                            info_offset: meta_const(st.num_inputs + id),
                        },
                    )),
                }
            },
            _ => {
                let (st1, r1) = lower_var2(st, var, out);
                match r1 {
                    Err(e) => (st1, Err(e)),
                    Ok((v, w)) => (st1, Ok(InstructionV::Length { var: v, out: w })),
                }
            },
        },
        ir::MetadataOp::BufferLength { var } => match var.kind {
            ir::VariableKind::GlobalInputArray(id) => {
                let (st1, r1) = lower_var(st, out);
                match r1 {
                    Err(e) => (st1, Err(e)),
                    Ok(w) => (st1, Ok(
                        InstructionV::Metadata {
                            out: w,
                            info_offset: meta_const(buffer_len_val(st.metadata, id as int)),
                        },
                    )),
                }
            },
            ir::VariableKind::GlobalOutputArray(id) => {
                let (st1, r1) = lower_var(st, out);
                match r1 {
                    Err(e) => (st1, Err(e)),
                    Ok(w) => (st1, Ok(
                        InstructionV::Metadata {
                            out: w,
                            info_offset: meta_const(
                                buffer_len_val(st.metadata, st.num_inputs + id),
                            ),
                        },
                    )),
                }
            },
            _ => {
                let (st1, r1) = lower_var2(st, var, out);
                match r1 {
                    Err(e) => (st1, Err(e)),
                    Ok((v, w)) => (st1, Ok(InstructionV::Length { var: v, out: w })),
                }
            },
        },
    }
}

/// The output a value-producing operation requires.
pub open spec fn req_out(out: Option<ir::Variable>) -> Result<ir::Variable, CompileError> {
    match out {
        Some(v) => Ok(v),
        None => Err(CompileError::InvariantViolation),
    }
}

/// Lower one statement of a scope to exactly one target instruction.
pub open spec fn lower_statement(st: CompilerState, s: ir::Instruction) -> (
    CompilerState,
    Result<InstructionV, CompileError>,
)
    decreases s,
{
    match s.operation {
        ir::Operation::Copy(v) => match req_out(s.out) {
            Err(e) => (st, Err(e)),
            Ok(o) => {
                let (st1, r1) = lower_var2(st, v, o);
                match r1 {
                    Err(e) => (st1, Err(e)),
                    Ok((x, w)) => (st1, Ok(InstructionV::Assign { input: x, out: w })),
                }
            },
        },
        ir::Operation::Operator(op) => match req_out(s.out) {
            Err(e) => (st, Err(e)),
            Ok(o) => lower_operator(st, op, o),
        },
        ir::Operation::Atomic(op) => match req_out(s.out) {
            Err(e) => (st, Err(e)),
            Ok(o) => lower_atomic(st, op, o),
        },
        ir::Operation::Metadata(op) => match req_out(s.out) {
            Err(e) => (st, Err(e)),
            Ok(o) => lower_metadata(st, op, o),
        },
        ir::Operation::Branch(b) => lower_branch(st, b),
        ir::Operation::Synchronization(x) => (
            st,
            Ok(
                match x {
                    ir::Synchronization::SyncUnits => InstructionV::WorkgroupBarrier,
                    ir::Synchronization::SyncStorage => InstructionV::StorageBarrier,
                },
            ),
        ),
        ir::Operation::Subcube(op) => match req_out(s.out) {
            Err(e) => (st, Err(e)),
            Ok(o) => lower_subgroup(st, op, o),
        },
        ir::Operation::CoopMma => (st, Err(CompileError::UnsupportedFeature)),
    }
}

/// Lower a control-flow form; child scopes recurse.
pub open spec fn lower_branch(st: CompilerState, b: ir::Branch) -> (
    CompilerState,
    Result<InstructionV, CompileError>,
)
    decreases b,
{
    match b {
        ir::Branch::If(op) => {
            let (st1, r1) = lower_var(st, op.cond);
            match r1 {
                Err(e) => (st1, Err(e)),
                Ok(c) => {
                    let (st2, r2) = lower_scope(st1, op.scope);
                    match r2 {
                        Err(e) => (st2, Err(e)),
                        Ok(instrs) => (st2, Ok(
                            InstructionV::If { cond: c, instructions: instrs },
                        )),
                    }
                },
            }
        },
        ir::Branch::IfElse(op) => {
            let (st1, r1) = lower_var(st, op.cond);
            match r1 {
                Err(e) => (st1, Err(e)),
                Ok(c) => {
                    let (st2, r2) = lower_scope(st1, op.scope_if);
                    match r2 {
                        Err(e) => (st2, Err(e)),
                        Ok(instrs_if) => {
                            let (st3, r3) = lower_scope(st2, op.scope_else);
                            match r3 {
                                Err(e) => (st3, Err(e)),
                                Ok(instrs_else) => (st3, Ok(
                                    InstructionV::IfElse {
                                        cond: c,
                                        instructions_if: instrs_if,
                                        instructions_else: instrs_else,
                                    },
                                )),
                            }
                        },
                    }
                },
            }
        },
        ir::Branch::Switch(op) => {
            let (st1, r1) = lower_var(st, op.value);
            match r1 {
                Err(e) => (st1, Err(e)),
                Ok(v) => {
                    let (st2, r2) = lower_scope(st1, op.scope_default);
                    match r2 {
                        Err(e) => (st2, Err(e)),
                        Ok(dflt) => {
                            let (st3, r3) = lower_cases(st2, op.cases@);
                            match r3 {
                                Err(e) => (st3, Err(e)),
                                Ok(cases) => (st3, Ok(
                                    InstructionV::Switch {
                                        value: v,
                                        instructions_default: dflt,
                                        cases,
                                    },
                                )),
                            }
                        },
                    }
                },
            }
        },
        ir::Branch::RangeLoop(op) => {
            let (st1, r1) = lower_var3(st, op.i, op.start, op.end);
            match r1 {
                Err(e) => (st1, Err(e)),
                Ok((iv, sv, ev)) => {
                    let (st2, r2) = lower_step(st1, op.step);
                    match r2 {
                        Err(e) => (st2, Err(e)),
                        Ok(step) => {
                            let (st3, r3) = lower_scope(st2, op.scope);
                            match r3 {
                                Err(e) => (st3, Err(e)),
                                Ok(instrs) => (st3, Ok(
                                    InstructionV::RangeLoop {
                                        i: iv,
                                        start: sv,
                                        end: ev,
                                        step,
                                        inclusive: op.inclusive,
                                        instructions: instrs,
                                    },
                                )),
                            }
                        },
                    }
                },
            }
        },
        ir::Branch::Loop(op) => {
            let (st1, r1) = lower_scope(st, op.scope);
            match r1 {
                Err(e) => (st1, Err(e)),
                Ok(instrs) => (st1, Ok(InstructionV::Loop { instructions: instrs })),
            }
        },
        ir::Branch::Return => (st, Ok(InstructionV::Return)),
        ir::Branch::Break => (st, Ok(InstructionV::Break)),
    }
}

/// Lower the optional step of a counted loop.
pub open spec fn lower_step(st: CompilerState, step: Option<ir::Variable>) -> (
    CompilerState,
    Result<Option<wgsl::Variable>, CompileError>,
) {
    match step {
        None => (st, Ok(None)),
        Some(v) => {
            let (st1, r1) = lower_var(st, v);
            match r1 {
                Err(e) => (st1, Err(e)),
                Ok(w) => (st1, Ok(Some(w))),
            }
        },
    }
}

/// Lower the case list of a switch, keeping source order.
pub open spec fn lower_cases(st: CompilerState, cs: Seq<(ir::Variable, ir::Scope)>) -> (
    CompilerState,
    Result<Seq<(wgsl::Variable, Seq<InstructionV>)>, CompileError>,
)
    decreases cs,
{
    if cs.len() == 0 {
        (st, Ok(Seq::empty()))
    } else {
        let (st1, r1) = lower_cases(st, cs.drop_last());
        match r1 {
            Err(e) => (st1, Err(e)),
            Ok(acc) => {
                let (st2, r2) = lower_var(st1, cs.last().0);
                match r2 {
                    Err(e) => (st2, Err(e)),
                    Ok(v) => {
                        let (st3, r3) = lower_scope(st2, cs.last().1);
                        match r3 {
                            Err(e) => (st3, Err(e)),
                            Ok(instrs) => (st3, Ok(acc.push((v, instrs)))),
                        }
                    },
                }
            },
        }
    }
}

/// Drain one constant-array literal into the state's declaration list.
pub open spec fn lower_const_array(st: CompilerState, ca: (ir::Variable, Vec<ir::Variable>)) -> (
    CompilerState,
    Result<(), CompileError>,
) {
    match ca.0.index() {
        None => (st, Err(CompileError::InvariantViolation)),
        Some(idx) => match lower_item(ca.0.item) {
            Err(e) => (st, Err(e)),
            Ok(item) => {
                let (st1, r1) = lower_vars(st, ca.1@);
                match r1 {
                    Err(e) => (st1, Err(e)),
                    Ok(vals) => (
                        CompilerState {
                            const_arrays: st1.const_arrays.push(
                                ConstantArrayV {
                                    index: idx,
                                    item,
                                    size: ca.1@.len() as usize,
                                    values: vals,
                                },
                            ),
                            ..st1
                        },
                        Ok(()),
                    ),
                }
            },
        },
    }
}

/// Drain a scope's constant-array literals, in order.
pub open spec fn lower_const_arrays(
    st: CompilerState,
    cas: Seq<(ir::Variable, Vec<ir::Variable>)>,
) -> (CompilerState, Result<(), CompileError>)
    decreases cas,
{
    if cas.len() == 0 {
        (st, Ok(()))
    } else {
        let (st1, r1) = lower_const_arrays(st, cas.drop_last());
        match r1 {
            Err(e) => (st1, Err(e)),
            Ok(u) => lower_const_array(st1, cas.last()),
        }
    }
}

/// Declare a scope's variables in order, skipping slices: a slice is only
/// ever a reference, never a declaration.
pub open spec fn lower_decls(st: CompilerState, vs: Seq<ir::Variable>) -> (
    CompilerState,
    Result<Seq<InstructionV>, CompileError>,
)
    decreases vs,
{
    if vs.len() == 0 {
        (st, Ok(Seq::empty()))
    } else {
        let (st1, r1) = lower_decls(st, vs.drop_last());
        match r1 {
            Err(e) => (st1, Err(e)),
            Ok(ds) => if vs.last().kind is Slice {
                (st1, Ok(ds))
            } else {
                let (st2, r2) = lower_var(st1, vs.last());
                match r2 {
                    Err(e) => (st2, Err(e)),
                    Ok(w) => (st2, Ok(ds.push(InstructionV::DeclareVariable { var: w }))),
                }
            },
        }
    }
}

/// Lower a scope's statements in source order, one instruction each.
pub open spec fn lower_stmts(st: CompilerState, ops: Seq<ir::Instruction>) -> (
    CompilerState,
    Result<Seq<InstructionV>, CompileError>,
)
    decreases ops,
{
    if ops.len() == 0 {
        (st, Ok(Seq::empty()))
    } else {
        let (st1, r1) = lower_stmts(st, ops.drop_last());
        match r1 {
            Err(e) => (st1, Err(e)),
            Ok(acc) => {
                let (st2, r2) = lower_statement(st1, ops.last());
                match r2 {
                    Err(e) => (st2, Err(e)),
                    Ok(instr) => (st2, Ok(acc.push(instr))),
                }
            },
        }
    }
}

/// Lower one scope: drain its constant arrays, declare its variables, then
/// lower its statements; the declarations precede the statements in the
/// result.
pub open spec fn lower_scope(st: CompilerState, s: ir::Scope) -> (
    CompilerState,
    Result<Seq<InstructionV>, CompileError>,
)
    decreases s,
{
    let (st1, r1) = lower_const_arrays(st, s.const_arrays@);
    match r1 {
        Err(e) => (st1, Err(e)),
        Ok(u) => {
            let (st2, r2) = lower_decls(st1, s.variables@);
            match r2 {
                Err(e) => (st2, Err(e)),
                Ok(decls) => {
                    let (st3, r3) = lower_stmts(st2, s.operations@);
                    match r3 {
                        Err(e) => (st3, Err(e)),
                        Ok(instrs) => (st3, Ok(decls + instrs)),
                    }
                },
            }
        },
    }
}

/// Lower a binding's visibility.
pub open spec fn lower_visibility(v: ir::Visibility) -> wgsl::Visibility {
    match v {
        ir::Visibility::Read => wgsl::Visibility::Read,
        ir::Visibility::ReadWrite => wgsl::Visibility::ReadWrite,
    }
}

/// Lower a binding's memory location.
pub open spec fn lower_location(l: ir::Location) -> wgsl::Location {
    match l {
        ir::Location::Storage => wgsl::Location::Storage,
        ir::Location::Cube => wgsl::Location::Workgroup,
    }
}

/// Lower one buffer binding.
pub open spec fn lower_binding(b: ir::Binding) -> Result<wgsl::Binding, CompileError> {
    match lower_item(b.item) {
        Err(e) => Err(e),
        Ok(item) => Ok(
            wgsl::Binding {
                visibility: lower_visibility(b.visibility),
                location: lower_location(b.location),
                item,
                size: b.size,
            },
        ),
    }
}

/// Lower a binding list, failing on the first unsupported one.
pub open spec fn lower_bindings(bs: Seq<ir::Binding>) -> Result<Seq<wgsl::Binding>, CompileError>
    decreases bs,
{
    if bs.len() == 0 {
        Ok(Seq::empty())
    } else {
        match lower_bindings(bs.drop_last()) {
            Err(e) => Err(e),
            Ok(acc) => match lower_binding(bs.last()) {
                Err(e) => Err(e),
                Ok(b) => Ok(acc.push(b)),
            },
        }
    }
}

/// Lower the named-binding list, keeping names and order.
pub open spec fn lower_named(ns: Seq<(String, ir::Binding)>) -> Result<
    Seq<(Seq<char>, wgsl::Binding)>,
    CompileError,
>
    decreases ns,
{
    if ns.len() == 0 {
        Ok(Seq::empty())
    } else {
        match lower_named(ns.drop_last()) {
            Err(e) => Err(e),
            Ok(acc) => match lower_binding(ns.last().1) {
                Err(e) => Err(e),
                Ok(b) => Ok(acc.push((ns.last().0@, b))),
            },
        }
    }
}

/// How many of these bindings carry extended metadata.
pub open spec fn ext_count(bs: Seq<ir::Binding>) -> int
    decreases bs,
{
    if bs.len() == 0 {
        0
    } else {
        ext_count(bs.drop_last()) + if bs.last().has_extended_meta {
            1int
        } else {
            0int
        }
    }
}

/// The extended-meta position of every binding: the number of
/// extended-meta bindings strictly before it.
pub open spec fn ext_positions(bs: Seq<ir::Binding>) -> Seq<u32> {
    Seq::new(bs.len(), |i: int| ext_count(bs.take(i)) as u32)
}

/// A kernel definition small enough for the 32-bit metadata layout; forced
/// by the machine representation, not by the translation.
pub open spec fn kernel_fits(k: ir::KernelDefinition) -> bool {
    k.inputs@.len() + k.outputs@.len() <= crate::metadata::MAX_META_BINDINGS
}

/// One whole compile from a starting state: count the bindings and fix
/// their metadata positions, lower the root scope, collect the extensions
/// of the lowered body, map the bindings, and assemble the shader record
/// with the composite built-in advertisement rules:
/// the flat absolute position needs both the global invocation id and the
/// workgroup counts, and the axis-less workgroup queries advertise their
/// per-axis forms.
pub open spec fn spec_compile_kernel(st0: CompilerState, k: ir::KernelDefinition) -> (
    CompilerState,
    Result<crate::wgsl_model::ComputeShaderV, CompileError>,
) {
    let all = k.inputs@ + k.outputs@;
    let st1 = CompilerState {
        num_inputs: k.inputs@.len() as usize,
        num_outputs: k.outputs@.len() as usize,
        ext_meta_pos: ext_positions(all),
        metadata: Metadata {
            num_meta: (k.inputs@.len() + k.outputs@.len()) as u32,
            num_ext: ext_count(all) as u32,
        },
        ..st0
    };
    let (st2, rbody) = lower_scope(st1, k.body);
    match rbody {
        Err(e) => (st2, Err(e)),
        Ok(instrs) => {
            let exts = crate::extensions::collected_exts(instrs, st2.safe_tanh);
            match lower_bindings(k.inputs@) {
                Err(e) => (st2, Err(e)),
                Ok(ins) => match lower_bindings(k.outputs@) {
                    Err(e) => (st2, Err(e)),
                    Ok(outs) => match lower_named(k.named@) {
                        Err(e) => (st2, Err(e)),
                        Ok(named) => (
                            st2,
                            Ok(
                                crate::wgsl_model::ComputeShaderV {
                                    inputs: ins,
                                    outputs: outs,
                                    named,
                                    shared_memories: st2.shared_memories,
                                    constant_arrays: st2.const_arrays,
                                    local_arrays: st2.local_arrays,
                                    workgroup_size: k.cube_dim,
                                    global_invocation_id: st2.flags.global_invocation_id
                                        || st2.flags.id,
                                    local_invocation_index: st2.flags.local_invocation_index,
                                    local_invocation_id: st2.flags.local_invocation_id,
                                    num_workgroups: st2.flags.id || st2.flags.num_workgroups
                                        || st2.flags.num_workgroup_no_axis
                                        || st2.flags.workgroup_id_no_axis,
                                    workgroup_id: st2.flags.workgroup_id
                                        || st2.flags.workgroup_id_no_axis,
                                    subgroup_size: st2.flags.subgroup_size,
                                    body: crate::wgsl_model::BodyV {
                                        instructions: instrs,
                                        id: st2.flags.id,
                                    },
                                    extensions: exts,
                                    num_workgroups_no_axis: st2.flags.num_workgroup_no_axis,
                                    workgroup_id_no_axis: st2.flags.workgroup_id_no_axis,
                                    workgroup_size_no_axis: st2.flags.workgroup_size_no_axis,
                                },
                            ),
                        ),
                    },
                },
            }
        },
    }
}

/// The byte size of the target form of a scalar element.
pub open spec fn elem_size_of(e: ir::Elem) -> Result<usize, CompileError> {
    match lower_elem(e) {
        Ok(we) => Ok(we.spec_size()),
        Err(err) => Err(err),
    }
}

/// How an executable instruction result matches a modeled one.
pub open spec fn instr_matches(
    r: Result<wgsl::Instruction, CompileError>,
    sr: Result<InstructionV, CompileError>,
) -> bool {
    match (r, sr) {
        (Ok(i), Ok(iv)) => i.deep_view() == iv,
        (Err(a), Err(b)) => a == b,
        _ => false,
    }
}

/// How an executable instruction list matches a modeled one.
pub open spec fn instrs_match(
    r: Result<Vec<wgsl::Instruction>, CompileError>,
    sr: Result<Seq<InstructionV>, CompileError>,
) -> bool {
    match (r, sr) {
        (Ok(v), Ok(s)) => crate::wgsl_model::view_instrs(v@) == s,
        (Err(a), Err(b)) => a == b,
        _ => false,
    }
}

/// How an executable shader record matches a modeled one.
pub open spec fn shader_matches(
    r: Result<wgsl::ComputeShader, CompileError>,
    sr: Result<crate::wgsl_model::ComputeShaderV, CompileError>,
) -> bool {
    match (r, sr) {
        (Ok(s), Ok(sv)) => s.deep_view() == sv,
        (Err(a), Err(b)) => a == b,
        _ => false,
    }
}

/// No binding list has fewer extended-meta members than none or more than
/// all.
pub proof fn lemma_ext_count_bounds(bs: Seq<ir::Binding>)
    ensures
        0 <= ext_count(bs) <= bs.len(),
    decreases bs,
{
    if bs.len() > 0 {
        lemma_ext_count_bounds(bs.drop_last());
    }
}

/// A failure while lowering a prefix of a variable list decides the whole
/// list.
pub proof fn lemma_vars_prefix_err(st: CompilerState, vs: Seq<ir::Variable>, i: int)
    requires
        0 <= i <= vs.len(),
        lower_vars(st, vs.take(i)).1 is Err,
    ensures
        lower_vars(st, vs) == lower_vars(st, vs.take(i)),
    decreases vs.len() - i,
{
    if i < vs.len() {
        assert(vs.take(i + 1).drop_last() =~= vs.take(i));
        assert(lower_vars(st, vs.take(i + 1)) == lower_vars(st, vs.take(i)));
        lemma_vars_prefix_err(st, vs, i + 1);
    } else {
        assert(vs.take(i) =~= vs);
    }
}

/// A failure while lowering a prefix of a statement list decides the whole
/// list.
pub proof fn lemma_stmts_prefix_err(st: CompilerState, ops: Seq<ir::Instruction>, i: int)
    requires
        0 <= i <= ops.len(),
        lower_stmts(st, ops.take(i)).1 is Err,
    ensures
        lower_stmts(st, ops) == lower_stmts(st, ops.take(i)),
    decreases ops.len() - i,
{
    if i < ops.len() {
        assert(ops.take(i + 1).drop_last() =~= ops.take(i));
        assert(lower_stmts(st, ops.take(i + 1)) == lower_stmts(st, ops.take(i)));
        lemma_stmts_prefix_err(st, ops, i + 1);
    } else {
        assert(ops.take(i) =~= ops);
    }
}

/// A failure while lowering a prefix of a case list decides the whole
/// list.
pub proof fn lemma_cases_prefix_err(st: CompilerState, cs: Seq<(ir::Variable, ir::Scope)>, i: int)
    requires
        0 <= i <= cs.len(),
        lower_cases(st, cs.take(i)).1 is Err,
    ensures
        lower_cases(st, cs) == lower_cases(st, cs.take(i)),
    decreases cs.len() - i,
{
    if i < cs.len() {
        assert(cs.take(i + 1).drop_last() =~= cs.take(i));
        assert(lower_cases(st, cs.take(i + 1)) == lower_cases(st, cs.take(i)));
        lemma_cases_prefix_err(st, cs, i + 1);
    } else {
        assert(cs.take(i) =~= cs);
    }
}

/// A failure while draining a prefix of the constant arrays decides the
/// whole list.
pub proof fn lemma_const_arrays_prefix_err(
    st: CompilerState,
    cas: Seq<(ir::Variable, Vec<ir::Variable>)>,
    i: int,
)
    requires
        0 <= i <= cas.len(),
        lower_const_arrays(st, cas.take(i)).1 is Err,
    ensures
        lower_const_arrays(st, cas) == lower_const_arrays(st, cas.take(i)),
    decreases cas.len() - i,
{
    if i < cas.len() {
        assert(cas.take(i + 1).drop_last() =~= cas.take(i));
        assert(lower_const_arrays(st, cas.take(i + 1)) == lower_const_arrays(st, cas.take(i)));
        lemma_const_arrays_prefix_err(st, cas, i + 1);
    } else {
        assert(cas.take(i) =~= cas);
    }
}

/// A failure while declaring a prefix of a scope's variables decides the
/// whole list.
pub proof fn lemma_decls_prefix_err(st: CompilerState, vs: Seq<ir::Variable>, i: int)
    requires
        0 <= i <= vs.len(),
        lower_decls(st, vs.take(i)).1 is Err,
    ensures
        lower_decls(st, vs) == lower_decls(st, vs.take(i)),
    decreases vs.len() - i,
{
    if i < vs.len() {
        assert(vs.take(i + 1).drop_last() =~= vs.take(i));
        assert(lower_decls(st, vs.take(i + 1)) == lower_decls(st, vs.take(i)));
        lemma_decls_prefix_err(st, vs, i + 1);
    } else {
        assert(vs.take(i) =~= vs);
    }
}

/// A failure while lowering a prefix of a binding list decides the whole
/// list.
pub proof fn lemma_bindings_prefix_err(bs: Seq<ir::Binding>, i: int)
    requires
        0 <= i <= bs.len(),
        lower_bindings(bs.take(i)) is Err,
    ensures
        lower_bindings(bs) == lower_bindings(bs.take(i)),
    decreases bs.len() - i,
{
    if i < bs.len() {
        assert(bs.take(i + 1).drop_last() =~= bs.take(i));
        assert(lower_bindings(bs.take(i + 1)) == lower_bindings(bs.take(i)));
        lemma_bindings_prefix_err(bs, i + 1);
    } else {
        assert(bs.take(i) =~= bs);
    }
}

/// A failure while lowering a prefix of the named bindings decides the
/// whole list.
pub proof fn lemma_named_prefix_err(ns: Seq<(String, ir::Binding)>, i: int)
    requires
        0 <= i <= ns.len(),
        lower_named(ns.take(i)) is Err,
    ensures
        lower_named(ns) == lower_named(ns.take(i)),
    decreases ns.len() - i,
{
    if i < ns.len() {
        assert(ns.take(i + 1).drop_last() =~= ns.take(i));
        assert(lower_named(ns.take(i + 1)) == lower_named(ns.take(i)));
        lemma_named_prefix_err(ns, i + 1);
    } else {
        assert(ns.take(i) =~= ns);
    }
}

} // verus!
