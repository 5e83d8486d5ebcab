//! The mathematical model of the compiled shader.
//!
//! Each target type whose executable form holds a `Vec` or a `String` has a
//! ghost counterpart over `Seq`, reached through a deep view. The lowering
//! model in [`crate::lower`] is stated over these counterparts, and every
//! executable compiler function is proved to produce their views.

use vstd::prelude::*;

use crate::ir;
use crate::wgsl::{
    Binding, Body, ComputeShader, ConstantArray, Extension, Instruction, Item, LocalArray,
    SharedMemory, Subgroup, Variable,
};

verus! {

/// Ghost counterpart of [`Instruction`], with child instruction lists as
/// sequences.
#[verifier::ext_equal]
pub enum InstructionV {
    DeclareVariable { var: Variable },
    Assign { input: Variable, out: Variable },
    Add { lhs: Variable, rhs: Variable, out: Variable },
    Sub { lhs: Variable, rhs: Variable, out: Variable },
    Mul { lhs: Variable, rhs: Variable, out: Variable },
    Div { lhs: Variable, rhs: Variable, out: Variable },
    Modulo { lhs: Variable, rhs: Variable, out: Variable },
    Remainder { lhs: Variable, rhs: Variable, out: Variable },
    Max { lhs: Variable, rhs: Variable, out: Variable },
    Min { lhs: Variable, rhs: Variable, out: Variable },
    Fma { a: Variable, b: Variable, c: Variable, out: Variable },
    Index { lhs: Variable, rhs: Variable, out: Variable },
    IndexAssign { lhs: Variable, rhs: Variable, out: Variable },
    Abs { input: Variable, out: Variable },
    Exp { input: Variable, out: Variable },
    Log { input: Variable, out: Variable },
    Log1p { input: Variable, out: Variable },
    Cos { input: Variable, out: Variable },
    Sin { input: Variable, out: Variable },
    Tanh { input: Variable, out: Variable },
    Powf { lhs: Variable, rhs: Variable, out: Variable },
    Sqrt { input: Variable, out: Variable },
    Round { input: Variable, out: Variable },
    Floor { input: Variable, out: Variable },
    Ceil { input: Variable, out: Variable },
    Erf { input: Variable, out: Variable },
    Recip { input: Variable, out: Variable },
    Equal { lhs: Variable, rhs: Variable, out: Variable },
    NotEqual { lhs: Variable, rhs: Variable, out: Variable },
    Lower { lhs: Variable, rhs: Variable, out: Variable },
    Greater { lhs: Variable, rhs: Variable, out: Variable },
    LowerEqual { lhs: Variable, rhs: Variable, out: Variable },
    GreaterEqual { lhs: Variable, rhs: Variable, out: Variable },
    Clamp { input: Variable, min_value: Variable, max_value: Variable, out: Variable },
    And { lhs: Variable, rhs: Variable, out: Variable },
    Or { lhs: Variable, rhs: Variable, out: Variable },
    Not { input: Variable, out: Variable },
    Negate { input: Variable, out: Variable },
    BitwiseOr { lhs: Variable, rhs: Variable, out: Variable },
    BitwiseAnd { lhs: Variable, rhs: Variable, out: Variable },
    BitwiseXor { lhs: Variable, rhs: Variable, out: Variable },
    ShiftLeft { lhs: Variable, rhs: Variable, out: Variable },
    ShiftRight { lhs: Variable, rhs: Variable, out: Variable },
    Bitcast { input: Variable, out: Variable },
    Magnitude { input: Variable, out: Variable },
    Normalize { input: Variable, out: Variable },
    Dot { lhs: Variable, rhs: Variable, out: Variable },
    VecInit { inputs: Seq<Variable>, out: Variable },
    Copy { input: Variable, in_index: Variable, out: Variable, out_index: Variable },
    CopyBulk { input: Variable, in_index: Variable, out: Variable, out_index: Variable, len: u32 },
    Select { cond: Variable, then_value: Variable, or_else: Variable, out: Variable },
    Slice { input: Variable, start: Variable, end: Variable, out: Variable },
    Length { var: Variable, out: Variable },
    Metadata { out: Variable, info_offset: Variable },
    ExtendedMeta { info_offset: Variable, dim: Variable, out: Variable },
    AtomicAdd { lhs: Variable, rhs: Variable, out: Variable },
    AtomicSub { lhs: Variable, rhs: Variable, out: Variable },
    AtomicMax { lhs: Variable, rhs: Variable, out: Variable },
    AtomicMin { lhs: Variable, rhs: Variable, out: Variable },
    AtomicAnd { lhs: Variable, rhs: Variable, out: Variable },
    AtomicOr { lhs: Variable, rhs: Variable, out: Variable },
    AtomicXor { lhs: Variable, rhs: Variable, out: Variable },
    AtomicSwap { lhs: Variable, rhs: Variable, out: Variable },
    AtomicLoad { input: Variable, out: Variable },
    AtomicStore { input: Variable, out: Variable },
    AtomicCompareExchangeWeak { lhs: Variable, cmp: Variable, value: Variable, out: Variable },
    Subgroup(Subgroup),
    If { cond: Variable, instructions: Seq<InstructionV> },
    IfElse { cond: Variable, instructions_if: Seq<InstructionV>, instructions_else: Seq<InstructionV> },
    Switch { value: Variable, instructions_default: Seq<InstructionV>, cases: Seq<(Variable, Seq<InstructionV>)> },
    RangeLoop { i: Variable, start: Variable, end: Variable, step: Option<Variable>, inclusive: bool, instructions: Seq<InstructionV> },
    Loop { instructions: Seq<InstructionV> },
    Return,
    Break,
    WorkgroupBarrier,
    StorageBarrier,
}


/// Ghost counterpart of [`ConstantArray`].
#[verifier::ext_equal]
pub struct ConstantArrayV {
    pub index: u32,
    pub item: Item,
    pub size: usize,
    pub values: Seq<Variable>,
}

/// Ghost counterpart of [`Body`].
#[verifier::ext_equal]
pub struct BodyV {
    pub instructions: Seq<InstructionV>,
    pub id: bool,
}

/// Ghost counterpart of [`ComputeShader`]. Names of named bindings are
/// modeled as character sequences.
#[verifier::ext_equal]
pub struct ComputeShaderV {
    pub inputs: Seq<Binding>,
    pub outputs: Seq<Binding>,
    pub named: Seq<(Seq<char>, Binding)>,
    pub shared_memories: Seq<SharedMemory>,
    pub constant_arrays: Seq<ConstantArrayV>,
    pub local_arrays: Seq<LocalArray>,
    pub workgroup_size: ir::CubeDim,
    pub global_invocation_id: bool,
    pub local_invocation_index: bool,
    pub local_invocation_id: bool,
    pub num_workgroups: bool,
    pub workgroup_id: bool,
    pub subgroup_size: bool,
    pub body: BodyV,
    pub extensions: Seq<Extension>,
    pub num_workgroups_no_axis: bool,
    pub workgroup_id_no_axis: bool,
    pub workgroup_size_no_axis: bool,
}

impl Instruction {
    /// The ghost value of an instruction tree.
    pub open spec fn deep_view(self) -> InstructionV
        decreases self,
    {
        match self {
            Instruction::DeclareVariable { var } => InstructionV::DeclareVariable { var },
            Instruction::Assign { input, out } => InstructionV::Assign { input, out },
            Instruction::Add { lhs, rhs, out } => InstructionV::Add { lhs, rhs, out },
            Instruction::Sub { lhs, rhs, out } => InstructionV::Sub { lhs, rhs, out },
            Instruction::Mul { lhs, rhs, out } => InstructionV::Mul { lhs, rhs, out },
            Instruction::Div { lhs, rhs, out } => InstructionV::Div { lhs, rhs, out },
            Instruction::Modulo { lhs, rhs, out } => InstructionV::Modulo { lhs, rhs, out },
            Instruction::Remainder { lhs, rhs, out } => InstructionV::Remainder { lhs, rhs, out },
            Instruction::Max { lhs, rhs, out } => InstructionV::Max { lhs, rhs, out },
            Instruction::Min { lhs, rhs, out } => InstructionV::Min { lhs, rhs, out },
            Instruction::Fma { a, b, c, out } => InstructionV::Fma { a, b, c, out },
            Instruction::Index { lhs, rhs, out } => InstructionV::Index { lhs, rhs, out },
            Instruction::IndexAssign { lhs, rhs, out } => InstructionV::IndexAssign { lhs, rhs, out },
            Instruction::Abs { input, out } => InstructionV::Abs { input, out },
            Instruction::Exp { input, out } => InstructionV::Exp { input, out },
            Instruction::Log { input, out } => InstructionV::Log { input, out },
            Instruction::Log1p { input, out } => InstructionV::Log1p { input, out },
            Instruction::Cos { input, out } => InstructionV::Cos { input, out },
            Instruction::Sin { input, out } => InstructionV::Sin { input, out },
            Instruction::Tanh { input, out } => InstructionV::Tanh { input, out },
            Instruction::Powf { lhs, rhs, out } => InstructionV::Powf { lhs, rhs, out },
            Instruction::Sqrt { input, out } => InstructionV::Sqrt { input, out },
            Instruction::Round { input, out } => InstructionV::Round { input, out },
            Instruction::Floor { input, out } => InstructionV::Floor { input, out },
            Instruction::Ceil { input, out } => InstructionV::Ceil { input, out },
            Instruction::Erf { input, out } => InstructionV::Erf { input, out },
            Instruction::Recip { input, out } => InstructionV::Recip { input, out },
            Instruction::Equal { lhs, rhs, out } => InstructionV::Equal { lhs, rhs, out },
            Instruction::NotEqual { lhs, rhs, out } => InstructionV::NotEqual { lhs, rhs, out },
            Instruction::Lower { lhs, rhs, out } => InstructionV::Lower { lhs, rhs, out },
            Instruction::Greater { lhs, rhs, out } => InstructionV::Greater { lhs, rhs, out },
            Instruction::LowerEqual { lhs, rhs, out } => InstructionV::LowerEqual { lhs, rhs, out },
            Instruction::GreaterEqual { lhs, rhs, out } => InstructionV::GreaterEqual { lhs, rhs, out },
            Instruction::Clamp { input, min_value, max_value, out } => InstructionV::Clamp { input, min_value, max_value, out },
            Instruction::And { lhs, rhs, out } => InstructionV::And { lhs, rhs, out },
            Instruction::Or { lhs, rhs, out } => InstructionV::Or { lhs, rhs, out },
            Instruction::Not { input, out } => InstructionV::Not { input, out },
            Instruction::Negate { input, out } => InstructionV::Negate { input, out },
            Instruction::BitwiseOr { lhs, rhs, out } => InstructionV::BitwiseOr { lhs, rhs, out },
            Instruction::BitwiseAnd { lhs, rhs, out } => InstructionV::BitwiseAnd { lhs, rhs, out },
            Instruction::BitwiseXor { lhs, rhs, out } => InstructionV::BitwiseXor { lhs, rhs, out },
            Instruction::ShiftLeft { lhs, rhs, out } => InstructionV::ShiftLeft { lhs, rhs, out },
            Instruction::ShiftRight { lhs, rhs, out } => InstructionV::ShiftRight { lhs, rhs, out },
            Instruction::Bitcast { input, out } => InstructionV::Bitcast { input, out },
            Instruction::Magnitude { input, out } => InstructionV::Magnitude { input, out },
            Instruction::Normalize { input, out } => InstructionV::Normalize { input, out },
            Instruction::Dot { lhs, rhs, out } => InstructionV::Dot { lhs, rhs, out },
            Instruction::VecInit { inputs, out } => InstructionV::VecInit { inputs: inputs@, out },
            Instruction::Copy { input, in_index, out, out_index } => InstructionV::Copy { input, in_index, out, out_index },
            Instruction::CopyBulk { input, in_index, out, out_index, len } => InstructionV::CopyBulk { input, in_index, out, out_index, len },
            Instruction::Select { cond, then_value, or_else, out } => InstructionV::Select { cond, then_value, or_else, out },
            Instruction::Slice { input, start, end, out } => InstructionV::Slice { input, start, end, out },
            Instruction::Length { var, out } => InstructionV::Length { var, out },
            Instruction::Metadata { out, info_offset } => InstructionV::Metadata { out, info_offset },
            Instruction::ExtendedMeta { info_offset, dim, out } => InstructionV::ExtendedMeta { info_offset, dim, out },
            Instruction::AtomicAdd { lhs, rhs, out } => InstructionV::AtomicAdd { lhs, rhs, out },
            Instruction::AtomicSub { lhs, rhs, out } => InstructionV::AtomicSub { lhs, rhs, out },
            Instruction::AtomicMax { lhs, rhs, out } => InstructionV::AtomicMax { lhs, rhs, out },
            Instruction::AtomicMin { lhs, rhs, out } => InstructionV::AtomicMin { lhs, rhs, out },
            Instruction::AtomicAnd { lhs, rhs, out } => InstructionV::AtomicAnd { lhs, rhs, out },
            Instruction::AtomicOr { lhs, rhs, out } => InstructionV::AtomicOr { lhs, rhs, out },
            Instruction::AtomicXor { lhs, rhs, out } => InstructionV::AtomicXor { lhs, rhs, out },
            Instruction::AtomicSwap { lhs, rhs, out } => InstructionV::AtomicSwap { lhs, rhs, out },
            Instruction::AtomicLoad { input, out } => InstructionV::AtomicLoad { input, out },
            Instruction::AtomicStore { input, out } => InstructionV::AtomicStore { input, out },
            Instruction::AtomicCompareExchangeWeak { lhs, cmp, value, out } => InstructionV::AtomicCompareExchangeWeak { lhs, cmp, value, out },
            Instruction::Subgroup(x) => InstructionV::Subgroup(x),
            Instruction::If { cond, instructions } => InstructionV::If { cond, instructions: view_instrs(instructions@) },
            Instruction::IfElse { cond, instructions_if, instructions_else } => InstructionV::IfElse { cond, instructions_if: view_instrs(instructions_if@), instructions_else: view_instrs(instructions_else@) },
            Instruction::Switch { value, instructions_default, cases } => InstructionV::Switch { value, instructions_default: view_instrs(instructions_default@), cases: view_cases(cases@) },
            Instruction::RangeLoop { i, start, end, step, inclusive, instructions } => InstructionV::RangeLoop { i, start, end, step, inclusive, instructions: view_instrs(instructions@) },
            Instruction::Loop { instructions } => InstructionV::Loop { instructions: view_instrs(instructions@) },
            Instruction::Return => InstructionV::Return,
            Instruction::Break => InstructionV::Break,
            Instruction::WorkgroupBarrier => InstructionV::WorkgroupBarrier,
            Instruction::StorageBarrier => InstructionV::StorageBarrier,
        }
    }
}

/// Deep view of an instruction list.
pub open spec fn view_instrs(s: Seq<Instruction>) -> Seq<InstructionV>
    decreases s,
{
    if s.len() == 0 {
        Seq::empty()
    } else {
        view_instrs(s.drop_last()).push(s.last().deep_view())
    }
}

/// Deep view of a switch case list.
pub open spec fn view_cases(s: Seq<(Variable, Vec<Instruction>)>) -> Seq<
    (Variable, Seq<InstructionV>),
>
    decreases s,
{
    if s.len() == 0 {
        Seq::empty()
    } else {
        view_cases(s.drop_last()).push((s.last().0, view_instrs(s.last().1@)))
    }
}

/// `view_instrs` is the element-wise deep view.
pub proof fn lemma_view_instrs(s: Seq<Instruction>)
    ensures
        (#[trigger] view_instrs(s)).len() == s.len(),
        forall|i: int| 0 <= i < s.len() ==> view_instrs(s)[i] == #[trigger] s[i].deep_view(),
    decreases s,
{
    if s.len() > 0 {
        lemma_view_instrs(s.drop_last());
        assert forall|i: int| 0 <= i < s.len() implies view_instrs(s)[i] == #[trigger] s[i]
            .deep_view() by {
            if i < s.len() - 1 {
                assert(s.drop_last()[i] == s[i]);
            } else {
                assert(s.last() == s[i]);
            }
        }
    }
}

/// `view_cases` is the element-wise deep view.
pub proof fn lemma_view_cases(s: Seq<(Variable, Vec<Instruction>)>)
    ensures
        (#[trigger] view_cases(s)).len() == s.len(),
        forall|i: int| 0 <= i < s.len() ==> view_cases(s)[i] == (#[trigger] s[i].0, view_instrs(
            s[i].1@,
        )),
    decreases s,
{
    if s.len() > 0 {
        lemma_view_cases(s.drop_last());
        assert forall|i: int| 0 <= i < s.len() implies view_cases(s)[i] == (#[trigger] s[i].0,
        view_instrs(s[i].1@)) by {
            if i < s.len() - 1 {
                assert(s.drop_last()[i] == s[i]);
            } else {
                assert(s.last() == s[i]);
            }
        }
    }
}

/// Appending one instruction appends its view.
pub proof fn lemma_view_instrs_push(s: Seq<Instruction>, x: Instruction)
    ensures
        view_instrs(s.push(x)) == view_instrs(s).push(x.deep_view()),
{
    assert(s.push(x).drop_last() =~= s);
    assert(s.push(x).last() == x);
}

/// The view of a concatenation is the concatenation of the views.
pub proof fn lemma_view_instrs_add(a: Seq<Instruction>, b: Seq<Instruction>)
    ensures
        view_instrs(a + b) == view_instrs(a) + view_instrs(b),
{
    lemma_view_instrs(a);
    lemma_view_instrs(b);
    lemma_view_instrs(a + b);
    assert forall|i: int| 0 <= i < (a + b).len() implies view_instrs(a + b)[i] == (view_instrs(a)
        + view_instrs(b))[i] by {
        assert(view_instrs(a + b)[i] == (a + b)[i].deep_view());
        if i < a.len() {
            assert((a + b)[i] == a[i]);
        } else {
            assert((a + b)[i] == b[i - a.len()]);
        }
    }
    assert(view_instrs(a + b) =~= view_instrs(a) + view_instrs(b));
}

impl ConstantArray {
    /// The ghost value of a constant-array declaration.
    pub open spec fn deep_view(self) -> ConstantArrayV {
        ConstantArrayV { index: self.index, item: self.item, size: self.size, values: self.values@ }
    }
}

/// Deep view of a constant-array list.
pub open spec fn view_const_arrays(s: Seq<ConstantArray>) -> Seq<ConstantArrayV> {
    Seq::new(s.len(), |i: int| s[i].deep_view())
}

/// Deep view of the named-binding list.
pub open spec fn view_named(s: Seq<(String, Binding)>) -> Seq<(Seq<char>, Binding)> {
    Seq::new(s.len(), |i: int| (s[i].0@, s[i].1))
}

impl Body {
    /// The ghost value of a body.
    pub open spec fn deep_view(self) -> BodyV {
        BodyV { instructions: view_instrs(self.instructions@), id: self.id }
    }
}

impl ComputeShader {
    /// The ghost value of a compiled shader record.
    pub open spec fn deep_view(self) -> ComputeShaderV {
        ComputeShaderV {
            inputs: self.inputs@,
            outputs: self.outputs@,
            named: view_named(self.named@),
            shared_memories: self.shared_memories@,
            constant_arrays: view_const_arrays(self.constant_arrays@),
            local_arrays: self.local_arrays@,
            workgroup_size: self.workgroup_size,
            global_invocation_id: self.global_invocation_id,
            local_invocation_index: self.local_invocation_index,
            local_invocation_id: self.local_invocation_id,
            num_workgroups: self.num_workgroups,
            workgroup_id: self.workgroup_id,
            subgroup_size: self.subgroup_size,
            body: self.body.deep_view(),
            extensions: self.extensions@,
            num_workgroups_no_axis: self.num_workgroups_no_axis,
            workgroup_id_no_axis: self.workgroup_id_no_axis,
            workgroup_size_no_axis: self.workgroup_size_no_axis,
        }
    }
}

/// Appending one case appends its view.
pub proof fn lemma_view_cases_push(s: Seq<(Variable, Vec<Instruction>)>, x: (Variable, Vec<Instruction>))
    ensures
        view_cases(s.push(x)) == view_cases(s).push((x.0, view_instrs(x.1@))),
{
    assert(s.push(x).drop_last() =~= s);
    assert(s.push(x).last() == x);
}

/// Appending one constant array appends its view.
pub proof fn lemma_view_const_arrays_push(s: Seq<ConstantArray>, x: ConstantArray)
    ensures
        view_const_arrays(s.push(x)) == view_const_arrays(s).push(x.deep_view()),
{
    assert(view_const_arrays(s.push(x)) =~= view_const_arrays(s).push(x.deep_view()));
}

} // verus!
