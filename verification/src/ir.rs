//! The device-independent kernel intermediate representation.
//!
//! A kernel definition is a tree: bindings and a root scope, where a scope
//! holds declared variables, constant-array literals and an ordered list of
//! operations; branches and loops own child scopes.

use vstd::prelude::*;

verus! {

/// Floating-point element kinds. Only `Flex32` and `F32` have a target
/// counterpart; the rest are rejected at compile time.
#[derive(Clone, Copy, Debug, PartialEq, Eq, Structural)]
pub enum FloatKind {
    F16,
    BF16,
    TF32,
    Flex32,
    F32,
    F64,
}

/// Signed integer element kinds. Only `I32` has a target counterpart.
#[derive(Clone, Copy, Debug, PartialEq, Eq, Structural)]
pub enum IntKind {
    I8,
    I16,
    I32,
    I64,
}

/// Unsigned integer element kinds. Only `U32` has a target counterpart.
#[derive(Clone, Copy, Debug, PartialEq, Eq, Structural)]
pub enum UIntKind {
    U8,
    U16,
    U32,
    U64,
}

/// Scalar element type of a variable or binding.
#[derive(Clone, Copy, Debug, PartialEq, Eq, Structural)]
pub enum Elem {
    Float(FloatKind),
    Int(IntKind),
    UInt(UIntKind),
    Bool,
    AtomicInt(IntKind),
    AtomicUInt(UIntKind),
}

/// An element type together with its vectorization factor (number of lanes).
/// Factors outside 1..=4 are rejected at compile time.
#[derive(Clone, Copy, Debug, PartialEq, Eq, Structural)]
pub struct Item {
    pub elem: Elem,
    pub vectorization: u32,
}

/// A compile-time scalar constant. Float constants are carried as their raw
/// bit pattern: the compiler never computes with them, it only passes them
/// through to the emitted shader.
#[derive(Clone, Copy, Debug, PartialEq, Eq, Structural)]
pub enum ConstantScalarValue {
    Int(i64, IntKind),
    Float(u64, FloatKind),
    UInt(u64, UIntKind),
    Bool(bool),
}

impl ConstantScalarValue {
    /// The element kind this constant carries.
    pub open spec fn spec_elem(self) -> Elem {
        match self {
            ConstantScalarValue::Int(_, kind) => Elem::Int(kind),
            ConstantScalarValue::Float(_, kind) => Elem::Float(kind),
            ConstantScalarValue::UInt(_, kind) => Elem::UInt(kind),
            ConstantScalarValue::Bool(_) => Elem::Bool,
        }
    }

    #[verifier::when_used_as_spec(spec_elem)]
    pub fn elem(self) -> (r: Elem)
        ensures
            r == self.spec_elem(),
    {
        match self {
            ConstantScalarValue::Int(_, kind) => Elem::Int(kind),
            ConstantScalarValue::Float(_, kind) => Elem::Float(kind),
            ConstantScalarValue::UInt(_, kind) => Elem::UInt(kind),
            ConstantScalarValue::Bool(_) => Elem::Bool,
        }
    }
}

/// The GPU-provided inputs a kernel can reference.
#[derive(Clone, Copy, Debug, PartialEq, Eq, Structural)]
pub enum Builtin {
    AbsolutePos,
    AbsolutePosX,
    AbsolutePosY,
    AbsolutePosZ,
    UnitPos,
    UnitPosX,
    UnitPosY,
    UnitPosZ,
    CubePos,
    CubePosX,
    CubePosY,
    CubePosZ,
    CubeDim,
    CubeDimX,
    CubeDimY,
    CubeDimZ,
    CubeCount,
    CubeCountX,
    CubeCountY,
    CubeCountZ,
    SubcubeDim,
}

/// The tag of a variable reference.
#[derive(Clone, Copy, Debug, PartialEq, Eq, Structural)]
pub enum VariableKind {
    GlobalInputArray(u32),
    GlobalOutputArray(u32),
    GlobalScalar(u32),
    Local { id: u32, depth: u32 },
    Versioned { id: u32, depth: u32, version: u32 },
    LocalBinding { id: u32 },
    ConstantScalar(ConstantScalarValue),
    ConstantArray { id: u32, length: u32 },
    SharedMemory { id: u32, length: u32 },
    LocalArray { id: u32, depth: u32, length: u32 },
    Slice { id: u32, depth: u32 },
    Builtin(Builtin),
    Matrix,
}

/// A variable reference: a tag plus the element type and vectorization it is
/// used at.
#[derive(Clone, Copy, Debug, PartialEq, Eq, Structural)]
pub struct Variable {
    pub kind: VariableKind,
    pub item: Item,
}

impl Variable {
    /// The stable index of the variable, for the kinds that carry one.
    pub open spec fn spec_index(self) -> Option<u32> {
        match self.kind {
            VariableKind::GlobalInputArray(id) => Some(id),
            VariableKind::GlobalOutputArray(id) => Some(id),
            VariableKind::GlobalScalar(id) => Some(id),
            VariableKind::Local { id, .. } => Some(id),
            VariableKind::Versioned { id, .. } => Some(id),
            VariableKind::LocalBinding { id } => Some(id),
            VariableKind::ConstantArray { id, .. } => Some(id),
            VariableKind::SharedMemory { id, .. } => Some(id),
            VariableKind::LocalArray { id, .. } => Some(id),
            VariableKind::Slice { id, .. } => Some(id),
            VariableKind::ConstantScalar(_) => None,
            VariableKind::Builtin(_) => None,
            VariableKind::Matrix => None,
        }
    }

    #[verifier::when_used_as_spec(spec_index)]
    pub fn index(self) -> (r: Option<u32>)
        ensures
            r == self.spec_index(),
    {
        match self.kind {
            VariableKind::GlobalInputArray(id) => Some(id),
            VariableKind::GlobalOutputArray(id) => Some(id),
            VariableKind::GlobalScalar(id) => Some(id),
            VariableKind::Local { id, .. } => Some(id),
            VariableKind::Versioned { id, .. } => Some(id),
            VariableKind::LocalBinding { id } => Some(id),
            VariableKind::ConstantArray { id, .. } => Some(id),
            VariableKind::SharedMemory { id, .. } => Some(id),
            VariableKind::LocalArray { id, .. } => Some(id),
            VariableKind::Slice { id, .. } => Some(id),
            VariableKind::ConstantScalar(_) => None,
            VariableKind::Builtin(_) => None,
            VariableKind::Matrix => None,
        }
    }
}

/// A binary operation: two operands, result goes to the statement's output.
#[derive(Clone, Copy, Debug, PartialEq, Eq, Structural)]
pub struct BinaryOperator {
    pub lhs: Variable,
    pub rhs: Variable,
}

/// A unary operation.
#[derive(Clone, Copy, Debug, PartialEq, Eq, Structural)]
pub struct UnaryOperator {
    pub input: Variable,
}

/// Clamp `input` between `min_value` and `max_value`.
#[derive(Clone, Copy, Debug, PartialEq, Eq, Structural)]
pub struct ClampOperator {
    pub input: Variable,
    pub min_value: Variable,
    pub max_value: Variable,
}

/// Fused multiply-add `a * b + c`.
#[derive(Clone, Copy, Debug, PartialEq, Eq, Structural)]
pub struct FmaOperator {
    pub a: Variable,
    pub b: Variable,
    pub c: Variable,
}

/// A sub-range view of an array between `start` and `end`.
#[derive(Clone, Copy, Debug, PartialEq, Eq, Structural)]
pub struct SliceOperator {
    pub input: Variable,
    pub start: Variable,
    pub end: Variable,
}

/// Initialize a vector value from per-lane inputs.
#[derive(Clone, Debug, PartialEq, Eq)]
pub struct LineInitOperator {
    pub inputs: Vec<Variable>,
}

/// Copy one element between arrays.
#[derive(Clone, Copy, Debug, PartialEq, Eq, Structural)]
pub struct CopyMemoryOperator {
    pub input: Variable,
    pub in_index: Variable,
    pub out_index: Variable,
}

/// Copy `len` elements between arrays.
#[derive(Clone, Copy, Debug, PartialEq, Eq, Structural)]
pub struct CopyMemoryBulkOperator {
    pub input: Variable,
    pub in_index: Variable,
    pub out_index: Variable,
    pub len: u32,
}

/// Lane-wise choice between two values.
#[derive(Clone, Copy, Debug, PartialEq, Eq, Structural)]
pub struct SelectOperator {
    pub cond: Variable,
    pub then_value: Variable,
    pub or_else: Variable,
}

/// Atomic compare-and-swap: `input` is the location, `cmp` the expected
/// value, `val` the replacement.
#[derive(Clone, Copy, Debug, PartialEq, Eq, Structural)]
pub struct CompareAndSwapOperator {
    pub input: Variable,
    pub cmp: Variable,
    pub val: Variable,
}

/// The primitive (non-branching) operations.
#[derive(Clone, Debug, PartialEq, Eq)]
pub enum Operator {
    Add(BinaryOperator),
    Sub(BinaryOperator),
    Mul(BinaryOperator),
    Div(BinaryOperator),
    Modulo(BinaryOperator),
    Remainder(BinaryOperator),
    Max(BinaryOperator),
    Min(BinaryOperator),
    Fma(FmaOperator),
    Index(BinaryOperator),
    UncheckedIndex(BinaryOperator),
    IndexAssign(BinaryOperator),
    UncheckedIndexAssign(BinaryOperator),
    Abs(UnaryOperator),
    Exp(UnaryOperator),
    Log(UnaryOperator),
    Log1p(UnaryOperator),
    Cos(UnaryOperator),
    Sin(UnaryOperator),
    Tanh(UnaryOperator),
    Powf(BinaryOperator),
    Sqrt(UnaryOperator),
    Round(UnaryOperator),
    Floor(UnaryOperator),
    Ceil(UnaryOperator),
    Erf(UnaryOperator),
    Recip(UnaryOperator),
    Equal(BinaryOperator),
    NotEqual(BinaryOperator),
    Lower(BinaryOperator),
    Greater(BinaryOperator),
    LowerEqual(BinaryOperator),
    GreaterEqual(BinaryOperator),
    Clamp(ClampOperator),
    Cast(UnaryOperator),
    Bitcast(UnaryOperator),
    And(BinaryOperator),
    Or(BinaryOperator),
    Not(UnaryOperator),
    Neg(UnaryOperator),
    BitwiseOr(BinaryOperator),
    BitwiseAnd(BinaryOperator),
    BitwiseXor(BinaryOperator),
    ShiftLeft(BinaryOperator),
    ShiftRight(BinaryOperator),
    Slice(SliceOperator),
    Magnitude(UnaryOperator),
    Normalize(UnaryOperator),
    Dot(BinaryOperator),
    InitLine(LineInitOperator),
    CopyMemory(CopyMemoryOperator),
    CopyMemoryBulk(CopyMemoryBulkOperator),
    Select(SelectOperator),
}

/// Atomic read-modify-write operations on atomic elements.
#[derive(Clone, Copy, Debug, PartialEq, Eq, Structural)]
pub enum AtomicOp {
    Add(BinaryOperator),
    Sub(BinaryOperator),
    Max(BinaryOperator),
    Min(BinaryOperator),
    And(BinaryOperator),
    Or(BinaryOperator),
    Xor(BinaryOperator),
    Load(UnaryOperator),
    Store(UnaryOperator),
    Swap(BinaryOperator),
    CompareAndSwap(CompareAndSwapOperator),
}

/// Queries against the per-binding metadata side-table.
#[derive(Clone, Copy, Debug, PartialEq, Eq, Structural)]
pub enum MetadataOp {
    Rank { var: Variable },
    Stride { dim: Variable, var: Variable },
    Shape { dim: Variable, var: Variable },
    Length { var: Variable },
    BufferLength { var: Variable },
}

/// Barriers between units of a workgroup, or on global storage.
#[derive(Clone, Copy, Debug, PartialEq, Eq, Structural)]
pub enum Synchronization {
    SyncUnits,
    SyncStorage,
}

/// Subgroup (subcube) collectives.
#[derive(Clone, Copy, Debug, PartialEq, Eq, Structural)]
pub enum Subcube {
    Elect,
    All(UnaryOperator),
    Any(UnaryOperator),
    Broadcast(BinaryOperator),
    Sum(UnaryOperator),
    Prod(UnaryOperator),
    Min(UnaryOperator),
    Max(UnaryOperator),
}

/// A conditional with one arm.
#[derive(Debug, PartialEq, Eq)]
pub struct If {
    pub cond: Variable,
    pub scope: Scope,
}

/// A conditional with two arms.
#[derive(Debug, PartialEq, Eq)]
pub struct IfElse {
    pub cond: Variable,
    pub scope_if: Scope,
    pub scope_else: Scope,
}

/// A multi-way switch; cases are kept in source order.
#[derive(Debug, PartialEq, Eq)]
pub struct Switch {
    pub value: Variable,
    pub scope_default: Scope,
    pub cases: Vec<(Variable, Scope)>,
}

/// A counted loop from `start` to `end` with an optional `step`.
#[derive(Debug, PartialEq, Eq)]
pub struct RangeLoop {
    pub i: Variable,
    pub start: Variable,
    pub end: Variable,
    pub step: Option<Variable>,
    pub inclusive: bool,
    pub scope: Scope,
}

/// An unbounded loop, left through `Break` or `Return`.
#[derive(Debug, PartialEq, Eq)]
pub struct Loop {
    pub scope: Scope,
}

/// Control flow forms; branches and loops own child scopes.
#[derive(Debug, PartialEq, Eq)]
pub enum Branch {
    If(If),
    IfElse(IfElse),
    Switch(Switch),
    RangeLoop(RangeLoop),
    Loop(Loop),
    Return,
    Break,
}

/// One operation of a scope, tagged with its operation family.
#[derive(Debug, PartialEq, Eq)]
pub enum Operation {
    Copy(Variable),
    Operator(Operator),
    Atomic(AtomicOp),
    Metadata(MetadataOp),
    Branch(Branch),
    Synchronization(Synchronization),
    Subcube(Subcube),
    CoopMma,
}

/// An operation together with the variable it writes, if any.
#[derive(Debug, PartialEq, Eq)]
pub struct Instruction {
    pub out: Option<Variable>,
    pub operation: Operation,
}

/// A lexical block: constant-array literals, declared variables, and an
/// ordered list of operations.
#[derive(Debug, PartialEq, Eq)]
pub struct Scope {
    pub const_arrays: Vec<(Variable, Vec<Variable>)>,
    pub variables: Vec<Variable>,
    pub operations: Vec<Instruction>,
}

/// Whether a binding may be written by the shader.
#[derive(Clone, Copy, Debug, PartialEq, Eq, Structural)]
pub enum Visibility {
    Read,
    ReadWrite,
}

/// The memory space a binding lives in.
#[derive(Clone, Copy, Debug, PartialEq, Eq, Structural)]
pub enum Location {
    Storage,
    Cube,
}

/// A host-supplied buffer slot addressable from the shader.
#[derive(Clone, Debug, PartialEq, Eq)]
pub struct Binding {
    pub location: Location,
    pub visibility: Visibility,
    pub item: Item,
    pub size: Option<usize>,
    pub has_extended_meta: bool,
}

/// The workgroup size on each axis.
#[derive(Clone, Copy, Debug, PartialEq, Eq, Structural)]
pub struct CubeDim {
    pub x: u32,
    pub y: u32,
    pub z: u32,
}

/// A complete kernel: bindings, workgroup size and the root scope.
#[derive(Debug, PartialEq, Eq)]
pub struct KernelDefinition {
    pub inputs: Vec<Binding>,
    pub outputs: Vec<Binding>,
    pub named: Vec<(String, Binding)>,
    pub cube_dim: CubeDim,
    pub body: Scope,
}

/// Whether the driver validates the emitted shader module. The mode is not
/// consumed by the lowering; it is carried through to pipeline creation.
#[derive(Clone, Copy, Debug, PartialEq, Eq, Structural)]
pub enum ExecutionMode {
    Checked,
    Unchecked,
}

} // verus!
