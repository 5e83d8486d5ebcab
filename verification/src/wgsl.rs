//! The target shader dialect: the record the compiler produces.
//!
//! A compiled shader is a tree of instructions plus the declarations,
//! bindings, workgroup geometry, built-in usage flags and helper-function
//! extensions the emitted program needs.

use vstd::prelude::*;

use crate::ir;

verus! {

/// Target scalar types. Every one is 4 bytes wide.
#[derive(Clone, Copy, Debug, PartialEq, Eq, Structural)]
pub enum Elem {
    F32,
    I32,
    U32,
    Bool,
    AtomicI32,
    AtomicU32,
}

impl Elem {
    /// Byte size of the scalar in the target layout.
    pub open spec fn spec_size(self) -> usize {
        4
    }

    #[verifier::when_used_as_spec(spec_size)]
    pub fn size(self) -> (r: usize)
        ensures
            r == self.spec_size(),
    {
        match self {
            Elem::F32 => 4,
            Elem::I32 => 4,
            Elem::U32 => 4,
            Elem::Bool => 4,
            Elem::AtomicI32 => 4,
            Elem::AtomicU32 => 4,
        }
    }
}

/// A target scalar or vector type.
#[derive(Clone, Copy, Debug, PartialEq, Eq, Structural)]
pub enum Item {
    Scalar(Elem),
    Vec2(Elem),
    Vec3(Elem),
    Vec4(Elem),
}

impl Item {
    /// The element type of the scalar or vector.
    pub open spec fn spec_elem(self) -> Elem {
        match self {
            Item::Scalar(e) => e,
            Item::Vec2(e) => e,
            Item::Vec3(e) => e,
            Item::Vec4(e) => e,
        }
    }

    #[verifier::when_used_as_spec(spec_elem)]
    pub fn elem(self) -> (r: Elem)
        ensures
            r == self.spec_elem(),
    {
        match self {
            Item::Scalar(e) => e,
            Item::Vec2(e) => e,
            Item::Vec3(e) => e,
            Item::Vec4(e) => e,
        }
    }

    /// Number of lanes of the type.
    pub open spec fn spec_vectorization_factor(self) -> u32 {
        match self {
            Item::Scalar(_) => 1,
            Item::Vec2(_) => 2,
            Item::Vec3(_) => 3,
            Item::Vec4(_) => 4,
        }
    }

    #[verifier::when_used_as_spec(spec_vectorization_factor)]
    pub fn vectorization_factor(self) -> (r: u32)
        ensures
            r == self.spec_vectorization_factor(),
    {
        match self {
            Item::Scalar(_) => 1,
            Item::Vec2(_) => 2,
            Item::Vec3(_) => 3,
            Item::Vec4(_) => 4,
        }
    }
}

/// A target variable form. Built-in forms name GPU-provided inputs; the
/// array forms reference a declaration elsewhere in the shader.
#[derive(Clone, Copy, Debug, PartialEq, Eq, Structural)]
pub enum Variable {
    GlobalInputArray(u32, Item),
    GlobalOutputArray(u32, Item),
    GlobalScalar(u32, Elem, ir::Elem),
    ConstantScalar(ir::ConstantScalarValue, Elem),
    Local { id: u32, item: Item, depth: u32 },
    LocalBinding { id: u32, item: Item },
    SharedMemory(u32, Item, u32),
    ConstantArray(u32, Item, u32),
    LocalArray(u32, Item, u32, u32),
    Slice { id: u32, item: Item, depth: u32 },
    Id,
    LocalInvocationIndex,
    LocalInvocationIdX,
    LocalInvocationIdY,
    LocalInvocationIdZ,
    WorkgroupId,
    WorkgroupIdX,
    WorkgroupIdY,
    WorkgroupIdZ,
    GlobalInvocationIdX,
    GlobalInvocationIdY,
    GlobalInvocationIdZ,
    WorkgroupSize,
    WorkgroupSizeX,
    WorkgroupSizeY,
    WorkgroupSizeZ,
    NumWorkgroups,
    NumWorkgroupsX,
    NumWorkgroupsY,
    NumWorkgroupsZ,
    SubgroupSize,
}

impl Variable {
    /// The type the variable is used at. Built-ins are 32-bit unsigned
    /// scalars in the target dialect.
    pub open spec fn spec_item(self) -> Item {
        match self {
            Variable::GlobalInputArray(_, item) => item,
            Variable::GlobalOutputArray(_, item) => item,
            Variable::GlobalScalar(_, elem, _) => Item::Scalar(elem),
            Variable::ConstantScalar(_, elem) => Item::Scalar(elem),
            Variable::Local { item, .. } => item,
            Variable::LocalBinding { item, .. } => item,
            Variable::SharedMemory(_, item, _) => item,
            Variable::ConstantArray(_, item, _) => item,
            Variable::LocalArray(_, item, _, _) => item,
            Variable::Slice { item, .. } => item,
            _ => Item::Scalar(Elem::U32),
        }
    }

    #[verifier::when_used_as_spec(spec_item)]
    pub fn item(self) -> (r: Item)
        ensures
            r == self.spec_item(),
    {
        match self {
            Variable::GlobalInputArray(_, item) => item,
            Variable::GlobalOutputArray(_, item) => item,
            Variable::GlobalScalar(_, elem, _) => Item::Scalar(elem),
            Variable::ConstantScalar(_, elem) => Item::Scalar(elem),
            Variable::Local { item, .. } => item,
            Variable::LocalBinding { item, .. } => item,
            Variable::SharedMemory(_, item, _) => item,
            Variable::ConstantArray(_, item, _) => item,
            Variable::LocalArray(_, item, _, _) => item,
            Variable::Slice { item, .. } => item,
            _ => Item::Scalar(Elem::U32),
        }
    }

    /// Whether the variable is a scalar whatever its item says: true for
    /// scalar globals, constants and the built-in inputs.
    pub open spec fn spec_is_always_scalar(self) -> bool {
        match self {
            Variable::GlobalScalar(_, _, _) => true,
            Variable::ConstantScalar(_, _) => true,
            Variable::GlobalInputArray(_, _) => false,
            Variable::GlobalOutputArray(_, _) => false,
            Variable::Local { .. } => false,
            Variable::LocalBinding { .. } => false,
            Variable::SharedMemory(_, _, _) => false,
            Variable::ConstantArray(_, _, _) => false,
            Variable::LocalArray(_, _, _, _) => false,
            Variable::Slice { .. } => false,
            _ => true,
        }
    }

    #[verifier::when_used_as_spec(spec_is_always_scalar)]
    pub fn is_always_scalar(self) -> (r: bool)
        ensures
            r == self.spec_is_always_scalar(),
    {
        match self {
            Variable::GlobalScalar(_, _, _) => true,
            Variable::ConstantScalar(_, _) => true,
            Variable::GlobalInputArray(_, _) => false,
            Variable::GlobalOutputArray(_, _) => false,
            Variable::Local { .. } => false,
            Variable::LocalBinding { .. } => false,
            Variable::SharedMemory(_, _, _) => false,
            Variable::ConstantArray(_, _, _) => false,
            Variable::LocalArray(_, _, _, _) => false,
            Variable::Slice { .. } => false,
            _ => true,
        }
    }
}

/// A workgroup-shared memory declaration, unique per index.
#[derive(Clone, Copy, Debug, PartialEq, Eq, Structural)]
pub struct SharedMemory {
    pub index: u32,
    pub item: Item,
    pub size: u32,
}

/// A constant-array declaration with its literal values.
#[derive(Clone, Debug, PartialEq, Eq)]
pub struct ConstantArray {
    pub index: u32,
    pub item: Item,
    pub size: usize,
    pub values: Vec<Variable>,
}

/// A function-local array declaration, unique per index.
#[derive(Clone, Copy, Debug, PartialEq, Eq, Structural)]
pub struct LocalArray {
    pub index: u32,
    pub item: Item,
    pub depth: u32,
    pub size: u32,
}

/// Whether a binding may be written by the shader.
#[derive(Clone, Copy, Debug, PartialEq, Eq, Structural)]
pub enum Visibility {
    Read,
    ReadWrite,
}

/// The target memory space of a binding.
#[derive(Clone, Copy, Debug, PartialEq, Eq, Structural)]
pub enum Location {
    Storage,
    Workgroup,
}

/// A target buffer binding.
#[derive(Clone, Debug, PartialEq, Eq)]
pub struct Binding {
    pub location: Location,
    pub visibility: Visibility,
    pub item: Item,
    pub size: Option<usize>,
}

/// Subgroup collective instructions.
#[derive(Clone, Copy, Debug, PartialEq, Eq, Structural)]
pub enum Subgroup {
    Elect { out: Variable },
    All { input: Variable, out: Variable },
    Any { input: Variable, out: Variable },
    Broadcast { lhs: Variable, rhs: Variable, out: Variable },
    Sum { input: Variable, out: Variable },
    Prod { input: Variable, out: Variable },
    Min { input: Variable, out: Variable },
    Max { input: Variable, out: Variable },
}

/// A helper routine the emitted shader must define in its preamble because
/// the target dialect lacks a native form.
#[derive(Clone, Copy, Debug, PartialEq, Eq, Structural)]
pub enum Extension {
    PowfScalar(Item),
    PowfPrimitive(Item),
    Powf(Item),
    Erf(Item),
    SafeTanh(Item),
}

/// A lowered target instruction. Control-flow forms own child instruction
/// lists.
#[derive(Debug, PartialEq, Eq)]
pub enum Instruction {
    DeclareVariable { var: Variable },
    Assign { input: Variable, out: Variable },
    Add { lhs: Variable, rhs: Variable, out: Variable },
    Sub { lhs: Variable, rhs: Variable, out: Variable },
    Mul { lhs: Variable, rhs: Variable, out: Variable },
    Div { lhs: Variable, rhs: Variable, out: Variable },
    Modulo { lhs: Variable, rhs: Variable, out: Variable },
    Remainder { lhs: Variable, rhs: Variable, out: Variable },
    Max { lhs: Variable, rhs: Variable, out: Variable },
    Min { lhs: Variable, rhs: Variable, out: Variable },
    Fma { a: Variable, b: Variable, c: Variable, out: Variable },
    Index { lhs: Variable, rhs: Variable, out: Variable },
    IndexAssign { lhs: Variable, rhs: Variable, out: Variable },
    Abs { input: Variable, out: Variable },
    Exp { input: Variable, out: Variable },
    Log { input: Variable, out: Variable },
    Log1p { input: Variable, out: Variable },
    Cos { input: Variable, out: Variable },
    Sin { input: Variable, out: Variable },
    Tanh { input: Variable, out: Variable },
    Powf { lhs: Variable, rhs: Variable, out: Variable },
    Sqrt { input: Variable, out: Variable },
    Round { input: Variable, out: Variable },
    Floor { input: Variable, out: Variable },
    Ceil { input: Variable, out: Variable },
    Erf { input: Variable, out: Variable },
    Recip { input: Variable, out: Variable },
    Equal { lhs: Variable, rhs: Variable, out: Variable },
    NotEqual { lhs: Variable, rhs: Variable, out: Variable },
    Lower { lhs: Variable, rhs: Variable, out: Variable },
    Greater { lhs: Variable, rhs: Variable, out: Variable },
    LowerEqual { lhs: Variable, rhs: Variable, out: Variable },
    GreaterEqual { lhs: Variable, rhs: Variable, out: Variable },
    Clamp { input: Variable, min_value: Variable, max_value: Variable, out: Variable },
    And { lhs: Variable, rhs: Variable, out: Variable },
    Or { lhs: Variable, rhs: Variable, out: Variable },
    Not { input: Variable, out: Variable },
    Negate { input: Variable, out: Variable },
    BitwiseOr { lhs: Variable, rhs: Variable, out: Variable },
    BitwiseAnd { lhs: Variable, rhs: Variable, out: Variable },
    BitwiseXor { lhs: Variable, rhs: Variable, out: Variable },
    ShiftLeft { lhs: Variable, rhs: Variable, out: Variable },
    ShiftRight { lhs: Variable, rhs: Variable, out: Variable },
    Bitcast { input: Variable, out: Variable },
    Magnitude { input: Variable, out: Variable },
    Normalize { input: Variable, out: Variable },
    Dot { lhs: Variable, rhs: Variable, out: Variable },
    VecInit { inputs: Vec<Variable>, out: Variable },
    Copy { input: Variable, in_index: Variable, out: Variable, out_index: Variable },
    CopyBulk { input: Variable, in_index: Variable, out: Variable, out_index: Variable, len: u32 },
    Select { cond: Variable, then_value: Variable, or_else: Variable, out: Variable },
    Slice { input: Variable, start: Variable, end: Variable, out: Variable },
    Length { var: Variable, out: Variable },
    Metadata { out: Variable, info_offset: Variable },
    ExtendedMeta { info_offset: Variable, dim: Variable, out: Variable },
    AtomicAdd { lhs: Variable, rhs: Variable, out: Variable },
    AtomicSub { lhs: Variable, rhs: Variable, out: Variable },
    AtomicMax { lhs: Variable, rhs: Variable, out: Variable },
    AtomicMin { lhs: Variable, rhs: Variable, out: Variable },
    AtomicAnd { lhs: Variable, rhs: Variable, out: Variable },
    AtomicOr { lhs: Variable, rhs: Variable, out: Variable },
    AtomicXor { lhs: Variable, rhs: Variable, out: Variable },
    AtomicSwap { lhs: Variable, rhs: Variable, out: Variable },
    AtomicLoad { input: Variable, out: Variable },
    AtomicStore { input: Variable, out: Variable },
    AtomicCompareExchangeWeak { lhs: Variable, cmp: Variable, value: Variable, out: Variable },
    Subgroup(Subgroup),
    If { cond: Variable, instructions: Vec<Instruction> },
    IfElse {
        cond: Variable,
        instructions_if: Vec<Instruction>,
        instructions_else: Vec<Instruction>,
    },
    Switch {
        value: Variable,
        instructions_default: Vec<Instruction>,
        cases: Vec<(Variable, Vec<Instruction>)>,
    },
    RangeLoop {
        i: Variable,
        start: Variable,
        end: Variable,
        step: Option<Variable>,
        inclusive: bool,
        instructions: Vec<Instruction>,
    },
    Loop { instructions: Vec<Instruction> },
    Return,
    Break,
    WorkgroupBarrier,
    StorageBarrier,
}

/// The lowered kernel body, with the flag that tells the preamble to
/// compute the flat absolute position.
#[derive(Debug, PartialEq, Eq)]
pub struct Body {
    pub instructions: Vec<Instruction>,
    pub id: bool,
}

/// The complete compiled shader record.
#[derive(Debug, PartialEq, Eq)]
pub struct ComputeShader {
    pub inputs: Vec<Binding>,
    pub outputs: Vec<Binding>,
    pub named: Vec<(String, Binding)>,
    pub shared_memories: Vec<SharedMemory>,
    pub constant_arrays: Vec<ConstantArray>,
    pub local_arrays: Vec<LocalArray>,
    pub workgroup_size: ir::CubeDim,
    pub global_invocation_id: bool,
    pub local_invocation_index: bool,
    pub local_invocation_id: bool,
    pub num_workgroups: bool,
    pub workgroup_id: bool,
    pub subgroup_size: bool,
    pub body: Body,
    pub extensions: Vec<Extension>,
    pub num_workgroups_no_axis: bool,
    pub workgroup_id_no_axis: bool,
    pub workgroup_size_no_axis: bool,
}

impl ComputeShader {
    /// Number of buffer bindings the pipeline layout must declare: one
    /// storage entry per input, output and named binding.
    pub open spec fn spec_binding_count(self) -> int {
        self.inputs@.len() + self.outputs@.len() + self.named@.len() as int
    }

    /// The entry count of the bind-group layout handed to the driver.
    pub fn binding_count(&self) -> (r: usize)
        requires
            self.spec_binding_count() <= usize::MAX,
        ensures
            r == self.spec_binding_count(),
    {
        self.inputs.len() + self.outputs.len() + self.named.len()
    }
}

} // verus!
