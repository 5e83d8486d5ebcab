//! The executable compiler, proved against the lowering model.
//!
//! Every method's contract says that it leaves the instance in the state
//! the model prescribes and returns the modeled result; the top-level
//! [`WgslCompiler::compile`] therefore produces exactly
//! [`crate::lower::spec_compile_kernel`] of its input.

use vstd::prelude::*;

use crate::ir;
use crate::lower::{
    ext_pos_of, instr_matches, instrs_match, kernel_fits, lower_binding, lower_bindings,
    lower_elem, lower_item, lower_named, lower_var, lower_vars, shader_matches,
    spec_compile_kernel,
};
use crate::state::{CompilerState, WgslCompiler};
use crate::wgsl;
use crate::CompileError;

verus! {

impl WgslCompiler {
    /// The byte budget of the workgroup-shared memories of one kernel,
    /// enforced by the surrounding runtime.
    pub fn max_shared_memory_size() -> (r: usize)
        ensures
            r == 32768,
    {
        32768
    }

    /// Map a source element kind to its target scalar, or reject it.
    pub fn compile_elem(value: ir::Elem) -> (r: Result<wgsl::Elem, CompileError>)
        ensures
            r == lower_elem(value),
    {
        match value {
            ir::Elem::Float(ir::FloatKind::Flex32) => Ok(wgsl::Elem::F32),
            ir::Elem::Float(ir::FloatKind::F32) => Ok(wgsl::Elem::F32),
            ir::Elem::Int(ir::IntKind::I32) => Ok(wgsl::Elem::I32),
            ir::Elem::UInt(ir::UIntKind::U32) => Ok(wgsl::Elem::U32),
            ir::Elem::Bool => Ok(wgsl::Elem::Bool),
            ir::Elem::AtomicInt(ir::IntKind::I32) => Ok(wgsl::Elem::AtomicI32),
            ir::Elem::AtomicUInt(ir::UIntKind::U32) => Ok(wgsl::Elem::AtomicU32),
            _ => Err(CompileError::UnsupportedType(value)),
        }
    }

    /// The byte size of the target form of a scalar element.
    pub fn elem_size(elem: ir::Elem) -> (r: Result<usize, CompileError>)
        ensures
            r == crate::lower::elem_size_of(elem),
    {
        match Self::compile_elem(elem) {
            Ok(e) => Ok(e.size()),
            Err(err) => Err(err),
        }
    }

    /// Map an item to its target scalar or vector type.
    pub fn compile_item(item: ir::Item) -> (r: Result<wgsl::Item, CompileError>)
        ensures
            r == lower_item(item),
    {
        let elem = Self::compile_elem(item.elem)?;
        if item.vectorization == 1 {
            Ok(wgsl::Item::Scalar(elem))
        } else if item.vectorization == 2 {
            Ok(wgsl::Item::Vec2(elem))
        } else if item.vectorization == 3 {
            Ok(wgsl::Item::Vec3(elem))
        } else if item.vectorization == 4 {
            Ok(wgsl::Item::Vec4(elem))
        } else {
            Err(CompileError::UnsupportedVectorization(item.vectorization))
        }
    }

    /// The metadata position of a global array: how many extended-meta
    /// bindings stand strictly before it.
    fn ext_meta_pos(&self, var: &ir::Variable) -> (r: Result<u32, CompileError>)
        ensures
            r == ext_pos_of(self@, *var),
    {
        match var.kind {
            ir::VariableKind::GlobalInputArray(id) => {
                let idx = id as usize;
                if idx < self.ext_meta_pos.len() {
                    Ok(self.ext_meta_pos[idx])
                } else {
                    Err(CompileError::InvariantViolation)
                }
            },
            ir::VariableKind::GlobalOutputArray(id) => {
                let len = self.ext_meta_pos.len();
                let idx = id as usize;
                if idx < len && self.num_inputs < len - idx {
                    Ok(self.ext_meta_pos[self.num_inputs + idx])
                } else {
                    Err(CompileError::InvariantViolation)
                }
            },
            _ => Err(CompileError::InvariantViolation),
        }
    }

    /// Whether a shared memory with this index is already declared.
    fn shared_memory_declared(&self, id: u32) -> (r: bool)
        ensures
            r == crate::lower::has_shared(self@.shared_memories, id),
    {
        let mut i: usize = 0;
        while i < self.shared_memories.len()
            invariant
                i <= self.shared_memories@.len(),
                forall|j: int| 0 <= j < i ==> self.shared_memories@[j].index != id,
            decreases self.shared_memories@.len() - i,
        {
            if self.shared_memories[i].index == id {
                return true;
            }
            i = i + 1;
        }
        false
    }

    /// Whether a local array with this index is already declared.
    fn local_array_declared(&self, id: u32) -> (r: bool)
        ensures
            r == crate::lower::has_local_array(self@.local_arrays, id),
    {
        let mut i: usize = 0;
        while i < self.local_arrays.len()
            invariant
                i <= self.local_arrays@.len(),
                forall|j: int| 0 <= j < i ==> self.local_arrays@[j].index != id,
            decreases self.local_arrays@.len() - i,
        {
            if self.local_arrays[i].index == id {
                return true;
            }
            i = i + 1;
        }
        false
    }


    /// Lower a built-in reference and set its usage flag.
    #[verifier::rlimit(60)]
    fn compile_builtin(&mut self, b: ir::Builtin) -> (r: wgsl::Variable)
        ensures
            final(self)@ == (CompilerState {
                flags: old(self)@.flags.union(crate::lower::builtin_flags(b)),
                ..old(self)@
            }),
            r == crate::lower::builtin_variable(b),
    {
        let var = match b {
                    ir::Builtin::AbsolutePos => {
                        self.id = true;
                        wgsl::Variable::Id
                    },
                    ir::Builtin::UnitPos => {
                        self.local_invocation_index = true;
                        wgsl::Variable::LocalInvocationIndex
                    },
                    ir::Builtin::UnitPosX => {
                        self.local_invocation_id = true;
                        wgsl::Variable::LocalInvocationIdX
                    },
                    ir::Builtin::UnitPosY => {
                        self.local_invocation_id = true;
                        wgsl::Variable::LocalInvocationIdY
                    },
                    ir::Builtin::UnitPosZ => {
                        self.local_invocation_id = true;
                        wgsl::Variable::LocalInvocationIdZ
                    },
                    ir::Builtin::CubePosX => {
                        self.workgroup_id = true;
                        wgsl::Variable::WorkgroupIdX
                    },
                    ir::Builtin::CubePosY => {
                        self.workgroup_id = true;
                        wgsl::Variable::WorkgroupIdY
                    },
                    ir::Builtin::CubePosZ => {
                        self.workgroup_id = true;
                        wgsl::Variable::WorkgroupIdZ
                    },
                    ir::Builtin::AbsolutePosX => {
                        self.global_invocation_id = true;
                        wgsl::Variable::GlobalInvocationIdX
                    },
                    ir::Builtin::AbsolutePosY => {
                        self.global_invocation_id = true;
                        wgsl::Variable::GlobalInvocationIdY
                    },
                    ir::Builtin::AbsolutePosZ => {
                        self.global_invocation_id = true;
                        wgsl::Variable::GlobalInvocationIdZ
                    },
                    ir::Builtin::CubeDimX => wgsl::Variable::WorkgroupSizeX,
                    ir::Builtin::CubeDimY => wgsl::Variable::WorkgroupSizeY,
                    ir::Builtin::CubeDimZ => wgsl::Variable::WorkgroupSizeZ,
                    ir::Builtin::CubeCountX => {
                        self.num_workgroups = true;
                        wgsl::Variable::NumWorkgroupsX
                    },
                    ir::Builtin::CubeCountY => {
                        self.num_workgroups = true;
                        wgsl::Variable::NumWorkgroupsY
                    },
                    ir::Builtin::CubeCountZ => {
                        self.num_workgroups = true;
                        wgsl::Variable::NumWorkgroupsZ
                    },
                    ir::Builtin::CubePos => {
                        self.workgroup_id_no_axis = true;
                        wgsl::Variable::WorkgroupId
                    },
                    ir::Builtin::CubeDim => {
                        self.workgroup_size_no_axis = true;
                        wgsl::Variable::WorkgroupSize
                    },
                    ir::Builtin::CubeCount => {
                        self.num_workgroup_no_axis = true;
                        wgsl::Variable::NumWorkgroups
                    },
                    ir::Builtin::SubcubeDim => {
                        self.subgroup_size = true;
                        wgsl::Variable::SubgroupSize
                    },
                };
        proof {
            assert(final(self)@ =~= (CompilerState {
                flags: old(self)@.flags.union(crate::lower::builtin_flags(b)),
                ..old(self)@
            }));
        }
        var
    }

    /// Lower one variable reference, recording shared-memory and
    /// local-array declarations on first sight and built-in usage flags.
    #[verifier::rlimit(60)]
    pub fn compile_variable(&mut self, value: ir::Variable) -> (r: Result<
        wgsl::Variable,
        CompileError,
    >)
        ensures
            ({
                let (st, sr) = lower_var(old(self)@, value);
                final(self)@ == st && r == sr
            }),
    {
        let item = value.item;
        match value.kind {
            ir::VariableKind::GlobalInputArray(id) => {
                let item = Self::compile_item(item)?;
                Ok(wgsl::Variable::GlobalInputArray(id, item))
            },
            ir::VariableKind::GlobalOutputArray(id) => {
                let item = Self::compile_item(item)?;
                Ok(wgsl::Variable::GlobalOutputArray(id, item))
            },
            ir::VariableKind::GlobalScalar(id) => {
                let elem = Self::compile_elem(item.elem)?;
                Ok(wgsl::Variable::GlobalScalar(id, elem, item.elem))
            },
            ir::VariableKind::Local { id, depth } => {
                let item = Self::compile_item(item)?;
                Ok(wgsl::Variable::Local { id, item, depth })
            },
            ir::VariableKind::Versioned { id, depth, .. } => {
                let item = Self::compile_item(item)?;
                Ok(wgsl::Variable::Local { id, item, depth })
            },
            ir::VariableKind::LocalBinding { id } => {
                let item = Self::compile_item(item)?;
                Ok(wgsl::Variable::LocalBinding { id, item })
            },
            ir::VariableKind::Slice { id, depth } => {
                let item = Self::compile_item(item)?;
                Ok(wgsl::Variable::Slice { id, item, depth })
            },
            ir::VariableKind::ConstantScalar(v) => {
                let elem = Self::compile_elem(v.elem())?;
                Ok(wgsl::Variable::ConstantScalar(v, elem))
            },
            ir::VariableKind::ConstantArray { id, length } => {
                let item = Self::compile_item(item)?;
                Ok(wgsl::Variable::ConstantArray(id, item, length))
            },
            ir::VariableKind::SharedMemory { id, length } => {
                let item = Self::compile_item(item)?;
                if !self.shared_memory_declared(id) {
                    self.shared_memories.push(
                        wgsl::SharedMemory { index: id, item, size: length },
                    );
                }
                Ok(wgsl::Variable::SharedMemory(id, item, length))
            },
            ir::VariableKind::LocalArray { id, depth, length } => {
                let item = Self::compile_item(item)?;
                if !self.local_array_declared(id) {
                    self.local_arrays.push(
                        wgsl::LocalArray { index: id, item, depth, size: length },
                    );
                }
                Ok(wgsl::Variable::LocalArray(id, item, depth, length))
            },
            ir::VariableKind::Builtin(b) => Ok(self.compile_builtin(b)),
            ir::VariableKind::Matrix => Err(CompileError::UnsupportedFeature),
        }
    }

    /// Lower a list of variable references, left to right.
    fn compile_variables(&mut self, values: &Vec<ir::Variable>) -> (r: Result<
        Vec<wgsl::Variable>,
        CompileError,
    >)
        ensures
            ({
                let (st, sr) = lower_vars(old(self)@, values@);
                final(self)@ == st && (match (r, sr) {
                    (Ok(v), Ok(s)) => v@ == s,
                    (Err(a), Err(b)) => a == b,
                    _ => false,
                })
            }),
    {
        let mut out: Vec<wgsl::Variable> = Vec::new();
        let mut i: usize = 0;
        while i < values.len()
            invariant
                i <= values@.len(),
                lower_vars(old(self)@, values@.take(i as int)) == (self@, Ok::<
                    Seq<wgsl::Variable>,
                    CompileError,
                >(out@)),
            decreases values@.len() - i,
        {
            proof {
                assert(values@.take(i + 1).drop_last() =~= values@.take(i as int));
                assert(values@.take(i + 1).last() == values@[i as int]);
            }
            match self.compile_variable(values[i]) {
                Ok(w) => {
                    out.push(w);
                },
                Err(e) => {
                    proof {
                        crate::lower::lemma_vars_prefix_err(old(self)@, values@, i + 1);
                    }
                    return Err(e);
                },
            }
            i = i + 1;
        }
        proof {
            assert(values@.take(values@.len() as int) =~= values@);
        }
        Ok(out)
    }
}


impl WgslCompiler {
    /// Lower two variable references in order.
    fn compile_var2(&mut self, a: ir::Variable, b: ir::Variable) -> (r: Result<
        (wgsl::Variable, wgsl::Variable),
        CompileError,
    >)
        ensures
            ({
                let (st, sr) = crate::lower::lower_var2(old(self)@, a, b);
                final(self)@ == st && (match (r, sr) {
                    (Ok(t), Ok(ts)) => t == ts,
                    (Err(x), Err(y)) => x == y,
                    _ => false,
                })
            }),
    {
        let wa = self.compile_variable(a)?;
        let wb = self.compile_variable(b)?;
        Ok((wa, wb))
    }

    /// Lower three variable references in order.
    fn compile_var3(&mut self, a: ir::Variable, b: ir::Variable, c: ir::Variable) -> (r: Result<
        (wgsl::Variable, wgsl::Variable, wgsl::Variable),
        CompileError,
    >)
        ensures
            ({
                let (st, sr) = crate::lower::lower_var3(old(self)@, a, b, c);
                final(self)@ == st && (match (r, sr) {
                    (Ok(t), Ok(ts)) => t == ts,
                    (Err(x), Err(y)) => x == y,
                    _ => false,
                })
            }),
    {
        let (wa, wb) = self.compile_var2(a, b)?;
        let wc = self.compile_variable(c)?;
        Ok((wa, wb, wc))
    }

    /// Lower four variable references in order.
    fn compile_var4(&mut self, a: ir::Variable, b: ir::Variable, c: ir::Variable, d: ir::Variable)
        -> (r: Result<
        (wgsl::Variable, wgsl::Variable, wgsl::Variable, wgsl::Variable),
        CompileError,
    >)
        ensures
            ({
                let (st, sr) = crate::lower::lower_var4(old(self)@, a, b, c, d);
                final(self)@ == st && (match (r, sr) {
                    (Ok(t), Ok(ts)) => t == ts,
                    (Err(x), Err(y)) => x == y,
                    _ => false,
                })
            }),
    {
        let (wa, wb, wc) = self.compile_var3(a, b, c)?;
        let wd = self.compile_variable(d)?;
        Ok((wa, wb, wc, wd))
    }

    /// Lower one primitive operation to its target instruction.
    pub fn compile_instruction(&mut self, value: &ir::Operator, out: ir::Variable) -> (r: Result<
        wgsl::Instruction,
        CompileError,
    >)
        ensures
            ({
                let (st, sr) = crate::lower::lower_operator(old(self)@, *value, out);
                final(self)@ == st && instr_matches(r, sr)
            }),
    {
        match value {
            ir::Operator::Add(_)
            | ir::Operator::Sub(_)
            | ir::Operator::Mul(_)
            | ir::Operator::Div(_)
            | ir::Operator::Modulo(_)
            | ir::Operator::Remainder(_)
            | ir::Operator::Max(_)
            | ir::Operator::Min(_)
            | ir::Operator::Index(_)
            | ir::Operator::UncheckedIndex(_)
            | ir::Operator::IndexAssign(_) => self.compile_instruction_a(value, out),
            ir::Operator::UncheckedIndexAssign(_)
            | ir::Operator::Powf(_)
            | ir::Operator::Equal(_)
            | ir::Operator::NotEqual(_)
            | ir::Operator::Lower(_)
            | ir::Operator::Greater(_)
            | ir::Operator::LowerEqual(_)
            | ir::Operator::GreaterEqual(_)
            | ir::Operator::And(_)
            | ir::Operator::Or(_)
            | ir::Operator::BitwiseOr(_) => self.compile_instruction_b(value, out),
            ir::Operator::BitwiseAnd(_)
            | ir::Operator::BitwiseXor(_)
            | ir::Operator::ShiftLeft(_)
            | ir::Operator::ShiftRight(_)
            | ir::Operator::Dot(_)
            | ir::Operator::Abs(_)
            | ir::Operator::Exp(_)
            | ir::Operator::Log(_)
            | ir::Operator::Log1p(_)
            | ir::Operator::Cos(_)
            | ir::Operator::Sin(_) => self.compile_instruction_c(value, out),
            ir::Operator::Tanh(_)
            | ir::Operator::Sqrt(_)
            | ir::Operator::Round(_)
            | ir::Operator::Floor(_)
            | ir::Operator::Ceil(_)
            | ir::Operator::Erf(_)
            | ir::Operator::Recip(_)
            | ir::Operator::Cast(_)
            | ir::Operator::Bitcast(_)
            | ir::Operator::Not(_)
            | ir::Operator::Neg(_) => self.compile_instruction_d(value, out),
            ir::Operator::Magnitude(_)
            | ir::Operator::Normalize(_)
            | ir::Operator::Fma(_)
            | ir::Operator::Clamp(_)
            | ir::Operator::Select(_)
            | ir::Operator::Slice(_)
            | ir::Operator::CopyMemory(_)
            | ir::Operator::CopyMemoryBulk(_)
            | ir::Operator::InitLine(_) => self.compile_instruction_e(value, out),

        }
    }

    /// One slice of the operation lowerer; split to keep each proof small.
    #[verifier::spinoff_prover]
    #[verifier::rlimit(100)]
    fn compile_instruction_a(&mut self, value: &ir::Operator, out: ir::Variable) -> (r: Result<
        wgsl::Instruction,
        CompileError,
    >)
        requires
            (*value) matches ir::Operator::Add(_)
            || (*value) matches ir::Operator::Sub(_)
            || (*value) matches ir::Operator::Mul(_)
            || (*value) matches ir::Operator::Div(_)
            || (*value) matches ir::Operator::Modulo(_)
            || (*value) matches ir::Operator::Remainder(_)
            || (*value) matches ir::Operator::Max(_)
            || (*value) matches ir::Operator::Min(_)
            || (*value) matches ir::Operator::Index(_)
            || (*value) matches ir::Operator::UncheckedIndex(_)
            || (*value) matches ir::Operator::IndexAssign(_),
        ensures
            ({
                let (st, sr) = crate::lower::lower_operator(old(self)@, *value, out);
                final(self)@ == st && instr_matches(r, sr)
            }),
    {
        match value {
            ir::Operator::Add(o) => {
                let (lhs, rhs, w) = self.compile_var3(o.lhs, o.rhs, out)?;
                Ok(wgsl::Instruction::Add { lhs, rhs, out: w })
            },
            ir::Operator::Sub(o) => {
                let (lhs, rhs, w) = self.compile_var3(o.lhs, o.rhs, out)?;
                Ok(wgsl::Instruction::Sub { lhs, rhs, out: w })
            },
            ir::Operator::Mul(o) => {
                let (lhs, rhs, w) = self.compile_var3(o.lhs, o.rhs, out)?;
                Ok(wgsl::Instruction::Mul { lhs, rhs, out: w })
            },
            ir::Operator::Div(o) => {
                let (lhs, rhs, w) = self.compile_var3(o.lhs, o.rhs, out)?;
                Ok(wgsl::Instruction::Div { lhs, rhs, out: w })
            },
            ir::Operator::Modulo(o) => {
                let (lhs, rhs, w) = self.compile_var3(o.lhs, o.rhs, out)?;
                Ok(wgsl::Instruction::Modulo { lhs, rhs, out: w })
            },
            ir::Operator::Remainder(o) => {
                let (lhs, rhs, w) = self.compile_var3(o.lhs, o.rhs, out)?;
                Ok(wgsl::Instruction::Remainder { lhs, rhs, out: w })
            },
            ir::Operator::Max(o) => {
                let (lhs, rhs, w) = self.compile_var3(o.lhs, o.rhs, out)?;
                Ok(wgsl::Instruction::Max { lhs, rhs, out: w })
            },
            ir::Operator::Min(o) => {
                let (lhs, rhs, w) = self.compile_var3(o.lhs, o.rhs, out)?;
                Ok(wgsl::Instruction::Min { lhs, rhs, out: w })
            },
            ir::Operator::Index(o) => {
                let (lhs, rhs, w) = self.compile_var3(o.lhs, o.rhs, out)?;
                Ok(wgsl::Instruction::Index { lhs, rhs, out: w })
            },
            ir::Operator::UncheckedIndex(o) => {
                let (lhs, rhs, w) = self.compile_var3(o.lhs, o.rhs, out)?;
                Ok(wgsl::Instruction::Index { lhs, rhs, out: w })
            },
            ir::Operator::IndexAssign(o) => {
                let (lhs, rhs, w) = self.compile_var3(o.lhs, o.rhs, out)?;
                Ok(wgsl::Instruction::IndexAssign { lhs, rhs, out: w })
            },
            _ => Err(CompileError::InvariantViolation),
        }
    }

    /// One slice of the operation lowerer; split to keep each proof small.
    #[verifier::spinoff_prover]
    #[verifier::rlimit(100)]
    fn compile_instruction_b(&mut self, value: &ir::Operator, out: ir::Variable) -> (r: Result<
        wgsl::Instruction,
        CompileError,
    >)
        requires
            (*value) matches ir::Operator::UncheckedIndexAssign(_)
            || (*value) matches ir::Operator::Powf(_)
            || (*value) matches ir::Operator::Equal(_)
            || (*value) matches ir::Operator::NotEqual(_)
            || (*value) matches ir::Operator::Lower(_)
            || (*value) matches ir::Operator::Greater(_)
            || (*value) matches ir::Operator::LowerEqual(_)
            || (*value) matches ir::Operator::GreaterEqual(_)
            || (*value) matches ir::Operator::And(_)
            || (*value) matches ir::Operator::Or(_)
            || (*value) matches ir::Operator::BitwiseOr(_),
        ensures
            ({
                let (st, sr) = crate::lower::lower_operator(old(self)@, *value, out);
                final(self)@ == st && instr_matches(r, sr)
            }),
    {
        match value {
            ir::Operator::UncheckedIndexAssign(o) => {
                let (lhs, rhs, w) = self.compile_var3(o.lhs, o.rhs, out)?;
                Ok(wgsl::Instruction::IndexAssign { lhs, rhs, out: w })
            },
            ir::Operator::Powf(o) => {
                let (lhs, rhs, w) = self.compile_var3(o.lhs, o.rhs, out)?;
                Ok(wgsl::Instruction::Powf { lhs, rhs, out: w })
            },
            ir::Operator::Equal(o) => {
                let (lhs, rhs, w) = self.compile_var3(o.lhs, o.rhs, out)?;
                Ok(wgsl::Instruction::Equal { lhs, rhs, out: w })
            },
            ir::Operator::NotEqual(o) => {
                let (lhs, rhs, w) = self.compile_var3(o.lhs, o.rhs, out)?;
                Ok(wgsl::Instruction::NotEqual { lhs, rhs, out: w })
            },
            ir::Operator::Lower(o) => {
                let (lhs, rhs, w) = self.compile_var3(o.lhs, o.rhs, out)?;
                Ok(wgsl::Instruction::Lower { lhs, rhs, out: w })
            },
            ir::Operator::Greater(o) => {
                let (lhs, rhs, w) = self.compile_var3(o.lhs, o.rhs, out)?;
                Ok(wgsl::Instruction::Greater { lhs, rhs, out: w })
            },
            ir::Operator::LowerEqual(o) => {
                let (lhs, rhs, w) = self.compile_var3(o.lhs, o.rhs, out)?;
                Ok(wgsl::Instruction::LowerEqual { lhs, rhs, out: w })
            },
            ir::Operator::GreaterEqual(o) => {
                let (lhs, rhs, w) = self.compile_var3(o.lhs, o.rhs, out)?;
                Ok(wgsl::Instruction::GreaterEqual { lhs, rhs, out: w })
            },
            ir::Operator::And(o) => {
                let (lhs, rhs, w) = self.compile_var3(o.lhs, o.rhs, out)?;
                Ok(wgsl::Instruction::And { lhs, rhs, out: w })
            },
            ir::Operator::Or(o) => {
                let (lhs, rhs, w) = self.compile_var3(o.lhs, o.rhs, out)?;
                Ok(wgsl::Instruction::Or { lhs, rhs, out: w })
            },
            ir::Operator::BitwiseOr(o) => {
                let (lhs, rhs, w) = self.compile_var3(o.lhs, o.rhs, out)?;
                Ok(wgsl::Instruction::BitwiseOr { lhs, rhs, out: w })
            },
            _ => Err(CompileError::InvariantViolation),
        }
    }

    /// One slice of the operation lowerer; split to keep each proof small.
    #[verifier::spinoff_prover]
    #[verifier::rlimit(100)]
    fn compile_instruction_c(&mut self, value: &ir::Operator, out: ir::Variable) -> (r: Result<
        wgsl::Instruction,
        CompileError,
    >)
        requires
            (*value) matches ir::Operator::BitwiseAnd(_)
            || (*value) matches ir::Operator::BitwiseXor(_)
            || (*value) matches ir::Operator::ShiftLeft(_)
            || (*value) matches ir::Operator::ShiftRight(_)
            || (*value) matches ir::Operator::Dot(_)
            || (*value) matches ir::Operator::Abs(_)
            || (*value) matches ir::Operator::Exp(_)
            || (*value) matches ir::Operator::Log(_)
            || (*value) matches ir::Operator::Log1p(_)
            || (*value) matches ir::Operator::Cos(_)
            || (*value) matches ir::Operator::Sin(_),
        ensures
            ({
                let (st, sr) = crate::lower::lower_operator(old(self)@, *value, out);
                final(self)@ == st && instr_matches(r, sr)
            }),
    {
        match value {
            ir::Operator::BitwiseAnd(o) => {
                let (lhs, rhs, w) = self.compile_var3(o.lhs, o.rhs, out)?;
                Ok(wgsl::Instruction::BitwiseAnd { lhs, rhs, out: w })
            },
            ir::Operator::BitwiseXor(o) => {
                let (lhs, rhs, w) = self.compile_var3(o.lhs, o.rhs, out)?;
                Ok(wgsl::Instruction::BitwiseXor { lhs, rhs, out: w })
            },
            ir::Operator::ShiftLeft(o) => {
                let (lhs, rhs, w) = self.compile_var3(o.lhs, o.rhs, out)?;
                Ok(wgsl::Instruction::ShiftLeft { lhs, rhs, out: w })
            },
            ir::Operator::ShiftRight(o) => {
                let (lhs, rhs, w) = self.compile_var3(o.lhs, o.rhs, out)?;
                Ok(wgsl::Instruction::ShiftRight { lhs, rhs, out: w })
            },
            ir::Operator::Dot(o) => {
                let (lhs, rhs, w) = self.compile_var3(o.lhs, o.rhs, out)?;
                Ok(wgsl::Instruction::Dot { lhs, rhs, out: w })
            },
            ir::Operator::Abs(o) => {
                let (input, w) = self.compile_var2(o.input, out)?;
                Ok(wgsl::Instruction::Abs { input, out: w })
            },
            ir::Operator::Exp(o) => {
                let (input, w) = self.compile_var2(o.input, out)?;
                Ok(wgsl::Instruction::Exp { input, out: w })
            },
            ir::Operator::Log(o) => {
                let (input, w) = self.compile_var2(o.input, out)?;
                Ok(wgsl::Instruction::Log { input, out: w })
            },
            ir::Operator::Log1p(o) => {
                let (input, w) = self.compile_var2(o.input, out)?;
                Ok(wgsl::Instruction::Log1p { input, out: w })
            },
            ir::Operator::Cos(o) => {
                let (input, w) = self.compile_var2(o.input, out)?;
                Ok(wgsl::Instruction::Cos { input, out: w })
            },
            ir::Operator::Sin(o) => {
                let (input, w) = self.compile_var2(o.input, out)?;
                Ok(wgsl::Instruction::Sin { input, out: w })
            },
            _ => Err(CompileError::InvariantViolation),
        }
    }

    /// One slice of the operation lowerer; split to keep each proof small.
    #[verifier::spinoff_prover]
    #[verifier::rlimit(100)]
    fn compile_instruction_d(&mut self, value: &ir::Operator, out: ir::Variable) -> (r: Result<
        wgsl::Instruction,
        CompileError,
    >)
        requires
            (*value) matches ir::Operator::Tanh(_)
            || (*value) matches ir::Operator::Sqrt(_)
            || (*value) matches ir::Operator::Round(_)
            || (*value) matches ir::Operator::Floor(_)
            || (*value) matches ir::Operator::Ceil(_)
            || (*value) matches ir::Operator::Erf(_)
            || (*value) matches ir::Operator::Recip(_)
            || (*value) matches ir::Operator::Cast(_)
            || (*value) matches ir::Operator::Bitcast(_)
            || (*value) matches ir::Operator::Not(_)
            || (*value) matches ir::Operator::Neg(_),
        ensures
            ({
                let (st, sr) = crate::lower::lower_operator(old(self)@, *value, out);
                final(self)@ == st && instr_matches(r, sr)
            }),
    {
        match value {
            ir::Operator::Tanh(o) => {
                let (input, w) = self.compile_var2(o.input, out)?;
                Ok(wgsl::Instruction::Tanh { input, out: w })
            },
            ir::Operator::Sqrt(o) => {
                let (input, w) = self.compile_var2(o.input, out)?;
                Ok(wgsl::Instruction::Sqrt { input, out: w })
            },
            ir::Operator::Round(o) => {
                let (input, w) = self.compile_var2(o.input, out)?;
                Ok(wgsl::Instruction::Round { input, out: w })
            },
            ir::Operator::Floor(o) => {
                let (input, w) = self.compile_var2(o.input, out)?;
                Ok(wgsl::Instruction::Floor { input, out: w })
            },
            ir::Operator::Ceil(o) => {
                let (input, w) = self.compile_var2(o.input, out)?;
                Ok(wgsl::Instruction::Ceil { input, out: w })
            },
            ir::Operator::Erf(o) => {
                let (input, w) = self.compile_var2(o.input, out)?;
                Ok(wgsl::Instruction::Erf { input, out: w })
            },
            ir::Operator::Recip(o) => {
                let (input, w) = self.compile_var2(o.input, out)?;
                Ok(wgsl::Instruction::Recip { input, out: w })
            },
            ir::Operator::Cast(o) => {
                let (input, w) = self.compile_var2(o.input, out)?;
                Ok(wgsl::Instruction::Assign { input, out: w })
            },
            ir::Operator::Bitcast(o) => {
                let (input, w) = self.compile_var2(o.input, out)?;
                Ok(wgsl::Instruction::Bitcast { input, out: w })
            },
            ir::Operator::Not(o) => {
                let (input, w) = self.compile_var2(o.input, out)?;
                Ok(wgsl::Instruction::Not { input, out: w })
            },
            ir::Operator::Neg(o) => {
                let (input, w) = self.compile_var2(o.input, out)?;
                Ok(wgsl::Instruction::Negate { input, out: w })
            },
            _ => Err(CompileError::InvariantViolation),
        }
    }

    /// One slice of the operation lowerer; split to keep each proof small.
    #[verifier::spinoff_prover]
    #[verifier::rlimit(100)]
    fn compile_instruction_e(&mut self, value: &ir::Operator, out: ir::Variable) -> (r: Result<
        wgsl::Instruction,
        CompileError,
    >)
        requires
            (*value) matches ir::Operator::Magnitude(_)
            || (*value) matches ir::Operator::Normalize(_)
            || (*value) matches ir::Operator::Fma(_)
            || (*value) matches ir::Operator::Clamp(_)
            || (*value) matches ir::Operator::Select(_)
            || (*value) matches ir::Operator::Slice(_)
            || (*value) matches ir::Operator::CopyMemory(_)
            || (*value) matches ir::Operator::CopyMemoryBulk(_)
            || (*value) matches ir::Operator::InitLine(_),
        ensures
            ({
                let (st, sr) = crate::lower::lower_operator(old(self)@, *value, out);
                final(self)@ == st && instr_matches(r, sr)
            }),
    {
        match value {
            ir::Operator::Magnitude(o) => {
                let (input, w) = self.compile_var2(o.input, out)?;
                Ok(wgsl::Instruction::Magnitude { input, out: w })
            },
            ir::Operator::Normalize(o) => {
                let (input, w) = self.compile_var2(o.input, out)?;
                Ok(wgsl::Instruction::Normalize { input, out: w })
            },
            ir::Operator::Fma(o) => {
                let (a, b, c, w) = self.compile_var4(o.a, o.b, o.c, out)?;
                Ok(wgsl::Instruction::Fma { a, b, c, out: w })
            },
            ir::Operator::Clamp(o) => {
                let (input, min_value, max_value, w) = self.compile_var4(
                    o.input,
                    o.min_value,
                    o.max_value,
                    out,
                )?;
                Ok(wgsl::Instruction::Clamp { input, min_value, max_value, out: w })
            },
            ir::Operator::Select(o) => {
                let (cond, then_value, or_else, w) = self.compile_var4(
                    o.cond,
                    o.then_value,
                    o.or_else,
                    out,
                )?;
                Ok(wgsl::Instruction::Select { cond, then_value, or_else, out: w })
            },
            ir::Operator::Slice(o) => {
                let (input, start, end, w) = self.compile_var4(o.input, o.start, o.end, out)?;
                Ok(wgsl::Instruction::Slice { input, start, end, out: w })
            },
            ir::Operator::CopyMemory(o) => {
                let (input, in_index, w, out_index) = self.compile_var4(
                    o.input,
                    o.in_index,
                    out,
                    o.out_index,
                )?;
                Ok(wgsl::Instruction::Copy { input, in_index, out: w, out_index })
            },
            ir::Operator::CopyMemoryBulk(o) => {
                let (input, in_index, w, out_index) = self.compile_var4(
                    o.input,
                    o.in_index,
                    out,
                    o.out_index,
                )?;
                Ok(wgsl::Instruction::CopyBulk { input, in_index, out: w, out_index, len: o.len })
            },
            ir::Operator::InitLine(o) => {
                let inputs = self.compile_variables(&o.inputs)?;
                let w = self.compile_variable(out)?;
                Ok(wgsl::Instruction::VecInit { inputs, out: w })
            },            _ => Err(CompileError::InvariantViolation),
        }
    }


    /// Lower one atomic operation.
    #[verifier::spinoff_prover]
    #[verifier::rlimit(100)]
    pub fn compile_atomic(&mut self, atomic: &ir::AtomicOp, out: ir::Variable) -> (r: Result<
        wgsl::Instruction,
        CompileError,
    >)
        ensures
            ({
                let (st, sr) = crate::lower::lower_atomic(old(self)@, *atomic, out);
                final(self)@ == st && instr_matches(r, sr)
            }),
    {
        match atomic {
            ir::AtomicOp::Add(o) => {
                let (lhs, rhs, w) = self.compile_var3(o.lhs, o.rhs, out)?;
                Ok(wgsl::Instruction::AtomicAdd { lhs, rhs, out: w })
            },
            ir::AtomicOp::Sub(o) => {
                let (lhs, rhs, w) = self.compile_var3(o.lhs, o.rhs, out)?;
                Ok(wgsl::Instruction::AtomicSub { lhs, rhs, out: w })
            },
            ir::AtomicOp::Max(o) => {
                let (lhs, rhs, w) = self.compile_var3(o.lhs, o.rhs, out)?;
                Ok(wgsl::Instruction::AtomicMax { lhs, rhs, out: w })
            },
            ir::AtomicOp::Min(o) => {
                let (lhs, rhs, w) = self.compile_var3(o.lhs, o.rhs, out)?;
                Ok(wgsl::Instruction::AtomicMin { lhs, rhs, out: w })
            },
            ir::AtomicOp::And(o) => {
                let (lhs, rhs, w) = self.compile_var3(o.lhs, o.rhs, out)?;
                Ok(wgsl::Instruction::AtomicAnd { lhs, rhs, out: w })
            },
            ir::AtomicOp::Or(o) => {
                let (lhs, rhs, w) = self.compile_var3(o.lhs, o.rhs, out)?;
                Ok(wgsl::Instruction::AtomicOr { lhs, rhs, out: w })
            },
            ir::AtomicOp::Xor(o) => {
                let (lhs, rhs, w) = self.compile_var3(o.lhs, o.rhs, out)?;
                Ok(wgsl::Instruction::AtomicXor { lhs, rhs, out: w })
            },
            ir::AtomicOp::Swap(o) => {
                let (lhs, rhs, w) = self.compile_var3(o.lhs, o.rhs, out)?;
                Ok(wgsl::Instruction::AtomicSwap { lhs, rhs, out: w })
            },
            ir::AtomicOp::Load(o) => {
                let (input, w) = self.compile_var2(o.input, out)?;
                Ok(wgsl::Instruction::AtomicLoad { input, out: w })
            },
            ir::AtomicOp::Store(o) => {
                let (input, w) = self.compile_var2(o.input, out)?;
                Ok(wgsl::Instruction::AtomicStore { input, out: w })
            },
            ir::AtomicOp::CompareAndSwap(o) => {
                let (lhs, cmp, value, w) = self.compile_var4(o.input, o.cmp, o.val, out)?;
                Ok(wgsl::Instruction::AtomicCompareExchangeWeak { lhs, cmp, value, out: w })
            },
        }
    }

    /// Lower one subgroup collective.
    #[verifier::spinoff_prover]
    #[verifier::rlimit(60)]
    pub fn compile_subgroup(&mut self, subgroup: &ir::Subcube, out: ir::Variable) -> (r: Result<
        wgsl::Instruction,
        CompileError,
    >)
        ensures
            ({
                let (st, sr) = crate::lower::lower_subgroup(old(self)@, *subgroup, out);
                final(self)@ == st && instr_matches(r, sr)
            }),
    {
        match subgroup {
            ir::Subcube::Elect => {
                let w = self.compile_variable(out)?;
                Ok(wgsl::Instruction::Subgroup(wgsl::Subgroup::Elect { out: w }))
            },
            ir::Subcube::All(o) => {
                let (input, w) = self.compile_var2(o.input, out)?;
                Ok(wgsl::Instruction::Subgroup(wgsl::Subgroup::All { input, out: w }))
            },
            ir::Subcube::Any(o) => {
                let (input, w) = self.compile_var2(o.input, out)?;
                Ok(wgsl::Instruction::Subgroup(wgsl::Subgroup::Any { input, out: w }))
            },
            ir::Subcube::Sum(o) => {
                let (input, w) = self.compile_var2(o.input, out)?;
                Ok(wgsl::Instruction::Subgroup(wgsl::Subgroup::Sum { input, out: w }))
            },
            ir::Subcube::Prod(o) => {
                let (input, w) = self.compile_var2(o.input, out)?;
                Ok(wgsl::Instruction::Subgroup(wgsl::Subgroup::Prod { input, out: w }))
            },
            ir::Subcube::Min(o) => {
                let (input, w) = self.compile_var2(o.input, out)?;
                Ok(wgsl::Instruction::Subgroup(wgsl::Subgroup::Min { input, out: w }))
            },
            ir::Subcube::Max(o) => {
                let (input, w) = self.compile_var2(o.input, out)?;
                Ok(wgsl::Instruction::Subgroup(wgsl::Subgroup::Max { input, out: w }))
            },
            ir::Subcube::Broadcast(o) => {
                let (lhs, rhs, w) = self.compile_var3(o.lhs, o.rhs, out)?;
                Ok(wgsl::Instruction::Subgroup(wgsl::Subgroup::Broadcast { lhs, rhs, out: w }))
            },
        }
    }
}


impl WgslCompiler {
    /// The emitted constant that carries a metadata-table offset.
    fn meta_offset_var(offset: u64) -> (r: wgsl::Variable)
        ensures
            r == crate::lower::meta_const(offset as int),
    {
        proof {
            assert(crate::lower::wrap64(offset as int) == offset) by (nonlinear_arith);
        }
        wgsl::Variable::ConstantScalar(
            ir::ConstantScalarValue::UInt(offset, ir::UIntKind::U32),
            wgsl::Elem::U32,
        )
    }

    /// Lower one metadata query into a load from the side-table, or a
    /// direct length instruction for non-global variables. The emitted
    /// offsets follow the index functions of [`crate::metadata::Metadata`].
    #[verifier::spinoff_prover]
    #[verifier::rlimit(100)]
    pub fn compile_metadata(&mut self, metadata: &ir::MetadataOp, out: ir::Variable) -> (r: Result<
        wgsl::Instruction,
        CompileError,
    >)
        ensures
            ({
                let (st, sr) = crate::lower::lower_metadata(old(self)@, *metadata, out);
                final(self)@ == st && instr_matches(r, sr)
            }),
    {
        match metadata {
            ir::MetadataOp::Rank { var } => {
                let position = self.ext_meta_pos(var)?;
                let offset: u64 = 2 * (self.metadata.num_meta as u64) + (position as u64);
                let w = self.compile_variable(out)?;
                Ok(
                    wgsl::Instruction::Metadata {
                        out: w,
                        info_offset: Self::meta_offset_var(offset),
                    },
                )
            },
            ir::MetadataOp::Stride { dim, var } => {
                let position = self.ext_meta_pos(var)?;
                let offset: u64 = 2 * (self.metadata.num_meta as u64) + 2 * (
                self.metadata.num_ext as u64) + (position as u64);
                let (d, w) = self.compile_var2(*dim, out)?;
                Ok(
                    wgsl::Instruction::ExtendedMeta {
                        info_offset: Self::meta_offset_var(offset),
                        dim: d,
                        out: w,
                    },
                )
            },
            ir::MetadataOp::Shape { dim, var } => {
                let position = self.ext_meta_pos(var)?;
                let offset: u64 = 2 * (self.metadata.num_meta as u64) + (
                self.metadata.num_ext as u64) + (position as u64);
                let (d, w) = self.compile_var2(*dim, out)?;
                Ok(
                    wgsl::Instruction::ExtendedMeta {
                        info_offset: Self::meta_offset_var(offset),
                        dim: d,
                        out: w,
                    },
                )
            },
            ir::MetadataOp::Length { var } => match var.kind {
                ir::VariableKind::GlobalInputArray(id) => {
                    let w = self.compile_variable(out)?;
                    Ok(
                        wgsl::Instruction::Metadata {
                            out: w,
                            info_offset: Self::meta_offset_var(id as u64),
                        },
                    )
                },
                ir::VariableKind::GlobalOutputArray(id) => {
                    let offset: u64 = (self.num_inputs as u64).wrapping_add(id as u64);
                    proof {
                        assert(offset == crate::lower::wrap64(self@.num_inputs + id))
                            by (nonlinear_arith)
                            requires
                                offset == vstd::wrapping::u64_specs::wrapping_add(
                                    self@.num_inputs as u64,
                                    id as u64,
                                ),
                        ;
                    }
                    let w = self.compile_variable(out)?;
                    Ok(
                        wgsl::Instruction::Metadata {
                            out: w,
                            info_offset: Self::meta_offset_var(offset),
                        },
                    )
                },
                _ => {
                    let (v, w) = self.compile_var2(*var, out)?;
                    Ok(wgsl::Instruction::Length { var: v, out: w })
                },
            },
            ir::MetadataOp::BufferLength { var } => match var.kind {
                ir::VariableKind::GlobalInputArray(id) => {
                    let offset: u64 = (self.metadata.num_meta as u64) + (id as u64);
                    let w = self.compile_variable(out)?;
                    Ok(
                        wgsl::Instruction::Metadata {
                            out: w,
                            info_offset: Self::meta_offset_var(offset),
                        },
                    )
                },
                ir::VariableKind::GlobalOutputArray(id) => {
                    let offset: u64 = (self.metadata.num_meta as u64).wrapping_add(
                        self.num_inputs as u64,
                    ).wrapping_add(id as u64);
                    proof {
                        assert(offset == crate::lower::wrap64(
                            crate::lower::buffer_len_val(self@.metadata, self@.num_inputs + id),
                        ))
                            by (nonlinear_arith)
                            requires
                                offset == vstd::wrapping::u64_specs::wrapping_add(
                                    vstd::wrapping::u64_specs::wrapping_add(
                                        self@.metadata.num_meta as u64,
                                        self@.num_inputs as u64,
                                    ),
                                    id as u64,
                                ),
                                self@.metadata.num_meta <= u32::MAX,
                                self@.num_inputs <= usize::MAX,
                                id <= u32::MAX,
                        ;
                    }
                    let w = self.compile_variable(out)?;
                    Ok(
                        wgsl::Instruction::Metadata {
                            out: w,
                            info_offset: Self::meta_offset_var(offset),
                        },
                    )
                },
                _ => {
                    let (v, w) = self.compile_var2(*var, out)?;
                    Ok(wgsl::Instruction::Length { var: v, out: w })
                },
            },
        }
    }

    /// The output a value-producing operation requires.
    fn required_out(out: &Option<ir::Variable>) -> (r: Result<ir::Variable, CompileError>)
        ensures
            r == crate::lower::req_out(*out),
    {
        match out {
            Some(v) => Ok(*v),
            None => Err(CompileError::InvariantViolation),
        }
    }

    /// Lower one statement of a scope to exactly one target instruction.
    pub fn compile_operation(&mut self, instruction: &ir::Instruction) -> (r: Result<
        wgsl::Instruction,
        CompileError,
    >)
        ensures
            ({
                let (st, sr) = crate::lower::lower_statement(old(self)@, *instruction);
                final(self)@ == st && instr_matches(r, sr)
            }),
        decreases *instruction,
    {
        match &instruction.operation {
            ir::Operation::Copy(v) => {
                let out = Self::required_out(&instruction.out)?;
                let (input, w) = self.compile_var2(*v, out)?;
                Ok(wgsl::Instruction::Assign { input, out: w })
            },
            ir::Operation::Operator(op) => {
                let out = Self::required_out(&instruction.out)?;
                self.compile_instruction(op, out)
            },
            ir::Operation::Atomic(op) => {
                let out = Self::required_out(&instruction.out)?;
                self.compile_atomic(op, out)
            },
            ir::Operation::Metadata(op) => {
                let out = Self::required_out(&instruction.out)?;
                self.compile_metadata(op, out)
            },
            ir::Operation::Branch(b) => {
                proof {
                    assert(decreases_to!(*instruction => instruction.operation));
                    assert(decreases_to!(instruction.operation => instruction
                        .operation->Branch_0));
                }
                self.compile_branch(b)
            },
            ir::Operation::Synchronization(s) => match s {
                ir::Synchronization::SyncUnits => Ok(wgsl::Instruction::WorkgroupBarrier),
                ir::Synchronization::SyncStorage => Ok(wgsl::Instruction::StorageBarrier),
            },
            ir::Operation::Subcube(op) => {
                let out = Self::required_out(&instruction.out)?;
                self.compile_subgroup(op, out)
            },
            ir::Operation::CoopMma => Err(CompileError::UnsupportedFeature),
        }
    }

    /// Lower a control-flow form, recursing into its child scopes.
    #[verifier::spinoff_prover]
    #[verifier::rlimit(100)]
    pub fn compile_branch(&mut self, branch: &ir::Branch) -> (r: Result<
        wgsl::Instruction,
        CompileError,
    >)
        ensures
            ({
                let (st, sr) = crate::lower::lower_branch(old(self)@, *branch);
                final(self)@ == st && instr_matches(r, sr)
            }),
        decreases *branch,
    {
        match branch {
            ir::Branch::If(op) => {
                let cond = self.compile_variable(op.cond)?;
                proof {
                    assert(decreases_to!(*branch => branch->If_0));
                    assert(decreases_to!(branch->If_0 => branch->If_0.scope));
                }
                let instructions = self.compile_scope(&op.scope)?;
                Ok(wgsl::Instruction::If { cond, instructions })
            },
            ir::Branch::IfElse(op) => {
                let cond = self.compile_variable(op.cond)?;
                proof {
                    assert(decreases_to!(*branch => branch->IfElse_0));
                    assert(decreases_to!(branch->IfElse_0 => branch->IfElse_0.scope_if));
                    assert(decreases_to!(branch->IfElse_0 => branch->IfElse_0.scope_else));
                }
                let instructions_if = self.compile_scope(&op.scope_if)?;
                let instructions_else = self.compile_scope(&op.scope_else)?;
                Ok(wgsl::Instruction::IfElse { cond, instructions_if, instructions_else })
            },
            ir::Branch::Switch(op) => {
                let value = self.compile_variable(op.value)?;
                proof {
                    assert(decreases_to!(*branch => branch->Switch_0));
                    assert(decreases_to!(branch->Switch_0 => branch->Switch_0.scope_default));
                    assert(decreases_to!(branch->Switch_0 => branch->Switch_0.cases));
                    assert(decreases_to!(branch->Switch_0.cases => branch->Switch_0.cases@));
                }
                let instructions_default = self.compile_scope(&op.scope_default)?;
                let cases = self.compile_cases(&op.cases)?;
                Ok(wgsl::Instruction::Switch { value, instructions_default, cases })
            },
            ir::Branch::RangeLoop(op) => {
                let (i, start, end) = self.compile_var3(op.i, op.start, op.end)?;
                let step = match &op.step {
                    None => None,
                    Some(sv) => Some(self.compile_variable(*sv)?),
                };
                proof {
                    assert(decreases_to!(*branch => branch->RangeLoop_0));
                    assert(decreases_to!(branch->RangeLoop_0 => branch->RangeLoop_0.scope));
                }
                let instructions = self.compile_scope(&op.scope)?;
                Ok(
                    wgsl::Instruction::RangeLoop {
                        i,
                        start,
                        end,
                        step,
                        inclusive: op.inclusive,
                        instructions,
                    },
                )
            },
            ir::Branch::Loop(op) => {
                proof {
                    assert(decreases_to!(*branch => branch->Loop_0));
                    assert(decreases_to!(branch->Loop_0 => branch->Loop_0.scope));
                }
                let instructions = self.compile_scope(&op.scope)?;
                Ok(wgsl::Instruction::Loop { instructions })
            },
            ir::Branch::Return => Ok(wgsl::Instruction::Return),
            ir::Branch::Break => Ok(wgsl::Instruction::Break),
        }
    }

    /// Lower the case list of a switch, keeping source order.
    fn compile_cases(&mut self, cases: &Vec<(ir::Variable, ir::Scope)>) -> (r: Result<
        Vec<(wgsl::Variable, Vec<wgsl::Instruction>)>,
        CompileError,
    >)
        ensures
            ({
                let (st, sr) = crate::lower::lower_cases(old(self)@, cases@);
                final(self)@ == st && (match (r, sr) {
                    (Ok(v), Ok(s)) => crate::wgsl_model::view_cases(v@) == s,
                    (Err(x), Err(y)) => x == y,
                    _ => false,
                })
            }),
        decreases cases@,
    {
        let mut out: Vec<(wgsl::Variable, Vec<wgsl::Instruction>)> = Vec::new();
        let mut i: usize = 0;
        while i < cases.len()
            invariant
                i <= cases@.len(),
                crate::lower::lower_cases(old(self)@, cases@.take(i as int)) == (
                    self@,
                    Ok::<_, CompileError>(crate::wgsl_model::view_cases(out@)),
                ),
            decreases cases@.len() - i,
        {
            proof {
                assert(cases@.take(i + 1).drop_last() =~= cases@.take(i as int));
                assert(cases@.take(i + 1).last() == cases@[i as int]);
            }
            let v = match self.compile_variable(cases[i].0) {
                Ok(v) => v,
                Err(e) => {
                    proof {
                        crate::lower::lemma_cases_prefix_err(old(self)@, cases@, i + 1);
                    }
                    return Err(e);
                },
            };
            proof {
                assert(decreases_to!(cases@ => cases@[i as int]));
                assert(decreases_to!(cases@[i as int] => cases@[i as int].1));
            }
            let instrs = match self.compile_scope(&cases[i].1) {
                Ok(instrs) => instrs,
                Err(e) => {
                    proof {
                        crate::lower::lemma_cases_prefix_err(old(self)@, cases@, i + 1);
                    }
                    return Err(e);
                },
            };
            proof {
                crate::wgsl_model::lemma_view_cases_push(out@, (v, instrs));
            }
            out.push((v, instrs));
            i = i + 1;
        }
        proof {
            assert(cases@.take(cases@.len() as int) =~= cases@);
        }
        Ok(out)
    }

    /// Drain one constant-array literal into the declaration list.
    fn compile_const_array(&mut self, ca: &(ir::Variable, Vec<ir::Variable>)) -> (r: Result<
        (),
        CompileError,
    >)
        ensures
            ({
                let (st, sr) = crate::lower::lower_const_array(old(self)@, *ca);
                final(self)@ == st && r == sr
            }),
    {
        let index = match ca.0.index() {
            Some(idx) => idx,
            None => {
                return Err(CompileError::InvariantViolation);
            },
        };
        let item = Self::compile_item(ca.0.item)?;
        let size = ca.1.len();
        let values = self.compile_variables(&ca.1)?;
        proof {
            crate::wgsl_model::lemma_view_const_arrays_push(
                self.const_arrays@,
                wgsl::ConstantArray { index, item, size, values },
            );
        }
        self.const_arrays.push(wgsl::ConstantArray { index, item, size, values });
        proof {
            assert(final(self)@ =~= crate::lower::lower_const_array(old(self)@, *ca).0);
        }
        Ok(())
    }

    /// Lower one scope: drain its constant arrays, declare its non-slice
    /// variables, then lower its statements in source order.
    #[verifier::spinoff_prover]
    #[verifier::rlimit(100)]
    pub fn compile_scope(&mut self, value: &ir::Scope) -> (r: Result<
        Vec<wgsl::Instruction>,
        CompileError,
    >)
        ensures
            ({
                let (st, sr) = crate::lower::lower_scope(old(self)@, *value);
                final(self)@ == st && instrs_match(r, sr)
            }),
        decreases *value,
    {
        let mut i: usize = 0;
        while i < value.const_arrays.len()
            invariant
                i <= value.const_arrays@.len(),
                crate::lower::lower_const_arrays(old(self)@, value.const_arrays@.take(i as int))
                    == (self@, Ok::<(), CompileError>(())),
            decreases value.const_arrays@.len() - i,
        {
            proof {
                assert(value.const_arrays@.take(i + 1).drop_last() =~= value.const_arrays@.take(
                    i as int,
                ));
                assert(value.const_arrays@.take(i + 1).last() == value.const_arrays@[i as int]);
            }
            match self.compile_const_array(&value.const_arrays[i]) {
                Ok(u) => {},
                Err(e) => {
                    proof {
                        crate::lower::lemma_const_arrays_prefix_err(
                            old(self)@,
                            value.const_arrays@,
                            i + 1,
                        );
                    }
                    return Err(e);
                },
            }
            i = i + 1;
        }
        proof {
            assert(value.const_arrays@.take(value.const_arrays@.len() as int)
                =~= value.const_arrays@);
        }
        let ghost st1 = self@;
        let mut instructions: Vec<wgsl::Instruction> = Vec::new();
        let mut j: usize = 0;
        while j < value.variables.len()
            invariant
                j <= value.variables@.len(),
                crate::lower::lower_const_arrays(old(self)@, value.const_arrays@) == (
                    st1,
                    Ok::<(), CompileError>(()),
                ),
                crate::lower::lower_decls(st1, value.variables@.take(j as int)) == (
                    self@,
                    Ok::<_, CompileError>(crate::wgsl_model::view_instrs(instructions@)),
                ),
            decreases value.variables@.len() - j,
        {
            proof {
                assert(value.variables@.take(j + 1).drop_last() =~= value.variables@.take(
                    j as int,
                ));
                assert(value.variables@.take(j + 1).last() == value.variables@[j as int]);
            }
            let var = value.variables[j];
            match var.kind {
                ir::VariableKind::Slice { .. } => {},
                _ => {
                    match self.compile_variable(var) {
                        Ok(w) => {
                            proof {
                                crate::wgsl_model::lemma_view_instrs_push(
                                    instructions@,
                                    wgsl::Instruction::DeclareVariable { var: w },
                                );
                            }
                            instructions.push(wgsl::Instruction::DeclareVariable { var: w });
                        },
                        Err(e) => {
                            proof {
                                crate::lower::lemma_decls_prefix_err(
                                    st1,
                                    value.variables@,
                                    j + 1,
                                );
                            }
                            return Err(e);
                        },
                    }
                },
            }
            j = j + 1;
        }
        proof {
            assert(value.variables@.take(value.variables@.len() as int) =~= value.variables@);
        }
        let ghost st2 = self@;
        let ghost decls_view = crate::wgsl_model::view_instrs(instructions@);
        let mut k: usize = 0;
        while k < value.operations.len()
            invariant
                k <= value.operations@.len(),
                crate::lower::lower_const_arrays(old(self)@, value.const_arrays@) == (
                    st1,
                    Ok::<(), CompileError>(()),
                ),
                crate::lower::lower_decls(st1, value.variables@) == (
                    st2,
                    Ok::<_, CompileError>(decls_view),
                ),
                ({
                    let (stk, srk) = crate::lower::lower_stmts(
                        st2,
                        value.operations@.take(k as int),
                    );
                    &&& self@ == stk
                    &&& srk matches Ok(sv) && crate::wgsl_model::view_instrs(instructions@)
                        == decls_view + sv
                }),
            decreases value.operations@.len() - k,
        {
            proof {
                assert(value.operations@.take(k + 1).drop_last() =~= value.operations@.take(
                    k as int,
                ));
                assert(value.operations@.take(k + 1).last() == value.operations@[k as int]);
                assert(decreases_to!(*value => value.operations));
                assert(decreases_to!(value.operations => value.operations@));
                assert(decreases_to!(value.operations@ => value.operations@[k as int]));
            }
            match self.compile_operation(&value.operations[k]) {
                Ok(instr) => {
                    proof {
                        crate::wgsl_model::lemma_view_instrs_push(instructions@, instr);
                        assert(decls_view + crate::lower::lower_stmts(
                            st2,
                            value.operations@.take(k as int),
                        ).1->Ok_0.push(instr.deep_view()) =~= (decls_view
                            + crate::lower::lower_stmts(
                            st2,
                            value.operations@.take(k as int),
                        ).1->Ok_0).push(instr.deep_view()));
                    }
                    instructions.push(instr);
                },
                Err(e) => {
                    proof {
                        crate::lower::lemma_stmts_prefix_err(st2, value.operations@, k + 1);
                    }
                    return Err(e);
                },
            }
            k = k + 1;
        }
        proof {
            assert(value.operations@.take(value.operations@.len() as int) =~= value.operations@);
        }
        Ok(instructions)
    }
}


impl WgslCompiler {
    /// Lower a binding's memory location.
    pub fn compile_location(value: ir::Location) -> (r: wgsl::Location)
        ensures
            r == crate::lower::lower_location(value),
    {
        match value {
            ir::Location::Storage => wgsl::Location::Storage,
            ir::Location::Cube => wgsl::Location::Workgroup,
        }
    }

    /// Lower a binding's visibility.
    pub fn compile_visibility(value: ir::Visibility) -> (r: wgsl::Visibility)
        ensures
            r == crate::lower::lower_visibility(value),
    {
        match value {
            ir::Visibility::Read => wgsl::Visibility::Read,
            ir::Visibility::ReadWrite => wgsl::Visibility::ReadWrite,
        }
    }

    /// Lower one buffer binding.
    pub fn compile_binding(value: &ir::Binding) -> (r: Result<wgsl::Binding, CompileError>)
        ensures
            r == lower_binding(*value),
    {
        let item = Self::compile_item(value.item)?;
        Ok(
            wgsl::Binding {
                visibility: Self::compile_visibility(value.visibility),
                location: Self::compile_location(value.location),
                item,
                size: value.size,
            },
        )
    }

    /// Lower a binding list, failing on the first unsupported one.
    fn compile_bindings(bs: &Vec<ir::Binding>) -> (r: Result<Vec<wgsl::Binding>, CompileError>)
        ensures
            ({
                match (r, lower_bindings(bs@)) {
                    (Ok(v), Ok(s)) => v@ == s,
                    (Err(x), Err(y)) => x == y,
                    _ => false,
                }
            }),
    {
        let mut out: Vec<wgsl::Binding> = Vec::new();
        let mut i: usize = 0;
        while i < bs.len()
            invariant
                i <= bs@.len(),
                lower_bindings(bs@.take(i as int)) == Ok::<_, CompileError>(out@),
            decreases bs@.len() - i,
        {
            proof {
                assert(bs@.take(i + 1).drop_last() =~= bs@.take(i as int));
                assert(bs@.take(i + 1).last() == bs@[i as int]);
            }
            match Self::compile_binding(&bs[i]) {
                Ok(b) => {
                    out.push(b);
                },
                Err(e) => {
                    proof {
                        crate::lower::lemma_bindings_prefix_err(bs@, i + 1);
                    }
                    return Err(e);
                },
            }
            i = i + 1;
        }
        proof {
            assert(bs@.take(bs@.len() as int) =~= bs@);
        }
        Ok(out)
    }

    /// Lower the named-binding list, keeping names and order.
    fn compile_named(ns: &Vec<(String, ir::Binding)>) -> (r: Result<
        Vec<(String, wgsl::Binding)>,
        CompileError,
    >)
        ensures
            ({
                match (r, lower_named(ns@)) {
                    (Ok(v), Ok(s)) => crate::wgsl_model::view_named(v@) == s,
                    (Err(x), Err(y)) => x == y,
                    _ => false,
                }
            }),
    {
        let mut out: Vec<(String, wgsl::Binding)> = Vec::new();
        proof {
            assert(crate::wgsl_model::view_named(out@) =~= Seq::<(Seq<char>, wgsl::Binding)>::empty());
        }
        let mut i: usize = 0;
        while i < ns.len()
            invariant
                i <= ns@.len(),
                lower_named(ns@.take(i as int)) == Ok::<_, CompileError>(
                    crate::wgsl_model::view_named(out@),
                ),
            decreases ns@.len() - i,
        {
            proof {
                assert(ns@.take(i + 1).drop_last() =~= ns@.take(i as int));
                assert(ns@.take(i + 1).last() == ns@[i as int]);
            }
            match Self::compile_binding(&ns[i].1) {
                Ok(b) => {
                    let name = ns[i].0.clone();
                    proof {
                        assert(crate::wgsl_model::view_named(out@.push((name, b)))
                            =~= crate::wgsl_model::view_named(out@).push((name@, b)));
                    }
                    out.push((name, b));
                },
                Err(e) => {
                    proof {
                        crate::lower::lemma_named_prefix_err(ns@, i + 1);
                    }
                    return Err(e);
                },
            }
            i = i + 1;
        }
        proof {
            assert(ns@.take(ns@.len() as int) =~= ns@);
        }
        Ok(out)
    }

    /// Copy the shared-memory declarations for the shader record.
    fn snapshot_shared(v: &Vec<wgsl::SharedMemory>) -> (r: Vec<wgsl::SharedMemory>)
        ensures
            r@ == v@,
    {
        let mut out: Vec<wgsl::SharedMemory> = Vec::new();
        let mut i: usize = 0;
        while i < v.len()
            invariant
                i <= v@.len(),
                out@ == v@.take(i as int),
            decreases v@.len() - i,
        {
            proof {
                assert(v@.take(i + 1) =~= v@.take(i as int).push(v@[i as int]));
            }
            out.push(v[i]);
            i = i + 1;
        }
        proof {
            assert(v@.take(v@.len() as int) =~= v@);
        }
        out
    }

    /// Copy the local-array declarations for the shader record.
    fn snapshot_locals(v: &Vec<wgsl::LocalArray>) -> (r: Vec<wgsl::LocalArray>)
        ensures
            r@ == v@,
    {
        let mut out: Vec<wgsl::LocalArray> = Vec::new();
        let mut i: usize = 0;
        while i < v.len()
            invariant
                i <= v@.len(),
                out@ == v@.take(i as int),
            decreases v@.len() - i,
        {
            proof {
                assert(v@.take(i + 1) =~= v@.take(i as int).push(v@[i as int]));
            }
            out.push(v[i]);
            i = i + 1;
        }
        proof {
            assert(v@.take(v@.len() as int) =~= v@);
        }
        out
    }

    /// Copy the values of one constant array.
    fn snapshot_variables(v: &Vec<wgsl::Variable>) -> (r: Vec<wgsl::Variable>)
        ensures
            r@ == v@,
    {
        let mut out: Vec<wgsl::Variable> = Vec::new();
        let mut i: usize = 0;
        while i < v.len()
            invariant
                i <= v@.len(),
                out@ == v@.take(i as int),
            decreases v@.len() - i,
        {
            proof {
                assert(v@.take(i + 1) =~= v@.take(i as int).push(v@[i as int]));
            }
            out.push(v[i]);
            i = i + 1;
        }
        proof {
            assert(v@.take(v@.len() as int) =~= v@);
        }
        out
    }

    /// Copy the constant-array declarations for the shader record.
    fn snapshot_const_arrays(v: &Vec<wgsl::ConstantArray>) -> (r: Vec<wgsl::ConstantArray>)
        ensures
            crate::wgsl_model::view_const_arrays(r@) == crate::wgsl_model::view_const_arrays(v@),
    {
        let mut out: Vec<wgsl::ConstantArray> = Vec::new();
        let mut i: usize = 0;
        while i < v.len()
            invariant
                i <= v@.len(),
                crate::wgsl_model::view_const_arrays(out@) == crate::wgsl_model::view_const_arrays(
                    v@.take(i as int),
                ),
            decreases v@.len() - i,
        {
            let values = Self::snapshot_variables(&v[i].values);
            let ca = wgsl::ConstantArray {
                index: v[i].index,
                item: v[i].item,
                size: v[i].size,
                values,
            };
            proof {
                assert(ca.deep_view() == v@[i as int].deep_view());
                assert(crate::wgsl_model::view_const_arrays(out@.push(ca))
                    =~= crate::wgsl_model::view_const_arrays(out@).push(ca.deep_view()));
                assert(crate::wgsl_model::view_const_arrays(v@.take(i + 1))
                    =~= crate::wgsl_model::view_const_arrays(v@.take(i as int)).push(
                    v@[i as int].deep_view()));
            }
            out.push(ca);
            i = i + 1;
        }
        proof {
            assert(v@.take(v@.len() as int) =~= v@);
        }
        out
    }
}


impl WgslCompiler {

    /// Record the binding counts and the extended-meta position of every
    /// binding, and set up the metadata resolver.
    #[verifier::spinoff_prover]
    #[verifier::rlimit(100)]
    fn init_metadata(&mut self, value: &ir::KernelDefinition)
        requires
            kernel_fits(*value),
        ensures
            final(self)@ == (CompilerState {
                num_inputs: value.inputs@.len() as usize,
                num_outputs: value.outputs@.len() as usize,
                ext_meta_pos: crate::lower::ext_positions(value.inputs@ + value.outputs@),
                metadata: crate::metadata::Metadata {
                    num_meta: (value.inputs@.len() + value.outputs@.len()) as u32,
                    num_ext: crate::lower::ext_count(value.inputs@ + value.outputs@) as u32,
                },
                ..old(self)@
            }),
    {
        let ghost all = value.inputs@ + value.outputs@;
        self.num_inputs = value.inputs.len();
        self.num_outputs = value.outputs.len();
        let num_meta = value.inputs.len() + value.outputs.len();

        self.ext_meta_pos = Vec::new();
        let mut num_ext: u32 = 0;
        let mut i: usize = 0;
        while i < value.inputs.len()
            invariant
                i <= value.inputs@.len(),
                value.inputs@.len() + value.outputs@.len() <= 0x2000_0000,
                all == value.inputs@ + value.outputs@,
                self.ext_meta_pos@.len() == i,
                forall|j: int|
                    0 <= j < i ==> self.ext_meta_pos@[j] == crate::lower::ext_count(
                        all.take(j),
                    ) as u32,
                num_ext == crate::lower::ext_count(all.take(i as int)),
                crate::lower::ext_count(all.take(i as int)) <= i,
                self@ =~= (CompilerState {
                    num_inputs: value.inputs@.len() as usize,
                    num_outputs: value.outputs@.len() as usize,
                    ext_meta_pos: self.ext_meta_pos@,
                    ..old(self)@
                }),
            decreases value.inputs@.len() - i,
        {
            proof {
                assert(all.take(i + 1).drop_last() =~= all.take(i as int));
                assert(all.take(i + 1).last() == all[i as int]);
                assert(all[i as int] == value.inputs@[i as int]);
            }
            self.ext_meta_pos.push(num_ext);
            if value.inputs[i].has_extended_meta {
                num_ext = num_ext + 1;
            }
            i = i + 1;
        }
        let mut m: usize = 0;
        while m < value.outputs.len()
            invariant
                m <= value.outputs@.len(),
                value.inputs@.len() + value.outputs@.len() <= 0x2000_0000,
                all == value.inputs@ + value.outputs@,
                self.ext_meta_pos@.len() == value.inputs@.len() + m,
                forall|j: int|
                    0 <= j < value.inputs@.len() + m ==> self.ext_meta_pos@[j]
                        == crate::lower::ext_count(all.take(j)) as u32,
                num_ext == crate::lower::ext_count(all.take(value.inputs@.len() + m)),
                crate::lower::ext_count(all.take(value.inputs@.len() + m)) <= value.inputs@.len()
                    + m,
                self@ =~= (CompilerState {
                    num_inputs: value.inputs@.len() as usize,
                    num_outputs: value.outputs@.len() as usize,
                    ext_meta_pos: self.ext_meta_pos@,
                    ..old(self)@
                }),
            decreases value.outputs@.len() - m,
        {
            let ghost p = value.inputs@.len() + m;
            proof {
                assert(all.take(p + 1).drop_last() =~= all.take(p as int));
                assert(all.take(p + 1).last() == all[p as int]);
                assert(all[p as int] == value.outputs@[m as int]);
            }
            self.ext_meta_pos.push(num_ext);
            if value.outputs[m].has_extended_meta {
                num_ext = num_ext + 1;
            }
            m = m + 1;
        }
        proof {
            assert(all.take(all.len() as int) =~= all);
            crate::lower::lemma_ext_count_bounds(all);
            assert(self.ext_meta_pos@ =~= crate::lower::ext_positions(all));
        }
        self.metadata = crate::metadata::Metadata::new(num_meta as u32, num_ext);
        proof {
            assert(self@ =~= (CompilerState {
                num_inputs: value.inputs@.len() as usize,
                num_outputs: value.outputs@.len() as usize,
                ext_meta_pos: crate::lower::ext_positions(all),
                metadata: crate::metadata::Metadata {
                    num_meta: (value.inputs@.len() + value.outputs@.len()) as u32,
                    num_ext: crate::lower::ext_count(all) as u32,
                },
                ..old(self)@
            }));
        }
    }

    /// Compile one kernel definition into a shader record: fix the
    /// metadata positions of the bindings, lower the root scope, collect
    /// the extensions of the lowered body, and assemble the record with
    /// the composite built-in advertisement rules.
    #[verifier::spinoff_prover]
    #[verifier::rlimit(100)]
    pub fn compile_shader(&mut self, value: &ir::KernelDefinition) -> (r: Result<
        wgsl::ComputeShader,
        CompileError,
    >)
        requires
            kernel_fits(*value),
        ensures
            ({
                let (st, sr) = spec_compile_kernel(old(self)@, *value);
                final(self)@ == st && shader_matches(r, sr)
            }),
    {
        self.init_metadata(value);

        let instructions = match self.compile_scope(&value.body) {
            Ok(x) => x,
            Err(e) => {
                return Err(e);
            },
        };
        let extensions = crate::extensions::register_extensions(&instructions, self.safe_tanh);
        let inputs = match Self::compile_bindings(&value.inputs) {
            Ok(x) => x,
            Err(e) => {
                return Err(e);
            },
        };
        let outputs = match Self::compile_bindings(&value.outputs) {
            Ok(x) => x,
            Err(e) => {
                return Err(e);
            },
        };
        let named = match Self::compile_named(&value.named) {
            Ok(x) => x,
            Err(e) => {
                return Err(e);
            },
        };
        let shader = wgsl::ComputeShader {
            inputs,
            outputs,
            named,
            shared_memories: Self::snapshot_shared(&self.shared_memories),
            constant_arrays: Self::snapshot_const_arrays(&self.const_arrays),
            local_arrays: Self::snapshot_locals(&self.local_arrays),
            workgroup_size: value.cube_dim,
            global_invocation_id: self.global_invocation_id || self.id,
            local_invocation_index: self.local_invocation_index,
            local_invocation_id: self.local_invocation_id,
            num_workgroups: self.id || self.num_workgroups || self.num_workgroup_no_axis
                || self.workgroup_id_no_axis,
            workgroup_id: self.workgroup_id || self.workgroup_id_no_axis,
            subgroup_size: self.subgroup_size,
            body: wgsl::Body { instructions, id: self.id },
            extensions,
            num_workgroups_no_axis: self.num_workgroup_no_axis,
            workgroup_id_no_axis: self.workgroup_id_no_axis,
            workgroup_size_no_axis: self.workgroup_size_no_axis,
        };
        proof {
            assert(shader.deep_view() =~= spec_compile_kernel(old(self)@, *value).1->Ok_0);
        }
        Ok(shader)
    }

    /// Compile a kernel with a fresh instance, without the Apple tangent
    /// workaround; the execution mode is carried by the caller to pipeline
    /// creation and does not influence the lowering.
    pub fn compile(value: &ir::KernelDefinition, _mode: ir::ExecutionMode) -> (r: Result<
        wgsl::ComputeShader,
        CompileError,
    >)
        requires
            kernel_fits(*value),
        ensures
            shader_matches(r, spec_compile_kernel(CompilerState::fresh(false), *value).1),
    {
        let mut compiler = WgslCompiler::new(false);
        compiler.compile_shader(value)
    }
}

} // verus!
