//! The compiler instance and its mathematical state.
//!
//! A compile threads one mutable instance through the whole descent; the
//! instance accumulates built-in usage flags, the metadata positions of the
//! bindings, and the shared-memory, constant-array and local-array
//! declaration lists. [`CompilerState`] is the ghost value of an instance,
//! and every compiler method is specified as a function from state to
//! state.

use vstd::prelude::*;

use crate::metadata::Metadata;
use crate::wgsl::{ConstantArray, LocalArray, SharedMemory};
use crate::wgsl_model::{view_const_arrays, ConstantArrayV};

verus! {

/// The built-in usage flags a compile accumulates. Each is set when a
/// variable naming the corresponding GPU input is lowered.
#[verifier::ext_equal]
pub struct Flags {
    pub local_invocation_index: bool,
    pub local_invocation_id: bool,
    pub global_invocation_id: bool,
    pub workgroup_id: bool,
    pub subgroup_size: bool,
    pub id: bool,
    pub num_workgroups: bool,
    pub workgroup_id_no_axis: bool,
    pub workgroup_size_no_axis: bool,
    pub num_workgroup_no_axis: bool,
}

impl Flags {
    /// All flags clear.
    pub open spec fn none() -> Self {
        Flags {
            local_invocation_index: false,
            local_invocation_id: false,
            global_invocation_id: false,
            workgroup_id: false,
            subgroup_size: false,
            id: false,
            num_workgroups: false,
            workgroup_id_no_axis: false,
            workgroup_size_no_axis: false,
            num_workgroup_no_axis: false,
        }
    }

    /// Field-wise disjunction.
    pub open spec fn union(self, other: Self) -> Self {
        Flags {
            local_invocation_index: self.local_invocation_index || other.local_invocation_index,
            local_invocation_id: self.local_invocation_id || other.local_invocation_id,
            global_invocation_id: self.global_invocation_id || other.global_invocation_id,
            workgroup_id: self.workgroup_id || other.workgroup_id,
            subgroup_size: self.subgroup_size || other.subgroup_size,
            id: self.id || other.id,
            num_workgroups: self.num_workgroups || other.num_workgroups,
            workgroup_id_no_axis: self.workgroup_id_no_axis || other.workgroup_id_no_axis,
            workgroup_size_no_axis: self.workgroup_size_no_axis || other.workgroup_size_no_axis,
            num_workgroup_no_axis: self.num_workgroup_no_axis || other.num_workgroup_no_axis,
        }
    }

    /// The union is associative, commutative and has [`Flags::none`] as
    /// identity; these follow field by field.
    pub proof fn lemma_union_none(self)
        ensures
            self.union(Flags::none()) == self,
            Flags::none().union(self) == self,
    {
    }
}

/// The ghost value of a compiler instance.
#[verifier::ext_equal]
pub struct CompilerState {
    pub num_inputs: usize,
    pub num_outputs: usize,
    pub metadata: Metadata,
    pub ext_meta_pos: Seq<u32>,
    pub flags: Flags,
    pub shared_memories: Seq<SharedMemory>,
    pub const_arrays: Seq<ConstantArrayV>,
    pub local_arrays: Seq<LocalArray>,
    pub safe_tanh: bool,
}

impl CompilerState {
    /// The state of a freshly created instance.
    pub open spec fn fresh(safe_tanh: bool) -> Self {
        CompilerState {
            num_inputs: 0,
            num_outputs: 0,
            metadata: Metadata { num_meta: 0, num_ext: 0 },
            ext_meta_pos: Seq::empty(),
            flags: Flags::none(),
            shared_memories: Seq::empty(),
            const_arrays: Seq::empty(),
            local_arrays: Seq::empty(),
            safe_tanh,
        }
    }
}

/// The compiler. One instance serves one compile: it is created fresh,
/// driven over the kernel tree once, and never shared between compiles.
///
/// `safe_tanh` selects the workaround for the hyperbolic-tangent driver bug
/// of Apple platforms; it is a configuration flag rather than a conditional
/// compile so that the behavior under test does not depend on the build
/// target.
pub struct WgslCompiler {
    pub num_inputs: usize,
    pub num_outputs: usize,
    pub metadata: Metadata,
    pub ext_meta_pos: Vec<u32>,
    pub local_invocation_index: bool,
    pub local_invocation_id: bool,
    pub global_invocation_id: bool,
    pub workgroup_id: bool,
    pub subgroup_size: bool,
    pub id: bool,
    pub num_workgroups: bool,
    pub workgroup_id_no_axis: bool,
    pub workgroup_size_no_axis: bool,
    pub num_workgroup_no_axis: bool,
    pub shared_memories: Vec<SharedMemory>,
    pub const_arrays: Vec<ConstantArray>,
    pub local_arrays: Vec<LocalArray>,
    pub safe_tanh: bool,
}

impl View for WgslCompiler {
    type V = CompilerState;

    open spec fn view(&self) -> CompilerState {
        CompilerState {
            num_inputs: self.num_inputs,
            num_outputs: self.num_outputs,
            metadata: self.metadata,
            ext_meta_pos: self.ext_meta_pos@,
            flags: Flags {
                local_invocation_index: self.local_invocation_index,
                local_invocation_id: self.local_invocation_id,
                global_invocation_id: self.global_invocation_id,
                workgroup_id: self.workgroup_id,
                subgroup_size: self.subgroup_size,
                id: self.id,
                num_workgroups: self.num_workgroups,
                workgroup_id_no_axis: self.workgroup_id_no_axis,
                workgroup_size_no_axis: self.workgroup_size_no_axis,
                num_workgroup_no_axis: self.num_workgroup_no_axis,
            },
            shared_memories: self.shared_memories@,
            const_arrays: view_const_arrays(self.const_arrays@),
            local_arrays: self.local_arrays@,
            safe_tanh: self.safe_tanh,
        }
    }
}

impl WgslCompiler {
    /// A fresh instance; `safe_tanh` is described on the type.
    pub fn new(safe_tanh: bool) -> (r: Self)
        ensures
            r@ == CompilerState::fresh(safe_tanh),
    {
        let r = WgslCompiler {
            safe_tanh,
            num_inputs: 0,
            num_outputs: 0,
            metadata: Metadata { num_meta: 0, num_ext: 0 },
            ext_meta_pos: Vec::new(),
            local_invocation_index: false,
            local_invocation_id: false,
            global_invocation_id: false,
            workgroup_id: false,
            subgroup_size: false,
            id: false,
            num_workgroups: false,
            workgroup_id_no_axis: false,
            workgroup_size_no_axis: false,
            num_workgroup_no_axis: false,
            shared_memories: Vec::new(),
            const_arrays: Vec::new(),
            local_arrays: Vec::new(),
        };
        proof {
            assert(view_const_arrays(r.const_arrays@) =~= Seq::<ConstantArrayV>::empty());
            assert(r@ =~= CompilerState::fresh(safe_tanh));
        }
        r
    }
}

impl Default for WgslCompiler {
    /// A fresh instance without the Apple tangent workaround.
    fn default() -> (r: Self)
        ensures
            r@ == CompilerState::fresh(false),
    {
        WgslCompiler::new(false)
    }
}

} // verus!
