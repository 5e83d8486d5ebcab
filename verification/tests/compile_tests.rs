use wgsl_compiler::ir;
use wgsl_compiler::metadata::Metadata;
use wgsl_compiler::state::WgslCompiler;
use wgsl_compiler::wgsl;
use wgsl_compiler::CompileError;

fn item(elem: ir::Elem, vectorization: u32) -> ir::Item {
    ir::Item { elem, vectorization }
}

fn scalar_f32() -> ir::Item {
    item(ir::Elem::Float(ir::FloatKind::F32), 1)
}

fn scalar_u32() -> ir::Item {
    item(ir::Elem::UInt(ir::UIntKind::U32), 1)
}

fn var(kind: ir::VariableKind, it: ir::Item) -> ir::Variable {
    ir::Variable { kind, item: it }
}

fn binding(has_extended_meta: bool) -> ir::Binding {
    ir::Binding {
        location: ir::Location::Storage,
        visibility: ir::Visibility::ReadWrite,
        item: scalar_f32(),
        size: None,
        has_extended_meta,
    }
}

fn empty_scope() -> ir::Scope {
    ir::Scope { const_arrays: Vec::new(), variables: Vec::new(), operations: Vec::new() }
}

fn kernel(inputs: Vec<ir::Binding>, outputs: Vec<ir::Binding>, body: ir::Scope)
    -> ir::KernelDefinition {
    ir::KernelDefinition {
        inputs,
        outputs,
        named: Vec::new(),
        cube_dim: ir::CubeDim { x: 16, y: 16, z: 1 },
        body,
    }
}

fn stmt(operation: ir::Operation, out: Option<ir::Variable>) -> ir::Instruction {
    ir::Instruction { out, operation }
}

#[test]
fn zero_inputs_one_output_compiles() {
    let k = kernel(Vec::new(), vec![binding(false)], empty_scope());
    let shader = WgslCompiler::compile(&k, ir::ExecutionMode::Checked).unwrap();
    assert_eq!(shader.inputs.len(), 0);
    assert_eq!(shader.outputs.len(), 1);
    assert!(shader.body.instructions.is_empty());
    // With no extended-meta binding the metadata table is only the two
    // length sections: the rank/shape/stride sections are empty.
    let meta = Metadata::new(1, 0);
    assert_eq!(meta.len_index(0), 0);
    assert_eq!(meta.buffer_len_index(0), 1);
}

#[test]
fn return_only_kernel() {
    let body = ir::Scope {
        const_arrays: Vec::new(),
        variables: Vec::new(),
        operations: vec![stmt(ir::Operation::Branch(ir::Branch::Return), None)],
    };
    let k = kernel(Vec::new(), vec![binding(false)], body);
    let shader = WgslCompiler::compile(&k, ir::ExecutionMode::Checked).unwrap();
    assert_eq!(shader.body.instructions, vec![wgsl::Instruction::Return]);
    assert!(shader.shared_memories.is_empty());
    assert!(shader.constant_arrays.is_empty());
    assert!(shader.local_arrays.is_empty());
}

#[test]
fn range_loop_with_empty_range_is_still_lowered() {
    let i = var(ir::VariableKind::Local { id: 0, depth: 1 }, scalar_u32());
    let zero = var(
        ir::VariableKind::ConstantScalar(ir::ConstantScalarValue::UInt(0, ir::UIntKind::U32)),
        scalar_u32(),
    );
    let inner = ir::Scope {
        const_arrays: Vec::new(),
        variables: Vec::new(),
        operations: vec![stmt(ir::Operation::Branch(ir::Branch::Break), None)],
    };
    let body = ir::Scope {
        const_arrays: Vec::new(),
        variables: Vec::new(),
        operations: vec![stmt(
            ir::Operation::Branch(ir::Branch::RangeLoop(ir::RangeLoop {
                i,
                start: zero,
                end: zero,
                step: None,
                inclusive: false,
                scope: inner,
            })),
            None,
        )],
    };
    let k = kernel(Vec::new(), vec![binding(false)], body);
    let shader = WgslCompiler::compile(&k, ir::ExecutionMode::Checked).unwrap();
    match &shader.body.instructions[0] {
        wgsl::Instruction::RangeLoop { start, end, step, inclusive, instructions, .. } => {
            assert_eq!(start, end);
            assert!(step.is_none());
            assert!(!inclusive);
            assert_eq!(instructions, &vec![wgsl::Instruction::Break]);
        }
        other => panic!("expected a range loop, got {:?}", other),
    }
}

#[test]
fn vectorization_four_lowers_five_fails() {
    let ok = WgslCompiler::compile_item(item(ir::Elem::Float(ir::FloatKind::F32), 4));
    assert_eq!(ok, Ok(wgsl::Item::Vec4(wgsl::Elem::F32)));
    let bad = WgslCompiler::compile_item(item(ir::Elem::Float(ir::FloatKind::F32), 5));
    assert_eq!(bad, Err(CompileError::UnsupportedVectorization(5)));

    // The same through a whole kernel: a declared vec4 local.
    let body = ir::Scope {
        const_arrays: Vec::new(),
        variables: vec![var(
            ir::VariableKind::Local { id: 0, depth: 0 },
            item(ir::Elem::Float(ir::FloatKind::F32), 4),
        )],
        operations: Vec::new(),
    };
    let k = kernel(Vec::new(), vec![binding(false)], body);
    let shader = WgslCompiler::compile(&k, ir::ExecutionMode::Checked).unwrap();
    assert_eq!(
        shader.body.instructions[0],
        wgsl::Instruction::DeclareVariable {
            var: wgsl::Variable::Local {
                id: 0,
                item: wgsl::Item::Vec4(wgsl::Elem::F32),
                depth: 0
            }
        }
    );
}

#[test]
fn unsupported_type_fails() {
    let body = ir::Scope {
        const_arrays: Vec::new(),
        variables: vec![var(
            ir::VariableKind::Local { id: 0, depth: 0 },
            item(ir::Elem::Float(ir::FloatKind::F16), 1),
        )],
        operations: Vec::new(),
    };
    let k = kernel(Vec::new(), vec![binding(false)], body);
    let r = WgslCompiler::compile(&k, ir::ExecutionMode::Checked);
    assert_eq!(r, Err(CompileError::UnsupportedType(ir::Elem::Float(ir::FloatKind::F16))));
}

#[test]
fn builtin_propagation_sets_only_global_invocation_id() {
    let x = var(ir::VariableKind::LocalBinding { id: 0 }, scalar_u32());
    let y = var(ir::VariableKind::LocalBinding { id: 1 }, scalar_u32());
    let sum = var(ir::VariableKind::LocalBinding { id: 2 }, scalar_u32());
    let pos_x = var(ir::VariableKind::Builtin(ir::Builtin::AbsolutePosX), scalar_u32());
    let pos_y = var(ir::VariableKind::Builtin(ir::Builtin::AbsolutePosY), scalar_u32());
    let out_arr = var(ir::VariableKind::GlobalOutputArray(0), scalar_u32());
    let zero = var(
        ir::VariableKind::ConstantScalar(ir::ConstantScalarValue::UInt(0, ir::UIntKind::U32)),
        scalar_u32(),
    );
    let body = ir::Scope {
        const_arrays: Vec::new(),
        variables: Vec::new(),
        operations: vec![
            stmt(ir::Operation::Copy(pos_x), Some(x)),
            stmt(ir::Operation::Copy(pos_y), Some(y)),
            stmt(
                ir::Operation::Operator(ir::Operator::Add(ir::BinaryOperator {
                    lhs: x,
                    rhs: y,
                })),
                Some(sum),
            ),
            stmt(
                ir::Operation::Operator(ir::Operator::IndexAssign(ir::BinaryOperator {
                    lhs: zero,
                    rhs: sum,
                })),
                Some(out_arr),
            ),
        ],
    };
    let k = kernel(Vec::new(), vec![binding(false)], body);
    let shader = WgslCompiler::compile(&k, ir::ExecutionMode::Checked).unwrap();
    assert!(shader.global_invocation_id);
    assert!(!shader.num_workgroups);
    assert!(!shader.workgroup_id);
    assert!(!shader.local_invocation_id);
    assert_eq!(shader.body.instructions.len(), 4);
    assert_eq!(
        shader.body.instructions[0],
        wgsl::Instruction::Assign {
            input: wgsl::Variable::GlobalInvocationIdX,
            out: wgsl::Variable::LocalBinding {
                id: 0,
                item: wgsl::Item::Scalar(wgsl::Elem::U32)
            }
        }
    );
}

#[test]
fn metadata_lookup_offsets() {
    let input0 = var(ir::VariableKind::GlobalInputArray(0), scalar_f32());
    let dim = var(
        ir::VariableKind::ConstantScalar(ir::ConstantScalarValue::UInt(1, ir::UIntKind::U32)),
        scalar_u32(),
    );
    let out = var(ir::VariableKind::LocalBinding { id: 0 }, scalar_u32());
    let body = ir::Scope {
        const_arrays: Vec::new(),
        variables: Vec::new(),
        operations: vec![stmt(
            ir::Operation::Metadata(ir::MetadataOp::Shape { dim, var: input0 }),
            Some(out),
        )],
    };
    let k = kernel(vec![binding(true)], vec![binding(true)], body);
    let shader = WgslCompiler::compile(&k, ir::ExecutionMode::Checked).unwrap();
    // num_meta = 2, num_ext = 2; the shape offset of extended binding 0 is
    // stored at 2 * 2 + 2 + 0 = 6, and the host resolver agrees.
    let meta = Metadata::new(2, 2);
    assert_eq!(meta.shape_offset_index(0), 6);
    match &shader.body.instructions[0] {
        wgsl::Instruction::ExtendedMeta { info_offset, dim, .. } => {
            assert_eq!(
                *info_offset,
                wgsl::Variable::ConstantScalar(
                    ir::ConstantScalarValue::UInt(6, ir::UIntKind::U32),
                    wgsl::Elem::U32
                )
            );
            assert_eq!(
                *dim,
                wgsl::Variable::ConstantScalar(
                    ir::ConstantScalarValue::UInt(1, ir::UIntKind::U32),
                    wgsl::Elem::U32
                )
            );
        }
        other => panic!("expected an extended metadata load, got {:?}", other),
    }
    assert_eq!(meta.rank_index(0), 4);
    assert_eq!(meta.rank_index(1), 5);
    assert_eq!(meta.stride_offset_index(0), 8);
}

#[test]
fn shared_memory_deduplicated() {
    let shared = var(
        ir::VariableKind::SharedMemory { id: 3, length: 256 },
        scalar_f32(),
    );
    let out = var(ir::VariableKind::LocalBinding { id: 0 }, scalar_f32());
    let ops = vec![
        stmt(ir::Operation::Copy(shared), Some(out)),
        stmt(ir::Operation::Copy(shared), Some(out)),
        stmt(ir::Operation::Copy(shared), Some(out)),
    ];
    let body = ir::Scope { const_arrays: Vec::new(), variables: Vec::new(), operations: ops };
    let k = kernel(Vec::new(), vec![binding(false)], body);
    let shader = WgslCompiler::compile(&k, ir::ExecutionMode::Checked).unwrap();
    assert_eq!(
        shader.shared_memories,
        vec![wgsl::SharedMemory {
            index: 3,
            item: wgsl::Item::Scalar(wgsl::Elem::F32),
            size: 256
        }]
    );
}

#[test]
fn powf_extensions_in_first_occurrence_order() {
    let vec4 = item(ir::Elem::Float(ir::FloatKind::F32), 4);
    let a = var(ir::VariableKind::LocalBinding { id: 0 }, vec4);
    let s = var(ir::VariableKind::LocalBinding { id: 1 }, scalar_f32());
    let b = var(ir::VariableKind::LocalBinding { id: 2 }, vec4);
    let o = var(ir::VariableKind::LocalBinding { id: 3 }, vec4);
    let body = ir::Scope {
        const_arrays: Vec::new(),
        variables: Vec::new(),
        operations: vec![
            stmt(
                ir::Operation::Operator(ir::Operator::Powf(ir::BinaryOperator {
                    lhs: a,
                    rhs: s,
                })),
                Some(o),
            ),
            stmt(
                ir::Operation::Operator(ir::Operator::Powf(ir::BinaryOperator {
                    lhs: a,
                    rhs: b,
                })),
                Some(o),
            ),
        ],
    };
    let k = kernel(Vec::new(), vec![binding(false)], body);
    let shader = WgslCompiler::compile(&k, ir::ExecutionMode::Checked).unwrap();
    let v4 = wgsl::Item::Vec4(wgsl::Elem::F32);
    assert_eq!(
        shader.extensions,
        vec![
            wgsl::Extension::PowfPrimitive(v4),
            wgsl::Extension::PowfScalar(v4),
            wgsl::Extension::Powf(v4),
        ]
    );
}

#[test]
fn nested_erf_extension_reaches_top_level() {
    let cond = var(ir::VariableKind::LocalBinding { id: 0 }, item(ir::Elem::Bool, 1));
    let x = var(ir::VariableKind::LocalBinding { id: 1 }, scalar_f32());
    let y = var(ir::VariableKind::LocalBinding { id: 2 }, scalar_f32());
    let inner = ir::Scope {
        const_arrays: Vec::new(),
        variables: Vec::new(),
        operations: vec![stmt(
            ir::Operation::Operator(ir::Operator::Erf(ir::UnaryOperator { input: x })),
            Some(y),
        )],
    };
    let body = ir::Scope {
        const_arrays: Vec::new(),
        variables: Vec::new(),
        operations: vec![stmt(
            ir::Operation::Branch(ir::Branch::If(ir::If { cond, scope: inner })),
            None,
        )],
    };
    let k = kernel(Vec::new(), vec![binding(false)], body);
    let shader = WgslCompiler::compile(&k, ir::ExecutionMode::Checked).unwrap();
    assert_eq!(
        shader.extensions,
        vec![wgsl::Extension::Erf(wgsl::Item::Scalar(wgsl::Elem::F32))]
    );
}

#[test]
fn compiling_twice_yields_identical_records() {
    let shared = var(
        ir::VariableKind::SharedMemory { id: 1, length: 64 },
        scalar_f32(),
    );
    let out = var(ir::VariableKind::LocalBinding { id: 0 }, scalar_f32());
    let body = ir::Scope {
        const_arrays: Vec::new(),
        variables: Vec::new(),
        operations: vec![
            stmt(ir::Operation::Copy(shared), Some(out)),
            stmt(ir::Operation::Branch(ir::Branch::Return), None),
        ],
    };
    let k = kernel(vec![binding(true)], vec![binding(false)], body);
    let first = WgslCompiler::compile(&k, ir::ExecutionMode::Checked).unwrap();
    let second = WgslCompiler::compile(&k, ir::ExecutionMode::Checked).unwrap();
    assert_eq!(first, second);
}

#[test]
fn reordering_independent_operations_changes_the_record() {
    let a = var(ir::VariableKind::LocalBinding { id: 0 }, scalar_f32());
    let b = var(ir::VariableKind::LocalBinding { id: 1 }, scalar_f32());
    let c = var(ir::VariableKind::LocalBinding { id: 2 }, scalar_f32());
    let sin = || stmt(
        ir::Operation::Operator(ir::Operator::Sin(ir::UnaryOperator { input: a })),
        Some(b),
    );
    let cos = || stmt(
        ir::Operation::Operator(ir::Operator::Cos(ir::UnaryOperator { input: a })),
        Some(c),
    );
    let body1 = ir::Scope {
        const_arrays: Vec::new(),
        variables: Vec::new(),
        operations: vec![sin(), cos()],
    };
    let body2 = ir::Scope {
        const_arrays: Vec::new(),
        variables: Vec::new(),
        operations: vec![cos(), sin()],
    };
    let k1 = kernel(Vec::new(), vec![binding(false)], body1);
    let k2 = kernel(Vec::new(), vec![binding(false)], body2);
    let s1 = WgslCompiler::compile(&k1, ir::ExecutionMode::Checked).unwrap();
    let s2 = WgslCompiler::compile(&k2, ir::ExecutionMode::Checked).unwrap();
    // Source order is preserved, so the two records differ only in the
    // order of the two lowered instructions.
    assert_ne!(s1, s2);
    assert_eq!(s1.body.instructions.len(), 2);
    assert_eq!(s1.body.instructions[0], s2.body.instructions[1]);
    assert_eq!(s1.body.instructions[1], s2.body.instructions[0]);
}

#[test]
fn safe_tanh_is_a_configuration_flag() {
    let x = var(ir::VariableKind::LocalBinding { id: 0 }, scalar_f32());
    let y = var(ir::VariableKind::LocalBinding { id: 1 }, scalar_f32());
    let body_ops = vec![stmt(
        ir::Operation::Operator(ir::Operator::Tanh(ir::UnaryOperator { input: x })),
        Some(y),
    )];
    let body = ir::Scope {
        const_arrays: Vec::new(),
        variables: Vec::new(),
        operations: body_ops,
    };
    let k = kernel(Vec::new(), vec![binding(false)], body);
    let mut plain = WgslCompiler::new(false);
    let shader = plain.compile_shader(&k).unwrap();
    assert!(shader.extensions.is_empty());
    let mut apple = WgslCompiler::new(true);
    let shader = apple.compile_shader(&k).unwrap();
    assert_eq!(
        shader.extensions,
        vec![wgsl::Extension::SafeTanh(wgsl::Item::Scalar(wgsl::Elem::F32))]
    );
}

#[test]
fn matrix_and_coop_mma_are_unsupported() {
    let m = var(ir::VariableKind::Matrix, scalar_f32());
    let out = var(ir::VariableKind::LocalBinding { id: 0 }, scalar_f32());
    let body = ir::Scope {
        const_arrays: Vec::new(),
        variables: Vec::new(),
        operations: vec![stmt(ir::Operation::Copy(m), Some(out))],
    };
    let k = kernel(Vec::new(), vec![binding(false)], body);
    let r = WgslCompiler::compile(&k, ir::ExecutionMode::Checked);
    assert_eq!(r, Err(CompileError::UnsupportedFeature));

    let body = ir::Scope {
        const_arrays: Vec::new(),
        variables: Vec::new(),
        operations: vec![stmt(ir::Operation::CoopMma, None)],
    };
    let k = kernel(Vec::new(), vec![binding(false)], body);
    let r = WgslCompiler::compile(&k, ir::ExecutionMode::Checked);
    assert_eq!(r, Err(CompileError::UnsupportedFeature));
}

#[test]
fn missing_output_is_an_invariant_violation() {
    let a = var(ir::VariableKind::LocalBinding { id: 0 }, scalar_f32());
    let body = ir::Scope {
        const_arrays: Vec::new(),
        variables: Vec::new(),
        operations: vec![stmt(
            ir::Operation::Operator(ir::Operator::Sin(ir::UnaryOperator { input: a })),
            None,
        )],
    };
    let k = kernel(Vec::new(), vec![binding(false)], body);
    let r = WgslCompiler::compile(&k, ir::ExecutionMode::Checked);
    assert_eq!(r, Err(CompileError::InvariantViolation));
}

#[test]
fn elem_sizes_and_shared_memory_budget() {
    assert_eq!(
        WgslCompiler::elem_size(ir::Elem::Float(ir::FloatKind::F32)),
        Ok(4)
    );
    assert_eq!(
        WgslCompiler::elem_size(ir::Elem::Float(ir::FloatKind::Flex32)),
        Ok(4)
    );
    assert_eq!(
        WgslCompiler::elem_size(ir::Elem::AtomicInt(ir::IntKind::I32)),
        Ok(4)
    );
    assert_eq!(
        WgslCompiler::elem_size(ir::Elem::Float(ir::FloatKind::F64)),
        Err(CompileError::UnsupportedType(ir::Elem::Float(ir::FloatKind::F64)))
    );
    assert_eq!(WgslCompiler::max_shared_memory_size(), 32768);
}

#[test]
fn constant_arrays_are_drained_with_their_values() {
    let ca_var = var(
        ir::VariableKind::ConstantArray { id: 7, length: 2 },
        scalar_u32(),
    );
    let v0 = var(
        ir::VariableKind::ConstantScalar(ir::ConstantScalarValue::UInt(10, ir::UIntKind::U32)),
        scalar_u32(),
    );
    let v1 = var(
        ir::VariableKind::ConstantScalar(ir::ConstantScalarValue::UInt(20, ir::UIntKind::U32)),
        scalar_u32(),
    );
    let body = ir::Scope {
        const_arrays: vec![(ca_var, vec![v0, v1])],
        variables: Vec::new(),
        operations: Vec::new(),
    };
    let k = kernel(Vec::new(), vec![binding(false)], body);
    let shader = WgslCompiler::compile(&k, ir::ExecutionMode::Checked).unwrap();
    assert_eq!(shader.constant_arrays.len(), 1);
    let ca = &shader.constant_arrays[0];
    assert_eq!(ca.index, 7);
    assert_eq!(ca.size, 2);
    assert_eq!(
        ca.values,
        vec![
            wgsl::Variable::ConstantScalar(
                ir::ConstantScalarValue::UInt(10, ir::UIntKind::U32),
                wgsl::Elem::U32
            ),
            wgsl::Variable::ConstantScalar(
                ir::ConstantScalarValue::UInt(20, ir::UIntKind::U32),
                wgsl::Elem::U32
            ),
        ]
    );
}

#[test]
fn binding_count_matches_pipeline_layout() {
    let mut k = kernel(vec![binding(false)], vec![binding(false)], empty_scope());
    k.named.push(("scalars".to_string(), binding(false)));
    let shader = WgslCompiler::compile(&k, ir::ExecutionMode::Checked).unwrap();
    assert_eq!(shader.binding_count(), 3);
    assert_eq!(shader.named[0].0, "scalars");
}

#[test]
fn register_extensions_is_callable_directly() {
    let instructions = vec![wgsl::Instruction::Erf {
        input: wgsl::Variable::LocalBinding {
            id: 0,
            item: wgsl::Item::Scalar(wgsl::Elem::F32),
        },
        out: wgsl::Variable::LocalBinding {
            id: 1,
            item: wgsl::Item::Scalar(wgsl::Elem::F32),
        },
    }];
    let exts = wgsl_compiler::extensions::register_extensions(&instructions, false);
    assert_eq!(
        exts,
        vec![wgsl::Extension::Erf(wgsl::Item::Scalar(wgsl::Elem::F32))]
    );
    let exts = wgsl_compiler::extensions::register_extensions(&Vec::new(), true);
    assert!(exts.is_empty());
}

#[test]
fn ext_meta_positions_count_preceding_extended_bindings() {
    let dim = var(
        ir::VariableKind::ConstantScalar(ir::ConstantScalarValue::UInt(0, ir::UIntKind::U32)),
        scalar_u32(),
    );
    let out = var(ir::VariableKind::LocalBinding { id: 0 }, scalar_u32());
    // Bindings: ext, plain, ext. Rank of binding 2 goes through position 1.
    let in2 = var(ir::VariableKind::GlobalInputArray(2), scalar_f32());
    let _ = dim;
    let body = ir::Scope {
        const_arrays: Vec::new(),
        variables: Vec::new(),
        operations: vec![stmt(
            ir::Operation::Metadata(ir::MetadataOp::Rank { var: in2 }),
            Some(out),
        )],
    };
    let k = kernel(
        vec![binding(true), binding(false), binding(true)],
        vec![binding(false)],
        body,
    );
    let shader = WgslCompiler::compile(&k, ir::ExecutionMode::Checked).unwrap();
    // num_meta = 4, position of binding 2 is 1: offset 2 * 4 + 1 = 9.
    match &shader.body.instructions[0] {
        wgsl::Instruction::Metadata { info_offset, .. } => {
            assert_eq!(
                *info_offset,
                wgsl::Variable::ConstantScalar(
                    ir::ConstantScalarValue::UInt(9, ir::UIntKind::U32),
                    wgsl::Elem::U32
                )
            );
        }
        other => panic!("expected a metadata load, got {:?}", other),
    }
}
