//! The extension collector: a second, purely functional pass over the
//! lowered instruction tree.
//!
//! The pass accumulates the helper-function extensions the emitted shader
//! must define, preserving first-occurrence order and never repeating an
//! entry. A custom power helper is needed by every `Powf`; its scalar form
//! when the exponent is a scalar, its vector form otherwise. `Erf` always
//! needs a helper. `Tanh` needs one only when the safe-tangent workaround
//! is on. The conditional forms recurse into their children; a `Switch`
//! does not.

use vstd::prelude::*;

use crate::wgsl::{Extension, Instruction};
use crate::wgsl_model::{view_instrs, InstructionV};

verus! {

/// Append `x` unless it is already present.
pub open spec fn add_ext(acc: Seq<Extension>, x: Extension) -> Seq<Extension> {
    if acc.contains(x) {
        acc
    } else {
        acc.push(x)
    }
}

/// Fold a sub-collection into the accumulator, keeping its order.
pub open spec fn merge_exts(acc: Seq<Extension>, more: Seq<Extension>) -> Seq<Extension>
    decreases more,
{
    if more.len() == 0 {
        acc
    } else {
        add_ext(merge_exts(acc, more.drop_last()), more.last())
    }
}

/// The extensions one instruction adds to the accumulator.
pub open spec fn instr_exts(acc: Seq<Extension>, i: InstructionV, safe_tanh: bool) -> Seq<
    Extension,
>
    decreases i,
{
    match i {
        InstructionV::Powf { lhs: _, rhs, out } => {
            let acc1 = add_ext(acc, Extension::PowfPrimitive(out.item()));
            if rhs.is_always_scalar() || rhs.item().vectorization_factor() == 1 {
                add_ext(acc1, Extension::PowfScalar(out.item()))
            } else {
                add_ext(acc1, Extension::Powf(out.item()))
            }
        },
        InstructionV::Erf { input, out: _ } => add_ext(acc, Extension::Erf(input.item())),
        InstructionV::Tanh { input, out: _ } => if safe_tanh {
            add_ext(acc, Extension::SafeTanh(input.item()))
        } else {
            acc
        },
        InstructionV::If { cond: _, instructions } => merge_exts(
            acc,
            seq_exts(Seq::empty(), instructions, safe_tanh),
        ),
        InstructionV::IfElse { cond: _, instructions_if, instructions_else } => merge_exts(
            merge_exts(acc, seq_exts(Seq::empty(), instructions_if, safe_tanh)),
            seq_exts(Seq::empty(), instructions_else, safe_tanh),
        ),
        InstructionV::Loop { instructions } => merge_exts(
            acc,
            seq_exts(Seq::empty(), instructions, safe_tanh),
        ),
        InstructionV::RangeLoop { instructions, .. } => merge_exts(
            acc,
            seq_exts(Seq::empty(), instructions, safe_tanh),
        ),
        _ => acc,
    }
}

/// The extensions a whole instruction list adds, left to right.
pub open spec fn seq_exts(acc: Seq<Extension>, s: Seq<InstructionV>, safe_tanh: bool) -> Seq<
    Extension,
>
    decreases s,
{
    if s.len() == 0 {
        acc
    } else {
        instr_exts(seq_exts(acc, s.drop_last(), safe_tanh), s.last(), safe_tanh)
    }
}

/// The extension list of a lowered body.
pub open spec fn collected_exts(s: Seq<InstructionV>, safe_tanh: bool) -> Seq<Extension> {
    seq_exts(Seq::empty(), s, safe_tanh)
}

/// Append `x` to the collected list unless it is already there.
fn register_one(extensions: &mut Vec<Extension>, x: Extension)
    ensures
        final(extensions)@ == add_ext(old(extensions)@, x),
{
    let mut i: usize = 0;
    let mut found = false;
    while i < extensions.len()
        invariant
            i <= extensions@.len(),
            extensions@ == old(extensions)@,
            found == exists|j: int| 0 <= j < i && extensions@[j] == x,
        decreases extensions@.len() - i,
    {
        if extensions[i] == x {
            found = true;
        }
        i = i + 1;
    }
    if !found {
        extensions.push(x);
    }
}

/// Collect the extensions the emitted shader must define for these
/// instructions: the custom power, error-function and safe-tangent helper
/// routines, in first-occurrence order without repetition, recursing into
/// conditional and loop bodies.
pub fn register_extensions(instructions: &Vec<Instruction>, safe_tanh: bool) -> (r: Vec<Extension>)
    ensures
        r@ == collected_exts(view_instrs(instructions@), safe_tanh),
    decreases instructions@,
{
    let mut extensions: Vec<Extension> = Vec::new();
    let ghost iv = view_instrs(instructions@);
    proof {
        crate::wgsl_model::lemma_view_instrs(instructions@);
    }
    let mut i: usize = 0;
    while i < instructions.len()
        invariant
            i <= instructions@.len(),
            iv == view_instrs(instructions@),
            iv.len() == instructions@.len(),
            forall|j: int|
                0 <= j < instructions@.len() ==> iv[j] == #[trigger] instructions@[j].deep_view(),
            extensions@ == seq_exts(Seq::empty(), iv.take(i as int), safe_tanh),
        decreases instructions@.len() - i,
    {
        proof {
            assert(iv.take(i + 1).drop_last() =~= iv.take(i as int));
            assert(iv.take(i + 1).last() == iv[i as int]);
        }
        merge_instruction(&mut extensions, &instructions[i], safe_tanh);
        i = i + 1;
    }
    proof {
        assert(iv.take(instructions@.len() as int) =~= iv);
    }
    extensions
}

/// Fold one instruction's extensions into the collected list.
fn merge_instruction(extensions: &mut Vec<Extension>, instruction: &Instruction, safe_tanh: bool)
    ensures
        final(extensions)@ == instr_exts(old(extensions)@, instruction.deep_view(), safe_tanh),
    decreases *instruction,
{
    match instruction {
        Instruction::Powf { lhs: _, rhs, out } => {
            register_one(extensions, Extension::PowfPrimitive(out.item()));
            if rhs.is_always_scalar() || rhs.item().vectorization_factor() == 1 {
                register_one(extensions, Extension::PowfScalar(out.item()));
            } else {
                register_one(extensions, Extension::Powf(out.item()));
            }
        },
        Instruction::Erf { input, out: _ } => {
            register_one(extensions, Extension::Erf(input.item()));
        },
        Instruction::Tanh { input, out: _ } => {
            if safe_tanh {
                register_one(extensions, Extension::SafeTanh(input.item()));
            }
        },
        Instruction::If { cond: _, instructions } => {
            proof {
                assert(decreases_to!(*instruction => instruction->If_instructions));
            }
            let sub = register_extensions(instructions, safe_tanh);
            merge_all(extensions, &sub);
        },
        Instruction::IfElse { cond: _, instructions_if, instructions_else } => {
            proof {
                assert(decreases_to!(*instruction => instruction->IfElse_instructions_if));
                assert(decreases_to!(*instruction => instruction->IfElse_instructions_else));
            }
            let sub_if = register_extensions(instructions_if, safe_tanh);
            merge_all(extensions, &sub_if);
            let sub_else = register_extensions(instructions_else, safe_tanh);
            merge_all(extensions, &sub_else);
        },
        Instruction::Loop { instructions } => {
            proof {
                assert(decreases_to!(*instruction => instruction->Loop_instructions));
            }
            let sub = register_extensions(instructions, safe_tanh);
            merge_all(extensions, &sub);
        },
        Instruction::RangeLoop { instructions, .. } => {
            proof {
                assert(decreases_to!(*instruction => instruction->RangeLoop_instructions));
            }
            let sub = register_extensions(instructions, safe_tanh);
            merge_all(extensions, &sub);
        },
        _ => {},
    }
}

/// Fold a sub-collection into the collected list, in order.
fn merge_all(extensions: &mut Vec<Extension>, more: &Vec<Extension>)
    ensures
        final(extensions)@ == merge_exts(old(extensions)@, more@),
{
    let mut j: usize = 0;
    while j < more.len()
        invariant
            j <= more@.len(),
            extensions@ == merge_exts(old(extensions)@, more@.take(j as int)),
        decreases more@.len() - j,
    {
        proof {
            assert(more@.take(j + 1).drop_last() =~= more@.take(j as int));
            assert(more@.take(j + 1).last() == more@[j as int]);
        }
        register_one(extensions, more[j]);
        j = j + 1;
    }
    proof {
        assert(more@.take(more@.len() as int) =~= more@);
    }
}

/// Whether one instruction (recursing into children) triggers the
/// collection rule of extension `x`.
pub open spec fn instr_triggers(i: InstructionV, x: Extension, safe_tanh: bool) -> bool
    decreases i,
{
    match i {
        InstructionV::Powf { lhs: _, rhs, out } => x == Extension::PowfPrimitive(out.item()) || (
        if rhs.is_always_scalar() || rhs.item().vectorization_factor() == 1 {
            x == Extension::PowfScalar(out.item())
        } else {
            x == Extension::Powf(out.item())
        }),
        InstructionV::Erf { input, out: _ } => x == Extension::Erf(input.item()),
        InstructionV::Tanh { input, out: _ } => safe_tanh && x == Extension::SafeTanh(
            input.item(),
        ),
        InstructionV::If { cond: _, instructions } => seq_triggers(instructions, x, safe_tanh),
        InstructionV::IfElse { cond: _, instructions_if, instructions_else } => seq_triggers(
            instructions_if,
            x,
            safe_tanh,
        ) || seq_triggers(instructions_else, x, safe_tanh),
        InstructionV::Loop { instructions } => seq_triggers(instructions, x, safe_tanh),
        InstructionV::RangeLoop { instructions, .. } => seq_triggers(instructions, x, safe_tanh),
        _ => false,
    }
}

/// Whether some instruction of the list triggers extension `x`.
pub open spec fn seq_triggers(s: Seq<InstructionV>, x: Extension, safe_tanh: bool) -> bool
    decreases s,
{
    if s.len() == 0 {
        false
    } else {
        seq_triggers(s.drop_last(), x, safe_tanh) || instr_triggers(s.last(), x, safe_tanh)
    }
}

/// No extension appears twice in the list.
pub open spec fn distinct_exts(s: Seq<Extension>) -> bool {
    forall|i: int, j: int| 0 <= i < j < s.len() ==> s[i] != s[j]
}

/// What `add_ext` holds: the old entries plus possibly `x`.
pub proof fn lemma_add_ext_contains(acc: Seq<Extension>, x: Extension, y: Extension)
    ensures
        add_ext(acc, x).contains(y) <==> (acc.contains(y) || x == y),
{
    if acc.contains(x) {
    } else {
        if add_ext(acc, x).contains(y) {
            let i = choose|i: int| 0 <= i < acc.push(x).len() && acc.push(x)[i] == y;
            if i < acc.len() {
                assert(acc[i] == y);
            } else {
                assert(x == y);
            }
        }
        if acc.contains(y) {
            let i = choose|i: int| 0 <= i < acc.len() && acc[i] == y;
            assert(acc.push(x)[i] == y);
        }
        if x == y {
            assert(acc.push(x)[acc.len() as int] == y);
        }
    }
}

/// What a merge holds: the old entries plus the merged ones.
pub proof fn lemma_merge_exts_contains(acc: Seq<Extension>, more: Seq<Extension>, y: Extension)
    ensures
        merge_exts(acc, more).contains(y) <==> (acc.contains(y) || more.contains(y)),
    decreases more,
{
    if more.len() == 0 {
    } else {
        lemma_merge_exts_contains(acc, more.drop_last(), y);
        lemma_add_ext_contains(merge_exts(acc, more.drop_last()), more.last(), y);
        assert(more.contains(y) <==> (more.drop_last().contains(y) || more.last() == y)) by {
            if more.contains(y) {
                let i = choose|i: int| 0 <= i < more.len() && more[i] == y;
                if i < more.len() - 1 {
                    assert(more.drop_last()[i] == y);
                }
            }
            if more.drop_last().contains(y) {
                let i = choose|i: int|
                    0 <= i < more.drop_last().len() && more.drop_last()[i] == y;
                assert(more[i] == y);
            }
            if more.last() == y {
                assert(more[more.len() - 1] == y);
            }
        }
    }
}

/// An instruction contributes exactly the extensions its rule triggers.
pub proof fn lemma_instr_exts_membership(
    acc: Seq<Extension>,
    i: InstructionV,
    safe_tanh: bool,
    x: Extension,
)
    ensures
        instr_exts(acc, i, safe_tanh).contains(x) <==> (acc.contains(x) || instr_triggers(
            i,
            x,
            safe_tanh,
        )),
    decreases i,
{
    match i {
        InstructionV::Powf { lhs: _, rhs, out } => {
            lemma_add_ext_contains(acc, Extension::PowfPrimitive(out.item()), x);
            let acc1 = add_ext(acc, Extension::PowfPrimitive(out.item()));
            if rhs.is_always_scalar() || rhs.item().vectorization_factor() == 1 {
                lemma_add_ext_contains(acc1, Extension::PowfScalar(out.item()), x);
            } else {
                lemma_add_ext_contains(acc1, Extension::Powf(out.item()), x);
            }
        },
        InstructionV::Erf { input, out: _ } => {
            lemma_add_ext_contains(acc, Extension::Erf(input.item()), x);
        },
        InstructionV::Tanh { input, out: _ } => {
            if safe_tanh {
                lemma_add_ext_contains(acc, Extension::SafeTanh(input.item()), x);
            }
        },
        InstructionV::If { cond: _, instructions } => {
            lemma_seq_exts_membership(Seq::empty(), instructions, safe_tanh, x);
            lemma_merge_exts_contains(acc, seq_exts(Seq::empty(), instructions, safe_tanh), x);
        },
        InstructionV::IfElse { cond: _, instructions_if, instructions_else } => {
            lemma_seq_exts_membership(Seq::empty(), instructions_if, safe_tanh, x);
            lemma_seq_exts_membership(Seq::empty(), instructions_else, safe_tanh, x);
            lemma_merge_exts_contains(
                acc,
                seq_exts(Seq::empty(), instructions_if, safe_tanh),
                x,
            );
            lemma_merge_exts_contains(
                merge_exts(acc, seq_exts(Seq::empty(), instructions_if, safe_tanh)),
                seq_exts(Seq::empty(), instructions_else, safe_tanh),
                x,
            );
        },
        InstructionV::Loop { instructions } => {
            lemma_seq_exts_membership(Seq::empty(), instructions, safe_tanh, x);
            lemma_merge_exts_contains(acc, seq_exts(Seq::empty(), instructions, safe_tanh), x);
        },
        InstructionV::RangeLoop { instructions, .. } => {
            lemma_seq_exts_membership(Seq::empty(), instructions, safe_tanh, x);
            lemma_merge_exts_contains(acc, seq_exts(Seq::empty(), instructions, safe_tanh), x);
        },
        _ => {},
    }
}

/// A list contributes exactly the extensions some member triggers.
pub proof fn lemma_seq_exts_membership(
    acc: Seq<Extension>,
    s: Seq<InstructionV>,
    safe_tanh: bool,
    x: Extension,
)
    ensures
        seq_exts(acc, s, safe_tanh).contains(x) <==> (acc.contains(x) || seq_triggers(
            s,
            x,
            safe_tanh,
        )),
    decreases s,
{
    if s.len() > 0 {
        lemma_seq_exts_membership(acc, s.drop_last(), safe_tanh, x);
        lemma_instr_exts_membership(seq_exts(acc, s.drop_last(), safe_tanh), s.last(), safe_tanh, x);
    }
}

/// Collection is sound and complete: an extension stands in the collected
/// list exactly when some instruction of the lowered body, possibly
/// nested, triggers its rule.
pub proof fn lemma_collected_exts_iff(s: Seq<InstructionV>, safe_tanh: bool, x: Extension)
    ensures
        collected_exts(s, safe_tanh).contains(x) <==> seq_triggers(s, x, safe_tanh),
{
    lemma_seq_exts_membership(Seq::empty(), s, safe_tanh, x);
}

/// `add_ext` never repeats an entry.
pub proof fn lemma_add_ext_distinct(acc: Seq<Extension>, x: Extension)
    requires
        distinct_exts(acc),
    ensures
        distinct_exts(add_ext(acc, x)),
{
    if !acc.contains(x) {
        assert forall|i: int, j: int| 0 <= i < j < acc.push(x).len() implies acc.push(x)[i]
            != acc.push(x)[j] by {
            if j < acc.len() {
            } else {
                assert(acc.push(x)[i] == acc[i]);
            }
        }
    }
}

/// Merging keeps the list free of repeats.
pub proof fn lemma_merge_exts_distinct(acc: Seq<Extension>, more: Seq<Extension>)
    requires
        distinct_exts(acc),
    ensures
        distinct_exts(merge_exts(acc, more)),
    decreases more,
{
    if more.len() > 0 {
        lemma_merge_exts_distinct(acc, more.drop_last());
        lemma_add_ext_distinct(merge_exts(acc, more.drop_last()), more.last());
    }
}

/// One instruction's contribution keeps the list free of repeats.
pub proof fn lemma_instr_exts_distinct(acc: Seq<Extension>, i: InstructionV, safe_tanh: bool)
    requires
        distinct_exts(acc),
    ensures
        distinct_exts(instr_exts(acc, i, safe_tanh)),
    decreases i,
{
    match i {
        InstructionV::Powf { lhs: _, rhs, out } => {
            lemma_add_ext_distinct(acc, Extension::PowfPrimitive(out.item()));
            let acc1 = add_ext(acc, Extension::PowfPrimitive(out.item()));
            if rhs.is_always_scalar() || rhs.item().vectorization_factor() == 1 {
                lemma_add_ext_distinct(acc1, Extension::PowfScalar(out.item()));
            } else {
                lemma_add_ext_distinct(acc1, Extension::Powf(out.item()));
            }
        },
        InstructionV::Erf { input, out: _ } => {
            lemma_add_ext_distinct(acc, Extension::Erf(input.item()));
        },
        InstructionV::Tanh { input, out: _ } => {
            if safe_tanh {
                lemma_add_ext_distinct(acc, Extension::SafeTanh(input.item()));
            }
        },
        InstructionV::If { cond: _, instructions } => {
            lemma_merge_exts_distinct(acc, seq_exts(Seq::empty(), instructions, safe_tanh));
        },
        InstructionV::IfElse { cond: _, instructions_if, instructions_else } => {
            lemma_merge_exts_distinct(acc, seq_exts(Seq::empty(), instructions_if, safe_tanh));
            lemma_merge_exts_distinct(
                merge_exts(acc, seq_exts(Seq::empty(), instructions_if, safe_tanh)),
                seq_exts(Seq::empty(), instructions_else, safe_tanh),
            );
        },
        InstructionV::Loop { instructions } => {
            lemma_merge_exts_distinct(acc, seq_exts(Seq::empty(), instructions, safe_tanh));
        },
        InstructionV::RangeLoop { instructions, .. } => {
            lemma_merge_exts_distinct(acc, seq_exts(Seq::empty(), instructions, safe_tanh));
        },
        _ => {},
    }
}

/// The collected list never repeats an extension.
pub proof fn lemma_collected_exts_distinct(s: Seq<InstructionV>, safe_tanh: bool)
    ensures
        distinct_exts(collected_exts(s, safe_tanh)),
{
    lemma_seq_exts_distinct(Seq::empty(), s, safe_tanh);
}

/// A whole list's contribution keeps the collected list free of repeats.
pub proof fn lemma_seq_exts_distinct(acc: Seq<Extension>, s: Seq<InstructionV>, safe_tanh: bool)
    requires
        distinct_exts(acc),
    ensures
        distinct_exts(seq_exts(acc, s, safe_tanh)),
    decreases s,
{
    if s.len() > 0 {
        lemma_seq_exts_distinct(acc, s.drop_last(), safe_tanh);
        lemma_instr_exts_distinct(seq_exts(acc, s.drop_last(), safe_tanh), s.last(), safe_tanh);
    }
}

} // verus!
