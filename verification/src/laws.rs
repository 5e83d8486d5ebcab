//! Global properties of the lowering, stated and proved over the model.

use vstd::prelude::*;

use crate::ir;
use crate::lower::{ext_count, ext_positions, lower_statement, lower_stmts};
use crate::state::CompilerState;
use crate::wgsl_model::InstructionV;
use crate::CompileError;

verus! {

/// Every binding's extended-meta position counts exactly the extended-meta
/// bindings strictly before it, and across the extended-meta bindings the
/// positions are exactly 0, 1, 2, … in binding order: strictly increasing
/// and all below the total count.
pub proof fn lemma_ext_positions_increasing(bs: Seq<ir::Binding>)
    requires
        bs.len() <= crate::metadata::MAX_META_BINDINGS,
    ensures
        ext_positions(bs).len() == bs.len(),
        forall|i: int|
            0 <= i < bs.len() ==> ext_positions(bs)[i] == ext_count(bs.take(i)) as u32,
        forall|i: int, j: int|
            0 <= i < j < bs.len() && bs[i].has_extended_meta && bs[j].has_extended_meta
                ==> ext_positions(bs)[i] < ext_positions(bs)[j],
        forall|i: int|
            0 <= i < bs.len() && bs[i].has_extended_meta ==> ext_positions(bs)[i]
                < ext_count(bs),
{
    assert forall|i: int, j: int| 0 <= i <= j <= bs.len() implies #[trigger] ext_count(bs.take(i))
        <= #[trigger] ext_count(bs.take(j)) by {
        lemma_ext_count_monotone(bs, i, j);
    }
    assert forall|i: int|
        0 <= i < bs.len() && bs[i].has_extended_meta implies #[trigger] ext_count(bs.take(i + 1))
        == ext_count(bs.take(i)) + 1 by {
        assert(bs.take(i + 1).drop_last() =~= bs.take(i));
        assert(bs.take(i + 1).last() == bs[i]);
    }
    assert forall|i: int| 0 <= i <= bs.len() implies 0 <= #[trigger] ext_count(bs.take(i)) <= i by {
        crate::lower::lemma_ext_count_bounds(bs.take(i));
    }
    assert(bs.take(bs.len() as int) =~= bs);
    assert forall|i: int, j: int|
        0 <= i < j < bs.len() && bs[i].has_extended_meta && bs[j].has_extended_meta
        implies ext_positions(bs)[i] < ext_positions(bs)[j] by {
        assert(ext_count(bs.take(i + 1)) == ext_count(bs.take(i)) + 1);
        lemma_ext_count_monotone(bs, i + 1, j);
    }
    assert forall|i: int|
        0 <= i < bs.len() && bs[i].has_extended_meta implies ext_positions(bs)[i] < ext_count(
        bs,
    ) by {
        assert(ext_count(bs.take(i + 1)) == ext_count(bs.take(i)) + 1);
        lemma_ext_count_monotone(bs, i + 1, bs.len() as int);
    }
}

/// Counting extended-meta bindings over a longer prefix counts at least as
/// many.
pub proof fn lemma_ext_count_monotone(bs: Seq<ir::Binding>, i: int, j: int)
    requires
        0 <= i <= j <= bs.len(),
    ensures
        ext_count(bs.take(i)) <= ext_count(bs.take(j)),
    decreases j - i,
{
    if i < j {
        lemma_ext_count_monotone(bs, i, j - 1);
        assert(bs.take(j).drop_last() =~= bs.take(j - 1));
    }
}

/// Statements lower one to one: a successful lowering of a statement list
/// yields exactly one target instruction per source statement, in source
/// order, each the lowering of its own statement under the state reached
/// by its predecessors.
pub proof fn lemma_stmts_one_to_one(st: CompilerState, ops: Seq<ir::Instruction>)
    requires
        lower_stmts(st, ops).1 is Ok,
    ensures
        lower_stmts(st, ops).1->Ok_0.len() == ops.len(),
        forall|i: int|
            0 <= i < ops.len() ==> #[trigger] lower_stmts(st, ops).1->Ok_0[i]
                == lower_statement(lower_stmts(st, ops.take(i)).0, ops[i]).1->Ok_0,
    decreases ops,
{
    if ops.len() > 0 {
        lemma_stmts_one_to_one(st, ops.drop_last());
        assert forall|i: int| 0 <= i < ops.len() implies #[trigger] lower_stmts(
            st,
            ops,
        ).1->Ok_0[i] == lower_statement(lower_stmts(st, ops.take(i)).0, ops[i]).1->Ok_0 by {
            if i < ops.len() - 1 {
                assert(ops.drop_last()[i] == ops[i]);
                assert(ops.drop_last().take(i) =~= ops.take(i));
            } else {
                assert(ops.take(i) =~= ops.drop_last());
                assert(ops.last() == ops[i]);
            }
        }
    }
}

/// The compiler preserves source order deterministically: lowering a
/// concatenation of statement lists lowers the first list, then the second
/// from the state the first one left, and concatenates the results in
/// order.
pub proof fn lemma_stmts_concat(st: CompilerState, a: Seq<ir::Instruction>, b: Seq<
    ir::Instruction,
>)
    requires
        lower_stmts(st, a).1 is Ok,
    ensures
        ({
            let (st1, r1) = lower_stmts(st, a);
            let (st2, r2) = lower_stmts(st1, b);
            lower_stmts(st, a + b) == (
                st2,
                match r2 {
                    Ok(s2) => Ok::<_, CompileError>(r1->Ok_0 + s2),
                    Err(e) => Err(e),
                },
            )
        }),
    decreases b,
{
    let (st1, r1) = lower_stmts(st, a);
    if b.len() == 0 {
        assert(a + b =~= a);
        assert(r1->Ok_0 + Seq::<InstructionV>::empty() =~= r1->Ok_0);
    } else {
        lemma_stmts_concat(st, a, b.drop_last());
        assert((a + b).drop_last() =~= a + b.drop_last());
        assert((a + b).last() == b.last());
        let (st2p, r2p) = lower_stmts(st1, b.drop_last());
        match r2p {
            Ok(s2p) => {
                let (st3, r3) = lower_statement(st2p, b.last());
                match r3 {
                    Ok(iv) => {
                        assert(r1->Ok_0 + s2p.push(iv) =~= (r1->Ok_0 + s2p).push(iv));
                    },
                    Err(_) => {},
                }
            },
            Err(_) => {},
        }
    }
}

/// How many of a scope's declared variables are not slices.
pub open spec fn non_slice_count(vs: Seq<ir::Variable>) -> int
    decreases vs,
{
    if vs.len() == 0 {
        0
    } else {
        non_slice_count(vs.drop_last()) + if vs.last().kind is Slice {
            0int
        } else {
            1int
        }
    }
}

/// Declarations are one to one: a successful declaration pass emits
/// exactly one declaration instruction per declared non-slice variable,
/// and a slice is never declared.
pub proof fn lemma_decls_shape(st: CompilerState, vs: Seq<ir::Variable>)
    requires
        crate::lower::lower_decls(st, vs).1 is Ok,
    ensures
        crate::lower::lower_decls(st, vs).1->Ok_0.len() == non_slice_count(vs),
        forall|k: int|
            0 <= k < non_slice_count(vs) ==> #[trigger] crate::lower::lower_decls(
                st,
                vs,
            ).1->Ok_0[k] is DeclareVariable,
    decreases vs,
{
    if vs.len() > 0 {
        lemma_decls_shape(st, vs.drop_last());
        assert(0 <= non_slice_count(vs.drop_last())) by {
            lemma_non_slice_count_bounds(vs.drop_last());
        }
    }
}

/// The non-slice count lies between none and all.
pub proof fn lemma_non_slice_count_bounds(vs: Seq<ir::Variable>)
    ensures
        0 <= non_slice_count(vs) <= vs.len(),
    decreases vs,
{
    if vs.len() > 0 {
        lemma_non_slice_count_bounds(vs.drop_last());
    }
}

/// Lowering one variable reference sets exactly the usage flags of the
/// built-in it names — none for any other kind — and never clears a flag;
/// the rest of the compiler state changes only by growing the declaration
/// lists.
pub proof fn lemma_lower_var_flags(st: CompilerState, v: ir::Variable)
    ensures
        crate::lower::lower_var(st, v).0.flags == st.flags.union(crate::lower::var_flags(v)),
{
    crate::state::Flags::lemma_union_none(st.flags);
}

} // verus!
