//! What holds of every pipeline: how the outcome of a join follows from the outcomes of its
//! children, which errors a failing join records, and that a pipeline of deterministic
//! parts is deterministic.
//!
//! Each statement speaks of the outcomes that a check yields. A premise such as "the left
//! child can only fail" reads: every outcome that the left child yields for the container
//! is a failure.
use vstd::prelude::*;
use core::marker::PhantomData;
use crate::check::{And, Check, CheckOutcome, CheckState, Or, ResultCheck, and_joins, or_joins};
use crate::cmberr::{
    CombineErrorBuilder, VecCombine, alike, left_only, left_then_right, lemma_vec_flat_merged,
    lemma_vec_merged, merged, merges_alike, right_only,
};

verus! {

/// Two outcomes agree: they carry the same container, and both are passes or both are
/// failures whose errors are related by `same`.
pub open spec fn agree<T, State, E>(
    x: CheckOutcome<T, State, E>,
    y: CheckOutcome<T, State, E>,
    same: spec_fn(E, E) -> bool,
) -> bool {
    x.state() == y.state() && alike(x.error(), y.error(), same)
}

/// The check is deterministic on `value`, up to `same` on errors: any two outcomes that it
/// yields for `value` agree. With equality for `same`, a second run returns what the first
/// one did.
pub open spec fn deterministic_on<T, PreState, K: Check<T, PreState>>(
    check: K,
    value: CheckState<T, PreState>,
    same: spec_fn(K::Error, K::Error) -> bool,
) -> bool {
    forall|
        x: CheckOutcome<T, K::PostState, K::Error>,
        y: CheckOutcome<T, K::PostState, K::Error>,
    |
        #![trigger check.yields(value, x), check.yields(value, y)]
        check.yields(value, x) && check.yields(value, y) ==> agree(x, y, same)
}

/// An outcome of the left child from which the `and` join made `out`.
spec fn and_left_outcome<T, PreState, A, B, C>(
    join: And<A, B, C>,
    value: CheckState<T, PreState>,
    out: CheckOutcome<T, B::PostState, C::Out>,
) -> CheckOutcome<T, A::PostState, A::Error> where
    A: Check<T, PreState>,
    B: Check<T, A::PostState>,
    C: CombineErrorBuilder<A::Error, B::Error>,
 {
    choose|first: CheckOutcome<T, A::PostState, A::Error>| #[trigger]
        join.first().yields(value, first) && match first {
            CheckOutcome::Passed(mid) => exists|
                second: CheckOutcome<T, B::PostState, B::Error>,
            | #[trigger]
                join.second().yields(mid, second) && and_joins::<_, _, _, _, _, C>(
                    first,
                    Some(second),
                    out,
                ),
            CheckOutcome::Failed { .. } => and_joins::<_, _, B::PostState, _, B::Error, C>(
                first,
                None,
                out,
            ),
        }
}

/// An outcome of the right child, on the container that `first` passed, from which the
/// `and` join made `out`.
spec fn and_right_outcome<T, PreState, A, B, C>(
    join: And<A, B, C>,
    first: CheckOutcome<T, A::PostState, A::Error>,
    out: CheckOutcome<T, B::PostState, C::Out>,
) -> CheckOutcome<T, B::PostState, B::Error> where
    A: Check<T, PreState>,
    B: Check<T, A::PostState>,
    C: CombineErrorBuilder<A::Error, B::Error>,
 {
    choose|second: CheckOutcome<T, B::PostState, B::Error>| #[trigger]
        join.second().yields(first->Passed_0, second) && and_joins::<_, _, _, _, _, C>(
            first,
            Some(second),
            out,
        )
}

/// An outcome of the left child from which the `or` join made `out`.
spec fn or_left_outcome<T, PreState, A, B, C>(
    join: Or<A, B, C>,
    value: CheckState<T, PreState>,
    out: CheckOutcome<T, B::PostState, C::Out>,
) -> CheckOutcome<T, A::PostState, A::Error> where
    A: Check<T, PreState>,
    B: Check<T, A::PostState>,
    C: CombineErrorBuilder<A::Error, B::Error>,
 {
    choose|first: CheckOutcome<T, A::PostState, A::Error>| #[trigger]
        join.first().yields(value, first) && exists|
            second: CheckOutcome<T, B::PostState, B::Error>,
        | #[trigger]
            join.second().yields(first.state(), second) && or_joins::<_, _, _, _, _, C>(
                first,
                second,
                out,
            )
}

/// An outcome of the right child, on the container that `first` carries, from which the
/// `or` join made `out`.
spec fn or_right_outcome<T, PreState, A, B, C>(
    join: Or<A, B, C>,
    first: CheckOutcome<T, A::PostState, A::Error>,
    out: CheckOutcome<T, B::PostState, C::Out>,
) -> CheckOutcome<T, B::PostState, B::Error> where
    A: Check<T, PreState>,
    B: Check<T, A::PostState>,
    C: CombineErrorBuilder<A::Error, B::Error>,
 {
    choose|second: CheckOutcome<T, B::PostState, B::Error>| #[trigger]
        join.second().yields(first.state(), second) && or_joins::<_, _, _, _, _, C>(
            first,
            second,
            out,
        )
}

/// An `and` join passes where its children can only pass: the left child the container and
/// the right child whatever the left one hands on. The join then carries a container that
/// the right child returned.
pub proof fn lemma_and_passes<T, PreState, A, B, C>(
    join: And<A, B, C>,
    value: CheckState<T, PreState>,
    out: CheckOutcome<T, B::PostState, C::Out>,
) where
    A: Check<T, PreState>,
    B: Check<T, A::PostState>,
    C: CombineErrorBuilder<A::Error, B::Error>,

    requires
        forall|first: CheckOutcome<T, A::PostState, A::Error>| #[trigger]
            join.first().yields(value, first) ==> first is Passed,
        forall|
            first: CheckOutcome<T, A::PostState, A::Error>,
            second: CheckOutcome<T, B::PostState, B::Error>,
        |
            join.first().yields(value, first) && #[trigger] join.second().yields(
                first.state(),
                second,
            ) ==> second is Passed,
        join.yields(value, out),
    ensures
        out is Passed,
        exists|
            first: CheckOutcome<T, A::PostState, A::Error>,
            second: CheckOutcome<T, B::PostState, B::Error>,
        |
            join.first().yields(value, first) && #[trigger] join.second().yields(
                first.state(),
                second,
            ) && out.state() == second.state(),
{
    let first = and_left_outcome(join, value, out);
    let second = and_right_outcome(join, first, out);
    assert(join.second().yields(first.state(), second));
}

/// Where the left child of an `and` join can only fail, the join fails with the value that
/// the left child returned, and its error is the merge of the left error alone.
pub proof fn lemma_and_left_failure<T, PreState, A, B, C>(
    join: And<A, B, C>,
    value: CheckState<T, PreState>,
    out: CheckOutcome<T, B::PostState, C::Out>,
) where
    A: Check<T, PreState>,
    B: Check<T, A::PostState>,
    C: CombineErrorBuilder<A::Error, B::Error>,

    requires
        forall|first: CheckOutcome<T, A::PostState, A::Error>| #[trigger]
            join.first().yields(value, first) ==> first is Failed,
        join.yields(value, out),
    ensures
        out is Failed,
        exists|first: CheckOutcome<T, A::PostState, A::Error>| #[trigger]
            join.first().yields(value, first) && first is Failed && out.state().value
                == first.state().value && left_only::<A::Error, B::Error, C>(
                first->err,
                out->err,
            ),
{
}

/// Where the left child of an `and` join can only fail, the right child does not run: the
/// join may be called wherever the left child may, whatever the right child accepts, and
/// what it yields does not depend on the right child.
pub proof fn lemma_and_left_failure_skips_right<T, PreState, A, B, C>(
    join: And<A, B, C>,
    other: And<A, B, C>,
    value: CheckState<T, PreState>,
    out: CheckOutcome<T, B::PostState, C::Out>,
) where
    A: Check<T, PreState>,
    B: Check<T, A::PostState>,
    C: CombineErrorBuilder<A::Error, B::Error>,

    requires
        forall|first: CheckOutcome<T, A::PostState, A::Error>| #[trigger]
            join.first().yields(value, first) ==> first is Failed,
        other.first() == join.first(),
    ensures
        join.accepts(value) <==> join.first().accepts(value),
        join.yields(value, out) <==> other.yields(value, out),
{
}

/// A failing `and` join records exactly one error before it finishes its combiner: the left
/// error where the left child failed, the right error where the left child passed and the
/// right one failed.
pub proof fn lemma_and_failure_records_once<T, PreState, A, B, C>(
    join: And<A, B, C>,
    value: CheckState<T, PreState>,
    out: CheckOutcome<T, B::PostState, C::Out>,
) where
    A: Check<T, PreState>,
    B: Check<T, A::PostState>,
    C: CombineErrorBuilder<A::Error, B::Error>,

    requires
        join.yields(value, out),
        out is Failed,
    ensures
        exists|first: CheckOutcome<T, A::PostState, A::Error>| #[trigger]
            join.first().yields(value, first) && (if first is Failed {
                left_only::<A::Error, B::Error, C>(first->err, out->err)
            } else {
                exists|second: CheckOutcome<T, B::PostState, B::Error>| #[trigger]
                    join.second().yields(first.state(), second) && second is Failed
                        && right_only::<A::Error, B::Error, C>(second->err, out->err)
            }),
{
    let first = and_left_outcome(join, value, out);
    if first is Passed {
        let second = and_right_outcome(join, first, out);
        assert(join.second().yields(first.state(), second));
    }
}

/// An `and` join is deterministic where its parts are: the left child on the container, the
/// right child on every container that the left child may pass, and the strategy on alike
/// errors.
pub proof fn lemma_and_deterministic<T, PreState, A, B, C>(
    join: And<A, B, C>,
    value: CheckState<T, PreState>,
    same_left: spec_fn(A::Error, A::Error) -> bool,
    same_right: spec_fn(B::Error, B::Error) -> bool,
    same_out: spec_fn(C::Out, C::Out) -> bool,
) where
    A: Check<T, PreState>,
    B: Check<T, A::PostState>,
    C: CombineErrorBuilder<A::Error, B::Error>,

    requires
        deterministic_on(join.first(), value, same_left),
        forall|mid: CheckState<T, A::PostState>| #[trigger]
            join.first().yields(value, CheckOutcome::Passed(mid)) ==> deterministic_on(
                join.second(),
                mid,
                same_right,
            ),
        merges_alike::<A::Error, B::Error, C>(same_left, same_right, same_out),
    ensures
        deterministic_on(join, value, same_out),
{
    assert forall|
        x: CheckOutcome<T, B::PostState, C::Out>,
        y: CheckOutcome<T, B::PostState, C::Out>,
    | #[trigger] join.yields(value, x) && #[trigger] join.yields(value, y) implies agree(
        x,
        y,
        same_out,
    ) by {
        let fx = and_left_outcome(join, value, x);
        let fy = and_left_outcome(join, value, y);
        assert(agree(fx, fy, same_left));
        if fx is Passed {
            let mid = fx->Passed_0;
            let sx = and_right_outcome(join, fx, x);
            let sy = and_right_outcome(join, fy, y);
            assert(join.second().yields(mid, sx));
            assert(join.second().yields(mid, sy));
            assert(agree(sx, sy, same_right));
        }
    }
}

/// Under the accumulating strategy, a failing `and` join of two checks with one error type
/// reports exactly one error: that of the child that failed.
pub proof fn lemma_and_vec_one_error<T, PreState, A, B, E>(
    join: And<A, B, VecCombine<E>>,
    value: CheckState<T, PreState>,
    out: CheckOutcome<T, B::PostState, Vec<E>>,
) where A: Check<T, PreState, Error = E>, B: Check<T, A::PostState, Error = E>
    requires
        join.yields(value, out),
        out is Failed,
    ensures
        exists|first: CheckOutcome<T, A::PostState, E>| #[trigger]
            join.first().yields(value, first) && (if first is Failed {
                out->err@ == seq![first->err]
            } else {
                exists|second: CheckOutcome<T, B::PostState, E>| #[trigger]
                    join.second().yields(first.state(), second) && second is Failed && out->err@
                        == seq![second->err]
            }),
{
    let first = and_left_outcome(join, value, out);
    if first is Failed {
        lemma_vec_merged::<E>(first.error(), None, out->err);
    } else {
        let second = and_right_outcome(join, first, out);
        assert(join.second().yields(first.state(), second));
        lemma_vec_merged::<E>(None, second.error(), out->err);
    }
}

/// Under the accumulating strategy, a failing `and` join whose left child is itself a chain
/// reports the errors of that chain unchanged where the chain failed, and else the one
/// error of its right child. So the error of a chain of `and` joins has one entry, however
/// long the chain is: the error of the step that failed.
pub proof fn lemma_and_vec_chain_error<T, PreState, A, B, E>(
    join: And<A, B, VecCombine<E>>,
    value: CheckState<T, PreState>,
    out: CheckOutcome<T, B::PostState, Vec<E>>,
) where A: Check<T, PreState, Error = Vec<E>>, B: Check<T, A::PostState, Error = E>
    requires
        join.yields(value, out),
        out is Failed,
    ensures
        exists|first: CheckOutcome<T, A::PostState, Vec<E>>| #[trigger]
            join.first().yields(value, first) && (if first is Failed {
                out->err@ == first->err@
            } else {
                exists|second: CheckOutcome<T, B::PostState, E>| #[trigger]
                    join.second().yields(first.state(), second) && second is Failed && out->err@
                        == seq![second->err]
            }),
{
    let first = and_left_outcome(join, value, out);
    if first is Failed {
        lemma_vec_flat_merged::<E>(first.error(), None, out->err);
    } else {
        let second = and_right_outcome(join, first, out);
        assert(join.second().yields(first.state(), second));
        lemma_vec_flat_merged::<E>(None, second.error(), out->err);
    }
}

/// An `or` join passes where its children can only pass: the left child the container and
/// the right child whatever the left one hands on. The join then carries a container that
/// the right child returned.
pub proof fn lemma_or_passes<T, PreState, A, B, C>(
    join: Or<A, B, C>,
    value: CheckState<T, PreState>,
    out: CheckOutcome<T, B::PostState, C::Out>,
) where
    A: Check<T, PreState>,
    B: Check<T, A::PostState>,
    C: CombineErrorBuilder<A::Error, B::Error>,

    requires
        forall|first: CheckOutcome<T, A::PostState, A::Error>| #[trigger]
            join.first().yields(value, first) ==> first is Passed,
        forall|
            first: CheckOutcome<T, A::PostState, A::Error>,
            second: CheckOutcome<T, B::PostState, B::Error>,
        |
            join.first().yields(value, first) && #[trigger] join.second().yields(
                first.state(),
                second,
            ) ==> second is Passed,
        join.yields(value, out),
    ensures
        out is Passed,
        exists|
            first: CheckOutcome<T, A::PostState, A::Error>,
            second: CheckOutcome<T, B::PostState, B::Error>,
        |
            join.first().yields(value, first) && #[trigger] join.second().yields(
                first.state(),
                second,
            ) && out.state() == second.state(),
{
}

/// Where the left child of an `or` join can only pass and the right child can only fail,
/// the join fails with the container of the right child, and its error is the merge of the
/// right error alone.
pub proof fn lemma_or_right_failure<T, PreState, A, B, C>(
    join: Or<A, B, C>,
    value: CheckState<T, PreState>,
    out: CheckOutcome<T, B::PostState, C::Out>,
) where
    A: Check<T, PreState>,
    B: Check<T, A::PostState>,
    C: CombineErrorBuilder<A::Error, B::Error>,

    requires
        forall|first: CheckOutcome<T, A::PostState, A::Error>| #[trigger]
            join.first().yields(value, first) ==> first is Passed,
        forall|
            first: CheckOutcome<T, A::PostState, A::Error>,
            second: CheckOutcome<T, B::PostState, B::Error>,
        |
            join.first().yields(value, first) && #[trigger] join.second().yields(
                first.state(),
                second,
            ) ==> second is Failed,
        join.yields(value, out),
    ensures
        out is Failed,
        exists|
            first: CheckOutcome<T, A::PostState, A::Error>,
            second: CheckOutcome<T, B::PostState, B::Error>,
        |
            join.first().yields(value, first) && #[trigger] join.second().yields(
                first.state(),
                second,
            ) && second is Failed && out.state() == second.state() && right_only::<
                A::Error,
                B::Error,
                C,
            >(second->err, out->err),
{
}

/// Where the left child of an `or` join can only fail and the right child can only pass,
/// the join still fails: it carries the container that the right child passed, and its
/// error is the merge of the left error alone.
pub proof fn lemma_or_left_failure<T, PreState, A, B, C>(
    join: Or<A, B, C>,
    value: CheckState<T, PreState>,
    out: CheckOutcome<T, B::PostState, C::Out>,
) where
    A: Check<T, PreState>,
    B: Check<T, A::PostState>,
    C: CombineErrorBuilder<A::Error, B::Error>,

    requires
        forall|first: CheckOutcome<T, A::PostState, A::Error>| #[trigger]
            join.first().yields(value, first) ==> first is Failed,
        forall|
            first: CheckOutcome<T, A::PostState, A::Error>,
            second: CheckOutcome<T, B::PostState, B::Error>,
        |
            join.first().yields(value, first) && #[trigger] join.second().yields(
                first.state(),
                second,
            ) ==> second is Passed,
        join.yields(value, out),
    ensures
        out is Failed,
        exists|
            first: CheckOutcome<T, A::PostState, A::Error>,
            second: CheckOutcome<T, B::PostState, B::Error>,
        |
            join.first().yields(value, first) && #[trigger] join.second().yields(
                first.state(),
                second,
            ) && first is Failed && out.state() == second.state() && left_only::<
                A::Error,
                B::Error,
                C,
            >(first->err, out->err),
{
}

/// Where both children of an `or` join can only fail, the join fails with the container of
/// the right child, and its error is the merge of the left error and then the right one.
pub proof fn lemma_or_both_fail<T, PreState, A, B, C>(
    join: Or<A, B, C>,
    value: CheckState<T, PreState>,
    out: CheckOutcome<T, B::PostState, C::Out>,
) where
    A: Check<T, PreState>,
    B: Check<T, A::PostState>,
    C: CombineErrorBuilder<A::Error, B::Error>,

    requires
        forall|first: CheckOutcome<T, A::PostState, A::Error>| #[trigger]
            join.first().yields(value, first) ==> first is Failed,
        forall|
            first: CheckOutcome<T, A::PostState, A::Error>,
            second: CheckOutcome<T, B::PostState, B::Error>,
        |
            join.first().yields(value, first) && #[trigger] join.second().yields(
                first.state(),
                second,
            ) ==> second is Failed,
        join.yields(value, out),
    ensures
        out is Failed,
        exists|
            first: CheckOutcome<T, A::PostState, A::Error>,
            second: CheckOutcome<T, B::PostState, B::Error>,
        |
            join.first().yields(value, first) && #[trigger] join.second().yields(
                first.state(),
                second,
            ) && first is Failed && second is Failed && out.state() == second.state()
                && left_then_right::<A::Error, B::Error, C>(first->err, second->err, out->err),
{
}

/// An `or` join is deterministic where its parts are: the left child on the container, the
/// right child on every container that the left child may return, and the strategy on alike
/// errors.
pub proof fn lemma_or_deterministic<T, PreState, A, B, C>(
    join: Or<A, B, C>,
    value: CheckState<T, PreState>,
    same_left: spec_fn(A::Error, A::Error) -> bool,
    same_right: spec_fn(B::Error, B::Error) -> bool,
    same_out: spec_fn(C::Out, C::Out) -> bool,
) where
    A: Check<T, PreState>,
    B: Check<T, A::PostState>,
    C: CombineErrorBuilder<A::Error, B::Error>,

    requires
        deterministic_on(join.first(), value, same_left),
        forall|first: CheckOutcome<T, A::PostState, A::Error>| #[trigger]
            join.first().yields(value, first) ==> deterministic_on(
                join.second(),
                first.state(),
                same_right,
            ),
        merges_alike::<A::Error, B::Error, C>(same_left, same_right, same_out),
    ensures
        deterministic_on(join, value, same_out),
{
    assert forall|
        x: CheckOutcome<T, B::PostState, C::Out>,
        y: CheckOutcome<T, B::PostState, C::Out>,
    | #[trigger] join.yields(value, x) && #[trigger] join.yields(value, y) implies agree(
        x,
        y,
        same_out,
    ) by {
        let fx = or_left_outcome(join, value, x);
        let fy = or_left_outcome(join, value, y);
        assert(agree(fx, fy, same_left));
        let sx = or_right_outcome(join, fx, x);
        let sy = or_right_outcome(join, fy, y);
        assert(join.second().yields(fx.state(), sx));
        assert(join.second().yields(fx.state(), sy));
        assert(agree(sx, sy, same_right));
    }
}

/// A predicate that can only return `Ok` for a value makes a check that passes the wrapped
/// value on unchanged.
pub proof fn lemma_pass_predicate_passes<F, T, PreState, PostState, E>(
    decided: ResultCheck<F, T, PreState, PostState, E>,
    value: T,
    out: CheckOutcome<T, PostState, E>,
) where F: Fn(&T) -> Result<(), E>
    requires
        forall|r: Result<(), E>| #[trigger]
            call_ensures(decided.predicate(), (&value,), r) ==> r is Ok,
        decided.yields(CheckState { value, _state: PhantomData }, out),
    ensures
        out == CheckOutcome::<T, PostState, E>::Passed(CheckState { value, _state: PhantomData }),
{
}

/// A check made of a predicate is deterministic on a container where the predicate is
/// deterministic on the value in it: it cannot both accept and reject the value, and the
/// errors with which it may reject it are related by `same`.
pub proof fn lemma_result_check_deterministic<F, T, PreState, PostState, E>(
    decided: ResultCheck<F, T, PreState, PostState, E>,
    value: CheckState<T, PreState>,
    same: spec_fn(E, E) -> bool,
) where F: Fn(&T) -> Result<(), E>
    requires
        forall|r1: Result<(), E>, r2: Result<(), E>|
            #![trigger call_ensures(decided.predicate(), (&value.value,), r1), call_ensures(decided.predicate(), (&value.value,), r2)]
            call_ensures(decided.predicate(), (&value.value,), r1) && call_ensures(
                decided.predicate(),
                (&value.value,),
                r2,
            ) ==> match (r1, r2) {
                (Ok(_), Ok(_)) => true,
                (Err(e1), Err(e2)) => same(e1, e2),
                _ => false,
            },
    ensures
        deterministic_on(decided, value, same),
{
}

} // verus!
