//! A second engine of the same shape, whose `or` join lets the right child make up for a
//! failure of the left one, and two sample checks on string slices.
//!
//! The strategies of [`crate::cmberr`] serve both engines.
use vstd::prelude::*;
use vstd::string::StringSliceAdditionalSpecFns;
use core::marker::PhantomData;
use crate::cmberr::{CombineError, CombineErrorBuilder, merged, recorded};
use crate::text::starts_with;

verus! {

/// A value together with the token `S` of the checks it has been through.
pub struct CheckState2<T, S> {
    pub value: T,
    pub _state: PhantomData<S>,
}

impl<T, S> CheckState2<T, S> {
    /// Wraps `value`, tagged with `S`.
    pub fn new(value: T) -> (state: Self)
        ensures
            state.value == value,
    {
        Self { value, _state: PhantomData }
    }
}

/// What a check of this engine returns: the container comes back on both paths.
pub enum CheckOutcome<T, State, E> {
    Passed(CheckState2<T, State>),
    Failed { state: CheckState2<T, State>, err: E },
}

impl<T, State, E> CheckOutcome<T, State, E> {
    /// The container that the outcome carries, on either path.
    pub open spec fn state(self) -> CheckState2<T, State> {
        match self {
            CheckOutcome::Passed(state) => state,
            CheckOutcome::Failed { state, .. } => state,
        }
    }

    /// The error of a failure; `None` for a pass.
    pub open spec fn error(self) -> Option<E> {
        match self {
            CheckOutcome::Passed(_) => None,
            CheckOutcome::Failed { err, .. } => Some(err),
        }
    }
}

/// One validation step, or a pipeline of them, from a container tagged `Pre` to an outcome
/// tagged `State`.
///
/// `accepts` and `yields` are the contract of one implementation; both default to `true`.
/// Any function from `CheckState2<T, Pre>` to `CheckOutcome<T, State, E>` is a check.
pub trait Check2<T, Pre>: Sized {
    type State;

    type Error;

    /// Whether `check` may be called on `value`.
    open spec fn accepts(&self, value: CheckState2<T, Pre>) -> bool {
        true
    }

    /// Whether `check` may return `out` for `value`.
    open spec fn yields(
        &self,
        value: CheckState2<T, Pre>,
        out: CheckOutcome<T, Self::State, Self::Error>,
    ) -> bool {
        true
    }

    /// Applies the check to `value`, consuming both.
    fn check(self, value: CheckState2<T, Pre>) -> (out: CheckOutcome<T, Self::State, Self::Error>)
        requires
            self.accepts(value),
        ensures
            self.yields(value, out),
    ;

    /// The join that passes when `self` and then `b` pass, with errors merged by `C`.
    fn and<B, C>(self, b: B) -> (joined: And<Self, B, C>)
        ensures
            joined.first() == self,
            joined.second() == b,
    {
        And { a: self, b, _combine: PhantomData }
    }

    /// The join that runs `self` and then `b`, and passes whenever `b` does, with errors
    /// merged by `C`.
    fn or<B, C>(self, b: B) -> (joined: Or<Self, B, C>)
        ensures
            joined.first() == self,
            joined.second() == b,
    {
        Or { a: self, b, _combine: PhantomData }
    }
}

/// What an `and` join makes of the outcomes of its children: `first` from the left child
/// and, where the left child passed, `second` from the right one.
///
/// Both passed: the join passes with the container of the right child. The right child
/// failed: the join fails with that container and the merge of the right error alone. The
/// left child failed: the right child did not run, and the join fails with the value of the
/// left child's container and the merge of the left error alone.
pub open spec fn and_joins<T, Mid, Post, EA, EB, C: CombineErrorBuilder<EA, EB>>(
    first: CheckOutcome<T, Mid, EA>,
    second: Option<CheckOutcome<T, Post, EB>>,
    out: CheckOutcome<T, Post, C::Out>,
) -> bool {
    match first {
        CheckOutcome::Passed(_) => {
            &&& second is Some
            &&& out.state() == second->0.state()
            &&& if second->0 is Passed {
                out is Passed
            } else {
                out is Failed && merged::<EA, EB, C>(None, second->0.error(), out->err)
            }
        },
        CheckOutcome::Failed { state, err } => {
            &&& second is None
            &&& out is Failed
            &&& out.state().value == state.value
            &&& merged::<EA, EB, C>(Some(err), None, out->err)
        },
    }
}

/// What an `or` join makes of the outcomes of its children: `first` from the left child and
/// `second` from the right one, which ran on the container that the left child returned.
///
/// The join carries the container of the right child and passes whenever the right child
/// passed, also after a failure of the left one. Where the right child failed, the join
/// fails, and its error is the merge of the left error, if there is one, and then the right
/// one.
pub open spec fn or_joins<T, Mid, Post, EA, EB, C: CombineErrorBuilder<EA, EB>>(
    first: CheckOutcome<T, Mid, EA>,
    second: CheckOutcome<T, Post, EB>,
    out: CheckOutcome<T, Post, C::Out>,
) -> bool {
    &&& out.state() == second.state()
    &&& if second is Passed {
        out is Passed
    } else {
        out is Failed && merged::<EA, EB, C>(first.error(), second.error(), out->err)
    }
}

/// The join of two checks that passes only when both pass. See [`Check2::and`].
pub struct And<A, B, C> {
    a: A,
    b: B,
    _combine: PhantomData<C>,
}

impl<A, B, C> And<A, B, C> {
    /// The left child, which runs first.
    pub closed spec fn first(&self) -> A {
        self.a
    }

    /// The right child, which runs on what the left child passed.
    pub closed spec fn second(&self) -> B {
        self.b
    }
}

impl<T, Pre, A, B, C> Check2<T, Pre> for And<A, B, C> where
    A: Check2<T, Pre>,
    B: Check2<T, A::State>,
    C: CombineErrorBuilder<A::Error, B::Error>,
 {
    type State = B::State;

    type Error = C::Out;

    /// The left child accepts the container, and the right child accepts every container
    /// that the left child may pass.
    open spec fn accepts(&self, value: CheckState2<T, Pre>) -> bool {
        &&& self.first().accepts(value)
        &&& forall|mid: CheckState2<T, A::State>| #[trigger]
            self.first().yields(value, CheckOutcome::Passed(mid)) ==> self.second().accepts(mid)
    }

    /// The left child yields some outcome for the container; where that is a pass, the right
    /// child yields some outcome for the passed container; and `out` is what the join makes
    /// of them.
    open spec fn yields(
        &self,
        value: CheckState2<T, Pre>,
        out: CheckOutcome<T, B::State, C::Out>,
    ) -> bool {
        exists|first: CheckOutcome<T, A::State, A::Error>| #[trigger]
            self.first().yields(value, first) && match first {
                CheckOutcome::Passed(mid) => exists|second: CheckOutcome<T, B::State, B::Error>| #[trigger]
                    self.second().yields(mid, second) && and_joins::<_, _, _, _, _, C>(
                        first,
                        Some(second),
                        out,
                    ),
                CheckOutcome::Failed { .. } => and_joins::<_, _, B::State, _, B::Error, C>(
                    first,
                    None,
                    out,
                ),
            }
    }

    fn check(self, value: CheckState2<T, Pre>) -> (out: CheckOutcome<T, B::State, C::Out>) {
        let mut combine = C::build();
        match self.a.check(value) {
            CheckOutcome::Passed(v) => {
                let tmp = self.b.check(v);
                match tmp {
                    CheckOutcome::Passed(vv) => CheckOutcome::Passed(vv),
                    CheckOutcome::Failed { state, err } => {
                        combine.right(err);
                        CheckOutcome::Failed {
                            state: CheckState2 { value: state.value, _state: PhantomData },
                            err: combine.finish(),
                        }
                    },
                }
            },
            CheckOutcome::Failed { state, err } => {
                combine.left(err);
                CheckOutcome::Failed {
                    state: CheckState2 { value: state.value, _state: PhantomData },
                    err: combine.finish(),
                }
            },
        }
    }
}

/// The join of two checks that passes whenever the second one does. See [`Check2::or`].
pub struct Or<A, B, C> {
    a: A,
    b: B,
    _combine: PhantomData<C>,
}

impl<A, B, C> Or<A, B, C> {
    /// The left child, which runs first.
    pub closed spec fn first(&self) -> A {
        self.a
    }

    /// The right child, which runs on the container that the left child returned.
    pub closed spec fn second(&self) -> B {
        self.b
    }
}

impl<T, Pre, A, B, C> Check2<T, Pre> for Or<A, B, C> where
    A: Check2<T, Pre>,
    B: Check2<T, A::State>,
    C: CombineErrorBuilder<A::Error, B::Error>,
 {
    type State = B::State;

    type Error = C::Out;

    /// The left child accepts the container, and the right child accepts every container
    /// that the left child may return, passed or failed.
    open spec fn accepts(&self, value: CheckState2<T, Pre>) -> bool {
        &&& self.first().accepts(value)
        &&& forall|first: CheckOutcome<T, A::State, A::Error>| #[trigger]
            self.first().yields(value, first) ==> self.second().accepts(first.state())
    }

    /// The left child yields some outcome for the container, the right child yields some
    /// outcome for the container in it, and `out` is what the join makes of them.
    open spec fn yields(
        &self,
        value: CheckState2<T, Pre>,
        out: CheckOutcome<T, B::State, C::Out>,
    ) -> bool {
        exists|first: CheckOutcome<T, A::State, A::Error>| #[trigger]
            self.first().yields(value, first) && exists|
                second: CheckOutcome<T, B::State, B::Error>,
            | #[trigger]
                self.second().yields(first.state(), second) && or_joins::<_, _, _, _, _, C>(
                    first,
                    second,
                    out,
                )
    }

    fn check(self, value: CheckState2<T, Pre>) -> (out: CheckOutcome<T, B::State, C::Out>) {
        let mut combine = C::build();
        match self.a.check(value) {
            CheckOutcome::Passed(v) => {
                let tmp = self.b.check(v);
                match tmp {
                    CheckOutcome::Passed(vv) => CheckOutcome::Passed(vv),
                    CheckOutcome::Failed { state, err } => {
                        combine.right(err);
                        CheckOutcome::Failed {
                            state: CheckState2 { value: state.value, _state: PhantomData },
                            err: combine.finish(),
                        }
                    },
                }
            },
            CheckOutcome::Failed { state, err } => {
                let tmp = self.b.check(state);
                combine.left(err);
                match tmp {
                    CheckOutcome::Passed(vv) => CheckOutcome::Passed(vv),
                    CheckOutcome::Failed { state: rest, err: right_err } => {
                        combine.right(right_err);
                        CheckOutcome::Failed {
                            state: CheckState2 { value: rest.value, _state: PhantomData },
                            err: combine.finish(),
                        }
                    },
                }
            },
        }
    }
}

/// An `or` join passes wherever its right child can only pass, whatever the left child
/// returns: it carries a container that the right child passed.
pub proof fn lemma_or_right_pass_decides<T, Pre, A, B, C>(
    join: Or<A, B, C>,
    value: CheckState2<T, Pre>,
    out: CheckOutcome<T, B::State, C::Out>,
) where A: Check2<T, Pre>, B: Check2<T, A::State>, C: CombineErrorBuilder<A::Error, B::Error>
    requires
        forall|first: CheckOutcome<T, A::State, A::Error>, second: CheckOutcome<T, B::State, B::Error>|
            join.first().yields(value, first) && #[trigger] join.second().yields(
                first.state(),
                second,
            ) ==> second is Passed,
        join.yields(value, out),
    ensures
        out is Passed,
        exists|first: CheckOutcome<T, A::State, A::Error>, second: CheckOutcome<T, B::State, B::Error>|
            join.first().yields(value, first) && #[trigger] join.second().yields(
                first.state(),
                second,
            ) && out.state() == second.state(),
{
}

/// An `or` join fails wherever its right child can only fail. Its error is the merge of the
/// left error, if the left child failed, and then the right one.
pub proof fn lemma_or_right_failure_decides<T, Pre, A, B, C>(
    join: Or<A, B, C>,
    value: CheckState2<T, Pre>,
    out: CheckOutcome<T, B::State, C::Out>,
) where A: Check2<T, Pre>, B: Check2<T, A::State>, C: CombineErrorBuilder<A::Error, B::Error>
    requires
        forall|first: CheckOutcome<T, A::State, A::Error>, second: CheckOutcome<T, B::State, B::Error>|
            join.first().yields(value, first) && #[trigger] join.second().yields(
                first.state(),
                second,
            ) ==> second is Failed,
        join.yields(value, out),
    ensures
        out is Failed,
        exists|first: CheckOutcome<T, A::State, A::Error>, second: CheckOutcome<T, B::State, B::Error>|
            join.first().yields(value, first) && #[trigger] join.second().yields(
                first.state(),
                second,
            ) && second is Failed && out.state() == second.state() && merged::<
                A::Error,
                B::Error,
                C,
            >(first.error(), second.error(), out->err),
{
}

impl<T, Pre, State, F, E> Check2<T, Pre> for F where
    F: Fn(CheckState2<T, Pre>) -> CheckOutcome<T, State, E>,
 {
    type State = State;

    type Error = E;

    /// The function's own precondition.
    open spec fn accepts(&self, value: CheckState2<T, Pre>) -> bool {
        call_requires(*self, (value,))
    }

    /// The function's own postcondition.
    open spec fn yields(&self, value: CheckState2<T, Pre>, out: CheckOutcome<T, State, E>) -> bool {
        call_ensures(*self, (value,), out)
    }

    fn check(self, value: CheckState2<T, Pre>) -> (out: CheckOutcome<T, State, E>) {
        self(value)
    }
}

/// Token part: the check has run.
pub struct Checked;

/// Token part: the check has not run yet.
pub struct Unchecked;

/// The state token of the two sample checks: one part for each of them.
pub struct ErrState<CheckStartsWithHello, CheckMin6> {
    pub _check_starts_with_hello: PhantomData<CheckStartsWithHello>,
    pub _check_min6: PhantomData<CheckMin6>,
}

/// What the two sample checks report.
#[derive(Debug, PartialEq, Eq)]
pub enum ValidateErr2 {
    CheckStartsWithHelloErr,
    CheckMin6Err,
}

/// Passes the strings that start with `hello`; the others fail with
/// `CheckStartsWithHelloErr`. The string is handed on unchanged either way.
pub fn check_starts_with_hello(data: CheckState2<&str, ErrState<Unchecked, Unchecked>>) -> (out:
    CheckOutcome<&str, ErrState<Checked, Unchecked>, ValidateErr2>)
    ensures
        out.state().value == data.value,
        out is Passed <==> "hello"@.is_prefix_of(data.value@),
        out is Failed ==> out->err == ValidateErr2::CheckStartsWithHelloErr,
{
    if starts_with(data.value, "hello") {
        CheckOutcome::Passed(CheckState2 { value: data.value, _state: PhantomData })
    } else {
        CheckOutcome::Failed {
            state: CheckState2 { value: data.value, _state: PhantomData },
            err: ValidateErr2::CheckStartsWithHelloErr,
        }
    }
}

/// Passes the strings of more than six bytes; the others fail with `CheckMin6Err`. The
/// string is handed on unchanged either way.
pub fn check_min6(data: CheckState2<&str, ErrState<Checked, Unchecked>>) -> (out: CheckOutcome<
    &str,
    ErrState<Checked, Checked>,
    ValidateErr2,
>)
    ensures
        out.state().value == data.value,
        out is Passed <==> 6 < data.value.spec_bytes().len(),
        out is Failed ==> out->err == ValidateErr2::CheckMin6Err,
{
    if 6 < data.value.as_bytes().len() {
        CheckOutcome::Passed(CheckState2 { value: data.value, _state: PhantomData })
    } else {
        CheckOutcome::Failed {
            state: CheckState2 { value: data.value, _state: PhantomData },
            err: ValidateErr2::CheckMin6Err,
        }
    }
}

/// An accumulating strategy for two errors of one type: the merged error lists what was
/// recorded, oldest first.
pub struct CustomCombine<T> {
    data: Vec<T>,
}

impl<T> View for CustomCombine<T> {
    type V = Seq<T>;

    /// The errors recorded so far, oldest first.
    closed spec fn view(&self) -> Seq<T> {
        self.data@
    }
}

impl<E> CombineErrorBuilder<E, E> for CustomCombine<E> {
    type Combiner = CustomCombine<E>;

    type Out = Vec<E>;

    open spec fn fresh(c: CustomCombine<E>) -> bool {
        c@ == Seq::<E>::empty()
    }

    fn build() -> (c: CustomCombine<E>) {
        CustomCombine { data: Vec::new() }
    }
}

impl<T> CombineError<T, T> for CustomCombine<T> {
    type Out = Vec<T>;

    open spec fn records_left(&self, ea: T, next: Self) -> bool {
        next@ == self@.push(ea)
    }

    open spec fn records_right(&self, eb: T, next: Self) -> bool {
        next@ == self@.push(eb)
    }

    open spec fn finishes(&self, out: Vec<T>) -> bool {
        out@ == self@
    }

    fn left(&mut self, ea: T) {
        self.data.push(ea);
    }

    fn right(&mut self, eb: T) {
        self.data.push(eb);
    }

    fn finish(self) -> (out: Vec<T>) {
        self.data
    }
}

/// The strategy returns the errors that were recorded, the left one first.
pub proof fn lemma_custom_merged<E>(left: Option<E>, right: Option<E>, out: Vec<E>)
    requires
        merged::<E, E, CustomCombine<E>>(left, right, out),
    ensures
        left is Some || right is Some,
        out@ == recorded(left) + recorded(right),
{
    assert(out@ =~= recorded(left) + recorded(right));
}

} // verus!
