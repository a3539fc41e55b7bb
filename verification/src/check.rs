//! Checks on a value, and the `and` / `or` joins that compose them.
//!
//! A value travels through a pipeline inside a [`CheckState`], whose second type parameter
//! is a state token: a type that names the checks that have run so far. The token exists in
//! the types only. A check declares the token it expects and the token it hands on, so a
//! pipeline whose steps are out of order, or that skips a step, does not compile.
//!
//! What holds of every pipeline built here is proved in [`crate::laws`].
use vstd::prelude::*;
use core::marker::PhantomData;
use crate::cmberr::{CombineError, CombineErrorBuilder, merged};

verus! {

/// A value together with the token `S` of the checks it has been through.
///
/// The token has no run-time representation: two containers of one type are equal exactly
/// when their values are.
pub struct CheckState<T, S> {
    pub value: T,
    pub _state: PhantomData<S>,
}

impl<T, S> CheckState<T, S> {
    /// Wraps `value`, tagged with `S`.
    pub fn new(value: T) -> (state: Self)
        ensures
            state.value == value,
    {
        Self { value, _state: PhantomData }
    }
}

/// What a check returns. The container comes back on both paths, so the value is not lost
/// when a check fails.
pub enum CheckOutcome<T, State, E> {
    Passed(CheckState<T, State>),
    Failed { state: CheckState<T, State>, err: E },
}

impl<T, State, E> CheckOutcome<T, State, E> {
    /// The container that the outcome carries, on either path.
    pub open spec fn state(self) -> CheckState<T, State> {
        match self {
            CheckOutcome::Passed(state) => state,
            CheckOutcome::Failed { state, .. } => state,
        }
    }

    /// The error of a failure; `None` for a pass.
    pub open spec fn error(self) -> Option<E> {
        match self {
            CheckOutcome::Passed(_) => None,
            CheckOutcome::Failed { err, .. } => Some(err),
        }
    }

    /// Leaves the pipeline: the value of a pass, or the error of a failure. The value that
    /// failed is dropped.
    pub fn to_result(self) -> (result: Result<T, E>)
        ensures
            result == (match self {
                CheckOutcome::Passed(state) => Ok::<T, E>(state.value),
                CheckOutcome::Failed { err, .. } => Err::<T, E>(err),
            }),
    {
        match self {
            CheckOutcome::Passed(state) => Ok(state.value),
            CheckOutcome::Failed { state: _, err } => Err(err),
        }
    }

    /// Leaves the pipeline and keeps the value on both paths: the value of a pass, or the
    /// value that failed together with the error.
    pub fn to_result_with_value(self) -> (result: Result<T, (T, E)>)
        ensures
            result == (match self {
                CheckOutcome::Passed(state) => Ok::<T, (T, E)>(state.value),
                CheckOutcome::Failed { state, err } => Err::<T, (T, E)>((state.value, err)),
            }),
    {
        match self {
            CheckOutcome::Passed(state) => Ok(state.value),
            CheckOutcome::Failed { state, err } => Err((state.value, err)),
        }
    }
}

/// One validation step, or a pipeline of them: it takes a container tagged `PreState` and
/// returns an outcome tagged `PostState`.
///
/// `accepts` and `yields` are the contract of one implementation: `check` may be called on
/// the containers that the check accepts, and returns an outcome that it yields for that
/// container. Both default to `true`, which lets any input in and says nothing of the
/// outcome.
///
/// Any function from `CheckState<T, PreState>` to `CheckOutcome<T, PostState, E>` is a
/// check.
pub trait Check<T, PreState>: Sized {
    type PostState;

    type Error;

    /// Whether `check` may be called on `value`.
    open spec fn accepts(&self, value: CheckState<T, PreState>) -> bool {
        true
    }

    /// Whether `check` may return `out` for `value`.
    open spec fn yields(
        &self,
        value: CheckState<T, PreState>,
        out: CheckOutcome<T, Self::PostState, Self::Error>,
    ) -> bool {
        true
    }

    /// Applies the check to `value`, consuming both.
    fn check(self, value: CheckState<T, PreState>) -> (out: CheckOutcome<
        T,
        Self::PostState,
        Self::Error,
    >)
        requires
            self.accepts(value),
        ensures
            self.yields(value, out),
    ;

    /// The join that passes when `self` and then `b` pass, with errors merged by `C`.
    ///
    /// The join is a check when `b` is a check on `Self::PostState` and `C` is a strategy
    /// for the two error types.
    fn and<B, C>(self, b: B) -> (joined: And<Self, B, C>)
        ensures
            joined.first() == self,
            joined.second() == b,
    {
        And { a: self, b, _combine: PhantomData }
    }

    /// The join that runs `self` and then `b` even where `self` failed, with errors merged
    /// by `C`.
    ///
    /// The join is a check when `b` is a check on `Self::PostState` and `C` is a strategy
    /// for the two error types.
    fn or<B, C>(self, b: B) -> (joined: Or<Self, B, C>)
        ensures
            joined.first() == self,
            joined.second() == b,
    {
        Or { a: self, b, _combine: PhantomData }
    }
}

/// What an `and` join makes of the outcomes of its children: `first` from the left child
/// and, where the left child passed, `second` from the right one.
///
/// - Both passed: the join passes with the container of the right child.
/// - The left child passed and the right one failed: the join fails with the container of
///   the right child, and its error is the merge of the right error alone.
/// - The left child failed: the right child did not run. The join fails with the value of
///   the left child's container, and its error is the merge of the left error alone.
pub open spec fn and_joins<T, Mid, Post, EA, EB, C: CombineErrorBuilder<EA, EB>>(
    first: CheckOutcome<T, Mid, EA>,
    second: Option<CheckOutcome<T, Post, EB>>,
    out: CheckOutcome<T, Post, C::Out>,
) -> bool {
    match first {
        CheckOutcome::Passed(_) => {
            &&& second is Some
            &&& out.state() == second->0.state()
            &&& if second->0 is Passed {
                out is Passed
            } else {
                out is Failed && merged::<EA, EB, C>(None, second->0.error(), out->err)
            }
        },
        CheckOutcome::Failed { state, err } => {
            &&& second is None
            &&& out is Failed
            &&& out.state().value == state.value
            &&& merged::<EA, EB, C>(Some(err), None, out->err)
        },
    }
}

/// What an `or` join makes of the outcomes of its children: `first` from the left child and
/// `second` from the right one, which ran on the container that the left child returned.
///
/// The join carries the container of the right child. It passes when both children passed.
/// Otherwise it fails, and its error is the merge of the errors there are: the left one,
/// the right one, or the left and then the right one. So a failure of the left child is
/// surfaced even where the right child then passes.
pub open spec fn or_joins<T, Mid, Post, EA, EB, C: CombineErrorBuilder<EA, EB>>(
    first: CheckOutcome<T, Mid, EA>,
    second: CheckOutcome<T, Post, EB>,
    out: CheckOutcome<T, Post, C::Out>,
) -> bool {
    &&& out.state() == second.state()
    &&& if first is Passed && second is Passed {
        out is Passed
    } else {
        out is Failed && merged::<EA, EB, C>(first.error(), second.error(), out->err)
    }
}

/// The join of two checks that passes only when both pass. See [`Check::and`].
pub struct And<A, B, C> {
    a: A,
    b: B,
    _combine: PhantomData<C>,
}

impl<A, B, C> And<A, B, C> {
    /// The left child, which runs first.
    pub closed spec fn first(&self) -> A {
        self.a
    }

    /// The right child, which runs on what the left child passed.
    pub closed spec fn second(&self) -> B {
        self.b
    }
}

impl<T, PreState, A, B, C> Check<T, PreState> for And<A, B, C> where
    A: Check<T, PreState>,
    B: Check<T, A::PostState>,
    C: CombineErrorBuilder<A::Error, B::Error>,
 {
    type PostState = B::PostState;

    type Error = C::Out;

    /// The left child accepts the container, and the right child accepts every container
    /// that the left child may pass. Nothing is asked of the right child where the left
    /// one fails.
    open spec fn accepts(&self, value: CheckState<T, PreState>) -> bool {
        &&& self.first().accepts(value)
        &&& forall|mid: CheckState<T, A::PostState>| #[trigger]
            self.first().yields(value, CheckOutcome::Passed(mid)) ==> self.second().accepts(mid)
    }

    /// The left child yields some outcome for the container; where that is a pass, the right
    /// child yields some outcome for the passed container; and `out` is what the join makes
    /// of them.
    open spec fn yields(
        &self,
        value: CheckState<T, PreState>,
        out: CheckOutcome<T, B::PostState, C::Out>,
    ) -> bool {
        exists|first: CheckOutcome<T, A::PostState, A::Error>| #[trigger]
            self.first().yields(value, first) && match first {
                CheckOutcome::Passed(mid) => exists|
                    second: CheckOutcome<T, B::PostState, B::Error>,
                | #[trigger]
                    self.second().yields(mid, second) && and_joins::<_, _, _, _, _, C>(
                        first,
                        Some(second),
                        out,
                    ),
                CheckOutcome::Failed { .. } => and_joins::<_, _, B::PostState, _, B::Error, C>(
                    first,
                    None,
                    out,
                ),
            }
    }

    fn check(self, value: CheckState<T, PreState>) -> (out: CheckOutcome<T, B::PostState, C::Out>) {
        let mut combine = C::build();
        let first = self.a.check(value);
        match first {
            CheckOutcome::Passed(v) => {
                let second = self.b.check(v);
                match second {
                    CheckOutcome::Passed(vv) => CheckOutcome::Passed(vv),
                    CheckOutcome::Failed { state, err } => {
                        combine.right(err);
                        CheckOutcome::Failed {
                            state: CheckState { value: state.value, _state: PhantomData },
                            err: combine.finish(),
                        }
                    },
                }
            },
            CheckOutcome::Failed { state, err } => {
                combine.left(err);
                CheckOutcome::Failed {
                    state: CheckState { value: state.value, _state: PhantomData },
                    err: combine.finish(),
                }
            },
        }
    }
}

/// The join of two checks that runs both and surfaces every failure. See [`Check::or`].
pub struct Or<A, B, C> {
    a: A,
    b: B,
    _combine: PhantomData<C>,
}

impl<A, B, C> Or<A, B, C> {
    /// The left child, which runs first.
    pub closed spec fn first(&self) -> A {
        self.a
    }

    /// The right child, which runs on the container that the left child returned.
    pub closed spec fn second(&self) -> B {
        self.b
    }
}

impl<T, PreState, A, B, C> Check<T, PreState> for Or<A, B, C> where
    A: Check<T, PreState>,
    B: Check<T, A::PostState>,
    C: CombineErrorBuilder<A::Error, B::Error>,
 {
    type PostState = B::PostState;

    type Error = C::Out;

    /// The left child accepts the container, and the right child accepts every container
    /// that the left child may return, passed or failed.
    open spec fn accepts(&self, value: CheckState<T, PreState>) -> bool {
        &&& self.first().accepts(value)
        &&& forall|first: CheckOutcome<T, A::PostState, A::Error>| #[trigger]
            self.first().yields(value, first) ==> self.second().accepts(first.state())
    }

    /// The left child yields some outcome for the container, the right child yields some
    /// outcome for the container in it, and `out` is what the join makes of them.
    open spec fn yields(
        &self,
        value: CheckState<T, PreState>,
        out: CheckOutcome<T, B::PostState, C::Out>,
    ) -> bool {
        exists|first: CheckOutcome<T, A::PostState, A::Error>| #[trigger]
            self.first().yields(value, first) && exists|
                second: CheckOutcome<T, B::PostState, B::Error>,
            | #[trigger]
                self.second().yields(first.state(), second) && or_joins::<_, _, _, _, _, C>(
                    first,
                    second,
                    out,
                )
    }

    fn check(self, value: CheckState<T, PreState>) -> (out: CheckOutcome<T, B::PostState, C::Out>) {
        let mut combine = C::build();
        let first = self.a.check(value);
        match first {
            CheckOutcome::Passed(v) => {
                let second = self.b.check(v);
                match second {
                    CheckOutcome::Passed(vv) => CheckOutcome::Passed(vv),
                    CheckOutcome::Failed { state, err } => {
                        combine.right(err);
                        CheckOutcome::Failed {
                            state: CheckState { value: state.value, _state: PhantomData },
                            err: combine.finish(),
                        }
                    },
                }
            },
            CheckOutcome::Failed { state, err } => {
                combine.left(err);
                let second = self.b.check(state);
                match second {
                    CheckOutcome::Passed(vv) => {
                        CheckOutcome::Failed {
                            state: CheckState { value: vv.value, _state: PhantomData },
                            err: combine.finish(),
                        }
                    },
                    CheckOutcome::Failed { state: rest, err: right_err } => {
                        combine.right(right_err);
                        CheckOutcome::Failed {
                            state: CheckState { value: rest.value, _state: PhantomData },
                            err: combine.finish(),
                        }
                    },
                }
            },
        }
    }
}

impl<T, PreState, PostState, F, E> Check<T, PreState> for F where
    F: Fn(CheckState<T, PreState>) -> CheckOutcome<T, PostState, E>,
 {
    type PostState = PostState;

    type Error = E;

    /// The function's own precondition.
    open spec fn accepts(&self, value: CheckState<T, PreState>) -> bool {
        call_requires(*self, (value,))
    }

    /// The function's own postcondition.
    open spec fn yields(
        &self,
        value: CheckState<T, PreState>,
        out: CheckOutcome<T, PostState, E>,
    ) -> bool {
        call_ensures(*self, (value,), out)
    }

    fn check(self, value: CheckState<T, PreState>) -> (out: CheckOutcome<T, PostState, E>) {
        self(value)
    }
}

/// A check made of a predicate on the bare value: the value passes where the predicate
/// returns `Ok`, and fails with the predicate's error where it returns `Err`.
pub struct ResultCheck<F, T, PreState, PostState, E> {
    func: F,
    _pre: PhantomData<PreState>,
    _state: PhantomData<PostState>,
    _func_arg: PhantomData<T>,
    _func_ret: PhantomData<E>,
}

impl<F, T, PreState, PostState, E> ResultCheck<F, T, PreState, PostState, E> {
    /// The predicate that decides.
    pub closed spec fn predicate(&self) -> F {
        self.func
    }
}

/// Fixes the two state tokens of a [`ResultCheck`]; `build` then takes the predicate.
pub struct ResultCheckBuilder<PreState, PostState> {
    _pre_state: PhantomData<PreState>,
    _post_state: PhantomData<PostState>,
}

impl<PreState, PostState> ResultCheckBuilder<PreState, PostState> {
    /// The check from `PreState` to `PostState` that `func` decides.
    pub fn build<F, T, E>(func: F) -> (built: ResultCheck<F, T, PreState, PostState, E>) where
        F: Fn(&T) -> Result<(), E>,

        ensures
            built.predicate() == func,
    {
        let s = Self { _pre_state: PhantomData, _post_state: PhantomData };
        ResultCheck {
            func: func,
            _pre: s._pre_state,
            _state: s._post_state,
            _func_arg: PhantomData,
            _func_ret: PhantomData,
        }
    }
}

impl<T, PreState, PostState, F, E> Check<T, PreState> for ResultCheck<
    F,
    T,
    PreState,
    PostState,
    E,
> where F: Fn(&T) -> Result<(), E> {
    type PostState = PostState;

    type Error = E;

    /// The predicate's own precondition, on the value inside the container.
    open spec fn accepts(&self, value: CheckState<T, PreState>) -> bool {
        call_requires(self.predicate(), (&value.value,))
    }

    /// The outcome carries the value unchanged. It is a pass where the predicate may return
    /// `Ok` for the value, and a failure with error `e` where it may return `Err(e)`.
    open spec fn yields(
        &self,
        value: CheckState<T, PreState>,
        out: CheckOutcome<T, PostState, E>,
    ) -> bool {
        &&& out.state().value == value.value
        &&& call_ensures(
            self.predicate(),
            (&value.value,),
            match out.error() {
                None => Ok(()),
                Some(e) => Err(e),
            },
        )
    }

    fn check(self, value: CheckState<T, PreState>) -> (out: CheckOutcome<T, PostState, E>) {
        match (self.func)(&value.value) {
            Ok(_v) => CheckOutcome::Passed(CheckState::new(value.value)),
            Err(e) => CheckOutcome::Failed { state: CheckState::new(value.value), err: e },
        }
    }
}

} // verus!
