//! Strategies for merging the errors of two joined checks into one error.
//!
//! A join never looks inside an error. It hands the errors of its children to a combiner,
//! in the order in which the children failed, and returns what the combiner makes of them.
use vstd::prelude::*;

verus! {

/// An accumulator for the errors of the two children of a join.
///
/// A join builds one combiner per invocation, records the left error, the right error, or
/// the left error and then the right one, and consumes the combiner with `finish`.
///
/// The spec functions describe one implementation's behaviour as relations between the
/// combiner before a call, the arguments, and the combiner (or the output) after it. Each
/// defaults to `true`: an implementation that states nothing promises nothing.
pub trait CombineError<EA, EB>: Sized {
    /// The merged error.
    type Out;

    /// Whether recording `ea` as the left error may take the combiner from `self` to `next`.
    open spec fn records_left(&self, ea: EA, next: Self) -> bool {
        true
    }

    /// Whether recording `eb` as the right error may take the combiner from `self` to `next`.
    open spec fn records_right(&self, eb: EB, next: Self) -> bool {
        true
    }

    /// Whether `finish` may be called. It holds after every `left` and every `right`.
    open spec fn can_finish(&self) -> bool {
        true
    }

    /// Whether `finish` may return `out` in this state.
    open spec fn finishes(&self, out: Self::Out) -> bool {
        true
    }

    /// Records the error of the left child.
    fn left(&mut self, ea: EA)
        ensures
            old(self).records_left(ea, *final(self)),
            final(self).can_finish(),
    ;

    /// Records the error of the right child.
    fn right(&mut self, eb: EB)
        ensures
            old(self).records_right(eb, *final(self)),
            final(self).can_finish(),
    ;

    /// Consumes the combiner and returns the merged error.
    fn finish(self) -> (out: Self::Out)
        requires
            self.can_finish(),
        ensures
            self.finishes(out),
    ;
}

/// A merging strategy: the factory of the combiner that one invocation of a join uses.
///
/// `build` returns a new combiner on every call, so nothing recorded during one invocation
/// is seen by another.
pub trait CombineErrorBuilder<EA, EB> {
    type Combiner: CombineError<EA, EB, Out = Self::Out>;

    type Out;

    /// Whether `c` is a combiner as `build` returns it, with nothing recorded yet.
    open spec fn fresh(c: Self::Combiner) -> bool {
        true
    }

    fn build() -> (c: Self::Combiner)
        ensures
            Self::fresh(c),
    ;
}

/// `out` may come out of strategy `C` when a fresh combiner records `ea` with `left` and is
/// then finished.
pub open spec fn left_only<EA, EB, C: CombineErrorBuilder<EA, EB>>(ea: EA, out: C::Out) -> bool {
    exists|c0: C::Combiner, c1: C::Combiner|
        C::fresh(c0) && #[trigger] c0.records_left(ea, c1) && c1.finishes(out)
}

/// `out` may come out of strategy `C` when a fresh combiner records `eb` with `right` and is
/// then finished.
pub open spec fn right_only<EA, EB, C: CombineErrorBuilder<EA, EB>>(eb: EB, out: C::Out) -> bool {
    exists|c0: C::Combiner, c1: C::Combiner|
        C::fresh(c0) && #[trigger] c0.records_right(eb, c1) && c1.finishes(out)
}

/// `out` may come out of strategy `C` when a fresh combiner records `ea` with `left`, then
/// `eb` with `right`, and is then finished.
pub open spec fn left_then_right<EA, EB, C: CombineErrorBuilder<EA, EB>>(
    ea: EA,
    eb: EB,
    out: C::Out,
) -> bool {
    exists|c0: C::Combiner, c1: C::Combiner, c2: C::Combiner|
        C::fresh(c0) && #[trigger] c0.records_left(ea, c1) && #[trigger] c1.records_right(eb, c2)
            && c2.finishes(out)
}

/// `out` is a merge, by strategy `C`, of the errors that are present: one fresh combiner,
/// one `left` call if `left` is `Some`, then one `right` call if `right` is `Some`, then
/// `finish`. Nothing is a merge of no error at all: a join finishes a combiner only after it
/// has recorded something.
pub open spec fn merged<EA, EB, C: CombineErrorBuilder<EA, EB>>(
    left: Option<EA>,
    right: Option<EB>,
    out: C::Out,
) -> bool {
    match (left, right) {
        (Some(ea), None) => left_only::<EA, EB, C>(ea, out),
        (None, Some(eb)) => right_only::<EA, EB, C>(eb, out),
        (Some(ea), Some(eb)) => left_then_right::<EA, EB, C>(ea, eb, out),
        (None, None) => false,
    }
}

/// The sequence with `e` as its only entry, or the empty one.
pub open spec fn recorded<E>(e: Option<E>) -> Seq<E> {
    match e {
        Some(e) => seq![e],
        None => Seq::empty(),
    }
}

/// The single-slot strategy: the combiner keeps the error recorded last and forgets the
/// one before. Both children have the error type `E`, which is also the merged error.
pub struct DefaultCombine<E> {
    data: Option<E>,
}

impl<E> DefaultCombine<E> {
    /// The error recorded last, if any.
    pub closed spec fn slot(&self) -> Option<E> {
        self.data
    }
}

impl<E> CombineErrorBuilder<E, E> for DefaultCombine<E> {
    type Combiner = Self;

    type Out = E;

    open spec fn fresh(c: Self) -> bool {
        c.slot() is None
    }

    fn build() -> (c: Self) {
        DefaultCombine { data: None }
    }
}

impl<E> CombineError<E, E> for DefaultCombine<E> {
    type Out = E;

    open spec fn records_left(&self, ea: E, next: Self) -> bool {
        next.slot() == Some(ea)
    }

    open spec fn records_right(&self, eb: E, next: Self) -> bool {
        next.slot() == Some(eb)
    }

    open spec fn can_finish(&self) -> bool {
        self.slot() is Some
    }

    open spec fn finishes(&self, out: E) -> bool {
        self.slot() == Some(out)
    }

    fn left(&mut self, ea: E) {
        self.data = Some(ea);
    }

    fn right(&mut self, eb: E) {
        self.data = Some(eb);
    }

    fn finish(self) -> (out: E) {
        self.data.unwrap()
    }
}

/// The accumulating strategy: the combiner appends every recorded error to a sequence.
///
/// It merges two errors of type `E`, and also a `Vec<E>` on the left with an `E` on the
/// right. In the second form the entries of the left error are appended one by one, so a
/// chain of joins yields one flat `Vec<E>`, however long the chain is.
pub struct VecCombine<T> {
    data: Vec<T>,
}

impl<T> View for VecCombine<T> {
    type V = Seq<T>;

    /// The errors recorded so far, oldest first.
    closed spec fn view(&self) -> Seq<T> {
        self.data@
    }
}

impl<E> CombineErrorBuilder<E, E> for VecCombine<E> {
    type Combiner = Self;

    type Out = Vec<E>;

    open spec fn fresh(c: Self) -> bool {
        c@ == Seq::<E>::empty()
    }

    fn build() -> (c: Self) {
        VecCombine { data: Vec::new() }
    }
}

impl<E> CombineErrorBuilder<Vec<E>, E> for VecCombine<E> {
    type Combiner = Self;

    type Out = Vec<E>;

    open spec fn fresh(c: Self) -> bool {
        c@ == Seq::<E>::empty()
    }

    fn build() -> (c: Self) {
        VecCombine { data: Vec::new() }
    }
}

impl<T> CombineError<T, T> for VecCombine<T> {
    type Out = Vec<T>;

    open spec fn records_left(&self, ea: T, next: Self) -> bool {
        next@ == self@.push(ea)
    }

    open spec fn records_right(&self, eb: T, next: Self) -> bool {
        next@ == self@.push(eb)
    }

    open spec fn finishes(&self, out: Vec<T>) -> bool {
        out@ == self@
    }

    fn left(&mut self, ea: T) {
        self.data.push(ea);
    }

    fn right(&mut self, eb: T) {
        self.data.push(eb);
    }

    fn finish(self) -> (out: Vec<T>) {
        self.data
    }
}

impl<E> CombineError<Vec<E>, E> for VecCombine<E> {
    type Out = Vec<E>;

    open spec fn records_left(&self, ea: Vec<E>, next: Self) -> bool {
        next@ == self@ + ea@
    }

    open spec fn records_right(&self, eb: E, next: Self) -> bool {
        next@ == self@.push(eb)
    }

    open spec fn finishes(&self, out: Vec<E>) -> bool {
        out@ == self@
    }

    fn left(&mut self, ea: Vec<E>) {
        let mut ea = ea;
        self.data.append(&mut ea);
    }

    fn right(&mut self, eb: E) {
        self.data.push(eb);
    }

    fn finish(self) -> (out: Vec<E>) {
        self.data
    }
}

/// The single-slot strategy returns the right error where there is one, else the left one.
pub proof fn lemma_default_merged<E>(left: Option<E>, right: Option<E>, out: E)
    requires
        merged::<E, E, DefaultCombine<E>>(left, right, out),
    ensures
        left is Some || right is Some,
        out == (match right {
            Some(eb) => eb,
            None => left->0,
        }),
{
}

/// The accumulating strategy returns the errors that were recorded, the left one first.
pub proof fn lemma_vec_merged<E>(left: Option<E>, right: Option<E>, out: Vec<E>)
    requires
        merged::<E, E, VecCombine<E>>(left, right, out),
    ensures
        left is Some || right is Some,
        out@ == recorded(left) + recorded(right),
{
    assert(out@ =~= recorded(left) + recorded(right));
}

/// With a sequence on the left, the accumulating strategy returns its entries, followed by
/// the right error where there is one.
pub proof fn lemma_vec_flat_merged<E>(left: Option<Vec<E>>, right: Option<E>, out: Vec<E>)
    requires
        merged::<Vec<E>, E, VecCombine<E>>(left, right, out),
    ensures
        left is Some || right is Some,
        out@ == (match left {
            Some(errs) => errs@,
            None => Seq::empty(),
        }) + recorded(right),
{
    assert(out@ =~= (match left {
        Some(errs) => errs@,
        None => Seq::empty(),
    }) + recorded(right));
}

/// Two optional errors are alike: both absent, or both present and related by `same`.
pub open spec fn alike<E>(x: Option<E>, y: Option<E>, same: spec_fn(E, E) -> bool) -> bool {
    match (x, y) {
        (None, None) => true,
        (Some(e), Some(f)) => same(e, f),
        _ => false,
    }
}

/// The relation between two vectors of one length whose entries are related by `same`, place
/// by place.
pub open spec fn same_entries<E>(same: spec_fn(E, E) -> bool) -> spec_fn(Vec<E>, Vec<E>) -> bool {
    |a: Vec<E>, b: Vec<E>|
        a@.len() == b@.len() && forall|i: int| 0 <= i < a@.len() ==> #[trigger] same(a@[i], b@[i])
}

/// Strategy `C` is deterministic up to the three relations: whenever it merges alike errors
/// twice, the two merged errors are related by `same_out`.
pub open spec fn merges_alike<EA, EB, C: CombineErrorBuilder<EA, EB>>(
    same_left: spec_fn(EA, EA) -> bool,
    same_right: spec_fn(EB, EB) -> bool,
    same_out: spec_fn(C::Out, C::Out) -> bool,
) -> bool {
    forall|
        left1: Option<EA>,
        right1: Option<EB>,
        out1: C::Out,
        left2: Option<EA>,
        right2: Option<EB>,
        out2: C::Out,
    |
        #![trigger merged::<EA, EB, C>(left1, right1, out1), merged::<EA, EB, C>(left2, right2, out2)]
        alike(left1, left2, same_left) && alike(right1, right2, same_right) && merged::<EA, EB, C>(
            left1,
            right1,
            out1,
        ) && merged::<EA, EB, C>(left2, right2, out2) ==> same_out(out1, out2)
}

/// The single-slot strategy is deterministic up to any relation on its errors.
pub proof fn lemma_default_merges_alike<E>(same: spec_fn(E, E) -> bool)
    ensures
        merges_alike::<E, E, DefaultCombine<E>>(same, same, same),
{
    assert forall|
        left1: Option<E>,
        right1: Option<E>,
        out1: E,
        left2: Option<E>,
        right2: Option<E>,
        out2: E,
    |
        alike(left1, left2, same) && alike(right1, right2, same) && #[trigger] merged::<
            E,
            E,
            DefaultCombine<E>,
        >(left1, right1, out1) && #[trigger] merged::<E, E, DefaultCombine<E>>(
            left2,
            right2,
            out2,
        ) implies same(out1, out2) by {
        lemma_default_merged(left1, right1, out1);
        lemma_default_merged(left2, right2, out2);
    }
}

/// The accumulating strategy is deterministic on two single errors: the merged vectors have
/// the same entries, up to any relation on the errors.
pub proof fn lemma_vec_merges_alike<E>(same: spec_fn(E, E) -> bool)
    ensures
        merges_alike::<E, E, VecCombine<E>>(same, same, same_entries(same)),
{
    assert forall|
        left1: Option<E>,
        right1: Option<E>,
        out1: Vec<E>,
        left2: Option<E>,
        right2: Option<E>,
        out2: Vec<E>,
    |
        alike(left1, left2, same) && alike(right1, right2, same) && #[trigger] merged::<
            E,
            E,
            VecCombine<E>,
        >(left1, right1, out1) && #[trigger] merged::<E, E, VecCombine<E>>(
            left2,
            right2,
            out2,
        ) implies same_entries(same)(out1, out2) by {
        lemma_vec_merged(left1, right1, out1);
        lemma_vec_merged(left2, right2, out2);
    }
}

/// The accumulating strategy is deterministic on a vector and a single error: the merged
/// vectors have the same entries, up to any relation on the errors.
pub proof fn lemma_vec_flat_merges_alike<E>(same: spec_fn(E, E) -> bool)
    ensures
        merges_alike::<Vec<E>, E, VecCombine<E>>(same_entries(same), same, same_entries(same)),
{
    assert forall|
        left1: Option<Vec<E>>,
        right1: Option<E>,
        out1: Vec<E>,
        left2: Option<Vec<E>>,
        right2: Option<E>,
        out2: Vec<E>,
    |
        alike(left1, left2, same_entries(same)) && alike(right1, right2, same)
            && #[trigger] merged::<Vec<E>, E, VecCombine<E>>(left1, right1, out1)
            && #[trigger] merged::<Vec<E>, E, VecCombine<E>>(
            left2,
            right2,
            out2,
        ) implies same_entries(same)(out1, out2) by {
        lemma_vec_flat_merged(left1, right1, out1);
        lemma_vec_flat_merged(left2, right2, out2);
    }
}

} // verus!
