//! The chain that a scoped body most often holds, and its two spellings.
//!
//! The chain takes an optional `source`, applies a step `first` that may find
//! nothing, and then a step `second` that always gives a value. Written with
//! early exits and run through [`fn_expr`] it is
//!
//! ```text
//! fn_expr(|| second(first(source?)?).into_some())
//! ```
//!
//! and written with the combinators of `Option` it is
//!
//! ```text
//! source.and_then(first).map(second)
//! ```
//!
//! The laws below show that the two agree, on absent and on present values.
//! A body takes part in them through its contract. Given the clause
//!
//! ```text
//! || -> (out: Option<C>)
//!     ensures chain_outcome(source, first, second, out)
//! { second(first(source?)?).into_some() }
//! ```
//!
//! the closure's early exits are verified against [`chain_outcome`], and each
//! law then speaks of what [`fn_expr`] returns for that closure.
use crate::scope::fn_expr;
use vstd::prelude::*;

verus! {

/// Holds of `out` when the chain over `source`, `first` and `second` may leave
/// with `out`: `None` where `source` is absent or `first` finds nothing, and
/// otherwise `Some` of what `second` makes of what `first` found.
pub open spec fn chain_outcome<A, B, C, G: FnOnce(A) -> Option<B>, H: FnOnce(B) -> C>(
    source: Option<A>,
    first: G,
    second: H,
    out: Option<C>,
) -> bool {
    match source {
        None => out is None,
        Some(start) => exists|found: Option<B>| #[trigger]
            first.ensures((start,), found) && match found {
                None => out is None,
                Some(mid) => out is Some && second.ensures((mid,), out->0),
            },
    }
}

/// Holds of a step that is a function of its argument: no argument has two
/// different outcomes.
pub open spec fn single_valued<X, Y, S: FnOnce(X) -> Y>(step: S) -> bool {
    forall|x: X, y1: Y, y2: Y| #[trigger]
        step.ensures((x,), y1) && #[trigger] step.ensures((x,), y2) ==> y1 == y2
}

/// The combinator spelling computes the chain: what `map(second)` returns on
/// what `and_then(first)` returned for `source` is an outcome of the chain.
pub proof fn lemma_combinators_compute_chain<A, B, C, G: FnOnce(A) -> Option<B>, H: FnOnce(B) -> C>(
    source: Option<A>,
    first: G,
    second: H,
)
    ensures
        forall|found: Option<B>, combined: Option<C>| #[trigger]
            call_ensures(Option::<A>::and_then::<B, G>, (source, first), found) && #[trigger]
            call_ensures(Option::<B>::map::<C, H>, (found, second), combined) ==> chain_outcome(
                source,
                first,
                second,
                combined,
            ),
{
}

/// With steps that are functions, the chain has at most one outcome.
pub proof fn lemma_chain_outcome_unique<A, B, C, G: FnOnce(A) -> Option<B>, H: FnOnce(B) -> C>(
    source: Option<A>,
    first: G,
    second: H,
    out1: Option<C>,
    out2: Option<C>,
)
    requires
        single_valued(first),
        single_valued(second),
        chain_outcome(source, first, second, out1),
        chain_outcome(source, first, second, out2),
    ensures
        out1 == out2,
{
    if let Some(start) = source {
        let found1 = choose|found: Option<B>| #[trigger]
            first.ensures((start,), found) && match found {
                None => out1 is None,
                Some(mid) => out1 is Some && second.ensures((mid,), out1->0),
            };
        let found2 = choose|found: Option<B>| #[trigger]
            first.ensures((start,), found) && match found {
                None => out2 is None,
                Some(mid) => out2 is Some && second.ensures((mid,), out2->0),
            };
        assert(found1 == found2);
    }
}

/// The two spellings agree. Let `body` be the chain written with early exits,
/// and let its steps be functions. Then what [`fn_expr`] returns for `body` is
/// what `and_then(first)` followed by `map(second)` returns for `source`: the
/// same `None` where a step is absent, the same `Some` where all are present.
pub proof fn lemma_scoped_chain_equals_combinators<
    A,
    B,
    C,
    G: FnOnce(A) -> Option<B>,
    H: FnOnce(B) -> C,
    F: FnOnce() -> Option<C>,
>(source: Option<A>, first: G, second: H, body: F)
    requires
        forall|r: Option<C>| #[trigger] body.ensures((), r) ==> chain_outcome(source, first, second, r),
        single_valued(first),
        single_valued(second),
    ensures
        forall|found: Option<B>, combined: Option<C>, out: Option<C>| #[trigger]
            call_ensures(Option::<A>::and_then::<B, G>, (source, first), found) && #[trigger]
            call_ensures(Option::<B>::map::<C, H>, (found, second), combined) && #[trigger]
            call_ensures(fn_expr::<Option<C>, F>, (body,), out) ==> out == combined,
{
    assert forall|found: Option<B>, combined: Option<C>, out: Option<C>| #[trigger]
        call_ensures(Option::<A>::and_then::<B, G>, (source, first), found) && #[trigger]
        call_ensures(Option::<B>::map::<C, H>, (found, second), combined) && #[trigger]
        call_ensures(fn_expr::<Option<C>, F>, (body,), out) implies out == combined by {
        lemma_combinators_compute_chain(source, first, second);
        lemma_chain_outcome_unique(source, first, second, out, combined);
    }
}

/// An absent step ends the chain, and only the chain. Let `body` be the chain
/// written with early exits. Where `source` is absent, or `first` can find
/// nothing in it, [`fn_expr`] returns `None` for `body`.
pub proof fn lemma_scoped_chain_absent<
    A,
    B,
    C,
    G: FnOnce(A) -> Option<B>,
    H: FnOnce(B) -> C,
    F: FnOnce() -> Option<C>,
>(source: Option<A>, first: G, second: H, body: F)
    requires
        forall|r: Option<C>| #[trigger] body.ensures((), r) ==> chain_outcome(source, first, second, r),
        source matches Some(start) ==> forall|found: Option<B>|
            first.ensures((start,), found) ==> found is None,
    ensures
        forall|out: Option<C>| #[trigger]
            call_ensures(fn_expr::<Option<C>, F>, (body,), out) ==> out is None,
{
}

/// With every step present the chain gives its last value. Let `body` be the
/// chain written with early exits. Where `source` holds `start`, `first` can
/// only find `mid` in it and `second` can only make `last` of `mid`,
/// [`fn_expr`] returns `Some(last)` for `body`.
pub proof fn lemma_scoped_chain_present<
    A,
    B,
    C,
    G: FnOnce(A) -> Option<B>,
    H: FnOnce(B) -> C,
    F: FnOnce() -> Option<C>,
>(start: A, mid: B, last: C, first: G, second: H, body: F)
    requires
        forall|r: Option<C>| #[trigger]
            body.ensures((), r) ==> chain_outcome(Some(start), first, second, r),
        forall|found: Option<B>| first.ensures((start,), found) ==> found == Some(mid),
        forall|made: C| second.ensures((mid,), made) ==> made == last,
    ensures
        forall|out: Option<C>| #[trigger]
            call_ensures(fn_expr::<Option<C>, F>, (body,), out) ==> out == Some(last),
{
}

} // verus!
