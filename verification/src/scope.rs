//! Running a body as a scope of its own, so that an early exit taken inside it
//! ends the body and not the caller.
//!
//! A body is a closure without arguments. Its contract, `body.ensures((), r)`,
//! holds of every value `r` it may leave with, whether it ran to its last
//! expression or left early through `?`.
use vstd::prelude::*;

verus! {

/// What [`fn_try`] may return once its body has left with `res`: the success
/// value itself, or whatever `recover` makes of the failure.
pub open spec fn recovered<T, E, H: FnOnce(E) -> T>(res: Result<T, E>, recover: H, out: T) -> bool {
    match res {
        Ok(value) => out == value,
        Err(failure) => recover.ensures((failure,), out),
    }
}

/// Runs `body` at once and hands back what it returned.
///
/// An early exit inside `body` (a `?` on `None` or `Err`) ends `body` only: the
/// absent or failed value comes back here as the result, and the caller goes
/// on. The result type `R` may be named by the caller or left to inference.
pub fn fn_expr<R, F: FnOnce() -> R>(body: F) -> (out: R)
    requires
        body.requires(()),
    ensures
        body.ensures((), out),
{
    body()
}

/// The same as [`fn_expr`], under the name for a body written as a block.
/// Prefer [`fn_expr`]: a block is an expression, so it takes blocks as well.
pub fn fn_block<R, F: FnOnce() -> R>(body: F) -> (out: R)
    requires
        body.requires(()),
    ensures
        body.ensures((), out),
{
    body()
}

/// Runs `body` at once. On success returns its value; on failure returns what
/// `recover` makes of the failure. The caller always gets a plain `T`.
///
/// `recover` has to accept every failure that `body` can leave with. The
/// error type that `?` converts to inside `body` is the one `recover` takes.
pub fn fn_try<T, E, F: FnOnce() -> Result<T, E>, H: FnOnce(E) -> T>(body: F, recover: H) -> (out: T)
    requires
        body.requires(()),
        forall|failure: E| body.ensures((), Err(failure)) ==> recover.requires((failure,)),
    ensures
        exists|res: Result<T, E>| #[trigger] body.ensures((), res) && recovered(res, recover, out),
{
    match body() {
        Ok(value) => value,
        Err(failure) => recover(failure),
    }
}

/// The exit of the body is the value of the call: whatever [`fn_expr`] or
/// [`fn_block`] returns, of any result type, is a value the body left with.
/// Nothing of the body's exit reaches the caller in any other way.
pub proof fn lemma_exit_becomes_value<R, F: FnOnce() -> R>(body: F)
    ensures
        forall|out: R| #[trigger] call_ensures(fn_expr::<R, F>, (body,), out) ==> body.ensures((), out),
        forall|out: R| #[trigger] call_ensures(fn_block::<R, F>, (body,), out) ==> body.ensures((), out),
{
}

/// A body in which a step is absent, so that it can only leave with `None`,
/// makes the call return `None`.
pub proof fn lemma_absent_step_gives_none<T, F: FnOnce() -> Option<T>>(body: F)
    requires
        forall|r: Option<T>| body.ensures((), r) ==> r is None,
    ensures
        forall|out: Option<T>| #[trigger]
            call_ensures(fn_expr::<Option<T>, F>, (body,), out) ==> out is None,
        forall|out: Option<T>| #[trigger]
            call_ensures(fn_block::<Option<T>, F>, (body,), out) ==> out is None,
{
}

/// A body in which a step fails, so that it can only leave with `Err`, makes
/// the call return `Err`, with a failure that the body left with.
pub proof fn lemma_failed_step_gives_err<T, E, F: FnOnce() -> Result<T, E>>(body: F)
    requires
        forall|r: Result<T, E>| body.ensures((), r) ==> r is Err,
    ensures
        forall|out: Result<T, E>| #[trigger]
            call_ensures(fn_expr::<Result<T, E>, F>, (body,), out) ==> out is Err && body.ensures(
                (),
                Err(out->Err_0),
            ),
        forall|out: Result<T, E>| #[trigger]
            call_ensures(fn_block::<Result<T, E>, F>, (body,), out) ==> out is Err && body.ensures(
                (),
                Err(out->Err_0),
            ),
{
}

/// A body that can leave with one value only, as one whose steps are all
/// present does, makes the call return that value: the same that calling the
/// closure directly gives, and the same that any other way of writing the
/// chain gives if it computes that value.
pub proof fn lemma_same_value_as_body<R, F: FnOnce() -> R>(body: F, value: R)
    requires
        forall|r: R| body.ensures((), r) ==> r == value,
    ensures
        forall|out: R| #[trigger] call_ensures(fn_expr::<R, F>, (body,), out) ==> out == value,
        forall|out: R| #[trigger] call_ensures(fn_block::<R, F>, (body,), out) ==> out == value,
{
}

/// When the body can only succeed with `value`, [`fn_try`] returns `value`,
/// whatever `recover` is.
pub proof fn lemma_try_success<T, E, F: FnOnce() -> Result<T, E>, H: FnOnce(E) -> T>(
    body: F,
    recover: H,
    value: T,
)
    requires
        forall|r: Result<T, E>| body.ensures((), r) ==> r == Ok::<T, E>(value),
    ensures
        forall|out: T| #[trigger]
            call_ensures(fn_try::<T, E, F, H>, (body, recover), out) ==> out == value,
{
}

/// When the body can only fail with `failure`, and `recover` maps `failure` to
/// `fallback`, [`fn_try`] returns `fallback`.
pub proof fn lemma_try_failure<T, E, F: FnOnce() -> Result<T, E>, H: FnOnce(E) -> T>(
    body: F,
    recover: H,
    failure: E,
    fallback: T,
)
    requires
        forall|r: Result<T, E>| body.ensures((), r) ==> r == Err::<T, E>(failure),
        forall|r: T| recover.ensures((failure,), r) ==> r == fallback,
    ensures
        forall|out: T| #[trigger]
            call_ensures(fn_try::<T, E, F, H>, (body, recover), out) ==> out == fallback,
{
}

} // verus!
