//! Trailing conversions of a plain value into `Some` or `Ok`.
use vstd::prelude::*;

verus! {

/// Moves a value into `Some`, written as a method so that it can close a call
/// chain. Every sized type has it.
pub trait IntoSome: Sized {
    /// Returns `Some(self)`.
    fn into_some(self) -> (wrapped: Option<Self>)
        ensures
            wrapped == Some(self),
    ;
}

impl<T> IntoSome for T {
    fn into_some(self) -> (wrapped: Option<Self>) {
        Some(self)
    }
}

/// Moves a value into `Ok`, written as a method so that it can close a call
/// chain. Every sized type has it, for every error type `E`; the error type is
/// the caller's choice and plays no part in the result.
pub trait IntoOk<E>: Sized {
    /// Returns `Ok(self)`.
    fn into_ok(self) -> (wrapped: Result<Self, E>)
        ensures
            wrapped == Ok::<Self, E>(self),
    ;
}

impl<T, E> IntoOk<E> for T {
    fn into_ok(self) -> (wrapped: Result<Self, E>) {
        Ok(self)
    }
}

/// Round trip through `Some`: whatever `into_some` returns for `value` is
/// present, and unwrapping it gives `value` back unchanged.
pub proof fn lemma_into_some_round_trip<T>(value: T)
    ensures
        forall|wrapped: Option<T>| #[trigger]
            call_ensures(<T as IntoSome>::into_some, (value,), wrapped) ==> wrapped is Some
                && wrapped.unwrap() == value,
{
}

/// Round trip through `Ok`: whatever `into_ok` returns for `value` is a
/// success, and its payload is `value` unchanged, whichever error type was
/// chosen.
pub proof fn lemma_into_ok_round_trip<T, E>(value: T)
    ensures
        forall|wrapped: Result<T, E>| #[trigger]
            call_ensures(<T as IntoOk<E>>::into_ok, (value,), wrapped) ==> wrapped is Ok
                && wrapped->Ok_0 == value,
{
}

} // verus!
