//! Scoped early exit for `Option` and `Result` chains.
//!
//! Inside a function, `?` leaves the whole function when a value is absent or
//! failed. Handing the chain to [`fn_expr`] as a closure confines that exit to
//! the closure: the caller gets the absent or failed value back as an ordinary
//! result and goes on.
//!
//! ```text
//! let o = Some("Foobar");
//! let s = fn_expr(|| o?.get(0..3)?.to_lowercase().into_some());
//! assert_eq!("foo", s.unwrap());
//! ```
//!
//! [`IntoSome`] and [`IntoOk`] wrap the last value of such a chain, so that it
//! has the container type the closure must return. [`fn_try`] goes one step
//! further and has the caller turn every failure into a success value.
//!
//! Every function here is specified through the contract of the closure it is
//! given: what a call returns is one of the values the closure may return, and
//! nothing else.
pub mod chain;
pub mod convert;
pub mod scope;

pub use convert::IntoOk;
pub use convert::IntoSome;
pub use scope::fn_block;
pub use scope::fn_expr;
pub use scope::fn_try;
