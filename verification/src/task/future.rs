//! Futures composed without suspending: the types of `std` that a future's `poll`
//! names, and the one combinator that the task functions need.

use futures_util::FutureExt;
use std::future::Future;
use vstd::future::FutureAdditionalSpecFns;
use vstd::prelude::*;

verus! {

/// `std::pin::Pin`, carried through as it is.
#[verifier::external_type_specification]
#[verifier::external_body]
#[verifier::reject_recursive_types(P)]
pub struct ExPin<P>(std::pin::Pin<P>);

/// `std::task::Context`, carried through as it is.
#[verifier::external_type_specification]
#[verifier::external_body]
pub struct ExContext<'a>(std::task::Context<'a>);

/// `std::task::Poll`, carried through as it is.
#[verifier::external_type_specification]
#[verifier::external_body]
#[verifier::reject_recursive_types(T)]
pub struct ExPoll<T>(std::task::Poll<T>);

/// `futures_util::future::Map`, the future that [`map_future`] returns.
#[verifier::external_type_specification]
#[verifier::external_body]
#[verifier::reject_recursive_types(Fut)]
#[verifier::reject_recursive_types(F)]
pub struct ExMap<Fut, F>(futures_util::future::Map<Fut, F>);

/// `futures_util::FutureExt::map`: a future that yields what `f` returns for the
/// output of `future`. The source applies `f` once, to that output, when `future`
/// has completed.
#[verifier::external_body]
pub(crate) fn map_future<Fut, F, U>(future: Fut, f: F) -> (mapped: futures_util::future::Map<
    Fut,
    F,
>)
    where
        Fut: Future,
        F: FnOnce(Fut::Output) -> U,
    requires
        forall|output: Fut::Output| call_requires(f, (output,)),
    ensures
        call_ensures(f, (future@,), mapped@),
{
    future.map(f)
}

} // verus!
