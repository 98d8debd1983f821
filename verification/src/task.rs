//! The boundary to the real executor: tokio's runtime.
//!
//! Verus cannot express the suspension points of async code, so the spawn
//! call stands here behind trusted declarations, and awaiting the returned
//! handle is the caller's business. The caller feeds the handle's report
//! back into the verified logic through [`outcome_of_join`], which is
//! verified for every value the executor can hand back.

use vstd::prelude::*;

use crate::AbortDescription;
use crate::Outcome;

verus! {

#[verifier::external_type_specification]
#[verifier::external_body]
pub struct ExRuntimeHandle(tokio::runtime::Handle);

#[verifier::external_type_specification]
#[verifier::external_body]
#[verifier::reject_recursive_types(T)]
pub struct ExJoinHandle<T>(tokio::task::JoinHandle<T>);

#[verifier::external_type_specification]
#[verifier::external_body]
pub struct ExJoinError(tokio::task::JoinError);

/// Relies on tokio::runtime::Handle::spawn: the computation starts running
/// on the executor immediately, at this call, whether or not the returned
/// handle is ever awaited, and dropping the handle detaches the task without
/// stopping it. Awaiting the handle yields the executor's report: the
/// computation's value, or a join error for an abnormal termination.
#[verifier::external_body]
pub fn submit<F>(
    executor: &tokio::runtime::Handle,
    computation: F,
) -> (h: tokio::task::JoinHandle<F::Output>) where
    F: core::future::Future + Send + 'static,
    F::Output: Send + 'static,
{
    executor.spawn(computation)
}

/// Relies on tokio::task::JoinError::is_panic: true exactly when the task
/// ended by panicking rather than by being cancelled by the executor.
pub assume_specification[ tokio::task::JoinError::is_panic ](
    e: &tokio::task::JoinError,
) -> (r: bool);

/// Read the executor's report on a finished task as an [`Outcome`]: a value
/// becomes `Completed` with that very value, and a join error — whichever
/// abnormal termination it describes — becomes `Aborted`, never a value and
/// never a hang.
pub fn outcome_of_join<V>(report: Result<V, tokio::task::JoinError>) -> (o: Outcome<V>)
    ensures
        report matches Ok(v) ==> o == Outcome::<V>::Completed(v),
        report is Err ==> o is Aborted,
{
    match report {
        Ok(v) => Outcome::Completed(v),
        Err(e) => {
            if e.is_panic() {
                Outcome::Aborted(AbortDescription::Panicked)
            } else {
                Outcome::Aborted(AbortDescription::Cancelled)
            }
        },
    }
}

} // verus!
