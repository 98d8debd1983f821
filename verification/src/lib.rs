//! Shielding for asynchronous computations.
//!
//! In cooperative-cancellation runtimes, abandoning the code that awaits a
//! computation normally also stops the computation itself, because the two
//! share one suspension point. Shielding decouples them: the computation is
//! handed to the runtime's executor at call time and runs to completion on
//! its own, while the caller keeps only a thin adapter that can be awaited,
//! ignored or dropped without touching the computation's progress.
//!
//! The verified core works on plain values: the terminal [`Outcome`] of a
//! spawned computation, the two adapters that resolve it, and the [`Shield`]
//! capability relating a computation to the outcome its executor delivers.
//! The suspension points themselves cannot be expressed here; the executor
//! boundary stands in [`task`], and whoever awaits the executor's handle
//! feeds its report back in through [`task::outcome_of_join`].

use vstd::pervasive::unreached;
use vstd::prelude::*;

pub mod task;

verus! {

/// Why a spawned computation ended without producing its value: it crashed
/// (panicked) while running, or the executor stopped it from outside.
#[derive(Clone, Copy, Debug, PartialEq, Eq, Structural)]
pub enum AbortDescription {
    /// The computation itself panicked while running.
    Panicked,
    /// The executor forcibly stopped the task before it could finish.
    Cancelled,
}

/// The terminal result of a spawned computation: its value on a normal
/// return, or a description of the abnormal termination. A computation's own
/// errors, returned as ordinary values, flow through untouched inside
/// `Completed`; only a non-value termination becomes `Aborted`.
#[derive(Debug)]
pub enum Outcome<V> {
    /// The computation returned normally with this value.
    Completed(V),
    /// The computation ended abnormally, as described.
    Aborted(AbortDescription),
}

impl<V> Outcome<V> {
    /// The error-reporting reading of this outcome: the value, or the
    /// description of the abnormal termination, as plain data.
    pub open spec fn as_result(self) -> Result<V, AbortDescription> {
        match self {
            Outcome::Completed(v) => Ok(v),
            Outcome::Aborted(d) => Err(d),
        }
    }

    /// Whether the computation returned normally.
    pub fn is_completed(&self) -> (b: bool)
        ensures
            b == (self is Completed),
    {
        match self {
            Outcome::Completed(_) => true,
            Outcome::Aborted(_) => false,
        }
    }

    /// The crash-propagating reading of this outcome: the value of a normal
    /// return. An aborted outcome carries no value; the single place that
    /// re-raises an abnormal termination in the caller's context must branch
    /// on [`Outcome::into_result`] instead, so aborted outcomes are left out
    /// here by precondition and this function never panics.
    pub fn into_value(self) -> (v: V)
        requires
            self is Completed,
        ensures
            v == self->Completed_0,
    {
        match self {
            Outcome::Completed(v) => v,
            Outcome::Aborted(_) => unreached(),
        }
    }

    /// Surface this outcome as a plain `Result` for the caller to branch on:
    /// total, every outcome resolves, nothing is swallowed.
    pub fn into_result(self) -> (r: Result<V, AbortDescription>)
        ensures
            r == self.as_result(),
    {
        match self {
            Outcome::Completed(v) => Ok(v),
            Outcome::Aborted(d) => Err(d),
        }
    }
}

/// The adapter handed back by the crash-propagating variant. It stands for
/// the executor's handle on one spawned computation: dropping it never stops
/// the computation, and resolving it consumes it, so a resolved adapter
/// cannot be awaited again — the `Pending` to `Resolved` transition happens
/// at most once, by construction.
pub struct ShieldedFuture<V> {
    outcome: Outcome<V>,
}

impl<V> ShieldedFuture<V> {
    /// The outcome the executor delivers for the spawned computation.
    pub closed spec fn outcome(self) -> Outcome<V> {
        self.outcome
    }

    /// Resolve to the computation's value. An aborted outcome has no value:
    /// the crash-propagating variant re-raises it in the awaiting context,
    /// which is exactly the one input this verified function leaves out by
    /// precondition rather than panic on.
    pub fn resolve(self) -> (v: V)
        requires
            self.outcome() is Completed,
        ensures
            v == self.outcome()->Completed_0,
    {
        self.outcome.into_value()
    }
}

/// The adapter handed back by the error-reporting variant. Like
/// [`ShieldedFuture`] it stands for the executor's handle on one spawned
/// computation and resolves at most once, by consuming itself.
pub struct TryShieldedFuture<V> {
    outcome: Outcome<V>,
}

impl<V> TryShieldedFuture<V> {
    /// The outcome the executor delivers for the spawned computation.
    pub closed spec fn outcome(self) -> Outcome<V> {
        self.outcome
    }

    /// Resolve to the outcome as plain data: the value on a normal return,
    /// or the description of the abnormal termination for the caller to
    /// branch on. Total: every outcome resolves, none hangs or is lost.
    pub fn resolve(self) -> (r: Result<V, AbortDescription>)
        ensures
            r == self.outcome().as_result(),
    {
        self.outcome.into_result()
    }
}

/// A model of an asynchronous computation by its terminal behaviour: what it
/// does once driven to completion. The verified statements about shielding
/// are made over this model; a real future enters the same pipeline through
/// [`task::submit`], whose handle reports the same two terminal behaviours.
pub enum Computation<V> {
    /// The computation runs to its end and returns this value.
    Returns(V),
    /// The computation crashes (panics) instead of returning.
    Crashes,
}

impl<V> Computation<V> {
    /// The outcome the executor delivers for this computation: the value of
    /// a normal return, and a crash caught at the executor boundary as an
    /// `Aborted` outcome rather than an uncontrolled signal.
    pub open spec fn outcome(self) -> Outcome<V> {
        match self {
            Computation::Returns(v) => Outcome::Completed(v),
            Computation::Crashes => Outcome::Aborted(AbortDescription::Panicked),
        }
    }

    /// The executor's work on one spawned computation: drive it to its end
    /// and capture a crash as data instead of letting it escape.
    fn run(self) -> (o: Outcome<V>)
        ensures
            o == self.outcome(),
    {
        match self {
            Computation::Returns(v) => Outcome::Completed(v),
            Computation::Crashes => Outcome::Aborted(AbortDescription::Panicked),
        }
    }
}

/// The shielding capability: submit a computation to the executor so that
/// its execution is decoupled from whoever awaits it, and keep a thin
/// adapter in its place. The two operations spawn in exactly the same way
/// and differ only in how an abnormal termination is surfaced.
pub trait Shield: Sized {
    /// The value the computation produces when it terminates normally.
    type Value;

    /// The outcome the executor will deliver once this computation, spawned
    /// at shield time, has run to completion.
    spec fn spawned_outcome(self) -> Outcome<Self::Value>;

    /// Crash-propagating variant: the returned adapter resolves to the value
    /// itself, and an abnormal termination is re-raised at the caller's
    /// await point. Submission is eager — the computation is spawned here,
    /// at call time, whether or not the adapter is ever resolved.
    fn shield(self) -> (f: ShieldedFuture<Self::Value>)
        ensures
            f.outcome() == self.spawned_outcome(),
    ;

    /// Error-reporting variant: the returned adapter resolves to plain data
    /// that the caller inspects, with no re-raising. Submission is eager, as
    /// in [`Shield::shield`].
    fn try_shield(self) -> (f: TryShieldedFuture<Self::Value>)
        ensures
            f.outcome() == self.spawned_outcome(),
    ;
}

impl<V> Shield for Computation<V> {
    type Value = V;

    open spec fn spawned_outcome(self) -> Outcome<V> {
        self.outcome()
    }

    fn shield(self) -> (f: ShieldedFuture<V>) {
        ShieldedFuture { outcome: self.run() }
    }

    fn try_shield(self) -> (f: TryShieldedFuture<V>) {
        TryShieldedFuture { outcome: self.run() }
    }
}

/// Value passthrough: a computation that terminates normally with value `v`
/// is delivered by the executor as `Completed(v)`, so the crash-propagating
/// adapter for it resolves to exactly `v`.
pub proof fn lemma_value_passthrough<V>(c: Computation<V>, v: V)
    requires
        c == Computation::Returns(v),
    ensures
        c.spawned_outcome() is Completed,
        c.spawned_outcome()->Completed_0 == v,
{
}

/// Abnormal termination is surfaced, not swallowed: a computation that
/// crashes is delivered as an `Aborted` outcome, so the error-reporting
/// adapter for it resolves to the `Err` branch carrying the description —
/// the crash is neither lost nor turned into a value.
pub proof fn lemma_abort_surfaced<V>(c: Computation<V>)
    requires
        c is Crashes,
    ensures
        c.spawned_outcome() is Aborted,
        c.spawned_outcome().as_result() == Err::<V, AbortDescription>(AbortDescription::Panicked),
{
}

/// Equivalence of the two variants: both adapters carry the very outcome the
/// executor delivers for the computation, so resolving the crash-propagating
/// adapter yields exactly the value inside the `Ok` branch of the
/// error-reporting adapter's resolution, and the abnormal termination that
/// the crash-propagating variant re-raises is exactly the description inside
/// its `Err` branch.
pub proof fn lemma_shield_try_shield_equivalent<C: Shield>(c: C)
    ensures
        c.spawned_outcome() is Completed ==> c.spawned_outcome().as_result()
            == Ok::<C::Value, AbortDescription>(c.spawned_outcome()->Completed_0),
        c.spawned_outcome() is Aborted ==> c.spawned_outcome().as_result()
            == Err::<C::Value, AbortDescription>(c.spawned_outcome()->Aborted_0),
{
}

} // verus!
