//! The resumable primitive: a two-state result with short-circuiting
//! composition.
//!
//! A workflow is re-invoked from its start whenever the host decides to retry;
//! the only thing that crosses the boundary is whether the run finished
//! (`Ready`) or has to be repeated later (`Pause`).
use core::convert::Infallible;
use core::ops::ControlFlow;
use vstd::prelude::*;

verus! {

/// Outcome of one run of a resumable operation.
#[derive(Debug, Clone, PartialEq, Eq)]
pub enum Resumable<T> {
    /// The operation is not complete; the caller has to be run again later.
    Pause,
    /// The operation is complete and produced a value.
    Ready(T),
}

impl<T> Resumable<T> {
    /// Wraps a finished value.
    pub fn from_output(output: T) -> (r: Self)
        ensures
            r == Resumable::Ready(output),
    {
        Resumable::Ready(output)
    }

    /// Splits a value into "stop here with `Pause`" and "go on with the
    /// inner value".
    pub fn branch(self) -> (flow: ControlFlow<Resumable<Infallible>, T>)
        ensures
            flow == match self {
                Resumable::Pause => ControlFlow::<Resumable<Infallible>, T>::Break(
                    Resumable::Pause,
                ),
                Resumable::Ready(inner) => ControlFlow::<Resumable<Infallible>, T>::Continue(
                    inner,
                ),
            },
    {
        match self {
            Resumable::Pause => ControlFlow::Break(Resumable::Pause),
            Resumable::Ready(inner) => ControlFlow::Continue(inner),
        }
    }

    /// Turns the early exit of a sub-operation into the early exit of the
    /// enclosing one. The residual can only ever be `Pause`.
    pub fn from_residual(residual: Resumable<Infallible>) -> (r: Self)
        ensures
            r == Resumable::<T>::Pause,
    {
        match residual {
            Resumable::Pause => Resumable::Pause,
            Resumable::Ready(_) => Resumable::Pause,
        }
    }

    /// `true` exactly for `Pause`.
    pub fn is_pause(&self) -> (b: bool)
        ensures
            b == (*self is Pause),
    {
        match self {
            Resumable::Pause => true,
            Resumable::Ready(_) => false,
        }
    }

    /// `true` exactly for `Ready`.
    pub fn is_ready(&self) -> (b: bool)
        ensures
            b == (*self is Ready),
    {
        match self {
            Resumable::Pause => false,
            Resumable::Ready(_) => true,
        }
    }

    /// Short-circuiting composition: runs `next` on the inner value of a
    /// `Ready`, and hands a `Pause` on without running anything.
    ///
    /// `next` only has to be callable when `self` is `Ready`: on `Pause` the
    /// step is never entered.
    pub fn and_then<U, F: FnOnce(T) -> Resumable<U>>(self, next: F) -> (r: Resumable<U>)
        requires
            self matches Resumable::Ready(inner) ==> next.requires((inner,)),
        ensures
            self is Pause ==> r == Resumable::<U>::Pause,
            self matches Resumable::Ready(inner) ==> next.ensures((inner,), r),
    {
        match self {
            Resumable::Pause => Resumable::Pause,
            Resumable::Ready(inner) => next(inner),
        }
    }

    /// Applies `f` to the value of a `Ready`; a `Pause` stays a `Pause` and
    /// `f` is not run.
    pub fn map<U, F: FnOnce(T) -> U>(self, f: F) -> (r: Resumable<U>)
        requires
            self matches Resumable::Ready(inner) ==> f.requires((inner,)),
        ensures
            self is Pause ==> r == Resumable::<U>::Pause,
            self matches Resumable::Ready(inner) ==> r is Ready && f.ensures((inner,), r->0),
    {
        match self {
            Resumable::Pause => Resumable::Pause,
            Resumable::Ready(inner) => Resumable::Ready(f(inner)),
        }
    }
}

} // verus!
