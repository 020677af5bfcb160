use vstd::prelude::*;

verus! {

/// An outcome that is already known when the operation is started (the fast
/// path). The foreign scheduler takes it on its first poll; a later poll finds
/// it exhausted.
pub struct ReadyOutcome<T, E> {
    outcome: Option<Result<T, E>>,
}

impl<T, E> ReadyOutcome<T, E> {
    /// The outcome still held, if it has not been taken.
    pub closed spec fn pending(&self) -> Option<Result<T, E>> {
        self.outcome
    }

    /// A completion already resolved with success.
    pub fn succeeded(value: T) -> (r: Self)
        ensures
            r.pending() == Some(Ok::<T, E>(value)),
    {
        ReadyOutcome { outcome: Some(Ok(value)) }
    }

    /// A completion already resolved with failure.
    pub fn failed(error: E) -> (r: Self)
        ensures
            r.pending() == Some(Err::<T, E>(error)),
    {
        ReadyOutcome { outcome: Some(Err(error)) }
    }

    /// Takes the outcome; `None` once it has been taken (exhausted).
    pub fn take(&mut self) -> (r: Option<Result<T, E>>)
        ensures
            r == old(self).pending(),
            final(self).pending() is None,
    {
        self.outcome.take()
    }

    /// Whether the outcome has been taken.
    pub fn is_exhausted(&self) -> (r: bool)
        ensures
            r == (self.pending() is None),
    {
        self.outcome.is_none()
    }
}

/// The resolution state of an outcome handed to a foreign scheduler and
/// resolved later, possibly from another thread: unresolved, then resolved
/// exactly once.
pub struct Completion<T, E> {
    resolved: Option<Result<T, E>>,
}

impl<T, E> Completion<T, E> {
    /// The outcome it was resolved with, if any.
    pub closed spec fn resolution(&self) -> Option<Result<T, E>> {
        self.resolved
    }

    /// A fresh, unresolved completion.
    pub fn new() -> (r: Self)
        ensures
            r.resolution() is None,
    {
        Completion { resolved: None }
    }

    /// Resolves with `outcome` if still unresolved and reports `true`. A second
    /// resolution is refused: the state is unchanged and `false` comes back,
    /// for the caller to log rather than propagate.
    pub fn resolve(&mut self, outcome: Result<T, E>) -> (r: bool)
        ensures
            r == (old(self).resolution() is None),
            r ==> final(self).resolution() == Some(outcome),
            !r ==> final(self).resolution() == old(self).resolution(),
    {
        if self.resolved.is_none() {
            self.resolved = Some(outcome);
            true
        } else {
            false
        }
    }

    /// Whether it has been resolved.
    pub fn is_resolved(&self) -> (r: bool)
        ensures
            r == (self.resolution() is Some),
    {
        self.resolved.is_some()
    }
}

} // verus!
