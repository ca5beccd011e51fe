use vstd::prelude::*;

verus! {

/// Holds a cleanup action that runs exactly once, when the guard goes out of scope.
pub struct ScopeGuard<F: FnOnce()> {
    cleanup: Option<F>,
}

impl<F: FnOnce()> ScopeGuard<F> {
    /// The cleanup that is still pending, if any.
    pub closed spec fn pending(&self) -> Option<F> {
        self.cleanup
    }

    /// Arms a guard with `cleanup`.
    pub fn new(cleanup: F) -> (r: Self)
        ensures
            r.pending() == Some(cleanup),
    {
        Self { cleanup: Some(cleanup) }
    }

    /// Runs the pending cleanup, if there is one, and disarms the guard.
    pub fn fire(&mut self)
        requires
            old(self).pending() matches Some(f) ==> f.requires(()),
        ensures
            old(self).pending() matches Some(f) ==> f.ensures((), ()),
            final(self).pending() is None,
    {
        let pending = self.cleanup.take();
        match pending {
            Some(cleanup) => {
                cleanup();
            },
            None => {},
        }
    }
}

} // verus!
