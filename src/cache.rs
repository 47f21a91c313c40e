use vstd::prelude::*;

use crate::error::Error;

verus! {

/// A resolved entropy provider: the server-side crypto module, or a browser
/// crypto object. The handles are host references that only make sense in
/// the execution context that obtained them.
pub enum Provider<N, B> {
    /// A module with `randomFillSync`, which fills a buffer of any length.
    Node(N),
    /// An object with `getRandomValues`, which fills at most 65536 bytes per call.
    Browser(B),
}

/// The resolution cache of one execution context: empty until a provider is
/// resolved, then holding that provider for the rest of the context's life.
///
/// Only successes are kept: a failed resolution leaves the cache empty, so a
/// later request probes the host again.
pub struct ProviderCache<N, B> {
    slot: Option<Provider<N, B>>,
}

/// The cache contents after offering provider `p` to contents `c`: the first
/// provider stored stays.
pub open spec fn after_store<N, B>(c: Option<Provider<N, B>>, p: Provider<N, B>) -> Option<Provider<N, B>> {
    if c is Some {
        c
    } else {
        Some(p)
    }
}

impl<N, B> View for ProviderCache<N, B> {
    type V = Option<Provider<N, B>>;

    closed spec fn view(&self) -> Option<Provider<N, B>> {
        self.slot
    }
}

impl<N, B> ProviderCache<N, B> {
    /// An empty cache, as a context starts with.
    pub fn new() -> (r: Self)
        ensures
            r@ is None,
    {
        ProviderCache { slot: None }
    }

    /// Whether a provider has been resolved in this context, so that no
    /// probing is due.
    pub fn is_resolved(&self) -> (r: bool)
        ensures
            r == self@ is Some,
    {
        self.slot.is_some()
    }

    /// The cached provider, if any.
    pub fn provider(&self) -> (r: Option<&Provider<N, B>>)
        ensures
            r is Some <==> self@ is Some,
            r is Some ==> self@ == Some(*r.unwrap()),
    {
        match &self.slot {
            Some(p) => Some(p),
            None => None,
        }
    }

    /// Keeps `p` as this context's provider unless one is already kept.
    pub fn store(&mut self, p: Provider<N, B>)
        ensures
            final(self)@ == after_store(old(self)@, p),
    {
        if self.slot.is_none() {
            self.slot = Some(p);
        }
    }

    /// Records how a resolution ended: a provider is kept as with `store`; an
    /// error is handed back and leaves the cache as it was, so that the next
    /// request probes the host again.
    pub fn settle(&mut self, outcome: Result<Provider<N, B>, Error>) -> (r: Result<(), Error>)
        ensures
            match outcome {
                Ok(p) => r is Ok && final(self)@ == after_store(old(self)@, p),
                Err(e) => r == Err::<(), Error>(e) && final(self)@ == old(self)@,
            },
    {
        match outcome {
            Ok(p) => {
                self.store(p);
                Ok(())
            },
            Err(e) => Err(e),
        }
    }
}

/// Once a provider has been stored, the context is resolved for good: every
/// later store leaves that same provider, so no request probes the host again.
pub proof fn lemma_resolved_once<N, B>(c: Option<Provider<N, B>>, p: Provider<N, B>, q: Provider<N, B>)
    ensures
        after_store(c, p) is Some,
        after_store(after_store(c, p), q) == after_store(c, p),
        c is None ==> after_store(c, p) == Some(p),
{
}

} // verus!
