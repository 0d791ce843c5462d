//! Credentials resolved through a callback into the host app, with a
//! cache so that each provider is asked once.
//!
//! The app registers a resolver; resolving a provider's credential first
//! looks in the cache, then asks the resolver. A blank answer means "no
//! credential" and is not cached; any other answer is cached trimmed.
//! Registering or unregistering a resolver clears the cache.

use crate::strmap::StringMap;
use crate::text::{chars_of, string_of, trim, trim_chars};
use vstd::prelude::*;

verus! {

/// Resolves a provider's credential; implemented by the host app.
pub trait FfiCredentialResolver {
    /// The credential for `provider`, or an empty string when there is
    /// none.
    fn resolve_credential(&self, provider: String) -> String;
}

/// The credential cache and the registered resolver.
pub struct CredentialBroker<R: FfiCredentialResolver> {
    /// The resolver, once registered.
    pub resolver: Option<R>,
    /// Credentials resolved so far, by provider.
    pub cache: StringMap,
}

/// What an answer of the resolver yields: nothing when it is blank, else
/// the answer trimmed.
pub open spec fn accepted_credential(answer: Seq<char>) -> Option<Seq<char>> {
    if trim(answer).len() == 0 {
        None
    } else {
        Some(trim(answer))
    }
}

impl<R: FfiCredentialResolver> CredentialBroker<R> {
    /// The broker's invariant: the cache is a well-formed map.
    pub open spec fn wf(&self) -> bool {
        self.cache.wf()
    }

    /// A broker with no resolver and an empty cache.
    pub fn new() -> (b: Self)
        ensures
            b.wf(),
            b.resolver is None,
            b.cache@ == Map::<Seq<char>, Seq<char>>::empty(),
    {
        CredentialBroker { resolver: None, cache: StringMap::new() }
    }

    /// Registers a resolver, replacing any earlier one, and clears the
    /// cache.
    pub fn register(&mut self, resolver: R)
        ensures
            final(self).wf(),
            final(self).resolver == Some(resolver),
            final(self).cache@ == Map::<Seq<char>, Seq<char>>::empty(),
    {
        self.resolver = Some(resolver);
        self.cache.clear();
    }

    /// Removes the resolver and clears the cache.
    pub fn unregister(&mut self)
        ensures
            final(self).wf(),
            final(self).resolver is None,
            final(self).cache@ == Map::<Seq<char>, Seq<char>>::empty(),
    {
        self.resolver = None;
        self.cache.clear();
    }

    /// Clears the cache, keeping the resolver.
    pub fn clear_cache(&mut self)
        ensures
            final(self).wf(),
            final(self).resolver == old(self).resolver,
            final(self).cache@ == Map::<Seq<char>, Seq<char>>::empty(),
    {
        self.cache.clear();
    }

    /// Takes the resolver's answer for `provider`: a blank answer yields
    /// nothing and leaves the cache as it was; any other answer is cached
    /// trimmed and returned.
    pub fn accept_answer(&mut self, provider: &str, answer: String) -> (r: Option<String>)
        requires
            old(self).wf(),
        ensures
            final(self).wf(),
            final(self).resolver == old(self).resolver,
            crate::text::opt_view(r) == accepted_credential(answer@),
            match accepted_credential(answer@) {
                None => final(self).cache@ == old(self).cache@,
                Some(t) => final(self).cache@ == old(self).cache@.insert(provider@, t),
            },
    {
        let trimmed = string_of(trim_chars(chars_of(answer.as_str()).as_slice()).as_slice());
        if trimmed.as_str().is_empty() {
            return None;
        }
        self.cache.insert(provider, trimmed.as_str());
        Some(trimmed)
    }

    /// Resolves a provider's credential: from the cache when it holds one;
    /// otherwise from the resolver, when one is registered, through
    /// [`Self::accept_answer`]; otherwise nothing.
    pub fn resolve(&mut self, provider: &str) -> (r: Option<String>)
        requires
            old(self).wf(),
        ensures
            final(self).wf(),
            final(self).resolver == old(self).resolver,
            old(self).cache@.contains_key(provider@) ==> (r matches Some(c) && c@ == old(
                self,
            ).cache@[provider@] && final(self).cache@ == old(self).cache@),
            (!old(self).cache@.contains_key(provider@) && old(self).resolver is None) ==> (r is None
                && final(self).cache@ == old(self).cache@),
            !old(self).cache@.contains_key(provider@) ==> match r {
                None => final(self).cache@ == old(self).cache@,
                Some(c) => trim(c@) == c@ && c@.len() > 0 && final(self).cache@ == old(
                    self,
                ).cache@.insert(provider@, c@),
            },
    {
        match self.cache.get(provider) {
            Some(c) => {
                return Some(c);
            },
            None => {},
        }
        let answer = match &self.resolver {
            Some(res) => res.resolve_credential(crate::text::owned(provider)),
            None => {
                return None;
            },
        };
        let r = self.accept_answer(provider, answer);
        proof {
            crate::text::lemma_trim_idempotent(answer@);
        }
        r
    }
}

} // verus!
