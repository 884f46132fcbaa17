//! Providers shared by key identifier, each behind its own lock.
use vstd::prelude::*;
use std::sync::{Arc, Mutex};
use crate::config::same_text;
use crate::provider::{AndroidProvider, texts};

verus! {

/// `std::sync::Mutex`, opaque: the registry only makes locks and hands them out.
#[verifier::external_type_specification]
#[verifier::external_body]
#[verifier::reject_recursive_types(T)]
pub struct ExMutex<T: ?Sized>(Mutex<T>);

/// Relies on `Mutex::new`, which wraps a value in a new, unlocked lock.
pub assume_specification<T>[ Mutex::<T>::new ](t: T) -> Mutex<T>;

/// A provider as callers share it: one lock per key identifier.
pub type SharedProvider = Arc<Mutex<AndroidProvider>>;

/// One provider for each key identifier asked for so far, kept for the
/// registry's lifetime.
pub struct ProviderRegistry {
    ids: Vec<String>,
    providers: Vec<SharedProvider>,
}

impl ProviderRegistry {
    /// The key identifiers, one per slot.
    pub closed spec fn key_ids(&self) -> Seq<Seq<char>> {
        texts(self.ids@)
    }

    /// The slot of each key identifier holds its provider, and no identifier
    /// has two slots.
    pub closed spec fn wf(&self) -> bool {
        &&& self.ids@.len() == self.providers@.len()
        &&& forall|i: int, j: int|
            0 <= i < j < self.key_ids().len() ==> #[trigger] self.key_ids()[i] != #[trigger] self.key_ids()[j]
    }

    /// The providers, one per slot.
    pub closed spec fn shared(&self) -> Seq<SharedProvider> {
        self.providers@
    }

    /// An empty registry.
    pub fn new() -> (r: ProviderRegistry)
        ensures
            r.wf(),
            r.key_ids().len() == 0,
    {
        ProviderRegistry { ids: Vec::new(), providers: Vec::new() }
    }

    /// The slot of `key_id`, if it has one.
    pub fn find(&self, key_id: &str) -> (r: Option<usize>)
        requires
            self.wf(),
        ensures
            r matches Some(i) ==> i < self.key_ids().len() && self.key_ids()[i as int] == key_id@,
            r is None ==> !self.key_ids().contains(key_id@),
    {
        let mut i: usize = 0;
        while i < self.ids.len()
            invariant
                self.wf(),
                i <= self.ids@.len(),
                forall|j: int| 0 <= j < i ==> self.key_ids()[j] != key_id@,
            decreases self.ids@.len() - i,
        {
            if same_text(self.ids[i].as_str(), key_id) {
                return Some(i);
            }
            i += 1;
        }
        None
    }

    /// The provider of `key_id`, made uninitialized in a new slot on the first
    /// request for that identifier, and the same one on every later request.
    /// Returns the slot.
    pub fn get_or_create(&mut self, key_id: &str) -> (r: usize)
        requires
            old(self).wf(),
        ensures
            final(self).wf(),
            r < final(self).key_ids().len(),
            final(self).key_ids()[r as int] == key_id@,
            old(self).key_ids().contains(key_id@) ==> {
                &&& final(self).key_ids() == old(self).key_ids()
                &&& final(self).shared() == old(self).shared()
            },
            !old(self).key_ids().contains(key_id@) ==> {
                &&& final(self).key_ids() == old(self).key_ids().push(key_id@)
                &&& final(self).shared().drop_last() == old(self).shared()
            },
    {
        match self.find(key_id) {
            Some(i) => i,
            None => {
                let fresh = Arc::new(Mutex::new(AndroidProvider::new(key_id.to_owned())));
                self.ids.push(key_id.to_owned());
                self.providers.push(fresh);
                assert(self.key_ids() =~= old(self).key_ids().push(key_id@));
                assert(self.providers@.drop_last() =~= old(self).shared());
                self.ids.len() - 1
            },
        }
    }

    /// The provider in slot `i`.
    pub fn provider(&self, i: usize) -> (r: &SharedProvider)
        requires
            self.wf(),
            i < self.key_ids().len(),
        ensures
            *r == self.shared()[i as int],
    {
        &self.providers[i]
    }
}

/// Callers that ask for one key identifier reach one slot, and so one provider
/// and one lock; callers that ask for different identifiers reach different
/// slots, and never wait on each other's lock.
pub proof fn lemma_one_slot_per_key(reg: ProviderRegistry, i: int, j: int)
    requires
        reg.wf(),
        0 <= i < reg.key_ids().len(),
        0 <= j < reg.key_ids().len(),
    ensures
        (reg.key_ids()[i] == reg.key_ids()[j]) <==> (i == j),
{
    if i < j {
        assert(reg.key_ids()[i] != reg.key_ids()[j]);
    } else if j < i {
        assert(reg.key_ids()[j] != reg.key_ids()[i]);
    }
}

} // verus!
