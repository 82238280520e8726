//! The conversion registry: the persistent binding of each wrapped-asset
//! identity to the native denomination this engine minted for it.
//!
//! Entries are created at most once per identity and never deleted or
//! overwritten; the registry is the engine's memory that a native
//! counterpart already exists. Viewed as a `Map` from identity bytes to
//! denomination bytes.

use vstd::prelude::*;
use crate::bytes::{bytes_eq, copy_bytes};
use crate::error::EngineError;

verus! {

/// One binding: a wrapped-asset identity and its native denomination.
pub struct RegEntry {
    pub id: Vec<u8>,
    pub denom: Vec<u8>,
}

/// The registry itself; a list of bindings with pairwise distinct identities.
pub struct Registry {
    entries: Vec<RegEntry>,
}

/// The map a list of bindings denotes (later entries would win, but the
/// registry never holds two entries for one identity).
pub open spec fn entries_map(s: Seq<RegEntry>) -> Map<Seq<u8>, Seq<u8>>
    decreases s.len(),
{
    if s.len() == 0 {
        Map::empty()
    } else {
        entries_map(s.drop_last()).insert(s.last().id@, s.last().denom@)
    }
}

/// No two entries bind the same identity.
pub open spec fn unique_ids(s: Seq<RegEntry>) -> bool {
    forall|p: int, q: int| 0 <= p < q < s.len() ==> s[p].id@ != s[q].id@
}

/// What validating a claimed binding yields: the claim must be present and
/// must match the registry's record exactly.
pub open spec fn validate_binding_spec(
    m: Map<Seq<u8>, Seq<u8>>,
    id: Seq<u8>,
    denom: Seq<u8>,
) -> Result<(), EngineError> {
    if !m.dom().contains(id) {
        Err(EngineError::BindingMissing)
    } else if m[id] != denom {
        Err(EngineError::BindingMismatch)
    } else {
        Ok(())
    }
}

proof fn lemma_entries_map_contains(s: Seq<RegEntry>, x: Seq<u8>)
    ensures
        entries_map(s).dom().contains(x) <==> exists|k: int| 0 <= k < s.len() && s[k].id@ == x,
    decreases s.len(),
{
    if s.len() > 0 {
        lemma_entries_map_contains(s.drop_last(), x);
        if s.last().id@ == x {
            assert(s[s.len() - 1].id@ == x);
        } else if entries_map(s).dom().contains(x) {
            let k = choose|k: int| 0 <= k < s.drop_last().len() && s.drop_last()[k].id@ == x;
            assert(s[k].id@ == x);
        } else if exists|k: int| 0 <= k < s.len() && s[k].id@ == x {
            let k = choose|k: int| 0 <= k < s.len() && s[k].id@ == x;
            assert(s.drop_last()[k].id@ == x);
        }
    }
}

proof fn lemma_entries_map_value(s: Seq<RegEntry>, k: int)
    requires
        unique_ids(s),
        0 <= k < s.len(),
    ensures
        entries_map(s).dom().contains(s[k].id@),
        entries_map(s)[s[k].id@] == s[k].denom@,
    decreases s.len(),
{
    if k == s.len() - 1 {
    } else {
        assert(s[k].id@ != s.last().id@);
        assert(s.drop_last()[k] == s[k]);
        lemma_entries_map_value(s.drop_last(), k);
    }
}

impl View for Registry {
    type V = Map<Seq<u8>, Seq<u8>>;

    closed spec fn view(&self) -> Map<Seq<u8>, Seq<u8>> {
        entries_map(self.entries@)
    }
}

impl Registry {
    /// The registry's internal invariant: identities are bound at most once.
    pub closed spec fn wf(&self) -> bool {
        unique_ids(self.entries@)
    }

    /// An empty registry.
    pub fn new() -> (r: Registry)
        ensures
            r.wf(),
            r@ == Map::<Seq<u8>, Seq<u8>>::empty(),
    {
        Registry { entries: Vec::new() }
    }

    /// The index of the entry binding `id`, if one exists.
    fn find(&self, id: &Vec<u8>) -> (r: Option<usize>)
        ensures
            match r {
                Some(k) => k < self.entries@.len() && self.entries@[k as int].id@ == id@,
                None => forall|k: int| 0 <= k < self.entries@.len()
                    ==> self.entries@[k].id@ != id@,
            },
    {
        let mut k: usize = 0;
        while k < self.entries.len()
            invariant
                0 <= k <= self.entries@.len(),
                forall|t: int| 0 <= t < k ==> self.entries@[t].id@ != id@,
            decreases self.entries@.len() - k,
        {
            if bytes_eq(&self.entries[k].id, id) {
                return Some(k);
            }
            k = k + 1;
        }
        None
    }

    /// Whether a native counterpart has ever been created for `id`.
    pub fn contains(&self, id: &Vec<u8>) -> (r: bool)
        ensures
            r == self@.dom().contains(id@),
    {
        let found = self.find(id);
        proof {
            lemma_entries_map_contains(self.entries@, id@);
        }
        match found {
            Some(_) => true,
            None => false,
        }
    }

    /// The denomination bound to `id`, if any.
    pub fn lookup(&self, id: &Vec<u8>) -> (r: Option<Vec<u8>>)
        requires
            self.wf(),
        ensures
            match r {
                Some(d) => self@.dom().contains(id@) && self@[id@] == d@,
                None => !self@.dom().contains(id@),
            },
    {
        let found = self.find(id);
        proof {
            lemma_entries_map_contains(self.entries@, id@);
        }
        match found {
            Some(k) => {
                proof {
                    lemma_entries_map_value(self.entries@, k as int);
                }
                Some(copy_bytes(&self.entries[k].denom))
            }
            None => None,
        }
    }

    /// Binds `id` to `denom` unless a binding already exists; returns whether
    /// the binding is fresh. An existing binding is never overwritten.
    pub fn bind_if_absent(&mut self, id: &Vec<u8>, denom: &Vec<u8>) -> (fresh: bool)
        requires
            old(self).wf(),
        ensures
            final(self).wf(),
            fresh == !old(self)@.dom().contains(id@),
            final(self)@ == if fresh {
                old(self)@.insert(id@, denom@)
            } else {
                old(self)@
            },
    {
        let found = self.find(id);
        proof {
            lemma_entries_map_contains(self.entries@, id@);
        }
        match found {
            Some(_) => false,
            None => {
                let entry = RegEntry { id: copy_bytes(id), denom: copy_bytes(denom) };
                proof {
                    assert(self.entries@.push(entry).drop_last() =~= self.entries@);
                }
                self.entries.push(entry);
                true
            }
        }
    }

    /// Checks that `denom` is exactly the denomination the registry binds
    /// `id` to; a denomination that was never bound, or that differs from
    /// the record, is rejected.
    pub fn validate_binding(&self, id: &Vec<u8>, denom: &Vec<u8>) -> (r: Result<(), EngineError>)
        requires
            self.wf(),
        ensures
            r == validate_binding_spec(self@, id@, denom@),
    {
        let found = self.lookup(id);
        match found {
            None => Err(EngineError::BindingMissing),
            Some(d) => {
                if bytes_eq(&d, denom) {
                    Ok(())
                } else {
                    Err(EngineError::BindingMismatch)
                }
            }
        }
    }
}

} // verus!
