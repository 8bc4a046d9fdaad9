//! The full definitions that were assembled already.
use crate::def_id::{DefId, PromotedId};
use crate::full_def::FullDef;
use std::collections::HashMap;
use std::sync::Arc;
use vstd::prelude::*;

verus! {

broadcast use vstd::std_specs::hash::group_hash_axioms;

/// What identifies a definition in the cache: the number of the definition that the compiler
/// knows, and, for a promoted constant, which one of its body it is.
pub type CacheKey = (u64, Option<PromotedId>);

/// The full definitions that were assembled already, with bodies in one form.
pub struct FullDefCache<Body> {
    pub full_def: HashMap<u64, Arc<FullDef<Body>>>,
    /// The promoted constants, under both numbers.
    pub promoteds: HashMap<u128, Arc<FullDef<Body>>>,
}

pub open spec fn promoted_key(key: u64, promoted: PromotedId) -> u128 {
    (key * 0x1_0000_0000 + promoted.id) as u128
}

fn exec_promoted_key(key: u64, promoted: PromotedId) -> (r: u128)
    ensures
        r == promoted_key(key, promoted),
{
    key as u128 * 0x1_0000_0000 + promoted.id as u128
}

impl DefId {
    pub open spec fn cache_key(self) -> CacheKey {
        (self.spec_key(), self.promoted)
    }
}

impl<Body> View for FullDefCache<Body> {
    type V = Map<CacheKey, Arc<FullDef<Body>>>;

    open spec fn view(&self) -> Map<CacheKey, Arc<FullDef<Body>>> {
        Map::new(
            |k: CacheKey|
                match k.1 {
                    None => self.full_def@.contains_key(k.0),
                    Some(p) => self.promoteds@.contains_key(promoted_key(k.0, p)),
                },
            |k: CacheKey|
                match k.1 {
                    None => self.full_def@[k.0],
                    Some(p) => self.promoteds@[promoted_key(k.0, p)],
                },
        )
    }
}

impl<Body> FullDefCache<Body> {
    /// A cache that holds nothing.
    pub fn new() -> (r: Self)
        ensures
            r@ == Map::<CacheKey, Arc<FullDef<Body>>>::empty(),
    {
        let r = FullDefCache { full_def: HashMap::new(), promoteds: HashMap::new() };
        assert(r@ =~= Map::<CacheKey, Arc<FullDef<Body>>>::empty());
        r
    }

    /// The full definition of `id`, if it is held.
    pub fn get(&self, id: &DefId) -> (r: Option<Arc<FullDef<Body>>>)
        ensures
            match r {
                Some(def) => self@.contains_key(id.cache_key()) && self@[id.cache_key()] == def,
                None => !self@.contains_key(id.cache_key()),
            },
    {
        let key: u64 = id.key();
        let found = match id.promoted {
            None => self.full_def.get(&key),
            Some(p) => self.promoteds.get(&exec_promoted_key(key, p)),
        };
        match found {
            Some(def) => Some(def.clone()),
            None => None,
        }
    }

    /// Holds `def` as the full definition of `id` from now on.
    pub fn insert(&mut self, id: &DefId, def: Arc<FullDef<Body>>)
        ensures
            final(self)@ == old(self)@.insert(id.cache_key(), def),
    {
        let key: u64 = id.key();
        match id.promoted {
            None => {
                self.full_def.insert(key, def);
            },
            Some(p) => {
                self.promoteds.insert(exec_promoted_key(key, p), def);
            },
        }
        assert(self@ =~= old(self)@.insert(id.cache_key(), def));
    }
}

} // verus!
