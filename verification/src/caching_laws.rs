//! What holds of looking up full definitions through a cache.
use crate::body::IsBody;
use crate::cache::CacheKey;
use crate::def_id::{DefId, DefKind};
use crate::def_laws::generics_are_those_of_the_compiler;
use crate::full_def::{FullDef, ImplAssocItem};
use crate::full_def_spec::{
    are_assoc_items, are_impl_items, is_entry, is_full_def, is_impl_item, is_item_def, is_new_entry,
    is_simple_def, knows, lists_held, looks_up, needed_keys, promoted_known,
};
use crate::lookup::{lemma_lists_stay_held, lemma_nested_keys};
use crate::state::{Base, State};
use crate::tcx::{lemma_provider, provider, TyCtxt};
use crate::ty::{AssocItem, ImplSubject, RTraitRef};
use std::sync::Arc;
use vstd::prelude::*;

verus! {

// ---- the cache ----

/// A definition that was looked up once is held from then on: looking it up again gives the same
/// value and changes nothing, whatever the state is.
pub proof fn lookup_is_idempotent<Body: IsBody>(
    def: Arc<FullDef<Body>>,
    again: Arc<FullDef<Body>>,
    before: Map<CacheKey, Arc<FullDef<Body>>>,
    between: Map<CacheKey, Arc<FullDef<Body>>>,
    after: Map<CacheKey, Arc<FullDef<Body>>>,
    base: Base,
    other: Base,
    id: DefId,
)
    requires
        looks_up(def, before, between, base, id),
        looks_up(again, between, after, other, id),
    ensures
        again == def,
        after == between,
{
}

/// Looking up a definition forgets nothing.
pub proof fn lookup_forgets_nothing<Body: IsBody>(
    def: Arc<FullDef<Body>>,
    before: Map<CacheKey, Arc<FullDef<Body>>>,
    after: Map<CacheKey, Arc<FullDef<Body>>>,
    base: Base,
    id: DefId,
)
    requires
        looks_up(def, before, after, base, id),
    ensures
        before.submap_of(after),
        after.contains_key(id.cache_key()),
        after[id.cache_key()] == def,
{
}

/// Every entry of the cache is the full definition that its definition has from scratch.
pub open spec fn coherent<Body: IsBody>(
    cache: Map<CacheKey, Arc<FullDef<Body>>>,
    base: Base,
) -> bool {
    forall|k: CacheKey|
        cache.contains_key(k) ==> is_entry(#[trigger] cache[k], k, Map::empty(), base)
}

/// An empty cache is coherent.
pub proof fn empty_cache_is_coherent<Body: IsBody>(base: Base)
    ensures
        coherent(Map::<CacheKey, Arc<FullDef<Body>>>::empty(), base),
{
}

/// Two definitions that the table has answers about and that have the same number are the same.
pub proof fn known_definitions_are_unique(tcx: TyCtxt, a: DefId, b: DefId)
    requires
        knows(tcx, a),
        knows(tcx, b),
        a.cache_key() == b.cache_key(),
    ensures
        a == b,
{
    if a.promoted is Some {
        assert(a.spec_underlying() == b.spec_underlying());
        assert(a.parent->0 == b.parent->0);
    }
}

spec fn id_of<Body>(def: Arc<FullDef<Body>>) -> DefId {
    def.def_id
}

/// The full definition of an item is the same whether or not a coherent cache holds it.
proof fn lemma_item_from_scratch<Body: IsBody>(
    def: Arc<FullDef<Body>>,
    cache: Map<CacheKey, Arc<FullDef<Body>>>,
    base: Base,
    id: DefId,
)
    requires
        coherent(cache, base),
        knows(*base.tcx, id),
        id.promoted is None,
        id.kind.spec_is_assoc(),
        is_item_def(def, cache, base, id),
    ensures
        is_simple_def(*def, base, id),
        is_item_def(def, Map::empty(), base, id),
{
    let key = id.cache_key();
    if cache.contains_key(key) {
        assert(is_entry(cache[key], key, Map::empty(), base));
        known_definitions_are_unique(*base.tcx, id_of(def), id);
    }
}

/// The full definition of a definition does not depend on what a coherent cache holds.
proof fn lemma_from_scratch<Body: IsBody>(
    def: &FullDef<Body>,
    cache: Map<CacheKey, Arc<FullDef<Body>>>,
    base: Base,
    id: DefId,
)
    requires
        base.tcx.wf(),
        coherent(cache, base),
        knows(*base.tcx, id),
        promoted_known(cache, *base.tcx, id),
        is_full_def(*def, cache, base, id),
    ensures
        is_full_def(*def, Map::empty(), base, id),
{
    let none = Map::<CacheKey, Arc<FullDef<Body>>>::empty();
    let tcx = *base.tcx;
    let from = id.spec_underlying();
    let key = from.cache_key();
    let s = base.spec_with_owner_id(id);
    tcx.lemma_complete(from);
    if id.promoted is Some {
        if cache.contains_key(key) {
            let cached = cache[key];
            assert(is_entry(cached, key, none, base));
            known_definitions_are_unique(tcx, id_of(cached), from);
            generics_are_those_of_the_compiler(&*cached, none, base, from);
        }
    } else {
        match id.kind {
            DefKind::Trait => {
                lemma_items_from_scratch(def.kind->Trait_items@, cache, s);
            },
            DefKind::Impl { .. } => match tcx.data(id).impl_subject->0 {
                ImplSubject::Inherent(_) => {
                    lemma_items_from_scratch(def.kind->InherentImpl_items@, cache, s);
                },
                ImplSubject::Trait(tr) => {
                    lemma_impl_items_from_scratch(def.kind->TraitImpl_items@, cache, s, tr);
                },
            },
            _ => {},
        }
    }
}

proof fn lemma_items_from_scratch<Body: IsBody>(
    items: Seq<(AssocItem, Arc<FullDef<Body>>)>,
    cache: Map<CacheKey, Arc<FullDef<Body>>>,
    s: State,
)
    requires
        s.wf(),
        coherent(cache, s.base),
        are_assoc_items(items, cache, s, s.base.tcx.data(s.owner).associated_items@),
    ensures
        are_assoc_items(
            items,
            Map::empty(),
            s,
            s.base.tcx.data(s.owner).associated_items@,
        ),
{
    let assocs = s.base.tcx.data(s.owner).associated_items@;
    s.base.tcx.lemma_complete(s.owner);
    assert forall|i: int| 0 <= i < assocs.len() implies is_item_def(
        (#[trigger] items[i]).1,
        Map::empty(),
        s.base,
        assocs[i].def_id,
    ) by {
        assert(s.base.tcx.known(assocs[i].def_id));
        s.base.tcx.lemma_complete(assocs[i].def_id);
        lemma_item_from_scratch(items[i].1, cache, s.base, assocs[i].def_id);
    }
}

proof fn lemma_impl_items_from_scratch<Body: IsBody>(
    items: Seq<ImplAssocItem<Body>>,
    cache: Map<CacheKey, Arc<FullDef<Body>>>,
    s: State,
    tr: RTraitRef,
)
    requires
        s.wf(),
        s.owner.kind is Impl,
        s.base.tcx.data(s.owner).impl_subject == Some(ImplSubject::Trait(tr)),
        coherent(cache, s.base),
        are_impl_items(items, cache, s, tr, s.base.tcx.data(tr.def_id).associated_items@),
    ensures
        are_impl_items(
            items,
            Map::empty(),
            s,
            tr,
            s.base.tcx.data(tr.def_id).associated_items@,
        ),
{
    let tcx = *s.base.tcx;
    let assocs = tcx.data(s.owner).associated_items@;
    let decls = tcx.data(tr.def_id).associated_items@;
    tcx.lemma_complete(s.owner);
    tcx.lemma_complete(tr.def_id);
    assert forall|i: int| 0 <= i < decls.len() implies is_impl_item(
        #[trigger] items[i],
        Map::empty(),
        s,
        tr,
        decls[i],
    ) by {
        assert(is_impl_item(items[i], cache, s, tr, decls[i]));
        assert(tcx.known(decls[i].def_id));
        tcx.lemma_complete(decls[i].def_id);
        lemma_item_from_scratch(items[i].decl_def, cache, s.base, decls[i].def_id);
        lemma_provider(assocs, decls[i].def_id.spec_key());
        if let Some(j) = provider(assocs, decls[i].def_id.spec_key()) {
            assert(tcx.known(assocs[j].def_id));
            tcx.lemma_complete(assocs[j].def_id);
            lemma_item_from_scratch(
                items[i].value->Provided_def,
                cache,
                s.base,
                assocs[j].def_id,
            );
        }
    }
}

/// The cache is transparent: what is looked up through a coherent cache is the full definition
/// that the definition has from scratch, it is about the definition that was asked for, and the
/// cache stays coherent.
pub proof fn caching_is_transparent<Body: IsBody>(
    def: Arc<FullDef<Body>>,
    before: Map<CacheKey, Arc<FullDef<Body>>>,
    after: Map<CacheKey, Arc<FullDef<Body>>>,
    base: Base,
    id: DefId,
)
    requires
        base.tcx.wf(),
        knows(*base.tcx, id),
        before.contains_key(id.cache_key()) || promoted_known(before, *base.tcx, id),
        coherent(before, base),
        looks_up(def, before, after, base, id),
    ensures
        is_full_def(*def, Map::empty(), base, id),
        def.def_id == id,
        coherent(after, base),
{
    let none = Map::<CacheKey, Arc<FullDef<Body>>>::empty();
    let tcx = *base.tcx;
    let key = id.cache_key();
    if before.contains_key(key) {
        assert(is_entry(before[key], key, none, base));
        known_definitions_are_unique(tcx, id_of(def), id);
    } else {
        lemma_from_scratch(&*def, before, base, id);
        let from = id.spec_underlying();
        tcx.lemma_complete(from);
        assert forall|k: CacheKey| after.contains_key(k) implies is_entry(
            #[trigger] after[k],
            k,
            none,
            base,
        ) by {
            if before.contains_key(k) {
                assert(is_entry(before[k], k, none, base));
            } else if k != key {
                assert(is_new_entry(after[k], k, before, after, base));
                assert(needed_keys(before, tcx, id).contains(k));
                if k != from.cache_key() {
                    lemma_nested_keys(tcx, from, k);
                }
                lemma_from_scratch(&*after[k], before, base, id_of(after[k]));
            }
        }
    }
}

/// Everything that an entry of the cache lists is itself an entry.
pub open spec fn shared<Body>(cache: Map<CacheKey, Arc<FullDef<Body>>>, tcx: TyCtxt) -> bool {
    forall|k: CacheKey|
        cache.contains_key(k) ==> lists_held(
            (#[trigger] cache[k]).kind,
            cache,
            tcx,
            cache[k].def_id,
        )
}

/// Full definitions are shared: what a definition that was looked up lists, a trait its items or
/// an impl its items and those of the trait, is what the cache holds for the items.
pub proof fn listed_definitions_are_shared<Body: IsBody>(
    def: Arc<FullDef<Body>>,
    before: Map<CacheKey, Arc<FullDef<Body>>>,
    after: Map<CacheKey, Arc<FullDef<Body>>>,
    base: Base,
    id: DefId,
)
    requires
        shared(before, *base.tcx),
        looks_up(def, before, after, base, id),
    ensures
        lists_held(def.kind, after, *base.tcx, def.def_id),
        shared(after, *base.tcx),
{
    assert forall|k: CacheKey| after.contains_key(k) implies lists_held(
        (#[trigger] after[k]).kind,
        after,
        *base.tcx,
        after[k].def_id,
    ) by {
        if before.contains_key(k) {
            assert(after[k] == before[k]);
            lemma_lists_stay_held(after[k], before, after, *base.tcx);
        } else {
            assert(is_new_entry(after[k], k, before, after, base));
        }
    }
    assert(after.contains_key(id.cache_key()) && after[id.cache_key()] == def);
}

/// Every definition of the program can be looked up.
pub proof fn definitions_can_be_looked_up<Body: IsBody>(
    tcx: TyCtxt,
    cache: Map<CacheKey, Arc<FullDef<Body>>>,
    i: int,
)
    requires
        tcx.wf(),
        0 <= i < tcx.defs@.len(),
    ensures
        knows(tcx, tcx.defs@[i].def_id),
        promoted_known(cache, tcx, tcx.defs@[i].def_id),
{
    tcx.lemma_data_at(i);
    tcx.lemma_complete(tcx.defs@[i].def_id);
}

/// Every constant that was lifted out of the body of a definition with generics can be looked up
/// through a coherent cache.
pub proof fn promoted_constants_can_be_looked_up<Body: IsBody>(
    base: Base,
    cache: Map<CacheKey, Arc<FullDef<Body>>>,
    id: DefId,
)
    requires
        base.tcx.wf(),
        knows(*base.tcx, id),
        id.promoted is Some,
        id.promoted->0.id < base.tcx.data(id.spec_underlying()).promoted_mir@.len(),
        base.tcx.data(
            id.spec_underlying(),
        ).promoted_mir@[id.promoted->0.id as int].local_decls@.len() > 0,
        id.spec_underlying().kind.spec_has_param_env(),
        coherent(cache, base),
    ensures
        promoted_known(cache, *base.tcx, id),
{
    let from = id.spec_underlying();
    let key = from.cache_key();
    base.tcx.lemma_complete(from);
    if cache.contains_key(key) {
        let cached = cache[key];
        assert(is_entry(cached, key, Map::empty(), base));
        known_definitions_are_unique(*base.tcx, id_of(cached), from);
        generics_are_those_of_the_compiler(&*cached, Map::empty(), base, from);
    }
}

} // verus!
