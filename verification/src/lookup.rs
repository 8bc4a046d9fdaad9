//! Looking up full definitions.
use crate::body::{IsBody, RMir};
use crate::cache::{CacheKey, FullDefCache};
use crate::def_id::{DefId, DefKind, PromotedId};
use crate::full_def::{
    ConstKind, FullDef, FullDefKind, ImplAssocItem, ImplAssocItemValue, ParamEnv,
};
use crate::full_def_spec::{
    are_assoc_items, are_impl_items, are_impl_items_held, are_items_held, extends, is_full_def,
    is_full_def_kind, is_held, is_impl_item, is_impl_item_held, is_item_def, is_new_entry,
    is_promoted_kind, is_provided_as, is_simple_def, item_keys, knows, lists_held, looks_up,
    needed_keys, nested_keys, promoted_known, provided_keys, spec_def_span,
};
use crate::rustc_utils::{get_def_attrs, get_def_visibility, translate_span};
use crate::simple_kinds::{
    get_implied_predicates, get_param_env, get_self_predicate, translate_simple_kind,
};
use crate::span::{RSpan, Span};
use crate::state::{Base, State};
use crate::tcx::{lemma_provider, provider, provides_one_of, TyCtxt};
use crate::traits::{rebase_onto, solve_item_implied_traits, solve_item_implied_traits_in};
use crate::ty::{
    AssocItem, AssocKind, Attribute, Clause, GenericParamDef, GenericPredicates, ImplExpr,
    ImplPolarity, ImplSubject, RAssocItem, RTraitRef, RTy, TraitPredicate, Ty, TyGenerics,
};
use std::collections::HashMap;
use std::sync::Arc;
use vstd::prelude::*;

verus! {

broadcast use vstd::std_specs::hash::group_hash_axioms;

/// Orders definitions by what their full definition holds: that of a promoted constant is made
/// from that of another definition, and that of a trait or an impl from those of its items.
pub open spec fn rank(id: DefId) -> int {
    if id.promoted is Some {
        2
    } else {
        match id.kind {
            DefKind::Trait | DefKind::Impl { .. } => 1,
            _ => 0,
        }
    }
}

/// The cache after some associated items were looked up: `after` holds what `before` holds and,
/// under `keys`, full definitions of associated items.
spec fn grown<Body: IsBody>(
    before: Map<CacheKey, Arc<FullDef<Body>>>,
    after: Map<CacheKey, Arc<FullDef<Body>>>,
    base: Base,
    keys: Set<CacheKey>,
) -> bool {
    &&& after.dom() =~= before.dom().union(keys)
    &&& forall|k: CacheKey| before.contains_key(k) ==> #[trigger] after[k] == before[k]
    &&& forall|k: CacheKey|
        after.contains_key(k) && !before.contains_key(k) ==> is_fresh_item(
            #[trigger] after[k],
            k,
            base,
        )
}

spec fn is_fresh_item<Body: IsBody>(def: Arc<FullDef<Body>>, key: CacheKey, base: Base) -> bool {
    &&& def.def_id.cache_key() == key
    &&& def.def_id.promoted is None
    &&& def.def_id.kind.spec_is_assoc()
    &&& base.tcx.known(def.def_id)
    &&& is_simple_def(*def, base, def.def_id)
}

proof fn lemma_grown_extends<Body: IsBody>(
    before: Map<CacheKey, Arc<FullDef<Body>>>,
    after: Map<CacheKey, Arc<FullDef<Body>>>,
    base: Base,
    keys: Set<CacheKey>,
)
    requires
        grown(before, after, base, keys),
    ensures
        extends(before, after, base, keys),
{
    assert forall|k: CacheKey|
        after.contains_key(k) && !before.contains_key(k) implies is_new_entry(
        #[trigger] after[k],
        k,
        before,
        after,
        base,
    ) by {
        assert(is_fresh_item(after[k], k, base));
    }
}

/// Looking up one more associated item.
proof fn lemma_item_step<Body: IsBody>(
    before: Map<CacheKey, Arc<FullDef<Body>>>,
    mid: Map<CacheKey, Arc<FullDef<Body>>>,
    after: Map<CacheKey, Arc<FullDef<Body>>>,
    base: Base,
    keys: Set<CacheKey>,
    id: DefId,
    def: Arc<FullDef<Body>>,
)
    requires
        grown(before, mid, base, keys),
        base.tcx.known(id),
        id.promoted is None,
        id.kind.spec_is_assoc(),
        looks_up(def, mid, after, base, id),
    ensures
        is_item_def(def, before, base, id),
        grown(before, after, base, keys.insert(id.cache_key())),
        is_held(def, after, id),
        mid.submap_of(after),
{
    let key = id.cache_key();
    if mid.contains_key(key) {
        if !before.contains_key(key) {
            assert(is_fresh_item(mid[key], key, base));
            assert(mid[key].def_id == id);
        }
    } else {
        assert(needed_keys(mid, *base.tcx, id) =~= Set::empty());
        assert forall|k: CacheKey|
            after.contains_key(k) && !before.contains_key(k) implies is_fresh_item(
            #[trigger] after[k],
            k,
            base,
        ) by {
            if mid.contains_key(k) {
                assert(is_fresh_item(mid[k], k, base));
            } else {
                assert(k == key);
                assert(is_full_def(*def, mid, base, id));
            }
        }
    }
}

/// The associated items of the owner, a trait or an impl, with their full definitions.
fn translate_assoc_items<Body: IsBody>(s: &State, cache: &mut FullDefCache<Body>) -> (r: Vec<
    (AssocItem, Arc<FullDef<Body>>),
>)
    requires
        s.wf(),
        rank(s.owner) == 1,
    ensures
        are_assoc_items(
            r@,
            old(cache)@,
            *s,
            s.base.tcx.data(s.owner).associated_items@,
        ),
        extends(
            old(cache)@,
            final(cache)@,
            s.base,
            item_keys(s.base.tcx.data(s.owner).associated_items@),
        ),
        are_items_held(r@, final(cache)@, s.base.tcx.data(s.owner).associated_items@),
    decreases rank(s.owner), 1int,
{
    let tcx = s.base.tcx;
    proof {
        tcx.lemma_complete(s.owner);
    }
    let assocs = tcx.associated_items(&s.owner);
    let mut items: Vec<(AssocItem, Arc<FullDef<Body>>)> = Vec::new();
    let mut i: usize = 0;
    assert(cache@.dom().union(item_keys(assocs@.take(0))) =~= cache@.dom());
    while i < assocs.len()
        invariant
            s.wf(),
            tcx == s.base.tcx,
            rank(s.owner) == 1,
            tcx.items_known(assocs@),
            i <= assocs@.len(),
            items@.len() == i,
            forall|k: int|
                0 <= k < i ==> {
                    &&& (#[trigger] items@[k]).0 == s.spec_assoc_item(assocs@[k])
                    &&& is_item_def(items@[k].1, old(cache)@, s.base, assocs@[k].def_id)
                    &&& is_held(items@[k].1, cache@, assocs@[k].def_id)
                },
            grown(old(cache)@, cache@, s.base, item_keys(assocs@.take(i as int))),
        decreases assocs.len() - i,
    {
        let assoc = &assocs[i];
        assert(tcx.known(assocs@[i as int].def_id));
        proof {
            tcx.lemma_complete(assoc.def_id);
        }
        let ghost mid = cache@;
        let def = assoc.def_id.full_def(&s.base, cache);
        proof {
            let keys = item_keys(assocs@.take(i as int));
            lemma_item_step(old(cache)@, mid, cache@, s.base, keys, assoc.def_id, def);
            lemma_item_keys(assocs@, i as int);
        }
        items.push((s.assoc_item(assoc), def));
        i = i + 1;
    }
    proof {
        assert(assocs@.take(i as int) =~= assocs@);
        lemma_grown_extends(old(cache)@, cache@, s.base, item_keys(assocs@));
    }
    items
}

/// The keys of one more item.
proof fn lemma_item_keys(items: Seq<RAssocItem>, n: int)
    requires
        0 <= n < items.len(),
    ensures
        item_keys(items.take(n + 1)) == item_keys(items.take(n)).insert(
            items[n].def_id.cache_key(),
        ),
{
    let before = items.take(n);
    let after = items.take(n + 1);
    assert forall|k: CacheKey| #[trigger] item_keys(after).contains(k) <==> item_keys(
        before,
    ).insert(items[n].def_id.cache_key()).contains(k) by {
        if item_keys(after).contains(k) {
            let i = choose|i: int|
                0 <= i < after.len() && (#[trigger] after[i]).def_id.cache_key() == k;
            if i < n {
                assert(before[i].def_id.cache_key() == k);
            }
        }
        if item_keys(before).contains(k) {
            let i = choose|i: int|
                0 <= i < before.len() && (#[trigger] before[i]).def_id.cache_key() == k;
            assert(after[i].def_id.cache_key() == k);
        }
        if k == items[n].def_id.cache_key() {
            assert(after[n].def_id.cache_key() == k);
        }
    }
    assert(item_keys(after) =~= item_keys(before).insert(items[n].def_id.cache_key()));
}

/// The items of an impl by the trait items that they implement.
fn index_by_trait_item(items: &Vec<RAssocItem>) -> (r: HashMap<u64, usize>)
    requires
        forall|i: int| 0 <= i < items@.len() ==> (#[trigger] items@[i]).trait_item_def_id is Some,
    ensures
        indexes(r@, items@),
{
    let mut item_map: HashMap<u64, usize> = HashMap::new();
    let mut n: usize = 0;
    while n < items.len()
        invariant
            forall|i: int|
                0 <= i < items@.len() ==> (#[trigger] items@[i]).trait_item_def_id is Some,
            n <= items@.len(),
            indexes(item_map@, items@.take(n as int)),
        decreases items.len() - n,
    {
        assert(items@[n as int].trait_item_def_id is Some);
        let ghost next = items@.take(n + 1);
        assert(next.drop_last() =~= items@.take(n as int));
        assert(next.last() == items@[n as int]);
        item_map.insert(items[n].trait_item_def_id.as_ref().unwrap().key(), n);
        n = n + 1;
    }
    assert(items@.take(n as int) =~= items@);
    item_map
}

/// `map` gives the place of the item that implements each trait item.
spec fn indexes(map: Map<u64, usize>, items: Seq<RAssocItem>) -> bool {
    forall|k: u64|
        {
            &&& #[trigger] map.contains_key(k) <==> provider(items, k) is Some
            &&& map.contains_key(k) ==> provider(items, k) == Some(map[k] as int)
        }
}

/// None of the first `n` trait items is filed under `key`.
spec fn is_left(decls: Seq<RAssocItem>, n: int, key: u64) -> bool {
    forall|m: int| 0 <= m < n ==> (#[trigger] decls[m]).def_id.spec_key() != key
}

/// `map` gives the place of the item that implements each trait item after the first `n`.
spec fn indexes_rest(
    map: Map<u64, usize>,
    items: Seq<RAssocItem>,
    decls: Seq<RAssocItem>,
    n: int,
) -> bool {
    forall|k: u64|
        {
            &&& #[trigger] map.contains_key(k) <==> provider(items, k) is Some && is_left(
                decls,
                n,
                k,
            )
            &&& map.contains_key(k) ==> provider(items, k) == Some(map[k] as int)
        }
}

/// The keys of the definitions that the first `n` items of a trait impl hold.
spec fn impl_item_keys(items: Seq<RAssocItem>, decls: Seq<RAssocItem>, n: int) -> Set<CacheKey> {
    item_keys(decls.take(n)).union(provided_keys(items, decls.take(n)))
}

proof fn lemma_impl_item_keys(items: Seq<RAssocItem>, decls: Seq<RAssocItem>, n: int)
    requires
        0 <= n < decls.len(),
    ensures
        impl_item_keys(items, decls, n + 1) == (match provider(
            items,
            decls[n].def_id.spec_key(),
        ) {
            None => impl_item_keys(items, decls, n).insert(decls[n].def_id.cache_key()),
            Some(j) => impl_item_keys(items, decls, n).insert(
                decls[n].def_id.cache_key(),
            ).insert(items[j].def_id.cache_key()),
        }),
{
    let before = decls.take(n);
    let after = decls.take(n + 1);
    lemma_item_keys(decls, n);
    assert forall|k: CacheKey| #[trigger]
        provided_keys(items, after).contains(k) <==> provided_keys(items, before).contains(k)
            || is_provided_as(items, decls[n], k) by {
        if provided_keys(items, after).contains(k) {
            let m = choose|m: int|
                0 <= m < after.len() && is_provided_as(items, #[trigger] after[m], k);
            if m < n {
                assert(is_provided_as(items, before[m], k));
            }
        }
        if provided_keys(items, before).contains(k) {
            let m = choose|m: int|
                0 <= m < before.len() && is_provided_as(items, #[trigger] before[m], k);
            assert(is_provided_as(items, after[m], k));
        }
        if is_provided_as(items, decls[n], k) {
            assert(is_provided_as(items, after[n], k));
        }
    }
    match provider(items, decls[n].def_id.spec_key()) {
        None => {
            assert(impl_item_keys(items, decls, n + 1) =~= impl_item_keys(items, decls, n).insert(
                decls[n].def_id.cache_key(),
            ));
        },
        Some(j) => {
            assert(impl_item_keys(items, decls, n + 1) =~= impl_item_keys(items, decls, n).insert(
                decls[n].def_id.cache_key(),
            ).insert(items[j].def_id.cache_key()));
        },
    }
}

/// The items of the owner, an impl of the trait reference `trait_ref`.
fn translate_impl_items<Body: IsBody>(
    s: &State,
    trait_ref: &RTraitRef,
    cache: &mut FullDefCache<Body>,
) -> (r: Vec<ImplAssocItem<Body>>)
    requires
        s.wf(),
        s.owner.kind is Impl,
        s.base.tcx.data(s.owner).impl_subject == Some(ImplSubject::Trait(*trait_ref)),
    ensures
        are_impl_items(
            r@,
            old(cache)@,
            *s,
            *trait_ref,
            s.base.tcx.data(trait_ref.def_id).associated_items@,
        ),
        extends(old(cache)@, final(cache)@, s.base, nested_keys(*s.base.tcx, s.owner)),
        are_impl_items_held(
            r@,
            final(cache)@,
            s.base.tcx.data(trait_ref.def_id).associated_items@,
            s.base.tcx.data(s.owner).associated_items@,
        ),
    decreases rank(s.owner), 1int,
{
    let tcx = s.base.tcx;
    let def_id = &s.owner;
    proof {
        tcx.lemma_complete(s.owner);
        tcx.lemma_complete(trait_ref.def_id);
    }
    let assocs = tcx.associated_items(def_id);
    let decls = tcx.associated_items(&trait_ref.def_id);
    assert forall|i: int| 0 <= i < assocs@.len() implies (
    #[trigger] assocs@[i]).trait_item_def_id is Some by {
        assert(provides_one_of(assocs@[i], decls@));
    }
    let mut item_map = index_by_trait_item(assocs);
    let mut items: Vec<ImplAssocItem<Body>> = Vec::new();
    let mut n: usize = 0;
    assert(cache@.dom().union(impl_item_keys(assocs@, decls@, 0)) =~= cache@.dom());
    while n < decls.len()
        invariant
            s.wf(),
            tcx == s.base.tcx,
            *def_id == s.owner,
            rank(s.owner) == 1,
            tcx.complete(tcx.data(s.owner)),
            tcx.data(s.owner).def_id == s.owner,
            s.owner.kind is Impl,
            assocs@ == tcx.data(s.owner).associated_items@,
            tcx.items_known(assocs@),
            tcx.items_known(decls@),
            tcx.has(trait_ref.def_id),
            tcx.generics_known(tcx.data(trait_ref.def_id)),
            forall|i: int|
                0 <= i < decls@.len() ==> tcx.default_known(assocs@, #[trigger] decls@[i]),
            n <= decls@.len(),
            items@.len() == n,
            indexes_rest(item_map@, assocs@, decls@, n as int),
            forall|k: int|
                0 <= k < n ==> is_impl_item(
                    #[trigger] items@[k],
                    old(cache)@,
                    *s,
                    *trait_ref,
                    decls@[k],
                ) && is_impl_item_held(items@[k], cache@, decls@[k], assocs@),
            grown(old(cache)@, cache@, s.base, impl_item_keys(assocs@, decls@, n as int)),
        decreases decls.len() - n,
    {
        let decl_assoc = &decls[n];
        let decl_def_id = &decl_assoc.def_id;
        assert(tcx.known(decls@[n as int].def_id));
        let ghost keys = impl_item_keys(assocs@, decls@, n as int);
        let ghost key = decl_def_id.spec_key();
        let ghost start = cache@;
        proof {
            tcx.lemma_complete(*decl_def_id);
            lemma_impl_item_keys(assocs@, decls@, n as int);
            lemma_provider(assocs@, key);
            assert(tcx.default_known(assocs@, decls@[n as int]));
            assert(is_left(decls@, n as int, key));
        }
        let decl_def = decl_def_id.full_def(&s.base, cache);
        proof {
            lemma_item_step(
                old(cache)@,
                start,
                cache@,
                s.base,
                keys,
                *decl_def_id,
                decl_def,
            );
        }
        // Impl exprs required by the item.
        let required_impl_exprs: Vec<ImplExpr>;
        let value = match item_map.remove(&decl_def_id.key()) {
            Some(place) => {
                let impl_assoc = &assocs[place];
                assert(tcx.known(assocs@[place as int].def_id));
                proof {
                    tcx.lemma_complete(impl_assoc.def_id);
                }
                let item_args = &tcx.generics_of(&impl_assoc.def_id).identity_args;
                // Subtlety: we have to add the GAT arguments (if any) to the trait ref arguments.
                let args = rebase_onto(item_args, tcx.generics_of(def_id), &trait_ref.args);
                let state_with_id = s.base.with_owner_id(&impl_assoc.def_id);
                required_impl_exprs =
                solve_item_implied_traits(&state_with_id, decl_def_id, &args);
                let ghost mid = cache@;
                let def = impl_assoc.def_id.full_def(&s.base, cache);
                proof {
                    lemma_item_step(
                        old(cache)@,
                        mid,
                        cache@,
                        s.base,
                        keys.insert(decl_def_id.cache_key()),
                        impl_assoc.def_id,
                        def,
                    );
                }
                ImplAssocItemValue::Provided {
                    def,
                    is_override: tcx.defaultness(decl_def_id).has_value(),
                }
            },
            None => {
                // The parameters of the trait are replaced by the trait ref arguments; those of a
                // GAT (if any) are kept.
                let item_args = &tcx.generics_of(decl_def_id).identity_args;
                let args = rebase_onto(
                    item_args,
                    tcx.generics_of(&trait_ref.def_id),
                    &trait_ref.args,
                );
                let scope = s.default_scope(decl_def_id);
                required_impl_exprs =
                solve_item_implied_traits_in(s, &scope, decl_def_id, &args);
                match &decl_assoc.kind {
                    AssocKind::Type { .. } => {
                        let ty = Ty {
                            scope,
                            ty: RTy::Instantiated {
                                ty: Arc::new(tcx.type_of(decl_def_id).clone()),
                                args,
                            },
                        };
                        ImplAssocItemValue::DefaultedTy { ty }
                    },
                    AssocKind::Fn { .. } => ImplAssocItemValue::DefaultedFn {  },
                    AssocKind::Const { .. } => ImplAssocItemValue::DefaultedConst,
                }
            },
        };
        let item = ImplAssocItem {
            name: decl_assoc.opt_name(),
            value,
            required_impl_exprs,
            decl_def,
        };
        assert(is_impl_item(item, old(cache)@, *s, *trait_ref, decls@[n as int]));
        assert(is_impl_item_held(item, cache@, decls@[n as int], assocs@));
        items.push(item);
        n = n + 1;
    }
    // Each item of the impl implements an item of the trait.
    assert(item_map@ =~= Map::empty()) by {
        assert forall|k: u64| !(#[trigger] item_map@.contains_key(k)) by {
            lemma_provider(assocs@, k);
            if item_map@.contains_key(k) {
                let i = provider(assocs@, k)->0;
                assert(provides_one_of(assocs@[i], decls@));
            }
        }
    }
    proof {
        assert(decls@.take(n as int) =~= decls@);
        lemma_grown_extends(
            old(cache)@,
            cache@,
            s.base,
            impl_item_keys(assocs@, decls@, n as int),
        );
    }
    items
}

/// A cache extends itself by nothing.
proof fn lemma_extends_nothing<Body: IsBody>(
    cache: Map<CacheKey, Arc<FullDef<Body>>>,
    base: Base,
)
    ensures
        extends(cache, cache, base, Set::empty()),
{
    assert(cache.dom().union(Set::empty()) =~= cache.dom());
}

/// What is specific to the kind of the definition.
fn translate_full_def_kind<Body: IsBody>(
    base: &Base,
    cache: &mut FullDefCache<Body>,
    def_id: &DefId,
) -> (r: FullDefKind<Body>)
    requires
        base.tcx.wf(),
        base.tcx.known(*def_id),
    ensures
        is_full_def_kind(r, old(cache)@, base.spec_with_owner_id(*def_id)),
        extends(old(cache)@, final(cache)@, *base, nested_keys(*base.tcx, *def_id)),
        lists_held(r, final(cache)@, *base.tcx, *def_id),
    decreases rank(*def_id), 2int,
{
    let s = &base.with_owner_id(def_id);
    let tcx = base.tcx;
    proof {
        tcx.lemma_complete(*def_id);
    }
    match def_id.kind {
        DefKind::Trait => FullDefKind::Trait {
            param_env: get_param_env(s),
            implied_predicates: get_implied_predicates(s),
            self_predicate: get_self_predicate(s),
            items: translate_assoc_items(s, cache),
        },
        DefKind::Impl { .. } => {
            let param_env = get_param_env(s);
            match tcx.impl_subject(def_id) {
                ImplSubject::Inherent(ty) => {
                    let items = translate_assoc_items(s, cache);
                    FullDefKind::InherentImpl { param_env, ty: s.ty(ty), items }
                },
                ImplSubject::Trait(trait_ref) => {
                    // Also record the polarity.
                    let polarity = tcx.impl_polarity(def_id);
                    let trait_pred = TraitPredicate {
                        trait_ref: s.trait_ref(trait_ref),
                        is_positive: polarity == ImplPolarity::Positive,
                    };
                    // Impl exprs required by the trait.
                    let required_impl_exprs = solve_item_implied_traits(
                        s,
                        &trait_ref.def_id,
                        &trait_ref.args,
                    );
                    let items = translate_impl_items(s, trait_ref, cache);
                    FullDefKind::TraitImpl {
                        param_env,
                        trait_pred,
                        implied_impl_exprs: required_impl_exprs,
                        items,
                    }
                },
            }
        },
        _ => {
            proof {
                lemma_extends_nothing(old(cache)@, *base);
            }
            translate_simple_kind(s)
        },
    }
}

/// What is specific to a promoted constant.
fn translate_promoted<Body: IsBody>(
    base: &Base,
    cache: &mut FullDefCache<Body>,
    def_id: &DefId,
    promoted_id: PromotedId,
) -> (r: FullDefKind<Body>)
    requires
        base.tcx.wf(),
        knows(*base.tcx, *def_id),
        def_id.promoted == Some(promoted_id),
        promoted_known(old(cache)@, *base.tcx, *def_id),
    ensures
        is_promoted_kind(r, old(cache)@, *base, *def_id),
        extends(
            old(cache)@,
            final(cache)@,
            *base,
            needed_keys(old(cache)@, *base.tcx, *def_id),
        ),
    decreases rank(*def_id), 2int,
{
    let tcx = base.tcx;
    let parent = def_id.underlying_rust_def_id();
    let state_with_id = base.with_owner_id(&parent);
    proof {
        tcx.lemma_complete(parent);
        lemma_extends_nothing(old(cache)@, *base);
    }
    let parent_def = parent.full_def(base, cache);
    let parent_param_env = parent_def.param_env().unwrap();
    let params: Vec<GenericParamDef> = Vec::new();
    let predicates: Vec<(Clause, Span)> = Vec::new();
    let param_env = ParamEnv {
        generics: TyGenerics {
            parent: Some(parent.clone()),
            parent_count: parent_param_env.generics.count_total_params(),
            params,
            has_self: false,
            has_late_bound_regions: None,
        },
        predicates: GenericPredicates { predicates },
    };
    let body = &tcx.get(&parent).promoted_mir[promoted_id.id as usize];
    let ty = state_with_id.ty(&body.local_decls[0]);
    FullDefKind::Const {
        param_env,
        ty,
        kind: ConstKind::PromotedConst,
        body: Body::from_mir(
            &state_with_id,
            RMir::Promoted { def_id: parent, promoted: promoted_id },
        ),
    }
}

/// The full definition of any definition, assembled anew.
fn translate_full_def<Body: IsBody>(
    base: &Base,
    cache: &mut FullDefCache<Body>,
    def_id: &DefId,
) -> (r: FullDef<Body>)
    requires
        base.tcx.wf(),
        knows(*base.tcx, *def_id),
        promoted_known(old(cache)@, *base.tcx, *def_id),
    ensures
        is_full_def(r, old(cache)@, *base, *def_id),
        lists_held(r.kind, final(cache)@, *base.tcx, *def_id),
        extends(
            old(cache)@,
            final(cache)@,
            *base,
            needed_keys(old(cache)@, *base.tcx, *def_id),
        ),
    decreases rank(*def_id), 3int,
{
    let tcx = base.tcx;
    let rust_def_id = def_id.underlying_rust_def_id();
    proof {
        tcx.lemma_complete(rust_def_id);
    }
    let data = tcx.get(&rust_def_id);
    let source_span: Option<&RSpan>;
    let attributes: Vec<Attribute>;
    let visibility;
    let lang_item;
    let diagnostic_item;
    let kind;
    match def_id.promoted_id() {
        None => {
            kind = translate_full_def_kind(base, cache, &rust_def_id);
            let def_kind = rust_def_id.kind;
            source_span =
            if rust_def_id.is_local() {
                Some(tcx.source_span(&rust_def_id))
            } else {
                None
            };
            attributes = get_def_attrs(tcx, &rust_def_id, def_kind);
            visibility = get_def_visibility(tcx, &rust_def_id, def_kind);
            lang_item = data.lang_item.clone();
            diagnostic_item = data.diagnostic_item.clone();
        },
        Some(promoted_id) => {
            kind = translate_promoted(base, cache, def_id, promoted_id);
            source_span = Some(&data.promoted_mir[promoted_id.id as usize].span);
            // None of these make sense for a promoted constant.
            attributes = Vec::new();
            visibility = None;
            lang_item = None;
            diagnostic_item = None;
        },
    }
    let source_text = match source_span {
        Some(source_span) => if source_span.is_root() {
            source_span.snippet.clone()
        } else {
            None
        },
        None => None,
    };
    FullDef {
        def_id: def_id.clone(),
        span: def_id.def_span(base),
        source_span: match source_span {
            Some(source_span) => Some(translate_span(source_span)),
            None => None,
        },
        source_text,
        attributes,
        visibility,
        lang_item,
        diagnostic_item,
        kind,
    }
}

/// What is shared with a cache stays shared when the cache grows.
pub proof fn lemma_lists_stay_held<Body>(
    def: Arc<FullDef<Body>>,
    before: Map<CacheKey, Arc<FullDef<Body>>>,
    after: Map<CacheKey, Arc<FullDef<Body>>>,
    tcx: TyCtxt,
)
    requires
        lists_held(def.kind, before, tcx, def.def_id),
        before.submap_of(after),
    ensures
        lists_held(def.kind, after, tcx, def.def_id),
{
}

/// No key of a nested item is that of a promoted constant, nor that of the definition itself.
pub proof fn lemma_nested_keys(tcx: TyCtxt, id: DefId, k: CacheKey)
    requires
        tcx.wf(),
        tcx.known(id),
        nested_keys(tcx, id).contains(k),
    ensures
        k.1 is None,
        k != id.cache_key(),
{
    tcx.lemma_complete(id);
    let assocs = tcx.data(id).associated_items@;
    match id.kind {
        DefKind::Impl { .. } => match tcx.data(id).impl_subject->0 {
            ImplSubject::Inherent(_) => {
                lemma_item_key(tcx, assocs, k);
            },
            ImplSubject::Trait(tr) => {
                let decls = tcx.data(tr.def_id).associated_items@;
                tcx.lemma_complete(tr.def_id);
                if item_keys(decls).contains(k) {
                    lemma_item_key(tcx, decls, k);
                } else {
                    let m = choose|m: int|
                        0 <= m < decls.len() && is_provided_as(assocs, #[trigger] decls[m], k);
                    lemma_provider(assocs, decls[m].def_id.spec_key());
                    let j = provider(assocs, decls[m].def_id.spec_key())->0;
                    assert(assocs[j].def_id.cache_key() == k);
                    assert(item_keys(assocs).contains(k));
                    lemma_item_key(tcx, assocs, k);
                }
            },
        },
        _ => {
            lemma_item_key(tcx, assocs, k);
        },
    }
}

proof fn lemma_item_key(tcx: TyCtxt, items: Seq<RAssocItem>, k: CacheKey)
    requires
        tcx.wf(),
        tcx.items_known(items),
        item_keys(items).contains(k),
    ensures
        k.1 is None,
        forall|id: DefId|
            #[trigger] tcx.known(id) && id.cache_key() == k ==> id.kind.spec_is_assoc(),
{
    let i = choose|i: int| 0 <= i < items.len() && (#[trigger] items[i]).def_id.cache_key() == k;
    assert(tcx.known(items[i].def_id));
    tcx.lemma_complete(items[i].def_id);
    assert forall|id: DefId| #[trigger] tcx.known(id) && id.cache_key() == k implies
        id.kind.spec_is_assoc() by {
        assert(id == items[i].def_id);
    }
}

/// A full definition is not made from itself.
proof fn lemma_not_needed<Body>(
    cache: Map<CacheKey, Arc<FullDef<Body>>>,
    tcx: TyCtxt,
    id: DefId,
)
    requires
        tcx.wf(),
        knows(tcx, id),
    ensures
        !needed_keys(cache, tcx, id).contains(id.cache_key()),
{
    let from = id.spec_underlying();
    if nested_keys(tcx, from).contains(id.cache_key()) {
        lemma_nested_keys(tcx, from, id.cache_key());
    }
}

/// The compiler has answers about the definition, and it is held already or what it is made from is
/// known.
pub open spec fn spec_can_be_looked_up<Body>(
    cache: Map<CacheKey, Arc<FullDef<Body>>>,
    tcx: TyCtxt,
    id: DefId,
) -> bool {
    knows(tcx, id) && (cache.contains_key(id.cache_key()) || promoted_known(cache, tcx, id))
}

impl DefId {
    /// Get the span of the definition of this item. This is the span used in diagnostics when
    /// referring to the item.
    pub fn def_span(&self, s: &Base) -> (r: Span)
        requires
            self.wf(),
            self.kind != DefKind::ForeignMod ==> {
                &&& s.tcx.sorted()
                &&& s.tcx.has(self.spec_underlying())
                &&& s.tcx.data(self.spec_underlying()).def_span is Some
            },
        ensures
            r == spec_def_span(*self, *s.tcx),
    {
        match self.kind {
            // The compiler has no such span for these.
            DefKind::ForeignMod => translate_span(&s.tcx.dummy_sp),
            _ => translate_span(s.tcx.def_span(&self.underlying_rust_def_id())),
        }
    }

    /// Whether this item can be looked up: whether the compiler has answers about it, and, if it is
    /// a promoted constant that was not looked up yet, whether the compiler has its body and the
    /// definition that it comes from has generics.
    pub fn can_be_looked_up<Body: IsBody>(&self, s: &Base, cache: &FullDefCache<Body>) -> (r: bool)
        requires
            s.tcx.wf(),
        ensures
            r == spec_can_be_looked_up(cache@, *s.tcx, *self),
    {
        if !self.is_wf() {
            return false;
        }
        let from = self.underlying_rust_def_id();
        if !s.tcx.knows(&from) {
            return false;
        }
        let promoted_id = match self.promoted {
            None => {
                return true;
            },
            Some(promoted_id) => promoted_id,
        };
        if cache.get(self).is_some() {
            return true;
        }
        let bodies = &s.tcx.get(&from).promoted_mir;
        if promoted_id.id as usize >= bodies.len()
            || bodies[promoted_id.id as usize].local_decls.len() == 0 {
            return false;
        }
        match cache.get(&from) {
            None => from.kind.has_param_env(),
            Some(def) => match def.param_env() {
                None => false,
                Some(p) => p.generics.params.len() <= usize::MAX - p.generics.parent_count,
            },
        }
    }

    /// Get the full definition of this item.
    pub fn full_def<Body: IsBody>(&self, s: &Base, cache: &mut FullDefCache<Body>) -> (r: Arc<
        FullDef<Body>,
    >)
        requires
            s.tcx.wf(),
            knows(*s.tcx, *self),
            old(cache)@.contains_key(self.cache_key()) || promoted_known(
                old(cache)@,
                *s.tcx,
                *self,
            ),
        ensures
            looks_up(r, old(cache)@, final(cache)@, *s, *self),
        decreases rank(*self), 4int,
    {
        if let Some(def) = cache.get(self) {
            return def;
        }
        let def = Arc::new(translate_full_def(s, cache, self));
        let ghost mid = cache@;
        proof {
            lemma_not_needed(old(cache)@, *s.tcx, *self);
        }
        cache.insert(self, def.clone());
        assert(extends(
            old(cache)@,
            cache@,
            *s,
            needed_keys(old(cache)@, *s.tcx, *self).insert(self.cache_key()),
        )) by {
            assert forall|k: CacheKey|
                cache@.contains_key(k) && !old(cache)@.contains_key(k) implies is_new_entry(
                #[trigger] cache@[k],
                k,
                old(cache)@,
                cache@,
                *s,
            ) by {
                if k != self.cache_key() {
                    assert(is_new_entry(mid[k], k, old(cache)@, mid, *s));
                }
                lemma_lists_stay_held(cache@[k], mid, cache@, *s.tcx);
            }
            assert forall|k: CacheKey| old(cache)@.contains_key(k) implies #[trigger] cache@[k]
                == old(cache)@[k] by {
                assert(mid[k] == old(cache)@[k]);
            }
        }
        def
    }
}

} // verus!
