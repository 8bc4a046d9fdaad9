//! What holds of the items of traits and impls, and of the children of definitions.
use crate::body::IsBody;
use crate::cache::CacheKey;
use crate::children::{
    assoc_children, child, impl_children, inherent_children, mod_children, named_items,
    own_children, variant_children, Child,
};
use crate::convert::spec_ident;
use crate::def_id::DefId;
use crate::full_def::{FullDef, FullDefKind, ImplAssocItem};
use crate::full_def_spec::{
    are_assoc_items, is_full_def, is_impl_item, is_item_def, item_args, variant_discr,
};
use crate::rustc_utils::{
    closest_type, implemented_item, is_method_sig, is_type_kind, spec_mod_children,
};
use crate::state::{Base, State};
use crate::tcx::{lemma_provider, provider, provides_one_of, TyCtxt};
use crate::traits::spec_rebase_onto;
use crate::ty::{
    AdtKind, AssocItem, GenericArg, Ident, ImplSubject, RAssocItem, RIdent, RPolyFnSig, RTraitRef,
    RVariantDef,
};
use std::sync::Arc;
use vstd::prelude::*;

verus! {

// ---- trait impls ----

/// The item of a trait impl for the trait item `decl`, in an impl with the items `assocs`.
pub open spec fn follows<Body>(
    item: ImplAssocItem<Body>,
    decl: RAssocItem,
    assocs: Seq<RAssocItem>,
) -> bool {
    &&& item.name == decl.spec_opt_name()
    &&& item.decl_def.def_id == decl.def_id
    &&& item.decl_def.kind is AssocTy || item.decl_def.kind is AssocFn
        || item.decl_def.kind is AssocConst
    &&& item.spec_assoc_kind() is Some
    &&& item.decl_def.kind.spec_assoc_kind() is Some
    &&& item.spec_assoc_kind()->0.spec_same_case(item.decl_def.kind.spec_assoc_kind()->0)
    &&& item.spec_def().kind is AssocTy <==> item.decl_def.kind is AssocTy
    &&& item.spec_def().kind is AssocFn <==> item.decl_def.kind is AssocFn
    &&& item.spec_def().kind is AssocConst <==> item.decl_def.kind is AssocConst
    &&& item.spec_def().def_id == (match provider(assocs, decl.def_id.spec_key()) {
        Some(j) => assocs[j].def_id,
        None => decl.def_id,
    })
    &&& item.value is Provided <==> provider(assocs, decl.def_id.spec_key()) is Some
    &&& item.value is DefaultedTy ==> item.decl_def.kind is AssocTy
    &&& item.value is DefaultedFn ==> item.decl_def.kind is AssocFn
    &&& item.value is DefaultedConst ==> item.decl_def.kind is AssocConst
    &&& item.decl_def.kind is AssocFn || item.decl_def.kind is AssocConst
        ==> item.required_impl_exprs@.len() == 0
}

/// A trait impl has one item for each item of the trait, in the order of the trait, the defaulted
/// ones among them. Each is an associated item: what the impl provides, or else what the trait
/// declares; either way it is a type, a function or a constant as the item of the trait is. Only
/// associated types call for implementations.
pub proof fn trait_impl_follows_the_trait<Body: IsBody>(
    def: &FullDef<Body>,
    base: Base,
    id: DefId,
    tr: RTraitRef,
)
    requires
        base.tcx.wf(),
        base.tcx.known(id),
        id.kind is Impl,
        base.tcx.data(id).impl_subject == Some(ImplSubject::Trait(tr)),
        is_full_def(*def, Map::empty(), base, id),
    ensures
        def.kind matches FullDefKind::TraitImpl { items, .. } && {
            let decls = base.tcx.data(tr.def_id).associated_items@;
            &&& items@.len() == decls.len()
            &&& forall|i: int|
                0 <= i < items@.len() ==> follows(
                    #[trigger] items@[i],
                    decls[i],
                    base.tcx.data(id).associated_items@,
                )
        },
{
    let none = Map::<CacheKey, Arc<FullDef<Body>>>::empty();
    let tcx = *base.tcx;
    let s = base.spec_with_owner_id(id);
    let decls = tcx.data(tr.def_id).associated_items@;
    let assocs = tcx.data(id).associated_items@;
    tcx.lemma_complete(id);
    tcx.lemma_complete(tr.def_id);
    let items = def.kind->TraitImpl_items@;
    assert forall|i: int| 0 <= i < items.len() implies follows(
        #[trigger] items[i],
        decls[i],
        assocs,
    ) by {
        let decl = decls[i];
        assert(is_impl_item(items[i], none, s, tr, decl));
        assert(tcx.known(decl.def_id));
        tcx.lemma_complete(decl.def_id);
        lemma_provider(assocs, decl.def_id.spec_key());
        if let Some(j) = provider(assocs, decl.def_id.spec_key()) {
            assert(tcx.known(assocs[j].def_id));
            tcx.lemma_complete(assocs[j].def_id);
            assert(provides_one_of(assocs[j], decls));
            let k = choose|k: int|
                0 <= k < decls.len() && (#[trigger] decls[k]).def_id.spec_key()
                    == assocs[j].trait_item_def_id->0.spec_key() && decls[k].kind.spec_same_case(
                    assocs[j].kind,
                );
            assert(decls[k] == decl);
        }
    }
}

/// An item that a trait impl leaves to its default is read with the arguments of the trait
/// reference, followed by the parameters that the item itself declares; where it declares none,
/// with the arguments of the trait reference alone.
pub proof fn defaults_take_the_trait_arguments(tcx: TyCtxt, id: DefId, tr: RTraitRef, i: int)
    requires
        tcx.wf(),
        tcx.known(id),
        id.kind is Impl,
        tcx.data(id).impl_subject == Some(ImplSubject::Trait(tr)),
        0 <= i < tcx.data(tr.def_id).associated_items@.len(),
    ensures
        ({
            let decl = tcx.data(tr.def_id).associated_items@[i].def_id;
            let own = tcx.data(decl).generics->0;
            let args = item_args(tcx, tr.def_id, tr, decl);
            &&& args.len() == tr.args@.len() + own.own_params@.len()
            &&& args.take(tr.args@.len() as int) == tr.args@
            &&& args.skip(tr.args@.len() as int) == own.identity_args@.skip(
                own.parent_count as int,
            )
            &&& own.own_params@.len() == 0 ==> args == tr.args@
        }),
{
    let decl = tcx.data(tr.def_id).associated_items@[i].def_id;
    tcx.lemma_complete(id);
    tcx.lemma_complete(tr.def_id);
    assert(tcx.adds_to(decl, tr.def_id));
    assert(tcx.known(decl));
    tcx.lemma_complete(decl);
    rebase_replaces_the_front(
        tcx.data(decl).generics->0.identity_args@,
        tcx.data(tr.def_id).generics->0.spec_count(),
        tr.args@,
    );
}

/// No item of a trait impl is lost: an item is found in the full definition unless a later item of
/// the impl implements the same trait item.
pub proof fn trait_impl_loses_no_item<Body: IsBody>(
    def: &FullDef<Body>,
    base: Base,
    id: DefId,
    tr: RTraitRef,
    n: int,
)
    requires
        base.tcx.wf(),
        base.tcx.known(id),
        id.kind is Impl,
        base.tcx.data(id).impl_subject == Some(ImplSubject::Trait(tr)),
        is_full_def(*def, Map::empty(), base, id),
        0 <= n < base.tcx.data(id).associated_items@.len(),
        provider(
            base.tcx.data(id).associated_items@,
            base.tcx.data(id).associated_items@[n].trait_item_def_id->0.spec_key(),
        ) == Some(n),
    ensures
        def.kind matches FullDefKind::TraitImpl { items, .. } && exists|i: int|
            0 <= i < items@.len() && (#[trigger] items@[i]).value is Provided
                && items@[i].spec_def().def_id == base.tcx.data(id).associated_items@[n].def_id,
{
    let tcx = *base.tcx;
    let assocs = tcx.data(id).associated_items@;
    let decls = tcx.data(tr.def_id).associated_items@;
    trait_impl_follows_the_trait(def, base, id, tr);
    tcx.lemma_complete(id);
    assert(provides_one_of(assocs[n], decls));
    let i = choose|i: int|
        0 <= i < decls.len() && (#[trigger] decls[i]).def_id.spec_key()
            == assocs[n].trait_item_def_id->0.spec_key();
    assert(follows(def.kind->TraitImpl_items@[i], decls[i], assocs));
}

// ---- children ----

/// The children of a trait or an inherent impl are its named items, in the order of their
/// definition, followed by the inherent items.
pub proof fn item_children_are_named_items<Body: IsBody>(
    def: &FullDef<Body>,
    cache: Map<CacheKey, Arc<FullDef<Body>>>,
    base: Base,
    id: DefId,
)
    requires
        id.promoted is None,
        is_full_def(*def, cache, base, id),
        def.kind is Trait || def.kind is InherentImpl,
    ensures
        def.spec_nameable_children(*base.tcx) == named_items(
            base.tcx.data(id).associated_items@,
        ) + inherent_children(*base.tcx, base.tcx.data(id).inherent_impls@),
{
    let s = base.spec_with_owner_id(id);
    let assocs = base.tcx.data(id).associated_items@;
    let items = if def.kind is Trait {
        def.kind->Trait_items@
    } else {
        def.kind->InherentImpl_items@
    };
    assert(are_assoc_items(items, cache, s, assocs));
    lemma_assoc_children(items, cache, s, assocs);
}

proof fn lemma_assoc_children<Body: IsBody>(
    items: Seq<(AssocItem, Arc<FullDef<Body>>)>,
    cache: Map<CacheKey, Arc<FullDef<Body>>>,
    s: State,
    assocs: Seq<RAssocItem>,
)
    requires
        are_assoc_items(items, cache, s, assocs),
    ensures
        assoc_children(items) == named_items(assocs),
    decreases items.len(),
{
    if items.len() > 0 {
        let items2 = items.drop_last();
        let assocs2 = assocs.drop_last();
        assert forall|i: int| 0 <= i < assocs2.len() implies (#[trigger] items2[i]).0
            == s.spec_assoc_item(assocs2[i]) && is_item_def(
            items2[i].1,
            cache,
            s.base,
            assocs2[i].def_id,
        ) by {
            assert(items2[i] == items[i]);
        }
        lemma_assoc_children(items2, cache, s, assocs2);
        assert(items.last().0 == s.spec_assoc_item(assocs.last()));
    }
}

/// A named item of an inherent impl of a definition is one of its children.
pub proof fn inherent_items_are_children<Body>(
    def: &FullDef<Body>,
    tcx: TyCtxt,
    n: int,
    m: int,
)
    requires
        def.def_id.promoted is None,
        0 <= n < tcx.data(def.def_id).inherent_impls@.len(),
        0 <= m < tcx.data(tcx.data(def.def_id).inherent_impls@[n]).associated_items@.len(),
        tcx.data(
            tcx.data(def.def_id).inherent_impls@[n],
        ).associated_items@[m].spec_opt_name() is Some,
    ensures
        ({
            let item = tcx.data(
                tcx.data(def.def_id).inherent_impls@[n],
            ).associated_items@[m];
            def.spec_nameable_children(tcx).contains((item.spec_opt_name()->0, item.def_id))
        }),
{
    let impls = tcx.data(def.def_id).inherent_impls@;
    let items = tcx.data(impls[n]).associated_items@;
    let c = (items[m].spec_opt_name()->0, items[m].def_id);
    lemma_named_item(items, m);
    lemma_inherent_child(tcx, impls, n, c);
    let own = own_children(def.kind);
    let all = inherent_children(tcx, impls);
    let i = choose|i: int| 0 <= i < all.len() && all[i] == c;
    assert((own + all)[own.len() + i] == c);
}

proof fn lemma_named_item(items: Seq<RAssocItem>, m: int)
    requires
        0 <= m < items.len(),
        items[m].spec_opt_name() is Some,
    ensures
        named_items(items).contains((items[m].spec_opt_name()->0, items[m].def_id)),
    decreases items.len(),
{
    let c = (items[m].spec_opt_name()->0, items[m].def_id);
    let rest = items.drop_last();
    if m < rest.len() {
        lemma_named_item(rest, m);
        let i = choose|i: int| 0 <= i < named_items(rest).len() && named_items(rest)[i] == c;
        assert(named_items(items)[i] == c);
    } else {
        assert(named_items(items)[named_items(rest).len() as int] == c);
    }
}

proof fn lemma_inherent_child(tcx: TyCtxt, impls: Seq<DefId>, n: int, c: Child)
    requires
        0 <= n < impls.len(),
        named_items(tcx.data(impls[n]).associated_items@).contains(c),
    ensures
        inherent_children(tcx, impls).contains(c),
    decreases impls.len(),
{
    let rest = impls.drop_last();
    let before = inherent_children(tcx, rest);
    let last = named_items(tcx.data(impls.last()).associated_items@);
    if n < rest.len() {
        lemma_inherent_child(tcx, rest, n, c);
        let i = choose|i: int| 0 <= i < before.len() && before[i] == c;
        assert((before + last)[i] == c);
    } else {
        let i = choose|i: int| 0 <= i < last.len() && last[i] == c;
        assert((before + last)[before.len() + i] == c);
    }
}

/// The named ones of the children of a module, in order.
pub open spec fn named_children(items: Seq<(Option<RIdent>, DefId)>) -> Seq<Child> {
    items.filter_map(
        |item: (Option<RIdent>, DefId)|
            child(
                match item.0 {
                    Some(ident) => Some(ident.name),
                    None => None,
                },
                item.1,
            ),
    )
}

/// The children of a module are its named children, in order, followed by the inherent items.
pub proof fn mod_children_are_named<Body: IsBody>(
    def: &FullDef<Body>,
    cache: Map<CacheKey, Arc<FullDef<Body>>>,
    base: Base,
    id: DefId,
)
    requires
        id.promoted is None,
        is_full_def(*def, cache, base, id),
        def.kind is Mod,
    ensures
        def.spec_nameable_children(*base.tcx) == named_children(
            spec_mod_children(base.tcx.data(id)),
        ) + inherent_children(*base.tcx, base.tcx.data(id).inherent_impls@),
{
    lemma_mod_children(def.kind->Mod_items@, spec_mod_children(base.tcx.data(id)));
}

proof fn lemma_mod_children(
    items: Seq<(Option<Ident>, DefId)>,
    children: Seq<(Option<RIdent>, DefId)>,
)
    requires
        items.len() == children.len(),
        forall|i: int|
            0 <= i < children.len() ==> (#[trigger] items[i]) == (
                spec_ident(children[i].0),
                children[i].1,
            ),
    ensures
        mod_children(items) == named_children(children),
    decreases items.len(),
{
    if items.len() > 0 {
        let items2 = items.drop_last();
        let children2 = children.drop_last();
        assert forall|i: int| 0 <= i < children2.len() implies (#[trigger] items2[i]) == (
            spec_ident(children2[i].0),
            children2[i].1,
        ) by {
            assert(items2[i] == items[i]);
        }
        lemma_mod_children(items2, children2);
        assert(items.last() == (spec_ident(children.last().0), children.last().1));
    }
}

/// The children of an enum are its variants, in order, followed by the inherent items. A struct or
/// a union has the inherent items only.
pub proof fn enum_children_are_variants<Body: IsBody>(
    def: &FullDef<Body>,
    cache: Map<CacheKey, Arc<FullDef<Body>>>,
    base: Base,
    id: DefId,
)
    requires
        id.promoted is None,
        is_full_def(*def, cache, base, id),
        def.kind is Adt,
    ensures
        def.spec_nameable_children(*base.tcx) == (if base.tcx.data(id).adt_def->0.kind
            == AdtKind::Enum {
            base.tcx.data(id).adt_def->0.variants@.map_values(
                |v: RVariantDef| (v.name, v.def_id),
            )
        } else {
            Seq::empty()
        }) + inherent_children(*base.tcx, base.tcx.data(id).inherent_impls@),
{
    let adt = base.tcx.data(id).adt_def->0;
    let variants = def.kind->Adt_variants@;
    let s = base.spec_with_owner_id(id);
    let names = adt.variants@.map_values(|v: RVariantDef| (v.name, v.def_id));
    assert forall|i: int| 0 <= i < names.len() implies names[i] == #[trigger] variant_children(
        variants,
    )[i] by {
        assert(s.is_variant_def(
            variants[i],
            adt.variants@[i],
            variant_discr(*base.tcx, adt, i),
        ));
    }
    assert(variant_children(variants) =~= names);
}

/// The item of a trait impl that stands for a trait item, under the name that the trait gives it.
pub open spec fn implementing_child(assocs: Seq<RAssocItem>, decl: RAssocItem) -> Option<Child> {
    child(
        decl.spec_opt_name(),
        match provider(assocs, decl.def_id.spec_key()) {
            Some(j) => assocs[j].def_id,
            None => decl.def_id,
        },
    )
}

/// The children of a trait impl are, for each named item of the trait, in the order of the trait,
/// what implements it: an item of the impl, or else the item of the trait itself.
pub proof fn trait_impl_children_are_implementations<Body: IsBody>(
    def: &FullDef<Body>,
    base: Base,
    id: DefId,
    tr: RTraitRef,
)
    requires
        base.tcx.wf(),
        base.tcx.known(id),
        id.kind is Impl,
        base.tcx.data(id).impl_subject == Some(ImplSubject::Trait(tr)),
        is_full_def(*def, Map::empty(), base, id),
    ensures
        own_children(def.kind) == base.tcx.data(tr.def_id).associated_items@.filter_map(
            |decl: RAssocItem| implementing_child(base.tcx.data(id).associated_items@, decl),
        ),
{
    trait_impl_follows_the_trait(def, base, id, tr);
    lemma_impl_children(
        def.kind->TraitImpl_items@,
        base.tcx.data(tr.def_id).associated_items@,
        base.tcx.data(id).associated_items@,
        |decl: RAssocItem| implementing_child(base.tcx.data(id).associated_items@, decl),
    );
}

proof fn lemma_impl_children<Body>(
    items: Seq<ImplAssocItem<Body>>,
    decls: Seq<RAssocItem>,
    assocs: Seq<RAssocItem>,
    f: spec_fn(RAssocItem) -> Option<Child>,
)
    requires
        items.len() == decls.len(),
        forall|i: int| 0 <= i < items.len() ==> follows(#[trigger] items[i], decls[i], assocs),
        forall|decl: RAssocItem| #[trigger] f(decl) == implementing_child(assocs, decl),
    ensures
        impl_children(items) == decls.filter_map(f),
    decreases items.len(),
{
    if items.len() > 0 {
        let items2 = items.drop_last();
        let decls2 = decls.drop_last();
        assert forall|i: int| 0 <= i < items2.len() implies follows(
            #[trigger] items2[i],
            decls2[i],
            assocs,
        ) by {
            assert(follows(items[i], decls[i], assocs));
        }
        lemma_impl_children(items2, decls2, assocs, f);
        assert(follows(items.last(), decls.last(), assocs));
    }
}

// ---- enclosing types ----

/// The definition `n` levels out from `id`.
pub open spec fn enclosing(id: DefId, n: nat) -> Option<DefId>
    decreases n,
{
    if n == 0 {
        Some(id)
    } else {
        match id.parent {
            None => None,
            Some(p) => enclosing(*p, (n - 1) as nat),
        }
    }
}

/// The closest type is the first struct, union or enum on the way out: what is `n` levels out is
/// the closest type if it is one and nothing on the way to it is.
pub proof fn closest_type_is_first(id: DefId, n: nat)
    requires
        enclosing(id, n) is Some,
        is_type_kind(enclosing(id, n)->0.kind),
        forall|m: nat| m < n ==> !is_type_kind((#[trigger] enclosing(id, m))->0.kind),
    ensures
        closest_type(id) == enclosing(id, n),
    decreases n,
{
    if n > 0 {
        assert(!is_type_kind(enclosing(id, 0)->0.kind));
        let p = *id.parent->0;
        assert forall|m: nat| m < n - 1 implies !is_type_kind(
            (#[trigger] enclosing(p, m))->0.kind,
        ) by {
            assert(enclosing(id, m + 1) == enclosing(p, m));
        }
        closest_type_is_first(p, (n - 1) as nat);
    }
}

/// There is a closest type exactly when the definition is, or stands in, a struct, union or enum.
pub proof fn closest_type_exists(id: DefId)
    ensures
        closest_type(id) is Some <==> exists|n: nat|
            (#[trigger] enclosing(id, n)) is Some && is_type_kind(enclosing(id, n)->0.kind),
    decreases id,
{
    if is_type_kind(id.kind) {
        assert(enclosing(id, 0) == Some(id));
    } else if id.parent is Some {
        let p = *id.parent->0;
        closest_type_exists(p);
        if closest_type(id) is Some {
            let n = choose|n: nat|
                (#[trigger] enclosing(p, n)) is Some && is_type_kind(enclosing(p, n)->0.kind);
            assert(enclosing(id, n + 1) == enclosing(p, n));
        }
        if exists|n: nat|
            (#[trigger] enclosing(id, n)) is Some && is_type_kind(enclosing(id, n)->0.kind) {
            let n = choose|n: nat|
                (#[trigger] enclosing(id, n)) is Some && is_type_kind(enclosing(id, n)->0.kind);
            assert(n > 0);
            assert(enclosing(p, (n - 1) as nat) == enclosing(id, n));
        }
    }
}

// ---- generic arguments and signatures ----

/// Moving arguments to other generics puts the new ones first and keeps those that are not the
/// ancestor's. With the arguments of the ancestor alone, only the new ones are left.
pub proof fn rebase_replaces_the_front(
    args: Seq<GenericArg>,
    ancestor_count: int,
    target: Seq<GenericArg>,
)
    requires
        0 <= ancestor_count <= args.len(),
    ensures
        spec_rebase_onto(args, ancestor_count, target).len() == target.len() + args.len()
            - ancestor_count,
        spec_rebase_onto(args, ancestor_count, target).take(target.len() as int) == target,
        spec_rebase_onto(args, ancestor_count, target).skip(target.len() as int) == args.skip(
            ancestor_count,
        ),
        ancestor_count == args.len() ==> spec_rebase_onto(args, ancestor_count, target) == target,
{
    let r = spec_rebase_onto(args, ancestor_count, target);
    assert(r.take(target.len() as int) =~= target);
    assert(r.skip(target.len() as int) =~= args.skip(ancestor_count));
    if ancestor_count == args.len() {
        assert(r =~= target);
    }
}

/// The number of variables that the binder of a signature introduces.
pub open spec fn bound_vars(sig: RPolyFnSig) -> usize {
    match sig {
        RPolyFnSig::Declared(sig) => sig.bound_vars,
        RPolyFnSig::Instantiated { sig, .. } => sig.bound_vars,
    }
}

/// The signature that is exported for a method of a trait impl has as many bound variables as the
/// one that the trait declares.
pub proof fn method_signature_fits_the_trait(tcx: TyCtxt, id: DefId, sig: RPolyFnSig)
    requires
        is_method_sig(sig, tcx, id),
        implemented_item(tcx.data(id)) is Some,
    ensures
        bound_vars(sig) == tcx.data(implemented_item(tcx.data(id))->0).fn_sig->0.bound_vars,
{
}

} // verus!
