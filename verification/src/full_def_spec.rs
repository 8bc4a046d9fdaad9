//! What the full definition of a definition is.
//!
//! The predicates here say of a value that it is the full definition of a definition, given the
//! compiler's answers. They fix every field of it; lists are compared by what they hold.
use crate::body::{IsBody, RMir};
use crate::cache::CacheKey;
use crate::convert::{are_generics, spec_ident};
use crate::def_id::{CtorOf, DefId, DefKind};
use crate::full_def::{
    ConstKind, FullDef, FullDefKind, ImplAssocItem, ImplAssocItemValue, ParamEnv, VirtualTraitImpl,
};
use crate::rustc_utils::{
    is_method_sig, spec_closure_once_shim, spec_drop_glue_shim, spec_foreign_mod_children,
    spec_mod_children,
};
use crate::span::{RSpan, Span};
use crate::state::{Base, State};
use crate::tcx::{built_by, ctor_adt, provider, TyCtxt};
use crate::traits::{are_implied_impl_exprs, are_implied_impl_exprs_in, spec_rebase_onto};
use crate::ty::{
    AdtKind, AssocItem, AssocKind, ClosureKind, Constness, GenericArg, GenericPredicates, ImplExpr,
    ImplPolarity, ImplSubject, RAdtDef, RAssocItem, RDiscr, RPolyFnSig, RTraitRef, RTy,
    TraitPredicate, Ty,
};
use std::sync::Arc;
use vstd::prelude::*;

verus! {

// ---- generics and predicates ----

/// The generics and the required predicates of the owner.
pub open spec fn is_param_env(p: ParamEnv, s: State) -> bool {
    &&& are_generics(p.generics, s.base.tcx.data(s.owner).generics->0)
    &&& s.are_predicates(
        p.predicates,
        s.base.tcx.spec_required_predicates(s.owner, s.base.options.resolve_drop_bounds),
    )
}

/// The predicates that the owner implies.
pub open spec fn are_owner_implied_predicates(p: GenericPredicates, s: State) -> bool {
    s.are_predicates(
        p,
        s.base.tcx.spec_implied_predicates(s.owner, s.base.options.resolve_drop_bounds),
    )
}

/// The `Self: Trait` clause of the owner.
pub open spec fn spec_self_predicate(s: State) -> TraitPredicate {
    TraitPredicate {
        trait_ref: s.spec_trait_ref(s.base.tcx.data(s.owner).self_predicate->0.trait_ref),
        is_positive: true,
    }
}

// ---- bodies ----

/// The code that drops a value of the owner's type.
pub open spec fn spec_drop_glue<Body: IsBody>(s: State) -> Option<Body> {
    match spec_drop_glue_shim(*s.base.tcx, s.owner) {
        None => None,
        Some(mir) => Body::spec_from_mir(s, mir),
    }
}

/// The `call_once` method of a closure.
pub open spec fn spec_once_shim<Body: IsBody>(s: State, closure_ty: RTy) -> Option<Body> {
    match spec_closure_once_shim(closure_ty) {
        None => None,
        Some(mir) => Body::spec_from_mir(s, mir),
    }
}

// ---- kinds that hold no other full definition ----

/// The discriminant of a variant: what the compiler computes for an enum, and 0 otherwise.
pub open spec fn variant_discr(tcx: TyCtxt, adt: RAdtDef, i: int) -> RDiscr {
    if adt.kind == AdtKind::Enum {
        adt.variants@[i].discr_val
    } else {
        RDiscr { val: 0, ty: tcx.isize_ty }
    }
}

pub open spec fn is_adt_kind<Body: IsBody>(k: FullDefKind<Body>, s: State) -> bool {
    let adt = s.base.tcx.data(s.owner).adt_def->0;
    k matches FullDefKind::Adt { param_env, adt_kind, variants, flags, repr, drop_glue } && {
        &&& is_param_env(param_env, s)
        &&& adt_kind == adt.kind
        &&& variants@.len() == adt.variants@.len()
        &&& forall|i: int|
            0 <= i < variants@.len() ==> s.is_variant_def(
                #[trigger] variants@[i],
                adt.variants@[i],
                variant_discr(*s.base.tcx, adt, i),
            )
        &&& flags == adt.flags
        &&& repr == adt.repr
        &&& drop_glue == spec_drop_glue::<Body>(s)
    }
}

/// The associated types among associated items, in order.
pub open spec fn type_items(items: Seq<RAssocItem>) -> Seq<RAssocItem>
    decreases items.len(),
{
    if items.len() == 0 {
        Seq::empty()
    } else {
        let rest = type_items(items.drop_last());
        if items.last().kind is Type {
            rest.push(items.last())
        } else {
            rest
        }
    }
}

/// The associated type `item` of a trait reference with arguments `args`, and the implementations
/// that it needs.
pub open spec fn is_virtual_type(
    t: (Ty, Vec<ImplExpr>),
    s: State,
    item: DefId,
    args: Seq<GenericArg>,
) -> bool {
    &&& t.0.scope == s.spec_scope()
    &&& t.0.ty matches RTy::Projection { def_id, args: type_args } && def_id == item
        && type_args@ == args
    &&& are_implied_impl_exprs(t.1@, s, item, args)
}

/// An impl of the trait `trait_id` for `args`.
pub open spec fn is_virtual_impl(
    v: VirtualTraitImpl,
    s: State,
    trait_id: DefId,
    args: Seq<GenericArg>,
) -> bool {
    let items = type_items(s.base.tcx.data(trait_id).associated_items@);
    &&& v.trait_pred.trait_ref.scope == s.spec_scope()
    &&& v.trait_pred.trait_ref.def_id == trait_id
    &&& v.trait_pred.trait_ref.generic_args@ == args
    &&& v.trait_pred.is_positive
    &&& are_implied_impl_exprs(v.implied_impl_exprs@, s, trait_id, args)
    &&& v.types@.len() == items.len()
    &&& forall|i: int|
        0 <= i < items.len() ==> is_virtual_type(
            #[trigger] v.types@[i],
            s,
            items[i].def_id,
            args,
        )
}

/// The arguments of the `Fn*` traits for a closure: the closure, and the tuple of its arguments
/// with lifetimes erased.
pub open spec fn closure_trait_args(closure_ty: RTy) -> Seq<GenericArg> {
    seq![
        GenericArg::Type(closure_ty),
        GenericArg::Type(RTy::RegionsErased(Arc::new(closure_ty->closure.inputs@[0]))),
    ]
}

pub open spec fn is_closure_kind<Body: IsBody>(k: FullDefKind<Body>, s: State) -> bool {
    let tcx = *s.base.tcx;
    let d = tcx.data(s.owner);
    let ty = d.type_of->0;
    let call_kind = ty->closure.kind;
    k matches FullDefKind::Closure {
        args,
        is_const,
        fn_once_impl,
        fn_mut_impl,
        fn_impl,
        once_shim,
        drop_glue,
    } && {
        &&& args == s.spec_closure_args(s.owner, ty->closure)
        &&& is_const == (d.constness->0 == Constness::Const)
        &&& is_virtual_impl(
            *fn_once_impl,
            s,
            tcx.lang_items.fn_once_trait->0,
            closure_trait_args(ty),
        )
        &&& fn_mut_impl is Some <==> call_kind == ClosureKind::FnMut || call_kind
            == ClosureKind::Fn
        &&& fn_mut_impl is Some ==> is_virtual_impl(
            *fn_mut_impl->0,
            s,
            tcx.lang_items.fn_mut_trait->0,
            closure_trait_args(ty),
        )
        &&& fn_impl is Some <==> call_kind == ClosureKind::Fn
        &&& fn_impl is Some ==> is_virtual_impl(
            *fn_impl->0,
            s,
            tcx.lang_items.fn_trait->0,
            closure_trait_args(ty),
        )
        &&& once_shim == spec_once_shim::<Body>(s, ty)
        &&& drop_glue == spec_drop_glue::<Body>(s)
    }
}

pub open spec fn is_const_kind<Body: IsBody>(
    k: FullDefKind<Body>,
    s: State,
    const_kind: ConstKind,
) -> bool {
    k matches FullDefKind::Const { param_env, ty, kind, body } && {
        &&& is_param_env(param_env, s)
        &&& ty == s.spec_ty(s.base.tcx.data(s.owner).type_of->0)
        &&& kind == const_kind
        &&& body == Body::spec_body(s.owner, s)
    }
}

pub open spec fn is_ctor_kind<Body: IsBody>(
    k: FullDefKind<Body>,
    s: State,
    of: CtorOf,
) -> bool {
    let adt_id = ctor_adt(s.owner, of)->0;
    let adt = s.base.tcx.data(adt_id).adt_def->0;
    k matches FullDefKind::Ctor { adt_def_id, ctor_of, variant_id, fields, output_ty } && {
        &&& adt_def_id == adt_id
        &&& ctor_of == of
        &&& variant_id < adt.variants@.len()
        &&& built_by(adt.variants@[variant_id as int].ctor, s.owner.spec_key())
        &&& forall|i: int|
            0 <= i < variant_id ==> !built_by(
                #[trigger] adt.variants@[i].ctor,
                s.owner.spec_key(),
            )
        &&& s.are_field_defs(fields@, adt.variants@[variant_id as int].fields@)
        &&& output_ty == s.spec_ty(
            RTy::Adt {
                def_id: adt.did,
                args: s.base.tcx.data(adt_id).generics->0.identity_args,
            },
        )
    }
}

/// `k` is the kind of the owner of `s`, which is neither a trait nor an impl.
pub open spec fn is_simple_kind<Body: IsBody>(k: FullDefKind<Body>, s: State) -> bool {
    let tcx = *s.base.tcx;
    let d = tcx.data(s.owner);
    match s.owner.kind {
        DefKind::Struct | DefKind::Union | DefKind::Enum => is_adt_kind(k, s),
        DefKind::TyAlias => {
            let s = s.spec_with_base(s.base.spec_keep_aliases());
            k matches FullDefKind::TyAlias { param_env, ty } && is_param_env(param_env, s) && ty
                == s.spec_ty(d.type_of->0)
        },
        DefKind::ForeignTy => k is ForeignTy,
        DefKind::AssocTy => k matches FullDefKind::AssocTy {
            param_env,
            implied_predicates,
            associated_item,
            value,
        } && {
            &&& is_param_env(param_env, s)
            &&& are_owner_implied_predicates(implied_predicates, s)
            &&& associated_item == s.spec_assoc_item(d.associated_item->0)
            &&& value == (if d.defaultness->0.spec_has_value() {
                Some(s.spec_ty(d.type_of->0))
            } else {
                None
            })
        },
        DefKind::OpaqueTy => k is OpaqueTy,
        DefKind::TraitAlias => k matches FullDefKind::TraitAlias {
            param_env,
            implied_predicates,
            self_predicate,
        } && {
            &&& is_param_env(param_env, s)
            &&& are_owner_implied_predicates(implied_predicates, s)
            &&& self_predicate == spec_self_predicate(s)
        },
        DefKind::Fn => k matches FullDefKind::Fn { param_env, inline, is_const, sig, body } && {
            &&& is_param_env(param_env, s)
            &&& inline == d.inline->0
            &&& is_const == (d.constness->0 == Constness::Const)
            &&& sig == s.spec_poly_fn_sig(RPolyFnSig::Declared(d.fn_sig->0))
            &&& body == Body::spec_body(s.owner, s)
        },
        DefKind::AssocFn => k matches FullDefKind::AssocFn {
            param_env,
            associated_item,
            inline,
            is_const,
            sig,
            body,
        } && {
            &&& is_param_env(param_env, s)
            &&& associated_item == s.spec_assoc_item(d.associated_item->0)
            &&& inline == d.inline->0
            &&& is_const == (d.constness->0 == Constness::Const)
            &&& sig.scope == s.spec_scope()
            &&& is_method_sig(sig.sig, tcx, s.owner)
            &&& body == Body::spec_body(s.owner, s)
        },
        DefKind::Closure => is_closure_kind(k, s),
        DefKind::Const => is_const_kind(k, s, ConstKind::TopLevel),
        DefKind::AnonConst => is_const_kind(k, s, ConstKind::AnonConst),
        DefKind::InlineConst => is_const_kind(k, s, ConstKind::InlineConst),
        DefKind::AssocConst => k matches FullDefKind::AssocConst {
            param_env,
            associated_item,
            ty,
            body,
        } && {
            &&& is_param_env(param_env, s)
            &&& associated_item == s.spec_assoc_item(d.associated_item->0)
            &&& ty == s.spec_ty(d.type_of->0)
            &&& body == Body::spec_body(s.owner, s)
        },
        DefKind::Static { safety, mutability, nested } => k matches FullDefKind::Static {
            param_env,
            safety: k_safety,
            mutability: k_mutability,
            nested: k_nested,
            ty,
            body,
        } && {
            &&& is_param_env(param_env, s)
            &&& k_safety == safety
            &&& k_mutability == mutability
            &&& k_nested == nested
            &&& ty == s.spec_ty(d.type_of->0)
            &&& body == Body::spec_body(s.owner, s)
        },
        DefKind::ExternCrate => k is ExternCrate,
        DefKind::Use => k is Use,
        DefKind::Mod => k matches FullDefKind::Mod { items } && {
            let children = spec_mod_children(d);
            &&& items@.len() == children.len()
            &&& forall|i: int|
                0 <= i < children.len() ==> (#[trigger] items@[i]) == (
                    spec_ident(children[i].0),
                    children[i].1,
                )
        },
        DefKind::ForeignMod => k matches FullDefKind::ForeignMod { items } && items@
            == spec_foreign_mod_children(d),
        DefKind::TyParam => k is TyParam,
        DefKind::ConstParam => k is ConstParam,
        DefKind::LifetimeParam => k is LifetimeParam,
        DefKind::Variant => k is Variant,
        DefKind::Ctor(ctor_of, _) => is_ctor_kind(k, s, ctor_of),
        DefKind::Field => k is Field,
        DefKind::Macro(kind) => k == FullDefKind::<Body>::Macro(kind),
        DefKind::GlobalAsm => k is GlobalAsm,
        DefKind::SyntheticCoroutineBody => k is SyntheticCoroutineBody,
        DefKind::Trait | DefKind::Impl { .. } | DefKind::PromotedConst => false,
    }
}

// ---- what all definitions have ----

/// The place of a definition that diagnostics point to. A block of foreign items has none.
pub open spec fn spec_def_span(id: DefId, tcx: TyCtxt) -> Span {
    if id.kind == DefKind::ForeignMod {
        tcx.dummy_sp.spec_span()
    } else {
        tcx.data(id.spec_underlying()).def_span->0.spec_span()
    }
}

/// `def` says that the text of the definition stands at `span`. The text itself is given unless a
/// macro produced it.
pub open spec fn has_source<Body>(def: FullDef<Body>, span: Option<RSpan>) -> bool {
    &&& def.source_span == (match span {
        None => None,
        Some(span) => Some(span.spec_span()),
    })
    &&& def.source_text == (match span {
        None => None,
        Some(span) => if span.spec_is_root() {
            span.snippet
        } else {
            None
        },
    })
}

/// What `def` says about `id` besides its kind.
pub open spec fn is_header<Body>(def: FullDef<Body>, tcx: TyCtxt, id: DefId) -> bool {
    let d = tcx.data(id);
    &&& def.def_id == id
    &&& def.span == spec_def_span(id, tcx)
    &&& has_source(
        def,
        if id.spec_is_local() {
            Some(d.source_span->0)
        } else {
            None
        },
    )
    &&& def.attributes@ == (if id.kind.spec_has_attributes() {
        d.attrs->0@
    } else {
        Seq::empty()
    })
    &&& def.visibility == (if id.kind.spec_has_visibility() {
        Some(d.visibility->0 is Public)
    } else {
        None
    })
    &&& def.lang_item == d.lang_item
    &&& def.diagnostic_item == d.diagnostic_item
}

/// `def` is the full definition of `id`, which is neither a trait, an impl nor a promoted constant.
pub open spec fn is_simple_def<Body: IsBody>(def: FullDef<Body>, base: Base, id: DefId) -> bool {
    is_header(def, *base.tcx, id) && is_simple_kind(def.kind, base.spec_with_owner_id(id))
}

// ---- traits and impls, which hold the full definitions of their items ----

/// `def` is what stands for the associated item `id`: what `cache` holds for it, or else its full
/// definition.
pub open spec fn is_item_def<Body: IsBody>(
    def: Arc<FullDef<Body>>,
    cache: Map<CacheKey, Arc<FullDef<Body>>>,
    base: Base,
    id: DefId,
) -> bool {
    if cache.contains_key(id.cache_key()) {
        def == cache[id.cache_key()]
    } else {
        is_simple_def(*def, base, id)
    }
}

/// The associated items of the owner with their definitions, in order.
pub open spec fn are_assoc_items<Body: IsBody>(
    items: Seq<(AssocItem, Arc<FullDef<Body>>)>,
    cache: Map<CacheKey, Arc<FullDef<Body>>>,
    s: State,
    assocs: Seq<RAssocItem>,
) -> bool {
    &&& items.len() == assocs.len()
    &&& forall|i: int|
        0 <= i < assocs.len() ==> {
            &&& (#[trigger] items[i]).0 == s.spec_assoc_item(assocs[i])
            &&& is_item_def(items[i].1, cache, s.base, assocs[i].def_id)
        }
}

/// The arguments for the generics of a trait item, in the terms of `item`: the item of an impl
/// that implements it, or the trait item itself. `container` is the impl or the trait that `item`
/// stands in. Subtlety: the arguments of a generic associated type, if any, are added to those of
/// the trait reference.
pub open spec fn item_args(tcx: TyCtxt, container: DefId, tr: RTraitRef, item: DefId) -> Seq<
    GenericArg,
> {
    spec_rebase_onto(
        tcx.data(item).generics->0.identity_args@,
        tcx.data(container).generics->0.spec_count(),
        tr.args@,
    )
}

/// The default that a trait declares for its associated type `decl`, read for the impl of `tr` that
/// owns `s`. The parameters of a generic associated type stay as `decl` declares them.
pub open spec fn is_default_type(t: Ty, s: State, tr: RTraitRef, decl: DefId) -> bool {
    &&& t.scope == s.spec_default_scope(decl)
    &&& t.ty matches RTy::Instantiated { ty, args } && *ty == s.base.tcx.data(decl).type_of->0
        && args@ == item_args(*s.base.tcx, tr.def_id, tr, decl)
}

/// The item `x` of the impl that owns `s`, for the item `decl` of the trait.
pub open spec fn is_impl_item<Body: IsBody>(
    x: ImplAssocItem<Body>,
    cache: Map<CacheKey, Arc<FullDef<Body>>>,
    s: State,
    tr: RTraitRef,
    decl: RAssocItem,
) -> bool {
    let tcx = *s.base.tcx;
    let items = tcx.data(s.owner).associated_items@;
    &&& x.name == decl.spec_opt_name()
    &&& is_item_def(x.decl_def, cache, s.base, decl.def_id)
    &&& match provider(items, decl.def_id.spec_key()) {
        Some(i) => {
            let item = items[i].def_id;
            &&& x.value matches ImplAssocItemValue::Provided { def, is_override } && {
                &&& is_item_def(def, cache, s.base, item)
                &&& is_override == tcx.data(decl.def_id).defaultness->0.spec_has_value()
            }
            &&& are_implied_impl_exprs(
                x.required_impl_exprs@,
                s.base.spec_with_owner_id(item),
                decl.def_id,
                item_args(tcx, s.owner, tr, item),
            )
        },
        None => {
            &&& match decl.kind {
                AssocKind::Type { .. } => x.value matches ImplAssocItemValue::DefaultedTy { ty }
                    && is_default_type(ty, s, tr, decl.def_id),
                AssocKind::Fn { .. } => x.value is DefaultedFn,
                AssocKind::Const { .. } => x.value is DefaultedConst,
            }
            &&& are_implied_impl_exprs_in(
                x.required_impl_exprs@,
                s,
                s.spec_default_scope(decl.def_id),
                decl.def_id,
                item_args(tcx, tr.def_id, tr, decl.def_id),
            )
        },
    }
}

/// `k` is the kind of the owner of `s`, a trait.
pub open spec fn is_trait_kind<Body: IsBody>(
    k: FullDefKind<Body>,
    cache: Map<CacheKey, Arc<FullDef<Body>>>,
    s: State,
) -> bool {
    k matches FullDefKind::Trait { param_env, implied_predicates, self_predicate, items } && {
        &&& is_param_env(param_env, s)
        &&& are_owner_implied_predicates(implied_predicates, s)
        &&& self_predicate == spec_self_predicate(s)
        &&& are_assoc_items(items@, cache, s, s.base.tcx.data(s.owner).associated_items@)
    }
}

/// `items` are the items of the impl that owns `s`, one for each of the items `decls` of the trait,
/// in the order of the trait.
pub open spec fn are_impl_items<Body: IsBody>(
    items: Seq<ImplAssocItem<Body>>,
    cache: Map<CacheKey, Arc<FullDef<Body>>>,
    s: State,
    tr: RTraitRef,
    decls: Seq<RAssocItem>,
) -> bool {
    &&& items.len() == decls.len()
    &&& forall|i: int|
        0 <= i < decls.len() ==> is_impl_item(#[trigger] items[i], cache, s, tr, decls[i])
}

/// `k` is the kind of the owner of `s`, an impl of the trait reference `tr`.
pub open spec fn is_trait_impl_kind<Body: IsBody>(
    k: FullDefKind<Body>,
    cache: Map<CacheKey, Arc<FullDef<Body>>>,
    s: State,
    tr: RTraitRef,
) -> bool {
    let d = s.base.tcx.data(s.owner);
    let decls = s.base.tcx.data(tr.def_id).associated_items@;
    k matches FullDefKind::TraitImpl { param_env, trait_pred, implied_impl_exprs, items } && {
        &&& is_param_env(param_env, s)
        &&& trait_pred == (TraitPredicate {
            trait_ref: s.spec_trait_ref(tr),
            is_positive: d.impl_polarity->0 == ImplPolarity::Positive,
        })
        &&& are_implied_impl_exprs(implied_impl_exprs@, s, tr.def_id, tr.args@)
        &&& are_impl_items(items@, cache, s, tr, decls)
    }
}

pub open spec fn is_inherent_impl_kind<Body: IsBody>(
    k: FullDefKind<Body>,
    cache: Map<CacheKey, Arc<FullDef<Body>>>,
    s: State,
    subject: RTy,
) -> bool {
    k matches FullDefKind::InherentImpl { param_env, ty, items } && {
        &&& is_param_env(param_env, s)
        &&& ty == s.spec_ty(subject)
        &&& are_assoc_items(items@, cache, s, s.base.tcx.data(s.owner).associated_items@)
    }
}

/// `k` is the kind of the owner of `s`, with what `cache` holds for the items of a trait or an
/// impl.
pub open spec fn is_full_def_kind<Body: IsBody>(
    k: FullDefKind<Body>,
    cache: Map<CacheKey, Arc<FullDef<Body>>>,
    s: State,
) -> bool {
    match s.owner.kind {
        DefKind::Trait => is_trait_kind(k, cache, s),
        DefKind::Impl { .. } => match s.base.tcx.data(s.owner).impl_subject->0 {
            ImplSubject::Inherent(subject) => is_inherent_impl_kind(k, cache, s, subject),
            ImplSubject::Trait(tr) => is_trait_impl_kind(k, cache, s, tr),
        },
        _ => is_simple_kind(k, s),
    }
}

// ---- promoted constants ----

/// The number of generic parameters of the definition `id`, from what `cache` holds for it, or
/// else from the compiler.
pub open spec fn param_count<Body>(
    cache: Map<CacheKey, Arc<FullDef<Body>>>,
    tcx: TyCtxt,
    id: DefId,
) -> int {
    if cache.contains_key(id.cache_key()) {
        cache[id.cache_key()].spec_param_env()->0.generics.spec_count_total_params()
    } else {
        tcx.data(id).generics->0.spec_count()
    }
}

/// The kind of a promoted constant: a constant without parameters of its own.
pub open spec fn is_promoted_kind<Body: IsBody>(
    k: FullDefKind<Body>,
    cache: Map<CacheKey, Arc<FullDef<Body>>>,
    base: Base,
    id: DefId,
) -> bool {
    let from = id.spec_underlying();
    let s = base.spec_with_owner_id(from);
    let mir = base.tcx.data(from).promoted_mir@[id.promoted->0.id as int];
    k matches FullDefKind::Const { param_env, ty, kind, body } && {
        &&& param_env.generics.parent == Some(from)
        &&& param_env.generics.parent_count == param_count(cache, *base.tcx, from)
        &&& param_env.generics.params@.len() == 0
        &&& !param_env.generics.has_self
        &&& param_env.generics.has_late_bound_regions is None
        &&& param_env.predicates.predicates@.len() == 0
        &&& ty == s.spec_ty(mir.local_decls@[0])
        &&& kind == ConstKind::PromotedConst
        &&& body == Body::spec_from_mir(
            s,
            RMir::Promoted { def_id: from, promoted: id.promoted->0 },
        )
    }
}

/// A promoted constant, which is described by its body alone.
pub open spec fn is_promoted_def<Body: IsBody>(
    def: FullDef<Body>,
    cache: Map<CacheKey, Arc<FullDef<Body>>>,
    base: Base,
    id: DefId,
) -> bool {
    let mir = base.tcx.data(id.spec_underlying()).promoted_mir@[id.promoted->0.id as int];
    &&& def.def_id == id
    &&& def.span == spec_def_span(id, *base.tcx)
    &&& has_source(def, Some(mir.span))
    &&& def.attributes@.len() == 0
    &&& def.visibility is None
    &&& def.lang_item is None
    &&& def.diagnostic_item is None
    &&& is_promoted_kind(def.kind, cache, base, id)
}

// ---- all definitions ----

/// `def` is the full definition of `id`, with what `cache` holds for the other definitions that it
/// speaks of.
pub open spec fn is_full_def<Body: IsBody>(
    def: FullDef<Body>,
    cache: Map<CacheKey, Arc<FullDef<Body>>>,
    base: Base,
    id: DefId,
) -> bool {
    if id.promoted is Some {
        is_promoted_def(def, cache, base, id)
    } else {
        is_header(def, *base.tcx, id) && is_full_def_kind(
            def.kind,
            cache,
            base.spec_with_owner_id(id),
        )
    }
}

/// `def` is what stands for `id`: what `cache` holds for it, or else its full definition.
pub open spec fn resolves_to<Body: IsBody>(
    def: Arc<FullDef<Body>>,
    cache: Map<CacheKey, Arc<FullDef<Body>>>,
    base: Base,
    id: DefId,
) -> bool {
    if cache.contains_key(id.cache_key()) {
        def == cache[id.cache_key()]
    } else {
        is_full_def(*def, cache, base, id)
    }
}

// ---- what a lookup needs, and what it leaves in the cache ----

/// The table has answers about the definition, or about the one whose body it comes from.
pub open spec fn knows(tcx: TyCtxt, id: DefId) -> bool {
    id.wf() && tcx.known(id.spec_underlying())
}

/// What the full definition of a promoted constant is made from is known: the compiler has its
/// body, and the definition that it comes from has generics.
pub open spec fn promoted_known<Body>(
    cache: Map<CacheKey, Arc<FullDef<Body>>>,
    tcx: TyCtxt,
    id: DefId,
) -> bool {
    id.promoted is Some ==> {
        let from = id.spec_underlying();
        &&& id.promoted->0.id < tcx.data(from).promoted_mir@.len()
        &&& tcx.data(from).promoted_mir@[id.promoted->0.id as int].local_decls@.len() > 0
        &&& if cache.contains_key(from.cache_key()) {
            &&& cache[from.cache_key()].spec_param_env() is Some
            &&& param_count(cache, tcx, from) <= usize::MAX
        } else {
            from.kind.spec_has_param_env()
        }
    }
}

pub open spec fn item_keys(items: Seq<RAssocItem>) -> Set<CacheKey> {
    Set::new(
        |k: CacheKey|
            exists|i: int| 0 <= i < items.len() && (#[trigger] items[i]).def_id.cache_key() == k,
    )
}

/// The items of an impl that provide one of the trait items `decls`.
pub open spec fn provided_keys(items: Seq<RAssocItem>, decls: Seq<RAssocItem>) -> Set<CacheKey> {
    Set::new(
        |k: CacheKey|
            exists|m: int|
                0 <= m < decls.len() && is_provided_as(items, #[trigger] decls[m], k),
    )
}

pub open spec fn is_provided_as(items: Seq<RAssocItem>, decl: RAssocItem, k: CacheKey) -> bool {
    provider(items, decl.def_id.spec_key()) matches Some(j) && items[j].def_id.cache_key() == k
}

/// The definitions that the full definition of `id` holds.
pub open spec fn nested_keys(tcx: TyCtxt, id: DefId) -> Set<CacheKey> {
    let items = tcx.data(id).associated_items@;
    match id.kind {
        DefKind::Trait => item_keys(items),
        DefKind::Impl { .. } => match tcx.data(id).impl_subject->0 {
            ImplSubject::Inherent(_) => item_keys(items),
            ImplSubject::Trait(tr) => {
                let decls = tcx.data(tr.def_id).associated_items@;
                item_keys(decls).union(provided_keys(items, decls))
            },
        },
        _ => Set::empty(),
    }
}

/// The definitions that are in the cache once those are that the full definition of `id` is made
/// from, besides what was there before.
pub open spec fn needed_keys<Body>(
    cache: Map<CacheKey, Arc<FullDef<Body>>>,
    tcx: TyCtxt,
    id: DefId,
) -> Set<CacheKey> {
    if id.promoted is Some {
        let from = id.spec_underlying();
        if cache.contains_key(from.cache_key()) {
            Set::empty()
        } else {
            nested_keys(tcx, from).insert(from.cache_key())
        }
    } else {
        nested_keys(tcx, id)
    }
}

/// `def` is what `cache` holds for `id`.
pub open spec fn is_held<Body>(
    def: Arc<FullDef<Body>>,
    cache: Map<CacheKey, Arc<FullDef<Body>>>,
    id: DefId,
) -> bool {
    cache.contains_key(id.cache_key()) && cache[id.cache_key()] == def
}

/// The definitions that are listed for the associated items are what `cache` holds for them.
pub open spec fn are_items_held<Body>(
    items: Seq<(AssocItem, Arc<FullDef<Body>>)>,
    cache: Map<CacheKey, Arc<FullDef<Body>>>,
    assocs: Seq<RAssocItem>,
) -> bool {
    forall|i: int|
        0 <= i < items.len() ==> is_held((#[trigger] items[i]).1, cache, assocs[i].def_id)
}

/// The definitions in the item of a trait impl with the items `assocs` are what `cache` holds for
/// the item of the trait and for the one that implements it.
pub open spec fn is_impl_item_held<Body>(
    x: ImplAssocItem<Body>,
    cache: Map<CacheKey, Arc<FullDef<Body>>>,
    decl: RAssocItem,
    assocs: Seq<RAssocItem>,
) -> bool {
    &&& is_held(x.decl_def, cache, decl.def_id)
    &&& x.value matches ImplAssocItemValue::Provided { def, .. } ==> is_held(
        def,
        cache,
        assocs[provider(assocs, decl.def_id.spec_key())->0].def_id,
    )
}

pub open spec fn are_impl_items_held<Body>(
    items: Seq<ImplAssocItem<Body>>,
    cache: Map<CacheKey, Arc<FullDef<Body>>>,
    decls: Seq<RAssocItem>,
    assocs: Seq<RAssocItem>,
) -> bool {
    forall|i: int|
        0 <= i < items.len() ==> is_impl_item_held(#[trigger] items[i], cache, decls[i], assocs)
}

/// The full definitions that the kind `k` of `id` lists are shared with `cache`.
pub open spec fn lists_held<Body>(
    k: FullDefKind<Body>,
    cache: Map<CacheKey, Arc<FullDef<Body>>>,
    tcx: TyCtxt,
    id: DefId,
) -> bool {
    let assocs = tcx.data(id).associated_items@;
    match id.kind {
        DefKind::Trait => k matches FullDefKind::Trait { items, .. } ==> are_items_held(
            items@,
            cache,
            assocs,
        ),
        DefKind::Impl { .. } => match tcx.data(id).impl_subject->0 {
            ImplSubject::Inherent(_) => k matches FullDefKind::InherentImpl { items, .. }
                ==> are_items_held(items@, cache, assocs),
            ImplSubject::Trait(tr) => k matches FullDefKind::TraitImpl { items, .. }
                ==> are_impl_items_held(
                items@,
                cache,
                tcx.data(tr.def_id).associated_items@,
                assocs,
            ),
        },
        _ => true,
    }
}

/// `def` is the full definition of the definition that `key` identifies, and what it lists is
/// shared with the cache `after`.
pub open spec fn is_new_entry<Body: IsBody>(
    def: Arc<FullDef<Body>>,
    key: CacheKey,
    before: Map<CacheKey, Arc<FullDef<Body>>>,
    after: Map<CacheKey, Arc<FullDef<Body>>>,
    base: Base,
) -> bool {
    is_entry(def, key, before, base) && lists_held(def.kind, after, *base.tcx, def.def_id)
}

/// `after` holds what `before` holds and, under `keys`, full definitions made with what `before`
/// holds. What those list is shared with `after`.
pub open spec fn extends<Body: IsBody>(
    before: Map<CacheKey, Arc<FullDef<Body>>>,
    after: Map<CacheKey, Arc<FullDef<Body>>>,
    base: Base,
    keys: Set<CacheKey>,
) -> bool {
    &&& after.dom() =~= before.dom().union(keys)
    &&& forall|k: CacheKey| before.contains_key(k) ==> #[trigger] after[k] == before[k]
    &&& forall|k: CacheKey|
        after.contains_key(k) && !before.contains_key(k) ==> is_new_entry(
            #[trigger] after[k],
            k,
            before,
            after,
            base,
        )
}

/// `def` is the full definition of the definition that `key` identifies.
pub open spec fn is_entry<Body: IsBody>(
    def: Arc<FullDef<Body>>,
    key: CacheKey,
    cache: Map<CacheKey, Arc<FullDef<Body>>>,
    base: Base,
) -> bool {
    &&& def.def_id.cache_key() == key
    &&& knows(*base.tcx, def.def_id)
    &&& is_full_def(*def, cache, base, def.def_id)
}

/// What looking up the full definition of `id` gives, and what it leaves in the cache.
pub open spec fn looks_up<Body: IsBody>(
    def: Arc<FullDef<Body>>,
    before: Map<CacheKey, Arc<FullDef<Body>>>,
    after: Map<CacheKey, Arc<FullDef<Body>>>,
    base: Base,
    id: DefId,
) -> bool {
    &&& resolves_to(def, before, base, id)
    &&& if before.contains_key(id.cache_key()) {
        after == before
    } else {
        &&& extends(
            before,
            after,
            base,
            needed_keys(before, *base.tcx, id).insert(id.cache_key()),
        )
        &&& after[id.cache_key()] == def
    }
}

} // verus!
