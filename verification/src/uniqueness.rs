//! A definition has one full definition.
//!
//! Lists are compared by what they hold, and what is shared by what it points to.
use crate::body::IsBody;
use crate::cache::CacheKey;
use crate::caching_laws::{caching_is_transparent, coherent};
use crate::convert::spec_ident;
use crate::def_id::{CtorOf, DefId, DefKind};
use crate::full_def::{
    FullDef, FullDefKind, ImplAssocItem, ImplAssocItemValue, ParamEnv, VirtualTraitImpl,
};
use crate::full_def_spec::{
    are_assoc_items, are_owner_implied_predicates, closure_trait_args, is_adt_kind, is_closure_kind,
    is_ctor_kind, is_full_def, is_impl_item, is_param_env, is_simple_kind, is_virtual_impl,
    is_virtual_type, knows, looks_up, promoted_known, type_items, variant_discr,
};
use crate::rustc_utils::spec_mod_children;
use crate::span::RSpan;
use crate::state::{Base, State};
use crate::tcx::{built_by, ctor_adt, provider};
use crate::ty::{
    AssocItem, FieldDef, GenericArg, GenericPredicates, ImplExpr, ImplSubject, RAssocItem, RClause,
    RFieldDef, RPolyFnSig, RTraitRef, RTy, Ty, TyGenerics, VariantDef,
};
use std::sync::Arc;
use vstd::prelude::*;

verus! {

pub open spec fn same_predicates(a: GenericPredicates, b: GenericPredicates) -> bool {
    a.predicates@ == b.predicates@
}

pub open spec fn same_generics(a: TyGenerics, b: TyGenerics) -> bool {
    &&& a.parent == b.parent
    &&& a.parent_count == b.parent_count
    &&& a.params@ == b.params@
    &&& a.has_self == b.has_self
    &&& a.has_late_bound_regions == b.has_late_bound_regions
}

pub open spec fn same_param_env(a: ParamEnv, b: ParamEnv) -> bool {
    same_generics(a.generics, b.generics) && same_predicates(a.predicates, b.predicates)
}

pub open spec fn same_impl_exprs(a: Seq<ImplExpr>, b: Seq<ImplExpr>) -> bool {
    &&& a.len() == b.len()
    &&& forall|i: int|
        0 <= i < a.len() ==> {
            &&& (#[trigger] a[i]).scope == b[i].scope
            &&& a[i].trait_ref == b[i].trait_ref
            &&& a[i].args@ == b[i].args@
        }
}

pub open spec fn same_projection(a: Ty, b: Ty) -> bool {
    &&& a.scope == b.scope
    &&& a.ty matches RTy::Projection { def_id, args } && b.ty matches RTy::Projection {
        def_id: other,
        args: other_args,
    } && def_id == other && args@ == other_args@
}

pub open spec fn same_instantiated(a: Ty, b: Ty) -> bool {
    &&& a.scope == b.scope
    &&& a.ty matches RTy::Instantiated { ty, args } && b.ty matches RTy::Instantiated {
        ty: other,
        args: other_args,
    } && ty == other && args@ == other_args@
}

pub open spec fn same_virtual_impl(a: VirtualTraitImpl, b: VirtualTraitImpl) -> bool {
    &&& a.trait_pred.trait_ref.scope == b.trait_pred.trait_ref.scope
    &&& a.trait_pred.trait_ref.def_id == b.trait_pred.trait_ref.def_id
    &&& a.trait_pred.trait_ref.generic_args@ == b.trait_pred.trait_ref.generic_args@
    &&& a.trait_pred.is_positive == b.trait_pred.is_positive
    &&& same_impl_exprs(a.implied_impl_exprs@, b.implied_impl_exprs@)
    &&& a.types@.len() == b.types@.len()
    &&& forall|i: int|
        0 <= i < a.types@.len() ==> {
            &&& same_projection((#[trigger] a.types@[i]).0, b.types@[i].0)
            &&& same_impl_exprs(a.types@[i].1@, b.types@[i].1@)
        }
}

pub open spec fn same_optional_impl(
    a: Option<Box<VirtualTraitImpl>>,
    b: Option<Box<VirtualTraitImpl>>,
) -> bool {
    match (a, b) {
        (None, None) => true,
        (Some(a), Some(b)) => same_virtual_impl(*a, *b),
        _ => false,
    }
}

pub open spec fn same_sig(a: RPolyFnSig, b: RPolyFnSig) -> bool {
    match (a, b) {
        (
            RPolyFnSig::Instantiated { sig, args, anonymized },
            RPolyFnSig::Instantiated { sig: sig2, args: args2, anonymized: anonymized2 },
        ) => sig == sig2 && args@ == args2@ && anonymized == anonymized2,
        _ => a == b,
    }
}

pub open spec fn same_variant(a: VariantDef, b: VariantDef) -> bool {
    &&& a.def_id == b.def_id
    &&& a.ctor == b.ctor
    &&& a.name == b.name
    &&& a.discr_def == b.discr_def
    &&& a.discr_val == b.discr_val
    &&& a.fields@ == b.fields@
}

/// Two kinds agree, traits and impls aside.
pub open spec fn same_simple_kind<Body>(a: FullDefKind<Body>, b: FullDefKind<Body>) -> bool {
    match (a, b) {
        (
            FullDefKind::Adt { param_env, adt_kind, variants, flags, repr, drop_glue },
            FullDefKind::Adt {
                param_env: param_env2,
                adt_kind: adt_kind2,
                variants: variants2,
                flags: flags2,
                repr: repr2,
                drop_glue: drop_glue2,
            },
        ) => {
            &&& same_param_env(param_env, param_env2)
            &&& adt_kind == adt_kind2
            &&& variants@.len() == variants2@.len()
            &&& forall|i: int|
                0 <= i < variants@.len() ==> same_variant(#[trigger] variants@[i], variants2@[i])
            &&& flags == flags2
            &&& repr == repr2
            &&& drop_glue == drop_glue2
        },
        (
            FullDefKind::TyAlias { param_env, ty },
            FullDefKind::TyAlias { param_env: param_env2, ty: ty2 },
        ) => same_param_env(param_env, param_env2) && ty == ty2,
        (
            FullDefKind::AssocTy { param_env, implied_predicates, associated_item, value },
            FullDefKind::AssocTy {
                param_env: param_env2,
                implied_predicates: implied_predicates2,
                associated_item: associated_item2,
                value: value2,
            },
        ) => {
            &&& same_param_env(param_env, param_env2)
            &&& same_predicates(implied_predicates, implied_predicates2)
            &&& associated_item == associated_item2
            &&& value == value2
        },
        (
            FullDefKind::TraitAlias { param_env, implied_predicates, self_predicate },
            FullDefKind::TraitAlias {
                param_env: param_env2,
                implied_predicates: implied_predicates2,
                self_predicate: self_predicate2,
            },
        ) => {
            &&& same_param_env(param_env, param_env2)
            &&& same_predicates(implied_predicates, implied_predicates2)
            &&& self_predicate == self_predicate2
        },
        (
            FullDefKind::Fn { param_env, inline, is_const, sig, body },
            FullDefKind::Fn {
                param_env: param_env2,
                inline: inline2,
                is_const: is_const2,
                sig: sig2,
                body: body2,
            },
        ) => {
            &&& same_param_env(param_env, param_env2)
            &&& inline == inline2
            &&& is_const == is_const2
            &&& sig == sig2
            &&& body == body2
        },
        (
            FullDefKind::AssocFn { param_env, associated_item, inline, is_const, sig, body },
            FullDefKind::AssocFn {
                param_env: param_env2,
                associated_item: associated_item2,
                inline: inline2,
                is_const: is_const2,
                sig: sig2,
                body: body2,
            },
        ) => {
            &&& same_param_env(param_env, param_env2)
            &&& associated_item == associated_item2
            &&& inline == inline2
            &&& is_const == is_const2
            &&& sig.scope == sig2.scope
            &&& same_sig(sig.sig, sig2.sig)
            &&& body == body2
        },
        (
            FullDefKind::Closure {
                args,
                is_const,
                fn_once_impl,
                fn_mut_impl,
                fn_impl,
                once_shim,
                drop_glue,
            },
            FullDefKind::Closure {
                args: args2,
                is_const: is_const2,
                fn_once_impl: fn_once_impl2,
                fn_mut_impl: fn_mut_impl2,
                fn_impl: fn_impl2,
                once_shim: once_shim2,
                drop_glue: drop_glue2,
            },
        ) => {
            &&& args == args2
            &&& is_const == is_const2
            &&& same_virtual_impl(*fn_once_impl, *fn_once_impl2)
            &&& same_optional_impl(fn_mut_impl, fn_mut_impl2)
            &&& same_optional_impl(fn_impl, fn_impl2)
            &&& once_shim == once_shim2
            &&& drop_glue == drop_glue2
        },
        (
            FullDefKind::Const { param_env, ty, kind, body },
            FullDefKind::Const { param_env: param_env2, ty: ty2, kind: kind2, body: body2 },
        ) => {
            &&& same_param_env(param_env, param_env2)
            &&& ty == ty2
            &&& kind == kind2
            &&& body == body2
        },
        (
            FullDefKind::AssocConst { param_env, associated_item, ty, body },
            FullDefKind::AssocConst {
                param_env: param_env2,
                associated_item: associated_item2,
                ty: ty2,
                body: body2,
            },
        ) => {
            &&& same_param_env(param_env, param_env2)
            &&& associated_item == associated_item2
            &&& ty == ty2
            &&& body == body2
        },
        (
            FullDefKind::Static { param_env, safety, mutability, nested, ty, body },
            FullDefKind::Static {
                param_env: param_env2,
                safety: safety2,
                mutability: mutability2,
                nested: nested2,
                ty: ty2,
                body: body2,
            },
        ) => {
            &&& same_param_env(param_env, param_env2)
            &&& safety == safety2
            &&& mutability == mutability2
            &&& nested == nested2
            &&& ty == ty2
            &&& body == body2
        },
        (FullDefKind::Mod { items }, FullDefKind::Mod { items: items2 }) => items@ == items2@,
        (FullDefKind::ForeignMod { items }, FullDefKind::ForeignMod { items: items2 }) => items@
            == items2@,
        (
            FullDefKind::Ctor { adt_def_id, ctor_of, variant_id, fields, output_ty },
            FullDefKind::Ctor {
                adt_def_id: adt_def_id2,
                ctor_of: ctor_of2,
                variant_id: variant_id2,
                fields: fields2,
                output_ty: output_ty2,
            },
        ) => {
            &&& adt_def_id == adt_def_id2
            &&& ctor_of == ctor_of2
            &&& variant_id == variant_id2
            &&& fields@ == fields2@
            &&& output_ty == output_ty2
        },
        _ => a == b,
    }
}

/// Two full definitions agree in what does not depend on their kind.
pub open spec fn same_header<Body>(a: FullDef<Body>, b: FullDef<Body>) -> bool {
    &&& a.def_id == b.def_id
    &&& a.span == b.span
    &&& a.source_span == b.source_span
    &&& a.source_text == b.source_text
    &&& a.attributes@ == b.attributes@
    &&& a.visibility == b.visibility
    &&& a.lang_item == b.lang_item
    &&& a.diagnostic_item == b.diagnostic_item
}

pub open spec fn same_simple_def<Body>(a: FullDef<Body>, b: FullDef<Body>) -> bool {
    same_header(a, b) && same_simple_kind(a.kind, b.kind)
}

pub open spec fn same_items<Body>(
    a: Seq<(AssocItem, Arc<FullDef<Body>>)>,
    b: Seq<(AssocItem, Arc<FullDef<Body>>)>,
) -> bool {
    &&& a.len() == b.len()
    &&& forall|i: int|
        0 <= i < a.len() ==> (#[trigger] a[i]).0 == b[i].0 && same_simple_def(*a[i].1, *b[i].1)
}

pub open spec fn same_value<Body>(
    a: ImplAssocItemValue<Body>,
    b: ImplAssocItemValue<Body>,
) -> bool {
    match (a, b) {
        (
            ImplAssocItemValue::Provided { def, is_override },
            ImplAssocItemValue::Provided { def: def2, is_override: is_override2 },
        ) => same_simple_def(*def, *def2) && is_override == is_override2,
        (
            ImplAssocItemValue::DefaultedTy { ty },
            ImplAssocItemValue::DefaultedTy { ty: ty2 },
        ) => same_instantiated(ty, ty2),
        _ => a == b,
    }
}

pub open spec fn same_impl_item<Body>(a: ImplAssocItem<Body>, b: ImplAssocItem<Body>) -> bool {
    &&& a.name == b.name
    &&& same_simple_def(*a.decl_def, *b.decl_def)
    &&& same_impl_exprs(a.required_impl_exprs@, b.required_impl_exprs@)
    &&& same_value(a.value, b.value)
}

/// Two kinds agree.
pub open spec fn same_kind<Body>(a: FullDefKind<Body>, b: FullDefKind<Body>) -> bool {
    match (a, b) {
        (
            FullDefKind::Trait { param_env, implied_predicates, self_predicate, items },
            FullDefKind::Trait {
                param_env: param_env2,
                implied_predicates: implied_predicates2,
                self_predicate: self_predicate2,
                items: items2,
            },
        ) => {
            &&& same_param_env(param_env, param_env2)
            &&& same_predicates(implied_predicates, implied_predicates2)
            &&& self_predicate == self_predicate2
            &&& same_items(items@, items2@)
        },
        (
            FullDefKind::TraitImpl { param_env, trait_pred, implied_impl_exprs, items },
            FullDefKind::TraitImpl {
                param_env: param_env2,
                trait_pred: trait_pred2,
                implied_impl_exprs: implied_impl_exprs2,
                items: items2,
            },
        ) => {
            &&& same_param_env(param_env, param_env2)
            &&& trait_pred == trait_pred2
            &&& same_impl_exprs(implied_impl_exprs@, implied_impl_exprs2@)
            &&& items@.len() == items2@.len()
            &&& forall|i: int|
                0 <= i < items@.len() ==> same_impl_item(#[trigger] items@[i], items2@[i])
        },
        (
            FullDefKind::InherentImpl { param_env, ty, items },
            FullDefKind::InherentImpl { param_env: param_env2, ty: ty2, items: items2 },
        ) => same_param_env(param_env, param_env2) && ty == ty2 && same_items(items@, items2@),
        _ => same_simple_kind(a, b),
    }
}

/// Two full definitions agree.
pub open spec fn same_def<Body>(a: FullDef<Body>, b: FullDef<Body>) -> bool {
    same_header(a, b) && same_kind(a.kind, b.kind)
}

proof fn lemma_same_virtual_impl(
    a: VirtualTraitImpl,
    b: VirtualTraitImpl,
    s: State,
    trait_id: DefId,
    args: Seq<GenericArg>,
)
    requires
        is_virtual_impl(a, s, trait_id, args),
        is_virtual_impl(b, s, trait_id, args),
    ensures
        same_virtual_impl(a, b),
{
    assert forall|i: int| 0 <= i < a.types@.len() implies {
        &&& same_projection((#[trigger] a.types@[i]).0, b.types@[i].0)
        &&& same_impl_exprs(a.types@[i].1@, b.types@[i].1@)
    } by {
        let item = type_items(s.base.tcx.data(trait_id).associated_items@)[i].def_id;
        assert(is_virtual_type(b.types@[i], s, item, args));
    }
}

proof fn lemma_same_predicates(
    a: GenericPredicates,
    b: GenericPredicates,
    s: State,
    predicates: Seq<(RClause, RSpan)>,
)
    requires
        s.are_predicates(a, predicates),
        s.are_predicates(b, predicates),
    ensures
        same_predicates(a, b),
{
    assert forall|i: int| 0 <= i < predicates.len() implies a.predicates@[i]
        == b.predicates@[i] by {
        assert(a.predicates@[i].0 == s.spec_clause(predicates[i].0));
        assert(b.predicates@[i].0 == s.spec_clause(predicates[i].0));
    }
    assert(a.predicates@ =~= b.predicates@);
}

proof fn lemma_same_param_env(a: ParamEnv, b: ParamEnv, s: State)
    requires
        is_param_env(a, s),
        is_param_env(b, s),
    ensures
        same_param_env(a, b),
{
    lemma_same_predicates(
        a.predicates,
        b.predicates,
        s,
        s.base.tcx.spec_required_predicates(s.owner, s.base.options.resolve_drop_bounds),
    );
}

proof fn lemma_same_implied_predicates(a: GenericPredicates, b: GenericPredicates, s: State)
    requires
        are_owner_implied_predicates(a, s),
        are_owner_implied_predicates(b, s),
    ensures
        same_predicates(a, b),
{
    lemma_same_predicates(
        a,
        b,
        s,
        s.base.tcx.spec_implied_predicates(s.owner, s.base.options.resolve_drop_bounds),
    );
}

proof fn lemma_same_fields(a: Seq<FieldDef>, b: Seq<FieldDef>, s: State, fields: Seq<RFieldDef>)
    requires
        s.are_field_defs(a, fields),
        s.are_field_defs(b, fields),
    ensures
        a == b,
{
    assert forall|i: int| 0 <= i < fields.len() implies a[i] == b[i] by {
        assert(a[i] == s.spec_field_def(fields[i]));
        assert(b[i] == s.spec_field_def(fields[i]));
    }
    assert(a =~= b);
}

proof fn lemma_same_adt<Body: IsBody>(a: FullDefKind<Body>, b: FullDefKind<Body>, s: State)
    requires
        is_adt_kind(a, s),
        is_adt_kind(b, s),
    ensures
        same_simple_kind(a, b),
{
    lemma_same_param_env(a->Adt_param_env, b->Adt_param_env, s);
    let adt = s.base.tcx.data(s.owner).adt_def->0;
    let variants = a->Adt_variants@;
    let others = b->Adt_variants@;
    assert forall|i: int| 0 <= i < variants.len() implies same_variant(
        #[trigger] variants[i],
        others[i],
    ) by {
        let discr = variant_discr(*s.base.tcx, adt, i);
        assert(s.is_variant_def(variants[i], adt.variants@[i], discr));
        assert(s.is_variant_def(others[i], adt.variants@[i], discr));
        lemma_same_fields(variants[i].fields@, others[i].fields@, s, adt.variants@[i].fields@);
    }
}

proof fn lemma_same_ctor<Body: IsBody>(
    a: FullDefKind<Body>,
    b: FullDefKind<Body>,
    s: State,
    of: CtorOf,
)
    requires
        is_ctor_kind(a, s, of),
        is_ctor_kind(b, s, of),
    ensures
        same_simple_kind(a, b),
{
    let adt = s.base.tcx.data(ctor_adt(s.owner, of)->0).adt_def->0;
    let i = a->variant_id as int;
    let j = b->variant_id as int;
    assert(built_by(adt.variants@[i].ctor, s.owner.spec_key()));
    assert(built_by(adt.variants@[j].ctor, s.owner.spec_key()));
    assert(i == j);
    lemma_same_fields(a->fields@, b->fields@, s, adt.variants@[i].fields@);
}

proof fn lemma_same_closure<Body: IsBody>(a: FullDefKind<Body>, b: FullDefKind<Body>, s: State)
    requires
        is_closure_kind(a, s),
        is_closure_kind(b, s),
    ensures
        same_simple_kind(a, b),
{
    let lang = s.base.tcx.lang_items;
    let args = closure_trait_args(s.base.tcx.data(s.owner).type_of->0);
    lemma_same_virtual_impl(
        *a->fn_once_impl,
        *b->fn_once_impl,
        s,
        lang.fn_once_trait->0,
        args,
    );
    if a->fn_mut_impl is Some {
        lemma_same_virtual_impl(
            *a->fn_mut_impl->0,
            *b->fn_mut_impl->0,
            s,
            lang.fn_mut_trait->0,
            args,
        );
    }
    if a->fn_impl is Some {
        lemma_same_virtual_impl(*a->fn_impl->0, *b->fn_impl->0, s, lang.fn_trait->0, args);
    }
}

/// Two full definitions of the owner of `s` agree in their kind, if it is neither a trait nor an
/// impl.
proof fn lemma_same_simple_kind<Body: IsBody>(
    a: FullDefKind<Body>,
    b: FullDefKind<Body>,
    s: State,
)
    requires
        is_simple_kind(a, s),
        is_simple_kind(b, s),
    ensures
        same_simple_kind(a, b),
{
    match s.owner.kind {
        DefKind::Struct | DefKind::Union | DefKind::Enum => {
            lemma_same_adt(a, b, s);
        },
        DefKind::TyAlias => {
            let s = s.spec_with_base(s.base.spec_keep_aliases());
            lemma_same_param_env(a->TyAlias_param_env, b->TyAlias_param_env, s);
        },
        DefKind::AssocTy => {
            lemma_same_param_env(a->AssocTy_param_env, b->AssocTy_param_env, s);
            lemma_same_implied_predicates(
                a->AssocTy_implied_predicates,
                b->AssocTy_implied_predicates,
                s,
            );
        },
        DefKind::TraitAlias => {
            lemma_same_param_env(a->TraitAlias_param_env, b->TraitAlias_param_env, s);
            lemma_same_implied_predicates(
                a->TraitAlias_implied_predicates,
                b->TraitAlias_implied_predicates,
                s,
            );
        },
        DefKind::Fn => {
            lemma_same_param_env(a->Fn_param_env, b->Fn_param_env, s);
        },
        DefKind::AssocFn => {
            lemma_same_param_env(a->AssocFn_param_env, b->AssocFn_param_env, s);
        },
        DefKind::Closure => {
            lemma_same_closure(a, b, s);
        },
        DefKind::Const | DefKind::AnonConst | DefKind::InlineConst => {
            lemma_same_param_env(a->Const_param_env, b->Const_param_env, s);
        },
        DefKind::AssocConst => {
            lemma_same_param_env(a->AssocConst_param_env, b->AssocConst_param_env, s);
        },
        DefKind::Static { .. } => {
            lemma_same_param_env(a->Static_param_env, b->Static_param_env, s);
        },
        DefKind::Mod => {
            let children = spec_mod_children(s.base.tcx.data(s.owner));
            let items = a->Mod_items@;
            let others = b->Mod_items@;
            assert forall|i: int| 0 <= i < children.len() implies items[i] == others[i] by {
                assert(items[i] == (spec_ident(children[i].0), children[i].1));
                assert(others[i] == (spec_ident(children[i].0), children[i].1));
            }
            assert(items =~= others);
        },
        DefKind::Ctor(ctor_of, _) => {
            lemma_same_ctor(a, b, s, ctor_of);
        },
        _ => {},
    }
}

proof fn lemma_same_items<Body: IsBody>(
    a: Seq<(AssocItem, Arc<FullDef<Body>>)>,
    b: Seq<(AssocItem, Arc<FullDef<Body>>)>,
    s: State,
    assocs: Seq<RAssocItem>,
)
    requires
        are_assoc_items(a, Map::empty(), s, assocs),
        are_assoc_items(b, Map::empty(), s, assocs),
    ensures
        same_items(a, b),
{
    assert forall|i: int| 0 <= i < a.len() implies (#[trigger] a[i]).0 == b[i].0
        && same_simple_def(*a[i].1, *b[i].1) by {
        assert(b[i].0 == s.spec_assoc_item(assocs[i]));
        let state = s.base.spec_with_owner_id(assocs[i].def_id);
        lemma_same_simple_kind(kind_of(a[i].1), kind_of(b[i].1), state);
    }
}

spec fn kind_of<Body>(def: Arc<FullDef<Body>>) -> FullDefKind<Body> {
    def.kind
}

proof fn lemma_same_impl_item<Body: IsBody>(
    a: ImplAssocItem<Body>,
    b: ImplAssocItem<Body>,
    s: State,
    tr: RTraitRef,
    decl: RAssocItem,
)
    requires
        is_impl_item(a, Map::empty(), s, tr, decl),
        is_impl_item(b, Map::empty(), s, tr, decl),
    ensures
        same_impl_item(a, b),
{
    let assocs = s.base.tcx.data(s.owner).associated_items@;
    let state = s.base.spec_with_owner_id(decl.def_id);
    lemma_same_simple_kind(kind_of(a.decl_def), kind_of(b.decl_def), state);
    if let Some(j) = provider(assocs, decl.def_id.spec_key()) {
        let state = s.base.spec_with_owner_id(assocs[j].def_id);
        lemma_same_simple_kind(
            kind_of(a.value->Provided_def),
            kind_of(b.value->Provided_def),
            state,
        );
    }
}

/// A definition has one full definition: two that are made from scratch agree in everything.
pub proof fn full_definitions_are_unique<Body: IsBody>(
    a: &FullDef<Body>,
    b: &FullDef<Body>,
    base: Base,
    id: DefId,
)
    requires
        is_full_def(*a, Map::empty(), base, id),
        is_full_def(*b, Map::empty(), base, id),
    ensures
        same_def(*a, *b),
{
    let s = base.spec_with_owner_id(id);
    let tcx = *base.tcx;
    if id.promoted is Some {
        assert(a.attributes@ =~= b.attributes@);
        assert(a.spec_param_env()->0.generics.params@ =~= b.spec_param_env()->0.generics.params@);
        assert(a.spec_param_env()->0.predicates.predicates@
            =~= b.spec_param_env()->0.predicates.predicates@);
    } else {
        match id.kind {
            DefKind::Trait => {
                lemma_same_param_env(a.kind->Trait_param_env, b.kind->Trait_param_env, s);
                lemma_same_implied_predicates(
                    a.kind->Trait_implied_predicates,
                    b.kind->Trait_implied_predicates,
                    s,
                );
                lemma_same_items(
                    a.kind->Trait_items@,
                    b.kind->Trait_items@,
                    s,
                    tcx.data(id).associated_items@,
                );
            },
            DefKind::Impl { .. } => match tcx.data(id).impl_subject->0 {
                ImplSubject::Inherent(_) => {
                    lemma_same_param_env(
                        a.kind->InherentImpl_param_env,
                        b.kind->InherentImpl_param_env,
                        s,
                    );
                    lemma_same_items(
                        a.kind->InherentImpl_items@,
                        b.kind->InherentImpl_items@,
                        s,
                        tcx.data(id).associated_items@,
                    );
                },
                ImplSubject::Trait(tr) => {
                    lemma_same_param_env(
                        a.kind->TraitImpl_param_env,
                        b.kind->TraitImpl_param_env,
                        s,
                    );
                    let decls = tcx.data(tr.def_id).associated_items@;
                    let items = a.kind->TraitImpl_items@;
                    let others = b.kind->TraitImpl_items@;
                    assert forall|i: int| 0 <= i < items.len() implies same_impl_item(
                        #[trigger] items[i],
                        others[i],
                    ) by {
                        assert(is_impl_item(items[i], Map::empty(), s, tr, decls[i]));
                        assert(is_impl_item(others[i], Map::empty(), s, tr, decls[i]));
                        lemma_same_impl_item(items[i], others[i], s, tr, decls[i]);
                    }
                },
            },
            _ => {
                lemma_same_simple_kind(a.kind, b.kind, s);
            },
        }
    }
}

/// The order of lookups does not matter: looking up a definition through two coherent caches gives
/// full definitions that agree in everything.
pub proof fn order_of_lookups_does_not_matter<Body: IsBody>(
    a: Arc<FullDef<Body>>,
    b: Arc<FullDef<Body>>,
    before_a: Map<CacheKey, Arc<FullDef<Body>>>,
    after_a: Map<CacheKey, Arc<FullDef<Body>>>,
    before_b: Map<CacheKey, Arc<FullDef<Body>>>,
    after_b: Map<CacheKey, Arc<FullDef<Body>>>,
    base: Base,
    id: DefId,
)
    requires
        base.tcx.wf(),
        knows(*base.tcx, id),
        before_a.contains_key(id.cache_key()) || promoted_known(before_a, *base.tcx, id),
        before_b.contains_key(id.cache_key()) || promoted_known(before_b, *base.tcx, id),
        coherent(before_a, base),
        coherent(before_b, base),
        looks_up(a, before_a, after_a, base, id),
        looks_up(b, before_b, after_b, base, id),
    ensures
        same_def(*a, *b),
{
    caching_is_transparent(a, before_a, after_a, base, id);
    caching_is_transparent(b, before_b, after_b, base, id);
    full_definitions_are_unique(&*a, &*b, base, id);
}

} // verus!
