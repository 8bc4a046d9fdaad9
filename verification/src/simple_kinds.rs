//! Full definitions that hold no other full definition.
use crate::body::IsBody;
use crate::convert::{named_def_ids, ty_generics};
use crate::def_id::{CtorKind, CtorOf, DefId, DefKind};
use crate::full_def::{ConstKind, FullDefKind, ParamEnv, VirtualTraitImpl};
use crate::full_def_spec::{
    are_owner_implied_predicates, closure_trait_args, is_adt_kind, is_closure_kind, is_const_kind,
    is_ctor_kind, is_param_env, is_simple_kind, is_virtual_impl, is_virtual_type, spec_drop_glue,
    spec_once_shim, spec_self_predicate, type_items, variant_discr,
};
use crate::rustc_utils::{
    closure_once_shim, drop_glue_shim, get_foreign_mod_children, get_method_sig, get_mod_children,
};
use crate::state::{Base, State};
use crate::tcx::built_by;
use crate::traits::solve_item_implied_traits;
use crate::ty::{
    AdtKind, AssocKind, ClosureKind, Constness, GenericArg, GenericPredicates, ImplExpr, RDiscr,
    RPolyFnSig, RTraitRef, RTy, TraitPredicate, Ty, VariantDef,
};
use std::sync::Arc;
use vstd::prelude::*;

verus! {

/// The generics and the required predicates of the owner.
pub fn get_param_env(s: &State) -> (r: ParamEnv)
    requires
        s.base.tcx.sorted(),
        s.base.tcx.has(s.owner),
        s.base.tcx.data(s.owner).generics is Some,
    ensures
        is_param_env(r, *s),
{
    let tcx = s.base.tcx;
    ParamEnv {
        generics: ty_generics(tcx.generics_of(&s.owner)),
        predicates: s.predicates(
            tcx.required_predicates(&s.owner, s.base.options.resolve_drop_bounds),
        ),
    }
}

/// The predicates that hold wherever the owner is mentioned.
pub fn get_implied_predicates(s: &State) -> (r: GenericPredicates)
    requires
        s.base.tcx.sorted(),
        s.base.tcx.has(s.owner),
    ensures
        are_owner_implied_predicates(r, *s),
{
    s.predicates(s.base.tcx.implied_predicates(&s.owner, s.base.options.resolve_drop_bounds))
}

/// The `Self: Trait` clause of the owner, a trait. It mentions no bound variable.
pub fn get_self_predicate(s: &State) -> (r: TraitPredicate)
    requires
        s.base.tcx.sorted(),
        s.base.tcx.has(s.owner),
        s.base.tcx.data(s.owner).self_predicate is Some,
        !s.base.tcx.data(s.owner).self_predicate->0.has_escaping_bound_vars,
    ensures
        r == spec_self_predicate(*s),
{
    let pred = s.base.tcx.get(&s.owner).self_predicate.as_ref().unwrap();
    TraitPredicate { trait_ref: s.trait_ref(&pred.trait_ref), is_positive: true }
}

/// The code that drops a value of the owner's type, if it can be had.
pub fn get_drop_glue_shim<Body: IsBody>(s: &State) -> (r: Option<Body>)
    requires
        s.base.tcx.sorted(),
        s.base.tcx.has(s.owner),
        s.base.tcx.lang_items.drop_in_place is Some,
        s.base.tcx.generics_known(s.base.tcx.data(s.owner)),
        s.base.tcx.data(s.owner).generics->0.spec_count() == 0 ==> s.base.tcx.data(
            s.owner,
        ).type_of is Some,
    ensures
        r == spec_drop_glue::<Body>(*s),
{
    match drop_glue_shim(s.base.tcx, &s.owner) {
        None => None,
        Some(mir) => Body::from_mir(s, mir),
    }
}

/// The `call_once` method of a closure, if it needs one and it can be had.
pub fn get_closure_once_shim<Body: IsBody>(s: &State, closure_ty: &RTy) -> (r: Option<Body>)
    requires
        closure_ty is Closure,
    ensures
        r == spec_once_shim::<Body>(*s, *closure_ty),
{
    match closure_once_shim(closure_ty) {
        None => None,
        Some(mir) => Body::from_mir(s, mir),
    }
}

/// Do the trait resolution necessary to create a new impl for the given trait_ref. Used when we
/// generate fake trait impls e.g. for `FnOnce` and `Drop`.
pub fn virtual_impl_for(s: &State, trait_ref: &RTraitRef) -> (r: Box<VirtualTraitImpl>)
    requires
        s.base.tcx.sorted(),
        s.base.tcx.has(trait_ref.def_id),
        forall|i: int|
            0 <= i < s.base.tcx.data(trait_ref.def_id).associated_items@.len() ==> s.base.tcx.has(
                (#[trigger] s.base.tcx.data(trait_ref.def_id).associated_items@[i]).def_id,
            ),
    ensures
        is_virtual_impl(*r, *s, trait_ref.def_id, trait_ref.args@),
{
    let tcx = s.base.tcx;
    let trait_pred = TraitPredicate { trait_ref: s.trait_ref(trait_ref), is_positive: true };
    // Impl exprs required by the trait.
    let required_impl_exprs = solve_item_implied_traits(s, &trait_ref.def_id, &trait_ref.args);
    let items = tcx.associated_items(&trait_ref.def_id);
    let mut types: Vec<(Ty, Vec<ImplExpr>)> = Vec::new();
    let mut i: usize = 0;
    while i < items.len()
        invariant
            tcx == s.base.tcx,
            tcx.sorted(),
            i <= items@.len(),
            forall|k: int| 0 <= k < items@.len() ==> tcx.has((#[trigger] items@[k]).def_id),
            types@.len() == type_items(items@.take(i as int)).len(),
            forall|k: int|
                0 <= k < types@.len() ==> is_virtual_type(
                    #[trigger] types@[k],
                    *s,
                    type_items(items@.take(i as int))[k].def_id,
                    trait_ref.args@,
                ),
        decreases items.len() - i,
    {
        let assoc = &items[i];
        let ghost next = items@.take(i + 1);
        assert(next.drop_last() =~= items@.take(i as int));
        assert(next.last() == *assoc);
        assert(tcx.has(items@[i as int].def_id));
        if let AssocKind::Type { .. } = &assoc.kind {
            // This assumes non-GAT because this is for builtin-trait (that don't
            // have GATs).
            let ty = s.ty(
                &RTy::Projection { def_id: assoc.def_id.clone(), args: trait_ref.args.clone() },
            );
            // Impl exprs required by the type.
            let required_impl_exprs = solve_item_implied_traits(
                s,
                &assoc.def_id,
                &trait_ref.args,
            );
            types.push((ty, required_impl_exprs));
        }
        i = i + 1;
    }
    assert(items@.take(i as int) =~= items@);
    Box::new(VirtualTraitImpl { trait_pred, implied_impl_exprs: required_impl_exprs, types })
}

/// The full definition of a struct, union or enum.
fn translate_adt<Body: IsBody>(s: &State) -> (r: FullDefKind<Body>)
    requires
        s.wf(),
        s.owner.kind == DefKind::Struct || s.owner.kind == DefKind::Union || s.owner.kind
            == DefKind::Enum,
    ensures
        is_adt_kind(r, *s),
{
    let tcx = s.base.tcx;
    proof {
        tcx.lemma_complete(s.owner);
    }
    let def = tcx.adt_def(&s.owner);
    let mut variants: Vec<VariantDef> = Vec::new();
    let mut i: usize = 0;
    while i < def.variants.len()
        invariant
            *tcx == *s.base.tcx,
            i <= def.variants@.len(),
            variants@.len() == i,
            def.kind != AdtKind::Enum ==> def.variants@.len() <= 1,
            forall|k: int|
                0 <= k < i ==> s.is_variant_def(
                    #[trigger] variants@[k],
                    def.variants@[k],
                    variant_discr(*tcx, *def, k),
                ),
        decreases def.variants.len() - i,
    {
        let variant = &def.variants[i];
        let discr = if def.kind == AdtKind::Enum {
            variant.discr_val.clone()
        } else {
            // Structs and unions have a single variant.
            assert(i == 0);
            RDiscr { val: 0, ty: tcx.isize_ty.clone() }
        };
        variants.push(s.variant_def(variant, &discr));
        i = i + 1;
    }
    FullDefKind::Adt {
        param_env: get_param_env(s),
        adt_kind: def.kind,
        variants,
        flags: def.flags,
        repr: def.repr,
        drop_glue: get_drop_glue_shim(s),
    }
}

/// The full definition of a closure.
fn translate_closure<Body: IsBody>(s: &State) -> (r: FullDefKind<Body>)
    requires
        s.wf(),
        s.owner.kind == DefKind::Closure,
    ensures
        is_closure_kind(r, *s),
{
    let tcx = s.base.tcx;
    proof {
        tcx.lemma_complete(s.owner);
        tcx.lemma_complete(tcx.lang_items.fn_once_trait->0);
        tcx.lemma_complete(tcx.lang_items.fn_mut_trait->0);
        tcx.lemma_complete(tcx.lang_items.fn_trait->0);
    }
    let closure_ty = tcx.type_of(&s.owner);
    let closure = match closure_ty {
        RTy::Closure { closure, .. } => closure,
        _ => vstd::pervasive::unreached(),
    };
    // We lose lifetime information here. Eventually would be nice not to.
    let input_ty = RTy::RegionsErased(Arc::new(closure.inputs[0].clone()));
    let mut args: Vec<GenericArg> = Vec::new();
    args.push(GenericArg::Type(closure_ty.clone()));
    args.push(GenericArg::Type(input_ty));
    assert(args@ =~= closure_trait_args(*closure_ty));
    let trait_args = Arc::new(args);
    let fn_once_trait = tcx.lang_items.fn_once_trait.as_ref().unwrap();
    let fn_mut_trait = tcx.lang_items.fn_mut_trait.as_ref().unwrap();
    let fn_trait = tcx.lang_items.fn_trait.as_ref().unwrap();
    let fn_once_impl = virtual_impl_for(
        s,
        &RTraitRef { def_id: fn_once_trait.clone(), args: trait_args.clone() },
    );
    let fn_mut_impl = match closure.kind {
        ClosureKind::FnMut | ClosureKind::Fn => Some(
            virtual_impl_for(
                s,
                &RTraitRef { def_id: fn_mut_trait.clone(), args: trait_args.clone() },
            ),
        ),
        ClosureKind::FnOnce => None,
    };
    let fn_impl = match closure.kind {
        ClosureKind::Fn => Some(
            virtual_impl_for(
                s,
                &RTraitRef { def_id: fn_trait.clone(), args: trait_args.clone() },
            ),
        ),
        ClosureKind::FnMut | ClosureKind::FnOnce => None,
    };
    FullDefKind::Closure {
        is_const: tcx.constness(&s.owner) == Constness::Const,
        args: s.closure_args(&s.owner, closure),
        once_shim: get_closure_once_shim(s, closure_ty),
        drop_glue: get_drop_glue_shim(s),
        fn_once_impl,
        fn_mut_impl,
        fn_impl,
    }
}

/// The full definition of a constant.
fn translate_const<Body: IsBody>(s: &State, kind: ConstKind) -> (r: FullDefKind<Body>)
    requires
        s.wf(),
        s.owner.kind == DefKind::Const || s.owner.kind == DefKind::AnonConst || s.owner.kind
            == DefKind::InlineConst,
    ensures
        is_const_kind(r, *s, kind),
{
    let tcx = s.base.tcx;
    proof {
        tcx.lemma_complete(s.owner);
    }
    FullDefKind::Const {
        param_env: get_param_env(s),
        ty: s.ty(tcx.type_of(&s.owner)),
        kind,
        body: Body::body(&s.owner, s),
    }
}

/// The full definition of a constructor.
fn translate_ctor<Body: IsBody>(s: &State, ctor_of: CtorOf) -> (r: FullDefKind<Body>)
    requires
        s.wf(),
        s.owner.kind matches DefKind::Ctor(of, _) && of == ctor_of,
    ensures
        is_ctor_kind(r, *s, ctor_of),
{
    let tcx = s.base.tcx;
    proof {
        tcx.lemma_complete(s.owner);
    }
    // The def_id of the adt this ctor belongs to.
    let parent: &DefId = &**s.owner.parent.as_ref().unwrap();
    let adt_def_id: &DefId = match ctor_of {
        CtorOf::Struct => parent,
        CtorOf::Variant => &**parent.parent.as_ref().unwrap(),
    };
    let adt_def = tcx.adt_def(adt_def_id);
    let key: u64 = s.owner.key();
    let mut variant_id: usize = 0;
    while variant_id < adt_def.variants.len() && !is_built_by(
        &adt_def.variants[variant_id].ctor,
        key,
    )
        invariant
            variant_id <= adt_def.variants@.len(),
            forall|i: int|
                0 <= i < variant_id ==> !built_by(#[trigger] adt_def.variants@[i].ctor, key),
        decreases adt_def.variants.len() - variant_id,
    {
        variant_id = variant_id + 1;
    }
    let fields = s.field_defs(&adt_def.variants[variant_id].fields);
    let generic_args = &tcx.generics_of(adt_def_id).identity_args;
    let output_ty = s.ty(
        &RTy::Adt { def_id: adt_def.did.clone(), args: generic_args.clone() },
    );
    FullDefKind::Ctor {
        adt_def_id: adt_def_id.clone(),
        ctor_of,
        variant_id,
        fields,
        output_ty,
    }
}

fn is_built_by(ctor: &Option<(CtorKind, DefId)>, key: u64) -> (r: bool)
    ensures
        r == built_by(*ctor, key),
{
    match ctor {
        None => false,
        Some(c) => c.1.key() == key,
    }
}

/// The full definition of a definition that is neither a trait nor an impl.
pub(crate) fn translate_simple_kind<Body: IsBody>(s: &State) -> (r: FullDefKind<Body>)
    requires
        s.wf(),
        s.owner.kind != DefKind::Trait,
        !(s.owner.kind is Impl),
    ensures
        is_simple_kind(r, *s),
{
    let tcx = s.base.tcx;
    let def_id = &s.owner;
    proof {
        tcx.lemma_complete(s.owner);
    }
    match def_id.kind {
        DefKind::Struct | DefKind::Union | DefKind::Enum => translate_adt(s),
        DefKind::TyAlias => {
            let s = s.with_base(
                Base { tcx: s.base.tcx, ty_alias_mode: true, options: s.base.options },
            );
            FullDefKind::TyAlias { param_env: get_param_env(&s), ty: s.ty(tcx.type_of(def_id)) }
        },
        DefKind::ForeignTy => FullDefKind::ForeignTy,
        DefKind::AssocTy => FullDefKind::AssocTy {
            param_env: get_param_env(s),
            implied_predicates: get_implied_predicates(s),
            associated_item: s.assoc_item(tcx.associated_item(def_id)),
            value: if tcx.defaultness(def_id).has_value() {
                Some(s.ty(tcx.type_of(def_id)))
            } else {
                None
            },
        },
        DefKind::OpaqueTy => FullDefKind::OpaqueTy,
        DefKind::TraitAlias => FullDefKind::TraitAlias {
            param_env: get_param_env(s),
            implied_predicates: get_implied_predicates(s),
            self_predicate: get_self_predicate(s),
        },
        DefKind::Fn => FullDefKind::Fn {
            param_env: get_param_env(s),
            inline: tcx.inline_attr(def_id),
            is_const: tcx.constness(def_id) == Constness::Const,
            sig: s.poly_fn_sig(&RPolyFnSig::Declared(tcx.fn_sig(def_id))),
            body: Body::body(def_id, s),
        },
        DefKind::AssocFn => FullDefKind::AssocFn {
            param_env: get_param_env(s),
            associated_item: s.assoc_item(tcx.associated_item(def_id)),
            inline: tcx.inline_attr(def_id),
            is_const: tcx.constness(def_id) == Constness::Const,
            sig: s.poly_fn_sig(&get_method_sig(tcx, def_id)),
            body: Body::body(def_id, s),
        },
        DefKind::Closure => translate_closure(s),
        DefKind::Const => translate_const(s, ConstKind::TopLevel),
        DefKind::AnonConst => translate_const(s, ConstKind::AnonConst),
        DefKind::InlineConst => translate_const(s, ConstKind::InlineConst),
        DefKind::AssocConst => FullDefKind::AssocConst {
            param_env: get_param_env(s),
            associated_item: s.assoc_item(tcx.associated_item(def_id)),
            ty: s.ty(tcx.type_of(def_id)),
            body: Body::body(def_id, s),
        },
        DefKind::Static { safety, mutability, nested } => FullDefKind::Static {
            param_env: get_param_env(s),
            safety,
            mutability,
            nested,
            ty: s.ty(tcx.type_of(def_id)),
            body: Body::body(def_id, s),
        },
        DefKind::ExternCrate => FullDefKind::ExternCrate,
        DefKind::Use => FullDefKind::Use,
        DefKind::Mod => FullDefKind::Mod { items: named_def_ids(&get_mod_children(tcx, def_id)) },
        DefKind::ForeignMod => FullDefKind::ForeignMod {
            items: get_foreign_mod_children(tcx, def_id),
        },
        DefKind::TyParam => FullDefKind::TyParam,
        DefKind::ConstParam => FullDefKind::ConstParam,
        DefKind::LifetimeParam => FullDefKind::LifetimeParam,
        DefKind::Variant => FullDefKind::Variant,
        DefKind::Ctor(ctor_of, _) => translate_ctor(s, ctor_of),
        DefKind::Field => FullDefKind::Field,
        DefKind::Macro(kind) => FullDefKind::Macro(kind),
        DefKind::GlobalAsm => FullDefKind::GlobalAsm,
        DefKind::SyntheticCoroutineBody => FullDefKind::SyntheticCoroutineBody,
        DefKind::Trait | DefKind::Impl { .. } | DefKind::PromotedConst => {
            vstd::pervasive::unreached()
        },
    }
}

} // verus!
