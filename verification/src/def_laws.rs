//! What holds of full definitions.
use crate::body::IsBody;
use crate::cache::CacheKey;
use crate::convert::are_generics;
use crate::def_id::{DefId, DefKind};
use crate::full_def::{ConstKind, FullDef, FullDefKind};
use crate::full_def_spec::{is_full_def, knows};
use crate::state::Base;
use crate::tcx::ctor_adt;
use crate::ty::{AdtKind, RTy, Scope};
use std::sync::Arc;
use vstd::prelude::*;

verus! {

/// The full definition of a definition of the program holds its generics where there are some,
/// and only there.
pub proof fn generics_are_those_of_the_compiler<Body: IsBody>(
    def: &FullDef<Body>,
    cache: Map<CacheKey, Arc<FullDef<Body>>>,
    base: Base,
    id: DefId,
)
    requires
        id.promoted is None,
        is_full_def(*def, cache, base, id),
    ensures
        def.spec_param_env() is Some <==> id.kind.spec_has_param_env(),
        def.spec_param_env() is Some ==> are_generics(
            def.spec_param_env()->0.generics,
            base.tcx.data(id).generics->0,
        ),
{
}

/// The kind of a full definition is that of the definition.
pub proof fn kind_is_kept<Body: IsBody>(
    def: &FullDef<Body>,
    cache: Map<CacheKey, Arc<FullDef<Body>>>,
    base: Base,
    id: DefId,
)
    requires
        knows(*base.tcx, id),
        is_full_def(*def, cache, base, id),
    ensures
        def.kind is Adt <==> id.kind == DefKind::Struct || id.kind == DefKind::Union || id.kind
            == DefKind::Enum,
        def.kind is TyAlias <==> id.kind == DefKind::TyAlias,
        def.kind is ForeignTy <==> id.kind == DefKind::ForeignTy,
        def.kind is AssocTy <==> id.kind == DefKind::AssocTy,
        def.kind is OpaqueTy <==> id.kind == DefKind::OpaqueTy,
        def.kind is Trait <==> id.kind == DefKind::Trait,
        def.kind is TraitAlias <==> id.kind == DefKind::TraitAlias,
        def.kind is TraitImpl || def.kind is InherentImpl <==> id.kind is Impl,
        def.kind is Fn <==> id.kind == DefKind::Fn,
        def.kind is AssocFn <==> id.kind == DefKind::AssocFn,
        def.kind is Closure <==> id.kind == DefKind::Closure,
        def.kind is Const <==> id.kind == DefKind::Const || id.kind == DefKind::AnonConst || id.kind
            == DefKind::InlineConst || id.kind == DefKind::PromotedConst,
        def.kind is AssocConst <==> id.kind == DefKind::AssocConst,
        def.kind is Static <==> id.kind is Static,
        def.kind is ExternCrate <==> id.kind == DefKind::ExternCrate,
        def.kind is Use <==> id.kind == DefKind::Use,
        def.kind is Mod <==> id.kind == DefKind::Mod,
        def.kind is ForeignMod <==> id.kind == DefKind::ForeignMod,
        def.kind is TyParam <==> id.kind == DefKind::TyParam,
        def.kind is ConstParam <==> id.kind == DefKind::ConstParam,
        def.kind is LifetimeParam <==> id.kind == DefKind::LifetimeParam,
        def.kind is Variant <==> id.kind == DefKind::Variant,
        def.kind is Ctor <==> id.kind is Ctor,
        def.kind is Field <==> id.kind == DefKind::Field,
        def.kind is Macro <==> id.kind is Macro,
        def.kind is GlobalAsm <==> id.kind == DefKind::GlobalAsm,
        def.kind is SyntheticCoroutineBody <==> id.kind == DefKind::SyntheticCoroutineBody,
{
}

/// Types are read in the scope of the definition that mentions them; type aliases are kept in the
/// definition of a type alias, and elsewhere only if that was asked for.
pub proof fn types_are_read_in_their_definition<Body: IsBody>(
    def: &FullDef<Body>,
    cache: Map<CacheKey, Arc<FullDef<Body>>>,
    base: Base,
    id: DefId,
)
    requires
        id.promoted is None,
        is_full_def(*def, cache, base, id),
    ensures
        def.kind matches FullDefKind::TyAlias { ty, .. } ==> ty.scope == (Scope {
            owner: id,
            item: None,
            ty_alias_mode: true,
        }),
        def.kind matches FullDefKind::AssocTy { value: Some(ty), .. } ==> ty.scope == (Scope {
            owner: id,
            item: None,
            ty_alias_mode: base.ty_alias_mode,
        }),
        def.kind matches FullDefKind::InherentImpl { ty, .. } ==> ty.scope == (Scope {
            owner: id,
            item: None,
            ty_alias_mode: base.ty_alias_mode,
        }),
        def.kind matches FullDefKind::Const { ty, .. } ==> ty.scope == (Scope {
            owner: id,
            item: None,
            ty_alias_mode: base.ty_alias_mode,
        }),
        def.kind matches FullDefKind::AssocConst { ty, .. } ==> ty.scope == (Scope {
            owner: id,
            item: None,
            ty_alias_mode: base.ty_alias_mode,
        }),
        def.kind matches FullDefKind::Static { ty, .. } ==> ty.scope == (Scope {
            owner: id,
            item: None,
            ty_alias_mode: base.ty_alias_mode,
        }),
        def.kind matches FullDefKind::Ctor { output_ty, .. } ==> output_ty.scope == (Scope {
            owner: id,
            item: None,
            ty_alias_mode: base.ty_alias_mode,
        }),
{
}

/// A promoted constant has no parameters of its own: it has as many as the definition that it
/// comes from. No attribute, visibility or language item belongs to it.
pub proof fn promoted_constants_add_no_generics<Body: IsBody>(
    def: &FullDef<Body>,
    base: Base,
    id: DefId,
)
    requires
        knows(*base.tcx, id),
        id.promoted is Some,
        is_full_def(*def, Map::empty(), base, id),
    ensures
        def.kind matches FullDefKind::Const { kind: ConstKind::PromotedConst, .. },
        def.spec_param_env() is Some,
        def.spec_param_env()->0.generics.params@.len() == 0,
        def.spec_param_env()->0.generics.spec_count_total_params() == base.tcx.data(
            id.spec_underlying(),
        ).generics->0.spec_count(),
        def.attributes@.len() == 0,
        def.visibility is None,
        def.lang_item is None,
        def.diagnostic_item is None,
{
}

/// Only definitions of the crate being compiled, and promoted constants, have a source; only those
/// that no macro produced have a text.
pub proof fn source_is_of_the_crate<Body: IsBody>(
    def: &FullDef<Body>,
    cache: Map<CacheKey, Arc<FullDef<Body>>>,
    base: Base,
    id: DefId,
)
    requires
        is_full_def(*def, cache, base, id),
    ensures
        def.source_span is Some <==> id.promoted is Some || id.spec_is_local(),
        def.source_text is Some ==> def.source_span is Some
            && def.source_span->0.rust_span_data is Some
            && def.source_span->0.rust_span_data->0.ctxt == 0,
{
}

/// The code that drops a value is given for definitions without generics only.
pub proof fn drop_glue_is_monomorphic<Body: IsBody>(
    def: &FullDef<Body>,
    cache: Map<CacheKey, Arc<FullDef<Body>>>,
    base: Base,
    id: DefId,
)
    requires
        id.promoted is None,
        is_full_def(*def, cache, base, id),
    ensures
        def.kind matches FullDefKind::Adt { drop_glue: Some(_), .. } ==> base.tcx.data(
            id,
        ).generics->0.spec_count() == 0,
        def.kind matches FullDefKind::Closure { drop_glue: Some(_), .. } ==> base.tcx.data(
            id,
        ).generics->0.spec_count() == 0,
{
}

/// A closure that can be called through `Fn` can be called through `FnMut` too, and every closure
/// through `FnOnce`. A `call_once` of its own is given only where there is a `call_mut` to call.
pub proof fn closure_traits_are_nested<Body: IsBody>(
    def: &FullDef<Body>,
    cache: Map<CacheKey, Arc<FullDef<Body>>>,
    base: Base,
    id: DefId,
)
    requires
        id.promoted is None,
        is_full_def(*def, cache, base, id),
    ensures
        def.kind matches FullDefKind::Closure {
            fn_once_impl,
            fn_mut_impl,
            fn_impl,
            once_shim,
            ..
        } ==> {
            &&& fn_impl is Some ==> fn_mut_impl is Some
            &&& once_shim is Some ==> fn_mut_impl is Some
            &&& fn_once_impl.trait_pred.trait_ref.def_id == base.tcx.lang_items.fn_once_trait->0
            &&& fn_mut_impl matches Some(i) ==> {
                &&& i.trait_pred.trait_ref.def_id == base.tcx.lang_items.fn_mut_trait->0
                &&& i.trait_pred.trait_ref.generic_args@
                    == fn_once_impl.trait_pred.trait_ref.generic_args@
            }
            &&& fn_impl matches Some(i) ==> {
                &&& i.trait_pred.trait_ref.def_id == base.tcx.lang_items.fn_trait->0
                &&& i.trait_pred.trait_ref.generic_args@
                    == fn_once_impl.trait_pred.trait_ref.generic_args@
            }
        },
{
}

/// The kind of a struct, union or enum is that of the definition, and a constructor builds a value
/// of the type that it belongs to.
pub proof fn types_are_of_their_kind<Body: IsBody>(
    def: &FullDef<Body>,
    cache: Map<CacheKey, Arc<FullDef<Body>>>,
    base: Base,
    id: DefId,
)
    requires
        base.tcx.wf(),
        base.tcx.known(id),
        is_full_def(*def, cache, base, id),
    ensures
        def.kind matches FullDefKind::Adt { adt_kind, .. } ==> id.kind == (match adt_kind {
            AdtKind::Struct => DefKind::Struct,
            AdtKind::Union => DefKind::Union,
            AdtKind::Enum => DefKind::Enum,
        }),
        def.kind matches FullDefKind::Ctor { adt_def_id, output_ty, .. } ==> {
            &&& adt_def_id.kind == DefKind::Struct || adt_def_id.kind == DefKind::Union
                || adt_def_id.kind == DefKind::Enum
            &&& output_ty.ty matches RTy::Adt { def_id, .. } && def_id == adt_def_id
        },
{
    base.tcx.lemma_complete(id);
    if let DefKind::Ctor(of, _) = id.kind {
        base.tcx.lemma_complete(ctor_adt(id, of)->0);
    }
}

} // verus!
