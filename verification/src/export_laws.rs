//! What stands in full definitions, field by field, in terms of the compiler's answers.
use crate::body::{IsBody, MirBody, RMir};
use crate::cache::CacheKey;
use crate::convert::spec_ident;
use crate::def_id::{CtorOf, DefId, DefKind};
use crate::full_def::{
    ConstKind, FullDef, FullDefKind, ImplAssocItem, ImplAssocItemValue, VirtualTraitImpl,
};
use crate::full_def_spec::{
    are_assoc_items, closure_trait_args, is_adt_kind, is_full_def, is_impl_item, is_virtual_impl,
    is_virtual_type, item_args, type_items, variant_discr,
};
use crate::rustc_utils::spec_mod_children;
use crate::span::{RSpan, Span};
use crate::state::{Base, State};
use crate::tcx::{built_by, provider, HirItem, HirItemKind, HirNode, TyCtxt};
use crate::traits::{are_impl_exprs, spec_rebase_onto, trait_goals};
use crate::ty::{
    AdtKind, AssocItem, AssocItemContainer, AssocKind, AssocTypeData, Clause, ClosureKind,
    Constness, Defaultness, FieldDef, GenericArg, Ident, ImplExpr, ImplPolarity, ImplSubject,
    RAssocItem, RClause, RClosureArgs, RFieldDef, RGenerics, RIdent, RPolyFnSig, RTraitRef, RTy,
    RVariantDef, Scope, Symbol, TraitRef, Ty, TyGenerics, VariantDef, Visibility,
};
use std::sync::Arc;
use vstd::prelude::*;

verus! {

// ---- how values are exported ----

/// `out` starts and ends where `span` does, in lines and columns of a display.
pub open spec fn shows(out: Span, span: RSpan) -> bool {
    &&& out.lo.line == span.lo.line
    &&& out.lo.col == span.lo.col_display
    &&& out.hi.line == span.hi.line
    &&& out.hi.col == span.hi.col_display
    &&& out.filename == span.filename
    &&& out.rust_span_data == Some(span.data)
}

pub open spec fn read_in(scope: Scope, owner: DefId, aliases: bool) -> bool {
    scope.owner == owner && scope.item is None && scope.ty_alias_mode == aliases
}

pub open spec fn exports_type(out: Ty, ty: RTy, owner: DefId, aliases: bool) -> bool {
    out.ty == ty && read_in(out.scope, owner, aliases)
}

pub open spec fn exports_field(out: FieldDef, f: RFieldDef, owner: DefId, aliases: bool) -> bool {
    &&& out.did == f.did
    &&& out.name == f.name
    &&& out.vis == f.vis
    &&& exports_type(out.ty, f.ty, owner, aliases)
    &&& shows(out.span, f.span)
}

pub open spec fn exports_fields(
    out: Seq<FieldDef>,
    fields: Seq<RFieldDef>,
    owner: DefId,
    aliases: bool,
) -> bool {
    &&& out.len() == fields.len()
    &&& forall|i: int|
        0 <= i < fields.len() ==> exports_field(#[trigger] out[i], fields[i], owner, aliases)
}

pub open spec fn exports_clauses(
    out: Seq<(Clause, Span)>,
    clauses: Seq<(RClause, RSpan)>,
    owner: DefId,
    aliases: bool,
) -> bool {
    &&& out.len() == clauses.len()
    &&& forall|i: int|
        0 <= i < clauses.len() ==> {
            &&& (#[trigger] out[i]).0.clause == clauses[i].0
            &&& read_in(out[i].0.scope, owner, aliases)
            &&& shows(out[i].1, clauses[i].1)
        }
}

pub open spec fn exports_generics(out: TyGenerics, g: RGenerics) -> bool {
    &&& out.parent == g.parent
    &&& out.parent_count == g.parent_count
    &&& out.params@ == g.own_params@
    &&& out.has_self == g.has_self
    &&& out.has_late_bound_regions is Some <==> g.has_late_bound_regions is Some
    &&& g.has_late_bound_regions matches Some(span) ==> shows(
        out.has_late_bound_regions->0,
        span,
    )
}

/// The name of an associated item. Only a type that stands for an `impl Trait` has none.
pub open spec fn name_of(kind: AssocKind) -> Option<Symbol> {
    match kind {
        AssocKind::Const { name } => Some(name),
        AssocKind::Fn { name, .. } => Some(name),
        AssocKind::Type { data: AssocTypeData::Normal(name) } => Some(name),
        AssocKind::Type { data: AssocTypeData::Rpitit } => None,
    }
}

pub open spec fn exports_item(out: AssocItem, item: RAssocItem, defaultness: Defaultness) -> bool {
    &&& out.def_id == item.def_id
    &&& out.name == name_of(item.kind)
    &&& out.kind == item.kind
    &&& out.container == item.container
    &&& out.trait_item_def_id == item.trait_item_def_id
    &&& out.has_value <==> defaultness != Defaultness::Default { has_value: false }
}

pub open spec fn exports_trait_ref(
    out: TraitRef,
    t: RTraitRef,
    owner: DefId,
    aliases: bool,
) -> bool {
    out.def_id == t.def_id && out.generic_args == t.args && read_in(out.scope, owner, aliases)
}

// ---- counting ----

/// The number of the first `n` flags that are set.
pub open spec fn count(flags: Seq<bool>, n: int) -> int
    decreases n,
{
    if n <= 0 {
        0
    } else if flags[n - 1] {
        count(flags, n - 1) + 1
    } else {
        count(flags, n - 1)
    }
}

/// The count of a longer row is that of its front for the front, and only grows.
pub proof fn lemma_count(flags: Seq<bool>, other: Seq<bool>, n: int, m: int)
    requires
        0 <= n <= m,
        forall|i: int| 0 <= i < n ==> flags[i] == other[i],
    ensures
        count(flags, n) == count(other, n),
        0 <= count(flags, n) <= count(flags, m),
        n < m && flags[n] ==> count(flags, n) < count(flags, m),
    decreases m,
{
    if n > 0 {
        lemma_count(flags, other, n - 1, n - 1);
    }
    if n < m {
        lemma_count(flags, other, n, m - 1);
    }
}

/// Which clauses say that a trait is implemented.
pub open spec fn trait_flags(clauses: Seq<(RClause, RSpan)>) -> Seq<bool> {
    Seq::new(clauses.len(), |i: int| clauses[i].0 is Trait)
}

/// There is one implementation for each clause that says that a trait is implemented, in order.
pub open spec fn answers_each_clause(
    exprs: Seq<ImplExpr>,
    clauses: Seq<(RClause, RSpan)>,
    scope: Scope,
    args: Seq<GenericArg>,
) -> bool {
    let flags = trait_flags(clauses);
    &&& exprs.len() == count(flags, clauses.len() as int)
    &&& forall|p: int|
        #![trigger clauses[p]]
        0 <= p < clauses.len() && clauses[p].0 is Trait ==> {
            let e = exprs[count(flags, p)];
            &&& clauses[p].0 == RClause::Trait(e.trait_ref)
            &&& e.scope == scope
            &&& e.args@ == args
        }
}

proof fn lemma_goals(clauses: Seq<(RClause, RSpan)>)
    ensures
        trait_goals(clauses).len() == count(trait_flags(clauses), clauses.len() as int),
        forall|p: int|
            #![trigger clauses[p]]
            0 <= p < clauses.len() && clauses[p].0 is Trait ==> {
                &&& 0 <= count(trait_flags(clauses), p) < trait_goals(clauses).len()
                &&& clauses[p].0 == RClause::Trait(
                    trait_goals(clauses)[count(trait_flags(clauses), p)],
                )
            },
    decreases clauses.len(),
{
    if clauses.len() > 0 {
        let rest = clauses.drop_last();
        let flags = trait_flags(clauses);
        let n = rest.len() as int;
        lemma_goals(rest);
        lemma_count(flags, trait_flags(rest), n, n);
        assert forall|p: int|
            #![trigger clauses[p]]
            0 <= p < clauses.len() && clauses[p].0 is Trait implies {
            &&& 0 <= count(flags, p) < trait_goals(clauses).len()
            &&& clauses[p].0 == RClause::Trait(trait_goals(clauses)[count(flags, p)])
        } by {
            lemma_count(flags, trait_flags(rest), p, n);
            if p < n {
                assert(rest[p] == clauses[p]);
            }
        }
    }
}

/// The implementations that are found for what the clauses ask for are one for each clause about a
/// trait, in the order of the clauses: each is for its clause, in the given scope, with the given
/// arguments.
pub proof fn each_trait_clause_is_answered(
    exprs: Seq<ImplExpr>,
    clauses: Seq<(RClause, RSpan)>,
    scope: Scope,
    args: Seq<GenericArg>,
)
    requires
        are_impl_exprs(exprs, scope, trait_goals(clauses), args),
    ensures
        answers_each_clause(exprs, clauses, scope, args),
{
    lemma_goals(clauses);
}

// ---- what every definition has ----

/// An exported span starts at the line and display column that the source map gives for the start
/// of the compiler's span, and ends at those that it gives for the end.
pub proof fn spans_start_and_end_where_they_should(span: RSpan)
    ensures
        shows(span.spec_span(), span),
{
}

/// What a full definition says whatever its kind: where the definition is, its text unless a macro
/// produced it, its attributes, whether it is public, and which language and diagnostic item it
/// is.
pub proof fn header_is_exported<Body: IsBody>(
    def: &FullDef<Body>,
    cache: Map<CacheKey, Arc<FullDef<Body>>>,
    base: Base,
    id: DefId,
)
    requires
        id.promoted is None,
        is_full_def(*def, cache, base, id),
    ensures
        def.def_id == id,
        shows(
            def.span,
            if id.kind == DefKind::ForeignMod {
                base.tcx.dummy_sp
            } else {
                base.tcx.data(id).def_span->0
            },
        ),
        def.source_span is Some <==> id.krate == 0,
        id.krate == 0 ==> shows(def.source_span->0, base.tcx.data(id).source_span->0),
        def.source_text == (if id.krate == 0 && base.tcx.data(id).source_span->0.data.ctxt == 0 {
            base.tcx.data(id).source_span->0.snippet
        } else {
            None
        }),
        match id.kind {
            DefKind::ConstParam
            | DefKind::LifetimeParam
            | DefKind::TyParam
            | DefKind::ForeignMod => def.attributes@.len() == 0,
            _ => def.attributes@ == base.tcx.data(id).attrs->0@,
        },
        match id.kind {
            DefKind::AssocConst
            | DefKind::AssocFn
            | DefKind::Const
            | DefKind::Enum
            | DefKind::Field
            | DefKind::Fn
            | DefKind::ForeignTy
            | DefKind::Macro(_)
            | DefKind::Mod
            | DefKind::Static { .. }
            | DefKind::Struct
            | DefKind::Trait
            | DefKind::TraitAlias
            | DefKind::TyAlias
            | DefKind::Union
            | DefKind::Use
            | DefKind::Variant => def.visibility == (match base.tcx.data(id).visibility->0 {
                Visibility::Public => Some(true),
                Visibility::Restricted(_) => Some(false),
            }),
            _ => def.visibility is None,
        },
        def.lang_item == base.tcx.data(id).lang_item,
        def.diagnostic_item == base.tcx.data(id).diagnostic_item,
{
}

/// The generics and predicates of a full definition are those that the compiler gives, in order,
/// with the `Drop` bounds if they were asked for. They are there for the kinds of definitions that
/// have some, and for no other.
pub proof fn generics_and_predicates_are_exported<Body: IsBody>(
    def: &FullDef<Body>,
    cache: Map<CacheKey, Arc<FullDef<Body>>>,
    base: Base,
    id: DefId,
)
    requires
        id.promoted is None,
        is_full_def(*def, cache, base, id),
    ensures
        match id.kind {
            DefKind::Struct
            | DefKind::Union
            | DefKind::Enum
            | DefKind::Trait
            | DefKind::TraitAlias
            | DefKind::TyAlias
            | DefKind::AssocTy
            | DefKind::Fn
            | DefKind::AssocFn
            | DefKind::Const
            | DefKind::AnonConst
            | DefKind::InlineConst
            | DefKind::AssocConst
            | DefKind::Static { .. }
            | DefKind::Impl { .. } => def.spec_param_env() is Some,
            _ => def.spec_param_env() is None,
        },
        def.spec_param_env() matches Some(p) ==> {
            &&& exports_generics(p.generics, base.tcx.data(id).generics->0)
            &&& exports_clauses(
                p.predicates.predicates@,
                if base.options.resolve_drop_bounds {
                    base.tcx.data(id).required_predicates_with_drop@
                } else {
                    base.tcx.data(id).required_predicates@
                },
                id,
                base.ty_alias_mode || id.kind == DefKind::TyAlias,
            )
        },
{
}

/// What [`FullDef::param_env`] gives are the generics and predicates that stand in the kind.
pub proof fn param_env_is_that_of_the_kind<Body>(def: &FullDef<Body>)
    ensures
        match def.kind {
            FullDefKind::Adt { param_env, .. } => def.spec_param_env() == Some(param_env),
            FullDefKind::Trait { param_env, .. } => def.spec_param_env() == Some(param_env),
            FullDefKind::TraitAlias { param_env, .. } => def.spec_param_env() == Some(param_env),
            FullDefKind::TyAlias { param_env, .. } => def.spec_param_env() == Some(param_env),
            FullDefKind::AssocTy { param_env, .. } => def.spec_param_env() == Some(param_env),
            FullDefKind::Fn { param_env, .. } => def.spec_param_env() == Some(param_env),
            FullDefKind::AssocFn { param_env, .. } => def.spec_param_env() == Some(param_env),
            FullDefKind::Const { param_env, .. } => def.spec_param_env() == Some(param_env),
            FullDefKind::AssocConst { param_env, .. } => def.spec_param_env() == Some(param_env),
            FullDefKind::Static { param_env, .. } => def.spec_param_env() == Some(param_env),
            FullDefKind::TraitImpl { param_env, .. } => def.spec_param_env() == Some(param_env),
            FullDefKind::InherentImpl { param_env, .. } => def.spec_param_env() == Some(param_env),
            _ => def.spec_param_env() is None,
        },
{
}

// ---- types ----

/// A variant is exported with its fields, each at the index that it has in the compiler.
pub open spec fn exports_variant(
    out: VariantDef,
    v: RVariantDef,
    owner: DefId,
    aliases: bool,
) -> bool {
    &&& out.def_id == v.def_id
    &&& out.ctor == v.ctor
    &&& out.name == v.name
    &&& out.discr_def == v.discr
    &&& exports_fields(out.fields@, v.fields@, owner, aliases)
}

/// The full definition of a struct, union or enum has the variants of the type, in order, and each
/// variant its fields, in order. The discriminants of an enum are those that the compiler computes;
/// elsewhere they are the `isize` 0. The code that drops a value is there for types without
/// generics.
pub proof fn types_are_exported<Body: IsBody>(
    def: &FullDef<Body>,
    cache: Map<CacheKey, Arc<FullDef<Body>>>,
    base: Base,
    id: DefId,
)
    requires
        id.promoted is None,
        id.kind == DefKind::Struct || id.kind == DefKind::Union || id.kind == DefKind::Enum,
        is_full_def(*def, cache, base, id),
    ensures
        def.kind matches FullDefKind::Adt { adt_kind, variants, flags, repr, drop_glue, .. } && {
            let d = base.tcx.data(id);
            let adt = d.adt_def->0;
            &&& adt_kind == adt.kind
            &&& flags == adt.flags
            &&& repr == adt.repr
            &&& variants@.len() == adt.variants@.len()
            &&& forall|i: int|
                0 <= i < variants@.len() ==> {
                    &&& exports_variant(
                        #[trigger] variants@[i],
                        adt.variants@[i],
                        id,
                        base.ty_alias_mode,
                    )
                    &&& variants@[i].discr_val.val == (if adt.kind == AdtKind::Enum {
                        adt.variants@[i].discr_val.val
                    } else {
                        0
                    })
                    &&& exports_type(
                        variants@[i].discr_val.ty,
                        if adt.kind == AdtKind::Enum {
                            adt.variants@[i].discr_val.ty
                        } else {
                            base.tcx.isize_ty
                        },
                        id,
                        base.ty_alias_mode,
                    )
                }
            &&& drop_glue == glue::<Body>(base, id)
        },
{
    let adt = base.tcx.data(id).adt_def->0;
    let s = base.spec_with_owner_id(id);
    let variants = def.kind->Adt_variants@;
    assert(is_adt_kind(def.kind, s));
    assert forall|i: int| 0 <= i < variants.len() implies exports_variant(
        #[trigger] variants[i],
        adt.variants@[i],
        id,
        base.ty_alias_mode,
    ) by {
        assert(s.is_variant_def(
            variants[i],
            adt.variants@[i],
            variant_discr(*base.tcx, adt, i),
        ));
    }
}

/// The code that drops a value of the type of `id`: there is some if neither `id` nor what encloses
/// it has generics.
pub open spec fn glue<Body: IsBody>(base: Base, id: DefId) -> Option<Body> {
    let g = base.tcx.data(id).generics->0;
    if g.parent_count == 0 && g.own_params@.len() == 0 {
        Body::spec_from_mir(
            State { base, owner: id },
            RMir::DropGlue {
                drop_in_place: base.tcx.lang_items.drop_in_place->0,
                ty: base.tcx.data(id).type_of->0,
            },
        )
    } else {
        None
    }
}

/// A constructor belongs to the type that encloses it, or that encloses its variant. It is listed
/// as the constructor of the variant that it is said to build, and of no variant before; its fields
/// are those of the variant, each at its index, and it gives a value of the type.
pub proof fn constructors_are_exported<Body: IsBody>(
    def: &FullDef<Body>,
    cache: Map<CacheKey, Arc<FullDef<Body>>>,
    base: Base,
    id: DefId,
    of: CtorOf,
)
    requires
        id.promoted is None,
        id.kind matches DefKind::Ctor(o, _) && o == of,
        id.parent is Some,
        of == CtorOf::Variant ==> id.parent->0.parent is Some,
        is_full_def(*def, cache, base, id),
    ensures
        def.kind matches FullDefKind::Ctor {
            adt_def_id,
            ctor_of,
            variant_id,
            fields,
            output_ty,
        } && {
            let adt = base.tcx.data(adt_def_id).adt_def->0;
            &&& adt_def_id == (match of {
                CtorOf::Struct => *id.parent->0,
                CtorOf::Variant => *id.parent->0.parent->0,
            })
            &&& ctor_of == of
            &&& 0 <= variant_id < adt.variants@.len()
            &&& builds(id, adt.variants@[variant_id as int])
            &&& forall|i: int| 0 <= i < variant_id ==> !builds(id, #[trigger] adt.variants@[i])
            &&& exports_fields(
                fields@,
                adt.variants@[variant_id as int].fields@,
                id,
                base.ty_alias_mode,
            )
            &&& exports_type(
                output_ty,
                RTy::Adt {
                    def_id: adt.did,
                    args: base.tcx.data(adt_def_id).generics->0.identity_args,
                },
                id,
                base.ty_alias_mode,
            )
        },
{
    let adt = base.tcx.data(def.kind->adt_def_id).adt_def->0;
    numbers_are_those_of_definitions();
    assert forall|i: int| 0 <= i < def.kind->variant_id implies !builds(
        id,
        #[trigger] adt.variants@[i],
    ) by {
        assert(!built_by(adt.variants@[i].ctor, id.spec_key()));
    }
}

/// The constructor `ctor` is that of the variant.
pub open spec fn builds(ctor: DefId, v: RVariantDef) -> bool {
    v.ctor matches Some(c) && c.1.krate == ctor.krate && c.1.index == ctor.index
}

/// Two definitions have the same number exactly when their crate and their index agree; they have
/// the same place in the cache exactly when they are also the same promoted constant, or none.
pub proof fn numbers_are_those_of_definitions()
    ensures
        forall|a: DefId, b: DefId|
            #![trigger a.spec_key(), b.spec_key()]
            a.spec_key() == b.spec_key() <==> a.krate == b.krate && a.index == b.index,
        forall|a: DefId, b: DefId|
            #![trigger a.cache_key(), b.cache_key()]
            a.cache_key() == b.cache_key() <==> a.krate == b.krate && a.index == b.index
                && a.promoted == b.promoted,
{
}

// ---- aliases, constants, statics, functions ----

/// The type of an alias, a constant or a static is the one that the definition declares; the
/// constant says which sort it is, and the static repeats what its kind says.
pub proof fn values_are_exported<Body: IsBody>(
    def: &FullDef<Body>,
    cache: Map<CacheKey, Arc<FullDef<Body>>>,
    base: Base,
    id: DefId,
)
    requires
        id.promoted is None,
        is_full_def(*def, cache, base, id),
    ensures
        id.kind == DefKind::TyAlias ==> (def.kind matches FullDefKind::TyAlias { ty, .. }
            && exports_type(ty, base.tcx.data(id).type_of->0, id, true)),
        id.kind == DefKind::Const || id.kind == DefKind::AnonConst || id.kind
            == DefKind::InlineConst ==> (def.kind matches FullDefKind::Const {
            ty,
            kind,
            body,
            ..
        } && {
            &&& exports_type(ty, base.tcx.data(id).type_of->0, id, base.ty_alias_mode)
            &&& id.kind == DefKind::Const ==> kind == ConstKind::TopLevel
            &&& id.kind == DefKind::AnonConst ==> kind == ConstKind::AnonConst
            &&& id.kind == DefKind::InlineConst ==> kind == ConstKind::InlineConst
            &&& body == Body::spec_body(id, State { base, owner: id })
        }),
        id.kind is Static ==> (def.kind matches FullDefKind::Static {
            safety,
            mutability,
            nested,
            ty,
            body,
            ..
        } && {
            &&& id.kind == DefKind::Static { safety, mutability, nested }
            &&& exports_type(ty, base.tcx.data(id).type_of->0, id, base.ty_alias_mode)
            &&& body == Body::spec_body(id, State { base, owner: id })
        }),
        id.kind is Macro ==> (def.kind matches FullDefKind::Macro(m) && id.kind == DefKind::Macro(
            m,
        )),
{
}

/// A function is exported with its own signature, its `inline` attribute, whether it is `const`,
/// and its body.
pub proof fn functions_are_exported<Body: IsBody>(
    def: &FullDef<Body>,
    cache: Map<CacheKey, Arc<FullDef<Body>>>,
    base: Base,
    id: DefId,
)
    requires
        id.promoted is None,
        id.kind == DefKind::Fn,
        is_full_def(*def, cache, base, id),
    ensures
        def.kind matches FullDefKind::Fn { inline, is_const, sig, body, .. } && {
            let d = base.tcx.data(id);
            &&& inline == d.inline->0
            &&& is_const <==> d.constness->0 == Constness::Const
            &&& sig.sig == RPolyFnSig::Declared(d.fn_sig->0)
            &&& read_in(sig.scope, id, base.ty_alias_mode)
            &&& body == Body::spec_body(id, State { base, owner: id })
        },
{
}

/// An associated type has a value unless it is one that an impl still has to give: an item that
/// is final has one, and so has one with a default. The value is the type that the compiler gives.
/// Associated constants and functions are exported with their type or signature. Each says what
/// the compiler says about it as an item.
pub proof fn associated_items_are_exported<Body: IsBody>(
    def: &FullDef<Body>,
    cache: Map<CacheKey, Arc<FullDef<Body>>>,
    base: Base,
    id: DefId,
)
    requires
        base.tcx.wf(),
        base.tcx.known(id),
        is_full_def(*def, cache, base, id),
    ensures
        id.kind == DefKind::AssocTy ==> (def.kind matches FullDefKind::AssocTy {
            associated_item,
            implied_predicates,
            value,
            ..
        } && {
            let d = base.tcx.data(id);
            &&& exports_item(associated_item, d.associated_item->0, d.defaultness->0)
            &&& d.defaultness->0 == (Defaultness::Default { has_value: false }) ==> value is None
            &&& d.defaultness->0 != (Defaultness::Default { has_value: false })
                ==> value is Some && exports_type(value->0, d.type_of->0, id, base.ty_alias_mode)
            &&& exports_clauses(
                implied_predicates.predicates@,
                implied_clauses(base, id),
                id,
                base.ty_alias_mode,
            )
        }),
        id.kind == DefKind::AssocConst ==> (def.kind matches FullDefKind::AssocConst {
            associated_item,
            ty,
            body,
            ..
        } && {
            let d = base.tcx.data(id);
            &&& exports_item(associated_item, d.associated_item->0, d.defaultness->0)
            &&& exports_type(ty, d.type_of->0, id, base.ty_alias_mode)
            &&& body == Body::spec_body(id, State { base, owner: id })
        }),
        id.kind == DefKind::AssocFn ==> (def.kind matches FullDefKind::AssocFn {
            associated_item,
            inline,
            is_const,
            sig,
            body,
            ..
        } && {
            let d = base.tcx.data(id);
            &&& exports_item(associated_item, d.associated_item->0, d.defaultness->0)
            &&& inline == d.inline->0
            &&& is_const <==> d.constness->0 == Constness::Const
            &&& read_in(sig.scope, id, base.ty_alias_mode)
            &&& is_exported_sig(sig.sig, *base.tcx, id)
            &&& body == Body::spec_body(id, State { base, owner: id })
        }),
{
    base.tcx.lemma_complete(id);
}

/// The clauses that `id` implies, with the `Drop` bounds if they were asked for.
pub open spec fn implied_clauses(base: Base, id: DefId) -> Seq<(RClause, RSpan)> {
    if base.options.resolve_drop_bounds {
        base.tcx.data(id).implied_predicates_with_drop@
    } else {
        base.tcx.data(id).implied_predicates@
    }
}

/// The signature of an associated function: its own, unless it stands in a trait impl; then the one
/// that the trait declares for it, with the arguments of the implemented trait reference put in,
/// followed by what the function has beyond the generics of the impl.
pub open spec fn is_exported_sig(sig: RPolyFnSig, tcx: TyCtxt, id: DefId) -> bool {
    let d = tcx.data(id);
    let item = d.associated_item->0;
    if item.container == AssocItemContainer::Impl && item.trait_item_def_id is Some {
        let imp = tcx.data(*id.parent->0);
        let own = d.generics->0.identity_args@;
        let front = imp.generics->0.parent_count + imp.generics->0.own_params@.len();
        &&& sig matches RPolyFnSig::Instantiated { sig: declared, args, anonymized }
        &&& declared == tcx.data(item.trait_item_def_id->0).fn_sig->0
        &&& anonymized
        &&& imp.impl_subject matches Some(ImplSubject::Trait(tr)) ==> takes_args(
            args@,
            tr.args@,
            own,
            front,
        )
    } else {
        sig == RPolyFnSig::Declared(d.fn_sig->0)
    }
}

/// `args` are `target`, followed by those of `own` that are left when `front` are taken off.
pub open spec fn takes_args(
    args: Seq<GenericArg>,
    target: Seq<GenericArg>,
    own: Seq<GenericArg>,
    front: int,
) -> bool {
    let left = if front <= own.len() {
        own.len() - front
    } else {
        0
    };
    &&& args.len() == target.len() + left
    &&& forall|i: int| 0 <= i < target.len() ==> args[i] == #[trigger] target[i]
    &&& forall|i: int|
        front <= i < own.len() ==> args[target.len() + i - front] == #[trigger] own[i]
}

// ---- traits and impls ----

/// A trait, or a trait alias, is exported with the clauses that it implies, in order, and with the
/// clause that `Self` implements it.
pub proof fn traits_are_exported<Body: IsBody>(
    def: &FullDef<Body>,
    cache: Map<CacheKey, Arc<FullDef<Body>>>,
    base: Base,
    id: DefId,
)
    requires
        id.promoted is None,
        is_full_def(*def, cache, base, id),
    ensures
        id.kind == DefKind::Trait ==> (def.kind matches FullDefKind::Trait {
            implied_predicates,
            self_predicate,
            ..
        } && {
            &&& exports_clauses(
                implied_predicates.predicates@,
                implied_clauses(base, id),
                id,
                base.ty_alias_mode,
            )
            &&& exports_trait_ref(
                self_predicate.trait_ref,
                base.tcx.data(id).self_predicate->0.trait_ref,
                id,
                base.ty_alias_mode,
            )
            &&& self_predicate.is_positive
        }),
        id.kind == DefKind::TraitAlias ==> (def.kind matches FullDefKind::TraitAlias {
            implied_predicates,
            self_predicate,
            ..
        } && {
            &&& exports_clauses(
                implied_predicates.predicates@,
                implied_clauses(base, id),
                id,
                base.ty_alias_mode,
            )
            &&& exports_trait_ref(
                self_predicate.trait_ref,
                base.tcx.data(id).self_predicate->0.trait_ref,
                id,
                base.ty_alias_mode,
            )
            &&& self_predicate.is_positive
        }),
{
}

/// `items` are the associated items `assocs`, each at its place, with its full definition.
pub open spec fn lists_items<Body: IsBody>(
    items: Seq<(AssocItem, Arc<FullDef<Body>>)>,
    base: Base,
    assocs: Seq<RAssocItem>,
) -> bool {
    &&& items.len() == assocs.len()
    &&& forall|i: int|
        0 <= i < items.len() ==> {
            &&& exports_item(
                (#[trigger] items[i]).0,
                assocs[i],
                base.tcx.data(assocs[i].def_id).defaultness->0,
            )
            &&& items[i].1.def_id == assocs[i].def_id
            &&& is_full_def(*items[i].1, Map::empty(), base, assocs[i].def_id)
        }
}

/// The items of a trait or of an inherent impl are listed in the order of their definition, none
/// left out, each with its full definition. An inherent impl is for the type that the compiler
/// gives.
pub proof fn items_are_listed_in_order<Body: IsBody>(
    def: &FullDef<Body>,
    base: Base,
    id: DefId,
)
    requires
        base.tcx.wf(),
        base.tcx.known(id),
        is_full_def(*def, Map::empty(), base, id),
    ensures
        def.kind matches FullDefKind::Trait { items, .. } ==> lists_items(
            items@,
            base,
            base.tcx.data(id).associated_items@,
        ),
        def.kind matches FullDefKind::InherentImpl { ty, items, .. } ==> {
            &&& lists_items(items@, base, base.tcx.data(id).associated_items@)
            &&& base.tcx.data(id).impl_subject->0 matches ImplSubject::Inherent(t) && exports_type(
                ty,
                t,
                id,
                base.ty_alias_mode,
            )
        },
{
    let s = base.spec_with_owner_id(id);
    let assocs = base.tcx.data(id).associated_items@;
    base.tcx.lemma_complete(id);
    if def.kind is Trait || def.kind is InherentImpl {
        let items = if def.kind is Trait {
            def.kind->Trait_items@
        } else {
            def.kind->InherentImpl_items@
        };
        assert(are_assoc_items(items, Map::empty(), s, assocs));
        assert forall|i: int| 0 <= i < items.len() implies {
            &&& exports_item(
                (#[trigger] items[i]).0,
                assocs[i],
                base.tcx.data(assocs[i].def_id).defaultness->0,
            )
            &&& items[i].1.def_id == assocs[i].def_id
            &&& is_full_def(*items[i].1, Map::empty(), base, assocs[i].def_id)
        } by {
            assert(base.tcx.known(assocs[i].def_id));
            base.tcx.lemma_complete(assocs[i].def_id);
        }
    }
}

/// The item of an impl that is filed for a trait item: `items[j]` names the trait item, and no item
/// after it does.
pub open spec fn implements(items: Seq<RAssocItem>, j: int, decl: DefId) -> bool {
    &&& 0 <= j < items.len()
    &&& names(items[j], decl)
    &&& forall|i: int| j < i < items.len() ==> !names(#[trigger] items[i], decl)
}

/// The item says that it implements the trait item.
pub open spec fn names(item: RAssocItem, decl: DefId) -> bool {
    item.trait_item_def_id matches Some(t) && t.krate == decl.krate && t.index == decl.index
}

/// The item that provides a trait item is the last one that names it; there is none only if no item
/// names it.
pub proof fn last_item_provides(items: Seq<RAssocItem>, decl: DefId)
    ensures
        match provider(items, decl.spec_key()) {
            Some(j) => implements(items, j, decl),
            None => forall|i: int| 0 <= i < items.len() ==> !names(#[trigger] items[i], decl),
        },
    decreases items.len(),
{
    numbers_are_those_of_definitions();
    if items.len() > 0 {
        let rest = items.drop_last();
        last_item_provides(rest, decl);
        assert forall|i: int| 0 <= i < rest.len() implies #[trigger] items[i] == rest[i] by {}
    }
}

/// One item of a trait impl with the items `assocs`, for the trait item `decl`.
pub open spec fn exports_impl_item<Body: IsBody>(
    x: ImplAssocItem<Body>,
    base: Base,
    id: DefId,
    tr: RTraitRef,
    decl: RAssocItem,
) -> bool {
    let tcx = *base.tcx;
    let assocs = tcx.data(id).associated_items@;
    let own = tcx.data(decl.def_id);
    &&& x.name == name_of(decl.kind)
    &&& x.decl_def.def_id == decl.def_id
    &&& is_full_def(*x.decl_def, Map::empty(), base, decl.def_id)
    &&& match x.value {
        ImplAssocItemValue::Provided { def, is_override } => exists|j: int|
            {
                &&& #[trigger] implements(assocs, j, decl.def_id)
                &&& def.def_id == assocs[j].def_id
                &&& is_full_def(*def, Map::empty(), base, assocs[j].def_id)
                &&& is_override <==> own.defaultness->0 != (Defaultness::Default {
                    has_value: false,
                })
                &&& answers_with(
                    x.required_impl_exprs@,
                    base,
                    Scope {
                        owner: assocs[j].def_id,
                        item: None,
                        ty_alias_mode: base.ty_alias_mode,
                    },
                    decl.def_id,
                    tr,
                    tcx.data(assocs[j].def_id).generics->0,
                    tcx.data(id).generics->0,
                )
            },
        _ => {
            let scope = Scope {
                owner: id,
                item: Some(decl.def_id),
                ty_alias_mode: base.ty_alias_mode,
            };
            &&& forall|i: int| 0 <= i < assocs.len() ==> !names(#[trigger] assocs[i], decl.def_id)
            &&& answers_with(
                x.required_impl_exprs@,
                base,
                scope,
                decl.def_id,
                tr,
                own.generics->0,
                tcx.data(tr.def_id).generics->0,
            )
            &&& decl.kind is Type <==> x.value is DefaultedTy
            &&& decl.kind is Fn <==> x.value is DefaultedFn
            &&& decl.kind is Const <==> x.value is DefaultedConst
            &&& x.value matches ImplAssocItemValue::DefaultedTy { ty } ==> {
                &&& ty.scope == scope
                &&& ty.ty matches RTy::Instantiated { ty: t, args } && *t == own.type_of->0
                    && takes_args(
                    args@,
                    tr.args@,
                    own.generics->0.identity_args@,
                    tcx.data(tr.def_id).generics->0.parent_count + tcx.data(
                        tr.def_id,
                    ).generics->0.own_params@.len(),
                )
            }
        },
    }
}

/// The implementations answer each clause that `decl` implies, with the arguments of the trait
/// reference, followed by the generics `own` beyond those of `container`.
pub open spec fn answers_with(
    exprs: Seq<ImplExpr>,
    base: Base,
    scope: Scope,
    decl: DefId,
    tr: RTraitRef,
    own: RGenerics,
    container: RGenerics,
) -> bool {
    exists|args: Seq<GenericArg>|
        {
            &&& #[trigger] takes_args(
                args,
                tr.args@,
                own.identity_args@,
                container.parent_count + container.own_params@.len(),
            )
            &&& answers_each_clause(exprs, implied_clauses(base, decl), scope, args)
        }
}

/// The full definition of a trait impl: the trait reference that it is for and whether it says that
/// the trait is implemented; one implementation for each trait clause that the trait implies; and
/// one item for each item of the trait, in the order of the trait. An item is the one that the impl
/// provides, which overrides exactly if the trait has a default; else it is the default. It has one
/// implementation for each trait clause that the trait item implies.
pub proof fn trait_impls_are_exported<Body: IsBody>(
    def: &FullDef<Body>,
    base: Base,
    id: DefId,
    tr: RTraitRef,
)
    requires
        base.tcx.wf(),
        base.tcx.known(id),
        id.kind is Impl,
        base.tcx.data(id).impl_subject == Some(ImplSubject::Trait(tr)),
        is_full_def(*def, Map::empty(), base, id),
    ensures
        def.kind matches FullDefKind::TraitImpl { trait_pred, implied_impl_exprs, items, .. } && {
            &&& exports_trait_ref(trait_pred.trait_ref, tr, id, base.ty_alias_mode)
            &&& trait_pred.is_positive <==> base.tcx.data(id).impl_polarity
                == Some(ImplPolarity::Positive)
            &&& answers_each_clause(
                implied_impl_exprs@,
                implied_clauses(base, tr.def_id),
                Scope { owner: id, item: None, ty_alias_mode: base.ty_alias_mode },
                tr.args@,
            )
            &&& items@.len() == base.tcx.data(tr.def_id).associated_items@.len()
            &&& forall|i: int|
                0 <= i < items@.len() ==> exports_impl_item(
                    #[trigger] items@[i],
                    base,
                    id,
                    tr,
                    base.tcx.data(tr.def_id).associated_items@[i],
                )
        },
{
    let tcx = *base.tcx;
    let s = base.spec_with_owner_id(id);
    let decls = tcx.data(tr.def_id).associated_items@;
    let assocs = tcx.data(id).associated_items@;
    let none = Map::<CacheKey, Arc<FullDef<Body>>>::empty();
    tcx.lemma_complete(id);
    tcx.lemma_complete(tr.def_id);
    each_trait_clause_is_answered(
        def.kind->implied_impl_exprs@,
        implied_clauses(base, tr.def_id),
        s.spec_scope(),
        tr.args@,
    );
    let items = def.kind->TraitImpl_items@;
    assert forall|i: int| 0 <= i < items.len() implies exports_impl_item(
        #[trigger] items[i],
        base,
        id,
        tr,
        decls[i],
    ) by {
        let x = items[i];
        let decl = decls[i];
        assert(is_impl_item(x, none, s, tr, decl));
        assert(tcx.known(decl.def_id));
        tcx.lemma_complete(decl.def_id);
        last_item_provides(assocs, decl.def_id);
        let clauses = implied_clauses(base, decl.def_id);
        match provider(assocs, decl.def_id.spec_key()) {
            Some(j) => {
                let item = assocs[j].def_id;
                assert(tcx.known(item));
                tcx.lemma_complete(item);
                let args = item_args(tcx, id, tr, item);
                let state = base.spec_with_owner_id(item);
                rebased_arguments(
                    tcx.data(item).generics->0.identity_args@,
                    tcx.data(id).generics->0.spec_count(),
                    tr.args@,
                );
                each_trait_clause_is_answered(
                    x.required_impl_exprs@,
                    clauses,
                    state.spec_scope(),
                    args,
                );
                assert(implements(assocs, j, decl.def_id));
            },
            None => {
                let args = item_args(tcx, tr.def_id, tr, decl.def_id);
                rebased_arguments(
                    tcx.data(decl.def_id).generics->0.identity_args@,
                    tcx.data(tr.def_id).generics->0.spec_count(),
                    tr.args@,
                );
                each_trait_clause_is_answered(
                    x.required_impl_exprs@,
                    clauses,
                    s.spec_default_scope(decl.def_id),
                    args,
                );
            },
        }
    }
}

/// Arguments that are moved to other generics are the new ones, followed by the old ones that are
/// not the ancestor's.
pub proof fn rebased_arguments(args: Seq<GenericArg>, front: int, target: Seq<GenericArg>)
    requires
        0 <= front,
    ensures
        takes_args(spec_rebase_onto(args, front, target), target, args, front),
{
}

// ---- closures ----

/// Which associated items are types.
pub open spec fn type_flags(items: Seq<RAssocItem>) -> Seq<bool> {
    Seq::new(items.len(), |i: int| items[i].kind is Type)
}

proof fn lemma_type_items(items: Seq<RAssocItem>)
    ensures
        type_items(items).len() == count(type_flags(items), items.len() as int),
        forall|p: int|
            #![trigger items[p]]
            0 <= p < items.len() && items[p].kind is Type ==> {
                &&& 0 <= count(type_flags(items), p) < type_items(items).len()
                &&& type_items(items)[count(type_flags(items), p)] == items[p]
            },
    decreases items.len(),
{
    if items.len() > 0 {
        let rest = items.drop_last();
        let flags = type_flags(items);
        let n = rest.len() as int;
        lemma_type_items(rest);
        lemma_count(flags, type_flags(rest), n, n);
        assert forall|p: int|
            #![trigger items[p]]
            0 <= p < items.len() && items[p].kind is Type implies {
            &&& 0 <= count(flags, p) < type_items(items).len()
            &&& type_items(items)[count(flags, p)] == items[p]
        } by {
            lemma_count(flags, type_flags(rest), p, n);
            if p < n {
                assert(rest[p] == items[p]);
            }
        }
    }
}

/// An impl of the trait `trait_id` for `args` that is made up for the owner: it has one
/// implementation for each trait clause that the trait implies, and one type for each associated
/// type of the trait, in order, with one implementation for each trait clause that the type
/// implies.
pub open spec fn implements_for(
    v: VirtualTraitImpl,
    base: Base,
    owner: DefId,
    trait_id: DefId,
    args: Seq<GenericArg>,
) -> bool {
    let scope = Scope { owner, item: None, ty_alias_mode: base.ty_alias_mode };
    let items = base.tcx.data(trait_id).associated_items@;
    let flags = type_flags(items);
    &&& v.trait_pred.trait_ref.def_id == trait_id
    &&& v.trait_pred.trait_ref.generic_args@ == args
    &&& v.trait_pred.trait_ref.scope == scope
    &&& v.trait_pred.is_positive
    &&& answers_each_clause(v.implied_impl_exprs@, implied_clauses(base, trait_id), scope, args)
    &&& v.types@.len() == count(flags, items.len() as int)
    &&& forall|p: int|
        #![trigger items[p]]
        0 <= p < items.len() && items[p].kind is Type ==> {
            let t = v.types@[count(flags, p)];
            &&& t.0.scope == scope
            &&& t.0.ty matches RTy::Projection { def_id, args: type_args } && def_id
                == items[p].def_id && type_args@ == args
            &&& answers_each_clause(
                t.1@,
                implied_clauses(base, items[p].def_id),
                scope,
                args,
            )
        }
}

/// An impl that is made up for a trait has what the trait calls for.
pub proof fn virtual_impls_are_complete(
    v: VirtualTraitImpl,
    base: Base,
    owner: DefId,
    trait_id: DefId,
    args: Seq<GenericArg>,
)
    requires
        is_virtual_impl(v, base.spec_with_owner_id(owner), trait_id, args),
    ensures
        implements_for(v, base, owner, trait_id, args),
{
    let s = base.spec_with_owner_id(owner);
    let scope = s.spec_scope();
    let items = base.tcx.data(trait_id).associated_items@;
    let flags = type_flags(items);
    lemma_type_items(items);
    each_trait_clause_is_answered(
        v.implied_impl_exprs@,
        implied_clauses(base, trait_id),
        scope,
        args,
    );
    assert forall|p: int|
        #![trigger items[p]]
        0 <= p < items.len() && items[p].kind is Type implies {
        let t = v.types@[count(flags, p)];
        &&& t.0.scope == scope
        &&& t.0.ty matches RTy::Projection { def_id, args: type_args } && def_id
            == items[p].def_id && type_args@ == args
        &&& answers_each_clause(t.1@, implied_clauses(base, items[p].def_id), scope, args)
    } by {
        let i = count(flags, p);
        assert(is_virtual_type(v.types@[i], s, type_items(items)[i].def_id, args));
        each_trait_clause_is_answered(
            v.types@[i].1@,
            implied_clauses(base, items[p].def_id),
            scope,
            args,
        );
    }
}

/// A closure is exported with the arguments that the compiler takes its type apart into. It
/// implements `FnOnce`, also `FnMut` unless it can be called only once, and also `Fn` if it can be
/// called through a shared reference, each for the closure and the tuple of its inputs with
/// lifetimes erased. It has a `call_once` of its own exactly if it can be called more than once.
pub proof fn closures_are_exported<Body: IsBody>(
    def: &FullDef<Body>,
    cache: Map<CacheKey, Arc<FullDef<Body>>>,
    base: Base,
    id: DefId,
    closure_id: DefId,
    parts: Arc<RClosureArgs>,
)
    requires
        id.promoted is None,
        id.kind == DefKind::Closure,
        base.tcx.data(id).type_of == Some(RTy::Closure { def_id: closure_id, closure: parts }),
        is_full_def(*def, cache, base, id),
    ensures
        def.kind matches FullDefKind::Closure {
            args,
            is_const,
            fn_once_impl,
            fn_mut_impl,
            fn_impl,
            once_shim,
            drop_glue,
        } && {
            let ty = RTy::Closure { def_id: closure_id, closure: parts };
            let lang = base.tcx.lang_items;
            let trait_args = seq![
                GenericArg::Type(ty),
                GenericArg::Type(RTy::RegionsErased(Arc::new(parts.inputs@[0]))),
            ];
            &&& args.def_id == id
            &&& args.args == parts
            &&& read_in(args.scope, id, base.ty_alias_mode)
            &&& is_const <==> base.tcx.data(id).constness->0 == Constness::Const
            &&& implements_for(*fn_once_impl, base, id, lang.fn_once_trait->0, trait_args)
            &&& fn_mut_impl is Some <==> parts.kind != ClosureKind::FnOnce
            &&& fn_mut_impl matches Some(v) ==> implements_for(
                *v,
                base,
                id,
                lang.fn_mut_trait->0,
                trait_args,
            )
            &&& fn_impl is Some <==> parts.kind == ClosureKind::Fn
            &&& fn_impl matches Some(v) ==> implements_for(
                *v,
                base,
                id,
                lang.fn_trait->0,
                trait_args,
            )
            &&& once_shim == (if parts.kind == ClosureKind::FnOnce {
                None
            } else {
                Body::spec_from_mir(
                    State { base, owner: id },
                    RMir::ClosureOnceShim { closure: closure_id, args: parts },
                )
            })
            &&& drop_glue == glue::<Body>(base, id)
        },
{
    let lang = base.tcx.lang_items;
    let ty = RTy::Closure { def_id: closure_id, closure: parts };
    let trait_args = seq![
        GenericArg::Type(ty),
        GenericArg::Type(RTy::RegionsErased(Arc::new(parts.inputs@[0]))),
    ];
    assert(closure_trait_args(ty) =~= trait_args);
    virtual_impls_are_complete(
        *def.kind->fn_once_impl,
        base,
        id,
        lang.fn_once_trait->0,
        trait_args,
    );
    if def.kind->fn_mut_impl is Some {
        virtual_impls_are_complete(
            *def.kind->fn_mut_impl->0,
            base,
            id,
            lang.fn_mut_trait->0,
            trait_args,
        );
    }
    if def.kind->fn_impl is Some {
        virtual_impls_are_complete(
            *def.kind->fn_impl->0,
            base,
            id,
            lang.fn_trait->0,
            trait_args,
        );
    }
}

// ---- modules ----

/// The children of a module, in order: the items of a module of the crate being compiled, or else
/// the names that a module of another crate offers. A block of foreign items of the crate being
/// compiled has its items, one of another crate none.
pub proof fn modules_are_exported<Body: IsBody>(
    def: &FullDef<Body>,
    cache: Map<CacheKey, Arc<FullDef<Body>>>,
    base: Base,
    id: DefId,
)
    requires
        base.tcx.wf(),
        base.tcx.known(id),
        is_full_def(*def, cache, base, id),
    ensures
        id.kind == DefKind::Mod ==> (def.kind matches FullDefKind::Mod { items } && {
            let d = base.tcx.data(id);
            if id.krate == 0 {
                match d.hir_node->0 {
                    HirNode::Crate(own) => lists_hir_items(items@, own@),
                    HirNode::Item(HirItemKind::Mod(own)) => lists_hir_items(items@, own@),
                    _ => false,
                }
            } else {
                &&& items@.len() == d.module_children@.len()
                &&& forall|i: int|
                    0 <= i < items@.len() ==> {
                        &&& exports_ident(
                            (#[trigger] items@[i]).0,
                            Some(d.module_children@[i].ident),
                        )
                        &&& Some(items@[i].1) == d.module_children@[i].res
                    }
            }
        }),
        id.kind == DefKind::ForeignMod ==> (def.kind matches FullDefKind::ForeignMod { items } && {
            if id.krate == 0 {
                base.tcx.data(id).hir_node->0 matches HirNode::Item(HirItemKind::ForeignMod(own))
                    && items@ == own@
            } else {
                items@.len() == 0
            }
        }),
{
    base.tcx.lemma_complete(id);
    let d = base.tcx.data(id);
    if id.kind == DefKind::Mod {
        let items = def.kind->Mod_items@;
        let children = spec_mod_children(d);
        assert forall|i: int| 0 <= i < children.len() implies (#[trigger] items[i]) == (
            spec_ident(children[i].0),
            children[i].1,
        ) by {}
        if id.krate != 0 {
            assert forall|i: int| 0 <= i < items.len() implies {
                &&& exports_ident((#[trigger] items[i]).0, Some(d.module_children@[i].ident))
                &&& Some(items[i].1) == d.module_children@[i].res
            } by {
                assert(d.module_children@[i].res is Some);
            }
        }
    }
}

pub open spec fn exports_ident(out: Option<Ident>, ident: Option<RIdent>) -> bool {
    match ident {
        None => out is None,
        Some(i) => out matches Some(o) && o.0 == i.name && shows(o.1, i.span),
    }
}

pub open spec fn lists_hir_items(out: Seq<(Option<Ident>, DefId)>, own: Seq<HirItem>) -> bool {
    &&& out.len() == own.len()
    &&& forall|i: int|
        0 <= i < out.len() ==> exports_ident((#[trigger] out[i]).0, own[i].ident) && out[i].1
            == own[i].def_id
}

// ---- promoted constants and bodies ----

/// A promoted constant is at the place of the definition that it comes from, has the source of its
/// own body, the type of the first local of the body, that body, and as many generics, all
/// inherited, as the definition that it comes from.
pub proof fn promoted_constants_are_exported<Body: IsBody>(
    def: &FullDef<Body>,
    base: Base,
    id: DefId,
)
    requires
        id.wf(),
        id.promoted is Some,
        is_full_def(*def, Map::empty(), base, id),
    ensures
        ({
            let from = *id.parent->0;
            let d = base.tcx.data(from);
            let mir = d.promoted_mir@[id.promoted->0.id as int];
            &&& def.def_id == id
            &&& shows(def.span, d.def_span->0)
            &&& def.source_span is Some
            &&& shows(def.source_span->0, mir.span)
            &&& def.source_text == (if mir.span.data.ctxt == 0 {
                mir.span.snippet
            } else {
                None
            })
            &&& def.attributes@.len() == 0
            &&& def.visibility is None
            &&& def.lang_item is None
            &&& def.diagnostic_item is None
            &&& def.kind matches FullDefKind::Const { param_env, ty, kind, body }
            &&& kind == ConstKind::PromotedConst
            &&& exports_type(ty, mir.local_decls@[0], from, base.ty_alias_mode)
            &&& body == Body::spec_from_mir(
                State { base, owner: from },
                RMir::Promoted { def_id: from, promoted: id.promoted->0 },
            )
            &&& param_env.generics.parent == Some(from)
            &&& param_env.generics.parent_count == d.generics->0.parent_count
                + d.generics->0.own_params@.len()
            &&& param_env.generics.params@.len() == 0
            &&& !param_env.generics.has_self
            &&& param_env.generics.has_late_bound_regions is None
            &&& param_env.predicates.predicates@.len() == 0
        }),
{
}

/// A body of the compiler is exported as it is given, with the scope of the owner; the body of a
/// definition is not looked up. The form that says nothing about bodies says so of each.
pub proof fn bodies_are_exported(s: State, id: DefId, mir: RMir)
    ensures
        MirBody::spec_body(id, s) is None,
        MirBody::spec_from_mir(s, mir) is Some,
        MirBody::spec_from_mir(s, mir)->0.mir == mir,
        read_in(MirBody::spec_from_mir(s, mir)->0.scope, s.owner, s.base.ty_alias_mode),
        <() as IsBody>::spec_body(id, s) == Some(()),
        <() as IsBody>::spec_from_mir(s, mir) == Some(()),
{
}

} // verus!
