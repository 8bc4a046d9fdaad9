//! What holds of the questions to the compiler, in terms of its answers.
use crate::body::{IsBody, RMir};
use crate::cache::CacheKey;
use crate::def_id::{DefId, DefKind};
use crate::export_laws::{
    answers_each_clause, each_trait_clause_is_answered, exports_clauses, exports_generics,
    exports_trait_ref, glue, implements, implied_clauses, is_exported_sig, last_item_provides,
    names, numbers_are_those_of_definitions, rebased_arguments, shows,
};
use crate::full_def::{FullDef, FullDefKind, ImplAssocItem, ImplAssocItemValue, ParamEnv};
use crate::full_def_spec::{
    are_owner_implied_predicates, is_param_env, is_provided_as, item_keys, looks_up, nested_keys,
    provided_keys, spec_def_span, spec_drop_glue, spec_once_shim, spec_self_predicate,
};
use crate::lookup::spec_can_be_looked_up;
use crate::number::{digits_value, is_digit, is_u64_text};
use crate::rustc_utils::{
    is_method_sig, is_type_kind, is_variant_information, node_attrs, region_attrs, region_node,
    resolving_env, some_named, some_variant_named, spec_closure_once_shim, spec_def_attrs,
    spec_def_visibility, spec_drop_glue_shim, spec_foreign_mod_children, spec_mod_children,
    HasParamEnv, RegionScope, TypingMode, VariantInformations, VariantKind,
};
use crate::state::{Base, State};
use crate::tcx::{provider, DefData, HirItem, HirItemKind, HirNode, TyCtxt};
use crate::traits::{are_implied_impl_exprs, are_implied_impl_exprs_in};
use crate::ty::{
    AdtKind, AssocKind, Attribute, ClosureKind, GenericArg, GenericPredicates, ImplExpr,
    ImplSubject, RAdtDef, RAssocItem, RClosureArgs, RFieldDef, RGenerics, RIdent, RPolyFnSig, RTy,
    Scope, TyGenerics, Visibility,
};
use std::sync::Arc;
use vstd::prelude::*;

verus! {

// ---- numbers and fields ----

/// A row of digits is read in base ten, the first digit first.
pub proof fn digits_are_decimal(digits: Seq<char>, c: char)
    ensures
        digits_value(Seq::empty()) == 0,
        digits_value(digits.push(c)) == 10 * digits_value(digits) + (c as int - 48),
{
    assert(digits.push(c).drop_last() =~= digits);
}

/// A text is a number of 64 bits exactly if, a plus sign in front of it aside, it is one or more
/// decimal digits whose value fits.
pub proof fn numbers_are_recognised(text: Seq<char>)
    ensures
        text.len() == 0 ==> !is_u64_text(text),
        text.len() > 0 && text[0] != '+' ==> (is_u64_text(text) <==> (forall|i: int|
            0 <= i < text.len() ==> 48 <= (#[trigger] text[i]) as int <= 57) && digits_value(text)
            <= 0xffff_ffff_ffff_ffff),
        (text.len() == 0 || text[0] != '+') ==> (is_u64_text(seq!['+'] + text) <==> is_u64_text(
            text,
        )),
        text.len() > 0 && text[0] == '+' ==> !is_u64_text(seq!['+'] + text),
{
    let plus = seq!['+'] + text;
    assert(plus[0] == '+');
    assert(plus.skip(1) =~= text);
    assert forall|i: int| 0 <= i < text.len() implies (is_digit(#[trigger] text[i]) <==> 48
        <= text[i] as int <= 57) by {}
    if text.len() > 0 && text[0] == '+' {
        assert(!is_digit(text[0]));
    }
}

/// Fields have names if one of them is called by something that is not a number.
pub proof fn fields_are_named_by_some(a: Seq<RFieldDef>, b: Seq<RFieldDef>, f: RFieldDef)
    ensures
        !some_named(Seq::empty()),
        some_named(seq![f]) <==> !is_u64_text(f.name@),
        some_named(a + b) <==> some_named(a) || some_named(b),
{
    if !is_u64_text(f.name@) {
        assert(!is_u64_text(seq![f][0].name@));
    }
    if some_named(a) {
        let i = choose|i: int| 0 <= i < a.len() && !is_u64_text((#[trigger] a[i]).name@);
        assert(!is_u64_text((a + b)[i].name@));
    }
    if some_named(b) {
        let i = choose|i: int| 0 <= i < b.len() && !is_u64_text((#[trigger] b[i]).name@);
        assert(!is_u64_text((a + b)[a.len() + i].name@));
    }
    if some_named(a + b) {
        let i = choose|i: int|
            0 <= i < (a + b).len() && !is_u64_text((#[trigger] (a + b)[i]).name@);
        if i < a.len() {
            assert(!is_u64_text(a[i].name@));
        } else {
            assert(!is_u64_text(b[i - a.len()].name@));
        }
    }
}

/// What is needed to refer to a variant: the type, the variant at the index, what encloses the
/// type, and whether fields have names: those of all variants for a struct, those of the variant
/// for an enum.
pub proof fn variants_are_referred_to(r: VariantInformations, adt: RAdtDef, index: usize)
    requires
        index < adt.variants@.len(),
        adt.did.parent is Some,
        is_variant_information(r, adt, index),
    ensures
        r.typ == adt.did,
        r.variant == adt.variants@[index as int].def_id,
        adt.did.parent == Some(Arc::new(r.type_namespace)),
        adt.kind == AdtKind::Struct ==> r.kind == (VariantKind::Struct {
            named: exists|v: int, i: int|
                0 <= v < adt.variants@.len() && 0 <= i < adt.variants@[v].fields@.len()
                    && !is_u64_text((#[trigger] adt.variants@[v].fields@[i]).name@),
        }),
        adt.kind == AdtKind::Union ==> r.kind == VariantKind::Union,
        adt.kind == AdtKind::Enum ==> r.kind == (VariantKind::Enum {
            index,
            named: exists|i: int|
                0 <= i < adt.variants@[index as int].fields@.len() && !is_u64_text(
                    (#[trigger] adt.variants@[index as int].fields@[i]).name@,
                ),
        }),
{
    if adt.kind == AdtKind::Struct {
        if some_variant_named(adt) {
            let v = choose|v: int|
                0 <= v < adt.variants@.len() && some_named((#[trigger] adt.variants@[v]).fields@);
            let fields = adt.variants@[v].fields@;
            let i = choose|i: int|
                0 <= i < fields.len() && !is_u64_text((#[trigger] fields[i]).name@);
            assert(!is_u64_text(adt.variants@[v].fields@[i].name@));
        }
        assert forall|v: int, i: int|
            0 <= v < adt.variants@.len() && 0 <= i < adt.variants@[v].fields@.len()
                && !is_u64_text((#[trigger] adt.variants@[v].fields@[i]).name@) implies
            some_variant_named(adt) by {
            assert(some_named(adt.variants@[v].fields@));
        }
    }
}

// ---- kinds ----

/// The types that are looked for around a definition are structs, unions and enums.
pub proof fn types_are_structs_unions_and_enums(kind: DefKind)
    ensures
        is_type_kind(kind) <==> kind == DefKind::Struct || kind == DefKind::Union || kind
            == DefKind::Enum,
{
}

/// A definition has a visibility if its kind can carry a modifier, and is then public or not.
pub proof fn visibility_is_that_of_the_compiler(tcx: TyCtxt, id: DefId, kind: DefKind)
    ensures
        match kind {
            DefKind::AssocConst
            | DefKind::AssocFn
            | DefKind::Const
            | DefKind::Enum
            | DefKind::Field
            | DefKind::Fn
            | DefKind::ForeignTy
            | DefKind::Macro(_)
            | DefKind::Mod
            | DefKind::Static { .. }
            | DefKind::Struct
            | DefKind::Trait
            | DefKind::TraitAlias
            | DefKind::TyAlias
            | DefKind::Union
            | DefKind::Use
            | DefKind::Variant => spec_def_visibility(tcx, id, kind) == (match tcx.data(
                id,
            ).visibility->0 {
                Visibility::Public => Some(true),
                Visibility::Restricted(_) => Some(false),
            }),
            _ => spec_def_visibility(tcx, id, kind) is None,
        },
{
}

/// A definition has the attributes that the compiler gives, all of them in order; parameters and
/// blocks of foreign items have none.
pub proof fn attributes_are_those_of_the_compiler(tcx: TyCtxt, id: DefId, kind: DefKind)
    ensures
        match kind {
            DefKind::ConstParam
            | DefKind::LifetimeParam
            | DefKind::TyParam
            | DefKind::ForeignMod => spec_def_attrs(tcx, id, kind).len() == 0,
            _ => spec_def_attrs(tcx, id, kind) == tcx.data(id).attrs->0@,
        },
{
}

// ---- regions and assumptions ----

/// The attributes on a node are the first that are listed for its number; there are none if none
/// are listed.
pub proof fn node_has_what_is_listed_first(
    attrs: Seq<(u32, Vec<Attribute>)>,
    local_id: u32,
    n: int,
)
    requires
        0 <= n <= attrs.len(),
        forall|i: int| 0 <= i < n ==> (#[trigger] attrs[i]).0 != local_id,
    ensures
        n == attrs.len() ==> node_attrs(attrs, local_id).len() == 0,
        n < attrs.len() && attrs[n].0 == local_id ==> node_attrs(attrs, local_id) == attrs[n].1@,
    decreases n,
{
    if n > 0 {
        let rest = attrs.skip(1);
        assert(attrs[0].0 != local_id);
        assert forall|i: int| 0 <= i < n - 1 implies (#[trigger] rest[i]).0 != local_id by {
            assert(rest[i] == attrs[i + 1]);
        }
        node_has_what_is_listed_first(rest, local_id, n - 1);
        if n < attrs.len() {
            assert(rest[n - 1] == attrs[n]);
        }
    }
}

/// A region of a body belongs to the node with its number in the owner of the body, and has the
/// attributes that are on that node; without a body there is no node and no attribute.
pub proof fn regions_belong_to_the_body(tcx: TyCtxt, owner: DefId, scope: RegionScope)
    ensures
        match tcx.data(owner).root_body {
            None => region_node(tcx.data(owner), scope) is None && region_attrs(
                tcx,
                owner,
                scope,
            ).len() == 0,
            Some(root) => {
                &&& region_node(tcx.data(owner), scope) matches Some(h) && h.owner == root.owner
                    && h.local_id == scope.local_id
                &&& region_attrs(tcx, owner, scope) == node_attrs(
                    tcx.data(root.owner).hir_attrs@,
                    scope.local_id,
                )
            },
        },
{
}

/// Types are resolved under what the compiler assumes in the owner, and all the way.
pub proof fn owner_gives_the_assumptions(s: State)
    ensures
        resolving_env(s.spec_param_env()).param_env == s.base.tcx.data(s.owner).param_env,
        resolving_env(s.spec_param_env()).typing_mode == TypingMode::PostAnalysis,
{
}

// ---- modules ----

/// The children of a local module are its items, in order, with their names where they have one;
/// those of a module of another crate are the names that it offers, in order.
pub proof fn module_children_are_listed(d: DefData)
    requires
        TyCtxt::mod_children_known(d),
    ensures
        d.def_id.krate == 0 ==> match d.hir_node->0 {
            HirNode::Crate(items) => lists(spec_mod_children(d), items@),
            HirNode::Item(HirItemKind::Mod(items)) => lists(spec_mod_children(d), items@),
            _ => false,
        },
        d.def_id.krate != 0 ==> {
            &&& spec_mod_children(d).len() == d.module_children@.len()
            &&& forall|i: int|
                0 <= i < d.module_children@.len() ==> {
                    let c = #[trigger] d.module_children@[i];
                    &&& spec_mod_children(d)[i].0 == Some(c.ident)
                    &&& c.res == Some(spec_mod_children(d)[i].1)
                }
        },
{
}

pub open spec fn lists(children: Seq<(Option<RIdent>, DefId)>, items: Seq<HirItem>) -> bool {
    &&& children.len() == items.len()
    &&& forall|i: int|
        0 <= i < items.len() ==> children[i].0 == (#[trigger] items[i]).ident && children[i].1
            == items[i].def_id
}

/// The children of a local block of foreign items are its items, in order; a block of another crate
/// has none.
pub proof fn foreign_children_are_listed(d: DefData)
    ensures
        d.def_id.krate != 0 ==> spec_foreign_mod_children(d).len() == 0,
        d.def_id.krate == 0 ==> (d.hir_node matches Some(
            HirNode::Item(HirItemKind::ForeignMod(items)),
        ) ==> spec_foreign_mod_children(d) == items@),
{
}

// ---- signatures and bodies ----

/// The signature of an associated function: its own, or, in a trait impl, the one that the trait
/// declares, with arguments put in.
pub proof fn method_signatures_are_those_of_the_trait(sig: RPolyFnSig, tcx: TyCtxt, id: DefId)
    requires
        is_method_sig(sig, tcx, id),
    ensures
        is_exported_sig(sig, tcx, id),
{
    let parent = *id.parent->0;
    rebased_arguments(
        tcx.data(id).generics->0.identity_args@,
        tcx.data(parent).generics->0.spec_count(),
        tcx.spec_impl_trait_ref(parent)->0.args@,
    );
}

/// A closure that can be called more than once gets a `call_once`; one that can be called only once
/// gets none.
pub proof fn once_shims_are_for_repeated_calls(closure: DefId, args: Arc<RClosureArgs>)
    ensures
        ({
            let shim = spec_closure_once_shim(RTy::Closure { def_id: closure, closure: args });
            match args.kind {
                ClosureKind::Fn | ClosureKind::FnMut => shim == Some(
                    RMir::ClosureOnceShim { closure, args },
                ),
                ClosureKind::FnOnce => shim is None,
            }
        }),
{
}

/// There is code to drop a value exactly if there are no generics, neither own nor inherited; it is
/// the code of the language for the type of the definition.
pub proof fn drop_glue_is_for_the_type(tcx: TyCtxt, id: DefId)
    ensures
        ({
            let g = tcx.data(id).generics->0;
            let glue = spec_drop_glue_shim(tcx, id);
            &&& glue is Some <==> g.parent_count == 0 && g.own_params@.len() == 0
            &&& glue is Some ==> glue == Some(
                RMir::DropGlue {
                    drop_in_place: tcx.lang_items.drop_in_place->0,
                    ty: tcx.data(id).type_of->0,
                },
            )
        }),
{
}

// ---- generics and items ----

/// The parameters of a definition are counted with those of its parents.
pub proof fn parameters_are_counted(g: RGenerics, out: TyGenerics)
    ensures
        g.spec_count() == g.parent_count + g.own_params@.len(),
        out.spec_count_total_params() == out.parent_count + out.params@.len(),
{
}

/// The relevant definition of an item of a trait impl is the one that the impl provides, or else
/// that of the trait; the kind of the item is that of the associated item that it is.
pub proof fn relevant_definition_is_provided_or_declared<Body>(x: ImplAssocItem<Body>)
    ensures
        x.spec_def() == (match x.value {
            ImplAssocItemValue::Provided { def, .. } => *def,
            ImplAssocItemValue::DefaultedTy { .. } => *x.decl_def,
            ImplAssocItemValue::DefaultedFn {  } => *x.decl_def,
            ImplAssocItemValue::DefaultedConst => *x.decl_def,
        }),
        match x.spec_def().kind {
            FullDefKind::AssocTy { associated_item, .. } => x.spec_assoc_kind() == Some(
                associated_item.kind,
            ),
            FullDefKind::AssocFn { associated_item, .. } => x.spec_assoc_kind() == Some(
                associated_item.kind,
            ),
            FullDefKind::AssocConst { associated_item, .. } => x.spec_assoc_kind() == Some(
                associated_item.kind,
            ),
            _ => x.spec_assoc_kind() is None,
        },
{
}

/// Two associated items are of the same case if both are types, both functions or both constants,
/// and an item is of the kind of definition of its case.
pub proof fn cases_of_items(a: RAssocItem, b: AssocKind, kind: DefKind)
    ensures
        a.kind.spec_same_case(b) <==> (a.kind is Type && b is Type) || (a.kind is Fn && b is Fn)
            || (a.kind is Const && b is Const),
        a.spec_is_of_kind(kind) <==> (a.kind is Type && kind == DefKind::AssocTy) || (a.kind is Fn
            && kind == DefKind::AssocFn) || (a.kind is Const && kind == DefKind::AssocConst),
{
}

// ---- the table ----

/// There are answers about a definition exactly if an entry has its crate and index, and they are
/// those of that entry.
pub proof fn answers_are_those_of_the_entry(tcx: TyCtxt, id: DefId, i: int)
    requires
        tcx.sorted(),
    ensures
        tcx.has(id) <==> exists|j: int|
            0 <= j < tcx.defs@.len() && (#[trigger] tcx.defs@[j]).def_id.krate == id.krate
                && tcx.defs@[j].def_id.index == id.index,
        0 <= i < tcx.defs@.len() && tcx.defs@[i].def_id.krate == id.krate
            && tcx.defs@[i].def_id.index == id.index ==> tcx.data(id) == tcx.defs@[i],
        tcx.known(id) <==> exists|j: int|
            0 <= j < tcx.defs@.len() && (#[trigger] tcx.defs@[j]).def_id == id,
{
    numbers_are_those_of_definitions();
    if tcx.has(id) {
        let j = choose|j: int| #[trigger] tcx.is_at(j, id.spec_key());
        assert(tcx.defs@[j].def_id.krate == id.krate);
    }
    assert forall|j: int|
        0 <= j < tcx.defs@.len() && (#[trigger] tcx.defs@[j]).def_id.krate == id.krate
            && tcx.defs@[j].def_id.index == id.index implies tcx.has(id) && tcx.data(id)
        == tcx.defs@[j] by {
        tcx.lemma_data_at(j);
        assert(tcx.defs@[j].def_id.spec_key() == id.spec_key());
        assert(tcx.is_at(j, id.spec_key()));
    }
}

/// The entries of an ordered table are about different definitions, and come in the order of crate
/// and index.
pub proof fn entries_are_in_order(tcx: TyCtxt, i: int, j: int)
    requires
        tcx.sorted(),
        0 <= i < j < tcx.defs@.len(),
    ensures
        ({
            let a = tcx.defs@[i].def_id;
            let b = tcx.defs@[j].def_id;
            a.krate < b.krate || a.krate == b.krate && a.index < b.index
        }),
{
    assert(tcx.defs@[i].def_id.spec_key() < tcx.defs@[j].def_id.spec_key());
}

/// A table is ordered if its entries come in the order of crate and index, none twice.
pub proof fn ordered_entries_make_a_table(tcx: TyCtxt)
    requires
        forall|i: int, j: int|
            #![trigger tcx.defs@[i], tcx.defs@[j]]
            0 <= i < j < tcx.defs@.len() ==> {
                let a = tcx.defs@[i].def_id;
                let b = tcx.defs@[j].def_id;
                a.krate < b.krate || a.krate == b.krate && a.index < b.index
            },
    ensures
        tcx.sorted(),
{
}

/// In a complete table the compiler has answered what is asked about any definition: who can see it
/// and its attributes, where its kind has them; where it is; its generics, each as its own
/// argument, where its kind has them. Only traits and associated types imply clauses. The
/// associated items and the inherent impls are definitions of the table, and no item is listed
/// twice.
pub proof fn complete_tables_have_answers(tcx: TyCtxt, id: DefId)
    requires
        tcx.wf(),
        tcx.known(id),
    ensures
        ({
            let d = tcx.data(id);
            &&& d.def_id == id
            &&& id.promoted is None
            &&& id.kind != DefKind::PromotedConst
            &&& match id.kind {
                DefKind::AnonConst
                | DefKind::AssocTy
                | DefKind::Closure
                | DefKind::ConstParam
                | DefKind::Ctor(..)
                | DefKind::ExternCrate
                | DefKind::ForeignMod
                | DefKind::GlobalAsm
                | DefKind::Impl { .. }
                | DefKind::InlineConst
                | DefKind::LifetimeParam
                | DefKind::OpaqueTy
                | DefKind::SyntheticCoroutineBody
                | DefKind::TyParam => true,
                _ => d.visibility is Some,
            }
            &&& match id.kind {
                DefKind::ConstParam
                | DefKind::LifetimeParam
                | DefKind::TyParam
                | DefKind::ForeignMod => true,
                _ => d.attrs is Some,
            }
            &&& id.kind != DefKind::ForeignMod ==> d.def_span is Some
            &&& id.krate == 0 ==> d.source_span is Some
            &&& match id.kind {
                DefKind::Struct
                | DefKind::Union
                | DefKind::Enum
                | DefKind::Trait
                | DefKind::TraitAlias
                | DefKind::TyAlias
                | DefKind::AssocTy
                | DefKind::Fn
                | DefKind::AssocFn
                | DefKind::Const
                | DefKind::AnonConst
                | DefKind::InlineConst
                | DefKind::AssocConst
                | DefKind::Static { .. }
                | DefKind::Impl { .. }
                | DefKind::Closure => d.generics is Some && d.generics->0.identity_args@.len()
                    == d.generics->0.parent_count + d.generics->0.own_params@.len(),
                _ => true,
            }
            &&& match id.kind {
                DefKind::Trait | DefKind::TraitAlias | DefKind::AssocTy => true,
                _ => d.implied_predicates@.len() == 0 && d.implied_predicates_with_drop@.len()
                    == 0,
            }
            &&& forall|i: int|
                0 <= i < d.associated_items@.len() ==> tcx.known(
                    (#[trigger] d.associated_items@[i]).def_id,
                )
            &&& forall|i: int, j: int|
                #![trigger d.associated_items@[i], d.associated_items@[j]]
                0 <= i < j < d.associated_items@.len() ==> !alike(
                    d.associated_items@[i].def_id,
                    d.associated_items@[j].def_id,
                )
            &&& forall|i: int|
                0 <= i < d.inherent_impls@.len() ==> tcx.known(#[trigger] d.inherent_impls@[i])
        }),
{
    numbers_are_those_of_definitions();
    tcx.lemma_complete(id);
}

/// Nothing more is asked about a definition whose kind holds no data: if it has a visibility,
/// attributes and its places, its entry is complete, whatever else it says.
pub proof fn plain_definitions_are_complete(tcx: TyCtxt, d: DefData)
    requires
        d.def_id.promoted is None,
        match d.def_id.kind {
            DefKind::ForeignTy
            | DefKind::OpaqueTy
            | DefKind::ExternCrate
            | DefKind::Use
            | DefKind::TyParam
            | DefKind::ConstParam
            | DefKind::LifetimeParam
            | DefKind::Variant
            | DefKind::Field
            | DefKind::Macro(_)
            | DefKind::GlobalAsm
            | DefKind::SyntheticCoroutineBody => true,
            _ => false,
        },
        d.visibility is Some,
        d.attrs is Some,
        d.def_span is Some,
        d.source_span is Some,
        d.adt_def is None,
        d.root_body is None,
        d.implied_predicates@.len() == 0,
        d.implied_predicates_with_drop@.len() == 0,
        d.associated_items@.len() == 0,
        d.inherent_impls@.len() == 0,
    ensures
        tcx.complete(d),
{
}

/// An identifier is well-formed if it is that of a definition, or that of a promoted constant with
/// the crate and index of its parent, a definition that has a body.
pub proof fn well_formed_identifiers(id: DefId)
    ensures
        id.promoted is None ==> (id.wf() <==> id.kind != DefKind::PromotedConst),
        id.promoted is Some ==> (id.wf() <==> {
            &&& id.kind == DefKind::PromotedConst
            &&& id.parent matches Some(p) && {
                &&& p.promoted is None
                &&& p.kind != DefKind::PromotedConst
                &&& p.kind != DefKind::ForeignMod
                &&& p.krate == id.krate
                &&& p.index == id.index
            }
        }),
{
}

/// The definition that the compiler knows is the definition itself, unless it is a promoted
/// constant; then it is the parent. Only a definition of crate 0 belongs to the crate being
/// compiled.
pub proof fn underlying_definition(id: DefId)
    ensures
        id.promoted is None ==> id.spec_underlying() == id && id.spec_as_rust_def_id() == Some(id),
        id.promoted is Some && id.parent is Some ==> id.parent == Some(
            Arc::new(id.spec_underlying()),
        ),
        id.promoted is Some ==> id.spec_as_rust_def_id() is None,
        id.spec_is_local() <==> id.krate == 0,
{
}

/// A definition can be looked up if it is one of the table; a promoted constant if its parent is,
/// and it is held already, or the compiler has its body with a first local and the parent has
/// generics.
pub proof fn what_can_be_looked_up<Body>(
    cache: Map<CacheKey, Arc<FullDef<Body>>>,
    tcx: TyCtxt,
    id: DefId,
)
    requires
        id.wf(),
    ensures
        id.promoted is None ==> (spec_can_be_looked_up(cache, tcx, id) <==> tcx.known(id)),
        id.promoted matches Some(p) ==> {
            let from = *id.parent->0;
            let d = tcx.data(from);
            &&& spec_can_be_looked_up(cache, tcx, id) ==> tcx.known(from)
            &&& tcx.known(from) && cache.contains_key(id.cache_key()) ==> spec_can_be_looked_up(
                cache,
                tcx,
                id,
            )
            &&& !cache.contains_key(id.cache_key()) && spec_can_be_looked_up(cache, tcx, id) ==> {
                &&& p.id < d.promoted_mir@.len()
                &&& d.promoted_mir@[p.id as int].local_decls@.len() > 0
            }
        },
{
}

// ---- what is read of one definition ----

/// The place of a definition is the one that the compiler gives for it, or, for a promoted
/// constant, for the definition that it comes from. A block of foreign items is at no place.
pub proof fn definitions_are_at_their_place(id: DefId, tcx: TyCtxt)
    requires
        id.wf(),
    ensures
        shows(
            spec_def_span(id, tcx),
            if id.kind == DefKind::ForeignMod {
                tcx.dummy_sp
            } else if id.promoted is Some {
                tcx.data(*id.parent->0).def_span->0
            } else {
                tcx.data(id).def_span->0
            },
        ),
{
}

/// The generics and the required predicates that are read for an owner are those that the compiler
/// gives for it, in order.
pub proof fn owner_has_its_generics(p: ParamEnv, s: State)
    requires
        is_param_env(p, s),
    ensures
        exports_generics(p.generics, s.base.tcx.data(s.owner).generics->0),
        exports_clauses(
            p.predicates.predicates@,
            if s.base.options.resolve_drop_bounds {
                s.base.tcx.data(s.owner).required_predicates_with_drop@
            } else {
                s.base.tcx.data(s.owner).required_predicates@
            },
            s.owner,
            s.base.ty_alias_mode,
        ),
{
}

/// The predicates that an owner implies are those that the compiler gives for it, in order; its
/// `Self` clause is the one that the compiler gives, and says that the trait is implemented.
pub proof fn owner_has_its_clauses(p: GenericPredicates, s: State)
    requires
        are_owner_implied_predicates(p, s),
    ensures
        exports_clauses(
            p.predicates@,
            implied_clauses(s.base, s.owner),
            s.owner,
            s.base.ty_alias_mode,
        ),
        exports_trait_ref(
            spec_self_predicate(s).trait_ref,
            s.base.tcx.data(s.owner).self_predicate->0.trait_ref,
            s.owner,
            s.base.ty_alias_mode,
        ),
        spec_self_predicate(s).is_positive,
{
}

/// The bodies that are made up for an owner: the code that drops a value of its type, if it has no
/// generics, and the `call_once` of a closure that can be called more than once.
pub proof fn owner_has_its_bodies<Body: IsBody>(
    s: State,
    closure: DefId,
    args: Arc<RClosureArgs>,
)
    ensures
        spec_drop_glue::<Body>(s) == glue::<Body>(s.base, s.owner),
        spec_once_shim::<Body>(s, RTy::Closure { def_id: closure, closure: args }) == (if args.kind
            == ClosureKind::FnOnce {
            None
        } else {
            Body::spec_from_mir(s, RMir::ClosureOnceShim { closure, args })
        }),
{
    assert(s == State { base: s.base, owner: s.owner });
}

/// What is found for the clauses that an item implies is one implementation for each clause about a
/// trait, in order, each for its clause.
pub proof fn implied_traits_are_all_solved(
    exprs: Seq<ImplExpr>,
    s: State,
    scope: Scope,
    item: DefId,
    args: Seq<GenericArg>,
)
    ensures
        are_implied_impl_exprs_in(exprs, s, scope, item, args) ==> answers_each_clause(
            exprs,
            implied_clauses(s.base, item),
            scope,
            args,
        ),
        are_implied_impl_exprs(exprs, s, item, args) ==> answers_each_clause(
            exprs,
            implied_clauses(s.base, item),
            Scope { owner: s.owner, item: None, ty_alias_mode: s.base.ty_alias_mode },
            args,
        ),
{
    let own = Scope { owner: s.owner, item: None, ty_alias_mode: s.base.ty_alias_mode };
    if are_implied_impl_exprs_in(exprs, s, scope, item, args) {
        each_trait_clause_is_answered(exprs, implied_clauses(s.base, item), scope, args);
    }
    if are_implied_impl_exprs(exprs, s, item, args) {
        each_trait_clause_is_answered(exprs, implied_clauses(s.base, item), own, args);
    }
}

// ---- what a lookup adds ----

/// Both identifiers have one place in the cache.
pub open spec fn alike(a: DefId, b: DefId) -> bool {
    a.krate == b.krate && a.index == b.index && a.promoted == b.promoted
}

/// The full definition of `id` lists that of `x`: `id` is a trait or an inherent impl that has the
/// item `x`, or a trait impl, and `x` is an item of the trait or implements one.
pub open spec fn lists_definition(tcx: TyCtxt, id: DefId, x: DefId) -> bool {
    let assocs = tcx.data(id).associated_items@;
    match id.kind {
        DefKind::Trait => has_item(assocs, x),
        DefKind::Impl { .. } => match tcx.data(id).impl_subject->0 {
            ImplSubject::Inherent(_) => has_item(assocs, x),
            ImplSubject::Trait(tr) => {
                let decls = tcx.data(tr.def_id).associated_items@;
                ||| has_item(decls, x)
                ||| exists|i: int, j: int|
                    0 <= i < decls.len() && #[trigger] implements(assocs, j, decls[i].def_id)
                        && alike(assocs[j].def_id, x)
            },
        },
        _ => false,
    }
}

pub open spec fn has_item(items: Seq<RAssocItem>, x: DefId) -> bool {
    exists|i: int| 0 <= i < items.len() && alike((#[trigger] items[i]).def_id, x)
}

proof fn lemma_nested(tcx: TyCtxt, id: DefId, x: DefId)
    ensures
        nested_keys(tcx, id).contains(x.cache_key()) <==> lists_definition(tcx, id, x),
{
    numbers_are_those_of_definitions();
    let assocs = tcx.data(id).associated_items@;
    lemma_has_item(assocs, x);
    if let DefKind::Impl { .. } = id.kind {
        if let ImplSubject::Trait(tr) = tcx.data(id).impl_subject->0 {
            let decls = tcx.data(tr.def_id).associated_items@;
            let k = x.cache_key();
            lemma_has_item(decls, x);
            if provided_keys(assocs, decls).contains(k) {
                let m = choose|m: int|
                    0 <= m < decls.len() && is_provided_as(assocs, #[trigger] decls[m], k);
                last_item_provides(assocs, decls[m].def_id);
                let j = provider(assocs, decls[m].def_id.spec_key())->0;
                assert(assocs[j].def_id.cache_key() == x.cache_key());
                assert(implements(assocs, j, decls[m].def_id));
            }
            assert forall|i: int, j: int|
                0 <= i < decls.len() && #[trigger] implements(assocs, j, decls[i].def_id) && alike(
                    assocs[j].def_id,
                    x,
                ) implies provided_keys(assocs, decls).contains(k) by {
                last_item_provides(assocs, decls[i].def_id);
                let p = provider(assocs, decls[i].def_id.spec_key());
                assert(names(assocs[j], decls[i].def_id));
                assert(p is Some);
                if p->0 < j {
                    assert(!names(assocs[j], decls[i].def_id));
                }
                if j < p->0 {
                    assert(!names(assocs[p->0], decls[i].def_id));
                }
                assert(assocs[j].def_id.cache_key() == x.cache_key());
                assert(is_provided_as(assocs, decls[i], k));
            }
        }
    }
}

proof fn lemma_has_item(items: Seq<RAssocItem>, x: DefId)
    ensures
        item_keys(items).contains(x.cache_key()) <==> has_item(items, x),
{
    numbers_are_those_of_definitions();
    if item_keys(items).contains(x.cache_key()) {
        let i = choose|i: int|
            0 <= i < items.len() && (#[trigger] items[i]).def_id.cache_key() == x.cache_key();
        assert(alike(items[i].def_id, x));
    }
    if has_item(items, x) {
        let i = choose|i: int| 0 <= i < items.len() && alike((#[trigger] items[i]).def_id, x);
        assert(items[i].def_id.cache_key() == x.cache_key());
    }
}

/// A lookup adds to the cache, if the definition is not held yet, that definition and those that
/// its full definition lists; for a promoted constant, those of the definition that it comes from,
/// unless that is held. It adds nothing else.
pub proof fn lookup_adds_what_is_listed<Body: IsBody>(
    def: Arc<FullDef<Body>>,
    before: Map<CacheKey, Arc<FullDef<Body>>>,
    after: Map<CacheKey, Arc<FullDef<Body>>>,
    base: Base,
    id: DefId,
    x: DefId,
)
    requires
        id.wf(),
        looks_up(def, before, after, base, id),
    ensures
        before.contains_key(id.cache_key()) ==> after == before && def == before[id.cache_key()],
        !before.contains_key(id.cache_key()) ==> (after.contains_key(x.cache_key()) <==> {
            ||| before.contains_key(x.cache_key())
            ||| alike(x, id)
            ||| id.promoted is None && lists_definition(*base.tcx, id, x)
            ||| id.promoted is Some && !before.contains_key(id.parent->0.cache_key()) && (alike(
                x,
                *id.parent->0,
            ) || lists_definition(*base.tcx, *id.parent->0, x))
        }),
{
    numbers_are_those_of_definitions();
    let from = id.spec_underlying();
    lemma_nested(*base.tcx, from, x);
    assert(x.cache_key() == id.cache_key() <==> alike(x, id));
    assert(x.cache_key() == from.cache_key() <==> alike(x, from));
}

} // verus!
