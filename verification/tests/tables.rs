//! When a table of answers is accepted.
use hax_frontend_exporter::def_id::{CtorKind, CtorOf, DefId, DefKind, PromotedId};
use hax_frontend_exporter::span::{FileName, RLoc, RSpan, SpanData};
use hax_frontend_exporter::tcx::{
    DefData, HirItemKind, HirNode, LangItems, ModChild, RParamEnv, TyCtxt,
};
use hax_frontend_exporter::ty::{
    AdtFlags, AdtKind, AssocItemContainer, AssocKind, AssocTypeData, ClosureKind, Constness,
    Defaultness, GenericArg, GenericParamDef, GenericParamDefKind, ImplPolarity, ImplSubject,
    InlineAttr, RAdtDef, RAssocItem, RClause, RClosureArgs, RDiscr, RFnSig, RGenerics, RIdent,
    RPolyTraitRef, RTraitRef, RTy, RVariantDef, ReprOptions, VariantDiscr, Visibility,
};
use std::sync::Arc;

fn id(krate: u32, index: u32, kind: DefKind, parent: Option<&DefId>) -> DefId {
    DefId { krate, index, promoted: None, parent: parent.map(|p| Arc::new(p.clone())), kind }
}

fn span(n: u32) -> RSpan {
    RSpan {
        data: SpanData { lo: n, hi: n + 1, ctxt: 0 },
        filename: FileName::Real(String::from("src/lib.rs")),
        lo: RLoc { line: n as usize + 1, col: 4, col_display: 8 },
        hi: RLoc { line: n as usize + 1, col: 9, col_display: 13 },
        snippet: Some(format!("text {n}")),
    }
}

fn generics(parent_count: usize, own: &[(&str, &DefId)], args: Vec<GenericArg>) -> RGenerics {
    RGenerics {
        parent: None,
        parent_count,
        own_params: own
            .iter()
            .enumerate()
            .map(|(i, (name, did))| GenericParamDef {
                name: name.to_string(),
                def_id: (*did).clone(),
                index: (parent_count + i) as u32,
                kind: GenericParamDefKind::Type { has_default: false, synthetic: false },
            })
            .collect(),
        has_self: false,
        has_late_bound_regions: None,
        identity_args: Arc::new(args),
    }
}

/// The answers that every kind of definition has; those of one kind alone are left open.
fn answers(def_id: &DefId) -> DefData {
    DefData {
        def_id: def_id.clone(),
        visibility: Some(Visibility::Public),
        attrs: Some(vec![]),
        def_span: Some(span(def_id.index)),
        source_span: if def_id.krate == 0 { Some(span(1000 + def_id.index)) } else { None },
        lang_item: None,
        diagnostic_item: None,
        generics: Some(generics(0, &[], vec![])),
        required_predicates: vec![],
        required_predicates_with_drop: vec![],
        implied_predicates: vec![],
        implied_predicates_with_drop: vec![],
        param_env: RParamEnv { id: 500 + def_id.index as u64 },
        self_predicate: None,
        type_of: None,
        adt_def: None,
        associated_item: None,
        associated_items: vec![],
        defaultness: None,
        inherent_impls: vec![],
        impl_subject: None,
        impl_polarity: None,
        fn_sig: None,
        inline: None,
        constness: None,
        hir_node: None,
        module_children: vec![],
        root_body: None,
        hir_attrs: vec![],
        promoted_mir: vec![],
    }
}

fn no_lang_items() -> LangItems {
    LangItems { fn_once_trait: None, fn_mut_trait: None, fn_trait: None, drop_in_place: None }
}

fn table(defs: Vec<DefData>, lang_items: LangItems) -> Option<TyCtxt> {
    TyCtxt::new(defs, lang_items, span(0), RTy::Interned(7))
}

fn root() -> DefId {
    id(0, 0, DefKind::Mod, None)
}

fn root_answers() -> DefData {
    let mut d = answers(&root());
    d.hir_node = Some(HirNode::Crate(vec![]));
    d
}

fn item(def_id: &DefId, kind: AssocKind, of: Option<&DefId>) -> RAssocItem {
    RAssocItem {
        def_id: def_id.clone(),
        kind,
        container: AssocItemContainer::Impl,
        trait_item_def_id: of.cloned(),
    }
}

fn const_kind(name: &str) -> AssocKind {
    AssocKind::Const { name: name.to_string() }
}

fn assoc_const(def_id: &DefId, of: Option<&DefId>) -> DefData {
    let mut d = answers(def_id);
    d.associated_item = Some(item(def_id, const_kind("N"), of));
    d.defaultness = Some(Defaultness::Final);
    d.type_of = Some(RTy::Interned(1));
    d
}

fn trait_answers(def_id: &DefId, items: Vec<RAssocItem>) -> DefData {
    let mut d = answers(def_id);
    d.self_predicate = Some(RPolyTraitRef {
        id: 1,
        trait_ref: RTraitRef { def_id: def_id.clone(), args: Arc::new(vec![]) },
        has_escaping_bound_vars: false,
    });
    d.associated_items = items;
    d
}

/// A trait with one associated type, and an impl of it with the given items.
fn impl_table(
    impl_items: Vec<RAssocItem>,
    impl_answers: Vec<DefData>,
    default_type: Option<RTy>,
) -> Option<TyCtxt> {
    let tr = id(0, 1, DefKind::Trait, Some(&root()));
    let decl = id(0, 2, DefKind::AssocTy, Some(&tr));
    let imp = id(0, 3, DefKind::Impl { of_trait: true }, Some(&root()));
    let decl_item = RAssocItem {
        def_id: decl.clone(),
        kind: AssocKind::Type { data: AssocTypeData::Normal(String::from("Out")) },
        container: AssocItemContainer::Trait,
        trait_item_def_id: Some(decl.clone()),
    };
    let mut decl_answers = answers(&decl);
    decl_answers.associated_item = Some(RAssocItem {
        def_id: decl.clone(),
        kind: AssocKind::Type { data: AssocTypeData::Normal(String::from("Out")) },
        container: AssocItemContainer::Trait,
        trait_item_def_id: Some(decl.clone()),
    });
    decl_answers.defaultness = Some(Defaultness::Default { has_value: default_type.is_some() });
    decl_answers.type_of = default_type;
    let mut imp_answers = answers(&imp);
    imp_answers.impl_subject =
        Some(ImplSubject::Trait(RTraitRef { def_id: tr.clone(), args: Arc::new(vec![]) }));
    imp_answers.impl_polarity = Some(ImplPolarity::Positive);
    imp_answers.associated_items = impl_items;
    let mut defs =
        vec![root_answers(), trait_answers(&tr, vec![decl_item]), decl_answers, imp_answers];
    defs.extend(impl_answers);
    table(defs, no_lang_items())
}

#[test]
fn empty_table_is_accepted() {
    let t = table(vec![], no_lang_items()).unwrap();
    assert!(t.find(&root()).is_none());
    assert!(!t.knows(&root()));
}

#[test]
fn answers_are_found_under_their_definition() {
    let field = id(0, 5, DefKind::Field, Some(&root()));
    let t = table(vec![root_answers(), answers(&field)], no_lang_items()).unwrap();
    assert_eq!(t.get(&field).param_env, RParamEnv { id: 505 });
    assert_eq!(t.find(&root()), Some(&root_answers()));
    assert!(t.knows(&field));
    // Filed under the same number, but not the same definition.
    let other = id(0, 5, DefKind::Use, Some(&root()));
    assert!(t.find(&other).is_some());
    assert!(!t.knows(&other));
    assert!(!t.knows(&id(1, 5, DefKind::Field, Some(&root()))));
}

#[test]
fn answers_have_to_be_in_order() {
    let a = id(0, 1, DefKind::Use, Some(&root()));
    let b = id(0, 2, DefKind::Use, Some(&root()));
    let c = id(1, 0, DefKind::Use, None);
    assert!(table(vec![answers(&a), answers(&b), answers(&c)], no_lang_items()).is_some());
    assert!(table(vec![answers(&b), answers(&a)], no_lang_items()).is_none());
    assert!(table(vec![answers(&c), answers(&a)], no_lang_items()).is_none());
    assert!(table(vec![answers(&a), answers(&a)], no_lang_items()).is_none());
}

#[test]
fn visibility_is_needed_where_it_makes_sense() {
    let with = id(0, 1, DefKind::Use, Some(&root()));
    let without = id(0, 1, DefKind::TyParam, Some(&root()));
    for (def_id, accepted) in [(with, false), (without, true)] {
        let mut d = answers(&def_id);
        d.visibility = None;
        assert_eq!(table(vec![d], no_lang_items()).is_some(), accepted);
    }
}

#[test]
fn attributes_are_needed_where_the_compiler_has_them() {
    let with = id(0, 1, DefKind::GlobalAsm, Some(&root()));
    let without = id(0, 1, DefKind::LifetimeParam, Some(&root()));
    for (def_id, accepted) in [(with, false), (without, true)] {
        let mut d = answers(&def_id);
        d.attrs = None;
        assert_eq!(table(vec![d], no_lang_items()).is_some(), accepted);
    }
}

#[test]
fn source_span_is_needed_for_local_definitions() {
    for (krate, accepted) in [(0, false), (1, true)] {
        let mut d = answers(&id(krate, 1, DefKind::Use, None));
        d.source_span = None;
        assert_eq!(table(vec![d], no_lang_items()).is_some(), accepted);
    }
}

#[test]
fn def_span_is_needed_but_for_foreign_blocks() {
    let mut foreign = answers(&id(1, 1, DefKind::ForeignMod, None));
    foreign.def_span = None;
    assert!(table(vec![foreign], no_lang_items()).is_some());
    let mut other = answers(&id(1, 1, DefKind::Use, None));
    other.def_span = None;
    assert!(table(vec![other], no_lang_items()).is_none());
}

#[test]
fn promoted_constants_are_not_listed() {
    let mut promoted = id(0, 0, DefKind::PromotedConst, Some(&root()));
    promoted.promoted = Some(PromotedId { id: 0 });
    assert!(table(vec![answers(&promoted)], no_lang_items()).is_none());
}

#[test]
fn generics_are_needed_by_kind() {
    let mut alias = answers(&id(0, 1, DefKind::TyAlias, Some(&root())));
    alias.type_of = Some(RTy::Interned(1));
    alias.generics = None;
    assert!(table(vec![alias], no_lang_items()).is_none());
    let mut opaque = answers(&id(0, 1, DefKind::OpaqueTy, Some(&root())));
    opaque.generics = None;
    assert!(table(vec![opaque], no_lang_items()).is_some());
    let mut too_many = answers(&id(0, 1, DefKind::Const, Some(&root())));
    too_many.type_of = Some(RTy::Interned(1));
    too_many.generics =
        Some(generics(usize::MAX, &[("T", &root())], vec![]));
    assert!(table(vec![too_many], no_lang_items()).is_none());
    // As many identity arguments as parameters, those of the parents among them.
    let arg = || GenericArg::Type(RTy::Interned(3));
    for (args, accepted) in
        [(vec![arg(), arg()], true), (vec![arg()], false), (vec![arg(), arg(), arg()], false)]
    {
        let mut d = answers(&id(0, 1, DefKind::Const, Some(&root())));
        d.type_of = Some(RTy::Interned(1));
        d.generics = Some(generics(1, &[("T", &root())], args));
        assert_eq!(table(vec![d], no_lang_items()).is_some(), accepted);
    }
}

#[test]
fn only_traits_and_associated_types_imply_predicates() {
    let alias = id(0, 1, DefKind::TraitAlias, Some(&root()));
    let mut d = trait_answers(&alias, vec![]);
    d.implied_predicates = vec![(RClause::Other(3), span(1))];
    assert!(table(vec![d], no_lang_items()).is_some());
    let mut d = answers(&id(0, 1, DefKind::Use, Some(&root())));
    d.implied_predicates = vec![(RClause::Other(3), span(1))];
    assert!(table(vec![d], no_lang_items()).is_none());
    let mut d = answers(&id(0, 1, DefKind::Use, Some(&root())));
    d.implied_predicates_with_drop = vec![(RClause::Other(3), span(1))];
    assert!(table(vec![d], no_lang_items()).is_none());
}

#[test]
fn self_predicate_mentions_no_bound_variable() {
    let tr = id(0, 1, DefKind::Trait, Some(&root()));
    let mut d = trait_answers(&tr, vec![]);
    d.self_predicate = Some(RPolyTraitRef {
        id: 1,
        trait_ref: RTraitRef { def_id: tr.clone(), args: Arc::new(vec![]) },
        has_escaping_bound_vars: true,
    });
    assert!(table(vec![d], no_lang_items()).is_none());
    let mut d = trait_answers(&tr, vec![]);
    d.self_predicate = None;
    assert!(table(vec![d], no_lang_items()).is_none());
}

#[test]
fn items_have_to_be_known() {
    let tr = id(0, 1, DefKind::Trait, Some(&root()));
    let n = id(0, 2, DefKind::AssocConst, Some(&tr));
    let listed = || item(&n, const_kind("N"), Some(&n));
    assert!(table(
        vec![trait_answers(&tr, vec![listed()]), assoc_const(&n, Some(&n))],
        no_lang_items()
    )
    .is_some());
    // No answers about the item.
    assert!(table(vec![trait_answers(&tr, vec![listed()])], no_lang_items()).is_none());
    // The same item twice.
    assert!(table(
        vec![trait_answers(&tr, vec![listed(), listed()]), assoc_const(&n, Some(&n))],
        no_lang_items()
    )
    .is_none());
    // An item of another kind than its definition.
    let as_fn = item(&n, AssocKind::Fn { name: String::from("N"), has_self: false }, Some(&n));
    assert!(table(
        vec![trait_answers(&tr, vec![as_fn]), assoc_const(&n, Some(&n))],
        no_lang_items()
    )
    .is_none());
    // Answers about the item as another one.
    let other = id(0, 3, DefKind::AssocConst, Some(&tr));
    let mut d = assoc_const(&n, Some(&n));
    d.associated_item = Some(item(&other, const_kind("N"), Some(&n)));
    assert!(table(vec![trait_answers(&tr, vec![listed()]), d], no_lang_items()).is_none());
}

#[test]
fn trait_impls_provide_trait_items() {
    let tr = id(0, 1, DefKind::Trait, Some(&root()));
    let decl = id(0, 2, DefKind::AssocTy, Some(&tr));
    let imp = id(0, 3, DefKind::Impl { of_trait: true }, Some(&root()));
    let n = id(0, 4, DefKind::AssocConst, Some(&imp));
    let default = || Some(RTy::Interned(9));
    assert!(impl_table(vec![], vec![], default()).is_some());
    // A type without a default has to be given.
    assert!(impl_table(vec![], vec![], None).is_none());
    // An item that implements nothing.
    let lone = item(&n, const_kind("N"), None);
    assert!(impl_table(vec![lone], vec![assoc_const(&n, None)], default()).is_none());
    // An item that implements what the trait does not declare.
    let stray = item(&n, const_kind("N"), Some(&imp));
    assert!(impl_table(vec![stray], vec![assoc_const(&n, Some(&imp))], default()).is_none());
    // A constant that implements a type.
    let other = item(&n, const_kind("N"), Some(&decl));
    assert!(impl_table(vec![other], vec![assoc_const(&n, Some(&decl))], default()).is_none());
    let out = id(0, 4, DefKind::AssocTy, Some(&imp));
    let out_item = || {
        let kind = AssocKind::Type { data: AssocTypeData::Normal(String::from("Out")) };
        item(&out, kind, Some(&decl))
    };
    let mut out_answers = answers(&out);
    out_answers.associated_item = Some(out_item());
    out_answers.defaultness = Some(Defaultness::Final);
    out_answers.type_of = Some(RTy::Interned(1));
    assert!(impl_table(vec![out_item()], vec![out_answers], default()).is_some());
}

#[test]
fn trait_items_add_to_the_generics_of_the_trait() {
    let tr = id(0, 1, DefKind::Trait, Some(&root()));
    let n = id(0, 2, DefKind::AssocConst, Some(&tr));
    let imp = id(0, 3, DefKind::Impl { of_trait: true }, Some(&root()));
    let arg = || GenericArg::Type(RTy::Interned(3));
    for (parent_count, accepted) in [(1, true), (0, false), (2, false)] {
        let mut tr_data = trait_answers(&tr, vec![item(&n, const_kind("N"), Some(&n))]);
        tr_data.generics = Some(generics(0, &[("Self", &tr)], vec![arg()]));
        let mut n_data = assoc_const(&n, Some(&n));
        n_data.generics =
            Some(generics(parent_count, &[], (0..parent_count).map(|_| arg()).collect()));
        let mut imp_data = answers(&imp);
        imp_data.impl_subject =
            Some(ImplSubject::Trait(RTraitRef { def_id: tr.clone(), args: Arc::new(vec![]) }));
        imp_data.impl_polarity = Some(ImplPolarity::Positive);
        let t = table(vec![tr_data, n_data, imp_data], no_lang_items());
        assert_eq!(t.is_some(), accepted);
    }
}

#[test]
fn closures_need_the_call_traits() {
    let owner = id(0, 1, DefKind::GlobalAsm, Some(&root()));
    let closure = id(0, 2, DefKind::Closure, Some(&owner));
    let once = id(1, 1, DefKind::Trait, None);
    let args = |inputs: Vec<RTy>| RTy::Closure {
        def_id: closure.clone(),
        closure: Arc::new(RClosureArgs {
            id: 3,
            parent_args: Arc::new(vec![]),
            kind: ClosureKind::FnOnce,
            inputs,
            output: RTy::Interned(2),
            upvar_tys: vec![],
        }),
    };
    let answers_with = |ty: RTy| {
        let mut d = answers(&closure);
        d.type_of = Some(ty);
        d.constness = Some(Constness::NotConst);
        vec![answers(&owner), d, trait_answers(&once, vec![])]
    };
    let lang_items = || LangItems {
        fn_once_trait: Some(once.clone()),
        fn_mut_trait: Some(once.clone()),
        fn_trait: Some(once.clone()),
        drop_in_place: Some(once.clone()),
    };
    let ty = || args(vec![RTy::Interned(1)]);
    assert!(table(answers_with(ty()), lang_items()).is_some());
    assert!(table(answers_with(args(vec![])), lang_items()).is_none());
    assert!(table(answers_with(RTy::Interned(3)), lang_items()).is_none());
    assert!(table(answers_with(ty()), no_lang_items()).is_none());
    let mut unknown = lang_items();
    unknown.fn_trait = Some(id(1, 9, DefKind::Trait, None));
    assert!(table(answers_with(ty()), unknown).is_none());
}

#[test]
fn constructors_belong_to_a_variant() {
    let st = id(0, 1, DefKind::Struct, Some(&root()));
    let ctor = id(0, 2, DefKind::Ctor(CtorOf::Struct, CtorKind::Const), Some(&st));
    let build = |listed: Option<&DefId>| {
        let mut d = answers(&st);
        d.type_of = Some(RTy::Interned(1));
        d.adt_def = Some(RAdtDef {
            did: st.clone(),
            kind: AdtKind::Struct,
            variants: vec![RVariantDef {
                def_id: st.clone(),
                ctor: listed.map(|c| (CtorKind::Const, c.clone())),
                name: String::from("Unit"),
                discr: VariantDiscr::Relative(0),
                discr_val: RDiscr { val: 0, ty: RTy::Interned(7) },
                fields: vec![],
            }],
            flags: AdtFlags { bits: 0 },
            repr: ReprOptions { int: None, align: None, pack: None, flags: 0 },
        });
        let mut lang_items = no_lang_items();
        lang_items.drop_in_place = Some(root());
        table(vec![d, answers(&ctor)], lang_items)
    };
    assert!(build(Some(&ctor)).is_some());
    assert!(build(None).is_none());
    assert!(build(Some(&st)).is_none());
}

#[test]
fn type_definitions_are_of_the_kind_of_their_definition() {
    let st = id(0, 1, DefKind::Struct, Some(&root()));
    let build = |did: &DefId, kind: AdtKind| {
        let mut d = answers(&st);
        d.type_of = Some(RTy::Interned(1));
        d.adt_def = Some(RAdtDef {
            did: did.clone(),
            kind,
            variants: vec![],
            flags: AdtFlags { bits: 0 },
            repr: ReprOptions { int: None, align: None, pack: None, flags: 0 },
        });
        let mut lang_items = no_lang_items();
        lang_items.drop_in_place = Some(root());
        table(vec![d], lang_items)
    };
    assert!(build(&st, AdtKind::Struct).is_some());
    assert!(build(&st, AdtKind::Enum).is_none());
    assert!(build(&st, AdtKind::Union).is_none());
    assert!(build(&id(0, 2, DefKind::Struct, Some(&root())), AdtKind::Struct).is_none());
}

#[test]
fn trait_impl_methods_stand_in_a_trait_impl() {
    let tr = id(0, 1, DefKind::Trait, Some(&root()));
    let decl = id(0, 2, DefKind::AssocFn, Some(&tr));
    let method = |def_id: &DefId, container: AssocItemContainer| {
        let mut d = answers(def_id);
        d.associated_item = Some(RAssocItem {
            def_id: def_id.clone(),
            kind: AssocKind::Fn { name: String::from("f"), has_self: false },
            container,
            trait_item_def_id: Some(decl.clone()),
        });
        d.defaultness = Some(Defaultness::Final);
        d.inline = Some(InlineAttr::Absent);
        d.constness = Some(Constness::NotConst);
        d.fn_sig = Some(RFnSig { id: 1, bound_vars: 0 });
        d
    };
    for (of_trait, accepted) in [(true, true), (false, false)] {
        let imp = id(0, 3, DefKind::Impl { of_trait }, Some(&root()));
        let own = id(0, 4, DefKind::AssocFn, Some(&imp));
        let mut imp_answers = answers(&imp);
        imp_answers.impl_polarity = Some(ImplPolarity::Positive);
        imp_answers.impl_subject = Some(if of_trait {
            ImplSubject::Trait(RTraitRef { def_id: tr.clone(), args: Arc::new(vec![]) })
        } else {
            ImplSubject::Inherent(RTy::Interned(1))
        });
        let t = table(
            vec![
                trait_answers(&tr, vec![]),
                method(&decl, AssocItemContainer::Trait),
                imp_answers,
                method(&own, AssocItemContainer::Impl),
            ],
            no_lang_items(),
        );
        assert_eq!(t.is_some(), accepted);
    }
}

#[test]
fn modules_have_to_be_listed() {
    // A local module without its syntax.
    assert!(table(vec![answers(&root())], no_lang_items()).is_none());
    let mut d = answers(&root());
    d.hir_node = Some(HirNode::Item(HirItemKind::ForeignMod(vec![])));
    assert!(table(vec![d], no_lang_items()).is_none());
    // A name of another crate's module that stands for no definition.
    let mut d = answers(&id(1, 0, DefKind::Mod, None));
    d.module_children =
        vec![ModChild { ident: RIdent { name: String::from("u8"), span: span(1) }, res: None }];
    assert!(table(vec![d], no_lang_items()).is_none());
}
