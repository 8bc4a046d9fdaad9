//! What is asked of the compiler.
use hax_frontend_exporter::body::{MirBody, RMir};
use hax_frontend_exporter::def_id::{
    CtorKind, CtorOf, DefId, DefKind, MacroKind, Mutability, Safety,
};
use hax_frontend_exporter::number::parses_as_u64;
use hax_frontend_exporter::rustc_utils::{
    attribute_from_scope, closure_once_shim, drop_glue_shim, get_closest_parent_type,
    get_def_attrs, get_def_visibility, get_foreign_mod_children, get_method_sig, get_mod_children,
    get_variant_information, translate_span, HasParamEnv, RegionScope, TypingEnv, TypingMode,
    VariantKind,
};
use hax_frontend_exporter::simple_kinds::get_drop_glue_shim;
use hax_frontend_exporter::span::{FileName, Loc, RLoc, RSpan, SpanData};
use hax_frontend_exporter::state::{Base, Options};
use hax_frontend_exporter::tcx::{
    DefData, HirId, HirItem, HirItemKind, HirNode, LangItems, ModChild, RParamEnv, TyCtxt,
};
use hax_frontend_exporter::traits::rebase_onto;
use hax_frontend_exporter::ty::{
    AdtFlags, AdtKind, AssocItemContainer, AssocKind, Attribute, ClosureKind, Constness,
    Defaultness, GenericArg, GenericArgsRef, GenericParamDef, GenericParamDefKind, ImplPolarity,
    ImplSubject, InlineAttr, RAdtDef, RAssocItem, RClosureArgs, RDiscr, RFieldDef, RFnSig,
    RGenerics, RIdent, RPolyFnSig, RPolyTraitRef, RTraitRef, RTy, RVariantDef, ReprOptions,
    VariantDiscr, Visibility,
};
use std::sync::Arc;

fn id(krate: u32, index: u32, kind: DefKind, parent: Option<&DefId>) -> DefId {
    DefId { krate, index, promoted: None, parent: parent.map(|p| Arc::new(p.clone())), kind }
}

fn span(n: u32) -> RSpan {
    RSpan {
        data: SpanData { lo: n, hi: n + 1, ctxt: 0 },
        filename: FileName::Real(String::from("src/lib.rs")),
        lo: RLoc { line: n as usize + 1, col: 4, col_display: 8 },
        hi: RLoc { line: n as usize + 1, col: 9, col_display: 13 },
        snippet: Some(format!("text {n}")),
    }
}

fn generics(parent_count: usize, own: &[(&str, &DefId)], args: Vec<GenericArg>) -> RGenerics {
    RGenerics {
        parent: None,
        parent_count,
        own_params: own
            .iter()
            .enumerate()
            .map(|(i, (name, did))| GenericParamDef {
                name: name.to_string(),
                def_id: (*did).clone(),
                index: (parent_count + i) as u32,
                kind: GenericParamDefKind::Type { has_default: false, synthetic: false },
            })
            .collect(),
        has_self: false,
        has_late_bound_regions: None,
        identity_args: Arc::new(args),
    }
}

/// The answers that every kind of definition has; those of one kind alone are left open.
fn answers(def_id: &DefId) -> DefData {
    DefData {
        def_id: def_id.clone(),
        visibility: Some(Visibility::Public),
        attrs: Some(vec![]),
        def_span: Some(span(def_id.index)),
        source_span: if def_id.krate == 0 { Some(span(1000 + def_id.index)) } else { None },
        lang_item: None,
        diagnostic_item: None,
        generics: Some(generics(0, &[], vec![])),
        required_predicates: vec![],
        required_predicates_with_drop: vec![],
        implied_predicates: vec![],
        implied_predicates_with_drop: vec![],
        param_env: RParamEnv { id: 500 + def_id.index as u64 },
        self_predicate: None,
        type_of: None,
        adt_def: None,
        associated_item: None,
        associated_items: vec![],
        defaultness: None,
        inherent_impls: vec![],
        impl_subject: None,
        impl_polarity: None,
        fn_sig: None,
        inline: None,
        constness: None,
        hir_node: None,
        module_children: vec![],
        root_body: None,
        hir_attrs: vec![],
        promoted_mir: vec![],
    }
}

fn no_lang_items() -> LangItems {
    LangItems { fn_once_trait: None, fn_mut_trait: None, fn_trait: None, drop_in_place: None }
}

fn table(defs: Vec<DefData>, lang_items: LangItems) -> Option<TyCtxt> {
    TyCtxt::new(defs, lang_items, span(0), RTy::Interned(7))
}

fn root() -> DefId {
    id(0, 0, DefKind::Mod, None)
}

fn root_answers() -> DefData {
    let mut d = answers(&root());
    d.hir_node = Some(HirNode::Crate(vec![]));
    d
}

fn ident(name: &str, n: u32) -> RIdent {
    RIdent { name: name.to_string(), span: span(n) }
}

fn options() -> Options {
    Options { resolve_drop_bounds: false }
}

fn base(tcx: &TyCtxt) -> Base<'_> {
    Base { tcx, ty_alias_mode: false, options: options() }
}

fn field(name: &str, n: u32) -> RFieldDef {
    RFieldDef {
        did: id(0, n, DefKind::Field, Some(&root())),
        name: name.to_string(),
        vis: Visibility::Public,
        ty: RTy::Interned(1),
        span: span(n),
    }
}

fn adt(kind: AdtKind, parent: Option<&DefId>, variants: Vec<Vec<RFieldDef>>) -> RAdtDef {
    RAdtDef {
        did: id(0, 10, DefKind::Struct, parent),
        kind,
        variants: variants
            .into_iter()
            .enumerate()
            .map(|(i, fields)| RVariantDef {
                def_id: id(0, 20 + i as u32, DefKind::Variant, Some(&root())),
                ctor: None,
                name: format!("V{i}"),
                discr: VariantDiscr::Relative(i as u32),
                discr_val: RDiscr { val: i as u128, ty: RTy::Interned(7) },
                fields,
            })
            .collect(),
        flags: AdtFlags { bits: 0 },
        repr: ReprOptions { int: None, align: None, pack: None, flags: 0 },
    }
}

// ---- spans ----

#[test]
fn span_takes_display_columns() {
    let s = translate_span(&span(3));
    assert_eq!(s.lo, Loc { line: 4, col: 8 });
    assert_eq!(s.hi, Loc { line: 4, col: 13 });
    assert_eq!(s.filename, FileName::Real(String::from("src/lib.rs")));
    assert_eq!(s.rust_span_data, Some(SpanData { lo: 3, hi: 4, ctxt: 0 }));
}

#[test]
fn span_keeps_file_names() {
    let names = [
        FileName::QuoteExpansion(1),
        FileName::Anon(2),
        FileName::MacroExpansion(3),
        FileName::ProcMacroSourceCode(4),
        FileName::CliCrateAttr(5),
        FileName::Custom(String::from("custom")),
        FileName::DocTest(String::from("doc")),
        FileName::InlineAsm(6),
    ];
    for name in names {
        let mut s = span(0);
        s.filename = name.clone();
        assert_eq!(translate_span(&s).filename, name);
    }
}

// ---- numbers ----

#[test]
fn numbers_parse_as_u64() {
    for text in ["0", "7", "007", "+5", "18446744073709551615", "00000000000000000000000000001"] {
        assert!(parses_as_u64(text), "{text}");
        assert!(text.parse::<u64>().is_ok(), "{text}");
    }
}

#[test]
fn other_texts_do_not_parse_as_u64() {
    for text in ["", "+", "-", "-1", "++1", "1+", "x", "1x", "18446744073709551616",
        "99999999999999999999999", "1 ", " 1", "1_000", "0x10", "\u{0661}"] {
        assert!(!parses_as_u64(text), "{text}");
        assert!(text.parse::<u64>().is_err(), "{text}");
    }
}

// ---- variants ----

#[test]
fn struct_with_named_fields() {
    let a = adt(AdtKind::Struct, Some(&root()), vec![vec![field("x", 1), field("y", 2)]]);
    let info = get_variant_information(&a, 0);
    assert_eq!(info.typ, a.did);
    assert_eq!(info.variant, id(0, 20, DefKind::Variant, Some(&root())));
    assert_eq!(info.kind, VariantKind::Struct { named: true });
    assert_eq!(info.type_namespace, root());
}

#[test]
fn tuple_and_unit_structs_are_not_named() {
    let tuple = adt(AdtKind::Struct, Some(&root()), vec![vec![field("0", 1), field("1", 2)]]);
    assert_eq!(get_variant_information(&tuple, 0).kind, VariantKind::Struct { named: false });
    let unit = adt(AdtKind::Struct, Some(&root()), vec![vec![]]);
    assert_eq!(get_variant_information(&unit, 0).kind, VariantKind::Struct { named: false });
}

#[test]
fn one_named_field_is_enough() {
    let a = adt(AdtKind::Struct, Some(&root()), vec![vec![field("0", 1), field("b", 2)]]);
    assert_eq!(get_variant_information(&a, 0).kind, VariantKind::Struct { named: true });
}

#[test]
fn unions_say_nothing_about_their_fields() {
    let a = adt(AdtKind::Union, Some(&root()), vec![vec![field("x", 1)]]);
    assert_eq!(get_variant_information(&a, 0).kind, VariantKind::Union);
}

#[test]
fn enum_variants_are_looked_at_one_by_one() {
    let a = adt(
        AdtKind::Enum,
        Some(&root()),
        vec![vec![], vec![field("0", 1)], vec![field("x", 2)]],
    );
    assert_eq!(
        get_variant_information(&a, 0).kind,
        VariantKind::Enum { index: 0, named: false }
    );
    assert_eq!(
        get_variant_information(&a, 1).kind,
        VariantKind::Enum { index: 1, named: false }
    );
    let last = get_variant_information(&a, 2);
    assert_eq!(last.kind, VariantKind::Enum { index: 2, named: true });
    assert_eq!(last.variant, id(0, 22, DefKind::Variant, Some(&root())));
}

// ---- assumptions, attributes, enclosing types ----

#[test]
fn typing_env_is_that_of_the_owner() {
    let owner = id(0, 4, DefKind::GlobalAsm, Some(&root()));
    let t = table(vec![root_answers(), answers(&owner)], no_lang_items()).unwrap();
    let s = base(&t).with_owner_id(&owner);
    assert_eq!(s.param_env(), RParamEnv { id: 504 });
    assert_eq!(
        s.typing_env(),
        TypingEnv { param_env: RParamEnv { id: 504 }, typing_mode: TypingMode::PostAnalysis }
    );
}

fn attribute(path: &str) -> Attribute {
    Attribute { path: path.to_string(), args: String::from("(x)") }
}

#[test]
fn scope_attributes_come_from_the_body() {
    let owner = id(0, 1, DefKind::GlobalAsm, Some(&root()));
    let body = id(0, 2, DefKind::GlobalAsm, Some(&owner));
    let mut owner_answers = answers(&owner);
    owner_answers.root_body = Some(HirId { owner: body.clone(), local_id: 3 });
    owner_answers.hir_attrs = vec![(5, vec![attribute("wrong")])];
    let mut body_answers = answers(&body);
    body_answers.hir_attrs =
        vec![(4, vec![attribute("four")]), (5, vec![attribute("a"), attribute("b")])];
    let t = table(vec![root_answers(), owner_answers, body_answers], no_lang_items()).unwrap();
    let s = base(&t).with_owner_id(&owner);
    let (node, attrs) = attribute_from_scope(&s, &RegionScope { local_id: 5 });
    assert_eq!(node, Some(HirId { owner: body.clone(), local_id: 5 }));
    assert_eq!(attrs, vec![attribute("a"), attribute("b")]);
    let (node, attrs) = attribute_from_scope(&s, &RegionScope { local_id: 6 });
    assert_eq!(node, Some(HirId { owner: body.clone(), local_id: 6 }));
    assert_eq!(attrs, vec![]);
    // No body, no node.
    let s = base(&t).with_owner_id(&body);
    assert_eq!(attribute_from_scope(&s, &RegionScope { local_id: 5 }), (None, vec![]));
}

#[test]
fn closest_type_is_found_on_the_way_out() {
    let outer = id(0, 1, DefKind::Struct, Some(&root()));
    let inner = id(0, 2, DefKind::Enum, Some(&outer));
    let variant = id(0, 3, DefKind::Variant, Some(&inner));
    let ctor = id(0, 4, DefKind::Ctor(CtorOf::Variant, CtorKind::Fn), Some(&variant));
    assert_eq!(get_closest_parent_type(&ctor), inner);
    assert_eq!(get_closest_parent_type(&inner), inner);
    assert_eq!(get_closest_parent_type(&outer), outer);
    let union = id(0, 5, DefKind::Union, Some(&root()));
    let member = id(0, 6, DefKind::Field, Some(&union));
    assert_eq!(get_closest_parent_type(&member), union);
}

#[test]
fn visibility_by_kind() {
    let public = id(0, 1, DefKind::Use, Some(&root()));
    let private = id(0, 2, DefKind::Use, Some(&root()));
    let mut private_answers = answers(&private);
    private_answers.visibility = Some(Visibility::Restricted(root()));
    let t =
        table(vec![root_answers(), answers(&public), private_answers], no_lang_items()).unwrap();
    let visible = [
        DefKind::AssocConst,
        DefKind::AssocFn,
        DefKind::Const,
        DefKind::Enum,
        DefKind::Field,
        DefKind::Fn,
        DefKind::ForeignTy,
        DefKind::Macro(MacroKind::Bang),
        DefKind::Mod,
        DefKind::Static { safety: Safety::Safe, mutability: Mutability::Not, nested: false },
        DefKind::Struct,
        DefKind::Trait,
        DefKind::TraitAlias,
        DefKind::TyAlias,
        DefKind::Union,
        DefKind::Use,
        DefKind::Variant,
    ];
    for kind in visible {
        assert_eq!(get_def_visibility(&t, &public, kind), Some(true));
        assert_eq!(get_def_visibility(&t, &private, kind), Some(false));
    }
    let hidden = [
        DefKind::AnonConst,
        DefKind::AssocTy,
        DefKind::Closure,
        DefKind::ConstParam,
        DefKind::Ctor(CtorOf::Struct, CtorKind::Fn),
        DefKind::ExternCrate,
        DefKind::ForeignMod,
        DefKind::GlobalAsm,
        DefKind::Impl { of_trait: false },
        DefKind::InlineConst,
        DefKind::LifetimeParam,
        DefKind::OpaqueTy,
        DefKind::SyntheticCoroutineBody,
        DefKind::TyParam,
    ];
    for kind in hidden {
        assert_eq!(get_def_visibility(&t, &public, kind), None);
    }
}

#[test]
fn attributes_by_kind() {
    let item = id(0, 1, DefKind::Use, Some(&root()));
    let mut d = answers(&item);
    d.attrs = Some(vec![attribute("inline")]);
    let t = table(vec![root_answers(), d], no_lang_items()).unwrap();
    assert_eq!(get_def_attrs(&t, &item, DefKind::Use), vec![attribute("inline")]);
    assert_eq!(get_def_attrs(&t, &item, DefKind::Closure), vec![attribute("inline")]);
    for kind in
        [DefKind::ConstParam, DefKind::LifetimeParam, DefKind::TyParam, DefKind::ForeignMod]
    {
        assert_eq!(get_def_attrs(&t, &item, kind), vec![]);
    }
}

// ---- modules ----

#[test]
fn children_of_local_modules() {
    let m = id(0, 1, DefKind::Mod, Some(&root()));
    let imp = id(0, 2, DefKind::GlobalAsm, Some(&m));
    let mut root_data = answers(&root());
    root_data.hir_node = Some(HirNode::Crate(vec![HirItem {
        ident: Some(ident("m", 1)),
        def_id: m.clone(),
    }]));
    // What other crates would see is not looked at.
    root_data.module_children =
        vec![ModChild { ident: ident("other", 1), res: Some(imp.clone()) }];
    let mut m_data = answers(&m);
    m_data.hir_node = Some(HirNode::Item(HirItemKind::Mod(vec![HirItem {
        ident: None,
        def_id: imp.clone(),
    }])));
    let t = table(vec![root_data, m_data, answers(&imp)], no_lang_items()).unwrap();
    assert_eq!(get_mod_children(&t, &root()), vec![(Some(ident("m", 1)), m.clone())]);
    assert_eq!(get_mod_children(&t, &m), vec![(None, imp)]);
}

#[test]
fn children_of_modules_of_other_crates() {
    let core = id(1, 0, DefKind::Mod, None);
    let a = id(1, 1, DefKind::Use, Some(&core));
    let b = id(2, 1, DefKind::Use, None);
    let mut d = answers(&core);
    d.module_children = vec![
        ModChild { ident: ident("b", 2), res: Some(b.clone()) },
        ModChild { ident: ident("a", 1), res: Some(a.clone()) },
    ];
    let t = table(vec![d], no_lang_items()).unwrap();
    assert_eq!(
        get_mod_children(&t, &core),
        vec![(Some(ident("b", 2)), b), (Some(ident("a", 1)), a)]
    );
}

#[test]
fn children_of_foreign_blocks() {
    let local = id(0, 1, DefKind::ForeignMod, Some(&root()));
    let f = id(0, 2, DefKind::ForeignTy, Some(&local));
    let other = id(1, 1, DefKind::ForeignMod, None);
    let mut local_data = answers(&local);
    local_data.hir_node = Some(HirNode::Item(HirItemKind::ForeignMod(vec![f.clone()])));
    let mut other_data = answers(&other);
    other_data.hir_node = Some(HirNode::Item(HirItemKind::ForeignMod(vec![f.clone()])));
    let t = table(vec![root_answers(), local_data, other_data], no_lang_items()).unwrap();
    assert_eq!(get_foreign_mod_children(&t, &local), vec![f]);
    assert_eq!(get_foreign_mod_children(&t, &other), vec![]);
}

// ---- signatures ----

/// A trait method with `declared` bound variables and an impl of it with `own`. The method adds a
/// parameter to those of the impl, which is applied to a trait reference with two arguments.
fn method_table(declared: usize, own: usize, container: AssocItemContainer) -> (TyCtxt, DefId) {
    let tr = id(0, 1, DefKind::Trait, Some(&root()));
    let decl = id(0, 2, DefKind::AssocFn, Some(&tr));
    let imp = id(0, 3, DefKind::Impl { of_trait: true }, Some(&root()));
    let method = id(0, 4, DefKind::AssocFn, Some(&imp));
    let item = |def_id: &DefId, container: AssocItemContainer| RAssocItem {
        def_id: def_id.clone(),
        kind: AssocKind::Fn { name: String::from("compare"), has_self: true },
        container,
        trait_item_def_id: Some(decl.clone()),
    };
    let method_answers = |def_id: &DefId, sig: RFnSig, container: AssocItemContainer| {
        let mut d = answers(def_id);
        d.associated_item = Some(item(def_id, container));
        d.defaultness = Some(Defaultness::Final);
        d.inline = Some(InlineAttr::Absent);
        d.constness = Some(Constness::NotConst);
        d.fn_sig = Some(sig);
        d
    };
    let mut tr_data = answers(&tr);
    tr_data.self_predicate = Some(RPolyTraitRef {
        id: 1,
        trait_ref: RTraitRef { def_id: tr.clone(), args: Arc::new(vec![]) },
        has_escaping_bound_vars: false,
    });
    tr_data.associated_items = vec![item(&decl, AssocItemContainer::Trait)];
    let mut imp_data = answers(&imp);
    imp_data.generics = Some(generics(0, &[("'a", &imp)], vec![GenericArg::Lifetime(1)]));
    imp_data.impl_subject = Some(ImplSubject::Trait(RTraitRef {
        def_id: tr.clone(),
        args: Arc::new(vec![
            GenericArg::Type(RTy::Interned(20)),
            GenericArg::Type(RTy::Interned(21)),
        ]),
    }));
    imp_data.impl_polarity = Some(ImplPolarity::Positive);
    imp_data.associated_items = vec![item(&method, AssocItemContainer::Impl)];
    let mut own_data =
        method_answers(&method, RFnSig { id: 41, bound_vars: own }, container);
    own_data.generics = Some(generics(
        1,
        &[("T", &method)],
        vec![GenericArg::Lifetime(1), GenericArg::Type(RTy::Interned(30))],
    ));
    let decl_data = method_answers(
        &decl,
        RFnSig { id: 40, bound_vars: declared },
        AssocItemContainer::Trait,
    );
    let t = table(vec![root_answers(), tr_data, decl_data, imp_data, own_data], no_lang_items())
        .unwrap();
    (t, method)
}

#[test]
fn method_gets_the_declared_signature() {
    // Whether or not it binds as many variables itself.
    for (declared, own) in [(1, 2), (2, 1), (2, 2), (0, 0)] {
        let (t, method) = method_table(declared, own, AssocItemContainer::Impl);
        assert_eq!(
            get_method_sig(&t, &method),
            RPolyFnSig::Instantiated {
                sig: RFnSig { id: 40, bound_vars: declared },
                args: Arc::new(vec![
                    GenericArg::Type(RTy::Interned(20)),
                    GenericArg::Type(RTy::Interned(21)),
                    GenericArg::Type(RTy::Interned(30)),
                ]),
                anonymized: true,
            }
        );
    }
}

#[test]
fn trait_methods_keep_their_signature() {
    let (t, method) = method_table(1, 2, AssocItemContainer::Trait);
    assert_eq!(
        get_method_sig(&t, &method),
        RPolyFnSig::Declared(RFnSig { id: 41, bound_vars: 2 })
    );
    let decl = id(0, 2, DefKind::AssocFn, Some(&id(0, 1, DefKind::Trait, Some(&root()))));
    assert_eq!(
        get_method_sig(&t, &decl),
        RPolyFnSig::Declared(RFnSig { id: 40, bound_vars: 1 })
    );
}

// ---- generic arguments ----

#[test]
fn rebase_replaces_the_arguments_of_the_ancestor() {
    let lifetimes = |ns: &[u64]| -> GenericArgsRef {
        Arc::new(ns.iter().map(|n| GenericArg::Lifetime(*n)).collect())
    };
    let ancestor = |n: usize| generics(n, &[], vec![]);
    assert_eq!(
        rebase_onto(&lifetimes(&[1, 2, 3]), &ancestor(2), &lifetimes(&[7, 8, 9])),
        lifetimes(&[7, 8, 9, 3])
    );
    assert_eq!(
        rebase_onto(&lifetimes(&[1, 2, 3]), &ancestor(3), &lifetimes(&[7])),
        lifetimes(&[7])
    );
    assert_eq!(
        rebase_onto(&lifetimes(&[1, 2]), &ancestor(0), &lifetimes(&[7])),
        lifetimes(&[7, 1, 2])
    );
    // Fewer arguments than the ancestor has parameters.
    assert_eq!(rebase_onto(&lifetimes(&[1]), &ancestor(3), &lifetimes(&[7])), lifetimes(&[7]));
}

// ---- bodies ----

fn closure_ty(kind: ClosureKind) -> (RTy, DefId, Arc<RClosureArgs>) {
    let closure = id(0, 9, DefKind::Closure, Some(&root()));
    let args = Arc::new(RClosureArgs {
        id: 3,
        parent_args: Arc::new(vec![]),
        kind,
        inputs: vec![RTy::Interned(1)],
        output: RTy::Interned(2),
        upvar_tys: vec![],
    });
    (RTy::Closure { def_id: closure.clone(), closure: args.clone() }, closure, args)
}

#[test]
fn once_shim_by_kind_of_closure() {
    for kind in [ClosureKind::Fn, ClosureKind::FnMut] {
        let (ty, closure, args) = closure_ty(kind);
        assert_eq!(closure_once_shim(&ty), Some(RMir::ClosureOnceShim { closure, args }));
    }
    let (ty, _, _) = closure_ty(ClosureKind::FnOnce);
    assert_eq!(closure_once_shim(&ty), None);
}

#[test]
fn drop_glue_for_definitions_without_generics() {
    let drop_in_place = id(1, 1, DefKind::Fn, None);
    let plain = id(0, 1, DefKind::Const, Some(&root()));
    let inherited = id(0, 2, DefKind::Const, Some(&root()));
    let own = id(0, 3, DefKind::Const, Some(&root()));
    let mut defs = vec![root_answers(), answers(&plain), answers(&inherited), answers(&own)];
    for d in defs.iter_mut() {
        d.type_of = Some(RTy::Interned(11));
    }
    defs[2].generics = Some(generics(1, &[], vec![GenericArg::Lifetime(1)]));
    defs[3].generics = Some(generics(0, &[("T", &own)], vec![GenericArg::Lifetime(1)]));
    let mut lang_items = no_lang_items();
    lang_items.drop_in_place = Some(drop_in_place.clone());
    let t = table(defs, lang_items).unwrap();
    assert_eq!(
        drop_glue_shim(&t, &plain),
        Some(RMir::DropGlue { drop_in_place, ty: RTy::Interned(11) })
    );
    assert_eq!(drop_glue_shim(&t, &inherited), None);
    assert_eq!(drop_glue_shim(&t, &own), None);
}

#[test]
fn no_type_is_asked_for_where_there_are_generics() {
    let opaque = id(0, 1, DefKind::OpaqueTy, Some(&root()));
    let mut d = answers(&opaque);
    d.generics = Some(generics(0, &[("T", &opaque)], vec![GenericArg::Lifetime(1)]));
    let mut lang_items = no_lang_items();
    lang_items.drop_in_place = Some(id(1, 1, DefKind::Fn, None));
    let t = table(vec![root_answers(), d], lang_items).unwrap();
    let s = base(&t).with_owner_id(&opaque);
    assert_eq!(get_drop_glue_shim::<()>(&s), None);
    assert_eq!(get_drop_glue_shim::<MirBody>(&s), None);
}
