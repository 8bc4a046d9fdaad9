//! Full definitions.
use hax_frontend_exporter::body::{IsBody, MirBody, RMir};
use hax_frontend_exporter::cache::FullDefCache;
use hax_frontend_exporter::def_id::{
    CtorKind, CtorOf, DefId, DefKind, MacroKind, Mutability, PromotedId, Safety,
};
use hax_frontend_exporter::full_def::{
    ConstKind, FullDef, FullDefKind, ImplAssocItem, ImplAssocItemValue, ParamEnv, VirtualTraitImpl,
};
use hax_frontend_exporter::rustc_utils::translate_span;
use hax_frontend_exporter::span::{FileName, RLoc, RSpan, SpanData};
use hax_frontend_exporter::state::{Base, Options};
use hax_frontend_exporter::tcx::{
    DefData, HirItem, HirItemKind, HirNode, LangItems, ModChild, PromotedMir, RParamEnv, TyCtxt,
};
use hax_frontend_exporter::ty::{
    AdtFlags, AdtKind, AssocItem, AssocItemContainer, AssocKind, AssocTypeData, Attribute, Clause,
    ClosureArgs, ClosureKind, Constness, Defaultness, DiscriminantValue, FieldDef, GenericArg,
    GenericParamDef, GenericParamDefKind, GenericPredicates, ImplExpr, ImplPolarity, ImplSubject,
    InlineAttr, PolyFnSig, RAdtDef, RAssocItem, RClause, RClosureArgs, RDiscr, RFieldDef, RFnSig,
    RGenerics, RIdent, RPolyFnSig, RPolyTraitRef, RTraitRef, RTy, RVariantDef, ReprOptions, Scope,
    TraitPredicate, TraitRef, Ty, TyGenerics, VariantDef, VariantDiscr, Visibility,
};
use std::sync::Arc;

fn id(krate: u32, index: u32, kind: DefKind, parent: Option<&DefId>) -> DefId {
    DefId { krate, index, promoted: None, parent: parent.map(|p| Arc::new(p.clone())), kind }
}

fn span(n: u32) -> RSpan {
    RSpan {
        data: SpanData { lo: n, hi: n + 1, ctxt: 0 },
        filename: FileName::Real(String::from("src/lib.rs")),
        lo: RLoc { line: n as usize + 1, col: 4, col_display: 8 },
        hi: RLoc { line: n as usize + 1, col: 9, col_display: 13 },
        snippet: Some(format!("text {n}")),
    }
}

fn generics(parent_count: usize, own: &[(&str, &DefId)], args: Vec<GenericArg>) -> RGenerics {
    RGenerics {
        parent: None,
        parent_count,
        own_params: own
            .iter()
            .enumerate()
            .map(|(i, (name, did))| GenericParamDef {
                name: name.to_string(),
                def_id: (*did).clone(),
                index: (parent_count + i) as u32,
                kind: GenericParamDefKind::Type { has_default: false, synthetic: false },
            })
            .collect(),
        has_self: false,
        has_late_bound_regions: None,
        identity_args: Arc::new(args),
    }
}

/// The answers that every kind of definition has; those of one kind alone are left open.
fn answers(def_id: &DefId) -> DefData {
    DefData {
        def_id: def_id.clone(),
        visibility: Some(Visibility::Public),
        attrs: Some(vec![]),
        def_span: Some(span(def_id.index)),
        source_span: if def_id.krate == 0 { Some(span(1000 + def_id.index)) } else { None },
        lang_item: None,
        diagnostic_item: None,
        generics: Some(generics(0, &[], vec![])),
        required_predicates: vec![],
        required_predicates_with_drop: vec![],
        implied_predicates: vec![],
        implied_predicates_with_drop: vec![],
        param_env: RParamEnv { id: 500 + def_id.index as u64 },
        self_predicate: None,
        type_of: None,
        adt_def: None,
        associated_item: None,
        associated_items: vec![],
        defaultness: None,
        inherent_impls: vec![],
        impl_subject: None,
        impl_polarity: None,
        fn_sig: None,
        inline: None,
        constness: None,
        hir_node: None,
        module_children: vec![],
        root_body: None,
        hir_attrs: vec![],
        promoted_mir: vec![],
    }
}

fn no_lang_items() -> LangItems {
    LangItems { fn_once_trait: None, fn_mut_trait: None, fn_trait: None, drop_in_place: None }
}

fn table(defs: Vec<DefData>, lang_items: LangItems) -> Option<TyCtxt> {
    TyCtxt::new(defs, lang_items, span(0), RTy::Interned(7))
}

// ---- a small program ----

/// The definitions of the program.
struct Ids {
    root: DefId,
    point: DefId,
    point_x: DefId,
    shape: DefId,
    empty: DefId,
    circle: DefId,
    circle_ctor: DefId,
    tr: DefId,
    out: DefId,
    run: DefId,
    n: DefId,
    anon: DefId,
    gat: DefId,
    imp: DefId,
    imp_out: DefId,
    imp_run: DefId,
    inherent: DefId,
    new: DefId,
    hidden: DefId,
    main: DefId,
    closure: DefId,
    alias: DefId,
    konst: DefId,
    foreign: DefId,
    param: DefId,
    statik: DefId,
    generic: DefId,
    core: DefId,
    fn_once: DefId,
    output: DefId,
    fn_mut: DefId,
    fn_: DefId,
    drop_in_place: DefId,
}

fn ids() -> Ids {
    let root = id(0, 0, DefKind::Mod, None);
    let local = |index: u32, kind: DefKind| id(0, index, kind, Some(&root));
    let point = local(1, DefKind::Struct);
    let point_x = id(0, 2, DefKind::Field, Some(&point));
    let shape = local(3, DefKind::Enum);
    let empty = id(0, 4, DefKind::Variant, Some(&shape));
    let circle = id(0, 5, DefKind::Variant, Some(&shape));
    let circle_ctor = id(0, 6, DefKind::Ctor(CtorOf::Variant, CtorKind::Fn), Some(&circle));
    let tr = local(7, DefKind::Trait);
    let imp = local(13, DefKind::Impl { of_trait: true });
    let inherent = local(16, DefKind::Impl { of_trait: false });
    let main = local(19, DefKind::Fn);
    let core = id(1, 0, DefKind::Mod, None);
    let fn_once = id(1, 1, DefKind::Trait, Some(&core));
    Ids {
        out: id(0, 8, DefKind::AssocTy, Some(&tr)),
        run: id(0, 9, DefKind::AssocFn, Some(&tr)),
        n: id(0, 10, DefKind::AssocConst, Some(&tr)),
        anon: id(0, 11, DefKind::AssocTy, Some(&tr)),
        gat: id(0, 12, DefKind::AssocTy, Some(&tr)),
        imp_out: id(0, 14, DefKind::AssocTy, Some(&imp)),
        imp_run: id(0, 15, DefKind::AssocFn, Some(&imp)),
        new: id(0, 17, DefKind::AssocFn, Some(&inherent)),
        hidden: id(0, 18, DefKind::AssocTy, Some(&inherent)),
        closure: id(0, 20, DefKind::Closure, Some(&main)),
        alias: local(21, DefKind::TyAlias),
        konst: local(22, DefKind::Const),
        foreign: local(23, DefKind::ForeignMod),
        param: id(0, 24, DefKind::TyParam, Some(&point)),
        statik: local(
            25,
            DefKind::Static { safety: Safety::Unsafe, mutability: Mutability::Mut, nested: true },
        ),
        generic: local(26, DefKind::Union),
        output: id(1, 2, DefKind::AssocTy, Some(&fn_once)),
        fn_mut: id(1, 3, DefKind::Trait, Some(&core)),
        fn_: id(1, 4, DefKind::Trait, Some(&core)),
        drop_in_place: id(1, 5, DefKind::Fn, Some(&core)),
        root,
        point,
        point_x,
        shape,
        empty,
        circle,
        circle_ctor,
        tr,
        imp,
        inherent,
        main,
        core,
        fn_once,
    }
}

fn ty(n: u64) -> RTy {
    RTy::Interned(n)
}

fn ty_arg(n: u64) -> GenericArg {
    GenericArg::Type(ty(n))
}

fn ident(name: &str, n: u32) -> RIdent {
    RIdent { name: name.to_string(), span: span(n) }
}

fn attribute(path: &str) -> Attribute {
    Attribute { path: path.to_string(), args: String::new() }
}

fn type_kind(name: &str) -> AssocKind {
    AssocKind::Type { data: AssocTypeData::Normal(name.to_string()) }
}

fn fn_kind(name: &str) -> AssocKind {
    AssocKind::Fn { name: name.to_string(), has_self: true }
}

fn item(
    def_id: &DefId,
    kind: AssocKind,
    container: AssocItemContainer,
    of: Option<&DefId>,
) -> RAssocItem {
    RAssocItem { def_id: def_id.clone(), kind, container, trait_item_def_id: of.cloned() }
}

fn trait_ref(def_id: &DefId, args: Vec<GenericArg>) -> RTraitRef {
    RTraitRef { def_id: def_id.clone(), args: Arc::new(args) }
}

fn poly(t: RTraitRef) -> RPolyTraitRef {
    RPolyTraitRef { id: 1, trait_ref: t, has_escaping_bound_vars: false }
}

fn copy_bound(n: u64) -> RPolyTraitRef {
    poly(trait_ref(&id(1, 90, DefKind::Trait, None), vec![ty_arg(n)]))
}

fn trait_items(p: &Ids) -> Vec<RAssocItem> {
    let decl = |def_id: &DefId, kind: AssocKind| {
        item(def_id, kind, AssocItemContainer::Trait, Some(def_id))
    };
    vec![
        decl(&p.out, type_kind("Out")),
        decl(&p.run, fn_kind("run")),
        decl(&p.n, AssocKind::Const { name: String::from("N") }),
        decl(&p.anon, AssocKind::Type { data: AssocTypeData::Rpitit }),
        decl(&p.gat, type_kind("Gat")),
    ]
}

fn impl_items(p: &Ids) -> Vec<RAssocItem> {
    vec![
        item(&p.imp_run, fn_kind("run"), AssocItemContainer::Impl, Some(&p.run)),
        item(&p.imp_out, type_kind("Out"), AssocItemContainer::Impl, Some(&p.out)),
    ]
}

fn inherent_items(p: &Ids) -> Vec<RAssocItem> {
    vec![
        item(&p.new, fn_kind("new"), AssocItemContainer::Impl, None),
        item(
            &p.hidden,
            AssocKind::Type { data: AssocTypeData::Rpitit },
            AssocItemContainer::Impl,
            None,
        ),
    ]
}

fn impl_trait_ref(p: &Ids) -> RTraitRef {
    trait_ref(&p.tr, vec![ty_arg(100)])
}

fn closure_args(kind: ClosureKind) -> Arc<RClosureArgs> {
    Arc::new(RClosureArgs {
        id: 3,
        parent_args: Arc::new(vec![]),
        kind,
        inputs: vec![ty(60)],
        output: ty(61),
        upvar_tys: vec![ty(62)],
    })
}

fn adt_variant(def_id: &DefId, name: &str, ctor: Option<&DefId>, val: u128) -> RVariantDef {
    RVariantDef {
        def_id: def_id.clone(),
        ctor: ctor.map(|c| (CtorKind::Fn, c.clone())),
        name: name.to_string(),
        discr: VariantDiscr::Relative(0),
        discr_val: RDiscr { val, ty: ty(8) },
        fields: vec![],
    }
}

fn field(did: &DefId, name: &str, n: u64) -> RFieldDef {
    RFieldDef {
        did: did.clone(),
        name: name.to_string(),
        vis: Visibility::Public,
        ty: ty(n),
        span: span(77),
    }
}

fn adt(did: &DefId, kind: AdtKind, variants: Vec<RVariantDef>) -> RAdtDef {
    RAdtDef {
        did: did.clone(),
        kind,
        variants,
        flags: AdtFlags { bits: 5 },
        repr: ReprOptions { int: None, align: Some(16), pack: None, flags: 2 },
    }
}

/// The program, with a closure of the given kind.
fn program(p: &Ids, call: ClosureKind) -> TyCtxt {
    let method = |def_id: &DefId, a: RAssocItem, sig: u64, has_value: bool| {
        let mut d = answers(def_id);
        d.associated_item = Some(a);
        d.defaultness = Some(Defaultness::Default { has_value });
        d.inline = Some(InlineAttr::Hint);
        d.constness = Some(Constness::NotConst);
        d.fn_sig = Some(RFnSig { id: sig, bound_vars: 1 });
        d
    };
    let assoc = |def_id: &DefId, a: RAssocItem, value: Option<u64>| {
        let mut d = answers(def_id);
        d.associated_item = Some(a);
        d.defaultness = Some(Defaultness::Default { has_value: value.is_some() });
        d.type_of = value.map(ty);
        d
    };
    let trait_of = |def_id: &DefId, items: Vec<RAssocItem>| {
        let mut d = answers(def_id);
        d.self_predicate = Some(poly(trait_ref(def_id, vec![ty_arg(1)])));
        d.associated_items = items;
        d
    };

    let mut root = answers(&p.root);
    root.hir_node = Some(HirNode::Crate(vec![
        HirItem { ident: Some(ident("Point", 1)), def_id: p.point.clone() },
        HirItem { ident: None, def_id: p.imp.clone() },
        HirItem { ident: Some(ident("main", 2)), def_id: p.main.clone() },
    ]));

    let mut point = answers(&p.point);
    point.attrs = Some(vec![attribute("derive")]);
    point.visibility = Some(Visibility::Restricted(p.root.clone()));
    point.lang_item = Some(String::from("point"));
    point.diagnostic_item = Some(String::from("Point"));
    point.type_of = Some(ty(100));
    point.inherent_impls = vec![p.inherent.clone()];
    let mut only = adt_variant(&p.point, "Point", None, 42);
    only.fields = vec![field(&p.point_x, "x", 101)];
    point.adt_def = Some(adt(&p.point, AdtKind::Struct, vec![only]));

    let mut shape = answers(&p.shape);
    shape.type_of = Some(ty(110));
    let mut circle_variant = adt_variant(&p.circle, "Circle", Some(&p.circle_ctor), 9);
    circle_variant.fields = vec![field(&p.point_x, "0", 111)];
    shape.adt_def = Some(adt(
        &p.shape,
        AdtKind::Enum,
        vec![adt_variant(&p.empty, "Empty", None, 4), circle_variant],
    ));
    shape.generics = Some(generics(0, &[("T", &p.param)], vec![ty_arg(112)]));

    let items = trait_items(p);
    let mut tr = trait_of(&p.tr, trait_items(p));
    tr.generics = Some(generics(0, &[("Self", &p.tr)], vec![ty_arg(1)]));
    tr.implied_predicates = vec![
        (RClause::Trait(copy_bound(1)), span(1)),
        (RClause::Other(70), span(2)),
    ];
    tr.implied_predicates_with_drop = vec![
        (RClause::Trait(copy_bound(1)), span(1)),
        (RClause::Trait(copy_bound(2)), span(3)),
    ];
    tr.required_predicates_with_drop = vec![(RClause::Other(71), span(4))];
    let [out_item, run_item, n_item, anon_item, gat_item]: [RAssocItem; 5] =
        items.try_into().unwrap();
    let mut out = assoc(&p.out, out_item, None);
    out.implied_predicates = vec![(RClause::Trait(copy_bound(3)), span(5))];
    out.generics = Some(generics(1, &[], vec![ty_arg(1)]));
    let mut run = method(&p.run, run_item, 200, false);
    run.generics = Some(generics(1, &[], vec![ty_arg(1)]));
    let mut n = assoc(&p.n, n_item, Some(120));
    n.generics = Some(generics(1, &[], vec![ty_arg(1)]));
    let mut anon = assoc(&p.anon, anon_item, Some(121));
    anon.implied_predicates = vec![(RClause::Trait(copy_bound(4)), span(6))];
    anon.generics = Some(generics(1, &[], vec![ty_arg(1)]));
    let mut gat = assoc(&p.gat, gat_item, Some(122));
    gat.implied_predicates = vec![(RClause::Trait(copy_bound(5)), span(7))];
    gat.generics = Some(generics(1, &[("U", &p.param)], vec![ty_arg(1), ty_arg(2)]));

    let mut imp = answers(&p.imp);
    imp.impl_subject = Some(ImplSubject::Trait(impl_trait_ref(p)));
    imp.impl_polarity = Some(ImplPolarity::Positive);
    imp.associated_items = impl_items(p);
    let [imp_run_item, imp_out_item]: [RAssocItem; 2] = impl_items(p).try_into().unwrap();
    let mut imp_out = assoc(&p.imp_out, imp_out_item, Some(130));
    imp_out.generics = Some(generics(0, &[("V", &p.param)], vec![ty_arg(131)]));
    let imp_run = method(&p.imp_run, imp_run_item, 201, true);

    let mut inherent = answers(&p.inherent);
    inherent.impl_subject = Some(ImplSubject::Inherent(ty(100)));
    inherent.associated_items = inherent_items(p);
    let [new_item, hidden_item]: [RAssocItem; 2] = inherent_items(p).try_into().unwrap();
    let new = method(&p.new, new_item, 202, true);
    let hidden = assoc(&p.hidden, hidden_item, Some(132));

    let mut main = answers(&p.main);
    main.inline = Some(InlineAttr::Always);
    main.constness = Some(Constness::Const);
    main.fn_sig = Some(RFnSig { id: 203, bound_vars: 0 });
    main.generics = Some(generics(2, &[("T", &p.param)], vec![ty_arg(1), ty_arg(2), ty_arg(3)]));
    main.required_predicates = vec![(RClause::Other(72), span(8))];
    let mut expanded = span(9);
    expanded.data.ctxt = 3;
    main.promoted_mir = vec![
        PromotedMir { span: span(40), local_decls: vec![ty(140), ty(141)] },
        PromotedMir { span: expanded, local_decls: vec![ty(142)] },
        PromotedMir { span: span(41), local_decls: vec![] },
    ];

    let mut closure = answers(&p.closure);
    closure.type_of =
        Some(RTy::Closure { def_id: p.closure.clone(), closure: closure_args(call) });
    closure.constness = Some(Constness::NotConst);

    let mut alias = answers(&p.alias);
    alias.type_of = Some(ty(150));
    let mut konst = answers(&p.konst);
    konst.type_of = Some(ty(151));
    let mut foreign = answers(&p.foreign);
    foreign.def_span = None;
    foreign.attrs = None;
    foreign.hir_node = Some(HirNode::Item(HirItemKind::ForeignMod(vec![p.statik.clone()])));
    let mut param = answers(&p.param);
    param.visibility = None;
    let mut statik = answers(&p.statik);
    statik.type_of = Some(ty(152));
    let mut generic = answers(&p.generic);
    generic.type_of = Some(ty(153));
    generic.adt_def = Some(adt(&p.generic, AdtKind::Union, vec![]));

    let mut core = answers(&p.core);
    core.module_children =
        vec![ModChild { ident: ident("FnOnce", 3), res: Some(p.fn_once.clone()) }];
    let output_item =
        || item(&p.output, type_kind("Output"), AssocItemContainer::Trait, Some(&p.output));
    let mut output = assoc(&p.output, output_item(), None);
    output.implied_predicates = vec![(RClause::Trait(copy_bound(6)), span(10))];
    let mut drop_in_place = answers(&p.drop_in_place);
    drop_in_place.inline = Some(InlineAttr::Absent);
    drop_in_place.constness = Some(Constness::NotConst);
    drop_in_place.fn_sig = Some(RFnSig { id: 204, bound_vars: 0 });

    let defs = vec![
        root,
        point,
        answers(&p.point_x),
        shape,
        answers(&p.empty),
        answers(&p.circle),
        answers(&p.circle_ctor),
        tr,
        out,
        run,
        n,
        anon,
        gat,
        imp,
        imp_out,
        imp_run,
        inherent,
        new,
        hidden,
        main,
        closure,
        alias,
        konst,
        foreign,
        param,
        statik,
        generic,
        core,
        trait_of(&p.fn_once, vec![output_item()]),
        output,
        trait_of(&p.fn_mut, vec![]),
        trait_of(&p.fn_, vec![]),
        drop_in_place,
    ];
    let lang_items = LangItems {
        fn_once_trait: Some(p.fn_once.clone()),
        fn_mut_trait: Some(p.fn_mut.clone()),
        fn_trait: Some(p.fn_.clone()),
        drop_in_place: Some(p.drop_in_place.clone()),
    };
    table(defs, lang_items).unwrap()
}

fn base(tcx: &TyCtxt) -> Base<'_> {
    Base { tcx, ty_alias_mode: false, options: Options { resolve_drop_bounds: false } }
}

fn look_up<Body: IsBody>(tcx: &TyCtxt, def_id: &DefId) -> Arc<FullDef<Body>> {
    let mut cache = FullDefCache::new();
    assert!(def_id.can_be_looked_up(&base(tcx), &cache));
    def_id.full_def(&base(tcx), &mut cache)
}

fn scope(owner: &DefId) -> Scope {
    Scope { owner: owner.clone(), item: None, ty_alias_mode: false }
}

fn promoted(of: &DefId, n: u32) -> DefId {
    DefId {
        krate: of.krate,
        index: of.index,
        promoted: Some(PromotedId { id: n }),
        parent: Some(Arc::new(of.clone())),
        kind: DefKind::PromotedConst,
    }
}

fn no_generics() -> TyGenerics {
    TyGenerics {
        parent: None,
        parent_count: 0,
        params: vec![],
        has_self: false,
        has_late_bound_regions: None,
    }
}

// ---- what all definitions have ----

#[test]
fn header_of_a_struct() {
    let p = ids();
    let t = program(&p, ClosureKind::Fn);
    let def = look_up::<()>(&t, &p.point);
    assert_eq!(def.def_id(), &p.point);
    assert_eq!(def.span, translate_span(&span(1)));
    assert_eq!(def.source_span, Some(translate_span(&span(1001))));
    assert_eq!(def.source_text, Some(String::from("text 1001")));
    assert_eq!(def.attributes, vec![attribute("derive")]);
    assert_eq!(def.visibility, Some(false));
    assert_eq!(def.lang_item, Some(String::from("point")));
    assert_eq!(def.diagnostic_item, Some(String::from("Point")));
}

#[test]
fn other_crates_have_no_source() {
    let p = ids();
    let t = program(&p, ClosureKind::Fn);
    let def = look_up::<()>(&t, &p.core);
    assert_eq!(def.source_span, None);
    assert_eq!(def.source_text, None);
    assert_eq!(def.visibility, Some(true));
    assert_eq!(
        def.kind(),
        &FullDefKind::Mod {
            items: vec![(
                Some((String::from("FnOnce"), translate_span(&span(3)))),
                p.fn_once.clone()
            )]
        }
    );
}

#[test]
fn foreign_block_has_the_dummy_span() {
    let p = ids();
    let t = program(&p, ClosureKind::Fn);
    let def = look_up::<()>(&t, &p.foreign);
    assert_eq!(def.span, translate_span(&span(0)));
    assert_eq!(p.foreign.def_span(&base(&t)), translate_span(&span(0)));
    assert_eq!(p.main.def_span(&base(&t)), translate_span(&span(19)));
    assert_eq!(def.attributes, vec![]);
    assert_eq!(def.visibility, None);
    assert_eq!(def.kind(), &FullDefKind::ForeignMod { items: vec![p.statik.clone()] });
}

#[test]
fn type_parameter_has_neither_visibility_nor_generics() {
    let p = ids();
    let t = program(&p, ClosureKind::Fn);
    let def = look_up::<()>(&t, &p.param);
    assert_eq!(def.kind(), &FullDefKind::TyParam);
    assert_eq!(def.visibility, None);
    assert_eq!(def.param_env(), None);
}

// ---- types ----

#[test]
fn struct_definition() {
    let p = ids();
    let t = program(&p, ClosureKind::Fn);
    let def = look_up::<MirBody>(&t, &p.point);
    let expected = FullDefKind::Adt {
        param_env: ParamEnv {
            generics: no_generics(),
            predicates: GenericPredicates { predicates: vec![] },
        },
        adt_kind: AdtKind::Struct,
        variants: vec![VariantDef {
            def_id: p.point.clone(),
            ctor: None,
            name: String::from("Point"),
            discr_def: VariantDiscr::Relative(0),
            // What the compiler would compute is not looked at.
            discr_val: DiscriminantValue { val: 0, ty: Ty { scope: scope(&p.point), ty: ty(7) } },
            fields: vec![FieldDef {
                did: p.point_x.clone(),
                name: String::from("x"),
                vis: Visibility::Public,
                ty: Ty { scope: scope(&p.point), ty: ty(101) },
                span: translate_span(&span(77)),
            }],
        }],
        flags: AdtFlags { bits: 5 },
        repr: ReprOptions { int: None, align: Some(16), pack: None, flags: 2 },
        drop_glue: Some(MirBody {
            scope: scope(&p.point),
            mir: RMir::DropGlue { drop_in_place: p.drop_in_place.clone(), ty: ty(100) },
        }),
    };
    assert_eq!(def.kind(), &expected);
}

#[test]
fn enum_definition() {
    let p = ids();
    let t = program(&p, ClosureKind::Fn);
    let def = look_up::<()>(&t, &p.shape);
    match def.kind() {
        FullDefKind::Adt { adt_kind, variants, drop_glue, param_env, .. } => {
            assert_eq!(*adt_kind, AdtKind::Enum);
            assert_eq!(variants.len(), 2);
            assert_eq!(variants[0].discr_val.val, 4);
            assert_eq!(variants[1].discr_val.val, 9);
            assert_eq!(variants[1].discr_val.ty, Ty { scope: scope(&p.shape), ty: ty(8) });
            assert_eq!(variants[1].ctor, Some((CtorKind::Fn, p.circle_ctor.clone())));
            assert_eq!(param_env.generics.count_total_params(), 1);
            // It has a parameter.
            assert_eq!(*drop_glue, None);
        }
        _ => panic!("not a type"),
    }
}

#[test]
fn union_without_variants() {
    let p = ids();
    let t = program(&p, ClosureKind::Fn);
    let def = look_up::<()>(&t, &p.generic);
    match def.kind() {
        FullDefKind::Adt { adt_kind, variants, drop_glue, .. } => {
            assert_eq!(*adt_kind, AdtKind::Union);
            assert!(variants.is_empty());
            assert_eq!(*drop_glue, Some(()));
        }
        _ => panic!("not a type"),
    }
}

#[test]
fn constructor_definition() {
    let p = ids();
    let t = program(&p, ClosureKind::Fn);
    let def = look_up::<()>(&t, &p.circle_ctor);
    assert_eq!(
        def.kind(),
        &FullDefKind::Ctor {
            adt_def_id: p.shape.clone(),
            ctor_of: CtorOf::Variant,
            variant_id: 1,
            fields: vec![FieldDef {
                did: p.point_x.clone(),
                name: String::from("0"),
                vis: Visibility::Public,
                ty: Ty { scope: scope(&p.circle_ctor), ty: ty(111) },
                span: translate_span(&span(77)),
            }],
            output_ty: Ty {
                scope: scope(&p.circle_ctor),
                ty: RTy::Adt { def_id: p.shape.clone(), args: Arc::new(vec![ty_arg(112)]) },
            },
        }
    );
    assert_eq!(look_up::<()>(&t, &p.circle).kind(), &FullDefKind::Variant);
    assert_eq!(look_up::<()>(&t, &p.point_x).kind(), &FullDefKind::Field);
}

#[test]
fn type_alias_keeps_aliases() {
    let p = ids();
    let t = program(&p, ClosureKind::Fn);
    match look_up::<()>(&t, &p.alias).kind() {
        FullDefKind::TyAlias { ty: aliased, .. } => {
            assert_eq!(
                *aliased,
                Ty {
                    scope: Scope { owner: p.alias.clone(), item: None, ty_alias_mode: true },
                    ty: ty(150)
                }
            );
        }
        _ => panic!("not an alias"),
    }
}

// ---- functions and constants ----

#[test]
fn function_definition() {
    let p = ids();
    let t = program(&p, ClosureKind::Fn);
    let def = look_up::<()>(&t, &p.main);
    let expected = FullDefKind::Fn {
        param_env: ParamEnv {
            generics: TyGenerics {
                parent: None,
                parent_count: 2,
                params: vec![GenericParamDef {
                    name: String::from("T"),
                    def_id: p.param.clone(),
                    index: 2,
                    kind: GenericParamDefKind::Type { has_default: false, synthetic: false },
                }],
                has_self: false,
                has_late_bound_regions: None,
            },
            predicates: GenericPredicates {
                predicates: vec![(
                    Clause { scope: scope(&p.main), clause: RClause::Other(72) },
                    translate_span(&span(8)),
                )],
            },
        },
        inline: InlineAttr::Always,
        is_const: true,
        sig: PolyFnSig {
            scope: scope(&p.main),
            sig: RPolyFnSig::Declared(RFnSig { id: 203, bound_vars: 0 }),
        },
        body: Some(()),
    };
    assert_eq!(def.kind(), &expected);
    // Bodies of definitions are not looked up in this form.
    match look_up::<MirBody>(&t, &p.main).kind() {
        FullDefKind::Fn { body, .. } => assert_eq!(*body, None),
        _ => panic!("not a function"),
    }
}

#[test]
fn constants_and_statics() {
    let p = ids();
    let t = program(&p, ClosureKind::Fn);
    match look_up::<()>(&t, &p.konst).kind() {
        FullDefKind::Const { ty: of, kind, body, .. } => {
            assert_eq!(*of, Ty { scope: scope(&p.konst), ty: ty(151) });
            assert_eq!(*kind, ConstKind::TopLevel);
            assert_eq!(*body, Some(()));
        }
        _ => panic!("not a constant"),
    }
    match look_up::<()>(&t, &p.statik).kind() {
        FullDefKind::Static { safety, mutability, nested, ty: of, .. } => {
            assert_eq!(*safety, Safety::Unsafe);
            assert_eq!(*mutability, Mutability::Mut);
            assert!(*nested);
            assert_eq!(*of, Ty { scope: scope(&p.statik), ty: ty(152) });
        }
        _ => panic!("not a static"),
    }
}

#[test]
fn kinds_of_constants() {
    let root = id(0, 0, DefKind::Mod, None);
    for (def_kind, const_kind) in [
        (DefKind::Const, ConstKind::TopLevel),
        (DefKind::AnonConst, ConstKind::AnonConst),
        (DefKind::InlineConst, ConstKind::InlineConst),
    ] {
        let c = id(0, 1, def_kind, Some(&root));
        let mut d = answers(&c);
        d.type_of = Some(ty(1));
        let t = table(vec![d], no_lang_items()).unwrap();
        match look_up::<()>(&t, &c).kind() {
            FullDefKind::Const { kind, .. } => assert_eq!(*kind, const_kind),
            _ => panic!("not a constant"),
        }
    }
}

#[test]
fn kinds_without_data() {
    let root = id(0, 0, DefKind::Mod, None);
    for (def_kind, full_kind) in [
        (DefKind::ForeignTy, FullDefKind::ForeignTy),
        (DefKind::OpaqueTy, FullDefKind::OpaqueTy),
        (DefKind::ExternCrate, FullDefKind::ExternCrate),
        (DefKind::Use, FullDefKind::Use),
        (DefKind::TyParam, FullDefKind::TyParam),
        (DefKind::ConstParam, FullDefKind::ConstParam),
        (DefKind::LifetimeParam, FullDefKind::LifetimeParam),
        (DefKind::Variant, FullDefKind::Variant),
        (DefKind::Field, FullDefKind::Field),
        (DefKind::Macro(MacroKind::Derive), FullDefKind::Macro(MacroKind::Derive)),
        (DefKind::GlobalAsm, FullDefKind::GlobalAsm),
        (DefKind::SyntheticCoroutineBody, FullDefKind::SyntheticCoroutineBody),
    ] {
        let d = id(0, 1, def_kind, Some(&root));
        let t = table(vec![answers(&d)], no_lang_items()).unwrap();
        let def = look_up::<()>(&t, &d);
        assert_eq!(def.kind(), &full_kind);
        assert!(def.param_env().is_none());
    }
}

// ---- promoted constants ----

#[test]
fn promoted_constant() {
    let p = ids();
    let t = program(&p, ClosureKind::Fn);
    let c = promoted(&p.main, 0);
    let def = look_up::<MirBody>(&t, &c);
    let expected = FullDef {
        def_id: c.clone(),
        span: translate_span(&span(19)),
        source_span: Some(translate_span(&span(40))),
        source_text: Some(String::from("text 40")),
        attributes: vec![],
        visibility: None,
        lang_item: None,
        diagnostic_item: None,
        kind: FullDefKind::Const {
            param_env: ParamEnv {
                generics: TyGenerics {
                    parent: Some(p.main.clone()),
                    parent_count: 3,
                    params: vec![],
                    has_self: false,
                    has_late_bound_regions: None,
                },
                predicates: GenericPredicates { predicates: vec![] },
            },
            ty: Ty { scope: scope(&p.main), ty: ty(140) },
            kind: ConstKind::PromotedConst,
            body: Some(MirBody {
                scope: scope(&p.main),
                mir: RMir::Promoted { def_id: p.main.clone(), promoted: PromotedId { id: 0 } },
            }),
        },
    };
    assert_eq!(*def, expected);
}

#[test]
fn text_that_a_macro_produced_is_left_out() {
    let p = ids();
    let t = program(&p, ClosureKind::Fn);
    let def = look_up::<()>(&t, &promoted(&p.main, 1));
    assert!(def.source_span.is_some());
    assert_eq!(def.source_text, None);
}

#[test]
fn promoted_constants_that_cannot_be_looked_up() {
    let p = ids();
    let t = program(&p, ClosureKind::Fn);
    let cache: FullDefCache<()> = FullDefCache::new();
    let fine = |c: &DefId| c.can_be_looked_up(&base(&t), &cache);
    assert!(fine(&promoted(&p.main, 0)));
    // Without locals, out of range, or from a definition without bodies.
    assert!(!fine(&promoted(&p.main, 2)));
    assert!(!fine(&promoted(&p.main, 3)));
    assert!(!fine(&promoted(&p.konst, 0)));
    // Not well-formed: the parent is another definition.
    let mut stray = promoted(&p.main, 0);
    stray.parent = Some(Arc::new(p.konst.clone()));
    assert!(!fine(&stray));
    stray.parent = None;
    assert!(!fine(&stray));
    // Not in the table.
    assert!(!fine(&id(3, 3, DefKind::Use, None)));
}

// ---- traits and impls ----

fn assoc_item(
    def_id: &DefId,
    name: Option<&str>,
    kind: AssocKind,
    container: AssocItemContainer,
    of: Option<&DefId>,
    has_value: bool,
) -> AssocItem {
    AssocItem {
        def_id: def_id.clone(),
        name: name.map(String::from),
        kind,
        container,
        trait_item_def_id: of.cloned(),
        has_value,
    }
}

#[test]
fn trait_definition() {
    let p = ids();
    let t = program(&p, ClosureKind::Fn);
    match look_up::<()>(&t, &p.tr).kind() {
        FullDefKind::Trait { implied_predicates, self_predicate, items, .. } => {
            assert_eq!(
                *implied_predicates,
                GenericPredicates {
                    predicates: vec![
                        (
                            Clause { scope: scope(&p.tr), clause: RClause::Trait(copy_bound(1)) },
                            translate_span(&span(1)),
                        ),
                        (
                            Clause { scope: scope(&p.tr), clause: RClause::Other(70) },
                            translate_span(&span(2)),
                        ),
                    ],
                }
            );
            assert_eq!(
                *self_predicate,
                TraitPredicate {
                    trait_ref: TraitRef {
                        scope: scope(&p.tr),
                        def_id: p.tr.clone(),
                        generic_args: Arc::new(vec![ty_arg(1)]),
                    },
                    is_positive: true,
                }
            );
            let listed: Vec<&AssocItem> = items.iter().map(|i| &i.0).collect();
            let in_trait = AssocItemContainer::Trait;
            assert_eq!(
                listed,
                vec![
                    &assoc_item(
                        &p.out,
                        Some("Out"),
                        type_kind("Out"),
                        in_trait,
                        Some(&p.out),
                        false
                    ),
                    &assoc_item(
                        &p.run,
                        Some("run"),
                        fn_kind("run"),
                        in_trait,
                        Some(&p.run),
                        false
                    ),
                    &assoc_item(
                        &p.n,
                        Some("N"),
                        AssocKind::Const { name: String::from("N") },
                        in_trait,
                        Some(&p.n),
                        true
                    ),
                    &assoc_item(
                        &p.anon,
                        None,
                        AssocKind::Type { data: AssocTypeData::Rpitit },
                        in_trait,
                        Some(&p.anon),
                        true
                    ),
                    &assoc_item(
                        &p.gat,
                        Some("Gat"),
                        type_kind("Gat"),
                        in_trait,
                        Some(&p.gat),
                        true
                    ),
                ]
            );
            for (assoc, def) in items {
                assert_eq!(def.def_id(), &assoc.def_id);
                assert_eq!(**def, *look_up::<()>(&t, &assoc.def_id));
            }
        }
        _ => panic!("not a trait"),
    }
}

#[test]
fn drop_bounds_are_added_on_request() {
    let p = ids();
    let t = program(&p, ClosureKind::Fn);
    let with_drop =
        Base { tcx: &t, ty_alias_mode: false, options: Options { resolve_drop_bounds: true } };
    let mut cache: FullDefCache<()> = FullDefCache::new();
    match p.tr.full_def(&with_drop, &mut cache).kind() {
        FullDefKind::Trait { param_env, implied_predicates, .. } => {
            assert_eq!(param_env.predicates.predicates.len(), 1);
            assert_eq!(param_env.predicates.predicates[0].0.clause, RClause::Other(71));
            assert_eq!(
                implied_predicates.predicates[1].0.clause,
                RClause::Trait(copy_bound(2))
            );
        }
        _ => panic!("not a trait"),
    }
}

#[test]
fn associated_type_definition() {
    let p = ids();
    let t = program(&p, ClosureKind::Fn);
    match look_up::<()>(&t, &p.out).kind() {
        FullDefKind::AssocTy { value, implied_predicates, .. } => {
            assert_eq!(*value, None);
            assert_eq!(implied_predicates.predicates.len(), 1);
        }
        _ => panic!("not a type"),
    }
    match look_up::<()>(&t, &p.gat).kind() {
        FullDefKind::AssocTy { value, .. } => {
            assert_eq!(*value, Some(Ty { scope: scope(&p.gat), ty: ty(122) }));
        }
        _ => panic!("not a type"),
    }
    match look_up::<()>(&t, &p.n).kind() {
        FullDefKind::AssocConst { ty: of, body, .. } => {
            assert_eq!(*of, Ty { scope: scope(&p.n), ty: ty(120) });
            assert_eq!(*body, Some(()));
        }
        _ => panic!("not a constant"),
    }
    match look_up::<()>(&t, &p.imp_run).kind() {
        FullDefKind::AssocFn { sig, is_const, inline, .. } => {
            assert_eq!(sig.scope, scope(&p.imp_run));
            assert_eq!(
                sig.sig,
                RPolyFnSig::Instantiated {
                    sig: RFnSig { id: 200, bound_vars: 1 },
                    args: Arc::new(vec![ty_arg(100)]),
                    anonymized: true,
                }
            );
            assert!(!is_const);
            assert_eq!(*inline, InlineAttr::Hint);
        }
        _ => panic!("not a function"),
    }
}

/// The scope of what an impl leaves to the default of a trait item.
fn default_scope(owner: &DefId, item: &DefId) -> Scope {
    Scope { owner: owner.clone(), item: Some(item.clone()), ty_alias_mode: false }
}

fn default_expr(
    owner: &DefId,
    item: &DefId,
    goal: RPolyTraitRef,
    args: Vec<GenericArg>,
) -> ImplExpr {
    ImplExpr { scope: default_scope(owner, item), trait_ref: goal, args: Arc::new(args) }
}

fn impl_expr(owner: &DefId, goal: RPolyTraitRef, args: Vec<GenericArg>) -> ImplExpr {
    ImplExpr { scope: scope(owner), trait_ref: goal, args: Arc::new(args) }
}

#[test]
fn trait_impl_definition() {
    let p = ids();
    let t = program(&p, ClosureKind::Fn);
    let full = |d: &DefId| look_up::<()>(&t, d);
    let def = full(&p.imp);
    let (trait_pred, implied, items) = match def.kind() {
        FullDefKind::TraitImpl { trait_pred, implied_impl_exprs, items, .. } => {
            (trait_pred, implied_impl_exprs, items)
        }
        _ => panic!("not a trait impl"),
    };
    assert_eq!(
        *trait_pred,
        TraitPredicate {
            trait_ref: TraitRef {
                scope: scope(&p.imp),
                def_id: p.tr.clone(),
                generic_args: Arc::new(vec![ty_arg(100)]),
            },
            is_positive: true,
        }
    );
    // Only the clauses about traits call for an implementation.
    assert_eq!(*implied, vec![impl_expr(&p.imp, copy_bound(1), vec![ty_arg(100)])]);
    // One item for each item of the trait, in its order.
    assert_eq!(items.len(), 5);
    assert_eq!(
        items[0],
        ImplAssocItem {
            name: Some(String::from("Out")),
            decl_def: full(&p.out),
            // The parameter of the type is added to the arguments of the trait.
            required_impl_exprs: vec![impl_expr(
                &p.imp_out,
                copy_bound(3),
                vec![ty_arg(100), ty_arg(131)]
            )],
            value: ImplAssocItemValue::Provided { def: full(&p.imp_out), is_override: false },
        }
    );
    assert_eq!(
        items[1],
        ImplAssocItem {
            name: Some(String::from("run")),
            decl_def: full(&p.run),
            required_impl_exprs: vec![],
            value: ImplAssocItemValue::Provided { def: full(&p.imp_run), is_override: false },
        }
    );
    assert_eq!(
        items[2],
        ImplAssocItem {
            name: Some(String::from("N")),
            decl_def: full(&p.n),
            required_impl_exprs: vec![],
            value: ImplAssocItemValue::DefaultedConst,
        }
    );
    assert_eq!(
        items[3],
        ImplAssocItem {
            name: None,
            decl_def: full(&p.anon),
            required_impl_exprs: vec![default_expr(
                &p.imp,
                &p.anon,
                copy_bound(4),
                vec![ty_arg(100)]
            )],
            value: ImplAssocItemValue::DefaultedTy {
                ty: Ty {
                    scope: default_scope(&p.imp, &p.anon),
                    ty: RTy::Instantiated {
                        ty: Arc::new(ty(121)),
                        args: Arc::new(vec![ty_arg(100)]),
                    },
                },
            },
        }
    );
    // A generic associated type that is left to its default keeps its own parameter.
    assert_eq!(
        items[4],
        ImplAssocItem {
            name: Some(String::from("Gat")),
            decl_def: full(&p.gat),
            required_impl_exprs: vec![default_expr(
                &p.imp,
                &p.gat,
                copy_bound(5),
                vec![ty_arg(100), ty_arg(2)]
            )],
            value: ImplAssocItemValue::DefaultedTy {
                ty: Ty {
                    scope: default_scope(&p.imp, &p.gat),
                    ty: RTy::Instantiated {
                        ty: Arc::new(ty(122)),
                        args: Arc::new(vec![ty_arg(100), ty_arg(2)]),
                    },
                },
            },
        }
    );
}

#[test]
fn relevant_definition_of_an_impl_item() {
    let p = ids();
    let t = program(&p, ClosureKind::Fn);
    let def = look_up::<()>(&t, &p.imp);
    let items = match def.kind() {
        FullDefKind::TraitImpl { items, .. } => items,
        _ => panic!("not a trait impl"),
    };
    let relevant: Vec<&DefId> = items.iter().map(|i| i.def().def_id()).collect();
    assert_eq!(relevant, vec![&p.imp_out, &p.imp_run, &p.n, &p.anon, &p.gat]);
    assert_eq!(items[0].assoc_kind(), &type_kind("Out"));
    assert_eq!(items[1].assoc_kind(), &fn_kind("run"));
    assert_eq!(items[2].assoc_kind(), &AssocKind::Const { name: String::from("N") });
    for item in items {
        match item.decl_def.kind() {
            FullDefKind::AssocTy { associated_item, .. }
            | FullDefKind::AssocFn { associated_item, .. }
            | FullDefKind::AssocConst { associated_item, .. } => {
                assert!(item.assoc_kind().same_case(&associated_item.kind));
            }
            _ => panic!("not an associated item"),
        }
    }
}

/// A trait with a method that has a default body, and an impl of the given polarity that defines
/// the method, or leaves it out.
fn overriding(polarity: ImplPolarity, provides: bool) -> Arc<FullDef<()>> {
    let root = id(0, 0, DefKind::Mod, None);
    let tr = id(0, 1, DefKind::Trait, Some(&root));
    let decl = id(0, 2, DefKind::AssocFn, Some(&tr));
    let imp = id(0, 3, DefKind::Impl { of_trait: true }, Some(&root));
    let own = id(0, 4, DefKind::AssocFn, Some(&imp));
    let method = |def_id: &DefId, container: AssocItemContainer| {
        let mut d = answers(def_id);
        d.associated_item = Some(item(def_id, fn_kind("f"), container, Some(&decl)));
        d.defaultness = Some(Defaultness::Default { has_value: true });
        d.inline = Some(InlineAttr::Never);
        d.constness = Some(Constness::Const);
        d.fn_sig = Some(RFnSig { id: 1, bound_vars: 0 });
        d
    };
    let mut tr_data = answers(&tr);
    tr_data.self_predicate = Some(poly(trait_ref(&tr, vec![])));
    tr_data.associated_items =
        vec![item(&decl, fn_kind("f"), AssocItemContainer::Trait, Some(&decl))];
    let mut imp_data = answers(&imp);
    imp_data.impl_subject = Some(ImplSubject::Trait(trait_ref(&tr, vec![])));
    imp_data.impl_polarity = Some(polarity);
    if provides {
        imp_data.associated_items =
            vec![item(&own, fn_kind("f"), AssocItemContainer::Impl, Some(&decl))];
    }
    let t = table(
        vec![
            tr_data,
            method(&decl, AssocItemContainer::Trait),
            imp_data,
            method(&own, AssocItemContainer::Impl),
        ],
        no_lang_items(),
    )
    .unwrap();
    look_up(&t, &imp)
}

#[test]
fn default_methods_are_overridden_or_kept() {
    match overriding(ImplPolarity::Positive, true).kind() {
        FullDefKind::TraitImpl { items, .. } => {
            assert!(matches!(
                items[0].value,
                ImplAssocItemValue::Provided { is_override: true, .. }
            ));
        }
        _ => panic!("not a trait impl"),
    }
    match overriding(ImplPolarity::Positive, false).kind() {
        FullDefKind::TraitImpl { items, .. } => {
            assert_eq!(items[0].value, ImplAssocItemValue::DefaultedFn {});
        }
        _ => panic!("not a trait impl"),
    }
}

#[test]
fn only_positive_impls_are_positive() {
    for (polarity, positive) in [
        (ImplPolarity::Positive, true),
        (ImplPolarity::Negative, false),
        (ImplPolarity::Reservation, false),
    ] {
        match overriding(polarity, false).kind() {
            FullDefKind::TraitImpl { trait_pred, .. } => {
                assert_eq!(trait_pred.is_positive, positive);
            }
            _ => panic!("not a trait impl"),
        }
    }
}

#[test]
fn inherent_impl_definition() {
    let p = ids();
    let t = program(&p, ClosureKind::Fn);
    match look_up::<()>(&t, &p.inherent).kind() {
        FullDefKind::InherentImpl { ty: of, items, .. } => {
            assert_eq!(*of, Ty { scope: scope(&p.inherent), ty: ty(100) });
            assert_eq!(items.len(), 2);
            assert_eq!(items[0].0.name, Some(String::from("new")));
            assert_eq!(items[0].1.def_id(), &p.new);
            assert_eq!(items[1].0.name, None);
            assert_eq!(items[1].1.def_id(), &p.hidden);
        }
        _ => panic!("not an inherent impl"),
    }
}

#[test]
fn trait_alias_definition() {
    let root = id(0, 0, DefKind::Mod, None);
    let a = id(0, 1, DefKind::TraitAlias, Some(&root));
    let mut d = answers(&a);
    d.self_predicate = Some(poly(trait_ref(&a, vec![ty_arg(1)])));
    d.implied_predicates = vec![(RClause::Other(4), span(4))];
    let t = table(vec![d], no_lang_items()).unwrap();
    match look_up::<()>(&t, &a).kind() {
        FullDefKind::TraitAlias { self_predicate, implied_predicates, .. } => {
            assert_eq!(self_predicate.trait_ref.def_id, a);
            assert!(self_predicate.is_positive);
            assert_eq!(implied_predicates.predicates.len(), 1);
        }
        _ => panic!("not a trait alias"),
    }
}

// ---- closures ----

#[test]
fn closure_definition() {
    let p = ids();
    for (kind, has_mut, has_fn) in [
        (ClosureKind::Fn, true, true),
        (ClosureKind::FnMut, true, false),
        (ClosureKind::FnOnce, false, false),
    ] {
        let t = program(&p, kind);
        let def = look_up::<MirBody>(&t, &p.closure);
        let closure_ty =
            RTy::Closure { def_id: p.closure.clone(), closure: closure_args(kind) };
        let args = vec![
            GenericArg::Type(closure_ty.clone()),
            GenericArg::Type(RTy::RegionsErased(Arc::new(ty(60)))),
        ];
        match def.kind() {
            FullDefKind::Closure {
                args: exported,
                is_const,
                fn_once_impl,
                fn_mut_impl,
                fn_impl,
                once_shim,
                drop_glue,
            } => {
                assert_eq!(
                    *exported,
                    ClosureArgs {
                        scope: scope(&p.closure),
                        def_id: p.closure.clone(),
                        args: closure_args(kind),
                    }
                );
                assert!(!is_const);
                assert_eq!(
                    **fn_once_impl,
                    VirtualTraitImpl {
                        trait_pred: TraitPredicate {
                            trait_ref: TraitRef {
                                scope: scope(&p.closure),
                                def_id: p.fn_once.clone(),
                                generic_args: Arc::new(args.clone()),
                            },
                            is_positive: true,
                        },
                        implied_impl_exprs: vec![],
                        types: vec![(
                            Ty {
                                scope: scope(&p.closure),
                                ty: RTy::Projection {
                                    def_id: p.output.clone(),
                                    args: Arc::new(args.clone()),
                                },
                            },
                            vec![impl_expr(&p.closure, copy_bound(6), args.clone())],
                        )],
                    }
                );
                assert_eq!(fn_mut_impl.is_some(), has_mut);
                assert_eq!(fn_impl.is_some(), has_fn);
                if let Some(i) = fn_mut_impl {
                    assert_eq!(i.trait_pred.trait_ref.def_id, p.fn_mut);
                    assert!(i.types.is_empty());
                }
                if let Some(i) = fn_impl {
                    assert_eq!(i.trait_pred.trait_ref.def_id, p.fn_);
                }
                let shim = MirBody {
                    scope: scope(&p.closure),
                    mir: RMir::ClosureOnceShim {
                        closure: p.closure.clone(),
                        args: closure_args(kind),
                    },
                };
                assert_eq!(*once_shim, if has_mut { Some(shim) } else { None });
                assert_eq!(
                    *drop_glue,
                    Some(MirBody {
                        scope: scope(&p.closure),
                        mir: RMir::DropGlue {
                            drop_in_place: p.drop_in_place.clone(),
                            ty: closure_ty,
                        },
                    })
                );
            }
            _ => panic!("not a closure"),
        }
    }
}

// ---- generics ----

#[test]
fn generics_where_there_are_some() {
    let p = ids();
    let t = program(&p, ClosureKind::Fn);
    for d in [
        &p.point, &p.shape, &p.tr, &p.out, &p.run, &p.n, &p.imp, &p.inherent, &p.main, &p.alias,
        &p.konst, &p.statik, &p.generic,
    ] {
        assert!(look_up::<()>(&t, d).param_env().is_some());
    }
    for d in [&p.root, &p.point_x, &p.empty, &p.circle_ctor, &p.closure, &p.foreign, &p.param] {
        assert!(look_up::<()>(&t, d).param_env().is_none());
    }
}

// ---- the cache ----

#[test]
fn looking_up_again_gives_the_same() {
    let p = ids();
    let t = program(&p, ClosureKind::Fn);
    let mut cache: FullDefCache<()> = FullDefCache::new();
    assert!(cache.get(&p.tr).is_none());
    let first = p.tr.full_def(&base(&t), &mut cache);
    let second = p.tr.full_def(&base(&t), &mut cache);
    assert!(Arc::ptr_eq(&first, &second));
    assert!(Arc::ptr_eq(&first, &cache.get(&p.tr).unwrap()));
}

#[test]
fn items_are_held_with_their_trait() {
    let p = ids();
    let t = program(&p, ClosureKind::Fn);
    let mut cache: FullDefCache<()> = FullDefCache::new();
    let imp = p.imp.full_def(&base(&t), &mut cache);
    // The items of the trait and of the impl, but not the trait.
    for d in [&p.out, &p.run, &p.n, &p.anon, &p.gat, &p.imp_out, &p.imp_run, &p.imp] {
        assert!(cache.get(d).is_some());
    }
    assert!(cache.get(&p.tr).is_none());
    assert!(cache.get(&p.new).is_none());
    match imp.kind() {
        FullDefKind::TraitImpl { items, .. } => {
            for (item, decl) in items.iter().zip([&p.out, &p.run, &p.n, &p.anon, &p.gat]) {
                assert!(Arc::ptr_eq(&item.decl_def, &cache.get(decl).unwrap()));
            }
            for (item, provided) in items.iter().zip([&p.imp_out, &p.imp_run]) {
                match &item.value {
                    ImplAssocItemValue::Provided { def, .. } => {
                        assert!(Arc::ptr_eq(def, &cache.get(provided).unwrap()));
                    }
                    _ => panic!("not provided"),
                }
            }
        }
        _ => panic!("not a trait impl"),
    }
}

#[test]
fn items_are_shared_with_the_cache() {
    let p = ids();
    let t = program(&p, ClosureKind::Fn);
    let mut cache: FullDefCache<()> = FullDefCache::new();
    // Whether the item was looked up before the trait or not.
    let n = p.n.full_def(&base(&t), &mut cache);
    let tr = p.tr.full_def(&base(&t), &mut cache);
    let inherent = p.inherent.full_def(&base(&t), &mut cache);
    match (tr.kind(), inherent.kind()) {
        (FullDefKind::Trait { items, .. }, FullDefKind::InherentImpl { items: others, .. }) => {
            assert!(Arc::ptr_eq(&items[2].1, &n));
            for (assoc, def) in items.iter().chain(others) {
                assert!(Arc::ptr_eq(def, &cache.get(&assoc.def_id).unwrap()));
            }
        }
        _ => panic!("not a trait and an inherent impl"),
    }
}

#[test]
fn order_of_lookups_does_not_matter() {
    let p = ids();
    let t = program(&p, ClosureKind::Fn);
    let order = [&p.imp, &p.out, &p.tr, &p.inherent, &p.new, &p.main];
    let mut forwards: FullDefCache<MirBody> = FullDefCache::new();
    let mut backwards: FullDefCache<MirBody> = FullDefCache::new();
    for d in order.iter() {
        d.full_def(&base(&t), &mut forwards);
    }
    for d in order.iter().rev() {
        d.full_def(&base(&t), &mut backwards);
    }
    for d in order {
        assert_eq!(forwards.get(d), backwards.get(d));
        assert_eq!(*forwards.get(d).unwrap(), *look_up::<MirBody>(&t, d));
    }
}

#[test]
fn promoted_constants_are_held_apart() {
    let p = ids();
    let t = program(&p, ClosureKind::Fn);
    let mut cache: FullDefCache<()> = FullDefCache::new();
    let first = promoted(&p.main, 0).full_def(&base(&t), &mut cache);
    // The definition that it comes from was looked up on the way.
    assert!(cache.get(&p.main).is_some());
    assert!(cache.get(&promoted(&p.main, 1)).is_none());
    let second = promoted(&p.main, 1).full_def(&base(&t), &mut cache);
    assert_ne!(first, second);
    assert!(Arc::ptr_eq(&first, &cache.get(&promoted(&p.main, 0)).unwrap()));
    assert_eq!(cache.get(&p.main).unwrap().def_id(), &p.main);
}

#[test]
fn what_is_held_is_used() {
    let p = ids();
    let t = program(&p, ClosureKind::Fn);
    let mut cache: FullDefCache<()> = FullDefCache::new();
    // Another definition is put in the place of the function.
    cache.insert(&p.main, look_up::<()>(&t, &p.konst));
    assert_eq!(p.main.full_def(&base(&t), &mut cache).def_id(), &p.konst);
    let c = promoted(&p.main, 0).full_def(&base(&t), &mut cache);
    assert_eq!(c.param_env().unwrap().generics.parent_count, 0);
    // One without generics does not do for a promoted constant.
    cache.insert(&p.main, look_up::<()>(&t, &p.param));
    assert!(!promoted(&p.main, 1).can_be_looked_up(&base(&t), &cache));
    assert!(promoted(&p.main, 0).can_be_looked_up(&base(&t), &cache));
}

// ---- children ----

fn names(children: Vec<(String, DefId)>) -> Vec<String> {
    children.into_iter().map(|c| c.0).collect()
}

#[test]
fn children_of_modules_have_names() {
    let p = ids();
    let t = program(&p, ClosureKind::Fn);
    assert_eq!(
        look_up::<()>(&t, &p.root).nameable_children(&base(&t)),
        vec![(String::from("Point"), p.point.clone()), (String::from("main"), p.main.clone())]
    );
    assert_eq!(
        look_up::<()>(&t, &p.core).nameable_children(&base(&t)),
        vec![(String::from("FnOnce"), p.fn_once.clone())]
    );
}

#[test]
fn children_of_types() {
    let p = ids();
    let t = program(&p, ClosureKind::Fn);
    // The variants of an enum; the inherent items of a struct.
    assert_eq!(
        look_up::<()>(&t, &p.shape).nameable_children(&base(&t)),
        vec![(String::from("Empty"), p.empty.clone()), (String::from("Circle"), p.circle.clone())]
    );
    assert_eq!(
        look_up::<()>(&t, &p.point).nameable_children(&base(&t)),
        vec![(String::from("new"), p.new.clone())]
    );
}

#[test]
fn children_of_traits_and_impls() {
    let p = ids();
    let t = program(&p, ClosureKind::Fn);
    let children = |d: &DefId| look_up::<()>(&t, d).nameable_children(&base(&t));
    assert_eq!(
        children(&p.tr),
        vec![
            (String::from("Out"), p.out.clone()),
            (String::from("run"), p.run.clone()),
            (String::from("N"), p.n.clone()),
            (String::from("Gat"), p.gat.clone()),
        ]
    );
    assert_eq!(
        children(&p.imp),
        vec![
            (String::from("Out"), p.imp_out.clone()),
            (String::from("run"), p.imp_run.clone()),
            (String::from("N"), p.n.clone()),
            (String::from("Gat"), p.gat.clone()),
        ]
    );
    assert_eq!(names(children(&p.inherent)), vec!["new"]);
}

#[test]
fn other_definitions_have_no_children() {
    let p = ids();
    let t = program(&p, ClosureKind::Fn);
    for d in [&p.main, &p.konst, &p.closure, &p.generic, &p.foreign] {
        assert!(look_up::<()>(&t, d).nameable_children(&base(&t)).is_empty());
    }
    let c = look_up::<()>(&t, &promoted(&p.main, 0));
    assert!(c.nameable_children(&base(&t)).is_empty());
}

#[test]
fn promoted_constants_do_not_have_the_children_of_their_definition() {
    let p = ids();
    let t = program(&p, ClosureKind::Fn);
    let mut def = FullDef::clone(&look_up::<()>(&t, &p.konst));
    // The inherent items of a type are its own, not those of a constant lifted out of it.
    def.def_id = p.point.clone();
    assert_eq!(names(def.nameable_children(&base(&t))), vec!["new"]);
    def.def_id = promoted(&p.point, 0);
    assert!(def.nameable_children(&base(&t)).is_empty());
}
