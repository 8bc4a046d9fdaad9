//! What is asked of the compiler, and under which conditions.
use crate::body::RMir;
use crate::def_id::{DefId, DefKind};
use crate::number::{is_u64_text, parses_as_u64};
use crate::span::{RSpan, Span};
use crate::state::State;
use crate::tcx::{DefData, HirId, HirItem, HirItemKind, HirNode, ModChild, RParamEnv, TyCtxt};
use crate::traits::{rebase_onto, spec_rebase_onto};
use crate::ty::{
    AdtKind, AssocItemContainer, Attribute, ClosureKind, GenericArg, RAdtDef, RFieldDef, RIdent,
    RPolyFnSig, RTy,
};
use vstd::prelude::*;

verus! {

/// A place in the source text, from what the source map of the session answers about it.
pub fn translate_span(span: &RSpan) -> (r: Span)
    ensures
        r == span.spec_span(),
{
    Span {
        lo: span.lo.loc(),
        hi: span.hi.loc(),
        filename: span.filename.clone(),
        rust_span_data: Some(span.data),
    }
}

/// How a variant is written.
#[derive(Clone, Copy, PartialEq, Eq, Structural, Debug)]
pub enum VariantKind {
    /// The one variant of a struct; `named` if its fields have names.
    Struct { named: bool },
    Union,
    /// A variant of an enum, by its place among them.
    Enum { index: usize, named: bool },
}

/// What is needed to refer to a variant.
#[derive(Clone, PartialEq, Debug)]
pub struct VariantInformations {
    /// The struct, union or enum.
    pub typ: DefId,
    pub variant: DefId,
    pub kind: VariantKind,
    /// What encloses the struct, union or enum.
    pub type_namespace: DefId,
}

/// Whether some of the fields has a name that is not a number.
pub open spec fn some_named(fields: Seq<RFieldDef>) -> bool {
    exists|i: int| 0 <= i < fields.len() && !is_u64_text((#[trigger] fields[i]).name@)
}

/// Whether some field of some variant has a name that is not a number.
pub open spec fn some_variant_named(adt: RAdtDef) -> bool {
    exists|v: int|
        0 <= v < adt.variants@.len() && some_named((#[trigger] adt.variants@[v]).fields@)
}

fn is_named(fields: &Vec<RFieldDef>) -> (r: bool)
    ensures
        r == some_named(fields@),
{
    let mut i: usize = 0;
    while i < fields.len()
        invariant
            i <= fields@.len(),
            forall|k: int| 0 <= k < i ==> is_u64_text((#[trigger] fields@[k]).name@),
        decreases fields.len() - i,
    {
        if !parses_as_u64(fields[i].name.as_str()) {
            assert(!is_u64_text(fields@[i as int].name@));
            return true;
        }
        i = i + 1;
    }
    false
}

fn is_any_variant_named(adt_def: &RAdtDef) -> (r: bool)
    ensures
        r == some_variant_named(*adt_def),
{
    let mut v: usize = 0;
    while v < adt_def.variants.len()
        invariant
            v <= adt_def.variants@.len(),
            forall|k: int|
                0 <= k < v ==> !some_named((#[trigger] adt_def.variants@[k]).fields@),
        decreases adt_def.variants.len() - v,
    {
        if is_named(&adt_def.variants[v].fields) {
            assert(some_named(adt_def.variants@[v as int].fields@));
            return true;
        }
        v = v + 1;
    }
    false
}

/// `r` is what is needed to refer to the given variant.
pub open spec fn is_variant_information(
    r: VariantInformations,
    adt: RAdtDef,
    variant_index: usize,
) -> bool {
    &&& r.typ == adt.did
    &&& r.variant == adt.variants@[variant_index as int].def_id
    &&& r.kind == (match adt.kind {
        AdtKind::Struct => VariantKind::Struct { named: some_variant_named(adt) },
        AdtKind::Union => VariantKind::Union,
        AdtKind::Enum => VariantKind::Enum {
            index: variant_index,
            named: some_named(adt.variants@[variant_index as int].fields@),
        },
    })
    &&& r.type_namespace == *adt.did.parent->0
}

/// What is needed to refer to a variant of a struct, union or enum that something encloses.
pub fn get_variant_information(adt_def: &RAdtDef, variant_index: usize) -> (r: VariantInformations)
    requires
        variant_index < adt_def.variants@.len(),
        adt_def.did.parent is Some,
    ensures
        is_variant_information(r, *adt_def, variant_index),
{
    let variant_def = &adt_def.variants[variant_index];
    let kind = match adt_def.kind {
        AdtKind::Struct => VariantKind::Struct { named: is_any_variant_named(adt_def) },
        AdtKind::Union => VariantKind::Union,
        AdtKind::Enum => VariantKind::Enum {
            index: variant_index,
            named: is_named(&variant_def.fields),
        },
    };
    VariantInformations {
        typ: adt_def.did.clone(),
        variant: variant_def.def_id.clone(),
        kind,
        type_namespace: (**adt_def.did.parent.as_ref().unwrap()).clone(),
    }
}

/// How far types are resolved.
#[derive(Clone, Copy, PartialEq, Eq, Structural, Debug)]
pub enum TypingMode {
    /// Down to what opaque types hide.
    PostAnalysis,
}

/// The conditions under which types are resolved.
#[derive(Clone, Copy, PartialEq, Eq, Structural, Debug)]
pub struct TypingEnv {
    pub param_env: RParamEnv,
    pub typing_mode: TypingMode,
}

/// The assumptions, for resolving types all the way.
pub open spec fn resolving_env(param_env: RParamEnv) -> TypingEnv {
    TypingEnv { param_env, typing_mode: TypingMode::PostAnalysis }
}

/// What types can be resolved under.
pub trait HasParamEnv {
    /// Whether the assumptions are known.
    spec fn answerable(&self) -> bool;

    spec fn spec_param_env(&self) -> RParamEnv;

    /// The assumptions that hold here.
    fn param_env(&self) -> (r: RParamEnv)
        requires
            self.answerable(),
        ensures
            r == self.spec_param_env(),
    ;

    /// The assumptions that hold here, for resolving types all the way.
    fn typing_env(&self) -> (r: TypingEnv)
        requires
            self.answerable(),
        ensures
            r == resolving_env(self.spec_param_env()),
    ;
}

impl<'a> HasParamEnv for State<'a> {
    open spec fn answerable(&self) -> bool {
        self.base.tcx.sorted() && self.base.tcx.has(self.owner)
    }

    open spec fn spec_param_env(&self) -> RParamEnv {
        self.base.tcx.data(self.owner).param_env
    }

    fn param_env(&self) -> (r: RParamEnv) {
        self.base.tcx.get(&self.owner).param_env
    }

    fn typing_env(&self) -> (r: TypingEnv) {
        TypingEnv { param_env: self.param_env(), typing_mode: TypingMode::PostAnalysis }
    }
}

/// A region of a body, by the number of the node that it belongs to.
#[derive(Clone, Copy, PartialEq, Eq, Structural, Debug)]
pub struct RegionScope {
    pub local_id: u32,
}

/// The attributes on the node with the given number: those that are listed first for it.
pub open spec fn node_attrs(attrs: Seq<(u32, Vec<Attribute>)>, local_id: u32) -> Seq<Attribute>
    decreases attrs.len(),
{
    if attrs.len() == 0 {
        Seq::empty()
    } else if attrs[0].0 == local_id {
        attrs[0].1@
    } else {
        node_attrs(attrs.skip(1), local_id)
    }
}

fn hir_attrs(d: &DefData, local_id: u32) -> (r: Vec<Attribute>)
    ensures
        r@ == node_attrs(d.hir_attrs@, local_id),
{
    let mut i: usize = 0;
    assert(d.hir_attrs@.skip(0) =~= d.hir_attrs@);
    while i < d.hir_attrs.len()
        invariant
            i <= d.hir_attrs@.len(),
            node_attrs(d.hir_attrs@, local_id) == node_attrs(
                d.hir_attrs@.skip(i as int),
                local_id,
            ),
        decreases d.hir_attrs.len() - i,
    {
        let ghost left = d.hir_attrs@.skip(i as int);
        assert(left[0] == d.hir_attrs@[i as int]);
        assert(left.skip(1) =~= d.hir_attrs@.skip(i + 1));
        if d.hir_attrs[i].0 == local_id {
            let attrs = d.hir_attrs[i].1.clone();
            assert(attrs@ =~= d.hir_attrs@[i as int].1@);
            return attrs;
        }
        i = i + 1;
    }
    Vec::new()
}

/// The node of the owner's syntax tree that a region belongs to.
pub open spec fn region_node(d: DefData, scope: RegionScope) -> Option<HirId> {
    match d.root_body {
        None => None,
        Some(h) => Some(HirId { owner: h.owner, local_id: scope.local_id }),
    }
}

/// The attributes on the node that a region of the owner's body belongs to.
pub open spec fn region_attrs(tcx: TyCtxt, owner: DefId, scope: RegionScope) -> Seq<Attribute> {
    match region_node(tcx.data(owner), scope) {
        None => Seq::empty(),
        Some(h) => node_attrs(tcx.data(h.owner).hir_attrs@, h.local_id),
    }
}

/// The node that a region of the owner's body belongs to, and the attributes on it. There is none
/// where the owner has no body.
pub fn attribute_from_scope(s: &State, scope: &RegionScope) -> (r: (Option<HirId>, Vec<Attribute>))
    requires
        s.base.tcx.sorted(),
        s.base.tcx.has(s.owner),
        s.base.tcx.data(s.owner).root_body matches Some(h) ==> s.base.tcx.has(h.owner),
    ensures
        r.0 == region_node(s.base.tcx.data(s.owner), *scope),
        r.1@ == region_attrs(*s.base.tcx, s.owner, *scope),
{
    let tcx = s.base.tcx;
    let hir_id = match &tcx.get(&s.owner).root_body {
        None => None,
        Some(h) => Some(HirId { owner: h.owner.clone(), local_id: scope.local_id }),
    };
    let attributes = match &hir_id {
        None => Vec::new(),
        Some(h) => hir_attrs(tcx.get(&h.owner), h.local_id),
    };
    (hir_id, attributes)
}

pub open spec fn is_type_kind(kind: DefKind) -> bool {
    kind == DefKind::Union || kind == DefKind::Struct || kind == DefKind::Enum
}

/// The definition itself if it is a struct, union or enum, else the closest of the definitions
/// that enclose it that is one.
pub open spec fn closest_type(id: DefId) -> Option<DefId>
    decreases id,
{
    if is_type_kind(id.kind) {
        Some(id)
    } else {
        match id.parent {
            None => None,
            Some(p) => closest_type(*p),
        }
    }
}

/// Gets the closest ancestor of `id` that is the id of a type. There has to be one.
pub fn get_closest_parent_type(id: &DefId) -> (r: DefId)
    requires
        closest_type(*id) is Some,
    ensures
        closest_type(*id) == Some(r),
    decreases id,
{
    match id.kind {
        DefKind::Union | DefKind::Struct | DefKind::Enum => id.clone(),
        _ => get_closest_parent_type(&**id.parent.as_ref().unwrap()),
    }
}

/// Whether the definition is public, if its kind has a meaningful visibility.
pub open spec fn spec_def_visibility(tcx: TyCtxt, def_id: DefId, def_kind: DefKind) -> Option<
    bool,
> {
    if def_kind.spec_has_visibility() {
        Some(tcx.data(def_id).visibility->0 is Public)
    } else {
        None
    }
}

/// Gets the visibility (`pub` or not) of the definition. Returns `None` for definitions that don't
/// have a meaningful visibility.
pub fn get_def_visibility(tcx: &TyCtxt, def_id: &DefId, def_kind: DefKind) -> (r: Option<bool>)
    requires
        def_kind.spec_has_visibility() ==> tcx.sorted() && tcx.has(*def_id) && tcx.data(
            *def_id,
        ).visibility is Some,
    ensures
        r == spec_def_visibility(*tcx, *def_id, def_kind),
{
    if def_kind.has_visibility() {
        Some(tcx.visibility(def_id).is_public())
    } else {
        None
    }
}

/// The attributes of the definition, if the compiler keeps some for its kind.
pub open spec fn spec_def_attrs(tcx: TyCtxt, def_id: DefId, def_kind: DefKind) -> Seq<Attribute> {
    if def_kind.spec_has_attributes() {
        tcx.data(def_id).attrs->0@
    } else {
        Seq::empty()
    }
}

/// Gets the attributes of the definition. The compiler is not asked about kinds of definitions
/// that it keeps no attributes for: they have none.
pub fn get_def_attrs(tcx: &TyCtxt, def_id: &DefId, def_kind: DefKind) -> (r: Vec<Attribute>)
    requires
        def_kind.spec_has_attributes() ==> tcx.sorted() && tcx.has(*def_id) && tcx.data(
            *def_id,
        ).attrs is Some,
    ensures
        r@ == spec_def_attrs(*tcx, *def_id, def_kind),
{
    if def_kind.has_attributes() {
        let attrs = tcx.get_attrs_unchecked(def_id).clone();
        assert(attrs@ =~= tcx.data(*def_id).attrs->0@);
        attrs
    } else {
        Vec::new()
    }
}

pub open spec fn spec_hir_items(items: Seq<HirItem>) -> Seq<(Option<RIdent>, DefId)> {
    items.map_values(|item: HirItem| (item.ident, item.def_id))
}

/// The children of a module: for a module of the crate being compiled, its items, of which not all
/// have a name; for another module, the names it offers.
pub open spec fn spec_mod_children(d: DefData) -> Seq<(Option<RIdent>, DefId)> {
    if d.def_id.spec_is_local() {
        match d.hir_node {
            Some(HirNode::Crate(items)) => spec_hir_items(items@),
            Some(HirNode::Item(HirItemKind::Mod(items))) => spec_hir_items(items@),
            _ => Seq::empty(),
        }
    } else {
        d.module_children@.map_values(|c: ModChild| (Some(c.ident), c.res->0))
    }
}

fn hir_item_ids(items: &Vec<HirItem>) -> (r: Vec<(Option<RIdent>, DefId)>)
    ensures
        r@ == spec_hir_items(items@),
{
    let mut out: Vec<(Option<RIdent>, DefId)> = Vec::new();
    let mut i: usize = 0;
    while i < items.len()
        invariant
            i <= items@.len(),
            out@ == spec_hir_items(items@.take(i as int)),
        decreases items.len() - i,
    {
        out.push((items[i].ident.clone(), items[i].def_id.clone()));
        i = i + 1;
        assert(out@ =~= spec_hir_items(items@.take(i as int)));
    }
    assert(items@.take(i as int) =~= items@);
    out
}

/// Gets the children of a module.
pub fn get_mod_children(tcx: &TyCtxt, def_id: &DefId) -> (r: Vec<(Option<RIdent>, DefId)>)
    requires
        tcx.sorted(),
        tcx.known(*def_id),
        TyCtxt::mod_children_known(tcx.data(*def_id)),
    ensures
        r@ == spec_mod_children(tcx.data(*def_id)),
{
    let d = tcx.get(def_id);
    if def_id.is_local() {
        match &d.hir_node {
            Some(HirNode::Crate(items)) => hir_item_ids(items),
            Some(HirNode::Item(HirItemKind::Mod(items))) => hir_item_ids(items),
            _ => Vec::new(),
        }
    } else {
        let children = &d.module_children;
        let mut out: Vec<(Option<RIdent>, DefId)> = Vec::new();
        let mut i: usize = 0;
        while i < children.len()
            invariant
                i <= children@.len(),
                *children == d.module_children,
                !d.def_id.spec_is_local(),
                TyCtxt::mod_children_known(*d),
                out@.len() == i,
                forall|k: int|
                    0 <= k < i ==> (#[trigger] out@[k]) == (
                        Some(children@[k].ident),
                        children@[k].res->0,
                    ),
            decreases children.len() - i,
        {
            assert(d.module_children@[i as int].res is Some);
            out.push(
                (
                    Some(children[i].ident.clone()),
                    children[i].res.as_ref().unwrap().clone(),
                ),
            );
            i = i + 1;
        }
        assert(out@ =~= spec_mod_children(*d));
        out
    }
}

/// Gets the children of a block of foreign items. Empty if the block is not defined in the current
/// crate.
pub fn get_foreign_mod_children(tcx: &TyCtxt, def_id: &DefId) -> (r: Vec<DefId>)
    requires
        tcx.sorted(),
        tcx.known(*def_id),
        TyCtxt::foreign_mod_children_known(tcx.data(*def_id)),
    ensures
        r@ == spec_foreign_mod_children(tcx.data(*def_id)),
{
    if def_id.is_local() {
        match &tcx.get(def_id).hir_node {
            Some(HirNode::Item(HirItemKind::ForeignMod(items))) => {
                let out = items.clone();
                assert(out@ =~= items@);
                out
            },
            _ => Vec::new(),
        }
    } else {
        Vec::new()
    }
}

/// The items of a block of foreign items of the current crate.
pub open spec fn spec_foreign_mod_children(d: DefData) -> Seq<DefId> {
    if d.def_id.spec_is_local() {
        match d.hir_node {
            Some(HirNode::Item(HirItemKind::ForeignMod(items))) => items@,
            _ => Seq::empty(),
        }
    } else {
        Seq::empty()
    }
}

/// The item of a trait that an associated function implements, if it stands in a trait impl.
pub open spec fn implemented_item(d: DefData) -> Option<DefId> {
    if d.associated_item->0.container == AssocItemContainer::Impl {
        d.associated_item->0.trait_item_def_id
    } else {
        None
    }
}

/// The generics of a method of a trait impl, as arguments for the generics of the method that the
/// trait declares.
pub open spec fn decl_args(tcx: TyCtxt, def_id: DefId) -> Seq<GenericArg> {
    let impl_id = *def_id.parent->0;
    spec_rebase_onto(
        tcx.data(def_id).generics->0.identity_args@,
        tcx.data(impl_id).generics->0.spec_count(),
        tcx.spec_impl_trait_ref(impl_id)->0.args@,
    )
}

/// `sig` is the signature that is exported for an associated function: the one that it declares,
/// unless it implements a method of a trait; then it is the one that the trait declares, read for
/// the impl, with anonymous bound variables.
pub open spec fn is_method_sig(sig: RPolyFnSig, tcx: TyCtxt, def_id: DefId) -> bool {
    let own = tcx.data(def_id).fn_sig->0;
    match implemented_item(tcx.data(def_id)) {
        None => sig == RPolyFnSig::Declared(own),
        Some(decl) => sig matches RPolyFnSig::Instantiated { sig: from, args, anonymized } && from
            == tcx.data(decl).fn_sig->0 && args@ == decl_args(tcx, def_id) && anonymized,
    }
}

/// The signature of a method impl may be a subtype of the one expected from the trait decl, as in
/// the example below. For correctness, we must be able to map from the method generics declared in
/// the trait to the actual method generics. Because this would require type inference, we instead
/// simply return the declared signature. This will cause issues if it is possible to use such a
/// more-specific implementation with its more-specific type, but we have a few other issues with
/// lifetime-generic function pointers anyway so this is unlikely to cause problems.
///
/// ```ignore
/// trait MyCompare<Other>: Sized {
///     fn compare(self, other: Other) -> bool;
/// }
/// impl<'a> MyCompare<&'a ()> for &'a () {
///     // This implementation is more general because it works for non-`'a` refs. Note that only
///     // late-bound vars may differ in this way.
///     // `<&'a () as MyCompare<&'a ()>>::compare` has type `fn<'b>(&'a (), &'b ()) -> bool`,
///     // but type `fn(&'a (), &'a ()) -> bool` was expected from the trait declaration.
///     fn compare<'b>(self, _other: &'b ()) -> bool {
///         true
///     }
/// }
/// ```
pub fn get_method_sig(tcx: &TyCtxt, def_id: &DefId) -> (r: RPolyFnSig)
    requires
        tcx.sorted(),
        tcx.known(*def_id),
        tcx.method_known(tcx.data(*def_id)),
    ensures
        is_method_sig(r, *tcx, *def_id),
{
    let real_sig = tcx.fn_sig(def_id);
    let item = tcx.associated_item(def_id);
    if item.container != AssocItemContainer::Impl {
        return RPolyFnSig::Declared(real_sig);
    }
    let decl_method_id = match &item.trait_item_def_id {
        None => {
            return RPolyFnSig::Declared(real_sig);
        },
        Some(decl_method_id) => decl_method_id,
    };
    let declared_sig = tcx.fn_sig(decl_method_id);
    let impl_def_id: &DefId = &**def_id.parent.as_ref().unwrap();
    // The trait predicate that is implemented by the surrounding impl block.
    let implemented_trait_ref = tcx.impl_trait_ref(impl_def_id).unwrap();
    // Construct arguments for the declared method generics in the context of the implemented
    // method generics.
    let impl_args = &tcx.generics_of(def_id).identity_args;
    let args = rebase_onto(impl_args, tcx.generics_of(impl_def_id), &implemented_trait_ref.args);
    // Anonymous variables avoid using the same lifetime name twice in the same scope (once in impl
    // parameters, second in the method declaration late-bound vars).
    RPolyFnSig::Instantiated { sig: declared_sig, args, anonymized: true }
}

/// The body of the `call_once` method of a closure.
pub open spec fn spec_closure_once_shim(closure_ty: RTy) -> Option<RMir> {
    match closure_ty {
        RTy::Closure { def_id, closure } => match closure.kind {
            ClosureKind::Fn | ClosureKind::FnMut => Some(
                RMir::ClosureOnceShim { closure: def_id, args: closure },
            ),
            ClosureKind::FnOnce => None,
        },
        _ => None,
    }
}

/// The body of the `call_once` method that a closure gets if it can be called more than once. The
/// `call_once` of any other closure is the closure itself.
pub fn closure_once_shim(closure_ty: &RTy) -> (r: Option<RMir>)
    requires
        closure_ty is Closure,
    ensures
        r == spec_closure_once_shim(*closure_ty),
{
    match closure_ty {
        RTy::Closure { def_id, closure } => match closure.kind {
            ClosureKind::Fn | ClosureKind::FnMut => Some(
                RMir::ClosureOnceShim { closure: def_id.clone(), args: closure.clone() },
            ),
            ClosureKind::FnOnce => None,
        },
        _ => None,
    }
}

/// The code that drops a value of the type that the definition declares, if it has no generics.
pub open spec fn spec_drop_glue_shim(tcx: TyCtxt, def_id: DefId) -> Option<RMir> {
    if tcx.data(def_id).generics->0.spec_count() == 0 {
        Some(
            RMir::DropGlue {
                drop_in_place: tcx.lang_items.drop_in_place->0,
                ty: tcx.data(def_id).type_of->0,
            },
        )
    } else {
        None
    }
}

/// The code that drops a value of the type that the definition declares. There is none if the
/// definition has generics, its own or those of what encloses it: the layout of the type would not
/// be known.
pub fn drop_glue_shim(tcx: &TyCtxt, def_id: &DefId) -> (r: Option<RMir>)
    requires
        tcx.sorted(),
        tcx.has(*def_id),
        tcx.lang_items.drop_in_place is Some,
        tcx.generics_known(tcx.data(*def_id)),
        tcx.data(*def_id).generics->0.spec_count() == 0 ==> tcx.data(*def_id).type_of is Some,
    ensures
        r == spec_drop_glue_shim(*tcx, *def_id),
{
    let drop_in_place = tcx.lang_items.drop_in_place.as_ref().unwrap();
    if tcx.generics_of(def_id).count() != 0 {
        return None;
    }
    let ty = tcx.type_of(def_id);
    Some(RMir::DropGlue { drop_in_place: drop_in_place.clone(), ty: ty.clone() })
}

} // verus!
