//! The children of a definition.
use crate::def_id::DefId;
use crate::full_def::{FullDef, FullDefKind, ImplAssocItem};
use crate::state::Base;
use crate::tcx::TyCtxt;
use crate::ty::{AdtKind, AssocItem, Ident, RAssocItem, Symbol, VariantDef};
use std::sync::Arc;
use vstd::prelude::*;

verus! {

/// A child and the name it is known by.
pub type Child = (Symbol, DefId);

pub open spec fn child(name: Option<Symbol>, def_id: DefId) -> Option<Child> {
    match name {
        Some(name) => Some((name, def_id)),
        None => None,
    }
}

/// The named items of a module, in order.
pub open spec fn mod_children(items: Seq<(Option<Ident>, DefId)>) -> Seq<Child> {
    items.filter_map(
        |item: (Option<Ident>, DefId)|
            child(
                match item.0 {
                    Some(ident) => Some(ident.0),
                    None => None,
                },
                item.1,
            ),
    )
}

/// The variants of an enum, in order.
pub open spec fn variant_children(variants: Seq<VariantDef>) -> Seq<Child> {
    variants.map_values(|v: VariantDef| (v.name, v.def_id))
}

/// The named items of a trait or an inherent impl, in order.
pub open spec fn assoc_children<Body>(items: Seq<(AssocItem, Arc<FullDef<Body>>)>) -> Seq<Child> {
    items.filter_map(
        |item: (AssocItem, Arc<FullDef<Body>>)| child(item.0.name, item.0.def_id),
    )
}

/// The named items of a trait impl, in order.
pub open spec fn impl_children<Body>(items: Seq<ImplAssocItem<Body>>) -> Seq<Child> {
    items.filter_map(|item: ImplAssocItem<Body>| child(item.name, item.spec_def().def_id))
}

/// The children that the full definition itself lists.
pub open spec fn own_children<Body>(kind: FullDefKind<Body>) -> Seq<Child> {
    match kind {
        FullDefKind::Mod { items } => mod_children(items@),
        FullDefKind::Adt { adt_kind, variants, .. } => if adt_kind == AdtKind::Enum {
            variant_children(variants@)
        } else {
            Seq::empty()
        },
        FullDefKind::InherentImpl { items, .. } => assoc_children(items@),
        FullDefKind::Trait { items, .. } => assoc_children(items@),
        FullDefKind::TraitImpl { items, .. } => impl_children(items@),
        _ => Seq::empty(),
    }
}

/// The named ones of the associated items, in order.
pub open spec fn named_items(items: Seq<RAssocItem>) -> Seq<Child> {
    items.filter_map(|item: RAssocItem| child(item.spec_opt_name(), item.def_id))
}

/// The named items of the impls, impl by impl.
pub open spec fn inherent_children(tcx: TyCtxt, impls: Seq<DefId>) -> Seq<Child>
    decreases impls.len(),
{
    if impls.len() == 0 {
        Seq::empty()
    } else {
        inherent_children(tcx, impls.drop_last()) + named_items(
            tcx.data(impls.last()).associated_items@,
        )
    }
}

fn list_mod_children(items: &Vec<(Option<Ident>, DefId)>) -> (r: Vec<Child>)
    ensures
        r@ == mod_children(items@),
{
    let mut children: Vec<Child> = Vec::new();
    let mut n: usize = 0;
    while n < items.len()
        invariant
            n <= items@.len(),
            children@ == mod_children(items@.take(n as int)),
        decreases items.len() - n,
    {
        assert(items@.take(n + 1).drop_last() =~= items@.take(n as int));
        if let Some(ident) = &items[n].0 {
            children.push((ident.0.clone(), items[n].1.clone()));
        }
        n = n + 1;
    }
    assert(items@.take(n as int) =~= items@);
    children
}

fn list_variant_children(variants: &Vec<VariantDef>) -> (r: Vec<Child>)
    ensures
        r@ == variant_children(variants@),
{
    let mut children: Vec<Child> = Vec::new();
    let mut n: usize = 0;
    while n < variants.len()
        invariant
            n <= variants@.len(),
            children@ =~= variant_children(variants@.take(n as int)),
        decreases variants.len() - n,
    {
        children.push((variants[n].name.clone(), variants[n].def_id.clone()));
        n = n + 1;
    }
    assert(variants@.take(n as int) =~= variants@);
    children
}

fn list_assoc_children<Body>(items: &Vec<(AssocItem, Arc<FullDef<Body>>)>) -> (r: Vec<Child>)
    ensures
        r@ == assoc_children(items@),
{
    let mut children: Vec<Child> = Vec::new();
    let mut n: usize = 0;
    while n < items.len()
        invariant
            n <= items@.len(),
            children@ == assoc_children(items@.take(n as int)),
        decreases items.len() - n,
    {
        assert(items@.take(n + 1).drop_last() =~= items@.take(n as int));
        let item = &items[n].0;
        if let Some(name) = &item.name {
            children.push((name.clone(), item.def_id.clone()));
        }
        n = n + 1;
    }
    assert(items@.take(n as int) =~= items@);
    children
}

fn list_impl_children<Body>(items: &Vec<ImplAssocItem<Body>>) -> (r: Vec<Child>)
    ensures
        r@ == impl_children(items@),
{
    let mut children: Vec<Child> = Vec::new();
    let mut n: usize = 0;
    while n < items.len()
        invariant
            n <= items@.len(),
            children@ == impl_children(items@.take(n as int)),
        decreases items.len() - n,
    {
        assert(items@.take(n + 1).drop_last() =~= items@.take(n as int));
        let item = &items[n];
        if let Some(name) = &item.name {
            children.push((name.clone(), item.def().def_id.clone()));
        }
        n = n + 1;
    }
    assert(items@.take(n as int) =~= items@);
    children
}

/// Adds the named ones of `items` to `children`.
fn add_named_items(children: &mut Vec<Child>, items: &Vec<RAssocItem>)
    ensures
        final(children)@ == old(children)@ + named_items(items@),
{
    let mut n: usize = 0;
    while n < items.len()
        invariant
            n <= items@.len(),
            children@ =~= old(children)@ + named_items(items@.take(n as int)),
        decreases items.len() - n,
    {
        assert(items@.take(n + 1).drop_last() =~= items@.take(n as int));
        let item = &items[n];
        if let Some(name) = item.opt_name() {
            children.push((name, item.def_id.clone()));
        }
        n = n + 1;
    }
    assert(items@.take(n as int) =~= items@);
}

impl<Body> FullDef<Body> {
    /// What [`FullDef::nameable_children`] lists.
    pub open spec fn spec_nameable_children(self, tcx: TyCtxt) -> Seq<Child> {
        if self.def_id.promoted is None {
            own_children(self.kind) + inherent_children(
                tcx,
                tcx.data(self.def_id).inherent_impls@,
            )
        } else {
            own_children(self.kind)
        }
    }

    /// Lists the children of this item that can be named, in the way of normal rust paths. For
    /// types, the inherent items are among them.
    pub fn nameable_children(&self, s: &Base) -> (r: Vec<(Symbol, DefId)>)
        requires
            self.def_id.promoted is None ==> {
                &&& s.tcx.sorted()
                &&& s.tcx.has(self.def_id)
                &&& forall|i: int|
                    0 <= i < s.tcx.data(self.def_id).inherent_impls@.len() ==> s.tcx.has(
                        #[trigger] s.tcx.data(self.def_id).inherent_impls@[i],
                    )
            },
        ensures
            r@ == self.spec_nameable_children(*s.tcx),
    {
        let mut children: Vec<Child> = match self.kind() {
            FullDefKind::Mod { items } => list_mod_children(items),
            FullDefKind::Adt { adt_kind: AdtKind::Enum, variants, .. } => list_variant_children(
                variants,
            ),
            FullDefKind::InherentImpl { items, .. } => list_assoc_children(items),
            FullDefKind::Trait { items, .. } => list_assoc_children(items),
            FullDefKind::TraitImpl { items, .. } => list_impl_children(items),
            _ => Vec::new(),
        };
        // Add inherent impl items if any.
        if let Some(rust_def_id) = self.def_id.as_rust_def_id() {
            let tcx = s.tcx;
            let impls = &tcx.get(&rust_def_id).inherent_impls;
            let ghost own = children@;
            let mut n: usize = 0;
            while n < impls.len()
                invariant
                    tcx.sorted(),
                    n <= impls@.len(),
                    forall|i: int| 0 <= i < impls@.len() ==> tcx.has(#[trigger] impls@[i]),
                    children@ =~= own + inherent_children(*tcx, impls@.take(n as int)),
                decreases impls.len() - n,
            {
                assert(impls@.take(n + 1).drop_last() =~= impls@.take(n as int));
                assert(tcx.has(impls@[n as int]));
                add_named_items(&mut children, tcx.associated_items(&impls[n]));
                n = n + 1;
            }
            assert(impls@.take(n as int) =~= impls@);
        }
        children
    }
}

} // verus!
