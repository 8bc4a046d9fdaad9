//! Exporting the compiler's values.
use crate::def_id::DefId;
use crate::rustc_utils::translate_span;
use crate::span::{RSpan, Span};
use crate::state::State;
use crate::ty::{
    AssocItem, Clause, ClosureArgs, DiscriminantValue, FieldDef, GenericPredicates, Ident,
    PolyFnSig, RAssocItem, RClause, RClosureArgs, RDiscr, RFieldDef, RGenerics, RIdent, RPolyFnSig,
    RTraitRef, RTy, RVariantDef, TraitRef, Ty, TyGenerics, VariantDef,
};
use std::sync::Arc;
use vstd::prelude::*;

verus! {

impl<'a> State<'a> {
    pub open spec fn spec_ty(self, ty: RTy) -> Ty {
        Ty { scope: self.spec_scope(), ty }
    }

    pub fn ty(&self, ty: &RTy) -> (r: Ty)
        ensures
            r == self.spec_ty(*ty),
    {
        Ty { scope: self.scope(), ty: ty.clone() }
    }

    pub open spec fn spec_trait_ref(self, t: RTraitRef) -> TraitRef {
        TraitRef { scope: self.spec_scope(), def_id: t.def_id, generic_args: t.args }
    }

    pub fn trait_ref(&self, t: &RTraitRef) -> (r: TraitRef)
        ensures
            r == self.spec_trait_ref(*t),
    {
        TraitRef {
            scope: self.scope(),
            def_id: t.def_id.clone(),
            generic_args: t.args.clone(),
        }
    }

    pub open spec fn spec_poly_fn_sig(self, sig: RPolyFnSig) -> PolyFnSig {
        PolyFnSig { scope: self.spec_scope(), sig }
    }

    pub fn poly_fn_sig(&self, sig: &RPolyFnSig) -> (r: PolyFnSig)
        ensures
            r == self.spec_poly_fn_sig(*sig),
    {
        PolyFnSig { scope: self.scope(), sig: sig.clone() }
    }

    pub open spec fn spec_clause(self, clause: RClause) -> Clause {
        Clause { scope: self.spec_scope(), clause }
    }

    /// `p` is the export of `predicates`, in order.
    pub open spec fn are_predicates(
        self,
        p: GenericPredicates,
        predicates: Seq<(RClause, RSpan)>,
    ) -> bool {
        &&& p.predicates@.len() == predicates.len()
        &&& forall|i: int|
            0 <= i < predicates.len() ==> (#[trigger] p.predicates@[i]) == (
                self.spec_clause(predicates[i].0),
                predicates[i].1.spec_span(),
            )
    }

    pub fn predicates(&self, predicates: &Vec<(RClause, RSpan)>) -> (r: GenericPredicates)
        ensures
            self.are_predicates(r, predicates@),
    {
        let mut out: Vec<(Clause, Span)> = Vec::new();
        let mut i: usize = 0;
        while i < predicates.len()
            invariant
                i <= predicates@.len(),
                out@.len() == i,
                forall|k: int|
                    0 <= k < i ==> (#[trigger] out@[k]) == (
                        self.spec_clause(predicates@[k].0),
                        predicates@[k].1.spec_span(),
                    ),
            decreases predicates.len() - i,
        {
            let p = &predicates[i];
            out.push(
                (Clause { scope: self.scope(), clause: p.0.clone() }, translate_span(&p.1)),
            );
            i = i + 1;
        }
        GenericPredicates { predicates: out }
    }

    pub open spec fn spec_closure_args(
        self,
        def_id: DefId,
        closure: Arc<RClosureArgs>,
    ) -> ClosureArgs {
        ClosureArgs { scope: self.spec_scope(), def_id, args: closure }
    }

    pub fn closure_args(&self, def_id: &DefId, closure: &Arc<RClosureArgs>) -> (r: ClosureArgs)
        ensures
            r == self.spec_closure_args(*def_id, *closure),
    {
        ClosureArgs { scope: self.scope(), def_id: def_id.clone(), args: closure.clone() }
    }

    pub open spec fn spec_field_def(self, f: RFieldDef) -> FieldDef {
        FieldDef {
            did: f.did,
            name: f.name,
            vis: f.vis,
            ty: self.spec_ty(f.ty),
            span: f.span.spec_span(),
        }
    }

    pub open spec fn are_field_defs(self, out: Seq<FieldDef>, fields: Seq<RFieldDef>) -> bool {
        &&& out.len() == fields.len()
        &&& forall|i: int|
            0 <= i < fields.len() ==> (#[trigger] out[i]) == self.spec_field_def(fields[i])
    }

    pub fn field_defs(&self, fields: &Vec<RFieldDef>) -> (r: Vec<FieldDef>)
        ensures
            self.are_field_defs(r@, fields@),
    {
        let mut out: Vec<FieldDef> = Vec::new();
        let mut i: usize = 0;
        while i < fields.len()
            invariant
                i <= fields@.len(),
                out@.len() == i,
                forall|k: int|
                    0 <= k < i ==> (#[trigger] out@[k]) == self.spec_field_def(fields@[k]),
            decreases fields.len() - i,
        {
            let f = &fields[i];
            out.push(
                FieldDef {
                    did: f.did.clone(),
                    name: f.name.clone(),
                    vis: f.vis.clone(),
                    ty: self.ty(&f.ty),
                    span: translate_span(&f.span),
                },
            );
            i = i + 1;
        }
        out
    }

    /// `out` is the export of the variant `v`, with `discr` for its discriminant.
    pub open spec fn is_variant_def(self, out: VariantDef, v: RVariantDef, discr: RDiscr) -> bool {
        &&& out.def_id == v.def_id
        &&& out.ctor == v.ctor
        &&& out.name == v.name
        &&& out.discr_def == v.discr
        &&& out.discr_val == (DiscriminantValue { val: discr.val, ty: self.spec_ty(discr.ty) })
        &&& self.are_field_defs(out.fields@, v.fields@)
    }

    pub fn variant_def(&self, v: &RVariantDef, discr: &RDiscr) -> (r: VariantDef)
        ensures
            self.is_variant_def(r, *v, *discr),
    {
        let ctor = match &v.ctor {
            None => None,
            Some(c) => Some((c.0, c.1.clone())),
        };
        VariantDef {
            def_id: v.def_id.clone(),
            ctor,
            name: v.name.clone(),
            discr_def: v.discr.clone(),
            discr_val: DiscriminantValue { val: discr.val, ty: self.ty(&discr.ty) },
            fields: self.field_defs(&v.fields),
        }
    }

    pub open spec fn spec_assoc_item(self, item: RAssocItem) -> AssocItem {
        AssocItem {
            def_id: item.def_id,
            name: item.spec_opt_name(),
            kind: item.kind,
            container: item.container,
            trait_item_def_id: item.trait_item_def_id,
            has_value: self.base.tcx.data(item.def_id).defaultness->0.spec_has_value(),
        }
    }

    pub fn assoc_item(&self, item: &RAssocItem) -> (r: AssocItem)
        requires
            self.base.tcx.sorted(),
            self.base.tcx.has(item.def_id),
            self.base.tcx.data(item.def_id).defaultness is Some,
        ensures
            r == self.spec_assoc_item(*item),
    {
        AssocItem {
            def_id: item.def_id.clone(),
            name: item.opt_name(),
            kind: item.kind.clone(),
            container: item.container,
            trait_item_def_id: item.trait_item_def_id.clone(),
            has_value: self.base.tcx.defaultness(&item.def_id).has_value(),
        }
    }
}

/// `g` is the export of the generics `r`.
pub open spec fn are_generics(g: TyGenerics, r: RGenerics) -> bool {
    &&& g.parent == r.parent
    &&& g.parent_count == r.parent_count
    &&& g.params@ == r.own_params@
    &&& g.has_self == r.has_self
    &&& g.has_late_bound_regions == (match r.has_late_bound_regions {
        None => None,
        Some(span) => Some(span.spec_span()),
    })
}

pub fn ty_generics(g: &RGenerics) -> (r: TyGenerics)
    ensures
        are_generics(r, *g),
{
    let params = g.own_params.clone();
    assert(params@ =~= g.own_params@);
    let has_late_bound_regions = match &g.has_late_bound_regions {
        None => None,
        Some(span) => Some(translate_span(span)),
    };
    TyGenerics {
        parent: g.parent.clone(),
        parent_count: g.parent_count,
        params,
        has_self: g.has_self,
        has_late_bound_regions,
    }
}

pub open spec fn spec_ident(ident: Option<RIdent>) -> Option<Ident> {
    match ident {
        None => None,
        Some(i) => Some((i.name, i.span.spec_span())),
    }
}

/// Exports named definitions, names and all.
pub fn named_def_ids(items: &Vec<(Option<RIdent>, DefId)>) -> (r: Vec<(Option<Ident>, DefId)>)
    ensures
        r@.len() == items@.len(),
        forall|i: int|
            0 <= i < items@.len() ==> (#[trigger] r@[i]) == (
                spec_ident(items@[i].0),
                items@[i].1,
            ),
{
    let mut out: Vec<(Option<Ident>, DefId)> = Vec::new();
    let mut i: usize = 0;
    while i < items.len()
        invariant
            i <= items@.len(),
            out@.len() == i,
            forall|k: int|
                0 <= k < i ==> (#[trigger] out@[k]) == (spec_ident(items@[k].0), items@[k].1),
        decreases items.len() - i,
    {
        let item = &items[i];
        let ident = match &item.0 {
            None => None,
            Some(ident) => Some((ident.name.clone(), translate_span(&ident.span))),
        };
        out.push((ident, item.1.clone()));
        i = i + 1;
    }
    out
}

} // verus!
