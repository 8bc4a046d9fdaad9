//! Predicates and the implementations that satisfy them.
use crate::def_id::DefId;
use crate::span::RSpan;
use crate::state::State;
use crate::tcx::TyCtxt;
use crate::ty::{
    GenericArg, GenericArgsRef, ImplExpr, RClause, RGenerics, RPolyTraitRef, Scope,
};
use std::sync::Arc;
use vstd::prelude::*;

verus! {

impl TyCtxt {
    pub open spec fn spec_required_predicates(self, id: DefId, add_drop: bool) -> Seq<
        (RClause, RSpan),
    > {
        if add_drop {
            self.data(id).required_predicates_with_drop@
        } else {
            self.data(id).required_predicates@
        }
    }

    /// The predicates that have to hold to mention a definition, with `Drop` bounds if `add_drop`.
    pub fn required_predicates(&self, id: &DefId, add_drop: bool) -> (r: &Vec<(RClause, RSpan)>)
        requires
            self.sorted(),
            self.has(*id),
        ensures
            r@ == self.spec_required_predicates(*id, add_drop),
    {
        let d = self.get(id);
        if add_drop {
            &d.required_predicates_with_drop
        } else {
            &d.required_predicates
        }
    }

    pub open spec fn spec_implied_predicates(self, id: DefId, add_drop: bool) -> Seq<
        (RClause, RSpan),
    > {
        if add_drop {
            self.data(id).implied_predicates_with_drop@
        } else {
            self.data(id).implied_predicates@
        }
    }

    /// The predicates that hold wherever a definition is mentioned, with `Drop` bounds if
    /// `add_drop`.
    pub fn implied_predicates(&self, id: &DefId, add_drop: bool) -> (r: &Vec<(RClause, RSpan)>)
        requires
            self.sorted(),
            self.has(*id),
        ensures
            r@ == self.spec_implied_predicates(*id, add_drop),
    {
        let d = self.get(id);
        if add_drop {
            &d.implied_predicates_with_drop
        } else {
            &d.implied_predicates
        }
    }
}

/// The trait references that the predicates ask for, in order.
pub open spec fn trait_goals(predicates: Seq<(RClause, RSpan)>) -> Seq<RPolyTraitRef>
    decreases predicates.len(),
{
    if predicates.len() == 0 {
        Seq::empty()
    } else {
        let rest = trait_goals(predicates.drop_last());
        match predicates.last().0 {
            RClause::Trait(t) => rest.push(t),
            RClause::Other(_) => rest,
        }
    }
}

/// `exprs` are the implementations found in `scope` for `goals`, one each, with `args` for the
/// generics of the definition that the goals come from.
pub open spec fn are_impl_exprs(
    exprs: Seq<ImplExpr>,
    scope: Scope,
    goals: Seq<RPolyTraitRef>,
    args: Seq<GenericArg>,
) -> bool {
    &&& exprs.len() == goals.len()
    &&& forall|i: int|
        0 <= i < exprs.len() ==> {
            &&& (#[trigger] exprs[i]).scope == scope
            &&& exprs[i].trait_ref == goals[i]
            &&& exprs[i].args@ == args
        }
}

/// `exprs` are the implementations, found in `scope`, for what `item` implies when its generics are
/// `args`.
pub open spec fn are_implied_impl_exprs_in(
    exprs: Seq<ImplExpr>,
    s: State,
    scope: Scope,
    item: DefId,
    args: Seq<GenericArg>,
) -> bool {
    are_impl_exprs(
        exprs,
        scope,
        trait_goals(
            s.base.tcx.spec_implied_predicates(item, s.base.options.resolve_drop_bounds),
        ),
        args,
    )
}

/// `exprs` are the implementations, found where `s` is, for what `item` implies when its generics
/// are `args`.
pub open spec fn are_implied_impl_exprs(
    exprs: Seq<ImplExpr>,
    s: State,
    item: DefId,
    args: Seq<GenericArg>,
) -> bool {
    are_implied_impl_exprs_in(exprs, s, s.spec_scope(), item, args)
}

/// The implementations that satisfy what `item` implies, with `args` for its generics.
pub fn solve_item_implied_traits(s: &State, item: &DefId, args: &GenericArgsRef) -> (r: Vec<
    ImplExpr,
>)
    requires
        s.base.tcx.sorted(),
        s.base.tcx.has(*item),
    ensures
        are_implied_impl_exprs(r@, *s, *item, args@),
{
    solve_item_implied_traits_in(s, &s.scope(), item, args)
}

/// The implementations that satisfy, in `scope`, what `item` implies, with `args` for its generics.
pub fn solve_item_implied_traits_in(
    s: &State,
    scope: &Scope,
    item: &DefId,
    args: &GenericArgsRef,
) -> (r: Vec<ImplExpr>)
    requires
        s.base.tcx.sorted(),
        s.base.tcx.has(*item),
    ensures
        are_implied_impl_exprs_in(r@, *s, *scope, *item, args@),
{
    let predicates = s.base.tcx.implied_predicates(item, s.base.options.resolve_drop_bounds);
    let mut exprs: Vec<ImplExpr> = Vec::new();
    let mut i: usize = 0;
    while i < predicates.len()
        invariant
            i <= predicates@.len(),
            are_impl_exprs(
                exprs@,
                *scope,
                trait_goals(predicates@.take(i as int)),
                args@,
            ),
        decreases predicates.len() - i,
    {
        let ghost next = predicates@.take(i + 1);
        assert(next.drop_last() =~= predicates@.take(i as int));
        assert(next.last() == predicates@[i as int]);
        match &predicates[i].0 {
            RClause::Trait(t) => {
                exprs.push(
                    ImplExpr { scope: scope.clone(), trait_ref: t.clone(), args: args.clone() },
                );
            },
            RClause::Other(_) => {},
        }
        i = i + 1;
    }
    assert(predicates@.take(i as int) =~= predicates@);
    exprs
}

/// `args` with the arguments that belong to a definition with `ancestor_count` parameters replaced
/// by `target`.
pub open spec fn spec_rebase_onto(
    args: Seq<GenericArg>,
    ancestor_count: int,
    target: Seq<GenericArg>,
) -> Seq<GenericArg> {
    if ancestor_count <= args.len() {
        target + args.skip(ancestor_count)
    } else {
        target
    }
}

/// Moves `args` from the generics of `ancestor` to other ones: `target`, followed by those of
/// `args` that are left when the parameters of `ancestor` are taken off its front.
pub fn rebase_onto(args: &GenericArgsRef, ancestor: &RGenerics, target: &GenericArgsRef) -> (r:
    GenericArgsRef)
    requires
        ancestor.spec_count() <= usize::MAX,
    ensures
        r@ == spec_rebase_onto(args@, ancestor.spec_count(), target@),
{
    let own: &Vec<GenericArg> = args;
    let mut out: Vec<GenericArg> = (**target).clone();
    assert(out@ =~= target@);
    let count: usize = ancestor.count();
    let mut i: usize = count;
    while i < own.len()
        invariant
            own@ == args@,
            count == ancestor.spec_count(),
            count <= i,
            i <= own@.len() || i == count,
            out@ == (if i <= own@.len() {
                target@ + own@.subrange(count as int, i as int)
            } else {
                target@
            }),
        decreases own.len() - i,
    {
        out.push(own[i].clone());
        i = i + 1;
        assert(own@.subrange(count as int, i as int) =~= own@.subrange(
            count as int,
            i - 1,
        ).push(own@[i - 1]));
    }
    proof {
        if count <= own@.len() {
            assert(own@.subrange(count as int, i as int) =~= own@.skip(count as int));
        }
    }
    Arc::new(out)
}

} // verus!
