//! The state that full definitions are assembled in.
use crate::def_id::DefId;
use crate::tcx::TyCtxt;
use crate::ty::Scope;
use vstd::prelude::*;

verus! {

#[derive(Clone, Copy, PartialEq, Eq, Structural, Debug)]
pub struct Options {
    /// Whether `Drop` bounds are added to the predicates of definitions.
    pub resolve_drop_bounds: bool,
}

/// What is the same for all definitions.
#[derive(Clone, Copy)]
pub struct Base<'a> {
    pub tcx: &'a TyCtxt,
    /// Whether the type aliases in types are kept.
    pub ty_alias_mode: bool,
    pub options: Options,
}

/// The state while a definition, the owner, is looked at.
pub struct State<'a> {
    pub base: Base<'a>,
    pub owner: DefId,
}

impl<'a> Base<'a> {
    pub open spec fn spec_with_owner_id(self, owner: DefId) -> State<'a> {
        State { base: self, owner }
    }

    /// The state while `owner` is looked at.
    pub fn with_owner_id(&self, owner: &DefId) -> (r: State<'a>)
        ensures
            r == self.spec_with_owner_id(*owner),
    {
        State { base: *self, owner: owner.clone() }
    }

    pub open spec fn spec_keep_aliases(self) -> Base<'a> {
        Base { tcx: self.tcx, ty_alias_mode: true, options: self.options }
    }
}

impl<'a> State<'a> {
    /// The scope that types are read in.
    pub open spec fn spec_scope(self) -> Scope {
        Scope { owner: self.owner, item: None, ty_alias_mode: self.base.ty_alias_mode }
    }

    pub fn scope(&self) -> (r: Scope)
        ensures
            r == self.spec_scope(),
    {
        Scope {
            owner: self.owner.clone(),
            item: None,
            ty_alias_mode: self.base.ty_alias_mode,
        }
    }

    /// The scope that the default of a trait item is read in, where the owner, an impl, leaves the
    /// item to it.
    pub open spec fn spec_default_scope(self, item: DefId) -> Scope {
        Scope { owner: self.owner, item: Some(item), ty_alias_mode: self.base.ty_alias_mode }
    }

    pub fn default_scope(&self, item: &DefId) -> (r: Scope)
        ensures
            r == self.spec_default_scope(*item),
    {
        Scope {
            owner: self.owner.clone(),
            item: Some(item.clone()),
            ty_alias_mode: self.base.ty_alias_mode,
        }
    }

    pub open spec fn spec_with_base(self, base: Base<'a>) -> State<'a> {
        State { base, owner: self.owner }
    }

    /// The same state over another base.
    pub fn with_base(&self, base: Base<'a>) -> (r: State<'a>)
        ensures
            r == self.spec_with_base(base),
    {
        State { base, owner: self.owner.clone() }
    }

    /// The table is complete, and has answers about the owner.
    pub open spec fn wf(self) -> bool {
        self.base.tcx.wf() && self.base.tcx.known(self.owner)
    }
}

} // verus!
