//! Bodies of definitions.
use crate::def_id::{DefId, PromotedId};
use crate::state::State;
use crate::ty::{RClosureArgs, RTy, Scope};
use std::sync::Arc;
use vstd::prelude::*;

verus! {

/// A body that the compiler can be asked for.
#[derive(Clone, PartialEq, Debug)]
pub enum RMir {
    /// The code that drops a value of type `ty`.
    DropGlue { drop_in_place: DefId, ty: RTy },
    /// The `call_once` method of a closure that can be called more than once.
    ClosureOnceShim { closure: DefId, args: Arc<RClosureArgs> },
    /// A promoted constant of a definition.
    Promoted { def_id: DefId, promoted: PromotedId },
}

/// A form in which bodies are exported.
pub trait IsBody: Sized {
    spec fn spec_body(def_id: DefId, s: State) -> Option<Self>;

    /// The body of a definition, if there is one in this form.
    fn body(def_id: &DefId, s: &State) -> (r: Option<Self>)
        ensures
            r == Self::spec_body(*def_id, *s),
    ;

    spec fn spec_from_mir(s: State, mir: RMir) -> Option<Self>;

    /// The given body in this form, if it has one.
    fn from_mir(s: &State, mir: RMir) -> (r: Option<Self>)
        ensures
            r == Self::spec_from_mir(*s, mir),
    ;
}

/// The form that says nothing about a body.
impl IsBody for () {
    open spec fn spec_body(def_id: DefId, s: State) -> Option<Self> {
        Some(())
    }

    fn body(def_id: &DefId, s: &State) -> (r: Option<Self>) {
        Some(())
    }

    open spec fn spec_from_mir(s: State, mir: RMir) -> Option<Self> {
        Some(())
    }

    fn from_mir(s: &State, mir: RMir) -> (r: Option<Self>) {
        Some(())
    }
}

/// A body of the compiler, with the scope it is to be read in. Only bodies that are given are
/// exported in this form: the body of a definition is not looked up.
#[derive(Clone, PartialEq, Debug)]
pub struct MirBody {
    pub scope: Scope,
    pub mir: RMir,
}

impl IsBody for MirBody {
    open spec fn spec_body(def_id: DefId, s: State) -> Option<Self> {
        None
    }

    fn body(def_id: &DefId, s: &State) -> (r: Option<Self>) {
        None
    }

    open spec fn spec_from_mir(s: State, mir: RMir) -> Option<Self> {
        Some(MirBody { scope: s.spec_scope(), mir })
    }

    fn from_mir(s: &State, mir: RMir) -> (r: Option<Self>) {
        Some(MirBody { scope: s.scope(), mir })
    }
}

} // verus!
