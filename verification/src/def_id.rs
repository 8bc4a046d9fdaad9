//! Definitions: their kinds and their identifiers.
use std::sync::Arc;
use vstd::prelude::*;

verus! {

/// What a constructor builds.
#[derive(Clone, Copy, PartialEq, Eq, Structural, Debug)]
pub enum CtorOf {
    /// A tuple or unit struct.
    Struct,
    /// A tuple or unit enum variant.
    Variant,
}

/// How a constructor is used.
#[derive(Clone, Copy, PartialEq, Eq, Structural, Debug)]
pub enum CtorKind {
    /// As a function: `Some(x)`.
    Fn,
    /// As a constant: `None`.
    Const,
}

/// The way a macro is invoked.
#[derive(Clone, Copy, PartialEq, Eq, Structural, Debug)]
pub enum MacroKind {
    Bang,
    Attr,
    Derive,
}

#[derive(Clone, Copy, PartialEq, Eq, Structural, Debug)]
pub enum Safety {
    Unsafe,
    Safe,
}

#[derive(Clone, Copy, PartialEq, Eq, Structural, Debug)]
pub enum Mutability {
    Not,
    Mut,
}

/// The kind of a definition.
#[derive(Clone, Copy, PartialEq, Eq, Structural, Debug)]
pub enum DefKind {
    Mod,
    Struct,
    Union,
    Enum,
    Variant,
    Trait,
    TyAlias,
    ForeignTy,
    TraitAlias,
    AssocTy,
    TyParam,
    Fn,
    Const,
    ConstParam,
    Static { safety: Safety, mutability: Mutability, nested: bool },
    Ctor(CtorOf, CtorKind),
    AssocFn,
    AssocConst,
    Macro(MacroKind),
    ExternCrate,
    Use,
    ForeignMod,
    AnonConst,
    InlineConst,
    OpaqueTy,
    Field,
    LifetimeParam,
    GlobalAsm,
    Impl { of_trait: bool },
    Closure,
    SyntheticCoroutineBody,
    /// A constant that the compiler lifted out of a body. The compiler has no definition of its
    /// own for it: it is found through the definition whose body it was lifted out of.
    PromotedConst,
}

impl DefKind {
    /// The kinds whose definitions can carry a visibility modifier. The compiler gives no
    /// visibility for the others.
    pub open spec fn spec_has_visibility(self) -> bool {
        match self {
            DefKind::AssocConst
            | DefKind::AssocFn
            | DefKind::Const
            | DefKind::Enum
            | DefKind::Field
            | DefKind::Fn
            | DefKind::ForeignTy
            | DefKind::Macro(_)
            | DefKind::Mod
            | DefKind::Static { .. }
            | DefKind::Struct
            | DefKind::Trait
            | DefKind::TraitAlias
            | DefKind::TyAlias
            | DefKind::Union
            | DefKind::Use
            | DefKind::Variant => true,
            _ => false,
        }
    }

    pub fn has_visibility(&self) -> (r: bool)
        ensures
            r == self.spec_has_visibility(),
    {
        match self {
            DefKind::AssocConst
            | DefKind::AssocFn
            | DefKind::Const
            | DefKind::Enum
            | DefKind::Field
            | DefKind::Fn
            | DefKind::ForeignTy
            | DefKind::Macro(_)
            | DefKind::Mod
            | DefKind::Static { .. }
            | DefKind::Struct
            | DefKind::Trait
            | DefKind::TraitAlias
            | DefKind::TyAlias
            | DefKind::Union
            | DefKind::Use
            | DefKind::Variant => true,
            DefKind::AnonConst
            | DefKind::AssocTy
            | DefKind::Closure
            | DefKind::ConstParam
            | DefKind::Ctor(..)
            | DefKind::ExternCrate
            | DefKind::ForeignMod
            | DefKind::GlobalAsm
            | DefKind::Impl { .. }
            | DefKind::InlineConst
            | DefKind::LifetimeParam
            | DefKind::OpaqueTy
            | DefKind::SyntheticCoroutineBody
            | DefKind::TyParam
            | DefKind::PromotedConst => false,
        }
    }

    /// The kinds for which the compiler can be asked for attributes.
    pub open spec fn spec_has_attributes(self) -> bool {
        !(self == DefKind::ConstParam || self == DefKind::LifetimeParam || self == DefKind::TyParam
            || self == DefKind::ForeignMod)
    }

    pub fn has_attributes(&self) -> (r: bool)
        ensures
            r == self.spec_has_attributes(),
    {
        match self {
            DefKind::ConstParam | DefKind::LifetimeParam | DefKind::TyParam
            | DefKind::ForeignMod => false,
            _ => true,
        }
    }

    /// The kinds of associated items.
    pub open spec fn spec_is_assoc(self) -> bool {
        self == DefKind::AssocTy || self == DefKind::AssocFn || self == DefKind::AssocConst
    }

    /// The kinds whose full definition holds generics and predicates.
    pub open spec fn spec_has_param_env(self) -> bool {
        match self {
            DefKind::Struct
            | DefKind::Union
            | DefKind::Enum
            | DefKind::Trait
            | DefKind::TraitAlias
            | DefKind::TyAlias
            | DefKind::AssocTy
            | DefKind::Fn
            | DefKind::AssocFn
            | DefKind::Const
            | DefKind::AnonConst
            | DefKind::InlineConst
            | DefKind::AssocConst
            | DefKind::Static { .. }
            | DefKind::Impl { .. } => true,
            _ => false,
        }
    }

    pub fn has_param_env(&self) -> (r: bool)
        ensures
            r == self.spec_has_param_env(),
    {
        match self {
            DefKind::Struct
            | DefKind::Union
            | DefKind::Enum
            | DefKind::Trait
            | DefKind::TraitAlias
            | DefKind::TyAlias
            | DefKind::AssocTy
            | DefKind::Fn
            | DefKind::AssocFn
            | DefKind::Const
            | DefKind::AnonConst
            | DefKind::InlineConst
            | DefKind::AssocConst
            | DefKind::Static { .. }
            | DefKind::Impl { .. } => true,
            _ => false,
        }
    }

    /// The kinds whose definitions imply predicates wherever they are mentioned.
    pub open spec fn spec_has_implied_predicates(self) -> bool {
        self == DefKind::Trait || self == DefKind::TraitAlias || self == DefKind::AssocTy
    }

    pub fn has_implied_predicates(&self) -> (r: bool)
        ensures
            r == self.spec_has_implied_predicates(),
    {
        match self {
            DefKind::Trait | DefKind::TraitAlias | DefKind::AssocTy => true,
            _ => false,
        }
    }
}

/// The number of a promoted constant among those of one body.
#[derive(Clone, Copy, PartialEq, Eq, Structural, Debug)]
pub struct PromotedId {
    pub id: u32,
}

/// The crate being compiled.
pub const LOCAL_CRATE: u32 = 0;

/// Identifies a definition. It carries the kind of the definition and the identifier of the
/// definition that encloses it.
#[derive(PartialEq, Debug)]
pub struct DefId {
    pub krate: u32,
    pub index: u32,
    /// Set for a promoted constant; `krate` and `index` are then those of the definition whose
    /// body it comes from, and `parent` is that definition.
    pub promoted: Option<PromotedId>,
    pub parent: Option<Arc<DefId>>,
    pub kind: DefKind,
}

impl Clone for DefId {
    fn clone(&self) -> (r: Self)
        ensures
            r == *self,
    {
        let parent = match &self.parent {
            Some(p) => Some(p.clone()),
            None => None,
        };
        DefId {
            krate: self.krate,
            index: self.index,
            promoted: self.promoted,
            parent,
            kind: self.kind,
        }
    }
}

impl DefId {
    /// The number under which the compiler's answers about the definition are filed. A promoted
    /// constant has the number of the definition whose body it comes from.
    pub open spec fn spec_key(self) -> u64 {
        (self.krate * 0x1_0000_0000 + self.index) as u64
    }

    /// A promoted constant points to the definition whose body it comes from, which is neither a
    /// promoted constant nor a block of foreign items.
    pub open spec fn wf(self) -> bool {
        match self.promoted {
            None => self.kind != DefKind::PromotedConst,
            Some(_) => {
                &&& self.kind == DefKind::PromotedConst
                &&& self.parent is Some
                &&& self.parent->0.promoted is None
                &&& self.parent->0.kind != DefKind::PromotedConst
                &&& self.parent->0.kind != DefKind::ForeignMod
                &&& self.parent->0.krate == self.krate
                &&& self.parent->0.index == self.index
            },
        }
    }

    pub fn is_wf(&self) -> (r: bool)
        ensures
            r == self.wf(),
    {
        match self.promoted {
            None => self.kind != DefKind::PromotedConst,
            Some(_) => match &self.parent {
                None => false,
                Some(p) => self.kind == DefKind::PromotedConst && p.promoted.is_none() && p.kind
                    != DefKind::PromotedConst && p.kind != DefKind::ForeignMod && p.krate
                    == self.krate && p.index == self.index,
            },
        }
    }

    /// The definition that the compiler knows: the definition itself, or, for a promoted constant,
    /// the one whose body it comes from.
    pub open spec fn spec_underlying(self) -> DefId {
        match self.promoted {
            None => self,
            Some(_) => *self.parent->0,
        }
    }

    pub open spec fn spec_is_local(self) -> bool {
        self.krate == LOCAL_CRATE
    }

    /// The number under which the compiler's answers about the definition are filed.
    pub fn key(&self) -> (r: u64)
        ensures
            r == self.spec_key(),
    {
        self.krate as u64 * 0x1_0000_0000 + self.index as u64
    }

    /// Whether the definition belongs to the crate being compiled.
    pub fn is_local(&self) -> (r: bool)
        ensures
            r == self.spec_is_local(),
    {
        self.krate == LOCAL_CRATE
    }

    /// The number of this promoted constant, if it is one.
    pub fn promoted_id(&self) -> (r: Option<PromotedId>)
        ensures
            r == self.promoted,
    {
        self.promoted
    }

    pub open spec fn spec_as_rust_def_id(self) -> Option<DefId> {
        if self.promoted is None {
            Some(self)
        } else {
            None
        }
    }

    /// The identifier itself, unless it is that of a promoted constant.
    pub fn as_rust_def_id(&self) -> (r: Option<DefId>)
        ensures
            r == self.spec_as_rust_def_id(),
    {
        match self.promoted {
            None => Some(self.clone()),
            Some(_) => None,
        }
    }

    /// The definition that the compiler knows: the definition itself, or, for a promoted constant,
    /// the one whose body it comes from.
    pub fn underlying_rust_def_id(&self) -> (r: DefId)
        requires
            self.wf(),
        ensures
            r == self.spec_underlying(),
    {
        match self.promoted {
            None => self.clone(),
            Some(_) => match &self.parent {
                Some(p) => (**p).clone(),
                None => self.clone(),
            },
        }
    }

    /// Whether both identifiers agree, in themselves and in all that encloses them.
    pub fn same(&self, other: &DefId) -> (r: bool)
        ensures
            r == (*self == *other),
        decreases self,
    {
        let promoted_agree = match (self.promoted, other.promoted) {
            (None, None) => true,
            (Some(a), Some(b)) => a.id == b.id,
            _ => false,
        };
        let parents_agree = match (&self.parent, &other.parent) {
            (None, None) => true,
            (Some(a), Some(b)) => (**a).same(&**b),
            _ => false,
        };
        promoted_agree && parents_agree && self.krate == other.krate && self.index == other.index
            && self.kind == other.kind
    }
}

} // verus!
