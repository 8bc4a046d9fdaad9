//! Types, signatures, predicates and the other vocabulary of definitions.
//!
//! Names that start with `R` are the compiler's side; the others are what is exported. A type of
//! the compiler can mention the generics of the definition that is being looked at, so an exported
//! type is a compiler type together with the [`Scope`] it is to be read in.
use crate::def_id::{CtorKind, DefId, DefKind};
use crate::span::{RSpan, Span};
use std::sync::Arc;
use vstd::prelude::*;

verus! {

pub type Symbol = String;

/// Where a compiler type is to be read: the definitions whose generics it mentions, and whether the
/// type aliases in it are kept.
#[derive(PartialEq, Debug)]
pub struct Scope {
    pub owner: DefId,
    /// An item of a trait whose own parameters, if it has some, are mentioned besides the generics
    /// of the owner. The item is one that the owner, an impl, leaves to its default: its parameters
    /// stand, as it declares them, in the arguments that follow those of the trait reference.
    pub item: Option<DefId>,
    pub ty_alias_mode: bool,
}

impl Clone for Scope {
    fn clone(&self) -> (r: Self)
        ensures
            r == *self,
    {
        let item = match &self.item {
            Some(item) => Some(item.clone()),
            None => None,
        };
        Scope { owner: self.owner.clone(), item, ty_alias_mode: self.ty_alias_mode }
    }
}

/// The trait through which a closure is called.
#[derive(Clone, Copy, PartialEq, Eq, Structural, Debug)]
pub enum ClosureKind {
    Fn,
    FnMut,
    FnOnce,
}

/// The generic arguments of a closure type, taken apart.
#[derive(PartialEq, Debug)]
pub struct RClosureArgs {
    /// The number of the arguments in the compiler's interner.
    pub id: u64,
    pub parent_args: GenericArgsRef,
    pub kind: ClosureKind,
    /// The inputs of the closure's signature: one tuple of all arguments.
    pub inputs: Vec<RTy>,
    pub output: RTy,
    pub upvar_tys: Vec<RTy>,
}

/// A type of the compiler.
#[derive(PartialEq, Debug)]
pub enum RTy {
    /// A type that nothing here looks into, by its number in the compiler's interner.
    Interned(u64),
    /// A struct, union or enum with its generic arguments.
    Adt { def_id: DefId, args: GenericArgsRef },
    /// An associated type of a trait reference: `<T as Trait>::Type`.
    Projection { def_id: DefId, args: GenericArgsRef },
    Closure { def_id: DefId, closure: Arc<RClosureArgs> },
    /// `ty` with `args` put in for the generics of the definition that it was declared by.
    Instantiated { ty: Arc<RTy>, args: GenericArgsRef },
    /// The type with its free lifetimes erased.
    RegionsErased(Arc<RTy>),
}

#[derive(PartialEq, Debug)]
pub enum GenericArg {
    Lifetime(u64),
    Type(RTy),
    Const(u64),
}

pub type GenericArgsRef = Arc<Vec<GenericArg>>;

impl Clone for RTy {
    fn clone(&self) -> (r: Self)
        ensures
            r == *self,
    {
        match self {
            RTy::Interned(n) => RTy::Interned(*n),
            RTy::Adt { def_id, args } => RTy::Adt { def_id: def_id.clone(), args: args.clone() },
            RTy::Projection { def_id, args } => RTy::Projection {
                def_id: def_id.clone(),
                args: args.clone(),
            },
            RTy::Closure { def_id, closure } => RTy::Closure {
                def_id: def_id.clone(),
                closure: closure.clone(),
            },
            RTy::Instantiated { ty, args } => RTy::Instantiated {
                ty: ty.clone(),
                args: args.clone(),
            },
            RTy::RegionsErased(ty) => RTy::RegionsErased(ty.clone()),
        }
    }
}

impl Clone for GenericArg {
    fn clone(&self) -> (r: Self)
        ensures
            r == *self,
    {
        match self {
            GenericArg::Lifetime(n) => GenericArg::Lifetime(*n),
            GenericArg::Type(ty) => GenericArg::Type(ty.clone()),
            GenericArg::Const(n) => GenericArg::Const(*n),
        }
    }
}

/// A trait and the arguments it is applied to, `Self` first.
#[derive(PartialEq, Debug)]
pub struct RTraitRef {
    pub def_id: DefId,
    pub args: GenericArgsRef,
}

impl Clone for RTraitRef {
    fn clone(&self) -> (r: Self)
        ensures
            r == *self,
    {
        RTraitRef { def_id: self.def_id.clone(), args: self.args.clone() }
    }
}

/// A trait reference under a binder.
#[derive(PartialEq, Debug)]
pub struct RPolyTraitRef {
    /// Its number, binder and all, in the compiler's interner.
    pub id: u64,
    pub trait_ref: RTraitRef,
    /// Whether the trait reference mentions variables of the binder.
    pub has_escaping_bound_vars: bool,
}

impl Clone for RPolyTraitRef {
    fn clone(&self) -> (r: Self)
        ensures
            r == *self,
    {
        RPolyTraitRef {
            id: self.id,
            trait_ref: self.trait_ref.clone(),
            has_escaping_bound_vars: self.has_escaping_bound_vars,
        }
    }
}

/// A clause of a `where`, explicit or implied.
#[derive(PartialEq, Debug)]
pub enum RClause {
    /// A trait is implemented.
    Trait(RPolyTraitRef),
    /// Any other clause, by its number in the compiler's interner.
    Other(u64),
}

impl Clone for RClause {
    fn clone(&self) -> (r: Self)
        ensures
            r == *self,
    {
        match self {
            RClause::Trait(t) => RClause::Trait(t.clone()),
            RClause::Other(n) => RClause::Other(*n),
        }
    }
}

/// The signature that a function declares, by its number in the compiler's interner, and the
/// number of variables that its binder introduces.
#[derive(Clone, Copy, PartialEq, Eq, Structural, Debug)]
pub struct RFnSig {
    pub id: u64,
    pub bound_vars: usize,
}

/// A function signature under its binder.
#[derive(PartialEq, Debug)]
pub enum RPolyFnSig {
    /// The signature as it was declared.
    Declared(RFnSig),
    /// The declared signature with `args` put in for the generics of the function, and with the
    /// variables of its binder made anonymous if `anonymized`.
    Instantiated { sig: RFnSig, args: GenericArgsRef, anonymized: bool },
}

impl Clone for RPolyFnSig {
    fn clone(&self) -> (r: Self)
        ensures
            r == *self,
    {
        match self {
            RPolyFnSig::Declared(sig) => RPolyFnSig::Declared(*sig),
            RPolyFnSig::Instantiated { sig, args, anonymized } => RPolyFnSig::Instantiated {
                sig: *sig,
                args: args.clone(),
                anonymized: *anonymized,
            },
        }
    }
}

/// An identifier of the source text.
#[derive(PartialEq, Debug)]
pub struct RIdent {
    pub name: Symbol,
    pub span: RSpan,
}

impl Clone for RIdent {
    fn clone(&self) -> (r: Self)
        ensures
            r == *self,
    {
        RIdent { name: self.name.clone(), span: self.span.clone() }
    }
}

pub type Ident = (Symbol, Span);

/// An attribute: its path, and a text that shows its arguments.
#[derive(PartialEq, Debug)]
pub struct Attribute {
    pub path: String,
    pub args: String,
}

impl Clone for Attribute {
    fn clone(&self) -> (r: Self)
        ensures
            r == *self,
    {
        Attribute { path: self.path.clone(), args: self.args.clone() }
    }
}

/// Who can see a definition.
#[derive(PartialEq, Debug)]
pub enum Visibility {
    Public,
    /// Only what is inside the given module.
    Restricted(DefId),
}

impl Clone for Visibility {
    fn clone(&self) -> (r: Self)
        ensures
            r == *self,
    {
        match self {
            Visibility::Public => Visibility::Public,
            Visibility::Restricted(m) => Visibility::Restricted(m.clone()),
        }
    }
}

impl Visibility {
    pub fn is_public(&self) -> (r: bool)
        ensures
            r == (*self is Public),
    {
        match self {
            Visibility::Public => true,
            Visibility::Restricted(_) => false,
        }
    }
}

#[derive(Clone, Copy, PartialEq, Eq, Structural, Debug)]
pub enum Constness {
    Const,
    NotConst,
}

#[derive(Clone, Copy, PartialEq, Eq, Structural, Debug)]
pub enum InlineAttr {
    /// There is no such attribute.
    Absent,
    Hint,
    Always,
    Never,
    Force,
}

/// Whether an associated item has a value, and whether it can be overridden.
#[derive(Clone, Copy, PartialEq, Eq, Structural, Debug)]
pub enum Defaultness {
    Default { has_value: bool },
    Final,
}

impl Defaultness {
    pub open spec fn spec_has_value(self) -> bool {
        match self {
            Defaultness::Default { has_value } => has_value,
            Defaultness::Final => true,
        }
    }

    pub fn has_value(&self) -> (r: bool)
        ensures
            r == self.spec_has_value(),
    {
        match self {
            Defaultness::Default { has_value } => *has_value,
            Defaultness::Final => true,
        }
    }
}

#[derive(Clone, Copy, PartialEq, Eq, Structural, Debug)]
pub enum ImplPolarity {
    Positive,
    Negative,
    Reservation,
}

/// What stands after the `impl`.
#[derive(PartialEq, Debug)]
pub enum ImplSubject {
    Inherent(RTy),
    Trait(RTraitRef),
}

#[derive(PartialEq, Debug)]
pub enum AssocTypeData {
    Normal(Symbol),
    /// A type that stands for an `impl Trait` in the return type of a trait method. It has no
    /// name.
    Rpitit,
}

/// The kind of an associated item.
#[derive(PartialEq, Debug)]
pub enum AssocKind {
    Const { name: Symbol },
    Fn { name: Symbol, has_self: bool },
    Type { data: AssocTypeData },
}

impl Clone for AssocKind {
    fn clone(&self) -> (r: Self)
        ensures
            r == *self,
    {
        match self {
            AssocKind::Const { name } => AssocKind::Const { name: name.clone() },
            AssocKind::Fn { name, has_self } => AssocKind::Fn {
                name: name.clone(),
                has_self: *has_self,
            },
            AssocKind::Type { data: AssocTypeData::Normal(name) } => AssocKind::Type {
                data: AssocTypeData::Normal(name.clone()),
            },
            AssocKind::Type { data: AssocTypeData::Rpitit } => AssocKind::Type {
                data: AssocTypeData::Rpitit,
            },
        }
    }
}

impl AssocKind {
    /// Whether both are types, both functions or both constants.
    pub open spec fn spec_same_case(self, other: AssocKind) -> bool {
        match (self, other) {
            (AssocKind::Const { .. }, AssocKind::Const { .. }) => true,
            (AssocKind::Fn { .. }, AssocKind::Fn { .. }) => true,
            (AssocKind::Type { .. }, AssocKind::Type { .. }) => true,
            _ => false,
        }
    }

    pub fn same_case(&self, other: &AssocKind) -> (r: bool)
        ensures
            r == self.spec_same_case(*other),
    {
        match (self, other) {
            (AssocKind::Const { .. }, AssocKind::Const { .. }) => true,
            (AssocKind::Fn { .. }, AssocKind::Fn { .. }) => true,
            (AssocKind::Type { .. }, AssocKind::Type { .. }) => true,
            _ => false,
        }
    }
}

#[derive(Clone, Copy, PartialEq, Eq, Structural, Debug)]
pub enum AssocItemContainer {
    Trait,
    Impl,
}

/// An associated item of the compiler.
#[derive(PartialEq, Debug)]
pub struct RAssocItem {
    pub def_id: DefId,
    pub kind: AssocKind,
    pub container: AssocItemContainer,
    /// For an item of a trait: the item itself. For an item of a trait impl: the item of the trait
    /// that it implements.
    pub trait_item_def_id: Option<DefId>,
}

impl RAssocItem {
    /// Whether this is an item of the given kind of definition: an associated type, function or
    /// constant.
    pub open spec fn spec_is_of_kind(self, kind: DefKind) -> bool {
        match self.kind {
            AssocKind::Const { .. } => kind == DefKind::AssocConst,
            AssocKind::Fn { .. } => kind == DefKind::AssocFn,
            AssocKind::Type { .. } => kind == DefKind::AssocTy,
        }
    }

    pub fn is_of_kind(&self, kind: DefKind) -> (r: bool)
        ensures
            r == self.spec_is_of_kind(kind),
    {
        match self.kind {
            AssocKind::Const { .. } => kind == DefKind::AssocConst,
            AssocKind::Fn { .. } => kind == DefKind::AssocFn,
            AssocKind::Type { .. } => kind == DefKind::AssocTy,
        }
    }

    pub open spec fn spec_opt_name(self) -> Option<Symbol> {
        match self.kind {
            AssocKind::Const { name } => Some(name),
            AssocKind::Fn { name, .. } => Some(name),
            AssocKind::Type { data: AssocTypeData::Normal(name) } => Some(name),
            AssocKind::Type { data: AssocTypeData::Rpitit } => None,
        }
    }

    /// The name of the item, if it has one.
    pub fn opt_name(&self) -> (r: Option<Symbol>)
        ensures
            r == self.spec_opt_name(),
    {
        match &self.kind {
            AssocKind::Const { name } => Some(name.clone()),
            AssocKind::Fn { name, .. } => Some(name.clone()),
            AssocKind::Type { data: AssocTypeData::Normal(name) } => Some(name.clone()),
            AssocKind::Type { data: AssocTypeData::Rpitit } => None,
        }
    }
}

/// The kind of a type that is defined by its fields.
#[derive(Clone, Copy, PartialEq, Eq, Structural, Debug)]
pub enum AdtKind {
    Struct,
    Union,
    Enum,
}

#[derive(Clone, Copy, PartialEq, Eq, Structural, Debug)]
pub struct AdtFlags {
    pub bits: u32,
}

/// The integer type that a `repr` asks for. `bits` is `None` for the size of a pointer.
#[derive(Clone, Copy, PartialEq, Eq, Structural, Debug)]
pub struct IntegerType {
    pub bits: Option<u32>,
    pub signed: bool,
}

#[derive(Clone, Copy, PartialEq, Eq, Structural, Debug)]
pub struct ReprOptions {
    pub int: Option<IntegerType>,
    pub align: Option<u64>,
    pub pack: Option<u64>,
    pub flags: u32,
}

/// How the discriminant of a variant was given.
#[derive(PartialEq, Debug)]
pub enum VariantDiscr {
    /// By the constant of this definition.
    Explicit(DefId),
    /// As this many more than that of the last variant whose discriminant is explicit.
    Relative(u32),
}

impl Clone for VariantDiscr {
    fn clone(&self) -> (r: Self)
        ensures
            r == *self,
    {
        match self {
            VariantDiscr::Explicit(d) => VariantDiscr::Explicit(d.clone()),
            VariantDiscr::Relative(n) => VariantDiscr::Relative(*n),
        }
    }
}

/// The value of a discriminant.
#[derive(PartialEq, Debug)]
pub struct RDiscr {
    pub val: u128,
    pub ty: RTy,
}

impl Clone for RDiscr {
    fn clone(&self) -> (r: Self)
        ensures
            r == *self,
    {
        RDiscr { val: self.val, ty: self.ty.clone() }
    }
}

#[derive(PartialEq, Debug)]
pub struct RFieldDef {
    pub did: DefId,
    /// The name of the field as an identifier; a decimal number for a field without a name.
    pub name: Symbol,
    pub vis: Visibility,
    pub ty: RTy,
    pub span: RSpan,
}

#[derive(PartialEq, Debug)]
pub struct RVariantDef {
    pub def_id: DefId,
    pub ctor: Option<(CtorKind, DefId)>,
    pub name: Symbol,
    pub discr: VariantDiscr,
    /// What the compiler computes for the discriminant, if the variant is one of an enum.
    pub discr_val: RDiscr,
    pub fields: Vec<RFieldDef>,
}

/// The definition of a struct, a union or an enum.
#[derive(PartialEq, Debug)]
pub struct RAdtDef {
    pub did: DefId,
    pub kind: AdtKind,
    /// One for a struct or a union.
    pub variants: Vec<RVariantDef>,
    pub flags: AdtFlags,
    pub repr: ReprOptions,
}

impl RAdtDef {
    /// Whether this defines the given definition: a struct, a union or an enum.
    pub open spec fn spec_defines(self, id: DefId) -> bool {
        &&& self.did == id
        &&& match self.kind {
            AdtKind::Struct => id.kind == DefKind::Struct,
            AdtKind::Union => id.kind == DefKind::Union,
            AdtKind::Enum => id.kind == DefKind::Enum,
        }
    }

    pub fn defines(&self, id: &DefId) -> (r: bool)
        ensures
            r == self.spec_defines(*id),
    {
        self.did.same(id) && match self.kind {
            AdtKind::Struct => id.kind == DefKind::Struct,
            AdtKind::Union => id.kind == DefKind::Union,
            AdtKind::Enum => id.kind == DefKind::Enum,
        }
    }
}

#[derive(Clone, Copy, PartialEq, Eq, Structural, Debug)]
pub enum GenericParamDefKind {
    Lifetime,
    Type { has_default: bool, synthetic: bool },
    Const { has_default: bool },
}

#[derive(PartialEq, Debug)]
pub struct GenericParamDef {
    pub name: Symbol,
    pub def_id: DefId,
    pub index: u32,
    pub kind: GenericParamDefKind,
}

impl Clone for GenericParamDef {
    fn clone(&self) -> (r: Self)
        ensures
            r == *self,
    {
        GenericParamDef {
            name: self.name.clone(),
            def_id: self.def_id.clone(),
            index: self.index,
            kind: self.kind,
        }
    }
}

/// The generics of a definition on the compiler's side.
#[derive(PartialEq, Debug)]
pub struct RGenerics {
    pub parent: Option<DefId>,
    pub parent_count: usize,
    pub own_params: Vec<GenericParamDef>,
    pub has_self: bool,
    pub has_late_bound_regions: Option<RSpan>,
    /// Each parameter, those of the parents first, given as its own argument.
    pub identity_args: GenericArgsRef,
}

impl RGenerics {
    /// The number of parameters, those of the parents among them.
    pub open spec fn spec_count(self) -> int {
        self.parent_count + self.own_params@.len()
    }

    pub fn count(&self) -> (r: usize)
        requires
            self.spec_count() <= usize::MAX,
        ensures
            r == self.spec_count(),
    {
        self.parent_count + self.own_params.len()
    }
}

// ---- what is exported ----

/// A type, with the scope it is to be read in.
#[derive(Clone, PartialEq, Debug)]
pub struct Ty {
    pub scope: Scope,
    pub ty: RTy,
}

#[derive(Clone, PartialEq, Debug)]
pub struct TraitRef {
    pub scope: Scope,
    pub def_id: DefId,
    pub generic_args: GenericArgsRef,
}

/// A trait is implemented; or, if not `is_positive`, it is promised not to be.
#[derive(Clone, PartialEq, Debug)]
pub struct TraitPredicate {
    pub trait_ref: TraitRef,
    pub is_positive: bool,
}

#[derive(Clone, PartialEq, Debug)]
pub struct PolyFnSig {
    pub scope: Scope,
    pub sig: RPolyFnSig,
}

#[derive(Clone, PartialEq, Debug)]
pub struct Clause {
    pub scope: Scope,
    pub clause: RClause,
}

#[derive(Clone, PartialEq, Debug)]
pub struct GenericPredicates {
    pub predicates: Vec<(Clause, Span)>,
}

#[derive(Clone, PartialEq, Debug)]
pub struct TyGenerics {
    pub parent: Option<DefId>,
    pub parent_count: usize,
    pub params: Vec<GenericParamDef>,
    pub has_self: bool,
    pub has_late_bound_regions: Option<Span>,
}

impl TyGenerics {
    /// The number of parameters, those of the parents among them.
    pub open spec fn spec_count_total_params(self) -> int {
        self.parent_count + self.params@.len()
    }

    pub fn count_total_params(&self) -> (r: usize)
        requires
            self.spec_count_total_params() <= usize::MAX,
        ensures
            r == self.spec_count_total_params(),
    {
        self.parent_count + self.params.len()
    }
}

/// The implementation that the compiler finds, in the given scope, for a trait reference with
/// `args` put in for the generics of the definition that declares it.
#[derive(Clone, PartialEq, Debug)]
pub struct ImplExpr {
    pub scope: Scope,
    pub trait_ref: RPolyTraitRef,
    pub args: GenericArgsRef,
}

#[derive(Clone, PartialEq, Debug)]
pub struct ClosureArgs {
    pub scope: Scope,
    pub def_id: DefId,
    pub args: Arc<RClosureArgs>,
}

#[derive(Clone, PartialEq, Debug)]
pub struct DiscriminantValue {
    pub val: u128,
    pub ty: Ty,
}

#[derive(Clone, PartialEq, Debug)]
pub struct FieldDef {
    pub did: DefId,
    pub name: Symbol,
    pub vis: Visibility,
    pub ty: Ty,
    pub span: Span,
}

#[derive(Clone, PartialEq, Debug)]
pub struct VariantDef {
    pub def_id: DefId,
    pub ctor: Option<(CtorKind, DefId)>,
    pub name: Symbol,
    pub discr_def: VariantDiscr,
    pub discr_val: DiscriminantValue,
    pub fields: Vec<FieldDef>,
}

/// An associated item.
#[derive(Clone, PartialEq, Debug)]
pub struct AssocItem {
    pub def_id: DefId,
    /// This is `None` for a type that stands for an `impl Trait` in a return type.
    pub name: Option<Symbol>,
    pub kind: AssocKind,
    pub container: AssocItemContainer,
    pub trait_item_def_id: Option<DefId>,
    /// Whether the item has a value: `false` for a trait method without a default body.
    pub has_value: bool,
}

} // verus!
