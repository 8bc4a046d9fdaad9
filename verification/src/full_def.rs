//! Full definitions.
use crate::body::MirBody;
use crate::def_id::{CtorOf, DefId, MacroKind, Mutability, Safety};
use crate::span::Span;
use crate::ty::{
    AdtFlags, AdtKind, AssocItem, AssocKind, Attribute, ClosureArgs, FieldDef, GenericPredicates,
    Ident, ImplExpr, InlineAttr, PolyFnSig, ReprOptions, Symbol, TraitPredicate, Ty, TyGenerics,
    VariantDef,
};
use std::sync::Arc;
use vstd::prelude::*;

verus! {

/// The form of bodies where none is named.
pub type DefaultFullDefBody = MirBody;

/// Gathers a lot of definition information about a [`DefId`].
#[derive(Clone, PartialEq, Debug)]
pub struct FullDef<Body = DefaultFullDefBody> {
    pub def_id: DefId,
    /// The span of the definition of this item (e.g. for a function this is is signature).
    pub span: Span,
    /// The span of the whole definition, with e.g. the function body.
    pub source_span: Option<Span>,
    /// The text of the whole definition.
    pub source_text: Option<String>,
    /// Attributes on this definition, if applicable.
    pub attributes: Vec<Attribute>,
    /// Visibility of the definition, for definitions where this makes sense.
    pub visibility: Option<bool>,
    /// If this definition is a lang item, we store the identifier, e.g. `sized`.
    pub lang_item: Option<String>,
    /// If this definition is a diagnostic item, we store the identifier, e.g. `box_new`.
    pub diagnostic_item: Option<String>,
    pub kind: FullDefKind<Body>,
}

/// The combination of type generics and related predicates.
#[derive(Clone, PartialEq, Debug)]
pub struct ParamEnv {
    /// Generic parameters of the item.
    pub generics: TyGenerics,
    /// Required predicates for the item.
    pub predicates: GenericPredicates,
}

/// The kind of a constant item.
#[derive(Clone, Copy, PartialEq, Eq, Structural, Debug)]
pub enum ConstKind {
    /// Top-level constant: `const CONST: usize = 42;`
    TopLevel,
    /// Anonymous constant, e.g. the `1 + 2` in `[u8; 1 + 2]`
    AnonConst,
    /// An inline constant, e.g. `const { 1 + 2 }`
    InlineConst,
    /// A promoted constant, e.g. the `1 + 2` in `&(1 + 2)`
    PromotedConst,
}

/// Imbues [`crate::def_id::DefKind`] with a lot of extra information.
#[allow(inconsistent_fields)]
#[derive(Clone, PartialEq, Debug)]
pub enum FullDefKind<Body> {
    // Types
    /// ADts (`Struct`, `Enum` and `Union` map to this variant).
    Adt {
        param_env: ParamEnv,
        adt_kind: AdtKind,
        variants: Vec<VariantDef>,
        flags: AdtFlags,
        repr: ReprOptions,
        /// MIR body of the builtin `drop` impl.
        drop_glue: Option<Body>,
    },
    /// Type alias: `type Foo = Bar;`
    TyAlias { param_env: ParamEnv, ty: Ty },
    /// Type from a foreign block.
    ForeignTy,
    /// Associated type: `trait MyTrait { type Assoc; }`
    AssocTy {
        param_env: ParamEnv,
        implied_predicates: GenericPredicates,
        associated_item: AssocItem,
        value: Option<Ty>,
    },
    /// Opaque type, aka `impl Trait`.
    OpaqueTy,
    // Traits
    Trait {
        param_env: ParamEnv,
        implied_predicates: GenericPredicates,
        /// The special `Self: Trait` clause.
        self_predicate: TraitPredicate,
        /// Associated items, in definition order.
        items: Vec<(AssocItem, Arc<FullDef<Body>>)>,
    },
    /// Trait alias: `trait IntIterator = Iterator<Item = i32>;`
    TraitAlias {
        param_env: ParamEnv,
        implied_predicates: GenericPredicates,
        /// The special `Self: Trait` clause.
        self_predicate: TraitPredicate,
    },
    TraitImpl {
        param_env: ParamEnv,
        /// The trait that is implemented by this impl block.
        trait_pred: TraitPredicate,
        /// The `ImplExpr`s required to satisfy the predicates on the trait declaration. E.g.:
        /// ```ignore
        /// trait Foo: Bar {}
        /// impl Foo for () {} // would supply an `ImplExpr` for `Self: Bar`.
        /// ```
        implied_impl_exprs: Vec<ImplExpr>,
        /// Associated items, in the order of the trait declaration, the defaulted ones among them.
        items: Vec<ImplAssocItem<Body>>,
    },
    InherentImpl {
        param_env: ParamEnv,
        /// The type to which this block applies.
        ty: Ty,
        /// Associated items, in definition order.
        items: Vec<(AssocItem, Arc<FullDef<Body>>)>,
    },
    // Functions
    Fn {
        param_env: ParamEnv,
        inline: InlineAttr,
        is_const: bool,
        sig: PolyFnSig,
        body: Option<Body>,
    },
    /// Associated function: `impl MyStruct { fn associated() {} }` or `trait Foo { fn associated()
    /// {} }`
    AssocFn {
        param_env: ParamEnv,
        associated_item: AssocItem,
        inline: InlineAttr,
        is_const: bool,
        sig: PolyFnSig,
        body: Option<Body>,
    },
    /// A closure, coroutine, or coroutine-closure.
    ///
    /// Note: the (early-bound) generics of a closure are the same as those of the item in which it
    /// is defined.
    Closure {
        args: ClosureArgs,
        is_const: bool,
        /// Info required to construct a virtual `FnOnce` impl for this closure.
        fn_once_impl: Box<VirtualTraitImpl>,
        /// Info required to construct a virtual `FnMut` impl for this closure.
        fn_mut_impl: Option<Box<VirtualTraitImpl>>,
        /// Info required to construct a virtual `Fn` impl for this closure.
        fn_impl: Option<Box<VirtualTraitImpl>>,
        /// For `FnMut`&`Fn` closures: the MIR for the `call_once` method; it simply calls
        /// `call_mut`.
        once_shim: Option<Body>,
        /// MIR body of the builtin `drop` impl.
        drop_glue: Option<Body>,
    },
    // Constants
    Const { param_env: ParamEnv, ty: Ty, kind: ConstKind, body: Option<Body> },
    /// Associated constant: `trait MyTrait { const ASSOC: usize; }`
    AssocConst { param_env: ParamEnv, associated_item: AssocItem, ty: Ty, body: Option<Body> },
    Static {
        param_env: ParamEnv,
        /// Whether it's a `unsafe static`, `safe static` (inside foreign blocks only) or just a
        /// `static`.
        safety: Safety,
        /// Whether it's a `static mut` or just a `static`.
        mutability: Mutability,
        /// Whether it's an anonymous static generated for nested allocations.
        nested: bool,
        ty: Ty,
        body: Option<Body>,
    },
    // Crates and modules
    ExternCrate,
    Use,
    Mod { items: Vec<(Option<Ident>, DefId)> },
    /// A block of foreign items.
    ForeignMod { items: Vec<DefId> },
    // Type-level parameters
    /// Type parameter: the `T` in `struct Vec<T> { ... }`
    TyParam,
    /// Constant generic parameter: `struct Foo<const N: usize> { ... }`
    ConstParam,
    /// Lifetime parameter: the `'a` in `struct Foo<'a> { ... }`
    LifetimeParam,
    // ADT parts
    /// Refers to the variant definition, [`crate::def_id::DefKind::Ctor`] refers to its
    /// constructor if it exists.
    Variant,
    /// The constructor function of a tuple/unit struct or tuple/unit enum variant.
    Ctor {
        adt_def_id: DefId,
        ctor_of: CtorOf,
        variant_id: usize,
        fields: Vec<FieldDef>,
        output_ty: Ty,
    },
    /// A field in a struct, enum or union. e.g.
    /// - `bar` in `struct Foo { bar: u8 }`
    /// - `Foo::Bar::0` in `enum Foo { Bar(u8) }`
    Field,
    // Others
    /// Macros
    Macro(MacroKind),
    /// A use of `global_asm!`.
    GlobalAsm,
    /// A synthetic coroutine body created by the lowering of a coroutine-closure, such as an async
    /// closure.
    SyntheticCoroutineBody,
}

/// An associated item in a trait impl. This can be an item provided by the trait impl, or an item
/// that reuses the trait decl default value.
#[derive(Clone, PartialEq, Debug)]
pub struct ImplAssocItem<Body> {
    /// This is `None` for a type that stands for an `impl Trait` in a return type.
    pub name: Option<Symbol>,
    /// The definition of the item from the trait declaration. This is `AssocTy`, `AssocFn` or
    /// `AssocConst`.
    pub decl_def: Arc<FullDef<Body>>,
    /// The `ImplExpr`s required to satisfy the predicates on the associated type. E.g.:
    /// ```ignore
    /// trait Foo {
    ///     type Type<T>: Clone,
    /// }
    /// impl Foo for () {
    ///     type Type<T>: Arc<T>; // would supply an `ImplExpr` for `Arc<T>: Clone`.
    /// }
    /// ```
    /// For a generic associated type that reuses the trait declaration default, they mention the
    /// parameters of the type as `decl_def` declares them; their scope names the type.
    /// Empty if this item is an associated const or fn.
    pub required_impl_exprs: Vec<ImplExpr>,
    /// The value of the implemented item.
    pub value: ImplAssocItemValue<Body>,
}

#[derive(Clone, PartialEq, Debug)]
pub enum ImplAssocItemValue<Body> {
    /// The item is provided by the trait impl.
    Provided {
        /// The definition of the item in the trait impl. This is `AssocTy`, `AssocFn` or
        /// `AssocConst`.
        def: Arc<FullDef<Body>>,
        /// Whether the trait had a default value for this item (which is therefore overriden).
        is_override: bool,
    },
    /// This is an associated type that reuses the trait declaration default.
    DefaultedTy {
        /// The default type, with generics properly instantiated. Note that this can be a GAT;
        /// relevant generics and predicates can be found in `decl_def`.
        ty: Ty,
    },
    /// This is a non-overriden default method.
    DefaultedFn {},
    /// This is an associated const that reuses the trait declaration default. The default const
    /// value can be found in `decl_def`.
    DefaultedConst,
}

/// Partial data for a trait impl, used for fake trait impls that we generate ourselves such as
/// `FnOnce` and `Drop` impls.
#[derive(Clone, PartialEq, Debug)]
pub struct VirtualTraitImpl {
    /// The trait that is implemented by this impl block.
    pub trait_pred: TraitPredicate,
    /// The `ImplExpr`s required to satisfy the predicates on the trait declaration.
    pub implied_impl_exprs: Vec<ImplExpr>,
    /// The associated types and their predicates, in definition order.
    pub types: Vec<(Ty, Vec<ImplExpr>)>,
}

impl<Body> FullDef<Body> {
    pub fn def_id(&self) -> (r: &DefId)
        ensures
            *r == self.def_id,
    {
        &self.def_id
    }

    pub fn kind(&self) -> (r: &FullDefKind<Body>)
        ensures
            *r == self.kind,
    {
        &self.kind
    }

    pub open spec fn spec_param_env(self) -> Option<ParamEnv> {
        match self.kind {
            FullDefKind::Adt { param_env, .. }
            | FullDefKind::Trait { param_env, .. }
            | FullDefKind::TraitAlias { param_env, .. }
            | FullDefKind::TyAlias { param_env, .. }
            | FullDefKind::AssocTy { param_env, .. }
            | FullDefKind::Fn { param_env, .. }
            | FullDefKind::AssocFn { param_env, .. }
            | FullDefKind::Const { param_env, .. }
            | FullDefKind::AssocConst { param_env, .. }
            | FullDefKind::Static { param_env, .. }
            | FullDefKind::TraitImpl { param_env, .. }
            | FullDefKind::InherentImpl { param_env, .. } => Some(param_env),
            _ => None,
        }
    }

    /// Returns the generics and predicates for definitions that have those.
    pub fn param_env(&self) -> (r: Option<&ParamEnv>)
        ensures
            match r {
                Some(p) => self.spec_param_env() == Some(*p),
                None => self.spec_param_env() is None,
            },
    {
        match &self.kind {
            FullDefKind::Adt { param_env, .. }
            | FullDefKind::Trait { param_env, .. }
            | FullDefKind::TraitAlias { param_env, .. }
            | FullDefKind::TyAlias { param_env, .. }
            | FullDefKind::AssocTy { param_env, .. }
            | FullDefKind::Fn { param_env, .. }
            | FullDefKind::AssocFn { param_env, .. }
            | FullDefKind::Const { param_env, .. }
            | FullDefKind::AssocConst { param_env, .. }
            | FullDefKind::Static { param_env, .. }
            | FullDefKind::TraitImpl { param_env, .. }
            | FullDefKind::InherentImpl { param_env, .. } => Some(param_env),
            _ => None,
        }
    }
}

impl<Body> FullDefKind<Body> {
    /// The kind of associated item that this is, if it is one.
    pub open spec fn spec_assoc_kind(self) -> Option<AssocKind> {
        match self {
            FullDefKind::AssocTy { associated_item, .. } => Some(associated_item.kind),
            FullDefKind::AssocFn { associated_item, .. } => Some(associated_item.kind),
            FullDefKind::AssocConst { associated_item, .. } => Some(associated_item.kind),
            _ => None,
        }
    }
}

impl<Body> ImplAssocItem<Body> {
    pub open spec fn spec_def(self) -> FullDef<Body> {
        match self.value {
            ImplAssocItemValue::Provided { def, .. } => *def,
            _ => *self.decl_def,
        }
    }

    /// The relevant definition: the provided implementation if any, otherwise the default
    /// declaration from the trait declaration.
    pub fn def(&self) -> (r: &FullDef<Body>)
        ensures
            *r == self.spec_def(),
    {
        match &self.value {
            ImplAssocItemValue::Provided { def, .. } => &**def,
            _ => &*self.decl_def,
        }
    }

    pub open spec fn spec_assoc_kind(self) -> Option<AssocKind> {
        self.spec_def().kind.spec_assoc_kind()
    }

    /// The kind of item this is. The relevant definition has to be that of an associated item.
    pub fn assoc_kind(&self) -> (r: &AssocKind)
        requires
            self.spec_assoc_kind() is Some,
        ensures
            Some(*r) == self.spec_assoc_kind(),
    {
        match &self.def().kind {
            FullDefKind::AssocTy { associated_item, .. } => &associated_item.kind,
            FullDefKind::AssocFn { associated_item, .. } => &associated_item.kind,
            FullDefKind::AssocConst { associated_item, .. } => &associated_item.kind,
            _ => vstd::pervasive::unreached(),
        }
    }
}

} // verus!
