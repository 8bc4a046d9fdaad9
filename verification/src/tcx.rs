//! The compiler's answers about the definitions of a program.
use crate::def_id::{CtorKind, CtorOf, DefId, DefKind};
use crate::span::RSpan;
use crate::ty::{
    AdtKind, AssocItemContainer, Attribute, Constness, Defaultness, ImplPolarity, ImplSubject,
    InlineAttr, RAdtDef, RAssocItem, RClause, RFnSig, RGenerics, RIdent, RPolyTraitRef, RTraitRef,
    RTy, Visibility,
};
use vstd::prelude::*;

verus! {

/// An item of a module, with its name if it has one.
#[derive(PartialEq, Debug)]
pub struct HirItem {
    pub ident: Option<RIdent>,
    pub def_id: DefId,
}

#[derive(PartialEq, Debug)]
pub enum HirItemKind {
    Mod(Vec<HirItem>),
    /// A block of foreign items, with its items.
    ForeignMod(Vec<DefId>),
    Other,
}

/// The syntax of a definition of the crate being compiled.
#[derive(PartialEq, Debug)]
pub enum HirNode {
    Crate(Vec<HirItem>),
    Item(HirItemKind),
    Other,
}

/// A name that a module of another crate offers. `res` is the definition it stands for, if it
/// stands for one.
#[derive(PartialEq, Debug)]
pub struct ModChild {
    pub ident: RIdent,
    pub res: Option<DefId>,
}

/// A node of the syntax tree: the definition it belongs to and its number there.
#[derive(PartialEq, Debug)]
pub struct HirId {
    pub owner: DefId,
    pub local_id: u32,
}

impl Clone for HirId {
    fn clone(&self) -> (r: Self)
        ensures
            r == *self,
    {
        HirId { owner: self.owner.clone(), local_id: self.local_id }
    }
}

/// The body of a promoted constant.
#[derive(PartialEq, Debug)]
pub struct PromotedMir {
    pub span: RSpan,
    /// The types of the locals; the first local is the value of the constant.
    pub local_decls: Vec<RTy>,
}

/// A set of assumptions that types are resolved under, by its number in the compiler's interner.
#[derive(Clone, Copy, PartialEq, Eq, Structural, Debug)]
pub struct RParamEnv {
    pub id: u64,
}

/// What the compiler answers about one definition. `None` stands where it has no answer.
#[derive(PartialEq, Debug)]
pub struct DefData {
    pub def_id: DefId,
    pub visibility: Option<Visibility>,
    pub attrs: Option<Vec<Attribute>>,
    pub def_span: Option<RSpan>,
    /// Known for definitions of the crate being compiled only.
    pub source_span: Option<RSpan>,
    pub lang_item: Option<String>,
    pub diagnostic_item: Option<String>,
    pub generics: Option<RGenerics>,
    pub required_predicates: Vec<(RClause, RSpan)>,
    /// The same with a `Drop` bound on each type parameter.
    pub required_predicates_with_drop: Vec<(RClause, RSpan)>,
    pub implied_predicates: Vec<(RClause, RSpan)>,
    /// The same with a `Drop` bound on each associated type.
    pub implied_predicates_with_drop: Vec<(RClause, RSpan)>,
    pub param_env: RParamEnv,
    /// The `Self: Trait` clause of a trait.
    pub self_predicate: Option<RPolyTraitRef>,
    pub type_of: Option<RTy>,
    pub adt_def: Option<RAdtDef>,
    pub associated_item: Option<RAssocItem>,
    /// In the order of their definition.
    pub associated_items: Vec<RAssocItem>,
    pub defaultness: Option<Defaultness>,
    pub inherent_impls: Vec<DefId>,
    pub impl_subject: Option<ImplSubject>,
    pub impl_polarity: Option<ImplPolarity>,
    pub fn_sig: Option<RFnSig>,
    pub inline: Option<InlineAttr>,
    pub constness: Option<Constness>,
    /// Known for definitions of the crate being compiled only.
    pub hir_node: Option<HirNode>,
    /// Known for modules of other crates only.
    pub module_children: Vec<ModChild>,
    /// The node of the body that the region scopes of the definition belong to.
    pub root_body: Option<HirId>,
    /// The attributes on the nodes of the definition, by the number of the node.
    pub hir_attrs: Vec<(u32, Vec<Attribute>)>,
    pub promoted_mir: Vec<PromotedMir>,
}

/// The definitions that the language itself relies on.
#[derive(PartialEq, Debug)]
pub struct LangItems {
    pub fn_once_trait: Option<DefId>,
    pub fn_mut_trait: Option<DefId>,
    pub fn_trait: Option<DefId>,
    pub drop_in_place: Option<DefId>,
}

/// The compiler's answers about a set of definitions.
#[derive(PartialEq, Debug)]
pub struct TyCtxt {
    /// Ordered by [`DefId::key`].
    pub defs: Vec<DefData>,
    pub lang_items: LangItems,
    /// The span that stands for no place.
    pub dummy_sp: RSpan,
    /// The type `isize`.
    pub isize_ty: RTy,
}

/// The place in `items` of the item that implements the trait item filed under `key`: the last one
/// that names it.
pub open spec fn provider(items: Seq<RAssocItem>, key: u64) -> Option<int>
    decreases items.len(),
{
    if items.len() == 0 {
        None
    } else if items.last().trait_item_def_id is Some
        && items.last().trait_item_def_id->0.spec_key() == key {
        Some(items.len() - 1)
    } else {
        provider(items.drop_last(), key)
    }
}

/// `provider` finds an item that names the trait item, and finds one if there is one.
pub proof fn lemma_provider(items: Seq<RAssocItem>, key: u64)
    ensures
        provider(items, key) matches Some(i) ==> 0 <= i < items.len()
            && items[i].trait_item_def_id is Some
            && items[i].trait_item_def_id->0.spec_key() == key,
        provider(items, key) is None ==> forall|i: int|
            #![trigger items[i]]
            0 <= i < items.len() ==> !(items[i].trait_item_def_id is Some
                && items[i].trait_item_def_id->0.spec_key() == key),
    decreases items.len(),
{
    if items.len() > 0 {
        let rest = items.drop_last();
        lemma_provider(rest, key);
        assert forall|i: int| 0 <= i < rest.len() implies #[trigger] rest[i] == items[i] by {}
        if provider(items, key) is None {
            assert forall|i: int| #![trigger items[i]] 0 <= i < items.len() implies !(
            items[i].trait_item_def_id is Some && items[i].trait_item_def_id->0.spec_key()
                == key) by {
                if i < rest.len() {
                    assert(rest[i] == items[i]);
                }
            }
        }
    }
}

/// Whether the variants of a struct, union or enum hold one that is built by the constructor filed
/// under `key`.
pub open spec fn has_ctor(adt: RAdtDef, key: u64) -> bool {
    exists|i: int| 0 <= i < adt.variants@.len() && built_by(#[trigger] adt.variants@[i].ctor, key)
}

pub open spec fn built_by(ctor: Option<(CtorKind, DefId)>, key: u64) -> bool {
    ctor matches Some(c) && c.1.spec_key() == key
}

/// The struct, union or enum that a constructor belongs to.
pub open spec fn ctor_adt(ctor: DefId, ctor_of: CtorOf) -> Option<DefId> {
    match ctor.parent {
        None => None,
        Some(p) => match ctor_of {
            CtorOf::Struct => Some(*p),
            CtorOf::Variant => match p.parent {
                None => None,
                Some(pp) => Some(*pp),
            },
        },
    }
}

impl TyCtxt {
    /// The answers are ordered by the number of the definition, and no two are about one
    /// definition.
    pub open spec fn sorted(self) -> bool {
        forall|i: int, j: int|
            #![trigger self.defs@[i], self.defs@[j]]
            0 <= i < j < self.defs@.len() ==> self.defs@[i].def_id.spec_key()
                < self.defs@[j].def_id.spec_key()
    }

    pub open spec fn is_at(self, i: int, key: u64) -> bool {
        0 <= i < self.defs@.len() && self.defs@[i].def_id.spec_key() == key
    }

    /// Whether there are answers about the definition.
    pub open spec fn has(self, id: DefId) -> bool {
        exists|i: int| #[trigger] self.is_at(i, id.spec_key())
    }

    /// The answers about the definition.
    pub open spec fn data(self, id: DefId) -> DefData {
        self.defs@[choose|i: int| #[trigger] self.is_at(i, id.spec_key())]
    }

    /// Whether there are answers about exactly this definition.
    pub open spec fn known(self, id: DefId) -> bool {
        self.has(id) && self.data(id).def_id == id
    }

    /// The answers about associated items are complete.
    pub open spec fn items_known(self, items: Seq<RAssocItem>) -> bool {
        &&& forall|i: int|
            0 <= i < items.len() ==> self.known((#[trigger] items[i]).def_id)
                && items[i].spec_is_of_kind(items[i].def_id.kind)
        &&& forall|i: int, j: int|
            #![trigger items[i], items[j]]
            0 <= i < j < items.len() ==> items[i].def_id.spec_key() != items[j].def_id.spec_key()
    }

    /// The definition as an associated item.
    pub open spec fn assoc_item_known(d: DefData) -> bool {
        &&& d.associated_item is Some
        &&& d.associated_item->0.def_id == d.def_id
        &&& d.associated_item->0.spec_is_of_kind(d.def_id.kind)
        &&& d.defaultness is Some
    }

    /// The number of generics is known, and each of them as its own argument.
    pub open spec fn generics_known(self, d: DefData) -> bool {
        &&& d.generics is Some
        &&& d.generics->0.spec_count() <= usize::MAX
        &&& d.generics->0.identity_args@.len() == d.generics->0.spec_count()
    }

    /// The trait items that an impl of `tr` can provide: each item of the impl provides one, an
    /// associated type that the impl leaves out has a default, and the generics of each are those
    /// of the trait and its own.
    pub open spec fn trait_impl_known(self, d: DefData, tr: RTraitRef) -> bool {
        let decls = self.data(tr.def_id).associated_items@;
        &&& d.impl_polarity is Some
        &&& self.known(tr.def_id)
        &&& self.generics_known(self.data(tr.def_id))
        &&& forall|i: int|
            0 <= i < d.associated_items@.len() ==> provides_one_of(
                #[trigger] d.associated_items@[i],
                decls,
            )
        &&& forall|i: int|
            0 <= i < decls.len() ==> self.default_known(d.associated_items@, #[trigger] decls[i])
                && self.adds_to(decls[i].def_id, tr.def_id)
    }

    /// The generics of `item` are those of `container` and its own.
    pub open spec fn adds_to(self, item: DefId, container: DefId) -> bool {
        &&& self.has(item)
        &&& self.data(item).generics is Some
        &&& self.data(item).generics->0.parent_count == self.data(
            container,
        ).generics->0.spec_count()
    }

    /// An associated type that an impl leaves out has a default.
    pub open spec fn default_known(self, items: Seq<RAssocItem>, decl: RAssocItem) -> bool {
        decl.kind is Type && provider(items, decl.def_id.spec_key()) is None ==> self.has(
            decl.def_id,
        ) && self.data(decl.def_id).type_of is Some
    }

    /// What is needed to find the signature of an associated function.
    pub open spec fn method_known(self, d: DefData) -> bool {
        &&& d.fn_sig is Some
        &&& d.associated_item is Some
        &&& d.associated_item->0.container == AssocItemContainer::Impl
            && d.associated_item->0.trait_item_def_id is Some ==> {
            let decl = d.associated_item->0.trait_item_def_id->0;
            &&& self.known(decl)
            &&& self.data(decl).fn_sig is Some
            &&& d.def_id.parent is Some
            &&& self.known(*d.def_id.parent->0)
            &&& self.data(*d.def_id.parent->0).impl_subject matches Some(ImplSubject::Trait(_))
            &&& self.generics_known(self.data(*d.def_id.parent->0))
            &&& self.generics_known(d)
        }
    }

    /// The type of a closure, taken apart.
    pub open spec fn closure_known(self, d: DefData) -> bool {
        &&& d.type_of matches Some(RTy::Closure { closure, .. }) && closure.inputs@.len() > 0
        &&& d.constness is Some
        &&& self.lang_items.fn_once_trait is Some
        &&& self.known(self.lang_items.fn_once_trait->0)
        &&& self.lang_items.fn_mut_trait is Some
        &&& self.known(self.lang_items.fn_mut_trait->0)
        &&& self.lang_items.fn_trait is Some
        &&& self.known(self.lang_items.fn_trait->0)
        &&& self.lang_items.drop_in_place is Some
    }

    pub open spec fn ctor_known(self, d: DefData, ctor_of: CtorOf) -> bool {
        ctor_adt(d.def_id, ctor_of) matches Some(adt) && {
            &&& self.known(adt)
            &&& self.data(adt).adt_def is Some
            &&& has_ctor(self.data(adt).adt_def->0, d.def_id.spec_key())
            &&& self.generics_known(self.data(adt))
        }
    }

    /// What a module or a block of foreign items holds can be listed.
    pub open spec fn mod_children_known(d: DefData) -> bool {
        if d.def_id.spec_is_local() {
            ||| d.hir_node matches Some(HirNode::Crate(_))
            ||| d.hir_node matches Some(HirNode::Item(HirItemKind::Mod(_)))
        } else {
            forall|i: int|
                0 <= i < d.module_children@.len() ==> (#[trigger] d.module_children@[i]).res is Some
        }
    }

    pub open spec fn foreign_mod_children_known(d: DefData) -> bool {
        d.def_id.spec_is_local() ==> d.hir_node matches Some(
            HirNode::Item(HirItemKind::ForeignMod(_)),
        )
    }

    /// The answers that the kind of the definition calls for.
    pub open spec fn kind_known(self, d: DefData) -> bool {
        match d.def_id.kind {
            DefKind::Struct | DefKind::Union | DefKind::Enum => {
                &&& d.adt_def is Some
                &&& d.adt_def->0.kind != AdtKind::Enum ==> d.adt_def->0.variants@.len() <= 1
                &&& d.type_of is Some
                &&& self.lang_items.drop_in_place is Some
            },
            DefKind::TyAlias | DefKind::Const | DefKind::AnonConst | DefKind::InlineConst
            | DefKind::Static { .. } => d.type_of is Some,
            DefKind::AssocTy => {
                &&& Self::assoc_item_known(d)
                &&& d.defaultness->0.spec_has_value() ==> d.type_of is Some
            },
            DefKind::AssocFn => {
                &&& Self::assoc_item_known(d)
                &&& d.inline is Some
                &&& d.constness is Some
                &&& self.method_known(d)
            },
            DefKind::AssocConst => {
                &&& Self::assoc_item_known(d)
                &&& d.type_of is Some
            },
            DefKind::Trait | DefKind::TraitAlias => d.self_predicate is Some
                && !d.self_predicate->0.has_escaping_bound_vars,
            DefKind::Impl { .. } => match d.impl_subject {
                None => false,
                Some(ImplSubject::Inherent(_)) => true,
                Some(ImplSubject::Trait(tr)) => self.trait_impl_known(d, tr),
            },
            DefKind::Fn => d.fn_sig is Some && d.inline is Some && d.constness is Some,
            DefKind::Closure => self.generics_known(d) && self.closure_known(d),
            DefKind::Mod => Self::mod_children_known(d),
            DefKind::ForeignMod => Self::foreign_mod_children_known(d),
            DefKind::Ctor(ctor_of, _) => self.ctor_known(d, ctor_of),
            _ => true,
        }
    }

    /// The compiler has every answer about the definition that its kind calls for, and has answers
    /// about each definition that those speak of.
    pub open spec fn complete(self, d: DefData) -> bool {
        &&& d.def_id.promoted is None
        &&& d.def_id.kind != DefKind::PromotedConst
        &&& d.def_id.kind.spec_has_visibility() ==> d.visibility is Some
        &&& d.def_id.kind.spec_has_attributes() ==> d.attrs is Some
        &&& d.def_id.kind != DefKind::ForeignMod ==> d.def_span is Some
        &&& d.def_id.spec_is_local() ==> d.source_span is Some
        &&& d.def_id.kind.spec_has_param_env() ==> self.generics_known(d)
        &&& !d.def_id.kind.spec_has_implied_predicates() ==> d.implied_predicates@.len() == 0
            && d.implied_predicates_with_drop@.len() == 0
        &&& d.adt_def matches Some(adt) ==> adt.spec_defines(d.def_id)
        &&& self.items_known(d.associated_items@)
        &&& forall|i: int|
            0 <= i < d.inherent_impls@.len() ==> self.known(#[trigger] d.inherent_impls@[i])
        &&& d.root_body is Some ==> self.known(d.root_body->0.owner)
        &&& self.kind_known(d)
    }

    /// The answers are in order, and complete for each definition.
    pub open spec fn wf(self) -> bool {
        &&& self.sorted()
        &&& forall|i: int| 0 <= i < self.defs@.len() ==> self.complete(#[trigger] self.defs@[i])
    }
}

/// The item implements one of the trait items: a type a type, a function a function, and a
/// constant a constant.
pub open spec fn provides_one_of(item: RAssocItem, decls: Seq<RAssocItem>) -> bool {
    item.trait_item_def_id is Some && exists|j: int|
        0 <= j < decls.len() && (#[trigger] decls[j]).def_id.spec_key()
            == item.trait_item_def_id->0.spec_key() && decls[j].kind.spec_same_case(item.kind)
}

impl TyCtxt {
    /// The answers in the table are found under the definition that they are about.
    pub proof fn lemma_data_at(self, i: int)
        requires
            self.sorted(),
            0 <= i < self.defs@.len(),
        ensures
            self.has(self.defs@[i].def_id),
            self.data(self.defs@[i].def_id) == self.defs@[i],
            self.known(self.defs@[i].def_id),
    {
        let key = self.defs@[i].def_id.spec_key();
        assert(self.is_at(i, key));
        let j = choose|j: int| #[trigger] self.is_at(j, key);
        assert(self.is_at(j, key));
        assert(i == j) by {
            if i < j {
                assert(self.defs@[i].def_id.spec_key() < self.defs@[j].def_id.spec_key());
            } else if j < i {
                assert(self.defs@[j].def_id.spec_key() < self.defs@[i].def_id.spec_key());
            }
        }
    }

    /// In a complete table, the answers about a definition are complete.
    pub proof fn lemma_complete(self, id: DefId)
        requires
            self.wf(),
            self.has(id),
        ensures
            self.complete(self.data(id)),
            self.data(id).def_id.spec_key() == id.spec_key(),
    {
        let i = choose|i: int| #[trigger] self.is_at(i, id.spec_key());
        assert(self.is_at(i, id.spec_key()));
        assert(self.complete(self.defs@[i]));
    }

    /// Finds the answers about a definition.
    pub fn find(&self, id: &DefId) -> (r: Option<&DefData>)
        requires
            self.sorted(),
        ensures
            match r {
                Some(d) => self.has(*id) && *d == self.data(*id),
                None => !self.has(*id),
            },
    {
        let key: u64 = id.key();
        let mut lo: usize = 0;
        let mut hi: usize = self.defs.len();
        while lo < hi
            invariant
                self.sorted(),
                key == id.spec_key(),
                lo <= hi <= self.defs@.len(),
                forall|i: int|
                    0 <= i < lo ==> (#[trigger] self.defs@[i]).def_id.spec_key() < key,
                forall|i: int|
                    hi <= i < self.defs@.len() ==> (#[trigger] self.defs@[i]).def_id.spec_key()
                        > key,
            decreases hi - lo,
        {
            let mid: usize = lo + (hi - lo) / 2;
            let at: u64 = self.defs[mid].def_id.key();
            if at == key {
                proof {
                    self.lemma_data_at(mid as int);
                    assert(self.is_at(mid as int, key));
                }
                return Some(&self.defs[mid]);
            } else if at < key {
                lo = mid + 1;
            } else {
                hi = mid;
            }
        }
        assert(forall|i: int| !#[trigger] self.is_at(i, key));
        None
    }

    /// The answers about a definition that there are answers about.
    pub fn get(&self, id: &DefId) -> (r: &DefData)
        requires
            self.sorted(),
            self.has(*id),
        ensures
            *r == self.data(*id),
    {
        match self.find(id) {
            Some(d) => d,
            None => {
                assert(false);
                &self.defs[0]
            },
        }
    }

    /// Whether there are answers about exactly this definition.
    pub fn knows(&self, id: &DefId) -> (r: bool)
        requires
            self.sorted(),
        ensures
            r == self.known(*id),
    {
        match self.find(id) {
            Some(d) => d.def_id.same(id),
            None => false,
        }
    }
}

/// The place in `items` of the last item that implements the trait item filed under `key`.
pub fn find_provider(items: &Vec<RAssocItem>, key: u64) -> (r: Option<usize>)
    ensures
        match r {
            Some(i) => provider(items@, key) == Some(i as int),
            None => provider(items@, key) is None,
        },
{
    let mut n: usize = items.len();
    assert(items@.take(n as int) =~= items@);
    while n > 0
        invariant
            n <= items@.len(),
            provider(items@, key) == provider(items@.take(n as int), key),
        decreases n,
    {
        let ghost cut = items@.take(n as int);
        assert(cut.last() == items@[n - 1]);
        assert(cut.drop_last() =~= items@.take(n - 1));
        if let Some(t) = &items[n - 1].trait_item_def_id {
            if t.key() == key {
                return Some(n - 1);
            }
        }
        n = n - 1;
    }
    None
}

} // verus!
