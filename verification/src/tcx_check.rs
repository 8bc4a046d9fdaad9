//! Building a table of answers: a table is accepted exactly when it is complete.
use crate::def_id::{CtorOf, DefId, DefKind};
use crate::span::RSpan;
use crate::tcx::{
    built_by, ctor_adt, find_provider, has_ctor, provides_one_of, DefData, HirItemKind, HirNode,
    LangItems, TyCtxt,
};
use crate::ty::{
    AdtKind, AssocItemContainer, AssocKind, ImplSubject, RAdtDef, RAssocItem, RTraitRef, RTy,
};
use vstd::prelude::*;

verus! {

fn check_provides(item: &RAssocItem, decls: &Vec<RAssocItem>) -> (r: bool)
    ensures
        r == provides_one_of(*item, decls@),
{
    match &item.trait_item_def_id {
        None => false,
        Some(t) => {
            let key: u64 = t.key();
            let mut j: usize = 0;
            while j < decls.len()
                invariant
                    j <= decls@.len(),
                    item.trait_item_def_id is Some,
                    key == item.trait_item_def_id->0.spec_key(),
                    forall|k: int|
                        0 <= k < j ==> !((#[trigger] decls@[k]).def_id.spec_key() == key
                            && decls@[k].kind.spec_same_case(item.kind)),
                decreases decls.len() - j,
            {
                if decls[j].def_id.key() == key && decls[j].kind.same_case(&item.kind) {
                    assert(decls@[j as int].def_id.spec_key() == key);
                    return true;
                }
                j = j + 1;
            }
            false
        },
    }
}

fn check_ctor(adt: &RAdtDef, key: u64) -> (r: bool)
    ensures
        r == has_ctor(*adt, key),
{
    let mut i: usize = 0;
    while i < adt.variants.len()
        invariant
            i <= adt.variants@.len(),
            forall|k: int| 0 <= k < i ==> !built_by(#[trigger] adt.variants@[k].ctor, key),
        decreases adt.variants.len() - i,
    {
        if let Some(c) = &adt.variants[i].ctor {
            if c.1.key() == key {
                assert(built_by(adt.variants@[i as int].ctor, key));
                return true;
            }
        }
        i = i + 1;
    }
    false
}

fn adt_of_ctor(ctor: &DefId, ctor_of: CtorOf) -> (r: Option<DefId>)
    ensures
        r == ctor_adt(*ctor, ctor_of),
{
    match &ctor.parent {
        None => None,
        Some(p) => match ctor_of {
            CtorOf::Struct => Some((**p).clone()),
            CtorOf::Variant => match &p.parent {
                None => None,
                Some(pp) => Some((**pp).clone()),
            },
        },
    }
}

impl TyCtxt {
    fn check_generics(&self, d: &DefData) -> (r: bool)
        ensures
            r == self.generics_known(*d),
    {
        match &d.generics {
            None => false,
            Some(g) => g.own_params.len() <= usize::MAX - g.parent_count && g.identity_args.len()
                == g.parent_count + g.own_params.len(),
        }
    }

    fn check_items(&self, items: &Vec<RAssocItem>) -> (r: bool)
        requires
            self.sorted(),
        ensures
            r == self.items_known(items@),
    {
        let mut i: usize = 0;
        while i < items.len()
            invariant
                self.sorted(),
                i <= items@.len(),
                forall|k: int|
                    0 <= k < i ==> self.known((#[trigger] items@[k]).def_id)
                        && items@[k].spec_is_of_kind(items@[k].def_id.kind),
                forall|k: int, l: int|
                    #![trigger items@[k], items@[l]]
                    0 <= k < l < i ==> items@[k].def_id.spec_key() != items@[l].def_id.spec_key(),
            decreases items.len() - i,
        {
            if !self.knows(&items[i].def_id) || !items[i].is_of_kind(items[i].def_id.kind) {
                assert(!(self.known(items@[i as int].def_id)
                    && items@[i as int].spec_is_of_kind(items@[i as int].def_id.kind)));
                return false;
            }
            let key: u64 = items[i].def_id.key();
            let mut j: usize = 0;
            while j < i
                invariant
                    j <= i < items@.len(),
                    key == items@[i as int].def_id.spec_key(),
                    forall|k: int| 0 <= k < j ==> (#[trigger] items@[k]).def_id.spec_key() != key,
                decreases i - j,
            {
                if items[j].def_id.key() == key {
                    assert(items@[j as int].def_id.spec_key()
                        == items@[i as int].def_id.spec_key());
                    return false;
                }
                j = j + 1;
            }
            i = i + 1;
        }
        true
    }

    fn check_assoc_item(d: &DefData) -> (r: bool)
        ensures
            r == TyCtxt::assoc_item_known(*d),
    {
        let item_fine = match &d.associated_item {
            None => false,
            Some(item) => item.def_id.same(&d.def_id) && item.is_of_kind(d.def_id.kind),
        };
        item_fine && d.defaultness.is_some()
    }

    fn check_known(&self, ids: &Vec<DefId>) -> (r: bool)
        requires
            self.sorted(),
        ensures
            r == (forall|i: int| 0 <= i < ids@.len() ==> self.known(#[trigger] ids@[i])),
    {
        let mut i: usize = 0;
        while i < ids.len()
            invariant
                self.sorted(),
                i <= ids@.len(),
                forall|k: int| 0 <= k < i ==> self.known(#[trigger] ids@[k]),
            decreases ids.len() - i,
        {
            if !self.knows(&ids[i]) {
                assert(!self.known(ids@[i as int]));
                return false;
            }
            i = i + 1;
        }
        true
    }

    fn check_trait_impl(&self, d: &DefData, tr: &RTraitRef) -> (r: bool)
        requires
            self.sorted(),
        ensures
            r == self.trait_impl_known(*d, *tr),
    {
        if d.impl_polarity.is_none() || !self.knows(&tr.def_id) {
            return false;
        }
        if !self.check_generics(self.get(&tr.def_id)) {
            return false;
        }
        let decls = &self.get(&tr.def_id).associated_items;
        let items = &d.associated_items;
        let mut i: usize = 0;
        while i < items.len()
            invariant
                i <= items@.len(),
                items == d.associated_items,
                decls == self.data(tr.def_id).associated_items,
                forall|k: int|
                    0 <= k < i ==> provides_one_of(#[trigger] d.associated_items@[k], decls@),
            decreases items.len() - i,
        {
            if !check_provides(&items[i], decls) {
                assert(!provides_one_of(d.associated_items@[i as int], decls@));
                return false;
            }
            i = i + 1;
        }
        let count: usize = self.generics_of(&tr.def_id).count();
        let mut j: usize = 0;
        while j < decls.len()
            invariant
                self.sorted(),
                count == self.data(tr.def_id).generics->0.spec_count(),
                j <= decls@.len(),
                items == d.associated_items,
                decls == self.data(tr.def_id).associated_items,
                forall|k: int|
                    0 <= k < j ==> self.default_known(d.associated_items@, #[trigger] decls@[k])
                        && self.adds_to(decls@[k].def_id, tr.def_id),
            decreases decls.len() - j,
        {
            let decl = &decls[j];
            let adds = match self.find(&decl.def_id) {
                Some(dd) => match &dd.generics {
                    Some(g) => g.parent_count == count,
                    None => false,
                },
                None => false,
            };
            if !adds {
                assert(!self.adds_to(decls@[j as int].def_id, tr.def_id));
                return false;
            }
            let is_type = match &decl.kind {
                AssocKind::Type { .. } => true,
                _ => false,
            };
            if is_type && find_provider(items, decl.def_id.key()).is_none() {
                let has_default = match self.find(&decl.def_id) {
                    Some(dd) => dd.type_of.is_some(),
                    None => false,
                };
                if !has_default {
                    assert(!self.default_known(d.associated_items@, decls@[j as int]));
                    return false;
                }
            }
            j = j + 1;
        }
        true
    }

    fn check_method(&self, d: &DefData) -> (r: bool)
        requires
            self.sorted(),
        ensures
            r == self.method_known(*d),
    {
        if d.fn_sig.is_none() {
            return false;
        }
        let item = match &d.associated_item {
            None => {
                return false;
            },
            Some(item) => item,
        };
        if item.container != AssocItemContainer::Impl {
            return true;
        }
        let decl = match &item.trait_item_def_id {
            None => {
                return true;
            },
            Some(decl) => decl,
        };
        if !self.knows(decl) {
            return false;
        }
        if self.get(decl).fn_sig.is_none() {
            return false;
        }
        match &d.def_id.parent {
            None => false,
            Some(p) => {
                if !self.knows(&**p) {
                    return false;
                }
                let impl_data = self.get(&**p);
                let of_trait = match &impl_data.impl_subject {
                    Some(ImplSubject::Trait(_)) => true,
                    _ => false,
                };
                of_trait && self.check_generics(impl_data) && self.check_generics(d)
            },
        }
    }

    fn check_lang_item(&self, id: &Option<DefId>) -> (r: bool)
        requires
            self.sorted(),
        ensures
            r == (id is Some && self.known(id->0)),
    {
        match id {
            None => false,
            Some(id) => self.knows(id),
        }
    }

    fn check_closure(&self, d: &DefData) -> (r: bool)
        requires
            self.sorted(),
        ensures
            r == self.closure_known(*d),
    {
        let has_input = match &d.type_of {
            Some(RTy::Closure { closure, .. }) => closure.inputs.len() > 0,
            _ => false,
        };
        has_input && d.constness.is_some() && self.check_lang_item(&self.lang_items.fn_once_trait)
            && self.check_lang_item(&self.lang_items.fn_mut_trait) && self.check_lang_item(
            &self.lang_items.fn_trait,
        ) && self.lang_items.drop_in_place.is_some()
    }

    fn check_ctor_known(&self, d: &DefData, ctor_of: CtorOf) -> (r: bool)
        requires
            self.sorted(),
        ensures
            r == self.ctor_known(*d, ctor_of),
    {
        match adt_of_ctor(&d.def_id, ctor_of) {
            None => false,
            Some(adt_id) => {
                if !self.knows(&adt_id) {
                    return false;
                }
                let adt_data = self.get(&adt_id);
                let found = match &adt_data.adt_def {
                    None => false,
                    Some(adt) => check_ctor(adt, d.def_id.key()),
                };
                found && self.check_generics(adt_data)
            },
        }
    }

    fn check_mod_children(d: &DefData) -> (r: bool)
        ensures
            r == TyCtxt::mod_children_known(*d),
    {
        if d.def_id.is_local() {
            match &d.hir_node {
                Some(HirNode::Crate(_)) => true,
                Some(HirNode::Item(HirItemKind::Mod(_))) => true,
                _ => false,
            }
        } else {
            let mut i: usize = 0;
            while i < d.module_children.len()
                invariant
                    !d.def_id.spec_is_local(),
                    i <= d.module_children@.len(),
                    forall|k: int|
                        0 <= k < i ==> (#[trigger] d.module_children@[k]).res is Some,
                decreases d.module_children.len() - i,
            {
                if d.module_children[i].res.is_none() {
                    assert(d.module_children@[i as int].res is None);
                    return false;
                }
                i = i + 1;
            }
            true
        }
    }

    fn check_foreign_mod_children(d: &DefData) -> (r: bool)
        ensures
            r == TyCtxt::foreign_mod_children_known(*d),
    {
        if d.def_id.is_local() {
            match &d.hir_node {
                Some(HirNode::Item(HirItemKind::ForeignMod(_))) => true,
                _ => false,
            }
        } else {
            true
        }
    }

    fn check_kind(&self, d: &DefData) -> (r: bool)
        requires
            self.sorted(),
        ensures
            r == self.kind_known(*d),
    {
        match d.def_id.kind {
            DefKind::Struct | DefKind::Union | DefKind::Enum => {
                let adt_fine = match &d.adt_def {
                    None => false,
                    Some(adt) => adt.kind == AdtKind::Enum || adt.variants.len() <= 1,
                };
                adt_fine && d.type_of.is_some() && self.lang_items.drop_in_place.is_some()
            },
            DefKind::TyAlias | DefKind::Const | DefKind::AnonConst | DefKind::InlineConst
            | DefKind::Static { .. } => d.type_of.is_some(),
            DefKind::AssocTy => {
                let value_fine = match &d.defaultness {
                    None => false,
                    Some(defaultness) => !defaultness.has_value() || d.type_of.is_some(),
                };
                TyCtxt::check_assoc_item(d) && value_fine
            },
            DefKind::AssocFn => TyCtxt::check_assoc_item(d)
                && d.inline.is_some() && d.constness.is_some() && self.check_method(d),
            DefKind::AssocConst => TyCtxt::check_assoc_item(d)
                && d.type_of.is_some(),
            DefKind::Trait | DefKind::TraitAlias => match &d.self_predicate {
                None => false,
                Some(p) => !p.has_escaping_bound_vars,
            },
            DefKind::Impl { .. } => match &d.impl_subject {
                None => false,
                Some(ImplSubject::Inherent(_)) => true,
                Some(ImplSubject::Trait(tr)) => self.check_trait_impl(d, tr),
            },
            DefKind::Fn => d.fn_sig.is_some() && d.inline.is_some() && d.constness.is_some(),
            DefKind::Closure => self.check_generics(d) && self.check_closure(d),
            DefKind::Mod => TyCtxt::check_mod_children(d),
            DefKind::ForeignMod => TyCtxt::check_foreign_mod_children(d),
            DefKind::Ctor(ctor_of, _) => self.check_ctor_known(d, ctor_of),
            _ => true,
        }
    }

    fn check(&self, d: &DefData) -> (r: bool)
        requires
            self.sorted(),
        ensures
            r == self.complete(*d),
    {
        let kind = d.def_id.kind;
        let implied_fine = kind.has_implied_predicates() || d.implied_predicates.len() == 0
            && d.implied_predicates_with_drop.len() == 0;
        let adt_fine = match &d.adt_def {
            None => true,
            Some(adt) => adt.defines(&d.def_id),
        };
        let root_fine = match &d.root_body {
            None => true,
            Some(h) => self.knows(&h.owner),
        };
        d.def_id.promoted.is_none() && kind != DefKind::PromotedConst && (!kind.has_visibility()
            || d.visibility.is_some()) && (!kind.has_attributes() || d.attrs.is_some()) && (kind
            == DefKind::ForeignMod || d.def_span.is_some()) && (!d.def_id.is_local()
            || d.source_span.is_some()) && (!kind.has_param_env() || self.check_generics(d))
            && implied_fine && adt_fine && root_fine && self.check_items(&d.associated_items)
            && self.check_known(&d.inherent_impls) && self.check_kind(d)
    }

    /// Builds a table of answers. There is one exactly when the answers are given in the order of
    /// the numbers of the definitions, one for each definition, and are complete.
    pub fn new(
        defs: Vec<DefData>,
        lang_items: LangItems,
        dummy_sp: RSpan,
        isize_ty: RTy,
    ) -> (r: Option<TyCtxt>)
        ensures
            r is Some <==> (TyCtxt { defs, lang_items, dummy_sp, isize_ty }).wf(),
            r matches Some(t) ==> t == (TyCtxt { defs, lang_items, dummy_sp, isize_ty }),
    {
        let t = TyCtxt { defs, lang_items, dummy_sp, isize_ty };
        let mut i: usize = 1;
        while i < t.defs.len()
            invariant
                t == (TyCtxt { defs, lang_items, dummy_sp, isize_ty }),
                1 <= i,
                i <= t.defs@.len() || i == 1,
                forall|k: int, l: int|
                    #![trigger t.defs@[k], t.defs@[l]]
                    0 <= k < l < i && l < t.defs@.len() ==> t.defs@[k].def_id.spec_key()
                        < t.defs@[l].def_id.spec_key(),
            decreases t.defs.len() - i,
        {
            if t.defs[i - 1].def_id.key() >= t.defs[i].def_id.key() {
                assert(t.defs@[i - 1].def_id.spec_key() >= t.defs@[i as int].def_id.spec_key());
                return None;
            }
            assert(t.defs@[i - 1].def_id.spec_key() < t.defs@[i as int].def_id.spec_key());
            i = i + 1;
        }
        let mut j: usize = 0;
        while j < t.defs.len()
            invariant
                t == (TyCtxt { defs, lang_items, dummy_sp, isize_ty }),
                t.sorted(),
                j <= t.defs@.len(),
                forall|k: int| 0 <= k < j ==> t.complete(#[trigger] t.defs@[k]),
            decreases t.defs.len() - j,
        {
            if !t.check(&t.defs[j]) {
                assert(!t.complete(t.defs@[j as int]));
                return None;
            }
            j = j + 1;
        }
        Some(t)
    }
}

} // verus!
