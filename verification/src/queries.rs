//! Questions to the compiler about one definition. Each has to be one that the compiler answers.
use crate::def_id::DefId;
use crate::span::RSpan;
use crate::tcx::TyCtxt;
use crate::ty::{
    Attribute, Constness, Defaultness, ImplPolarity, ImplSubject, InlineAttr, RAdtDef, RAssocItem,
    RFnSig, RGenerics, RTraitRef, RTy, Visibility,
};
use vstd::prelude::*;

verus! {

impl TyCtxt {
    /// Who can see the definition.
    pub fn visibility(&self, id: &DefId) -> (r: &Visibility)
        requires
            self.sorted(),
            self.has(*id),
            self.data(*id).visibility is Some,
        ensures
            *r == self.data(*id).visibility->0,
    {
        self.get(id).visibility.as_ref().unwrap()
    }

    /// The attributes of the definition.
    pub fn get_attrs_unchecked(&self, id: &DefId) -> (r: &Vec<Attribute>)
        requires
            self.sorted(),
            self.has(*id),
            self.data(*id).attrs is Some,
        ensures
            *r == self.data(*id).attrs->0,
    {
        self.get(id).attrs.as_ref().unwrap()
    }

    /// The place of the definition that diagnostics point to.
    pub fn def_span(&self, id: &DefId) -> (r: &RSpan)
        requires
            self.sorted(),
            self.has(*id),
            self.data(*id).def_span is Some,
        ensures
            *r == self.data(*id).def_span->0,
    {
        self.get(id).def_span.as_ref().unwrap()
    }

    /// The place of the whole definition.
    pub fn source_span(&self, id: &DefId) -> (r: &RSpan)
        requires
            self.sorted(),
            self.has(*id),
            self.data(*id).source_span is Some,
        ensures
            *r == self.data(*id).source_span->0,
    {
        self.get(id).source_span.as_ref().unwrap()
    }

    /// The generics of the definition.
    pub fn generics_of(&self, id: &DefId) -> (r: &RGenerics)
        requires
            self.sorted(),
            self.has(*id),
            self.data(*id).generics is Some,
        ensures
            *r == self.data(*id).generics->0,
    {
        self.get(id).generics.as_ref().unwrap()
    }

    /// The type that the definition declares.
    pub fn type_of(&self, id: &DefId) -> (r: &RTy)
        requires
            self.sorted(),
            self.has(*id),
            self.data(*id).type_of is Some,
        ensures
            *r == self.data(*id).type_of->0,
    {
        self.get(id).type_of.as_ref().unwrap()
    }

    /// The variants and fields of a struct, union or enum.
    pub fn adt_def(&self, id: &DefId) -> (r: &RAdtDef)
        requires
            self.sorted(),
            self.has(*id),
            self.data(*id).adt_def is Some,
        ensures
            *r == self.data(*id).adt_def->0,
    {
        self.get(id).adt_def.as_ref().unwrap()
    }

    /// The definition as an associated item.
    pub fn associated_item(&self, id: &DefId) -> (r: &RAssocItem)
        requires
            self.sorted(),
            self.has(*id),
            self.data(*id).associated_item is Some,
        ensures
            *r == self.data(*id).associated_item->0,
    {
        self.get(id).associated_item.as_ref().unwrap()
    }

    /// What an impl is for.
    pub fn impl_subject(&self, id: &DefId) -> (r: &ImplSubject)
        requires
            self.sorted(),
            self.has(*id),
            self.data(*id).impl_subject is Some,
        ensures
            *r == self.data(*id).impl_subject->0,
    {
        self.get(id).impl_subject.as_ref().unwrap()
    }

    /// Whether an associated item has a value and can be overridden.
    pub fn defaultness(&self, id: &DefId) -> (r: Defaultness)
        requires
            self.sorted(),
            self.has(*id),
            self.data(*id).defaultness is Some,
        ensures
            r == self.data(*id).defaultness->0,
    {
        self.get(id).defaultness.unwrap()
    }

    /// Whether an impl says that a trait is implemented.
    pub fn impl_polarity(&self, id: &DefId) -> (r: ImplPolarity)
        requires
            self.sorted(),
            self.has(*id),
            self.data(*id).impl_polarity is Some,
        ensures
            r == self.data(*id).impl_polarity->0,
    {
        self.get(id).impl_polarity.unwrap()
    }

    /// The signature that a function declares.
    pub fn fn_sig(&self, id: &DefId) -> (r: RFnSig)
        requires
            self.sorted(),
            self.has(*id),
            self.data(*id).fn_sig is Some,
        ensures
            r == self.data(*id).fn_sig->0,
    {
        self.get(id).fn_sig.unwrap()
    }

    /// The `inline` attribute of a function.
    pub fn inline_attr(&self, id: &DefId) -> (r: InlineAttr)
        requires
            self.sorted(),
            self.has(*id),
            self.data(*id).inline is Some,
        ensures
            r == self.data(*id).inline->0,
    {
        self.get(id).inline.unwrap()
    }

    /// Whether a function is a `const fn`.
    pub fn constness(&self, id: &DefId) -> (r: Constness)
        requires
            self.sorted(),
            self.has(*id),
            self.data(*id).constness is Some,
        ensures
            r == self.data(*id).constness->0,
    {
        self.get(id).constness.unwrap()
    }

    /// The associated items of a trait or an impl, in the order of their definition.
    pub fn associated_items(&self, id: &DefId) -> (r: &Vec<RAssocItem>)
        requires
            self.sorted(),
            self.has(*id),
        ensures
            *r == self.data(*id).associated_items,
    {
        &self.get(id).associated_items
    }

    pub open spec fn spec_impl_trait_ref(self, id: DefId) -> Option<RTraitRef> {
        match self.data(id).impl_subject {
            Some(ImplSubject::Trait(t)) => Some(t),
            _ => None,
        }
    }

    /// The trait that an impl is for, if it is for one.
    pub fn impl_trait_ref(&self, id: &DefId) -> (r: Option<&RTraitRef>)
        requires
            self.sorted(),
            self.has(*id),
        ensures
            match r {
                Some(t) => self.spec_impl_trait_ref(*id) == Some(*t),
                None => self.spec_impl_trait_ref(*id) is None,
            },
    {
        match &self.get(id).impl_subject {
            Some(ImplSubject::Trait(t)) => Some(t),
            _ => None,
        }
    }
}

} // verus!
