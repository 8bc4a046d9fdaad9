//! What holds of the children of definitions.
use crate::children::{assoc_children, child, inherent_children, named_items, own_children, Child};
use crate::def_id::DefId;
use crate::export_laws::{count, lemma_count, name_of};
use crate::full_def::{FullDef, FullDefKind, ImplAssocItem, ImplAssocItemValue};
use crate::tcx::TyCtxt;
use crate::ty::{AdtKind, AssocItem, Ident, RAssocItem};
use std::sync::Arc;
use vstd::prelude::*;

verus! {

/// What `f` makes of the element at `p` stands at the number of flags that are set before it.
spec fn is_filtered<A, B>(
    s: Seq<A>,
    f: spec_fn(A) -> Option<B>,
    flags: Seq<bool>,
    p: int,
) -> bool {
    &&& 0 <= count(flags, p) < s.filter_map(f).len()
    &&& f(s[p]) == Some(s.filter_map(f)[count(flags, p)])
}

proof fn lemma_filter_map<A, B>(s: Seq<A>, f: spec_fn(A) -> Option<B>, flags: Seq<bool>)
    requires
        flags.len() == s.len(),
        forall|i: int| 0 <= i < s.len() ==> flags[i] == (f(#[trigger] s[i]) is Some),
    ensures
        s.filter_map(f).len() == count(flags, s.len() as int),
        forall|p: int|
            #![trigger s[p]]
            0 <= p < s.len() && flags[p] ==> is_filtered(s, f, flags, p),
    decreases s.len(),
{
    if s.len() > 0 {
        let rest = s.drop_last();
        let front = flags.drop_last();
        let n = rest.len() as int;
        assert forall|i: int| 0 <= i < rest.len() implies front[i] == (f(
            #[trigger] rest[i],
        ) is Some) by {
            assert(rest[i] == s[i]);
        }
        lemma_filter_map(rest, f, front);
        lemma_count(flags, front, n, n);
        assert(flags[n] == (f(s[n]) is Some));
        assert forall|p: int|
            #![trigger s[p]]
            0 <= p < s.len() && flags[p] implies is_filtered(s, f, flags, p) by {
            lemma_count(flags, front, p, n);
            if p < n {
                assert(rest[p] == s[p]);
                assert(is_filtered(rest, f, front, p));
            }
        }
    }
}

/// Which items of a module have a name.
pub open spec fn named_in_mod(items: Seq<(Option<Ident>, DefId)>) -> Seq<bool> {
    Seq::new(items.len(), |i: int| items[i].0 is Some)
}

/// Which items of a trait or an inherent impl have a name.
pub open spec fn named_in_items<Body>(items: Seq<(AssocItem, Arc<FullDef<Body>>)>) -> Seq<bool> {
    Seq::new(items.len(), |i: int| items[i].0.name is Some)
}

/// Which items of a trait impl have a name.
pub open spec fn named_in_impl<Body>(items: Seq<ImplAssocItem<Body>>) -> Seq<bool> {
    Seq::new(items.len(), |i: int| items[i].name is Some)
}

/// Which associated items have a name.
pub open spec fn named_flags(items: Seq<RAssocItem>) -> Seq<bool> {
    Seq::new(items.len(), |i: int| name_of(items[i].kind) is Some)
}

/// The named items, each once, in order, each under its name.
pub open spec fn lists_assocs<Body>(
    children: Seq<Child>,
    items: Seq<(AssocItem, Arc<FullDef<Body>>)>,
) -> bool {
    let flags = named_in_items(items);
    &&& children.len() == count(flags, items.len() as int)
    &&& forall|p: int|
        #![trigger items[p]]
        0 <= p < items.len() && items[p].0.name is Some ==> children[count(flags, p)] == (
            items[p].0.name->0,
            items[p].0.def_id,
        )
}

/// The children that a full definition lists itself: the named items of a module, of a trait or of
/// an impl, each once and in order, and the variants of an enum. What a trait impl lists for an
/// item is the definition that it provides, or else that of the trait. No other kind of definition
/// lists children.
pub proof fn own_children_are_listed_once<Body>(kind: FullDefKind<Body>)
    ensures
        match kind {
            FullDefKind::Mod { items } => {
                let flags = named_in_mod(items@);
                &&& own_children(kind).len() == count(flags, items@.len() as int)
                &&& forall|p: int|
                    #![trigger items@[p]]
                    0 <= p < items@.len() ==> (items@[p].0 matches Some(ident) ==> own_children(
                        kind,
                    )[count(flags, p)] == (ident.0, items@[p].1))
            },
            FullDefKind::Adt { adt_kind, variants, .. } => if adt_kind == AdtKind::Enum {
                &&& own_children(kind).len() == variants@.len()
                &&& forall|p: int|
                    #![trigger variants@[p]]
                    0 <= p < variants@.len() ==> own_children(kind)[p] == (
                        variants@[p].name,
                        variants@[p].def_id,
                    )
            } else {
                own_children(kind).len() == 0
            },
            FullDefKind::InherentImpl { items, .. } => lists_assocs(own_children(kind), items@),
            FullDefKind::Trait { items, .. } => lists_assocs(own_children(kind), items@),
            FullDefKind::TraitImpl { items, .. } => {
                let flags = named_in_impl(items@);
                &&& own_children(kind).len() == count(flags, items@.len() as int)
                &&& forall|p: int|
                    #![trigger items@[p]]
                    0 <= p < items@.len() && items@[p].name is Some ==> own_children(
                        kind,
                    )[count(flags, p)] == (
                        items@[p].name->0,
                        match items@[p].value {
                            ImplAssocItemValue::Provided { def, .. } => def.def_id,
                            _ => items@[p].decl_def.def_id,
                        },
                    )
            },
            _ => own_children(kind).len() == 0,
        },
{
    match kind {
        FullDefKind::Mod { items } => {
            lemma_filter_map(
                items@,
                |item: (Option<Ident>, DefId)|
                    child(
                        match item.0 {
                            Some(ident) => Some(ident.0),
                            None => None,
                        },
                        item.1,
                    ),
                named_in_mod(items@),
            );
        },
        FullDefKind::InherentImpl { items, .. } => {
            lemma_assocs(items@);
        },
        FullDefKind::Trait { items, .. } => {
            lemma_assocs(items@);
        },
        FullDefKind::TraitImpl { items, .. } => {
            lemma_filter_map(
                items@,
                |item: ImplAssocItem<Body>| child(item.name, item.spec_def().def_id),
                named_in_impl(items@),
            );
        },
        _ => {},
    }
}

proof fn lemma_assocs<Body>(items: Seq<(AssocItem, Arc<FullDef<Body>>)>)
    ensures
        lists_assocs(assoc_children(items), items),
{
    lemma_filter_map(
        items,
        |item: (AssocItem, Arc<FullDef<Body>>)| child(item.0.name, item.0.def_id),
        named_in_items(items),
    );
}

/// The number of named items of the impls together.
pub open spec fn named_total(tcx: TyCtxt, impls: Seq<DefId>) -> int
    decreases impls.len(),
{
    if impls.len() == 0 {
        0
    } else {
        let items = tcx.data(impls.last()).associated_items@;
        named_total(tcx, impls.drop_last()) + count(named_flags(items), items.len() as int)
    }
}

/// The named items of one impl, each once, in order, each under its name.
pub proof fn items_of_an_impl_are_listed_once(tcx: TyCtxt, impl_id: DefId)
    ensures
        ({
            let items = tcx.data(impl_id).associated_items@;
            let flags = named_flags(items);
            let listed = inherent_children(tcx, seq![impl_id]);
            &&& listed.len() == count(flags, items.len() as int)
            &&& forall|p: int|
                #![trigger items[p]]
                0 <= p < items.len() ==> (name_of(items[p].kind) matches Some(name)
                    ==> listed[count(flags, p)] == (name, items[p].def_id))
        }),
{
    let items = tcx.data(impl_id).associated_items@;
    let one = seq![impl_id];
    reveal_with_fuel(inherent_children, 2);
    assert(one.drop_last() =~= Seq::<DefId>::empty());
    assert(inherent_children(tcx, one) =~= named_items(items));
    lemma_filter_map(
        items,
        |item: RAssocItem| child(item.spec_opt_name(), item.def_id),
        named_flags(items),
    );
}

/// The inherent children of two lists of impls put together are those of the first followed by
/// those of the second.
pub proof fn inherent_children_add_up(tcx: TyCtxt, a: Seq<DefId>, b: Seq<DefId>)
    ensures
        inherent_children(tcx, a + b) == inherent_children(tcx, a) + inherent_children(tcx, b),
        inherent_children(tcx, Seq::empty()).len() == 0,
    decreases b.len(),
{
    if b.len() == 0 {
        assert(a + b =~= a);
        assert(inherent_children(tcx, a) + inherent_children(tcx, b) =~= inherent_children(tcx, a));
    } else {
        inherent_children_add_up(tcx, a, b.drop_last());
        assert((a + b).drop_last() =~= a + b.drop_last());
        assert((a + b).last() == b.last());
        assert(inherent_children(tcx, a + b) =~= inherent_children(tcx, a) + inherent_children(
            tcx,
            b,
        ));
    }
}

/// There are as many inherent children as the impls have named items together.
pub proof fn inherent_children_are_counted(tcx: TyCtxt, impls: Seq<DefId>)
    ensures
        inherent_children(tcx, impls).len() == named_total(tcx, impls),
    decreases impls.len(),
{
    if impls.len() > 0 {
        inherent_children_are_counted(tcx, impls.drop_last());
        inherent_children_add_up(tcx, impls.drop_last(), seq![impls.last()]);
        assert(impls.drop_last() + seq![impls.last()] =~= impls);
        items_of_an_impl_are_listed_once(tcx, impls.last());
    }
}

/// The named items of the `n`th inherent impl stand after those of the impls before it, and each
/// stands there once: the one at `p` stands at the number of named items before it.
pub proof fn inherent_items_have_their_place(tcx: TyCtxt, impls: Seq<DefId>, n: int, p: int)
    requires
        0 <= n < impls.len(),
        0 <= p < tcx.data(impls[n]).associated_items@.len(),
        name_of(tcx.data(impls[n]).associated_items@[p].kind) is Some,
    ensures
        ({
            let items = tcx.data(impls[n]).associated_items@;
            let at = named_total(tcx, impls.take(n)) + count(named_flags(items), p);
            &&& 0 <= at < inherent_children(tcx, impls).len()
            &&& inherent_children(tcx, impls)[at] == (name_of(items[p].kind)->0, items[p].def_id)
        }),
{
    let items = tcx.data(impls[n]).associated_items@;
    let flags = named_flags(items);
    let one = seq![impls[n]];
    let rest = impls.skip(n + 1);
    assert(impls.take(n) + one + rest =~= impls);
    inherent_children_add_up(tcx, impls.take(n) + one, rest);
    inherent_children_add_up(tcx, impls.take(n), one);
    inherent_children_are_counted(tcx, impls.take(n));
    items_of_an_impl_are_listed_once(tcx, impls[n]);
    lemma_count(flags, flags, p, items.len() as int);
}

/// The children of a definition are those that it lists itself, followed by the items of its
/// inherent impls. A promoted constant has no inherent impls.
pub proof fn children_are_own_and_inherent<Body>(def: &FullDef<Body>, tcx: TyCtxt)
    ensures
        def.def_id.promoted is None ==> def.spec_nameable_children(tcx) == own_children(def.kind)
            + inherent_children(tcx, tcx.data(def.def_id).inherent_impls@),
        def.def_id.promoted is Some ==> def.spec_nameable_children(tcx) == own_children(def.kind),
{
}

} // verus!
