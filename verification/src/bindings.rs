//! Operator-supplied input bindings.
//!
//! Bindings are kept in an insertion-ordered map. Its contents are modelled as
//! the sequence of its entries, in order, with no key occurring twice.

use indexmap::IndexMap;
use vstd::prelude::*;

use crate::text::texts;

verus! {

/// A value bound to one of an architecture's input slots.
#[derive(Debug)]
pub enum ArtifactBinding {
    /// A single text value.
    Scalar(String),
    /// A list of text values.
    List(Vec<String>),
}

/// What an [`ArtifactBinding`] holds.
#[verifier::ext_equal]
pub enum BindingView {
    Scalar(Seq<char>),
    List(Seq<Seq<char>>),
}

impl View for ArtifactBinding {
    type V = BindingView;

    open spec fn view(&self) -> BindingView {
        match *self {
            ArtifactBinding::Scalar(text) => BindingView::Scalar(text@),
            ArtifactBinding::List(items) => BindingView::List(texts(items@)),
        }
    }
}

impl Clone for ArtifactBinding {
    fn clone(&self) -> (r: Self)
        ensures
            r@ == self@,
    {
        match self {
            ArtifactBinding::Scalar(text) => ArtifactBinding::Scalar(text.clone()),
            ArtifactBinding::List(items) => {
                let copy = items.clone();
                assert(texts(copy@) =~= texts(items@));
                ArtifactBinding::List(copy)
            },
        }
    }
}

/// The entries of a map of bindings: each key with its value, in order.
pub type Entries = Seq<(Seq<char>, BindingView)>;

/// Whether `key` is bound in `entries`.
pub open spec fn is_bound(entries: Entries, key: Seq<char>) -> bool {
    exists|i: int| 0 <= i < entries.len() && (#[trigger] entries[i]).0 == key
}

/// Whether no key occurs twice in `entries`.
pub open spec fn keys_distinct(entries: Entries) -> bool {
    forall|i: int, j: int|
        0 <= i < j < entries.len() ==> (#[trigger] entries[i]).0 != (#[trigger] entries[j]).0
}

/// The place of a bound key.
pub open spec fn place(entries: Entries, key: Seq<char>) -> int
    recommends
        is_bound(entries, key),
{
    choose|i: int| 0 <= i < entries.len() && (#[trigger] entries[i]).0 == key
}

/// The value bound to `key`, if any.
pub open spec fn value_of(entries: Entries, key: Seq<char>) -> Option<BindingView> {
    if is_bound(entries, key) {
        Some(entries[place(entries, key)].1)
    } else {
        None
    }
}

/// `entries` after `key` has been bound to `value`: a key that was bound keeps
/// its place, a new one comes last.
pub open spec fn bind(entries: Entries, key: Seq<char>, value: BindingView) -> Entries {
    if is_bound(entries, key) {
        entries.update(place(entries, key), (key, value))
    } else {
        entries.push((key, value))
    }
}

/// `indexmap::IndexMap`, an insertion-ordered hash map.
#[verifier::external_type_specification]
#[verifier::external_body]
#[verifier::reject_recursive_types(K)]
#[verifier::reject_recursive_types(V)]
#[verifier::reject_recursive_types(S)]
pub struct ExIndexMap<K, V, S>(indexmap::IndexMap<K, V, S>);

/// The entries that a map of bindings holds, in the map's order.
pub uninterp spec fn entries_of(map: IndexMap<String, ArtifactBinding>) -> Seq<(Seq<char>, BindingView)>;

/// `IndexMap::new`: the map is empty.
#[verifier::external_body]
pub(crate) fn no_bindings() -> (map: IndexMap<String, ArtifactBinding>)
    ensures
        entries_of(map) == Seq::<(Seq<char>, BindingView)>::empty(),
{
    IndexMap::new()
}

/// `IndexMap::insert`: a key that is there already keeps its place and takes
/// the new value, and the value it had is returned; a new key is placed last.
#[verifier::external_body]
pub(crate) fn insert_binding(
    map: &mut IndexMap<String, ArtifactBinding>,
    key: String,
    value: ArtifactBinding,
) -> (replaced: Option<ArtifactBinding>)
    ensures
        entries_of(*final(map)) == bind(entries_of(*old(map)), key@, value@),
        match replaced {
            Some(earlier) => value_of(entries_of(*old(map)), key@) == Some(earlier@),
            None => !is_bound(entries_of(*old(map)), key@),
        },
{
    map.insert(key, value)
}

/// `IndexMap::clone`: the copy has equal entries, in the same order.
#[verifier::external_body]
pub(crate) fn clone_bindings(map: &IndexMap<String, ArtifactBinding>) -> (copy: IndexMap<
    String,
    ArtifactBinding,
>)
    ensures
        entries_of(copy) == entries_of(*map),
{
    map.clone()
}

/// The place of a bound key is the only one that holds it.
proof fn lemma_place(entries: Entries, key: Seq<char>, i: int)
    requires
        keys_distinct(entries),
        0 <= i < entries.len(),
        entries[i].0 == key,
    ensures
        is_bound(entries, key),
        place(entries, key) == i,
{
    let j = place(entries, key);
    assert(0 <= j < entries.len() && entries[j].0 == key);
}

/// Binding a key leaves no key occurring twice.
pub proof fn law_bind_keeps_keys_distinct(entries: Entries, key: Seq<char>, value: BindingView)
    requires
        keys_distinct(entries),
    ensures
        keys_distinct(bind(entries, key, value)),
{
    let after = bind(entries, key, value);
    if is_bound(entries, key) {
        let p = place(entries, key);
        assert(entries[p].0 == key);
        assert forall|i: int, j: int| 0 <= i < j < after.len() implies (#[trigger] after[i]).0
            != (#[trigger] after[j]).0 by {
            assert(after[i].0 == entries[i].0 && after[j].0 == entries[j].0);
        }
    } else {
        assert forall|i: int, j: int| 0 <= i < j < after.len() implies (#[trigger] after[i]).0
            != (#[trigger] after[j]).0 by {
            assert(after[i] == entries[i]);
        }
    }
}

/// A bound key reads back the value that it was bound to.
pub proof fn law_bind_reads_back(entries: Entries, key: Seq<char>, value: BindingView)
    requires
        keys_distinct(entries),
    ensures
        value_of(bind(entries, key, value), key) == Some(value),
{
    let after = bind(entries, key, value);
    law_bind_keeps_keys_distinct(entries, key, value);
    if is_bound(entries, key) {
        lemma_place(after, key, place(entries, key));
    } else {
        lemma_place(after, key, entries.len() as int);
    }
}

/// Binding one key changes what no other key reads.
pub proof fn law_bind_keeps_others(
    entries: Entries,
    key: Seq<char>,
    value: BindingView,
    other: Seq<char>,
)
    requires
        keys_distinct(entries),
        other != key,
    ensures
        value_of(bind(entries, key, value), other) == value_of(entries, other),
{
    let after = bind(entries, key, value);
    law_bind_keeps_keys_distinct(entries, key, value);
    if is_bound(entries, other) {
        let p = place(entries, other);
        assert(entries[p].0 == other);
        assert(after[p] == entries[p]);
        lemma_place(after, other, p);
    } else if is_bound(after, other) {
        let p = place(after, other);
        assert(after[p].0 == other);
        assert(after[p] == entries[p]);
    }
}

/// Binding a key moves no key: every key keeps its place, and a new key comes
/// last.
pub proof fn law_bind_keeps_order(entries: Entries, key: Seq<char>, value: BindingView)
    ensures
        bind(entries, key, value).len() == entries.len() + (if is_bound(entries, key) {
            0int
        } else {
            1
        }),
        forall|i: int|
            0 <= i < entries.len() ==> (#[trigger] bind(entries, key, value)[i]).0 == entries[i].0,
        !is_bound(entries, key) ==> bind(entries, key, value).last() == (key, value),
{
}

/// Of two values bound to one key, the later one stands.
pub proof fn law_last_binding_wins(
    entries: Entries,
    key: Seq<char>,
    earlier: BindingView,
    later: BindingView,
)
    requires
        keys_distinct(entries),
    ensures
        bind(bind(entries, key, earlier), key, later) == bind(entries, key, later),
{
    let once = bind(entries, key, earlier);
    law_bind_keeps_keys_distinct(entries, key, earlier);
    let p = if is_bound(entries, key) {
        place(entries, key)
    } else {
        entries.len() as int
    };
    lemma_place(once, key, p);
    assert(bind(once, key, later) =~= bind(entries, key, later));
}

} // verus!
