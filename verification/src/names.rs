//! The ordered set of media names of a dataset.

use crate::error::FormatError;
use crate::text::{lemma_text_le_antisymmetric, text_le, text_lt};
use indexmap::IndexSet;
use vstd::prelude::*;

verus! {

/// The insertion-ordered hash set of `indexmap`.
#[verifier::external_type_specification]
#[verifier::external_body]
#[verifier::reject_recursive_types(T)]
#[verifier::reject_recursive_types(S)]
pub struct ExIndexSet<T, S>(IndexSet<T, S>);

/// `IndexSet`'s `clone`, which the derived `Clone` of the datasets calls.
/// Nothing is claimed of the copy.
pub assume_specification<T, S>[ <IndexSet<T, S> as Clone>::clone ](set: &IndexSet<T, S>) -> (r:
    IndexSet<T, S>)
    where T: Clone, S: Clone
;

/// The names that a set holds, in the order in which it hands them out.
pub uninterp spec fn names_of(set: IndexSet<String>) -> Seq<Seq<char>>;

/// Each name stands before every name behind it in the order of strings.
pub open spec fn sorted(names: Seq<Seq<char>>) -> bool {
    forall|i: int, j: int| 0 <= i < j < names.len() ==> text_le(names[i], names[j])
}

/// Each name stands strictly before every name behind it.
pub open spec fn strictly_sorted(names: Seq<Seq<char>>) -> bool {
    forall|i: int, j: int| 0 <= i < j < names.len() ==> text_lt(names[i], names[j])
}

/// The names of a set in the order of strings are settled by which names
/// they are: two lists in that order, each name once, that hold the same
/// names are the same list.
pub proof fn lemma_sorted_names_are_settled(a: Seq<Seq<char>>, b: Seq<Seq<char>>)
    requires
        strictly_sorted(a),
        strictly_sorted(b),
        forall|name: Seq<char>| a.contains(name) <==> b.contains(name),
    ensures
        a == b,
    decreases a.len(),
{
    if a.len() == 0 {
        if b.len() > 0 {
            assert(b.contains(b[0]));
            assert(a.contains(b[0]));
        }
        assert(a =~= b);
    } else {
        assert(a.contains(a[0]));
        assert(b.contains(a[0]));
        let k = choose|k: int| 0 <= k < b.len() && b[k] == a[0];
        assert(b.contains(b[0]));
        assert(a.contains(b[0]));
        let m = choose|m: int| 0 <= m < a.len() && a[m] == b[0];
        if k > 0 && m > 0 {
            assert(text_lt(b[0], b[k]));
            assert(text_lt(a[0], a[m]));
            lemma_text_le_antisymmetric(a[0], b[0]);
        }
        assert(a[0] == b[0]);
        let ra = a.drop_first();
        let rb = b.drop_first();
        assert forall|i: int, j: int| 0 <= i < j < ra.len() implies text_lt(ra[i], ra[j]) by {
            assert(text_lt(a[i + 1], a[j + 1]));
        }
        assert forall|i: int, j: int| 0 <= i < j < rb.len() implies text_lt(rb[i], rb[j]) by {
            assert(text_lt(b[i + 1], b[j + 1]));
        }
        assert forall|name: Seq<char>| ra.contains(name) <==> rb.contains(name) by {
            if ra.contains(name) {
                let i = choose|i: int| 0 <= i < ra.len() && ra[i] == name;
                assert(a[i + 1] == name);
                assert(text_lt(a[0], a[i + 1]));
                assert(a.contains(name));
                let j = choose|j: int| 0 <= j < b.len() && b[j] == name;
                assert(j > 0);
                assert(rb[j - 1] == name);
            }
            if rb.contains(name) {
                let i = choose|i: int| 0 <= i < rb.len() && rb[i] == name;
                assert(b[i + 1] == name);
                assert(text_lt(b[0], b[i + 1]));
                assert(b.contains(name));
                let j = choose|j: int| 0 <= j < a.len() && a[j] == name;
                assert(j > 0);
                assert(ra[j - 1] == name);
            }
        }
        lemma_sorted_names_are_settled(ra, rb);
        assert(a =~= seq![a[0]] + ra);
        assert(b =~= seq![b[0]] + rb);
    }
}

/// `IndexSet::new`: a set that holds nothing.
#[verifier::external_body]
pub(crate) fn new_names() -> (set: IndexSet<String>)
    ensures
        names_of(set) == Seq::<Seq<char>>::empty(),
{
    IndexSet::new()
}

/// `IndexSet::insert`: a name that the set does not hold goes behind the
/// others and the call returns `true`; one that it holds changes nothing
/// and the call returns `false`.
#[verifier::external_body]
pub(crate) fn insert_name(set: &mut IndexSet<String>, name: String) -> (fresh: bool)
    ensures
        fresh == !names_of(*old(set)).contains(name@),
        names_of(*final(set)) == if fresh {
            names_of(*old(set)).push(name@)
        } else {
            names_of(*old(set))
        },
{
    set.insert(name)
}

/// `IndexSet::sort_unstable`: the same names, each as often as before, in
/// the order of strings.
#[verifier::external_body]
pub(crate) fn sort_names(set: &mut IndexSet<String>)
    ensures
        names_of(*final(set)).to_multiset() == names_of(*old(set)).to_multiset(),
        sorted(names_of(*final(set))),
{
    set.sort_unstable()
}

/// `IndexSet::get`: the name as the set holds it, where it holds it.
#[verifier::external_body]
pub(crate) fn find_name<'a>(set: &'a IndexSet<String>, name: &str) -> (r: Option<&'a String>)
    ensures
        match r {
            Some(held) => held@ == name@ && names_of(*set).contains(name@),
            None => !names_of(*set).contains(name@),
        },
{
    set.get(name)
}

/// The name of a directory entry as the file system gave it: valid text,
/// or not. For one that is not, the path of the entry is kept, with what
/// cannot be shown replaced.
#[derive(Debug, Clone, PartialEq, Eq)]
pub enum ListedName {
    Text(String),
    Undecodable(String),
}

/// The model of a [`ListedName`].
pub enum ListedNameView {
    Text(Seq<char>),
    Undecodable(Seq<char>),
}

impl DeepView for ListedName {
    type V = ListedNameView;

    open spec fn deep_view(&self) -> ListedNameView {
        match self {
            ListedName::Text(name) => ListedNameView::Text(name@),
            ListedName::Undecodable(path) => ListedNameView::Undecodable(path@),
        }
    }
}

/// The path of the first entry at or after `from` whose name is not valid
/// text.
pub open spec fn first_undecodable(entries: Seq<ListedNameView>, from: int) -> Option<Seq<char>>
    decreases entries.len() - from,
{
    if from < 0 || from >= entries.len() {
        None
    } else {
        match entries[from] {
            ListedNameView::Undecodable(path) => Some(path),
            ListedNameView::Text(_) => first_undecodable(entries, from + 1),
        }
    }
}

/// The names of the first `n` entries in the order of their first
/// occurrence, each once.
pub open spec fn gathered(entries: Seq<ListedNameView>, n: int) -> Seq<Seq<char>>
    decreases n,
{
    if n <= 0 {
        Seq::empty()
    } else {
        let before = gathered(entries, n - 1);
        match entries[n - 1] {
            ListedNameView::Text(name) => if before.contains(name) {
                before
            } else {
                before.push(name)
            },
            ListedNameView::Undecodable(_) => before,
        }
    }
}

proof fn lemma_gathered(entries: Seq<ListedNameView>, n: int)
    requires
        0 <= n <= entries.len(),
    ensures
        gathered(entries, n).no_duplicates(),
        forall|name: Seq<char>|
            gathered(entries, n).contains(name) <==> exists|k: int|
                0 <= k < n && #[trigger] entries[k] == ListedNameView::Text(name),
    decreases n,
{
    if n > 0 {
        lemma_gathered(entries, n - 1);
        let before = gathered(entries, n - 1);
        let after = gathered(entries, n);
        assert forall|name: Seq<char>| after.contains(name) <==> exists|k: int|
            0 <= k < n && #[trigger] entries[k] == ListedNameView::Text(name) by {
            if after.contains(name) {
                if before.contains(name) {
                    let k = choose|k: int|
                        0 <= k < n - 1 && #[trigger] entries[k] == ListedNameView::Text(name);
                    assert(0 <= k < n && entries[k] == ListedNameView::Text(name));
                } else {
                    let i = choose|i: int| 0 <= i < after.len() && after[i] == name;
                    assert(after == before.push(name));
                    assert(entries[n - 1] == ListedNameView::Text(name));
                }
            }
            if exists|k: int| 0 <= k < n && #[trigger] entries[k] == ListedNameView::Text(name) {
                let k = choose|k: int|
                    0 <= k < n && #[trigger] entries[k] == ListedNameView::Text(name);
                if k < n - 1 {
                    assert(before.contains(name));
                    let i = choose|i: int| 0 <= i < before.len() && before[i] == name;
                    assert(after[i] == name);
                } else {
                    if !before.contains(name) {
                        assert(after[before.len() as int] == name);
                    } else {
                        let i = choose|i: int| 0 <= i < before.len() && before[i] == name;
                        assert(after[i] == name);
                    }
                }
            }
        }
    }
}

proof fn lemma_sorted_set(before: Seq<Seq<char>>, after: Seq<Seq<char>>)
    requires
        before.no_duplicates(),
        after.to_multiset() == before.to_multiset(),
        sorted(after),
    ensures
        strictly_sorted(after),
        forall|name: Seq<char>| after.contains(name) <==> before.contains(name),
{
    before.lemma_multiset_has_no_duplicates();
    after.lemma_multiset_has_no_duplicates_conv();
    before.to_multiset_ensures();
    after.to_multiset_ensures();
    assert forall|name: Seq<char>| after.contains(name) <==> before.contains(name) by {
        assert(after.contains(name) <==> after.to_multiset().count(name) > 0);
        assert(before.contains(name) <==> before.to_multiset().count(name) > 0);
    }
}

/// Gathers the names of a folder's entries into a set, in the order of
/// strings. Fails on the first entry whose name is not valid text, with the
/// path of that entry.
pub fn collect_names(entries: &Vec<ListedName>) -> (r: Result<IndexSet<String>, FormatError>)
    ensures
        match r {
            Ok(set) => {
                &&& first_undecodable(entries.deep_view(), 0) is None
                &&& strictly_sorted(names_of(set))
                &&& forall|name: Seq<char>|
                    names_of(set).contains(name) <==> entries.deep_view().contains(
                        ListedNameView::Text(name),
                    )
            },
            Err(e) => {
                &&& e matches FormatError::ExpectUtf8FileName(path)
                &&& first_undecodable(entries.deep_view(), 0) == Some(path@)
            },
        },
{
    let ghost model = entries.deep_view();
    let mut set = new_names();
    let mut i: usize = 0;
    while i < entries.len()
        invariant
            i <= entries.len(),
            model == entries.deep_view(),
            model.len() == entries.len(),
            first_undecodable(model, 0) == first_undecodable(model, i as int),
            names_of(set) == gathered(model, i as int),
        decreases entries.len() - i,
    {
        assert(model[i as int] == entries[i as int].deep_view());
        match &entries[i] {
            ListedName::Text(name) => {
                insert_name(&mut set, name.clone());
            },
            ListedName::Undecodable(path) => {
                return Err(FormatError::expect_utf8_file_name(path.as_str()));
            },
        }
        i += 1;
    }
    let ghost before = names_of(set);
    sort_names(&mut set);
    proof {
        lemma_gathered(model, model.len() as int);
        lemma_sorted_set(before, names_of(set));
        assert forall|name: Seq<char>| names_of(set).contains(name) <==> model.contains(
            ListedNameView::Text(name),
        ) by {
            if model.contains(ListedNameView::Text(name)) {
                let k = choose|k: int|
                    0 <= k < model.len() && model[k] == ListedNameView::Text(name);
                assert(model[k] == ListedNameView::Text(name));
            }
        }
    }
    Ok(set)
}

} // verus!
