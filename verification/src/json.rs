//! The generic JSON value tree that every decoder reads and every encoder
//! writes, with its mathematical model.

use crate::error::SchemaError;
use crate::text::same_text;
use vstd::prelude::*;
use vstd::string::StringExecFns;

verus! {

/// A JSON number, classified the way the text parser classifies it.
///
/// A float is held by the 64 bits of its IEEE-754 double representation.
#[derive(Clone, Copy, Debug, PartialEq, Eq, Structural)]
pub enum JsonNumber {
    PosInt(u64),
    NegInt(i64),
    Float(u64),
}

/// A JSON value. An object keeps its members in document order.
#[derive(Debug, PartialEq, Eq)]
pub enum Json {
    Null,
    Bool(bool),
    Number(JsonNumber),
    Text(String),
    Array(Vec<Json>),
    Object(Vec<(String, Json)>),
}

/// The mathematical model of a [`Json`] value.
pub enum JsonView {
    Null,
    Bool(bool),
    Number(JsonNumber),
    Text(Seq<char>),
    Array(Seq<JsonView>),
    Object(Seq<(Seq<char>, JsonView)>),
}

/// The model of a value: the same tree, with each string and each list
/// replaced by the sequence it holds.
pub open spec fn json_view(j: Json) -> JsonView
    decreases j,
{
    match j {
        Json::Null => JsonView::Null,
        Json::Bool(b) => JsonView::Bool(b),
        Json::Number(n) => JsonView::Number(n),
        Json::Text(s) => JsonView::Text(s@),
        Json::Array(items) => JsonView::Array(
            Seq::new(
                items.len() as nat,
                |i: int|
                    if 0 <= i < items.len() {
                        json_view(items[i])
                    } else {
                        JsonView::Null
                    },
            ),
        ),
        Json::Object(members) => JsonView::Object(
            Seq::new(
                members.len() as nat,
                |i: int|
                    if 0 <= i < members.len() {
                        (members[i].0@, json_view(members[i].1))
                    } else {
                        (Seq::empty(), JsonView::Null)
                    },
            ),
        ),
    }
}

impl DeepView for Json {
    type V = JsonView;

    open spec fn deep_view(&self) -> JsonView {
        json_view(*self)
    }
}

/// The first member at or after position `from` whose key is `key`.
pub open spec fn find_member(
    members: Seq<(Seq<char>, JsonView)>,
    key: Seq<char>,
    from: int,
) -> Option<JsonView>
    decreases members.len() - from,
{
    if from < 0 || from >= members.len() {
        None
    } else if members[from].0 == key {
        Some(members[from].1)
    } else {
        find_member(members, key, from + 1)
    }
}

/// No member before position `i` is named `key`.
pub open spec fn no_key_before(members: Seq<(Seq<char>, JsonView)>, key: Seq<char>, i: int) -> bool
    decreases i,
{
    i <= 0 || (members[i - 1].0 != key && no_key_before(members, key, i - 1))
}

/// The member at position `i` is the one that a lookup of its key finds,
/// where no earlier member has that key.
pub proof fn lemma_member_at(members: Seq<(Seq<char>, JsonView)>, key: Seq<char>, i: int)
    requires
        0 <= i < members.len(),
        members[i].0 == key,
        no_key_before(members, key, i),
    ensures
        find_member(members, key, 0) == Some(members[i].1),
{
    lemma_no_key_before(members, key, i);
    lemma_member_from(members, key, i, 0);
}

proof fn lemma_no_key_before(members: Seq<(Seq<char>, JsonView)>, key: Seq<char>, i: int)
    requires
        no_key_before(members, key, i),
    ensures
        forall|k: int| 0 <= k < i ==> (#[trigger] members[k]).0 != key,
    decreases i,
{
    if i > 0 {
        lemma_no_key_before(members, key, i - 1);
    }
}

proof fn lemma_member_from(members: Seq<(Seq<char>, JsonView)>, key: Seq<char>, i: int, from: int)
    requires
        0 <= from <= i < members.len(),
        members[i].0 == key,
        forall|k: int| 0 <= k < i ==> (#[trigger] members[k]).0 != key,
    ensures
        find_member(members, key, from) == Some(members[i].1),
    decreases i - from,
{
    if from < i {
        assert(members[from].0 != key);
        lemma_member_from(members, key, i, from + 1);
    }
}

/// A lookup in two member lists put one behind the other finds what the
/// first holds, and what the second holds where the first holds nothing.
pub proof fn lemma_member_of_both(
    first: Seq<(Seq<char>, JsonView)>,
    second: Seq<(Seq<char>, JsonView)>,
    key: Seq<char>,
)
    ensures
        find_member(first + second, key, 0) == match find_member(first, key, 0) {
            Some(v) => Some(v),
            None => find_member(second, key, 0),
        },
{
    lemma_member_of_both_from(first, second, key, 0);
}

proof fn lemma_member_of_both_from(
    first: Seq<(Seq<char>, JsonView)>,
    second: Seq<(Seq<char>, JsonView)>,
    key: Seq<char>,
    from: int,
)
    requires
        0 <= from <= first.len() + second.len(),
    ensures
        find_member(first + second, key, from) == if from <= first.len() {
            match find_member(first, key, from) {
                Some(v) => Some(v),
                None => find_member(second, key, 0),
            }
        } else {
            find_member(second, key, from - first.len())
        },
    decreases first.len() + second.len() - from,
{
    let both = first + second;
    if from < both.len() {
        lemma_member_of_both_from(first, second, key, from + 1);
        if from < first.len() {
            assert(both[from] == first[from]);
        } else {
            assert(both[from] == second[from - first.len()]);
        }
    }
}

/// No two members have the same name.
pub open spec fn distinct_keys(members: Seq<(Seq<char>, JsonView)>) -> bool {
    forall|i: int, j: int|
        0 <= i < j < members.len() ==> (#[trigger] members[i]).0 != (#[trigger] members[j]).0
}

/// The first `n` members have names that differ from one another.
pub open spec fn keys_differ(members: Seq<(Seq<char>, JsonView)>, n: int) -> bool
    decreases n,
{
    n <= 1 || (no_key_before(members, members[n - 1].0, n - 1) && keys_differ(members, n - 1))
}

/// Members whose names differ one by one have distinct names.
pub proof fn lemma_keys_differ(members: Seq<(Seq<char>, JsonView)>, n: int)
    requires
        0 <= n <= members.len(),
        keys_differ(members, n),
    ensures
        forall|i: int, j: int|
            0 <= i < j < n ==> (#[trigger] members[i]).0 != (#[trigger] members[j]).0,
    decreases n,
{
    if n > 1 {
        lemma_keys_differ(members, n - 1);
        lemma_no_key_before(members, members[n - 1].0, n - 1);
    }
}

/// The members from position `from` on whose value is not `null`, in their
/// order.
pub open spec fn present_from(members: Seq<(Seq<char>, JsonView)>, from: int) -> Seq<
    (Seq<char>, JsonView),
>
    decreases members.len() - from,
{
    if from < 0 || from >= members.len() {
        Seq::empty()
    } else if members[from].1 == JsonView::Null {
        present_from(members, from + 1)
    } else {
        seq![members[from]] + present_from(members, from + 1)
    }
}

/// The members whose value is not `null`, in their order: what is written
/// of a list of members of which some may have no value.
pub open spec fn present(members: Seq<(Seq<char>, JsonView)>) -> Seq<(Seq<char>, JsonView)> {
    present_from(members, 0)
}

/// A member list with one more member behind it, where that member has a
/// value.
pub open spec fn with_member(
    members: Seq<(Seq<char>, JsonView)>,
    key: Seq<char>,
    value: JsonView,
) -> Seq<(Seq<char>, JsonView)> {
    if value == JsonView::Null {
        members
    } else {
        members.push((key, value))
    }
}

proof fn lemma_present_push_from(
    members: Seq<(Seq<char>, JsonView)>,
    key: Seq<char>,
    value: JsonView,
    from: int,
)
    requires
        0 <= from <= members.len(),
    ensures
        present_from(members.push((key, value)), from) == with_member(
            present_from(members, from),
            key,
            value,
        ),
    decreases members.len() - from,
{
    let more = members.push((key, value));
    if from < members.len() {
        lemma_present_push_from(members, key, value, from + 1);
        assert(more[from] == members[from]);
        if members[from].1 != JsonView::Null {
            assert(present_from(more, from) =~= with_member(
                present_from(members, from),
                key,
                value,
            ));
        }
    } else {
        assert(present_from(more, from + 1) =~= Seq::empty());
        assert(present_from(more, from) =~= with_member(
            present_from(members, from),
            key,
            value,
        ));
    }
}

/// Putting a member behind the members that have a value gives the members
/// that have a value of the longer list.
pub proof fn lemma_with_member(members: Seq<(Seq<char>, JsonView)>, key: Seq<char>, value: JsonView)
    ensures
        with_member(present(members), key, value) == present(members.push((key, value))),
{
    lemma_present_push_from(members, key, value, 0);
}

/// Each member that has a value is one of the members, with a value; and
/// where the names of the members are distinct, so are theirs.
pub proof fn lemma_present_members(members: Seq<(Seq<char>, JsonView)>, from: int)
    requires
        0 <= from,
    ensures
        forall|i: int|
            0 <= i < present_from(members, from).len() ==> exists|p: int|
                from <= p < members.len() && members[p].1 != JsonView::Null
                    && #[trigger] present_from(members, from)[i] == members[p],
        distinct_keys(members) ==> distinct_keys(present_from(members, from)),
    decreases members.len() - from,
{
    if from < members.len() {
        lemma_present_members(members, from + 1);
        let rest = present_from(members, from + 1);
        let all = present_from(members, from);
        assert forall|i: int| 0 <= i < all.len() implies exists|p: int|
            from <= p < members.len() && members[p].1 != JsonView::Null && #[trigger] all[i]
                == members[p] by {
            if members[from].1 == JsonView::Null {
                let p = choose|p: int|
                    from + 1 <= p < members.len() && members[p].1 != JsonView::Null && rest[i]
                        == members[p];
                assert(all[i] == members[p]);
            } else if i == 0 {
                assert(all[i] == members[from]);
            } else {
                let p = choose|p: int|
                    from + 1 <= p < members.len() && members[p].1 != JsonView::Null && rest[i
                        - 1] == members[p];
                assert(all[i] == members[p]);
            }
        }
        if distinct_keys(members) && members[from].1 != JsonView::Null {
            assert forall|i: int, j: int| 0 <= i < j < all.len() implies (#[trigger] all[i]).0 != (
            #[trigger] all[j]).0 by {
                let q = choose|q: int|
                    from + 1 <= q < members.len() && members[q].1 != JsonView::Null && rest[j
                        - 1] == members[q];
                if i == 0 {
                    assert(all[0] == members[from]);
                } else {
                    assert(rest[i - 1].0 != rest[j - 1].0);
                }
            }
        }
    }
}

proof fn lemma_present_member_from(members: Seq<(Seq<char>, JsonView)>, key: Seq<char>, from: int)
    requires
        0 <= from,
        distinct_keys(members),
    ensures
        find_member(present_from(members, from), key, 0) == match find_member(members, key, from) {
            Some(v) => if v == JsonView::Null {
                None
            } else {
                Some(v)
            },
            None => None,
        },
    decreases members.len() - from,
{
    if from < members.len() {
        lemma_present_member_from(members, key, from + 1);
        let rest = present_from(members, from + 1);
        if members[from].0 == key {
            lemma_member_absent_from(members, key, from + 1);
        }
        if members[from].1 != JsonView::Null {
            lemma_member_of_both(seq![members[from]], rest, key);
            reveal_with_fuel(find_member, 2);
        }
    }
}

proof fn lemma_member_absent_from(members: Seq<(Seq<char>, JsonView)>, key: Seq<char>, from: int)
    requires
        0 <= from <= members.len(),
        forall|k: int| from <= k < members.len() ==> (#[trigger] members[k]).0 != key,
    ensures
        find_member(members, key, from) is None,
    decreases members.len() - from,
{
    if from < members.len() {
        assert(members[from].0 != key);
        lemma_member_absent_from(members, key, from + 1);
    }
}

/// A lookup among the members that have a value finds what a lookup among
/// all of them finds, unless that is `null`.
pub proof fn lemma_present_member(members: Seq<(Seq<char>, JsonView)>, key: Seq<char>)
    requires
        distinct_keys(members),
    ensures
        find_member(present(members), key, 0) == match find_member(members, key, 0) {
            Some(v) => if v == JsonView::Null {
                None
            } else {
                Some(v)
            },
            None => None,
        },
{
    lemma_present_member_from(members, key, 0);
}

/// The member at position `i` is what a lookup of its name finds among the
/// members that have a value, unless its value is `null`.
pub proof fn lemma_present_at(members: Seq<(Seq<char>, JsonView)>, key: Seq<char>, i: int)
    requires
        0 <= i < members.len(),
        members[i].0 == key,
        distinct_keys(members),
    ensures
        find_member(members, key, 0) == Some(members[i].1),
        find_member(present(members), key, 0) == if members[i].1 == JsonView::Null {
            None
        } else {
            Some(members[i].1)
        },
{
    lemma_member_from(members, key, i, 0);
    lemma_present_member(members, key);
}

/// The first `n` members put one behind the other, each where it has a
/// value.
pub open spec fn built(members: Seq<(Seq<char>, JsonView)>, n: int) -> Seq<(Seq<char>, JsonView)>
    decreases n,
{
    if n <= 0 {
        Seq::empty()
    } else {
        with_member(built(members, n - 1), members[n - 1].0, members[n - 1].1)
    }
}

proof fn lemma_built_prefix(members: Seq<(Seq<char>, JsonView)>, n: int)
    requires
        0 <= n <= members.len(),
    ensures
        built(members, n) == present(members.take(n)),
    decreases n,
{
    if n > 0 {
        lemma_built_prefix(members, n - 1);
        lemma_with_member(members.take(n - 1), members[n - 1].0, members[n - 1].1);
        assert(members.take(n - 1).push((members[n - 1].0, members[n - 1].1)) =~= members.take(n));
    }
}

/// Putting the members one behind the other, each where it has a value,
/// gives the members that have a value.
pub proof fn lemma_built(members: Seq<(Seq<char>, JsonView)>)
    ensures
        built(members, members.len() as int) == present(members),
{
    lemma_built_prefix(members, members.len() as int);
    assert(members.take(members.len() as int) =~= members);
}

/// Two values that are the same but for the order in which their objects
/// hold their members: arrays item by item; objects where neither holds a
/// name twice and each name of one is in the other with the same value;
/// anything else where the two are equal.
pub open spec fn same_json(a: JsonView, b: JsonView) -> bool
    decreases a,
{
    match a {
        JsonView::Array(x) => {
            &&& b is Array
            &&& x.len() == b->Array_0.len()
            &&& forall|i: int| 0 <= i < x.len() ==> same_json(#[trigger] x[i], b->Array_0[i])
        },
        JsonView::Object(x) => {
            &&& b is Object
            &&& distinct_keys(x)
            &&& distinct_keys(b->Object_0)
            &&& forall|i: int|
                0 <= i < x.len() ==> {
                    &&& find_member(b->Object_0, (#[trigger] x[i]).0, 0) is Some
                    &&& same_json(x[i].1, find_member(b->Object_0, x[i].0, 0)->Some_0)
                }
            &&& forall|j: int|
                0 <= j < b->Object_0.len() ==> find_member(
                    x,
                    (#[trigger] b->Object_0[j]).0,
                    0,
                ) is Some
        },
        _ => a == b,
    }
}

/// The members have distinct names, all among `keys`, and none is `null`.
pub open spec fn holds_only(members: Seq<(Seq<char>, JsonView)>, keys: Seq<Seq<char>>) -> bool {
    &&& distinct_keys(members)
    &&& forall|j: int|
        0 <= j < members.len() ==> (#[trigger] members[j]).1 != JsonView::Null && keys.contains(
            members[j].0,
        )
}

/// What a lookup finds is the value of a member of that name.
pub proof fn lemma_found_is_member(members: Seq<(Seq<char>, JsonView)>, key: Seq<char>, from: int)
    requires
        0 <= from,
        find_member(members, key, from) is Some,
    ensures
        exists|k: int|
            from <= k < members.len() && #[trigger] members[k] == (
                key,
                find_member(members, key, from)->Some_0,
            ),
    decreases members.len() - from,
{
    if members[from].0 == key {
        assert(members[from] == (key, find_member(members, key, from)->Some_0));
    } else {
        lemma_found_is_member(members, key, from + 1);
    }
}

/// A lookup of the name of a member finds a value.
pub proof fn lemma_member_is_found(members: Seq<(Seq<char>, JsonView)>, k: int, from: int)
    requires
        0 <= from <= k < members.len(),
    ensures
        find_member(members, members[k].0, from) is Some,
    decreases k - from,
{
    if members[from].0 != members[k].0 {
        lemma_member_is_found(members, k, from + 1);
    }
}

/// The members written for a value are those of an object, order aside,
/// where the object holds only members under the names that are written,
/// each name that has a value in it with the same value, and no other.
pub proof fn lemma_same_object(
    all: Seq<(Seq<char>, JsonView)>,
    members: Seq<(Seq<char>, JsonView)>,
    keys: Seq<Seq<char>>,
)
    requires
        distinct_keys(all),
        holds_only(members, keys),
        keys.len() == all.len(),
        forall|p: int| 0 <= p < all.len() ==> (#[trigger] all[p]).0 == keys[p],
        forall|p: int|
            0 <= p < all.len() ==> match find_member(members, (#[trigger] all[p]).0, 0) {
                Some(w) => all[p].1 != JsonView::Null && same_json(all[p].1, w),
                None => all[p].1 == JsonView::Null,
            },
    ensures
        same_json(JsonView::Object(present(all)), JsonView::Object(members)),
{
    let written = present(all);
    lemma_present_members(all, 0);
    assert forall|i: int| 0 <= i < written.len() implies {
        &&& find_member(members, (#[trigger] written[i]).0, 0) is Some
        &&& same_json(written[i].1, find_member(members, written[i].0, 0)->Some_0)
    } by {
        let p = choose|p: int|
            0 <= p < all.len() && all[p].1 != JsonView::Null && written[i] == all[p];
        assert(all[p].0 == keys[p]);
    }
    assert forall|j: int| 0 <= j < members.len() implies find_member(
        written,
        (#[trigger] members[j]).0,
        0,
    ) is Some by {
        assert(keys.contains(members[j].0));
        let p = choose|p: int| 0 <= p < keys.len() && keys[p] == members[j].0;
        assert(all[p].0 == keys[p]);
        lemma_member_is_found(members, j, 0);
        lemma_present_at(all, all[p].0, p);
    }
}

proof fn lemma_present_whole_from(members: Seq<(Seq<char>, JsonView)>, from: int)
    requires
        0 <= from <= members.len(),
        forall|p: int| 0 <= p < members.len() ==> (#[trigger] members[p]).1 != JsonView::Null,
    ensures
        present_from(members, from) == members.subrange(from, members.len() as int),
    decreases members.len() - from,
{
    if from < members.len() {
        lemma_present_whole_from(members, from + 1);
        assert(members[from].1 != JsonView::Null);
        assert(seq![members[from]] + members.subrange(from + 1, members.len() as int)
            =~= members.subrange(from, members.len() as int));
    } else {
        assert(members.subrange(from, members.len() as int) =~= Seq::empty());
    }
}

/// Where every member has a value, the members that have a value are all
/// of them.
pub proof fn lemma_present_whole(members: Seq<(Seq<char>, JsonView)>)
    requires
        forall|p: int| 0 <= p < members.len() ==> (#[trigger] members[p]).1 != JsonView::Null,
    ensures
        present(members) == members,
{
    lemma_present_whole_from(members, 0);
    assert(members.subrange(0, members.len() as int) =~= members);
}

proof fn lemma_present_both_from(
    first: Seq<(Seq<char>, JsonView)>,
    second: Seq<(Seq<char>, JsonView)>,
    from: int,
)
    requires
        0 <= from <= first.len(),
    ensures
        present_from(first + second, from) == present_from(first, from) + present(second),
    decreases first.len() + second.len() - from,
{
    let both = first + second;
    if from < first.len() {
        lemma_present_both_from(first, second, from + 1);
        assert(both[from] == first[from]);
        if first[from].1 != JsonView::Null {
            assert(seq![first[from]] + (present_from(first, from + 1) + present(second)) =~= (
            seq![first[from]] + present_from(first, from + 1)) + present(second));
        }
    } else {
        lemma_present_shifted(first, second, 0);
        assert(present_from(first, from) =~= Seq::empty());
        assert(Seq::<(Seq<char>, JsonView)>::empty() + present(second) =~= present(second));
    }
}

proof fn lemma_present_shifted(
    first: Seq<(Seq<char>, JsonView)>,
    second: Seq<(Seq<char>, JsonView)>,
    from: int,
)
    requires
        0 <= from <= second.len(),
    ensures
        present_from(first + second, first.len() + from) == present_from(second, from),
    decreases second.len() - from,
{
    let both = first + second;
    if from < second.len() {
        lemma_present_shifted(first, second, from + 1);
        assert(both[first.len() + from] == second[from]);
    }
}

/// Of two member lists put one behind the other, the members that have a
/// value are those of the first, then those of the second.
pub proof fn lemma_present_both(
    first: Seq<(Seq<char>, JsonView)>,
    second: Seq<(Seq<char>, JsonView)>,
)
    ensures
        present(first + second) == present(first) + present(second),
{
    lemma_present_both_from(first, second, 0);
}

/// Two member lists with distinct names that share no name have distinct
/// names when put one behind the other.
pub proof fn lemma_distinct_both(
    first: Seq<(Seq<char>, JsonView)>,
    second: Seq<(Seq<char>, JsonView)>,
)
    requires
        distinct_keys(first),
        distinct_keys(second),
        forall|i: int, j: int|
            0 <= i < first.len() && 0 <= j < second.len() ==> (#[trigger] first[i]).0 != (
            #[trigger] second[j]).0,
    ensures
        distinct_keys(first + second),
{
    let both = first + second;
    assert forall|i: int, j: int| 0 <= i < j < both.len() implies (#[trigger] both[i]).0 != (
    #[trigger] both[j]).0 by {
        if j < first.len() {
            assert(both[i] == first[i] && both[j] == first[j]);
        } else if i < first.len() {
            assert(both[i] == first[i] && both[j] == second[j - first.len()]);
        } else {
            assert(both[i] == second[i - first.len()] && both[j] == second[j - first.len()]);
        }
    }
}

/// A lookup finds nothing where no member has the key.
pub proof fn lemma_member_absent(members: Seq<(Seq<char>, JsonView)>, key: Seq<char>, from: int)
    requires
        0 <= from <= members.len(),
        forall|k: int| 0 <= k < members.len() ==> (#[trigger] members[k]).0 != key,
    ensures
        find_member(members, key, from) is None,
    decreases members.len() - from,
{
    if from < members.len() {
        assert(members[from].0 != key);
        lemma_member_absent(members, key, from + 1);
    }
}

impl JsonView {
    /// The value of the first member named `key`, where this is an object
    /// that has one.
    pub open spec fn member(self, key: Seq<char>) -> Option<JsonView> {
        match self {
            JsonView::Object(members) => find_member(members, key, 0),
            _ => None,
        }
    }

    /// The member `key` of an object, which must be there.
    pub open spec fn required(self, key: Seq<char>) -> Result<JsonView, SchemaError> {
        match self {
            JsonView::Object(_) => match self.member(key) {
                Some(v) => Ok(v),
                None => Err(SchemaError::MissingField),
            },
            _ => Err(SchemaError::InvalidType),
        }
    }

    /// The member `key` of an object, where it is there and not `null`.
    pub open spec fn optional(self, key: Seq<char>) -> Result<Option<JsonView>, SchemaError> {
        match self {
            JsonView::Object(_) => match self.member(key) {
                Some(JsonView::Null) | None => Ok(None),
                Some(v) => Ok(Some(v)),
            },
            _ => Err(SchemaError::InvalidType),
        }
    }

    /// The characters of a string.
    pub open spec fn as_text(self) -> Result<Seq<char>, SchemaError> {
        match self {
            JsonView::Text(s) => Ok(s),
            _ => Err(SchemaError::InvalidType),
        }
    }

    /// The items of an array.
    pub open spec fn as_items(self) -> Result<Seq<JsonView>, SchemaError> {
        match self {
            JsonView::Array(items) => Ok(items),
            _ => Err(SchemaError::InvalidType),
        }
    }

    /// A non-negative integer that fits 64 bits.
    pub open spec fn as_u64(self) -> Result<u64, SchemaError> {
        match self {
            JsonView::Number(JsonNumber::PosInt(n)) => Ok(n),
            _ => Err(SchemaError::InvalidType),
        }
    }

    /// A non-negative integer that fits the machine's word.
    pub open spec fn as_usize(self) -> Result<usize, SchemaError> {
        match self {
            JsonView::Number(JsonNumber::PosInt(n)) if n <= usize::MAX => Ok(n as usize),
            _ => Err(SchemaError::InvalidType),
        }
    }

    /// An integer that fits the machine's signed word.
    pub open spec fn as_isize(self) -> Result<isize, SchemaError> {
        match self {
            JsonView::Number(JsonNumber::PosInt(n)) if n <= isize::MAX => Ok(n as isize),
            JsonView::Number(JsonNumber::NegInt(n)) if isize::MIN <= n <= isize::MAX => Ok(
                n as isize,
            ),
            _ => Err(SchemaError::InvalidType),
        }
    }
}

/// The value that `f` reads from a member that must be there.
pub open spec fn required_as<T>(
    member: Result<JsonView, SchemaError>,
    f: spec_fn(JsonView) -> Result<T, SchemaError>,
) -> Result<T, SchemaError> {
    match member {
        Ok(v) => f(v),
        Err(e) => Err(e),
    }
}

/// The value that `f` reads from a member that may be absent.
pub open spec fn optional_as<T>(
    member: Result<Option<JsonView>, SchemaError>,
    f: spec_fn(JsonView) -> Result<T, SchemaError>,
) -> Result<Option<T>, SchemaError> {
    match member {
        Ok(Some(v)) => match f(v) {
            Ok(t) => Ok(Some(t)),
            Err(e) => Err(e),
        },
        Ok(None) => Ok(None),
        Err(e) => Err(e),
    }
}

/// The values that `f` reads from the items of a list, in order; the failure
/// of the first item on which `f` fails.
pub open spec fn items_as<T>(
    items: Seq<JsonView>,
    f: spec_fn(JsonView) -> Result<T, SchemaError>,
) -> Result<Seq<T>, SchemaError>
    decreases items.len(),
{
    if items.len() == 0 {
        Ok(Seq::empty())
    } else {
        match items_as(items.drop_last(), f) {
            Ok(values) => match f(items.last()) {
                Ok(v) => Ok(values.push(v)),
                Err(e) => Err(e),
            },
            Err(e) => Err(e),
        }
    }
}

/// Reading one more item extends what was read from the items before it.
pub proof fn lemma_items_as_step<T>(
    items: Seq<JsonView>,
    f: spec_fn(JsonView) -> Result<T, SchemaError>,
    i: int,
)
    requires
        0 <= i < items.len(),
    ensures
        items_as(items.take(i + 1), f) == match items_as(items.take(i), f) {
            Ok(values) => match f(items[i]) {
                Ok(v) => Ok(values.push(v)),
                Err(e) => Err(e),
            },
            Err(e) => Err::<Seq<T>, SchemaError>(e),
        },
{
    assert(items.take(i + 1).drop_last() =~= items.take(i));
    assert(items.take(i + 1).last() == items[i]);
}

/// A list is not read where one of its items is not.
pub proof fn lemma_items_as_err<T>(
    items: Seq<JsonView>,
    f: spec_fn(JsonView) -> Result<T, SchemaError>,
    i: int,
)
    requires
        0 <= i < items.len(),
        f(items[i]) is Err,
    ensures
        items_as(items, f) is Err,
    decreases items.len(),
{
    if i < items.len() - 1 {
        lemma_items_as_err(items.drop_last(), f, i);
    }
}

/// A list is refused with the failure of its first item that is refused.
pub proof fn lemma_items_as_first_err<T>(
    items: Seq<JsonView>,
    f: spec_fn(JsonView) -> Result<T, SchemaError>,
    i: int,
)
    requires
        0 <= i < items.len(),
        items_as(items.take(i), f) is Ok,
        f(items[i]) is Err,
    ensures
        items_as(items, f) == Err::<Seq<T>, SchemaError>(f(items[i])->Err_0),
    decreases items.len(),
{
    if i == items.len() - 1 {
        assert(items.drop_last() =~= items.take(i));
    } else {
        assert(items.drop_last().take(i) =~= items.take(i));
        lemma_items_as_first_err(items.drop_last(), f, i);
    }
}

/// A list is read as a whole where each of its items is.
pub proof fn lemma_items_as_ok<T>(
    items: Seq<JsonView>,
    f: spec_fn(JsonView) -> Result<T, SchemaError>,
    values: Seq<T>,
)
    requires
        values.len() == items.len(),
        forall|i: int| 0 <= i < items.len() ==> f(#[trigger] items[i]) == Ok::<T, SchemaError>(values[i]),
    ensures
        items_as(items, f) == Ok::<Seq<T>, SchemaError>(values),
    decreases items.len(),
{
    if items.len() > 0 {
        lemma_items_as_ok(items.drop_last(), f, values.drop_last());
        assert(values.drop_last().push(values.last()) =~= values);
        assert(f(items[items.len() - 1]) == Ok::<T, SchemaError>(values[items.len() - 1]));
    } else {
        assert(values =~= Seq::empty());
    }
}

/// Where a list is read as a whole, each of its items is read as the value
/// at its place.
pub proof fn lemma_items_as_each<T>(
    items: Seq<JsonView>,
    f: spec_fn(JsonView) -> Result<T, SchemaError>,
)
    requires
        items_as(items, f) is Ok,
    ensures
        items_as(items, f)->Ok_0.len() == items.len(),
        forall|i: int|
            0 <= i < items.len() ==> f(#[trigger] items[i]) == Ok::<T, SchemaError>(
                items_as(items, f)->Ok_0[i],
            ),
    decreases items.len(),
{
    if items.len() > 0 {
        lemma_items_as_each(items.drop_last(), f);
        let values = items_as(items, f)->Ok_0;
        assert forall|i: int| 0 <= i < items.len() implies f(#[trigger] items[i]) == Ok::<
            T,
            SchemaError,
        >(values[i]) by {
            if i < items.len() - 1 {
                assert(items.drop_last()[i] == items[i]);
            }
        }
    }
}

/// The values that `f` reads from the items of an array.
pub open spec fn array_as<T>(j: JsonView, f: spec_fn(JsonView) -> Result<T, SchemaError>) -> Result<
    Seq<T>,
    SchemaError,
> {
    match j {
        JsonView::Array(items) => items_as(items, f),
        _ => Err(SchemaError::InvalidType),
    }
}

impl JsonView {
    /// The string member `key`, which must be there.
    pub open spec fn req_text(self, key: Seq<char>) -> Result<Seq<char>, SchemaError> {
        required_as(self.required(key), |v: JsonView| v.as_text())
    }

    /// The string member `key`, where it is there.
    pub open spec fn opt_text(self, key: Seq<char>) -> Result<Option<Seq<char>>, SchemaError> {
        optional_as(self.optional(key), |v: JsonView| v.as_text())
    }

    /// The member `key`, which must be there and fit 64 bits.
    pub open spec fn req_u64(self, key: Seq<char>) -> Result<u64, SchemaError> {
        required_as(self.required(key), |v: JsonView| v.as_u64())
    }

    /// The member `key`, which must be there and fit the machine's word.
    pub open spec fn req_usize(self, key: Seq<char>) -> Result<usize, SchemaError> {
        required_as(self.required(key), |v: JsonView| v.as_usize())
    }

    /// The member `key`, where it is there; it must fit the machine's word.
    pub open spec fn opt_usize(self, key: Seq<char>) -> Result<Option<usize>, SchemaError> {
        optional_as(self.optional(key), |v: JsonView| v.as_usize())
    }
}

/// What a decoder returns, with the decoded value replaced by its model.
pub open spec fn decoded<T: DeepView>(r: Result<T, SchemaError>) -> Result<T::V, SchemaError> {
    match r {
        Ok(v) => Ok(v.deep_view()),
        Err(e) => Err(e),
    }
}

/// What a decoder of an optional member returns, with the decoded value
/// replaced by its model.
pub open spec fn decoded_ref(r: Result<Option<&Json>, SchemaError>) -> Result<
    Option<JsonView>,
    SchemaError,
> {
    match r {
        Ok(Some(v)) => Ok(Some(v.deep_view())),
        Ok(None) => Ok(None),
        Err(e) => Err(e),
    }
}

impl Json {
    /// The value of the first member named `key`, where this is an object
    /// that has one.
    pub fn get(&self, key: &str) -> (r: Option<&Json>)
        ensures
            match r {
                Some(v) => self.deep_view().member(key@) == Some(v.deep_view()),
                None => self.deep_view().member(key@) is None,
            },
    {
        match self {
            Json::Object(members) => {
                let ghost model = self.deep_view()->Object_0;
                let mut i: usize = 0;
                while i < members.len()
                    invariant
                        i <= members.len(),
                        self.deep_view() == JsonView::Object(model),
                        model.len() == members.len(),
                        forall|k: int|
                            0 <= k < members.len() ==> #[trigger] model[k] == (
                                members[k].0@,
                                members[k].1.deep_view(),
                            ),
                        find_member(model, key@, 0) == find_member(model, key@, i as int),
                    decreases members.len() - i,
                {
                    assert(model[i as int] == (members[i as int].0@, members[i as int].1.deep_view()));
                    if same_text(members[i].0.as_str(), key) {
                        return Some(&members[i].1);
                    }
                    i += 1;
                }
                None
            },
            _ => None,
        }
    }

    /// The member `key` of an object, which must be there.
    pub fn required(&self, key: &str) -> (r: Result<&Json, SchemaError>)
        ensures
            match r {
                Ok(v) => self.deep_view().required(key@) == Ok::<JsonView, SchemaError>(
                    v.deep_view(),
                ),
                Err(e) => self.deep_view().required(key@) == Err::<JsonView, SchemaError>(e),
            },
    {
        match self {
            Json::Object(_) => match self.get(key) {
                Some(v) => Ok(v),
                None => Err(SchemaError::MissingField),
            },
            _ => Err(SchemaError::InvalidType),
        }
    }

    /// The member `key` of an object, where it is there and not `null`.
    pub fn optional(&self, key: &str) -> (r: Result<Option<&Json>, SchemaError>)
        ensures
            decoded_ref(r) == self.deep_view().optional(key@),
    {
        match self {
            Json::Object(_) => match self.get(key) {
                Some(Json::Null) | None => Ok(None),
                Some(v) => Ok(Some(v)),
            },
            _ => Err(SchemaError::InvalidType),
        }
    }

    /// The characters of a string.
    pub fn as_text(&self) -> (r: Result<String, SchemaError>)
        ensures
            decoded(r) == self.deep_view().as_text(),
    {
        match self {
            Json::Text(s) => Ok(s.clone()),
            _ => Err(SchemaError::InvalidType),
        }
    }

    /// The items of an array.
    pub fn as_items(&self) -> (r: Result<&Vec<Json>, SchemaError>)
        ensures
            match r {
                Ok(items) => self.deep_view().as_items() == Ok::<Seq<JsonView>, SchemaError>(
                    items.deep_view(),
                ),
                Err(e) => self.deep_view().as_items() == Err::<Seq<JsonView>, SchemaError>(e),
            },
    {
        match self {
            Json::Array(items) => {
                assert(self.deep_view() is Array);
                assert(self.deep_view()->Array_0.len() == items.len());
                assert(items.deep_view().len() == items.len());
                assert(forall|k: int| 0 <= k < items.len() ==> items.deep_view()[k] == items[k].deep_view());
                assert(forall|k: int| 0 <= k < items.len() ==> self.deep_view()->Array_0[k] == items[k].deep_view());
                assert(items.deep_view() =~= self.deep_view()->Array_0);
                Ok(items)
            },
            _ => Err(SchemaError::InvalidType),
        }
    }

    /// A non-negative integer that fits 64 bits.
    pub fn as_u64(&self) -> (r: Result<u64, SchemaError>)
        ensures
            r == self.deep_view().as_u64(),
    {
        match self {
            Json::Number(JsonNumber::PosInt(n)) => Ok(*n),
            _ => Err(SchemaError::InvalidType),
        }
    }

    /// A non-negative integer that fits the machine's word.
    pub fn as_usize(&self) -> (r: Result<usize, SchemaError>)
        ensures
            r == self.deep_view().as_usize(),
    {
        match self {
            Json::Number(JsonNumber::PosInt(n)) => {
                if *n <= usize::MAX as u64 {
                    Ok(*n as usize)
                } else {
                    Err(SchemaError::InvalidType)
                }
            },
            _ => Err(SchemaError::InvalidType),
        }
    }

    /// An integer that fits the machine's signed word.
    pub fn as_isize(&self) -> (r: Result<isize, SchemaError>)
        ensures
            r == self.deep_view().as_isize(),
    {
        match self {
            Json::Number(JsonNumber::PosInt(n)) => {
                if *n <= isize::MAX as u64 {
                    Ok(*n as isize)
                } else {
                    Err(SchemaError::InvalidType)
                }
            },
            Json::Number(JsonNumber::NegInt(n)) => {
                if isize::MIN as i64 <= *n && *n <= isize::MAX as i64 {
                    Ok(*n as isize)
                } else {
                    Err(SchemaError::InvalidType)
                }
            },
            _ => Err(SchemaError::InvalidType),
        }
    }
}

impl Json {
    /// The string member `key`, which must be there.
    pub fn req_text(&self, key: &str) -> (r: Result<String, SchemaError>)
        ensures
            decoded(r) == self.deep_view().req_text(key@),
    {
        self.required(key)?.as_text()
    }

    /// The string member `key`, where it is there.
    pub fn opt_text(&self, key: &str) -> (r: Result<Option<String>, SchemaError>)
        ensures
            decoded(r) == self.deep_view().opt_text(key@),
    {
        match self.optional(key)? {
            Some(v) => Ok(Some(v.as_text()?)),
            None => Ok(None),
        }
    }

    /// The member `key`, which must be there and fit 64 bits.
    pub fn req_u64(&self, key: &str) -> (r: Result<u64, SchemaError>)
        ensures
            r == self.deep_view().req_u64(key@),
    {
        self.required(key)?.as_u64()
    }

    /// The member `key`, which must be there and fit the machine's word.
    pub fn req_usize(&self, key: &str) -> (r: Result<usize, SchemaError>)
        ensures
            r == self.deep_view().req_usize(key@),
    {
        self.required(key)?.as_usize()
    }

    /// The member `key`, where it is there; it must fit the machine's word.
    pub fn opt_usize(&self, key: &str) -> (r: Result<Option<usize>, SchemaError>)
        ensures
            r == self.deep_view().opt_usize(key@),
    {
        match self.optional(key)? {
            Some(v) => Ok(Some(v.as_usize()?)),
            None => Ok(None),
        }
    }
}

impl Clone for Json {
    /// A copy of the tree.
    fn clone(&self) -> (r: Json)
        ensures
            r.deep_view() == self.deep_view(),
        decreases self,
    {
        match self {
            Json::Null => Json::Null,
            Json::Bool(b) => Json::Bool(*b),
            Json::Number(n) => Json::Number(*n),
            Json::Text(s) => Json::Text(s.clone()),
            Json::Array(items) => {
                let mut copy: Vec<Json> = Vec::new();
                let mut i: usize = 0;
                while i < items.len()
                    invariant
                        i <= items.len(),
                        copy.len() == i,
                        self == Json::Array(*items),
                        forall|k: int|
                            0 <= k < i ==> (#[trigger] copy[k]).deep_view() == items[k].deep_view(),
                    decreases items.len() - i,
                {
                    assert(self->Array_0 == *items);
                    assert(decreases_to!(*self => self->Array_0));
                    assert(decreases_to!(*items => items[i as int]));
                    assert(decreases_to!(*self => items[i as int]));
                    copy.push(items[i].clone());
                    i += 1;
                }
                let r = Json::Array(copy);
                assert(r.deep_view()->Array_0 =~= self.deep_view()->Array_0);
                r
            },
            Json::Object(members) => {
                let mut copy: Vec<(String, Json)> = Vec::new();
                let mut i: usize = 0;
                while i < members.len()
                    invariant
                        i <= members.len(),
                        copy.len() == i,
                        self == Json::Object(*members),
                        forall|k: int|
                            0 <= k < i ==> (#[trigger] copy[k]).0@ == members[k].0@
                                && copy[k].1.deep_view() == members[k].1.deep_view(),
                    decreases members.len() - i,
                {
                    assert(self->Object_0 == *members);
                    assert(decreases_to!(*self => self->Object_0));
                    assert(decreases_to!(*members => members[i as int]));
                    assert(decreases_to!(members[i as int] => members[i as int].1));
                    assert(decreases_to!(*self => members[i as int].1));
                    copy.push((members[i].0.clone(), members[i].1.clone()));
                    i += 1;
                }
                let r = Json::Object(copy);
                assert(r.deep_view()->Object_0 =~= self.deep_view()->Object_0);
                r
            },
        }
    }
}

/// The model of a member list.
pub open spec fn members_view(members: Seq<(String, Json)>) -> Seq<(Seq<char>, JsonView)> {
    Seq::new(members.len(), |i: int| (members[i].0@, members[i].1.deep_view()))
}

/// The wire form of an optional value: `null` where there is none.
pub open spec fn json_of_option<T>(value: Option<T>, f: spec_fn(T) -> JsonView) -> JsonView {
    match value {
        Some(v) => f(v),
        None => JsonView::Null,
    }
}

/// The wire form of a non-negative integer.
pub open spec fn json_of_usize(n: usize) -> JsonView {
    JsonView::Number(JsonNumber::PosInt(n as u64))
}

impl Json {
    /// The object that holds `members`, in their order.
    pub fn object(members: Vec<(String, Json)>) -> (r: Json)
        ensures
            r.deep_view() == JsonView::Object(members_view(members@)),
    {
        let r = Json::Object(members);
        assert(r.deep_view()->Object_0 =~= members_view(members@));
        r
    }

    /// The array that holds `items`, in their order.
    pub fn array(items: Vec<Json>) -> (r: Json)
        ensures
            r.deep_view() == JsonView::Array(items.deep_view()),
    {
        let r = Json::Array(items);
        assert(r.deep_view()->Array_0 =~= items.deep_view());
        r
    }

    /// The string that holds the characters of `s`.
    pub fn of_text(s: &str) -> (r: Json)
        ensures
            r.deep_view() == JsonView::Text(s@),
    {
        Json::Text(String::from_str(s))
    }

    /// The string that holds the characters of `s`, or `null`.
    pub fn of_opt_text(s: &Option<String>) -> (r: Json)
        ensures
            r.deep_view() == json_of_option(s.deep_view(), |t: Seq<char>| JsonView::Text(t)),
    {
        match s {
            Some(t) => Json::Text(t.clone()),
            None => Json::Null,
        }
    }

    /// The number `n`.
    pub fn of_usize(n: usize) -> (r: Json)
        ensures
            r.deep_view() == json_of_usize(n),
    {
        Json::Number(JsonNumber::PosInt(n as u64))
    }

    /// The number `n`, or `null`.
    pub fn of_opt_usize(n: Option<usize>) -> (r: Json)
        ensures
            r.deep_view() == json_of_option(n, |k: usize| json_of_usize(k)),
    {
        match n {
            Some(k) => Json::of_usize(k),
            None => Json::Null,
        }
    }
}

/// Appends the member `key: value` to a member list, unless the value is
/// `null`.
pub fn push_present(members: &mut Vec<(String, Json)>, key: &str, value: Json)
    ensures
        members_view(final(members)@) == with_member(
            members_view(old(members)@),
            key@,
            value.deep_view(),
        ),
{
    match value {
        Json::Null => {},
        _ => {
            push_member(members, key, value);
        },
    }
}

/// Appends the member `key: value` to a member list.
pub fn push_member(members: &mut Vec<(String, Json)>, key: &str, value: Json)
    ensures
        members_view(final(members)@) == members_view(old(members)@).push(
            (key@, value.deep_view()),
        ),
{
    members.push((String::from_str(key), value));
    assert(members_view(members@) =~= members_view(old(members)@).push(
        (key@, value.deep_view()),
    ));
}

/// The outside JSON tree, carried from the text parser to the conversion.
#[verifier::external_type_specification]
#[verifier::external_body]
pub struct ExValue(serde_json::Value);

/// The outside number, carried from the tree to the conversion.
#[verifier::external_type_specification]
#[verifier::external_body]
pub struct ExNumber(serde_json::Number);

/// The failure that the text parser reports.
#[verifier::external_type_specification]
#[verifier::external_body]
pub struct ExParseError(serde_json::Error);

/// What `serde_json::from_slice` makes of a text: the tree it reads, or
/// `None` where it rejects the text.
pub uninterp spec fn parsed_json(text: Seq<u8>) -> Option<JsonView>;

/// `serde_json::Number`'s accessors `as_u64`, `as_i64` and `as_f64`, which
/// tell its three private representations apart. Nothing is claimed of the
/// result.
#[verifier::external_body]
fn number_of(n: &serde_json::Number) -> JsonNumber {
    if let Some(u) = n.as_u64() {
        JsonNumber::PosInt(u)
    } else if let Some(i) = n.as_i64() {
        JsonNumber::NegInt(i)
    } else {
        JsonNumber::Float(n.as_f64().unwrap_or_default().to_bits())
    }
}

/// Moves a `serde_json::Value` into a [`Json`], variant by variant. Nothing
/// is claimed of the result.
#[verifier::external_body]
fn tree_of(value: serde_json::Value) -> Json {
    match value {
        serde_json::Value::Null => Json::Null,
        serde_json::Value::Bool(b) => Json::Bool(b),
        serde_json::Value::Number(n) => Json::Number(number_of(&n)),
        serde_json::Value::String(s) => Json::Text(s),
        serde_json::Value::Array(items) => Json::Array(items.into_iter().map(tree_of).collect()),
        serde_json::Value::Object(members) => Json::Object(
            members.into_iter().map(|(k, v)| (k, tree_of(v))).collect(),
        ),
    }
}

/// `serde_json::from_slice` at the type `serde_json::Value`: the contract
/// names the tree that the parser reads from `text` and says that the call
/// fails exactly where the parser rejects the text.
#[verifier::external_body]
pub(crate) fn parse_tree(text: &[u8]) -> (r: Result<Json, serde_json::Error>)
    ensures
        match r {
            Ok(tree) => parsed_json(text@) == Some(tree.deep_view()),
            Err(_) => parsed_json(text@) is None,
        },
{
    match serde_json::from_slice::<serde_json::Value>(text) {
        Ok(value) => Ok(tree_of(value)),
        Err(error) => Err(error),
    }
}

} // verus!
