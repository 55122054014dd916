//! The map from the index of a frame to the name of the file that holds its
//! point cloud.

use crate::error::SchemaError;
use crate::json::{Json, JsonView};
use indexmap::IndexMap;
use vstd::prelude::*;
use vstd::string::StrSliceExecFns;

verus! {

/// The insertion-ordered hash map of `indexmap`.
#[verifier::external_type_specification]
#[verifier::external_body]
#[verifier::reject_recursive_types(K)]
#[verifier::reject_recursive_types(V)]
#[verifier::reject_recursive_types(S)]
pub struct ExIndexMap<K, V, S>(IndexMap<K, V, S>);

/// `IndexMap`'s `clone`, which the derived `Clone` of the episode calls.
/// Nothing is claimed of the copy.
pub assume_specification<K, V, S>[ <IndexMap<K, V, S> as Clone>::clone ](
    map: &IndexMap<K, V, S>,
) -> (r: IndexMap<K, V, S>)
    where K: Clone, V: Clone, S: Clone
;

/// The entries that a map holds, in the order in which it hands them out.
pub uninterp spec fn frames_of(map: IndexMap<u64, String>) -> Seq<(u64, Seq<char>)>;

/// The position of the first entry at or after `from` whose key is `key`.
pub open spec fn key_position(entries: Seq<(u64, Seq<char>)>, key: u64, from: int) -> Option<int>
    decreases entries.len() - from,
{
    if from < 0 || from >= entries.len() {
        None
    } else if entries[from].0 == key {
        Some(from)
    } else {
        key_position(entries, key, from + 1)
    }
}

/// The file name that the entries give for `key`.
pub open spec fn file_of(entries: Seq<(u64, Seq<char>)>, key: u64) -> Option<Seq<char>> {
    match key_position(entries, key, 0) {
        Some(i) => Some(entries[i].1),
        None => None,
    }
}

/// The entries after `key` was given the file `file`: in place where the
/// key was there, behind the others where it was not.
pub open spec fn with_entry(entries: Seq<(u64, Seq<char>)>, key: u64, file: Seq<char>) -> Seq<
    (u64, Seq<char>),
> {
    match key_position(entries, key, 0) {
        Some(i) => entries.update(i, (key, file)),
        None => entries.push((key, file)),
    }
}

proof fn lemma_position_bound(entries: Seq<(u64, Seq<char>)>, key: u64, from: int)
    requires
        0 <= from,
    ensures
        match key_position(entries, key, from) {
            Some(i) => from <= i < entries.len() && entries[i].0 == key && forall|k: int|
                from <= k < i ==> (#[trigger] entries[k]).0 != key,
            None => forall|k: int| from <= k < entries.len() ==> (#[trigger] entries[k]).0 != key,
        },
    decreases entries.len() - from,
{
    if from < entries.len() && entries[from].0 != key {
        lemma_position_bound(entries, key, from + 1);
    }
}

proof fn lemma_position_unique(entries: Seq<(u64, Seq<char>)>, key: u64, from: int, i: int)
    requires
        0 <= from <= i < entries.len(),
        entries[i].0 == key,
        forall|k: int| from <= k < i ==> (#[trigger] entries[k]).0 != key,
    ensures
        key_position(entries, key, from) == Some(i),
    decreases i - from,
{
    if from < i {
        assert(entries[from].0 != key);
        lemma_position_unique(entries, key, from + 1, i);
    }
}

/// After an entry is added, its index has the new file and every other
/// index has the file it had.
pub proof fn lemma_with_entry(entries: Seq<(u64, Seq<char>)>, key: u64, file: Seq<char>, other: u64)
    ensures
        file_of(with_entry(entries, key, file), other) == if other == key {
            Some(file)
        } else {
            file_of(entries, other)
        },
{
    let after = with_entry(entries, key, file);
    lemma_position_bound(entries, key, 0);
    lemma_position_bound(entries, other, 0);
    match key_position(entries, key, 0) {
        Some(i) => {
            if other == key {
                lemma_position_unique(after, other, 0, i);
            } else {
                match key_position(entries, other, 0) {
                    Some(m) => {
                        assert(after[m] == entries[m]);
                        assert forall|k: int| 0 <= k < m implies (#[trigger] after[k]).0
                            != other by {
                            if k != i {
                                assert(after[k] == entries[k]);
                            }
                        }
                        lemma_position_unique(after, other, 0, m);
                    },
                    None => {
                        lemma_position_bound(after, other, 0);
                        if key_position(after, other, 0) is Some {
                            let m = key_position(after, other, 0)->Some_0;
                            if m != i {
                                assert(after[m] == entries[m]);
                            }
                        }
                    },
                }
            }
        },
        None => {
            let n = entries.len() as int;
            if other == key {
                assert forall|k: int| 0 <= k < n implies (#[trigger] after[k]).0 != key by {
                    assert(after[k] == entries[k]);
                }
                lemma_position_unique(after, other, 0, n);
            } else {
                match key_position(entries, other, 0) {
                    Some(m) => {
                        assert(after[m] == entries[m]);
                        assert forall|k: int| 0 <= k < m implies (#[trigger] after[k]).0
                            != other by {
                            assert(after[k] == entries[k]);
                        }
                        lemma_position_unique(after, other, 0, m);
                    },
                    None => {
                        lemma_position_bound(after, other, 0);
                        if key_position(after, other, 0) is Some {
                            let m = key_position(after, other, 0)->Some_0;
                            if m < n {
                                assert(after[m] == entries[m]);
                            }
                        }
                    },
                }
            }
        },
    }
}

/// `IndexMap::new`: a map that holds nothing.
#[verifier::external_body]
pub(crate) fn new_frames() -> (map: IndexMap<u64, String>)
    ensures
        frames_of(map) == Seq::<(u64, Seq<char>)>::empty(),
{
    IndexMap::new()
}

/// `IndexMap::insert`: a key that the map holds keeps its place and gets
/// the new value; one that it does not hold goes behind the others.
#[verifier::external_body]
pub(crate) fn insert_frame(map: &mut IndexMap<u64, String>, key: u64, file: String)
    ensures
        frames_of(*final(map)) == with_entry(frames_of(*old(map)), key, file@),
{
    map.insert(key, file);
}

/// `IndexMap::get`: the value that the map holds for a key, where it holds
/// one.
#[verifier::external_body]
pub(crate) fn find_frame<'a>(map: &'a IndexMap<u64, String>, key: u64) -> (r: Option<&'a String>)
    ensures
        match r {
            Some(file) => file_of(frames_of(*map), key) == Some(file@),
            None => file_of(frames_of(*map), key) is None,
        },
{
    map.get(&key)
}

/// `IndexMap::get_index`: the key at a position, where the map has an entry
/// there.
#[verifier::external_body]
pub(crate) fn frame_key_at(map: &IndexMap<u64, String>, index: usize) -> (r: Option<u64>)
    ensures
        match r {
            Some(key) => index < frames_of(*map).len() && key == frames_of(*map)[index as int].0,
            None => index >= frames_of(*map).len(),
        },
{
    match map.get_index(index) {
        Some((key, _)) => Some(*key),
        None => None,
    }
}

/// Whether every character is a decimal digit.
pub open spec fn all_digits(s: Seq<char>) -> bool {
    forall|i: int| 0 <= i < s.len() ==> '0' <= #[trigger] s[i] <= '9'
}

/// The number that a string of decimal digits writes.
pub open spec fn decimal_value(s: Seq<char>) -> nat
    decreases s.len(),
{
    if s.len() == 0 {
        0
    } else {
        (decimal_value(s.drop_last()) * 10 + (s.last() as u32 - 48)) as nat
    }
}

/// The frame index that a member name writes: decimal digits with no sign,
/// no leading zero and no fraction, of a value that fits 64 bits.
pub open spec fn index_of_text(s: Seq<char>) -> Option<u64> {
    if s.len() == 0 || !all_digits(s) || (s.len() > 1 && s[0] == '0') || decimal_value(s)
        > u64::MAX {
        None
    } else {
        Some(decimal_value(s) as u64)
    }
}

proof fn lemma_decimal_grows(s: Seq<char>, k: int)
    requires
        all_digits(s),
        0 <= k <= s.len(),
    ensures
        decimal_value(s.take(k)) <= decimal_value(s),
    decreases s.len() - k,
{
    if k == s.len() {
        assert(s.take(k) =~= s);
    } else {
        lemma_decimal_grows(s, k + 1);
        assert(s.take(k + 1).drop_last() =~= s.take(k));
        assert(s.take(k + 1).last() == s[k]);
        assert('0' <= s[k] <= '9');
    }
}

/// Reads a frame index from a member name.
pub fn parse_index(text: &str) -> (r: Option<u64>)
    ensures
        r == index_of_text(text@),
{
    let n = text.unicode_len();
    if n == 0 {
        return None;
    }
    let mut acc: u64 = 0;
    let mut i: usize = 0;
    assert(text@.take(0) =~= Seq::<char>::empty());
    while i < n
        invariant
            i <= n,
            n == text@.len(),
            all_digits(text@.take(i as int)),
            acc == decimal_value(text@.take(i as int)),
            i > 1 ==> text@[0] != '0',
        decreases n - i,
    {
        let c = text.get_char(i);
        let v: u32 = c as u32;
        if v < 48 || v > 57 {
            assert(!('0' <= text@[i as int] <= '9'));
            return None;
        }
        if i == 1 {
            assert(text@.take(1).drop_last() =~= Seq::<char>::empty());
            assert(text@.take(1).last() == text@[0]);
            assert('0' <= text@.take(1)[0] <= '9');
            assert(decimal_value(Seq::<char>::empty()) == 0);
            assert(decimal_value(text@.take(1)) == (text@[0] as u32 - 48));
            if acc == 0 {
                return None;
            }
        }
        let d: u64 = (v - 48) as u64;
        proof {
            assert(text@.take(i + 1).drop_last() =~= text@.take(i as int));
            assert(text@.take(i + 1).last() == text@[i as int]);
            assert forall|k: int| 0 <= k < i + 1 implies '0' <= #[trigger] text@.take(i + 1)[k]
                <= '9' by {
                if k < i {
                    assert(text@.take(i as int)[k] == text@[k]);
                }
            }
        }
        if acc > (u64::MAX - d) / 10 {
            proof {
                assert(decimal_value(text@.take(i + 1)) > u64::MAX);
                if all_digits(text@) {
                    lemma_decimal_grows(text@, i + 1);
                }
            }
            return None;
        }
        acc = acc * 10 + d;
        i += 1;
    }
    assert(text@.take(n as int) =~= text@);
    Some(acc)
}

/// The entries that the first `n` members of an object add up to, or the
/// failure of the first member whose name is no frame index or whose value
/// is no string.
pub open spec fn entries_of_members(members: Seq<(Seq<char>, JsonView)>, n: int) -> Result<
    Seq<(u64, Seq<char>)>,
    SchemaError,
>
    decreases n,
{
    if n <= 0 {
        Ok(Seq::empty())
    } else {
        match entries_of_members(members, n - 1) {
            Ok(entries) => match (index_of_text(members[n - 1].0), members[n - 1].1) {
                (Some(key), JsonView::Text(file)) => Ok(with_entry(entries, key, file)),
                _ => Err(SchemaError::InvalidType),
            },
            Err(e) => Err(e),
        }
    }
}

/// The frame map that a JSON object stands for: each member names a frame
/// by its index and gives the file of its point cloud.
pub open spec fn frame_map_of_json(j: JsonView) -> Result<Seq<(u64, Seq<char>)>, SchemaError> {
    match j {
        JsonView::Object(members) => entries_of_members(members, members.len() as int),
        _ => Err(SchemaError::InvalidType),
    }
}

/// Reads a frame map from a JSON object, keeping the order of its members.
pub fn decode_frame_map(j: &Json) -> (r: Result<IndexMap<u64, String>, SchemaError>)
    ensures
        match r {
            Ok(map) => frame_map_of_json(j.deep_view()) == Ok::<
                Seq<(u64, Seq<char>)>,
                SchemaError,
            >(frames_of(map)),
            Err(e) => frame_map_of_json(j.deep_view()) == Err::<
                Seq<(u64, Seq<char>)>,
                SchemaError,
            >(e),
        },
{
    match j {
        Json::Object(members) => {
            let ghost model = j.deep_view()->Object_0;
            let mut map = new_frames();
            let mut i: usize = 0;
            while i < members.len()
                invariant
                    i <= members.len(),
                    j.deep_view() == JsonView::Object(model),
                    model.len() == members.len(),
                    forall|k: int|
                        0 <= k < members.len() ==> #[trigger] model[k] == (
                            members[k].0@,
                            members[k].1.deep_view(),
                        ),
                    entries_of_members(model, i as int) == Ok::<
                        Seq<(u64, Seq<char>)>,
                        SchemaError,
                    >(frames_of(map)),
                decreases members.len() - i,
            {
                assert(model[i as int] == (members[i as int].0@, members[i as int].1.deep_view()));
                let key = parse_index(members[i].0.as_str());
                match (key, &members[i].1) {
                    (Some(key), Json::Text(file)) => {
                        insert_frame(&mut map, key, file.clone());
                    },
                    _ => {
                        proof {
                            lemma_entries_fail(model, i as int, model.len() as int);
                        }
                        return Err(SchemaError::InvalidType);
                    },
                }
                i += 1;
            }
            Ok(map)
        },
        _ => Err(SchemaError::InvalidType),
    }
}

pub proof fn lemma_entries_fail(members: Seq<(Seq<char>, JsonView)>, i: int, n: int)
    requires
        0 <= i < n <= members.len(),
        entries_of_members(members, i) is Ok,
        !(index_of_text(members[i].0) is Some && members[i].1 is Text),
    ensures
        entries_of_members(members, n) == Err::<Seq<(u64, Seq<char>)>, SchemaError>(
            SchemaError::InvalidType,
        ),
    decreases n - i,
{
    if n > i + 1 {
        lemma_entries_fail(members, i, n - 1);
    }
}

} // verus!
