//! Attaching each API key's token quota to the key list.

use vstd::prelude::*;
use vstd::hash_map::StringHashMap;

verus! {

/// The quota table a list of `(key id, limit)` entries builds, a later
/// entry for the same key replacing an earlier one.
pub open spec fn quota_table(entries: Seq<(Seq<char>, i64)>) -> Map<Seq<char>, i64>
    decreases entries.len(),
{
    if entries.len() == 0 {
        Map::empty()
    } else {
        quota_table(entries.drop_last()).insert(entries.last().0, entries.last().1)
    }
}

pub open spec fn entry_views(entries: Seq<(String, i64)>) -> Seq<(Seq<char>, i64)> {
    entries.map_values(|e: (String, i64)| (e.0@, e.1))
}

/// The quota of the key `id`, if it has one.
pub open spec fn quota_of(table: Map<Seq<char>, i64>, id: Seq<char>) -> Option<i64> {
    if table.contains_key(id) {
        Some(table[id])
    } else {
        None
    }
}

/// No entry after position `j` names `id`.
pub open spec fn is_last_entry_for(entries: Seq<(Seq<char>, i64)>, j: int, id: Seq<char>) -> bool {
    &&& 0 <= j < entries.len()
    &&& entries[j].0 == id
    &&& forall|k: int| j < k < entries.len() ==> (#[trigger] entries[k]).0 != id
}

/// No entry names `id`.
pub open spec fn has_no_entry_for(entries: Seq<(Seq<char>, i64)>, id: Seq<char>) -> bool {
    forall|k: int| 0 <= k < entries.len() ==> (#[trigger] entries[k]).0 != id
}

/// A key that no entry names has no quota.
pub proof fn lemma_quota_without_entry(entries: Seq<(Seq<char>, i64)>, id: Seq<char>)
    requires
        has_no_entry_for(entries, id),
    ensures
        !quota_table(entries).contains_key(id),
    decreases entries.len(),
{
    if entries.len() > 0 {
        let rest = entries.drop_last();
        assert forall|k: int| 0 <= k < rest.len() implies (#[trigger] rest[k]).0 != id by {
            assert(rest[k] == entries[k]);
        }
        lemma_quota_without_entry(rest, id);
        assert(entries.last() == entries[entries.len() - 1]);
    }
}

/// Every entry counts: the quota of a key is the limit of the last entry
/// that names it.
pub proof fn lemma_quota_from_last_entry(entries: Seq<(Seq<char>, i64)>, j: int, id: Seq<char>)
    requires
        is_last_entry_for(entries, j, id),
    ensures
        quota_table(entries).contains_key(id),
        quota_table(entries)[id] == entries[j].1,
    decreases entries.len(),
{
    let n = entries.len() - 1;
    if j < n {
        let rest = entries.drop_last();
        assert forall|k: int| j < k < rest.len() implies (#[trigger] rest[k]).0 != id by {
            assert(rest[k] == entries[k]);
        }
        assert(entries[n].0 != id);
        lemma_quota_from_last_entry(rest, j, id);
    }
}

/// A key's quota is the limit of the last entry naming it, and a key with no
/// entry has none.
pub proof fn lemma_quota_of_entries(entries: Seq<(Seq<char>, i64)>, id: Seq<char>)
    ensures
        has_no_entry_for(entries, id) ==> quota_of(quota_table(entries), id) is None,
        forall|j: int|
            #![trigger is_last_entry_for(entries, j, id)]
            is_last_entry_for(entries, j, id) ==> quota_of(quota_table(entries), id) == Some(
                entries[j].1,
            ),
{
    if has_no_entry_for(entries, id) {
        lemma_quota_without_entry(entries, id);
    }
    assert forall|j: int| #![trigger is_last_entry_for(entries, j, id)] is_last_entry_for(entries, j, id) implies quota_of(quota_table(entries), id) == Some(entries[j].1) by {
        lemma_quota_from_last_entry(entries, j, id);
    }
}

/// For each key id, the quota the entries give it, `None` for keys without
/// a quota.
pub fn quota_limits_for_keys(key_ids: &Vec<String>, quota_entries: Vec<(String, i64)>) -> (r: Vec<Option<i64>>)
    ensures
        r.len() == key_ids.len(),
        forall|i: int|
            0 <= i < key_ids.len() ==> #[trigger] r@[i] == quota_of(
                quota_table(entry_views(quota_entries@)),
                key_ids@[i]@,
            ),
        forall|i: int|
            0 <= i < key_ids.len() && has_no_entry_for(entry_views(quota_entries@), key_ids@[i]@)
                ==> #[trigger] r@[i] is None,
        forall|i: int, j: int|
            0 <= i < key_ids.len() && is_last_entry_for(
                entry_views(quota_entries@),
                j,
                key_ids@[i]@,
            ) ==> #[trigger] r@[i] == Some(#[trigger] quota_entries@[j].1),
{
    let ghost original = quota_entries@;
    let ghost entries = entry_views(quota_entries@);
    let mut table: StringHashMap<i64> = StringHashMap::new();
    let mut rest: Vec<(String, i64)> = quota_entries;
    let n: usize = rest.len();
    let mut k: usize = 0;
    while k < n
        invariant
            n == entries.len(),
            0 <= k <= n,
            rest@.len() == n - k,
            forall|j: int| 0 <= j < n - k ==> (#[trigger] rest@[j]).0@ == entries[k + j].0 && rest@[j].1 == entries[k + j].1,
            table@ == quota_table(entries.take(k as int)),
        decreases n - k,
    {
        let ghost before = rest@;
        let entry: (String, i64) = rest.remove(0);
        proof {
            assert(entries.take(k + 1).drop_last() =~= entries.take(k as int));
            assert(entries.take(k + 1).last() == entries[k as int]);
            assert(before[0].0@ == entries[k as int].0);
        }
        table.insert(entry.0, entry.1);
        k = k + 1;
        proof {
            assert forall|j: int| 0 <= j < n - k implies (#[trigger] rest@[j]).0@ == entries[k + j].0 && rest@[j].1 == entries[k + j].1 by {
                assert(rest@[j] == before[j + 1]);
            }
        }
    }
    proof {
        assert(entries.take(n as int) =~= entries);
    }
    let mut r: Vec<Option<i64>> = Vec::new();
    let mut i: usize = 0;
    while i < key_ids.len()
        invariant
            0 <= i <= key_ids.len(),
            r.len() == i,
            table@ == quota_table(entries),
            entries == entry_views(quota_entries@),
            forall|j: int| 0 <= j < i ==> #[trigger] r@[j] == quota_of(table@, key_ids@[j]@),
        decreases key_ids.len() - i,
    {
        let limit: Option<i64> = match table.get(key_ids[i].as_str()) {
            Some(v) => Some(*v),
            None => None,
        };
        r.push(limit);
        i = i + 1;
    }
    proof {
        assert forall|i: int|
            0 <= i < key_ids.len() && has_no_entry_for(entries, key_ids@[i]@) implies #[trigger] r@[i] is None by {
            lemma_quota_of_entries(entries, key_ids@[i]@);
        }
        assert forall|i: int, j: int|
            0 <= i < key_ids.len() && is_last_entry_for(entries, j, key_ids@[i]@) implies #[trigger] r@[i]
                == Some(#[trigger] original[j].1) by {
            lemma_quota_of_entries(entries, key_ids@[i]@);
            assert(is_last_entry_for(entries, j, key_ids@[i]@));
            assert(entries[j].1 == original[j].1);
        }
    }
    r
}

} // verus!
