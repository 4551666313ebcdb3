use vstd::prelude::*;

verus! {

/// The map that a list of `(key, value)` entries stands for: a later entry
/// with the same key overrides an earlier one.
pub open spec fn entries_map<V>(s: Seq<(String, V)>) -> Map<Seq<char>, V>
    decreases s.len(),
{
    if s.len() == 0 {
        Map::empty()
    } else {
        entries_map(s.drop_last()).insert(s.last().0@, s.last().1)
    }
}

/// Appending an entry inserts it into the map.
pub proof fn lemma_entries_push<V>(s: Seq<(String, V)>, e: (String, V))
    ensures
        entries_map(s.push(e)) == entries_map(s).insert(e.0@, e.1),
{
    assert(s.push(e).drop_last() =~= s);
}

/// A key that no entry carries is absent from the map.
pub proof fn lemma_entries_absent<V>(s: Seq<(String, V)>, k: Seq<char>)
    requires
        forall|j: int| 0 <= j < s.len() ==> s[j].0@ != k,
    ensures
        !entries_map(s).contains_key(k),
    decreases s.len(),
{
    if s.len() > 0 {
        lemma_entries_absent(s.drop_last(), k);
    }
}

/// The last entry that carries a key gives its value in the map.
pub proof fn lemma_entries_last_key<V>(s: Seq<(String, V)>, i: int, k: Seq<char>)
    requires
        0 <= i < s.len(),
        s[i].0@ == k,
        forall|j: int| i < j < s.len() ==> s[j].0@ != k,
    ensures
        entries_map(s).contains_key(k),
        entries_map(s)[k] == s[i].1,
    decreases s.len(),
{
    if i < s.len() - 1 {
        lemma_entries_last_key(s.drop_last(), i, k);
    }
}

/// Looks up `key`, the last entry carrying it winning.
pub fn find_entry<'a, V>(entries: &'a Vec<(String, V)>, key: &String) -> (r: Option<&'a V>)
    ensures
        match r {
            Some(v) => entries_map(entries@).contains_key(key@) && entries_map(entries@)[key@]
                == *v,
            None => !entries_map(entries@).contains_key(key@),
        },
{
    let mut i: usize = entries.len();
    while i > 0
        invariant
            i <= entries.len(),
            forall|j: int| i <= j < entries.len() ==> entries@[j].0@ != key@,
        decreases i,
    {
        i = i - 1;
        if entries[i].0 == *key {
            proof {
                lemma_entries_last_key(entries@, i as int, key@);
            }
            return Some(&entries[i].1);
        }
    }
    proof {
        lemma_entries_absent(entries@, key@);
    }
    None
}

} // verus!
