//! Hash maps: storage by key.

use crate::std_contracts::hash_map_capacity;
use std::collections::HashMap;
use vstd::prelude::*;
use vstd::set_lib::lemma_subset_equality;

verus! {

/// What [`understanding_hash_map`] reads from its map on the way.
pub struct MapSummary {
    /// The value found under key 0 after three insertions.
    pub value_one: Option<String>,
    /// The number of entries after the insertions.
    pub length: usize,
    /// The keys after the insertions, in the order the map yields them.
    pub keys: Vec<i32>,
    /// The values equal to the first one inserted.
    pub filtered: Vec<String>,
    /// Whether key 0 is still present after its removal.
    pub contains: bool,
    /// Whether the map is empty after the removal.
    pub is_empty: bool,
}

/// The test whether `map` holds `wanted` under a given key.
pub open spec fn holds_under(map: Map<i32, String>, wanted: Seq<char>) -> spec_fn(i32) -> bool {
    |key: i32| map[key]@ == wanted
}

/// The keys of `map` under which it holds `wanted`.
pub open spec fn keys_holding(map: Map<i32, String>, wanted: Seq<char>) -> Set<i32> {
    map.dom().filter(holds_under(map, wanted))
}

/// Collects a copy of every value of `map` that equals `wanted`: as many
/// copies as there are keys that hold it.
pub fn values_equal_to(map: &HashMap<i32, String>, wanted: &String) -> (found: Vec<String>)
    ensures
        found@.len() == keys_holding(map@, wanted@).len(),
        forall|i: int| 0 <= i < found@.len() ==> found@[i]@ == wanted@,
{
    let mut found: Vec<String> = Vec::new();
    let ghost mut seen: Set<i32> = Set::empty();
    let ghost holds = holds_under(map@, wanted@);
    assert(seen.filter(holds) =~= Set::<i32>::empty());

    for entry in entries: map.iter()
        invariant
            holds == holds_under(map@, wanted@),
            entries.seq().len() == map@.dom().len(),
            entries.seq().no_duplicates(),
            forall|i: int|
                0 <= i < entries.seq().len() ==> map@.contains_key(*entries.seq()[i].0)
                    && map@[*entries.seq()[i].0] == *entries.seq()[i].1,
            seen.finite(),
            seen.subset_of(map@.dom()),
            seen.len() == entries.index(),
            forall|k: i32|
                seen.contains(k) <==> exists|j: int|
                    0 <= j < entries.index() && *entries.seq()[j].0 == k,
            found@.len() == seen.filter(holds).len(),
            forall|i: int| 0 <= i < found@.len() ==> found@[i]@ == wanted@,
    {
        let key = entry.0;
        let value = entry.1;
        proof {
            let at = entries.index();
            if seen.contains(*key) {
                let j = choose|j: int| 0 <= j < at && *entries.seq()[j].0 == *key;
                assert(entries.seq()[j] == entries.seq()[at]);
            }
            seen.lemma_len_filter(holds);
            if holds(*key) {
                assert(seen.insert(*key).filter(holds) =~= seen.filter(holds).insert(*key));
            } else {
                assert(seen.insert(*key).filter(holds) =~= seen.filter(holds));
            }
            seen = seen.insert(*key);
        }
        if *value == *wanted {
            found.push(value.clone());
        }
    }

    proof {
        lemma_subset_equality(seen, map@.dom());
    }

    found
}

/// Collects the keys of `map`, each once, in the order the map yields them.
pub fn keys_of(map: &HashMap<i32, String>) -> (keys: Vec<i32>)
    ensures
        keys@.to_set() == map@.dom(),
        keys@.no_duplicates(),
        keys@.len() == map@.dom().len(),
{
    let mut keys: Vec<i32> = Vec::new();

    for key in walk: map.keys()
        invariant
            walk.seq().unref().to_set() == map@.dom(),
            walk.seq().no_duplicates(),
            walk.seq().len() == map@.dom().len(),
            keys@ == walk.seq().unref().take(walk.index()),
            walk.index() == walk.seq().len() ==> keys@ =~= walk.seq().unref(),
    {
        keys.push(*key);
        assert(keys@ =~= walk.seq().unref().take(walk.index() + 1));
    }

    keys
}

/// Builds a map of three followers and goes through the everyday
/// operations: insert, look up, count, walk over entries, keys and values,
/// filter, remove, test for a key, and clear.
///
/// After the insertions key 0 holds `"script_saga_follower_one"` and the map
/// has three entries. One value equals the first follower's name. After key
/// 0 is removed it is no longer present, and the map is not empty.
pub fn understanding_hash_map() -> (summary: MapSummary)
    ensures
        summary.value_one matches Some(value) && value@ == "script_saga_follower_one"@,
        summary.length == 3,
        summary.keys@.len() == 3,
        summary.keys@.to_set() == set![0i32, 1, 2],
        summary.filtered@.len() == 1,
        summary.filtered@[0]@ == "script_saga_follower_one"@,
        !summary.contains,
        !summary.is_empty,
{
    // The types of key and value are part of the map's type.
    let mut map: HashMap<i32, String> = HashMap::new();

    map.insert(0, "script_saga_follower_one".to_string());
    map.insert(1, "script_saga_follower_two".to_string());
    map.insert(2, "script_saga_follower_three".to_string());

    // A key may be absent, so a lookup gives an `Option`.
    let value_one = match map.get(&0) {
        Some(value) => Some(value.clone()),
        None => None,
    };

    let length = map.len();

    // Room for ten entries is reserved up front.
    let map_with_capacity: HashMap<i32, String> = HashMap::with_capacity(10);
    let capacity = hash_map_capacity(&map_with_capacity);

    for entry in map.iter() {
    }

    for key in map.keys() {
    }

    for v in map.values() {
    }

    // The keys gathered into a vector, in the order the map yields them.
    let a = keys_of(&map);

    // Only the values equal to the first follower's name.
    let wanted = "script_saga_follower_one".to_string();
    let filtered = values_equal_to(&map, &wanted);

    proof {
        reveal_strlit("script_saga_follower_one");
        reveal_strlit("script_saga_follower_two");
        reveal_strlit("script_saga_follower_three");
        assert("script_saga_follower_one"@[21] != "script_saga_follower_two"@[21]);
        assert(keys_holding(map@, wanted@) =~= set![0i32]);
    }

    map.remove(&0);

    let contains = map.contains_key(&0);

    let is_empty = map.is_empty();

    // Empties the map and keeps its memory for reuse.
    map.clear();

    MapSummary { value_one, length, keys: a, filtered, contains, is_empty }
}

} // verus!
