use vstd::prelude::*;

verus! {

/// Which half of a (first, second) pair a saved choice is matched against.
#[derive(Debug, Clone, Copy, PartialEq, Eq, Structural)]
pub enum PairKey {
    First,
    Second,
}

pub open spec fn key_of(p: (String, String), k: PairKey) -> Seq<char> {
    match k {
        PairKey::First => p.0@,
        PairKey::Second => p.1@,
    }
}

/// Whether `name` is one of `candidates`.
pub open spec fn listed(candidates: Seq<String>, name: Seq<char>) -> bool {
    exists|i: int| 0 <= i < candidates.len() && (#[trigger] candidates[i])@ == name
}

/// Whether `name` is the `k` half of one of `pairs`.
pub open spec fn listed_pair(pairs: Seq<(String, String)>, k: PairKey, name: Seq<char>) -> bool {
    exists|i: int| 0 <= i < pairs.len() && key_of(#[trigger] pairs[i], k) == name
}

/// The saved choice, if there is one and it is still among `candidates`.
pub fn restore_choice(saved: &Option<String>, candidates: &Vec<String>) -> (r: Option<String>)
    ensures
        r is Some <==> (saved is Some && listed(candidates@, saved->Some_0@)),
        r matches Some(s) ==> s@ == saved->Some_0@,
{
    let name = match saved {
        Some(n) => n,
        None => {
            return None;
        },
    };
    let mut i: usize = 0;
    while i < candidates.len()
        invariant
            i <= candidates@.len(),
            saved == Some(*name),
            forall|j: int| 0 <= j < i ==> (#[trigger] candidates@[j])@ != name@,
        decreases candidates@.len() - i,
    {
        if candidates[i] == *name {
            assert((candidates@[i as int])@ == name@);
            return Some(name.clone());
        }
        i = i + 1;
    }
    None
}

/// The saved choice, if there is one and it is still the `key` half of one of
/// `pairs`.
pub fn restore_pair_choice(saved: &Option<String>, pairs: &Vec<(String, String)>, key: PairKey) -> (r:
    Option<String>)
    ensures
        r is Some <==> (saved is Some && listed_pair(pairs@, key, saved->Some_0@)),
        r matches Some(s) ==> s@ == saved->Some_0@,
{
    let name = match saved {
        Some(n) => n,
        None => {
            return None;
        },
    };
    let mut i: usize = 0;
    while i < pairs.len()
        invariant
            i <= pairs@.len(),
            saved == Some(*name),
            forall|j: int| 0 <= j < i ==> key_of(#[trigger] pairs@[j], key) != name@,
        decreases pairs@.len() - i,
    {
        let hit = match key {
            PairKey::First => pairs[i].0 == *name,
            PairKey::Second => pairs[i].1 == *name,
        };
        if hit {
            assert(key_of(pairs@[i as int], key) == name@);
            return Some(name.clone());
        }
        i = i + 1;
    }
    None
}

} // verus!
