//! A multimap from ids to sets of ids, kept without empty entries, on
//! `HashMap` and `HashSet`.
use vstd::prelude::*;
use std::collections::{HashMap, HashSet};

verus! {

broadcast use vstd::std_specs::hash::group_hash_axioms;

/// The abstract contents of an index.
pub open spec fn index_view(m: Map<u128, HashSet<u128>>) -> Map<u128, Set<u128>> {
    m.map_values(|s: HashSet<u128>| s@)
}

/// `m` with `member` added to the set of `key` (created when missing).
pub open spec fn add_member(m: Map<u128, Set<u128>>, key: u128, member: u128) -> Map<
    u128,
    Set<u128>,
> {
    if m.contains_key(key) {
        m.insert(key, m[key].insert(member))
    } else {
        m.insert(key, Set::empty().insert(member))
    }
}

/// `m` with `member` removed from the set of `key`; a set that becomes empty
/// is dropped.
pub open spec fn remove_member(m: Map<u128, Set<u128>>, key: u128, member: u128) -> Map<
    u128,
    Set<u128>,
> {
    if m.contains_key(key) {
        if m[key].remove(member).is_empty() {
            m.remove(key)
        } else {
            m.insert(key, m[key].remove(member))
        }
    } else {
        m
    }
}

/// `m` with `member` removed from every set; sets that become empty are
/// dropped.
pub open spec fn without_member(m: Map<u128, Set<u128>>, member: u128) -> Map<u128, Set<u128>> {
    Map::new(
        |k: u128| m.contains_key(k) && !m[k].remove(member).is_empty(),
        |k: u128| m[k].remove(member),
    )
}

/// Adds `member` to the set of `key`, creating the set when missing.
pub fn index_insert(index: &mut HashMap<u128, HashSet<u128>>, key: u128, member: u128)
    ensures
        index_view(final(index)@) == add_member(index_view(old(index)@), key, member),
{
    let mut set = match index.remove(&key) {
        Some(s) => s,
        None => HashSet::new(),
    };
    let ghost mid = index@;
    set.insert(member);
    index.insert(key, set);
    proof {
        assert(index_view(index@) =~= add_member(index_view(old(index)@), key, member));
    }
}

/// Removes `member` from the set of `key`, dropping the set when it becomes
/// empty.
pub fn index_remove(index: &mut HashMap<u128, HashSet<u128>>, key: u128, member: u128)
    ensures
        index_view(final(index)@) == remove_member(index_view(old(index)@), key, member),
{
    match index.remove(&key) {
        Some(mut set) => {
            set.remove(&member);
            if !set.is_empty() {
                index.insert(key, set);
                proof {
                    assert(index_view(index@) =~= remove_member(
                        index_view(old(index)@),
                        key,
                        member,
                    ));
                }
            } else {
                proof {
                    assert(index_view(index@) =~= remove_member(
                        index_view(old(index)@),
                        key,
                        member,
                    ));
                }
            }
        },
        None => {
            proof {
                assert(index_view(index@) =~= index_view(old(index)@));
            }
        },
    }
}

/// Removes `member` from the set of `key` like `index_remove`, and reports
/// whether the set of `key` was dropped because it became empty.
pub fn index_remove_reporting(index: &mut HashMap<u128, HashSet<u128>>, key: u128, member: u128) -> (dropped: bool)
    ensures
        index_view(final(index)@) == remove_member(index_view(old(index)@), key, member),
        dropped == (index_view(old(index)@).contains_key(key) && index_view(old(index)@)[key].remove(member).is_empty()),
{
    match index.remove(&key) {
        Some(mut set) => {
            set.remove(&member);
            if !set.is_empty() {
                index.insert(key, set);
                proof {
                    assert(index_view(index@) =~= remove_member(
                        index_view(old(index)@),
                        key,
                        member,
                    ));
                }
                false
            } else {
                proof {
                    assert(index_view(index@) =~= remove_member(
                        index_view(old(index)@),
                        key,
                        member,
                    ));
                }
                true
            }
        },
        None => {
            proof {
                assert(index_view(index@) =~= index_view(old(index)@));
            }
            false
        },
    }
}

/// The members of the set of `key`, as a list without duplicates.
pub fn members_of(index: &HashMap<u128, HashSet<u128>>, key: u128) -> (r: Vec<u128>)
    ensures
        r@.no_duplicates(),
        index_view(index@).contains_key(key) ==> r@.to_set() == index_view(index@)[key],
        !index_view(index@).contains_key(key) ==> r@.len() == 0,
{
    let mut out: Vec<u128> = Vec::new();
    match index.get(&key) {
        Some(set) => {
            for m in it: set.iter()
                invariant
                    it.seq().unref().to_set() == set@,
                    it.seq().unref().no_duplicates(),
                    out@ == it.seq().unref().take(it.index() as int),
                ensures
                    out@ == it.seq().unref(),
            {
                out.push(*m);
                proof {
                    assert(out@ =~= it.seq().unref().take(it.index() + 1));
                }
            }
        },
        None => {},
    }
    out
}

} // verus!
