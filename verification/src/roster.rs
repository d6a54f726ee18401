//! Roster state: the names of the participants that are present, in order of
//! arrival. A name may occur more than once.

use vstd::prelude::*;

verus! {

/// The character sequences that a list of strings holds, in order.
pub open spec fn strings(list: Seq<String>) -> Seq<Seq<char>> {
    Seq::new(list.len(), |i: int| list[i]@)
}

/// Index of the first occurrence of `name`, or the length where it does not
/// occur.
pub open spec fn first_index(roster: Seq<Seq<char>>, name: Seq<char>) -> int
    decreases roster.len(),
{
    if roster.len() == 0 {
        0
    } else if roster[0] == name {
        0
    } else {
        1 + first_index(roster.drop_first(), name)
    }
}

/// The roster without the first occurrence of `name`; the roster itself
/// where `name` does not occur.
pub open spec fn remove_first(roster: Seq<Seq<char>>, name: Seq<char>) -> Seq<Seq<char>> {
    if roster.contains(name) {
        roster.remove(first_index(roster, name))
    } else {
        roster
    }
}

/// `first_index` is the least index that holds `name`, and the length
/// exactly where no index does.
pub proof fn first_index_is_least(roster: Seq<Seq<char>>, name: Seq<char>)
    ensures
        0 <= first_index(roster, name) <= roster.len(),
        first_index(roster, name) < roster.len() ==> roster[first_index(roster, name)] == name,
        forall|i: int| 0 <= i < first_index(roster, name) ==> roster[i] != name,
        roster.contains(name) <==> first_index(roster, name) < roster.len(),
    decreases roster.len(),
{
    if roster.len() > 0 && roster[0] != name {
        let rest = roster.drop_first();
        first_index_is_least(rest, name);
        assert forall|i: int| 0 <= i < first_index(roster, name) implies roster[i] != name by {
            if i > 0 {
                assert(roster[i] == rest[i - 1]);
            }
        }
        if roster.contains(name) {
            let j = choose|j: int| 0 <= j < roster.len() && roster[j] == name;
            assert(rest[j - 1] == name);
        }
        if first_index(rest, name) < rest.len() {
            assert(roster[first_index(rest, name) + 1] == name);
        }
    } else if roster.len() > 0 {
        assert(roster[0] == name);
    }
}

/// Appends `name` to the roster.
pub fn append(roster: &mut Vec<String>, name: String)
    ensures
        strings(final(roster)@) == strings(old(roster)@).push(name@),
{
    roster.push(name);
    assert(strings(roster@) =~= strings(old(roster)@).push(name@));
}

/// Position of the first occurrence of `name`, if it occurs.
pub fn position(roster: &Vec<String>, name: &String) -> (found: Option<usize>)
    ensures
        match found {
            Some(at) => strings(roster@).contains(name@) && at == first_index(
                strings(roster@),
                name@,
            ),
            None => !strings(roster@).contains(name@),
        },
{
    let mut at: usize = 0;
    while at < roster.len()
        invariant
            at <= roster.len(),
            forall|i: int| 0 <= i < at ==> strings(roster@)[i] != name@,
        decreases roster.len() - at,
    {
        if roster[at] == *name {
            proof {
                first_index_is_least(strings(roster@), name@);
                let found_at = first_index(strings(roster@), name@);
                assert(strings(roster@)[at as int] == name@);
                assert(strings(roster@).contains(name@));
                assert(strings(roster@)[found_at] == name@);
                assert(found_at == at);
            }
            return Some(at);
        }
        at += 1;
    }
    proof {
        first_index_is_least(strings(roster@), name@);
    }
    None
}

/// Removes the first occurrence of `name`; leaves the roster as it is where
/// `name` does not occur. Says whether a name was removed.
pub fn remove_name(roster: &mut Vec<String>, name: &String) -> (removed: bool)
    ensures
        strings(final(roster)@) == remove_first(strings(old(roster)@), name@),
        removed == strings(old(roster)@).contains(name@),
{
    match position(roster, name) {
        Some(at) => {
            proof {
                first_index_is_least(strings(roster@), name@);
            }
            roster.remove(at);
            assert(strings(roster@) =~= strings(old(roster)@).remove(at as int));
            true
        },
        None => false,
    }
}

} // verus!
