//! Lists of things that stand under names. Of two entries with one name
//! the first is the entry of that name.

use vstd::prelude::*;
use vstd::string::*;

verus! {

/// Whether the first `name` among `names` stands at `i`.
pub open spec fn first_at(names: Seq<Seq<char>>, name: Seq<char>, i: int) -> bool {
    &&& 0 <= i < names.len()
    &&& names[i] == name
    &&& forall|j: int| 0 <= j < i ==> names[j] != name
}

/// Whether `name` is none of `names`.
pub open spec fn absent(names: Seq<Seq<char>>, name: Seq<char>) -> bool {
    forall|i: int| 0 <= i < names.len() ==> names[i] != name
}

/// Where the first `name` among `names` stands, if `name` is among them.
pub closed spec fn position(names: Seq<Seq<char>>, name: Seq<char>) -> Option<int> {
    if exists|i: int| first_at(names, name, i) {
        Some(choose|i: int| first_at(names, name, i))
    } else {
        None
    }
}

/// The first `name` stands where `position` says.
pub proof fn lemma_position_is(names: Seq<Seq<char>>, name: Seq<char>, i: int)
    requires
        first_at(names, name, i),
    ensures
        position(names, name) == Some(i),
{
    let found = choose|i: int| first_at(names, name, i);
    if found < i {
        assert(names[found] != name);
    }
    if i < found {
        assert(names[i] != name);
    }
}

/// Where `name` is none of `names`, `position` finds none.
pub proof fn lemma_position_is_none(names: Seq<Seq<char>>, name: Seq<char>)
    requires
        absent(names, name),
    ensures
        position(names, name) is None,
{
    if exists|i: int| first_at(names, name, i) {
        let found = choose|i: int| first_at(names, name, i);
        assert(names[found] != name);
    }
}

/// What `position` says is so.
pub proof fn lemma_position(names: Seq<Seq<char>>, name: Seq<char>)
    ensures
        match position(names, name) {
            Some(i) => first_at(names, name, i),
            None => absent(names, name),
        },
{
    if !exists|i: int| first_at(names, name, i) {
        assert forall|i: int| 0 <= i < names.len() implies names[i] != name by {
            if names[i] == name {
                lemma_first_exists(names, name, i);
            }
        }
    }
}

/// Where `name` stands at `bound`, it stands somewhere first.
proof fn lemma_first_exists(names: Seq<Seq<char>>, name: Seq<char>, bound: int)
    requires
        0 <= bound < names.len(),
        names[bound] == name,
    ensures
        exists|i: int| first_at(names, name, i),
    decreases bound,
{
    if exists|j: int| 0 <= j < bound && names[j] == name {
        let j = choose|j: int| 0 <= j < bound && names[j] == name;
        lemma_first_exists(names, name, j);
    } else {
        assert(first_at(names, name, bound));
    }
}

/// The names of `entries`, in their order.
pub open spec fn names<T>(entries: Seq<(Seq<char>, T)>) -> Seq<Seq<char>> {
    Seq::new(entries.len(), |i: int| entries[i].0)
}

/// The names of `entries`, in their order, each taken by its view.
pub open spec fn keys<T>(entries: Seq<(String, T)>) -> Seq<Seq<char>> {
    Seq::new(entries.len(), |i: int| entries[i].0@)
}

/// Whether no name occurs twice in `entries`.
pub open spec fn distinct_names<T>(entries: Seq<(Seq<char>, T)>) -> bool {
    forall|i: int, j: int| 0 <= i < j < entries.len() ==> entries[i].0 != entries[j].0
}

/// What stands under `name`, where anything does.
pub open spec fn lookup<T>(entries: Seq<(Seq<char>, T)>, name: Seq<char>) -> Option<T> {
    match position(names(entries), name) {
        Some(i) => Some(entries[i].1),
        None => None,
    }
}

/// `entries` with `value` under `name`: in the place of what stood under
/// that name, or at the end.
pub open spec fn stored<T>(entries: Seq<(Seq<char>, T)>, name: Seq<char>, value: T) -> Seq<(Seq<char>, T)> {
    match position(names(entries), name) {
        Some(i) => entries.update(i, (name, value)),
        None => entries.push((name, value)),
    }
}

/// Storing under a name keeps the names distinct, makes the value the one
/// that stands under that name, and leaves every other name with what it
/// had.
pub proof fn lemma_stored<T>(entries: Seq<(Seq<char>, T)>, name: Seq<char>, value: T)
    requires
        distinct_names(entries),
    ensures
        distinct_names(stored(entries, name, value)),
        lookup(stored(entries, name, value), name) == Some(value),
        forall|other: Seq<char>|
            other != name ==> #[trigger] lookup(stored(entries, name, value), other) == lookup(entries, other),
{
    let after = stored(entries, name, value);
    let before_names = names(entries);
    let after_names = names(after);
    lemma_position(before_names, name);
    let at = match position(before_names, name) {
        Some(i) => i,
        None => entries.len() as int,
    };
    assert forall|j: int| 0 <= j < after_names.len() && j != at implies after_names[j] == before_names[j]
        && after[j] == entries[j] by {}
    assert(after_names[at] == name);
    assert(first_at(after_names, name, at)) by {
        assert forall|j: int| 0 <= j < at implies after_names[j] != name by {
            assert(before_names[j] != name);
        }
    }
    lemma_position_is(after_names, name, at);
    assert forall|other: Seq<char>| other != name implies #[trigger] lookup(after, other) == lookup(
        entries,
        other,
    ) by {
        lemma_position(before_names, other);
        match position(before_names, other) {
            Some(k) => {
                assert(first_at(after_names, other, k)) by {
                    assert forall|j: int| 0 <= j < k implies after_names[j] != other by {
                        if j != at {
                            assert(before_names[j] != other);
                        }
                    }
                }
                lemma_position_is(after_names, other, k);
            },
            None => {
                assert(absent(after_names, other)) by {
                    assert forall|j: int| 0 <= j < after_names.len() implies after_names[j] != other by {
                        if j != at {
                            assert(before_names[j] != other);
                        }
                    }
                }
                lemma_position_is_none(after_names, other);
            },
        }
    }
    assert(distinct_names(after)) by {
        assert forall|i: int, j: int| 0 <= i < j < after.len() implies after[i].0 != after[j].0 by {
            if i != at && j != at {
                assert(entries[i].0 != entries[j].0);
            } else if i == at {
                assert(before_names[j] == after[j].0);
            } else {
                assert(before_names[i] == after[i].0);
            }
        }
    }
}

/// `entries` without what stood under `name`.
pub open spec fn removed<T>(entries: Seq<(Seq<char>, T)>, name: Seq<char>) -> Seq<(Seq<char>, T)> {
    match position(names(entries), name) {
        Some(i) => entries.remove(i),
        None => entries,
    }
}

/// Removing a name keeps the names distinct, leaves nothing under that
/// name, and leaves every other name with what it had.
pub proof fn lemma_removed<T>(entries: Seq<(Seq<char>, T)>, name: Seq<char>)
    requires
        distinct_names(entries),
    ensures
        distinct_names(removed(entries, name)),
        lookup(removed(entries, name), name) is None,
        forall|other: Seq<char>|
            other != name ==> #[trigger] lookup(removed(entries, name), other) == lookup(entries, other),
{
    let after = removed(entries, name);
    let before_names = names(entries);
    let after_names = names(after);
    lemma_position(before_names, name);
    match position(before_names, name) {
        None => {},
        Some(at) => {
            assert forall|j: int| 0 <= j < after.len() implies after[j] == entries[if j < at {
                j
            } else {
                j + 1
            }] && after_names[j] == before_names[if j < at {
                j
            } else {
                j + 1
            }] by {}
            assert(absent(after_names, name)) by {
                assert forall|j: int| 0 <= j < after_names.len() implies after_names[j] != name by {
                    if j < at {
                        assert(before_names[j] != name);
                    } else {
                        assert(entries[at].0 != entries[j + 1].0);
                    }
                }
            }
            lemma_position_is_none(after_names, name);
            assert forall|other: Seq<char>| other != name implies #[trigger] lookup(after, other) == lookup(
                entries,
                other,
            ) by {
                lemma_position(before_names, other);
                match position(before_names, other) {
                    Some(k) => {
                        let moved = if k < at {
                            k
                        } else {
                            k - 1
                        };
                        assert(first_at(after_names, other, moved)) by {
                            assert forall|j: int| 0 <= j < moved implies after_names[j] != other by {
                                if j < at {
                                    assert(before_names[j] != other);
                                } else {
                                    assert(before_names[j + 1] != other);
                                }
                            }
                        }
                        lemma_position_is(after_names, other, moved);
                    },
                    None => {
                        assert(absent(after_names, other)) by {
                            assert forall|j: int| 0 <= j < after_names.len() implies after_names[j]
                                != other by {
                                if j < at {
                                    assert(before_names[j] != other);
                                } else {
                                    assert(before_names[j + 1] != other);
                                }
                            }
                        }
                        lemma_position_is_none(after_names, other);
                    },
                }
            }
            assert(distinct_names(after)) by {
                assert forall|i: int, j: int| 0 <= i < j < after.len() implies after[i].0 != after[j].0 by {
                    let from_i = if i < at {
                        i
                    } else {
                        i + 1
                    };
                    let from_j = if j < at {
                        j
                    } else {
                        j + 1
                    };
                    assert(entries[from_i].0 != entries[from_j].0);
                }
            }
        },
    }
}

/// Finds the first entry that stands under `name`.
pub fn find<T>(entries: &Vec<(String, T)>, name: &str) -> (at: Option<usize>)
    ensures
        match at {
            Some(i) => i < entries.len() && position(keys(entries@), name@) == Some(i as int),
            None => position(keys(entries@), name@) is None,
        },
{
    let wanted = name.to_owned();
    let ghost names = keys(entries@);
    let mut i: usize = 0;
    while i < entries.len()
        invariant
            i <= entries.len(),
            wanted@ == name@,
            names == keys(entries@),
            forall|j: int| 0 <= j < i ==> names[j] != name@,
        decreases entries.len() - i,
    {
        if entries[i].0 == wanted {
            proof {
                assert(first_at(names, name@, i as int));
                lemma_position_is(names, name@, i as int);
            }
            return Some(i);
        }
        i += 1;
    }
    proof {
        lemma_position_is_none(names, name@);
    }
    None
}

} // verus!
