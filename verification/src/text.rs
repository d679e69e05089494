//! Lists of names and of key/value pairs, as the adapters read them.

use vstd::prelude::*;

verus! {

/// The names of a list, each as its sequence of characters.
pub open spec fn views(list: Seq<String>) -> Seq<Seq<char>> {
    Seq::new(list.len(), |i: int| list[i]@)
}

/// The pairs of a list, each side as its sequence of characters.
pub open spec fn pair_views(pairs: Seq<(String, String)>) -> Seq<(Seq<char>, Seq<char>)> {
    Seq::new(pairs.len(), |i: int| (pairs[i].0@, pairs[i].1@))
}

/// How often `name` occurs in `names`.
pub open spec fn count_of(names: Seq<Seq<char>>, name: Seq<char>) -> nat
    decreases names.len(),
{
    if names.len() == 0 {
        0
    } else {
        count_of(names.drop_last(), name) + if names.last() == name {
            1nat
        } else {
            0nat
        }
    }
}

/// No name occurs twice.
pub open spec fn distinct(names: Seq<Seq<char>>) -> bool {
    forall|i: int, j: int| 0 <= i < j < names.len() ==> names[i] != names[j]
}

/// `found` is the first place of `name` in `names`, or `None` where there is none.
pub open spec fn is_first_index(names: Seq<Seq<char>>, name: Seq<char>, found: Option<usize>) -> bool {
    match found {
        Some(j) => j < names.len() && names[j as int] == name && forall|k: int|
            0 <= k < j ==> names[k] != name,
        None => forall|k: int| 0 <= k < names.len() ==> names[k] != name,
    }
}

/// The value of the first pair whose key is `key`.
pub open spec fn lookup(pairs: Seq<(Seq<char>, Seq<char>)>, key: Seq<char>) -> Option<Seq<char>>
    decreases pairs.len(),
{
    if pairs.len() == 0 {
        None
    } else if pairs[0].0 == key {
        Some(pairs[0].1)
    } else {
        lookup(pairs.skip(1), key)
    }
}

/// A name that occurs nowhere counts zero, and the other way round.
pub proof fn lemma_count_zero(names: Seq<Seq<char>>, name: Seq<char>)
    ensures
        count_of(names, name) == 0 <==> (forall|k: int| 0 <= k < names.len() ==> names[k] != name),
    decreases names.len(),
{
    if names.len() > 0 {
        lemma_count_zero(names.drop_last(), name);
        if count_of(names, name) == 0 {
            assert forall|k: int| 0 <= k < names.len() implies names[k] != name by {
                if k < names.len() - 1 {
                    assert(names.drop_last()[k] == names[k]);
                }
            }
        } else if names.last() != name {
            let k = choose|k: int| 0 <= k < names.len() - 1 && names.drop_last()[k] == name;
            assert(names[k] == name);
        }
    }
}

/// How often `name` occurs in `list`.
pub fn count_in(list: &Vec<String>, name: &String) -> (n: usize)
    ensures
        n == count_of(views(list@), name@),
{
    let mut n: usize = 0;
    let mut i: usize = 0;
    while i < list.len()
        invariant
            i <= list.len(),
            n <= i,
            n == count_of(views(list@).take(i as int), name@),
        decreases list.len() - i,
    {
        proof {
            assert(views(list@).take(i + 1).drop_last() =~= views(list@).take(i as int));
        }
        if list[i] == *name {
            n += 1;
        }
        i += 1;
    }
    proof {
        assert(views(list@).take(list.len() as int) =~= views(list@));
    }
    n
}

/// The first place of `name` in `list`.
pub fn position(list: &Vec<String>, name: &String) -> (found: Option<usize>)
    ensures
        is_first_index(views(list@), name@, found),
{
    let mut i: usize = 0;
    while i < list.len()
        invariant
            i <= list.len(),
            forall|k: int| 0 <= k < i ==> views(list@)[k] != name@,
        decreases list.len() - i,
    {
        if list[i] == *name {
            return Some(i);
        }
        i += 1;
    }
    None
}

/// Whether no name occurs twice in `list`.
pub fn all_distinct(list: &Vec<String>) -> (yes: bool)
    ensures
        yes == distinct(views(list@)),
{
    let mut i: usize = 0;
    while i < list.len()
        invariant
            i <= list.len(),
            forall|a: int, b: int| 0 <= a < b < i ==> views(list@)[a] != views(list@)[b],
        decreases list.len() - i,
    {
        let first = position(list, &list[i]);
        match first {
            Some(j) => {
                if j != i {
                    assert(views(list@)[j as int] == views(list@)[i as int]);
                    return false;
                }
            },
            None => {
                assert(views(list@)[i as int] == list[i as int]@);
                return false;
            },
        }
        i += 1;
    }
    true
}

/// Whether every name of `list` occurs in `known`.
pub fn all_known(list: &Vec<String>, known: &Vec<String>) -> (yes: bool)
    ensures
        yes == (forall|k: int| 0 <= k < list.len() ==> views(known@).contains(#[trigger] views(list@)[k])),
{
    let mut i: usize = 0;
    while i < list.len()
        invariant
            i <= list.len(),
            forall|k: int| 0 <= k < i ==> views(known@).contains(#[trigger] views(list@)[k]),
        decreases list.len() - i,
    {
        let found = position(known, &list[i]);
        match found {
            Some(j) => {
                assert(views(known@)[j as int] == views(list@)[i as int]);
            },
            None => {
                assert(!views(known@).contains(views(list@)[i as int]));
                return false;
            },
        }
        i += 1;
    }
    true
}

/// The value of the first pair of `pairs` whose key is `key`.
pub fn find_value(pairs: &Vec<(String, String)>, key: &String) -> (found: Option<String>)
    ensures
        match found {
            Some(v) => lookup(pair_views(pairs@), key@) == Some(v@),
            None => lookup(pair_views(pairs@), key@).is_none(),
        },
{
    let mut i: usize = 0;
    proof {
        assert(pair_views(pairs@).skip(0) =~= pair_views(pairs@));
    }
    while i < pairs.len()
        invariant
            i <= pairs.len(),
            lookup(pair_views(pairs@), key@) == lookup(pair_views(pairs@).skip(i as int), key@),
        decreases pairs.len() - i,
    {
        proof {
            assert(pair_views(pairs@).skip(i as int).skip(1) =~= pair_views(pairs@).skip(i + 1));
        }
        if pairs[i].0 == *key {
            return Some(pairs[i].1.clone());
        }
        i += 1;
    }
    None
}

/// Every key has a value among `pairs`.
pub open spec fn all_found(keys: Seq<Seq<char>>, pairs: Seq<(Seq<char>, Seq<char>)>) -> bool {
    forall|k: int| 0 <= k < keys.len() ==> lookup(pairs, #[trigger] keys[k]).is_some()
}

/// `values` are what `pairs` hold under `keys`, key by key.
pub open spec fn values_under(
    keys: Seq<Seq<char>>,
    pairs: Seq<(Seq<char>, Seq<char>)>,
    values: Seq<String>,
) -> bool {
    &&& values.len() == keys.len()
    &&& forall|k: int| 0 <= k < keys.len() ==> lookup(pairs, keys[k]) == Some((#[trigger] values[k])@)
}

/// The values of all `keys`, in their order, or `None` where one has none.
pub fn find_all(keys: &Vec<String>, pairs: &Vec<(String, String)>) -> (values: Option<Vec<String>>)
    ensures
        match values {
            Some(v) => values_under(views(keys@), pair_views(pairs@), v@),
            None => !all_found(views(keys@), pair_views(pairs@)),
        },
{
    let mut values: Vec<String> = Vec::new();
    let mut i: usize = 0;
    while i < keys.len()
        invariant
            i <= keys.len(),
            values.len() == i,
            forall|k: int|
                0 <= k < i ==> lookup(pair_views(pairs@), views(keys@)[k]) == Some(
                    (#[trigger] values[k])@,
                ),
        decreases keys.len() - i,
    {
        match find_value(pairs, &keys[i]) {
            Some(v) => {
                values.push(v);
            },
            None => {
                assert(lookup(pair_views(pairs@), views(keys@)[i as int]).is_none());
                return None;
            },
        }
        i += 1;
    }
    Some(values)
}

} // verus!
