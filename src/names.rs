//! Ordered lists of member names (publishers, subscribers) in which a name
//! appears at most once.

use vstd::prelude::*;

verus! {

/// The names held by `v`, as character sequences.
pub open spec fn names_of(v: Seq<String>) -> Seq<Seq<char>> {
    v.map_values(|s: String| s@)
}

/// In a sequence without duplicates, the element at `i` is found at `i`.
pub proof fn lemma_index_of_unique<A>(s: Seq<A>, i: int)
    requires
        s.no_duplicates(),
        0 <= i < s.len(),
    ensures
        s.index_of(s[i]) == i,
{
    assert(s.contains(s[i]));
}

/// Removing the value first found at `i` removes the element at `i`.
pub proof fn lemma_remove_value_at<A>(s: Seq<A>, i: int)
    requires
        0 <= i < s.len(),
        forall|j: int| 0 <= j < i ==> s[j] != s[i],
    ensures
        s.remove_value(s[i]) == s.remove(i),
{
    s.index_of_first_ensures(s[i]);
}

/// Position of the first entry of `v` named `n`.
pub fn position_of_name(v: &Vec<String>, n: &String) -> (r: Option<usize>)
    ensures
        match r {
            Some(i) => {
                &&& i < v@.len()
                &&& v@[i as int]@ == n@
                &&& forall|j: int| 0 <= j < i ==> v@[j]@ != n@
            },
            None => !names_of(v@).contains(n@),
        },
{
    let mut i: usize = 0;
    while i < v.len()
        invariant
            i <= v@.len(),
            forall|j: int| 0 <= j < i ==> v@[j]@ != n@,
        decreases v@.len() - i,
    {
        if v[i] == *n {
            return Some(i);
        }
        i = i + 1;
    }
    proof {
        assert forall|j: int| 0 <= j < names_of(v@).len() implies names_of(v@)[j] != n@ by {
            assert(names_of(v@)[j] == v@[j]@);
        }
    }
    None
}

/// Whether `v` holds the name `n`.
pub fn contains_name(v: &Vec<String>, n: &String) -> (r: bool)
    ensures
        r == names_of(v@).contains(n@),
{
    match position_of_name(v, n) {
        Some(i) => {
            proof {
                assert(names_of(v@)[i as int] == n@);
            }
            true
        },
        None => false,
    }
}

/// Appends `n` unless `v` already holds it; says whether it was appended.
pub fn insert_name(v: &mut Vec<String>, n: String) -> (added: bool)
    ensures
        added == !names_of(old(v)@).contains(n@),
        names_of(final(v)@) == if added {
            names_of(old(v)@).push(n@)
        } else {
            names_of(old(v)@)
        },
        names_of(old(v)@).no_duplicates() ==> names_of(final(v)@).no_duplicates(),
{
    if contains_name(v, &n) {
        false
    } else {
        let ghost before = v@;
        v.push(n);
        proof {
            assert(names_of(v@) =~= names_of(before).push(n@));
        }
        true
    }
}

/// Removes `n` from `v`; says whether it was there.
pub fn remove_name(v: &mut Vec<String>, n: &String) -> (removed: bool)
    ensures
        removed == names_of(old(v)@).contains(n@),
        names_of(final(v)@) == names_of(old(v)@).remove_value(n@),
        names_of(old(v)@).no_duplicates() ==> names_of(final(v)@).no_duplicates(),
{
    let ghost before = v@;
    match position_of_name(v, n) {
        Some(i) => {
            v.remove(i);
            proof {
                let s = names_of(before);
                assert(s[i as int] == n@);
                assert forall|j: int| 0 <= j < i implies s[j] != s[i as int] by {
                    assert(s[j] == before[j]@);
                }
                lemma_remove_value_at(s, i as int);
                assert(names_of(v@) =~= s.remove(i as int));
            }
            true
        },
        None => {
            proof {
                lemma_remove_value_absent(names_of(before), n@);
            }
            false
        },
    }
}

/// Removing an absent value leaves the sequence as it is.
proof fn lemma_remove_value_absent<A>(s: Seq<A>, a: A)
    requires
        !s.contains(a),
    ensures
        s.remove_value(a) == s,
{
    s.index_of_first_ensures(a);
}

/// A copy of the names in `v`.
pub fn copy_names(v: &Vec<String>) -> (r: Vec<String>)
    ensures
        r@ == v@,
{
    let mut r: Vec<String> = Vec::new();
    let mut i: usize = 0;
    while i < v.len()
        invariant
            i <= v@.len(),
            r@ == v@.subrange(0, i as int),
        decreases v@.len() - i,
    {
        r.push(v[i].clone());
        proof {
            assert(r@ =~= v@.subrange(0, i + 1));
        }
        i = i + 1;
    }
    proof {
        assert(r@ =~= v@);
    }
    r
}

} // verus!
