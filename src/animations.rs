//! Consistency of a sprite's animations with the names the scripts use.
use vstd::prelude::*;

verus! {

/// The texts of a list of strings.
pub open spec fn names(v: Seq<String>) -> Seq<Seq<char>> {
    v.map_values(|s: String| s@)
}

/// The names the scripts use that the sprite lacks, and the names the sprite
/// has that the scripts do not use; each name once.
#[derive(Clone, Debug, PartialEq, Eq)]
pub struct AnimationCheck {
    pub missing: Vec<String>,
    pub unknown: Vec<String>,
}

fn contains_name(v: &Vec<String>, name: &String) -> (r: bool)
    ensures
        r == names(v@).contains(name@),
{
    let mut i: usize = 0;
    while i < v.len()
        invariant
            0 <= i <= v@.len(),
            forall|j: int| 0 <= j < i ==> v@[j]@ != name@,
        decreases v@.len() - i,
    {
        if v[i] == *name {
            assert(names(v@)[i as int] == name@);
            return true;
        }
        i = i + 1;
    }
    assert(!names(v@).contains(name@)) by {
        if names(v@).contains(name@) {
            let k = choose|k: int| 0 <= k < names(v@).len() && names(v@)[k] == name@;
            assert(v@[k]@ == name@);
        }
    }
    false
}

/// The names of `from` that `other` lacks, each once, in the order in which
/// they first occur in `from`.
pub fn names_missing_from(from: &Vec<String>, other: &Vec<String>) -> (r: Vec<String>)
    ensures
        names(r@).to_set() == names(from@).to_set().difference(names(other@).to_set()),
        names(r@).no_duplicates(),
{
    let mut r: Vec<String> = Vec::new();
    let mut i: usize = 0;
    while i < from.len()
        invariant
            0 <= i <= from@.len(),
            forall|k: int| 0 <= k < r@.len() ==> {
                &&& names(from@.take(i as int)).contains(#[trigger] r@[k]@)
                &&& !names(other@).contains(r@[k]@)
            },
            forall|j: int| 0 <= j < i && !names(other@).contains(#[trigger] from@[j]@)
                ==> names(r@).contains(from@[j]@),
            names(r@).no_duplicates(),
        decreases from@.len() - i,
    {
        let name = &from[i];
        let ghost old_r = r@;
        assert(names(from@.take(i as int + 1)) =~= names(from@.take(i as int)).push(name@));
        if !contains_name(other, name) && !contains_name(&r, name) {
            r.push(name.clone());
            assert(names(r@) =~= names(old_r).push(name@));
            assert(names(r@)[old_r.len() as int] == name@);
        }
        proof {
            assert forall|k: int| 0 <= k < r@.len() implies {
                &&& names(from@.take(i as int + 1)).contains(#[trigger] r@[k]@)
                &&& !names(other@).contains(r@[k]@)
            } by {
                if k < old_r.len() {
                    assert(r@[k] == old_r[k]);
                    let w = choose|w: int| 0 <= w < names(from@.take(i as int)).len()
                        && names(from@.take(i as int))[w] == old_r[k]@;
                    assert(names(from@.take(i as int + 1))[w] == old_r[k]@);
                } else {
                    assert(names(from@.take(i as int + 1))[i as int] == name@);
                }
            }
            assert forall|j: int| 0 <= j < i + 1 && !names(other@).contains(#[trigger] from@[j]@)
                implies names(r@).contains(from@[j]@) by {
                if j < i {
                    let w = choose|w: int| 0 <= w < names(old_r).len() && names(old_r)[w] == from@[j]@;
                    assert(names(r@)[w] == from@[j]@);
                }
            }
        }
        i = i + 1;
    }
    proof {
        assert(from@.take(from@.len() as int) =~= from@);
        assert forall|x: Seq<char>| names(r@).to_set().contains(x) == names(from@).to_set().difference(
            names(other@).to_set(),
        ).contains(x) by {
            if names(r@).contains(x) {
                let k = choose|k: int| 0 <= k < names(r@).len() && names(r@)[k] == x;
                assert(r@[k]@ == x);
            }
            if names(from@).contains(x) && !names(other@).contains(x) {
                let j = choose|j: int| 0 <= j < names(from@).len() && names(from@)[j] == x;
                assert(from@[j]@ == x);
            }
        }
        assert(names(r@).to_set() =~= names(from@).to_set().difference(names(other@).to_set()));
    }
    r
}

/// Compares the animation names that the scripts use (`known`) with those
/// that a sprite holds (`found`).
pub fn check_animations(known: &Vec<String>, found: &Vec<String>) -> (r: AnimationCheck)
    ensures
        names(r.missing@).to_set() == names(known@).to_set().difference(names(found@).to_set()),
        names(r.missing@).no_duplicates(),
        names(r.unknown@).to_set() == names(found@).to_set().difference(names(known@).to_set()),
        names(r.unknown@).no_duplicates(),
{
    AnimationCheck { missing: names_missing_from(known, found), unknown: names_missing_from(found, known) }
}

} // verus!
