//! Lists of item values, as grouped controls (accordions, toggle groups) keep them.

use vstd::prelude::*;

verus! {

/// The texts of a list of values.
pub open spec fn views(s: Seq<String>) -> Seq<Seq<char>> {
    s.map_values(|x: String| x@)
}

/// The list with every occurrence of `v` left out, order kept.
pub open spec fn without(s: Seq<Seq<char>>, v: Seq<char>) -> Seq<Seq<char>>
    decreases s.len(),
{
    if s.len() == 0 {
        s
    } else {
        let rest = without(s.drop_last(), v);
        if s.last() == v {
            rest
        } else {
            rest.push(s.last())
        }
    }
}

/// `without` leaves no occurrence of `v` and keeps every other element.
pub proof fn lemma_without(s: Seq<Seq<char>>, v: Seq<char>)
    ensures
        !without(s, v).contains(v),
        forall|x: Seq<char>| x != v ==> (without(s, v).contains(x) <==> s.contains(x)),
        without(s, v).len() <= s.len(),
        !s.contains(v) ==> without(s, v) == s,
    decreases s.len(),
{
    if s.len() > 0 {
        let init = s.drop_last();
        lemma_without(init, v);
        let rest = without(init, v);
        assert(s == init.push(s.last()));
        let all = without(s, v);
        if s.last() == v {
            assert(all == rest);
        } else {
            assert(all == rest.push(s.last()));
        }
        assert forall|x: Seq<char>| x != v implies (all.contains(x) <==> s.contains(x)) by {
            if s.contains(x) {
                let i = choose|i: int| 0 <= i < s.len() && s[i] == x;
                if i < init.len() {
                    assert(init[i] == x);
                    assert(init.contains(x));
                    assert(rest.contains(x));
                    let j = choose|j: int| 0 <= j < rest.len() && rest[j] == x;
                    assert(all[j] == x);
                } else {
                    assert(s.last() == x);
                    assert(all[rest.len() as int] == x);
                }
            }
            if all.contains(x) {
                let j = choose|j: int| 0 <= j < all.len() && all[j] == x;
                if j < rest.len() {
                    assert(rest[j] == x);
                    assert(rest.contains(x));
                    assert(init.contains(x));
                    let i = choose|i: int| 0 <= i < init.len() && init[i] == x;
                    assert(s[i] == x);
                } else {
                    assert(s[s.len() - 1] == x);
                }
            }
        }
        if without(s, v).contains(v) {
            let j = choose|j: int| 0 <= j < without(s, v).len() && without(s, v)[j] == v;
            if j < rest.len() {
                assert(rest[j] == v);
            }
        }
        if !s.contains(v) {
            assert(!init.contains(v)) by {
                if init.contains(v) {
                    let i = choose|i: int| 0 <= i < init.len() && init[i] == v;
                    assert(s[i] == v);
                }
            }
            assert(s[s.len() - 1] != v);
        }
    }
}

proof fn lemma_views_push(s: Seq<String>, x: String)
    ensures
        views(s.push(x)) == views(s).push(x@),
{
    assert(views(s.push(x)) =~= views(s).push(x@));
}

proof fn lemma_views_prefix(s: Seq<String>, i: int)
    requires
        0 <= i < s.len(),
    ensures
        views(s.subrange(0, i + 1)) == views(s.subrange(0, i)).push(s[i]@),
{
    assert(views(s.subrange(0, i + 1)) =~= views(s.subrange(0, i)).push(s[i]@));
}

/// Whether `v` is one of the values in `list`.
pub fn list_contains(list: &Vec<String>, v: &String) -> (r: bool)
    ensures
        r == views(list@).contains(v@),
{
    let mut i: usize = 0;
    while i < list.len()
        invariant
            i <= list@.len(),
            forall|j: int| 0 <= j < i ==> list@[j]@ != v@,
        decreases list@.len() - i,
    {
        if list[i] == *v {
            assert(views(list@)[i as int] == v@);
            return true;
        }
        i = i + 1;
    }
    assert(!views(list@).contains(v@)) by {
        if views(list@).contains(v@) {
            let j = choose|j: int| 0 <= j < views(list@).len() && views(list@)[j] == v@;
            assert(list@[j]@ == v@);
        }
    }
    false
}

/// A copy of `list`.
pub fn copy_list(list: &Vec<String>) -> (r: Vec<String>)
    ensures
        views(r@) == views(list@),
{
    let mut out: Vec<String> = Vec::new();
    let mut i: usize = 0;
    while i < list.len()
        invariant
            i <= list@.len(),
            views(out@) == views(list@.subrange(0, i as int)),
        decreases list@.len() - i,
    {
        proof {
            lemma_views_prefix(list@, i as int);
            lemma_views_push(out@, list@[i as int]);
        }
        out.push(list[i].clone());
        i = i + 1;
    }
    assert(list@.subrange(0, list@.len() as int) =~= list@);
    out
}

/// `list` without its first occurrence of `v` (unchanged when `v` is absent).
pub fn remove_first_value(list: &Vec<String>, v: &String) -> (r: Vec<String>)
    ensures
        views(r@) == views(list@).remove_value(v@),
{
    let mut out: Vec<String> = Vec::new();
    let mut i: usize = 0;
    while i < list.len()
        invariant
            i <= list@.len(),
            views(out@) == views(list@.subrange(0, i as int)),
            forall|j: int| 0 <= j < i ==> list@[j]@ != v@,
        decreases list@.len() - i,
    {
        if list[i] == *v {
            let mut k: usize = i + 1;
            while k < list.len()
                invariant
                    i < k <= list@.len(),
                    views(out@) == views(list@).subrange(0, i as int) + views(list@).subrange(
                        i + 1,
                        k as int,
                    ),
                decreases list@.len() - k,
            {
                proof {
                    lemma_views_push(out@, list@[k as int]);
                    assert(views(list@).subrange(0, i as int) + views(list@).subrange(
                        i + 1,
                        k + 1,
                    ) =~= (views(list@).subrange(0, i as int) + views(list@).subrange(
                        i + 1,
                        k as int,
                    )).push(list@[k as int]@));
                }
                out.push(list[k].clone());
                k = k + 1;
            }
            proof {
                let s = views(list@);
                s.index_of_first_ensures(v@);
                assert(s[i as int] == v@);
                assert(s.contains(v@));
                let idx = s.index_of_first(v@).unwrap();
                assert(idx == i as int) by {
                    if idx < i {
                        assert(list@[idx]@ != v@);
                    }
                    if idx > i {
                    }
                }
                assert(views(list@.subrange(0, i as int)) =~= s.subrange(0, i as int));
            }
            return out;
        }
        proof {
            lemma_views_prefix(list@, i as int);
            lemma_views_push(out@, list@[i as int]);
        }
        out.push(list[i].clone());
        i = i + 1;
    }
    proof {
        let s = views(list@);
        s.index_of_first_ensures(v@);
        assert(!s.contains(v@)) by {
            if s.contains(v@) {
                let j = choose|j: int| 0 <= j < s.len() && s[j] == v@;
                assert(list@[j]@ == v@);
            }
        }
        assert(list@.subrange(0, list@.len() as int) =~= list@);
    }
    out
}

/// `list` with every occurrence of `v` left out, order kept.
pub fn remove_every_value(list: &Vec<String>, v: &String) -> (r: Vec<String>)
    ensures
        views(r@) == without(views(list@), v@),
{
    let mut out: Vec<String> = Vec::new();
    let mut i: usize = 0;
    while i < list.len()
        invariant
            i <= list@.len(),
            views(out@) == without(views(list@.subrange(0, i as int)), v@),
        decreases list@.len() - i,
    {
        proof {
            lemma_views_prefix(list@, i as int);
            let pre = views(list@.subrange(0, i + 1));
            assert(pre.drop_last() == views(list@.subrange(0, i as int)));
            assert(pre.last() == list@[i as int]@);
        }
        if list[i] != *v {
            proof {
                lemma_views_push(out@, list@[i as int]);
            }
            out.push(list[i].clone());
        }
        i = i + 1;
    }
    assert(list@.subrange(0, list@.len() as int) =~= list@);
    out
}

/// Removing the first occurrence of a value just appended to a list that did
/// not hold it gives the list back.
pub proof fn lemma_remove_after_push<A>(s: Seq<A>, x: A)
    requires
        !s.contains(x),
    ensures
        s.push(x).remove_value(x) == s,
{
    let t = s.push(x);
    t.index_of_first_ensures(x);
    assert(t[s.len() as int] == x);
    let k = t.index_of_first(x).unwrap();
    assert(k == s.len()) by {
        if k < s.len() {
            assert(s[k] == x);
        }
    }
    assert(t.remove(k) =~= s);
}

/// Leaving out every occurrence of a value just appended is the same as
/// leaving them out before appending it.
pub proof fn lemma_without_after_push(s: Seq<Seq<char>>, v: Seq<char>)
    ensures
        without(s.push(v), v) == without(s, v),
{
    assert(s.push(v).drop_last() =~= s);
}

} // verus!
