//! Merging the attributes a parent passes down with those of the child that
//! renders in its place.

use vstd::prelude::*;

use crate::text::{join_with, str_equals, trim, trimmed};

verus! {

/// An attribute value once any computed value has been evaluated.
#[derive(Debug, PartialEq, Eq)]
pub enum AttrValue {
    /// A text value.
    Text(String),
    /// A value that may be absent.
    Optional(Option<String>),
    /// A boolean attribute.
    Flag(bool),
}

/// The abstract form of an [`AttrValue`].
pub enum AttrView {
    Text(Seq<char>),
    Optional(Option<Seq<char>>),
    Flag(bool),
}

pub open spec fn attr_view(v: AttrValue) -> AttrView {
    match v {
        AttrValue::Text(s) => AttrView::Text(s@),
        AttrValue::Optional(o) => AttrView::Optional(
            match o {
                Some(s) => Some(s@),
                None => None,
            },
        ),
        AttrValue::Flag(b) => AttrView::Flag(b),
    }
}

pub open spec fn pair_view(p: (String, AttrValue)) -> (Seq<char>, AttrView) {
    (p.0@, attr_view(p.1))
}

/// The abstract form of a list of named attributes.
pub open spec fn pairs_view(s: Seq<(String, AttrValue)>) -> Seq<(Seq<char>, AttrView)> {
    s.map_values(|p: (String, AttrValue)| pair_view(p))
}

/// Two texts joined, each trimmed, with `sep` between; any other pair of
/// values gives the second.
pub open spec fn spec_join_values(first: AttrView, second: AttrView, sep: Seq<char>) -> AttrView {
    match (first, second) {
        (AttrView::Text(a), AttrView::Text(b)) => AttrView::Text(trimmed(a) + sep + trimmed(b)),
        _ => second,
    }
}

/// How a parent value and a child value of the attribute `name` combine:
/// classes are joined with a space, styles with `"; "`, anything else is
/// the child's.
pub open spec fn spec_merge_value(name: Seq<char>, parent: AttrView, child: AttrView) -> AttrView {
    if name == "class"@ {
        spec_join_values(parent, child, " "@)
    } else if name == "style"@ {
        spec_join_values(parent, child, "; "@)
    } else {
        child
    }
}

/// The value of the first attribute called `name`.
pub open spec fn first_named(s: Seq<(Seq<char>, AttrView)>, name: Seq<char>) -> Option<AttrView>
    decreases s.len(),
{
    if s.len() == 0 {
        None
    } else if s[0].0 == name {
        Some(s[0].1)
    } else {
        first_named(s.drop_first(), name)
    }
}

/// The list without its first attribute called `name`.
pub open spec fn without_first_named(s: Seq<(Seq<char>, AttrView)>, name: Seq<char>) -> Seq<
    (Seq<char>, AttrView),
>
    decreases s.len(),
{
    if s.len() == 0 {
        s
    } else if s[0].0 == name {
        s.drop_first()
    } else {
        seq![s[0]] + without_first_named(s.drop_first(), name)
    }
}

/// Merging the child attributes one by one: the merged child attributes so
/// far, and the parent attributes not yet taken up by a child attribute.
pub open spec fn merge_prefix(
    parent: Seq<(Seq<char>, AttrView)>,
    child: Seq<(Seq<char>, AttrView)>,
) -> (Seq<(Seq<char>, AttrView)>, Seq<(Seq<char>, AttrView)>)
    decreases child.len(),
{
    if child.len() == 0 {
        (Seq::empty(), parent)
    } else {
        let (merged, rest) = merge_prefix(parent, child.drop_last());
        let (name, value) = child.last();
        match first_named(parent, name) {
            Some(p) => (
                merged.push((name, spec_merge_value(name, p, value))),
                without_first_named(rest, name),
            ),
            None => (merged.push((name, value)), rest),
        }
    }
}

/// Every child attribute in order, combined with the parent's attribute of
/// the same name when there is one; then the parent attributes that no
/// child attribute took up, in their order.
pub open spec fn spec_merge_attrs(
    parent: Seq<(Seq<char>, AttrView)>,
    child: Seq<(Seq<char>, AttrView)>,
) -> Seq<(Seq<char>, AttrView)> {
    let (merged, rest) = merge_prefix(parent, child);
    merged + rest
}

fn copy_value(v: &AttrValue) -> (r: AttrValue)
    ensures
        attr_view(r) == attr_view(*v),
{
    match v {
        AttrValue::Text(s) => AttrValue::Text(s.clone()),
        AttrValue::Optional(o) => match o {
            Some(s) => AttrValue::Optional(Some(s.clone())),
            None => AttrValue::Optional(None),
        },
        AttrValue::Flag(b) => AttrValue::Flag(*b),
    }
}

fn copy_pair(p: &(String, AttrValue)) -> (r: (String, AttrValue))
    ensures
        pair_view(r) == pair_view(*p),
{
    (p.0.clone(), copy_value(&p.1))
}

fn join_values(first: &AttrValue, second: &AttrValue, sep: &str) -> (r: AttrValue)
    ensures
        attr_view(r) == spec_join_values(attr_view(*first), attr_view(*second), sep@),
{
    match (first, second) {
        (AttrValue::Text(a), AttrValue::Text(b)) => AttrValue::Text(
            join_with(trim(a.as_str()), sep, trim(b.as_str())),
        ),
        _ => copy_value(second),
    }
}

/// Joins two class lists: both trimmed, a space between.
pub fn merge_attr(first: &AttrValue, second: &AttrValue) -> (r: AttrValue)
    ensures
        attr_view(r) == spec_join_values(attr_view(*first), attr_view(*second), " "@),
{
    join_values(first, second, " ")
}

/// Joins two style declarations: both trimmed, `"; "` between.
pub fn merge_styles(first: &AttrValue, second: &AttrValue) -> (r: AttrValue)
    ensures
        attr_view(r) == spec_join_values(attr_view(*first), attr_view(*second), "; "@),
{
    join_values(first, second, "; ")
}

fn merge_value(name: &String, parent: &AttrValue, child: &AttrValue) -> (r: AttrValue)
    ensures
        attr_view(r) == spec_merge_value(name@, attr_view(*parent), attr_view(*child)),
{
    if str_equals(name.as_str(), "class") {
        merge_attr(parent, child)
    } else if str_equals(name.as_str(), "style") {
        merge_styles(parent, child)
    } else {
        copy_value(child)
    }
}

proof fn lemma_pairs_view_push(s: Seq<(String, AttrValue)>, x: (String, AttrValue))
    ensures
        pairs_view(s.push(x)) == pairs_view(s).push(pair_view(x)),
{
    assert(pairs_view(s.push(x)) =~= pairs_view(s).push(pair_view(x)));
}

/// Index of the first attribute called `name`.
fn find_named(s: &Vec<(String, AttrValue)>, name: &String) -> (r: Option<usize>)
    ensures
        match r {
            Some(i) => {
                &&& (i as int) < s@.len()
                &&& first_named(pairs_view(s@), name@) == Some(attr_view(s@[i as int].1))
                &&& without_first_named(pairs_view(s@), name@) == pairs_view(s@).remove(i as int)
            },
            None => {
                &&& first_named(pairs_view(s@), name@) is None
                &&& without_first_named(pairs_view(s@), name@) == pairs_view(s@)
            },
        },
{
    let mut i: usize = 0;
    while i < s.len()
        invariant
            i <= s@.len(),
            forall|j: int| 0 <= j < i ==> s@[j].0@ != name@,
        decreases s@.len() - i,
    {
        if s[i].0 == *name {
            proof {
                lemma_named_at(pairs_view(s@), name@, i as int);
            }
            return Some(i);
        }
        i = i + 1;
    }
    proof {
        lemma_named_at(pairs_view(s@), name@, s@.len() as int);
    }
    None
}

/// Searching from the front, the first attribute called `name` is at `i`
/// when none before it has that name.
proof fn lemma_named_at(v: Seq<(Seq<char>, AttrView)>, name: Seq<char>, i: int)
    requires
        0 <= i <= v.len(),
        forall|j: int| 0 <= j < i ==> v[j].0 != name,
        i < v.len() ==> v[i].0 == name,
    ensures
        i < v.len() ==> first_named(v, name) == Some(v[i].1) && without_first_named(v, name)
            == v.remove(i),
        i == v.len() ==> first_named(v, name) is None && without_first_named(v, name) == v,
    decreases i,
{
    if v.len() > 0 {
        if i == 0 {
            if v.len() > 0 {
                assert(v.drop_first() =~= v.remove(0));
            }
        } else {
            let t = v.drop_first();
            assert forall|j: int| 0 <= j < i - 1 implies t[j].0 != name by {
                assert(t[j] == v[j + 1]);
            }
            lemma_named_at(t, name, i - 1);
            if i < v.len() {
                assert(seq![v[0]] + t.remove(i - 1) =~= v.remove(i));
            } else {
                assert(seq![v[0]] + t =~= v);
            }
        }
    }
}

/// The attributes of a child rendered in a parent's place: see
/// [`spec_merge_attrs`].
pub fn merge_attrs(parent: &Vec<(String, AttrValue)>, child: &Vec<(String, AttrValue)>) -> (r: Vec<
    (String, AttrValue),
>)
    ensures
        pairs_view(r@) == spec_merge_attrs(pairs_view(parent@), pairs_view(child@)),
{
    let mut rest: Vec<(String, AttrValue)> = Vec::new();
    let mut j: usize = 0;
    while j < parent.len()
        invariant
            j <= parent@.len(),
            pairs_view(rest@) == pairs_view(parent@.subrange(0, j as int)),
        decreases parent@.len() - j,
    {
        let ghost before = rest@;
        let c = copy_pair(&parent[j]);
        rest.push(c);
        proof {
            lemma_pairs_view_push(before, c);
            assert(pairs_view(parent@.subrange(0, j + 1)) =~= pairs_view(
                parent@.subrange(0, j as int),
            ).push(pair_view(parent@[j as int])));
        }
        j = j + 1;
    }
    assert(parent@.subrange(0, parent@.len() as int) =~= parent@);
    let mut merged: Vec<(String, AttrValue)> = Vec::new();
    let mut i: usize = 0;
    while i < child.len()
        invariant
            i <= child@.len(),
            (pairs_view(merged@), pairs_view(rest@)) == merge_prefix(
                pairs_view(parent@),
                pairs_view(child@.subrange(0, i as int)),
            ),
        decreases child@.len() - i,
    {
        let ghost pre = pairs_view(child@.subrange(0, i + 1));
        proof {
            assert(pre.drop_last() =~= pairs_view(child@.subrange(0, i as int)));
            assert(pre.last() == pair_view(child@[i as int]));
        }
        let name = &child[i].0;
        let value = &child[i].1;
        match find_named(parent, name) {
            Some(pi) => {
                let ghost rest_before = rest@;
                match find_named(&rest, name) {
                    Some(ri) => {
                        rest.remove(ri);
                        proof {
                            assert(pairs_view(rest@) =~= pairs_view(rest_before).remove(ri as int));
                        }
                    },
                    None => {},
                }
                let v = merge_value(name, &parent[pi].1, value);
                let ghost before = merged@;
                let c = (name.clone(), v);
                merged.push(c);
                proof {
                    lemma_pairs_view_push(before, c);
                }
            },
            None => {
                let ghost before = merged@;
                let c = copy_pair(&child[i]);
                merged.push(c);
                proof {
                    lemma_pairs_view_push(before, c);
                }
            },
        }
        i = i + 1;
    }
    assert(child@.subrange(0, child@.len() as int) =~= child@);
    let mut k: usize = 0;
    let ghost merged_done = pairs_view(merged@);
    while k < rest.len()
        invariant
            k <= rest@.len(),
            pairs_view(merged@) == merged_done + pairs_view(rest@).subrange(0, k as int),
        decreases rest@.len() - k,
    {
        let ghost before = merged@;
        let c = copy_pair(&rest[k]);
        merged.push(c);
        proof {
            lemma_pairs_view_push(before, c);
            assert(pairs_view(rest@).subrange(0, k + 1) =~= pairs_view(rest@).subrange(
                0,
                k as int,
            ).push(pair_view(rest@[k as int])));
        }
        k = k + 1;
    }
    assert(pairs_view(rest@).subrange(0, rest@.len() as int) =~= pairs_view(rest@));
    merged
}

/// Merging keeps each child attribute in its place, under its name, and with
/// its own value unless it is a class list or a style joined with the
/// parent's.
proof fn lemma_merge_prefix(parent: Seq<(Seq<char>, AttrView)>, child: Seq<(Seq<char>, AttrView)>)
    ensures
        merge_prefix(parent, child).0.len() == child.len(),
        forall|i: int|
            #![trigger merge_prefix(parent, child).0[i]]
            0 <= i < child.len() ==> merge_prefix(parent, child).0[i].0 == child[i].0 && (
            child[i].0 != "class"@ && child[i].0 != "style"@ ==> merge_prefix(parent, child).0[i].1
                == child[i].1),
        parent.len() == 0 ==> merge_prefix(parent, child).1 == parent,
    decreases child.len(),
{
    if child.len() > 0 {
        let init = child.drop_last();
        lemma_merge_prefix(parent, init);
        let (merged, rest) = merge_prefix(parent, init);
        let all = merge_prefix(parent, child).0;
        assert forall|i: int| 0 <= i < child.len() implies all[i].0 == child[i].0 && (child[i].0
            != "class"@ && child[i].0 != "style"@ ==> all[i].1 == child[i].1) by {
            if i < init.len() {
                assert(all[i] == merged[i]);
                assert(init[i] == child[i]);
            }
        }
    }
}

/// The attributes of a child rendered in a parent's place start with the
/// child's own attributes, in their order and under their names; every one
/// but a class list or a style keeps the child's value. With no parent
/// attributes the child's are left as they are.
pub proof fn lemma_child_attrs_lead(parent: Seq<(Seq<char>, AttrView)>, child: Seq<(Seq<char>, AttrView)>)
    ensures
        spec_merge_attrs(parent, child).len() >= child.len(),
        forall|i: int|
            #![trigger spec_merge_attrs(parent, child)[i]]
            0 <= i < child.len() ==> spec_merge_attrs(parent, child)[i].0 == child[i].0 && (
            child[i].0 != "class"@ && child[i].0 != "style"@ ==> spec_merge_attrs(parent, child)[i].1
                == child[i].1),
        parent.len() == 0 ==> spec_merge_attrs(parent, child) == child,
{
    lemma_merge_prefix(parent, child);
    let (merged, rest) = merge_prefix(parent, child);
    assert forall|i: int| 0 <= i < child.len() implies spec_merge_attrs(parent, child)[i]
        == merged[i] by {}
    if parent.len() == 0 {
        lemma_empty_parent(child);
        assert(parent =~= Seq::<(Seq<char>, AttrView)>::empty());
        assert(merged + rest =~= child);
    }
}

/// With no parent attributes, merging gives the child's attributes back.
proof fn lemma_empty_parent(child: Seq<(Seq<char>, AttrView)>)
    ensures
        merge_prefix(Seq::empty(), child).0 == child,
        merge_prefix(Seq::empty(), child).1 == Seq::<(Seq<char>, AttrView)>::empty(),
    decreases child.len(),
{
    if child.len() > 0 {
        lemma_empty_parent(child.drop_last());
        assert(child.drop_last().push(child.last()) =~= child);
    }
}

/// The names of a list of attributes.
pub open spec fn names_of(s: Seq<(Seq<char>, AttrView)>) -> Set<Seq<char>> {
    Set::new(|n: Seq<char>| exists|i: int| 0 <= i < s.len() && s[i].0 == n)
}

/// The attributes whose name is not in `names`, in order.
pub open spec fn not_named(s: Seq<(Seq<char>, AttrView)>, names: Set<Seq<char>>) -> Seq<
    (Seq<char>, AttrView),
>
    decreases s.len(),
{
    if s.len() == 0 {
        s
    } else if names.contains(s[0].0) {
        not_named(s.drop_first(), names)
    } else {
        seq![s[0]] + not_named(s.drop_first(), names)
    }
}

/// Taking out the first attribute of a name in `names` leaves the others.
proof fn lemma_not_named_without(s: Seq<(Seq<char>, AttrView)>, n: Seq<char>, names: Set<Seq<char>>)
    requires
        names.contains(n),
    ensures
        not_named(without_first_named(s, n), names) == not_named(s, names),
        forall|x: (Seq<char>, AttrView)| without_first_named(s, n).contains(x) ==> s.contains(x),
    decreases s.len(),
{
    if s.len() > 0 && s[0].0 != n {
        let t = without_first_named(s.drop_first(), n);
        lemma_not_named_without(s.drop_first(), n, names);
        let w = seq![s[0]] + t;
        assert(w.drop_first() =~= t);
        assert(w[0] == s[0]);
        assert forall|x: (Seq<char>, AttrView)| w.contains(x) implies s.contains(x) by {
            let k = choose|k: int| 0 <= k < w.len() && w[k] == x;
            if k == 0 {
                assert(s[0] == x);
            } else {
                assert(t[k - 1] == x);
                assert(t.contains(x));
                assert(s.drop_first().contains(x));
                let m = choose|m: int| 0 <= m < s.drop_first().len() && s.drop_first()[m] == x;
                assert(s[m + 1] == x);
            }
        }
    } else if s.len() > 0 {
        assert forall|x: (Seq<char>, AttrView)| s.drop_first().contains(x) implies s.contains(x) by {
            let m = choose|m: int| 0 <= m < s.drop_first().len() && s.drop_first()[m] == x;
            assert(s[m + 1] == x);
        }
    }
}

/// The parent attributes left over after merging keep every attribute whose
/// name no child attribute has, in order, and hold only parent attributes.
proof fn lemma_rest_keeps_parent_only(
    parent: Seq<(Seq<char>, AttrView)>,
    child: Seq<(Seq<char>, AttrView)>,
    names: Set<Seq<char>>,
)
    requires
        forall|i: int| 0 <= i < child.len() ==> names.contains(#[trigger] child[i].0),
    ensures
        not_named(merge_prefix(parent, child).1, names) == not_named(parent, names),
        forall|x: (Seq<char>, AttrView)| merge_prefix(parent, child).1.contains(x) ==> parent.contains(x),
    decreases child.len(),
{
    if child.len() > 0 {
        let init = child.drop_last();
        assert forall|i: int| 0 <= i < init.len() implies names.contains(#[trigger] init[i].0) by {
            assert(init[i] == child[i]);
        }
        lemma_rest_keeps_parent_only(parent, init, names);
        let (merged, rest) = merge_prefix(parent, init);
        let name = child.last().0;
        assert(names.contains(child[child.len() - 1].0));
        lemma_not_named_without(rest, name, names);
    }
}

/// After the child's own attributes come the parent attributes that no child
/// attribute took up. Among them, every parent attribute whose name no child
/// attribute has appears, once for each time it appears in the parent, in
/// the parent's order and with the parent's value; and nothing else there
/// is new.
pub proof fn lemma_parent_attrs_follow(
    parent: Seq<(Seq<char>, AttrView)>,
    child: Seq<(Seq<char>, AttrView)>,
)
    ensures
        not_named(spec_merge_attrs(parent, child).skip(child.len() as int), names_of(child))
            == not_named(parent, names_of(child)),
        forall|x: (Seq<char>, AttrView)|
            spec_merge_attrs(parent, child).skip(child.len() as int).contains(x) ==> parent.contains(
                x,
            ),
{
    lemma_merge_prefix(parent, child);
    let (merged, rest) = merge_prefix(parent, child);
    assert(spec_merge_attrs(parent, child).skip(child.len() as int) =~= rest);
    assert forall|i: int| 0 <= i < child.len() implies names_of(child).contains(
        #[trigger] child[i].0,
    ) by {}
    lemma_rest_keeps_parent_only(parent, child, names_of(child));
}

/// With no attribute name in common, the merge is the child's attributes
/// followed by the parent's.
pub proof fn lemma_disjoint_names(parent: Seq<(Seq<char>, AttrView)>, child: Seq<(Seq<char>, AttrView)>)
    requires
        forall|i: int, j: int| 0 <= i < parent.len() && 0 <= j < child.len() ==> parent[i].0
            != child[j].0,
    ensures
        spec_merge_attrs(parent, child) == child + parent,
{
    lemma_disjoint_prefix(parent, child);
}

proof fn lemma_first_named_absent(s: Seq<(Seq<char>, AttrView)>, n: Seq<char>)
    requires
        forall|i: int| 0 <= i < s.len() ==> s[i].0 != n,
    ensures
        first_named(s, n) is None,
    decreases s.len(),
{
    if s.len() > 0 {
        lemma_first_named_absent(s.drop_first(), n);
    }
}

proof fn lemma_disjoint_prefix(parent: Seq<(Seq<char>, AttrView)>, child: Seq<(Seq<char>, AttrView)>)
    requires
        forall|i: int, j: int| 0 <= i < parent.len() && 0 <= j < child.len() ==> parent[i].0
            != child[j].0,
    ensures
        merge_prefix(parent, child).0 == child,
        merge_prefix(parent, child).1 == parent,
    decreases child.len(),
{
    if child.len() > 0 {
        let init = child.drop_last();
        assert forall|i: int, j: int| 0 <= i < parent.len() && 0 <= j < init.len() implies parent[i].0
            != init[j].0 by {
            assert(init[j] == child[j]);
        }
        lemma_disjoint_prefix(parent, init);
        let name = child.last().0;
        assert forall|i: int| 0 <= i < parent.len() implies parent[i].0 != name by {
            assert(parent[i].0 != child[child.len() - 1].0);
        }
        lemma_first_named_absent(parent, name);
        assert(init.push(child.last()) =~= child);
    }
}

} // verus!
