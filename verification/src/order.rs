//! Orders on names and listings, and a stable insertion sort over them.
use vstd::prelude::*;

use crate::models::{DevProcess, DockerContainer, DockerVolume, PortBinding};
use crate::marks::str_eq;
use crate::text::{chars_of, views};

verus! {

/// Lexicographic order on character sequences, as `str` compares them
/// (UTF-8 byte order agrees with code point order).
pub open spec fn seq_lt(a: Seq<char>, b: Seq<char>) -> bool
    decreases a.len(),
{
    if b.len() == 0 {
        false
    } else if a.len() == 0 {
        true
    } else if a[0] != b[0] {
        a[0] < b[0]
    } else {
        seq_lt(a.drop_first(), b.drop_first())
    }
}

/// The lexicographic order is transitive.
pub proof fn lemma_seq_lt_transitive(a: Seq<char>, b: Seq<char>, c: Seq<char>)
    requires
        seq_lt(a, b),
        seq_lt(b, c),
    ensures
        seq_lt(a, c),
    decreases a.len(),
{
    if a.len() > 0 && b.len() > 0 && c.len() > 0 && a[0] == b[0] && b[0] == c[0] {
        lemma_seq_lt_transitive(a.drop_first(), b.drop_first(), c.drop_first());
    }
}

/// No sequence sorts before itself.
pub proof fn lemma_seq_lt_irreflexive(a: Seq<char>)
    ensures
        !seq_lt(a, a),
    decreases a.len(),
{
    if a.len() > 0 {
        lemma_seq_lt_irreflexive(a.drop_first());
    }
}

/// Whatever `b` is, it sorts after `a` or before `c` when `a` sorts before `c`.
pub proof fn lemma_seq_lt_splits(a: Seq<char>, b: Seq<char>, c: Seq<char>)
    requires
        seq_lt(a, c),
    ensures
        seq_lt(a, b) || seq_lt(b, c),
{
    lemma_seq_lt_total(a, b);
    lemma_seq_lt_total(b, c);
    if seq_lt(b, a) && seq_lt(c, b) {
        lemma_seq_lt_transitive(c, b, a);
        lemma_seq_lt_asymmetric(a, c);
    } else if seq_lt(b, a) && c == b {
        lemma_seq_lt_asymmetric(a, c);
    } else if b == a && seq_lt(c, b) {
        lemma_seq_lt_asymmetric(a, c);
    } else if b == a && c == b {
        lemma_seq_lt_irreflexive(a);
    }
}

/// The lexicographic order never holds both ways.
pub proof fn lemma_seq_lt_asymmetric(a: Seq<char>, b: Seq<char>)
    ensures
        !(seq_lt(a, b) && seq_lt(b, a)),
    decreases a.len(),
{
    if a.len() > 0 && b.len() > 0 && a[0] == b[0] {
        lemma_seq_lt_asymmetric(a.drop_first(), b.drop_first());
    }
}

/// Whether `a` sorts strictly before `b`.
pub fn str_lt(a: &str, b: &str) -> (r: bool)
    ensures
        r == seq_lt(a@, b@),
{
    let x = chars_of(a);
    let y = chars_of(b);
    let mut i: usize = 0;
    assert(x@.skip(0) =~= x@);
    assert(y@.skip(0) =~= y@);
    while i < x.len() && i < y.len() && x[i] == y[i]
        invariant
            i <= x.len(),
            i <= y.len(),
            x@ == a@,
            y@ == b@,
            seq_lt(a@, b@) == seq_lt(x@.skip(i as int), y@.skip(i as int)),
        decreases x.len() - i,
    {
        assert(x@.skip(i as int).drop_first() =~= x@.skip(i + 1));
        assert(y@.skip(i as int).drop_first() =~= y@.skip(i + 1));
        i = i + 1;
    }
    if i == y.len() {
        false
    } else if i == x.len() {
        true
    } else {
        x[i] < y[i]
    }
}

/// A strict order that listings are sorted by.
pub trait Ordered: Sized {
    /// `self` sorts strictly before `other`.
    spec fn precedes(self, other: Self) -> bool;

    /// The order is transitive.
    proof fn lemma_precedes_transitive(a: Self, b: Self, c: Self)
        requires
            a.precedes(b),
            b.precedes(c),
        ensures
            a.precedes(c),
    ;

    /// Whatever `b` is, it comes after `a` or before `c` when `a` comes
    /// before `c`.
    proof fn lemma_precedes_splits(a: Self, b: Self, c: Self)
        requires
            a.precedes(c),
        ensures
            a.precedes(b) || b.precedes(c),
    ;

    /// Nothing sorts before itself.
    proof fn lemma_precedes_irreflexive(a: Self)
        ensures
            !a.precedes(a),
    ;

    /// Whether `self` sorts strictly before `other`.
    fn sorts_before(&self, other: &Self) -> (r: bool)
        ensures
            r == self.precedes(*other),
    ;
}

/// No element sorts strictly before one to its left.
pub open spec fn sorted<T: Ordered>(s: Seq<T>) -> bool {
    forall|i: int, j: int| 0 <= i < j < s.len() ==> !(#[trigger] s[j]).precedes(#[trigger] s[i])
}

/// Neither of `x` and `y` sorts before the other.
pub open spec fn tie_with<T: Ordered>(x: T) -> spec_fn(T) -> bool {
    |y: T| !x.precedes(y) && !y.precedes(x)
}

/// The elements of `s` that tie with `x`, in their order in `s`.
pub open spec fn ties<T: Ordered>(s: Seq<T>, x: T) -> Seq<T> {
    s.filter(tie_with(x))
}

/// Sorts `v` (stable insertion sort): the result holds the same elements, is
/// sorted, and elements that tie keep their relative order.
pub fn sort_listing<T: Ordered>(v: Vec<T>) -> (r: Vec<T>)
    ensures
        r@.to_multiset() == v@.to_multiset(),
        sorted(r@),
        forall|x: T| #[trigger] ties(r@, x) == ties(v@, x),
{
    let ghost input = v@;
    let mut rest = v;
    let mut out: Vec<T> = Vec::new();
    let ghost mut done: nat = 0;
    broadcast use vstd::seq_lib::group_to_multiset_ensures;
    assert(input.subrange(0, 0) =~= Seq::<T>::empty());
    assert(input.subrange(0, input.len() as int) =~= input);
    while rest.len() > 0
        invariant
            done <= input.len(),
            rest@ == input.subrange(done as int, input.len() as int),
            out@.to_multiset() == input.subrange(0, done as int).to_multiset(),
            sorted(out@),
            forall|y: T| #[trigger] ties(out@, y) == ties(input.subrange(0, done as int), y),
        decreases rest.len(),
    {
        assert(rest@[0] == input[done as int]);
        let x = rest.remove(0);
        let mut p: usize = 0;
        while p < out.len() && !x.sorts_before(&out[p])
            invariant
                p <= out.len(),
                forall|k: int| 0 <= k < p ==> !x.precedes(#[trigger] out@[k]),
            decreases out.len() - p,
        {
            p = p + 1;
        }
        let ghost before = out@;
        out.insert(p, x);
        proof {
            assert(out@ == before.insert(p as int, x));
            vstd::seq_lib::to_multiset_insert(before, p as int, x);
            assert(input.subrange(0, done as int + 1) =~= input.subrange(0, done as int).push(x));
            vstd::seq_lib::to_multiset_build(input.subrange(0, done as int), x);
            assert forall|i: int, j: int| 0 <= i < j < out@.len() implies !(#[trigger] out@[j]).precedes(
                #[trigger] out@[i],
            ) by {
                if j < p {
                    assert(out@[i] == before[i] && out@[j] == before[j]);
                } else if j == p {
                    assert(out@[i] == before[i]);
                } else if i == p {
                    assert(out@[j] == before[j - 1]);
                    assert(p < before.len());
                    assert(x.precedes(before[p as int]));
                    if before[j - 1].precedes(x) {
                        T::lemma_precedes_transitive(before[j - 1], x, before[p as int]);
                        if j - 1 == p {
                            T::lemma_precedes_irreflexive(before[p as int]);
                        } else {
                            assert(!before[j - 1].precedes(before[p as int]));
                        }
                    }
                } else if i < p {
                    assert(out@[i] == before[i] && out@[j] == before[j - 1]);
                } else {
                    assert(out@[i] == before[i - 1] && out@[j] == before[j - 1]);
                }
            }
            assert forall|y: T| #[trigger] ties(out@, y) == ties(input.subrange(0, done as int + 1), y) by {
                lemma_ties_after_insert(before, p as int, x, y);
                input.subrange(0, done as int).lemma_filter_push(x, tie_with(y));
            }
            done = done + 1;
            assert(rest@ =~= input.subrange(done as int, input.len() as int));
        }
    }
    out
}

/// Inserting `x` just before the first element it sorts before, into a
/// sorted sequence, adds `x` to its ties at their end and leaves other ties
/// alone.
proof fn lemma_ties_after_insert<T: Ordered>(s: Seq<T>, p: int, x: T, y: T)
    requires
        sorted(s),
        0 <= p <= s.len(),
        forall|k: int| 0 <= k < p ==> !x.precedes(#[trigger] s[k]),
        p < s.len() ==> x.precedes(s[p]),
    ensures
        ties(s.insert(p, x), y) == (if tie_with(y)(x) {
            ties(s, y).push(x)
        } else {
            ties(s, y)
        }),
{
    let a = s.subrange(0, p);
    let b = s.subrange(p, s.len() as int);
    let pred = tie_with(y);
    assert(s =~= a + b);
    assert(s.insert(p, x) =~= a.push(x) + b);
    Seq::filter_distributes_over_add(a.push(x), b, pred);
    Seq::filter_distributes_over_add(a, b, pred);
    a.lemma_filter_push(x, pred);
    if pred(x) {
        assert forall|k: int| 0 <= k < b.len() implies !pred(#[trigger] b[k]) by {
            assert(b[k] == s[p + k]);
            if k > 0 {
                assert(!s[p + k].precedes(s[p]));
                T::lemma_precedes_splits(x, s[p + k], s[p]);
            }
            assert(x.precedes(b[k]));
            T::lemma_precedes_splits(x, y, b[k]);
        }
        b.lemma_all_neg_filter_empty(pred);
        assert(b.filter(pred) =~= Seq::<T>::empty());
        assert(ties(s.insert(p, x), y) =~= ties(s, y).push(x));
    }
}

impl Ordered for DevProcess {
    /// By pid.
    open spec fn precedes(self, other: Self) -> bool {
        self.pid < other.pid
    }

    proof fn lemma_precedes_transitive(a: Self, b: Self, c: Self) {
    }

    proof fn lemma_precedes_splits(a: Self, b: Self, c: Self) {
    }

    proof fn lemma_precedes_irreflexive(a: Self) {
    }

    fn sorts_before(&self, other: &Self) -> (r: bool) {
        self.pid < other.pid
    }
}

impl Ordered for DockerContainer {
    open spec fn precedes(self, other: Self) -> bool {
        seq_lt(self.name@, other.name@)
    }

    proof fn lemma_precedes_transitive(a: Self, b: Self, c: Self) {
        lemma_seq_lt_transitive(a.name@, b.name@, c.name@);
    }

    proof fn lemma_precedes_irreflexive(a: Self) {
        lemma_seq_lt_irreflexive(a.name@);
    }

    proof fn lemma_precedes_splits(a: Self, b: Self, c: Self) {
        lemma_seq_lt_splits(a.name@, b.name@, c.name@);
    }

    fn sorts_before(&self, other: &Self) -> (r: bool) {
        str_lt(self.name.as_str(), other.name.as_str())
    }
}

impl Ordered for DockerVolume {
    open spec fn precedes(self, other: Self) -> bool {
        seq_lt(self.name@, other.name@)
    }

    proof fn lemma_precedes_transitive(a: Self, b: Self, c: Self) {
        lemma_seq_lt_transitive(a.name@, b.name@, c.name@);
    }

    proof fn lemma_precedes_irreflexive(a: Self) {
        lemma_seq_lt_irreflexive(a.name@);
    }

    proof fn lemma_precedes_splits(a: Self, b: Self, c: Self) {
        lemma_seq_lt_splits(a.name@, b.name@, c.name@);
    }

    fn sorts_before(&self, other: &Self) -> (r: bool) {
        str_lt(self.name.as_str(), other.name.as_str())
    }
}

impl Ordered for PortBinding {
    /// By port, then by address.
    open spec fn precedes(self, other: Self) -> bool {
        self.port < other.port || (self.port == other.port && seq_lt(self.address@, other.address@))
    }

    proof fn lemma_precedes_transitive(a: Self, b: Self, c: Self) {
        if a.port == b.port && b.port == c.port {
            lemma_seq_lt_transitive(a.address@, b.address@, c.address@);
        }
    }

    proof fn lemma_precedes_irreflexive(a: Self) {
        lemma_seq_lt_irreflexive(a.address@);
    }

    proof fn lemma_precedes_splits(a: Self, b: Self, c: Self) {
        if a.port == c.port && b.port == a.port {
            lemma_seq_lt_splits(a.address@, b.address@, c.address@);
        }
    }

    fn sorts_before(&self, other: &Self) -> (r: bool) {
        self.port < other.port || (self.port == other.port && str_lt(
            self.address.as_str(),
            other.address.as_str(),
        ))
    }
}

impl Ordered for String {
    open spec fn precedes(self, other: Self) -> bool {
        seq_lt(self@, other@)
    }

    proof fn lemma_precedes_transitive(a: Self, b: Self, c: Self) {
        lemma_seq_lt_transitive(a@, b@, c@);
    }

    proof fn lemma_precedes_irreflexive(a: Self) {
        lemma_seq_lt_irreflexive(a@);
    }

    proof fn lemma_precedes_splits(a: Self, b: Self, c: Self) {
        lemma_seq_lt_splits(a@, b@, c@);
    }

    fn sorts_before(&self, other: &Self) -> (r: bool) {
        str_lt(self.as_str(), other.as_str())
    }
}


/// Of two different sequences, one sorts before the other.
pub proof fn lemma_seq_lt_total(a: Seq<char>, b: Seq<char>)
    ensures
        seq_lt(a, b) || seq_lt(b, a) || a == b,
    decreases a.len(),
{
    if a.len() > 0 && b.len() > 0 && a[0] == b[0] {
        lemma_seq_lt_total(a.drop_first(), b.drop_first());
        if a.drop_first() == b.drop_first() {
            assert(a =~= seq![a[0]] + a.drop_first());
            assert(b =~= seq![b[0]] + b.drop_first());
        }
    } else if a.len() == 0 && b.len() == 0 {
        assert(a =~= b);
    }
}

/// Each name sorts strictly before every name to its right.
pub open spec fn strictly_sorted(s: Seq<Seq<char>>) -> bool {
    forall|i: int, j: int| 0 <= i < j < s.len() ==> seq_lt(#[trigger] s[i], #[trigger] s[j])
}

/// The distinct names, in order (`sort` then `dedup`).
pub fn sort_unique_names(names: Vec<String>) -> (r: Vec<String>)
    ensures
        strictly_sorted(views(r@)),
        views(r@).to_set() == views(names@).to_set(),
{
    let ghost input = names@;
    let sorted_names = sort_listing(names);
    proof {
        broadcast use vstd::seq_lib::group_to_multiset_ensures;
        assert forall|x: Seq<char>| views(sorted_names@).to_set().contains(x) <==> views(input).to_set().contains(x) by {
            if views(sorted_names@).to_set().contains(x) {
                let i = choose|i: int| 0 <= i < views(sorted_names@).len() && views(sorted_names@)[i] == x;
                assert(sorted_names@.contains(sorted_names@[i]));
                assert(sorted_names@.to_multiset().count(sorted_names@[i]) > 0);
                assert(input.contains(sorted_names@[i]));
                let k = choose|k: int| 0 <= k < input.len() && input[k] == sorted_names@[i];
                assert(views(input)[k] == x);
            }
            if views(input).to_set().contains(x) {
                let k = choose|k: int| 0 <= k < views(input).len() && views(input)[k] == x;
                assert(input.contains(input[k]));
                assert(input.to_multiset().count(input[k]) > 0);
                assert(sorted_names@.contains(input[k]));
                let i = choose|i: int| 0 <= i < sorted_names@.len() && sorted_names@[i] == input[k];
                assert(views(sorted_names@)[i] == x);
            }
        }
        assert(views(sorted_names@).to_set() =~= views(input).to_set());
    }
    let mut out: Vec<String> = Vec::new();
    let mut k: usize = 0;
    while k < sorted_names.len()
        invariant
            k <= sorted_names.len(),
            sorted(sorted_names@),
            strictly_sorted(views(out@)),
            views(out@).to_set() == views(sorted_names@.take(k as int)).to_set(),
            k > 0 ==> out@.len() > 0 && out@.last()@ == sorted_names@[k - 1]@,
            k == 0 ==> out@.len() == 0,
        decreases sorted_names.len() - k,
    {
        let cur = &sorted_names[k];
        let fresh = out.len() == 0 || !str_eq(out[out.len() - 1].as_str(), cur.as_str());
        let ghost before = out@;
        proof {
            assert(views(sorted_names@.take(k + 1)) =~= views(sorted_names@.take(k as int)).push(cur@));
            views(sorted_names@.take(k as int)).lemma_push_to_set_commute(cur@);
        }
        if fresh {
            out.push(cur.clone());
            proof {
                assert(views(out@) =~= views(before).push(cur@));
                views(before).lemma_push_to_set_commute(cur@);
                if before.len() > 0 {
                    let last = before.last()@;
                    assert(!sorted_names@[k as int].precedes(sorted_names@[k - 1]));
                    lemma_seq_lt_total(last, cur@);
                    assert(seq_lt(last, cur@));
                    assert forall|i: int, j: int| 0 <= i < j < views(out@).len() implies seq_lt(
                        #[trigger] views(out@)[i],
                        #[trigger] views(out@)[j],
                    ) by {
                        if j == views(out@).len() - 1 {
                            if i < before.len() - 1 {
                                assert(seq_lt(views(before)[i], views(before)[before.len() - 1]));
                                lemma_seq_lt_transitive(views(before)[i], last, cur@);
                            }
                        } else {
                            assert(views(out@)[i] == views(before)[i]);
                            assert(views(out@)[j] == views(before)[j]);
                        }
                    }
                }
            }
        } else {
            proof {
                assert(views(before).to_set().contains(cur@)) by {
                    assert(views(before)[before.len() - 1] == cur@);
                }
                assert(views(before).to_set().insert(cur@) =~= views(before).to_set());
            }
        }
        k = k + 1;
    }
    assert(sorted_names@.take(sorted_names.len() as int) =~= sorted_names@);
    out
}

} // verus!
