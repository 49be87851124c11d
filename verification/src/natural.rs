//! Natural ordering of names ("img2" before "img10") and a stable sort by it.
use vstd::prelude::*;
use std::cmp::Ordering;

verus! {

/// The outcome of comparing two names.
#[derive(Clone, Copy, Debug, PartialEq, Eq, Structural)]
pub enum NameOrder {
    Less,
    Equal,
    Greater,
}

impl NameOrder {
    /// The outcome of the comparison with its two sides swapped.
    pub open spec fn reversed(self) -> NameOrder {
        match self {
            NameOrder::Less => NameOrder::Greater,
            NameOrder::Equal => NameOrder::Equal,
            NameOrder::Greater => NameOrder::Less,
        }
    }
}

/// What `natord::compare` answers for two strings.
pub uninterp spec fn natural_order(left: Seq<char>, right: Seq<char>) -> NameOrder;

/// Calls `natord::compare`, the case-sensitive natural comparison that skips
/// whitespace and compares runs of digits by value.
///
/// Claimed of it: the answer is a function of the two strings, named
/// `natural_order`; and the comparison is antisymmetric, since every branch of
/// `natord::compare_iter` treats its two sides alike, so swapping the sides
/// reverses the answer. Nothing is claimed about transitivity.
#[verifier::external_body]
fn natord_compare(left: &str, right: &str) -> (r: NameOrder)
    ensures
        r == natural_order(left@, right@),
        natural_order(right@, left@) == r.reversed(),
{
    match natord::compare(left, right) {
        Ordering::Less => NameOrder::Less,
        Ordering::Equal => NameOrder::Equal,
        Ordering::Greater => NameOrder::Greater,
    }
}

/// Natural comparison of two names.
pub fn compare_names(left: &str, right: &str) -> (r: NameOrder)
    ensures
        r == natural_order(left@, right@),
        natural_order(right@, left@) == r.reversed(),
{
    natord_compare(left, right)
}

/// The character sequences of a list of strings.
pub open spec fn string_views(v: Seq<String>) -> Seq<Seq<char>> {
    v.map_values(|x: String| x@)
}

/// In a natural arrangement, the key `a` found at position `ia` of the input
/// goes before the key `b` found at position `ib`: it is naturally smaller, or
/// the two compare equal and `a` came first (the arrangement is stable).
pub open spec fn arranged_before(a: Seq<char>, ia: int, b: Seq<char>, ib: int) -> bool {
    ||| natural_order(a, b) == NameOrder::Less
    ||| (natural_order(a, b) == NameOrder::Equal && ia < ib)
}

/// `p` lists each of the positions `0..n` exactly once.
pub open spec fn is_index_permutation(p: Seq<usize>, n: nat) -> bool {
    &&& p.len() == n
    &&& forall|i: int| 0 <= i < p.len() ==> p[i] < n
    &&& p.no_duplicates()
}

/// `p` arranges `keys` in natural order: it is a permutation of the key
/// positions, and each key goes before the one that follows it.
pub open spec fn is_natural_arrangement(keys: Seq<Seq<char>>, p: Seq<usize>) -> bool {
    &&& is_index_permutation(p, keys.len())
    &&& forall|i: int|
        #![trigger p[i], p[i + 1]]
        0 <= i < p.len() - 1 ==> arranged_before(
            keys[p[i] as int],
            p[i] as int,
            keys[p[i + 1] as int],
            p[i + 1] as int,
        )
}

/// The positions of `keys` in natural order, equal keys kept in input order:
/// a stable insertion sort by `natord::compare`.
pub fn natural_sort_order(keys: &Vec<String>) -> (p: Vec<usize>)
    ensures
        is_natural_arrangement(string_views(keys@), p@),
{
    let n = keys.len();
    let ghost k = string_views(keys@);
    let mut p: Vec<usize> = Vec::new();
    for j in 0..n
        invariant
            n == keys@.len(),
            k == string_views(keys@),
            is_natural_arrangement(k.subrange(0, j as int), p@),
    {
        let mut t = p.len();
        while t > 0 && compare_names(keys[p[t - 1]].as_str(), keys[j].as_str()) == NameOrder::Greater
            invariant
                n == keys@.len(),
                k == string_views(keys@),
                j < n,
                t <= p@.len(),
                is_natural_arrangement(k.subrange(0, j as int), p@),
                t < p@.len() ==> natural_order(k[j as int], k[p@[t as int] as int])
                    == NameOrder::Less,
            decreases t,
        {
            proof {
                assert(k[p@[t - 1] as int] == keys@[p@[t - 1] as int]@);
                assert(k[j as int] == keys@[j as int]@);
            }
            t = t - 1;
        }
        let ghost old_p = p@;
        proof {
            if t > 0 {
                assert(k[p@[t - 1] as int] == keys@[p@[t - 1] as int]@);
                assert(k[j as int] == keys@[j as int]@);
            }
        }
        p.insert(t, j);
        proof {
            let q = p@;
            let kj = k.subrange(0, j + 1);
            assert forall|i: int| 0 <= i < q.len() implies q[i] < j + 1 by {
                if i < t {
                    assert(q[i] == old_p[i]);
                } else if i > t {
                    assert(q[i] == old_p[i - 1]);
                }
            }
            assert(q.no_duplicates()) by {
                assert forall|a: int, b: int| 0 <= a < q.len() && 0 <= b < q.len() && a != b
                    implies q[a] != q[b] by {
                    if a != t && b != t {
                        let oa = if a < t { a } else { a - 1 };
                        let ob = if b < t { b } else { b - 1 };
                        assert(q[a] == old_p[oa]);
                        assert(q[b] == old_p[ob]);
                    } else if a == t {
                        let ob = if b < t { b } else { b - 1 };
                        assert(q[b] == old_p[ob]);
                    } else {
                        let oa = if a < t { a } else { a - 1 };
                        assert(q[a] == old_p[oa]);
                    }
                }
            }
            assert forall|i: int|
                #![trigger q[i], q[i + 1]]
                0 <= i < q.len() - 1 implies arranged_before(
                kj[q[i] as int],
                q[i] as int,
                kj[q[i + 1] as int],
                q[i + 1] as int,
            ) by {
                if i + 1 < t {
                    assert(q[i] == old_p[i] && q[i + 1] == old_p[i + 1]);
                    assert(kj[q[i] as int] == k[q[i] as int]);
                    assert(kj[q[i + 1] as int] == k[q[i + 1] as int]);
                } else if i + 1 == t {
                    assert(q[i] == old_p[i] && q[i + 1] == j);
                } else if i == t {
                    assert(q[i] == j && q[i + 1] == old_p[t as int]);
                } else {
                    assert(q[i] == old_p[i - 1] && q[i + 1] == old_p[i]);
                    assert(kj[q[i] as int] == k[q[i] as int]);
                    assert(kj[q[i + 1] as int] == k[q[i + 1] as int]);
                }
            }
        }
    }
    assert(k.subrange(0, n as int) =~= k);
    p
}

/// The names in natural order, equal names kept in input order.
pub fn sort_names_naturally(names: &Vec<String>) -> (sorted: Vec<String>)
    ensures
        exists|p: Seq<usize>|
            {
                &&& is_natural_arrangement(string_views(names@), p)
                &&& sorted@.len() == p.len()
                &&& forall|i: int| 0 <= i < p.len() ==> #[trigger] sorted@[i]@ == names@[p[i] as int]@
            },
{
    let p = natural_sort_order(names);
    let mut sorted: Vec<String> = Vec::new();
    for i in 0..p.len()
        invariant
            is_natural_arrangement(string_views(names@), p@),
            sorted@.len() == i,
            forall|m: int| 0 <= m < i ==> #[trigger] sorted@[m]@ == names@[p@[m] as int]@,
    {
        sorted.push(names[p[i]].clone());
    }
    sorted
}

} // verus!
