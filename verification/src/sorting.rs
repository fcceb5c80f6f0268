//! Byte-wise ordering of strings (the order of `str`'s `Ord`) and a sort on it.

use vstd::prelude::*;
use vstd::relations::*;
use vstd::string::*;
use vstd::utf8::*;

verus! {

broadcast use vstd::utf8::encode_utf8_decode_utf8;

/// Lexicographic order on byte sequences.
pub open spec fn bytes_le(a: Seq<u8>, b: Seq<u8>) -> bool
    decreases a.len(),
{
    if a.len() == 0 {
        true
    } else if b.len() == 0 {
        false
    } else if a[0] < b[0] {
        true
    } else if a[0] > b[0] {
        false
    } else {
        bytes_le(a.drop_first(), b.drop_first())
    }
}

/// `a <= b` for strings: lexicographic order of their UTF-8 bytes.
pub open spec fn str_le(a: Seq<char>, b: Seq<char>) -> bool {
    bytes_le(encode_utf8(a), encode_utf8(b))
}

/// [`str_le`] as a relation.
pub open spec fn str_leq() -> spec_fn(Seq<char>, Seq<char>) -> bool {
    |a: Seq<char>, b: Seq<char>| str_le(a, b)
}

proof fn lemma_bytes_le_reflexive(a: Seq<u8>)
    ensures
        bytes_le(a, a),
    decreases a.len(),
{
    if a.len() > 0 {
        lemma_bytes_le_reflexive(a.drop_first());
    }
}

proof fn lemma_bytes_le_antisymmetric(a: Seq<u8>, b: Seq<u8>)
    requires
        bytes_le(a, b),
        bytes_le(b, a),
    ensures
        a == b,
    decreases a.len(),
{
    if a.len() > 0 {
        lemma_bytes_le_antisymmetric(a.drop_first(), b.drop_first());
        assert(a =~= seq![a[0]] + a.drop_first());
        assert(b =~= seq![b[0]] + b.drop_first());
    }
}

proof fn lemma_bytes_le_transitive(a: Seq<u8>, b: Seq<u8>, c: Seq<u8>)
    requires
        bytes_le(a, b),
        bytes_le(b, c),
    ensures
        bytes_le(a, c),
    decreases a.len(),
{
    if a.len() > 0 && b.len() > 0 && c.len() > 0 && a[0] == b[0] && b[0] == c[0] {
        lemma_bytes_le_transitive(a.drop_first(), b.drop_first(), c.drop_first());
    }
}

proof fn lemma_bytes_le_total(a: Seq<u8>, b: Seq<u8>)
    ensures
        bytes_le(a, b) || bytes_le(b, a),
    decreases a.len(),
{
    if a.len() > 0 && b.len() > 0 && a[0] == b[0] {
        lemma_bytes_le_total(a.drop_first(), b.drop_first());
    }
}

/// [`str_le`] is a total order.
pub proof fn lemma_str_le_total_ordering()
    ensures
        total_ordering(str_leq()),
{
    assert forall|a: Seq<char>| #[trigger] str_leq()(a, a) by {
        lemma_bytes_le_reflexive(encode_utf8(a));
    }
    assert forall|a: Seq<char>, b: Seq<char>|
        #[trigger] str_leq()(a, b) && #[trigger] str_leq()(b, a) implies a == b by {
        lemma_bytes_le_antisymmetric(encode_utf8(a), encode_utf8(b));
        assert(decode_utf8(encode_utf8(a)) == a);
        assert(decode_utf8(encode_utf8(b)) == b);
    }
    assert forall|a: Seq<char>, b: Seq<char>, c: Seq<char>|
        #[trigger] str_leq()(a, b) && #[trigger] str_leq()(b, c) implies str_leq()(a, c) by {
        lemma_bytes_le_transitive(encode_utf8(a), encode_utf8(b), encode_utf8(c));
    }
    assert forall|a: Seq<char>, b: Seq<char>|
        #[trigger] str_leq()(a, b) || #[trigger] str_leq()(b, a) by {
        lemma_bytes_le_total(encode_utf8(a), encode_utf8(b));
    }
}

/// Whether `a <= b` in the order of `str`'s `Ord`.
pub fn str_le_exec(a: &str, b: &str) -> (r: bool)
    ensures
        r == str_le(a@, b@),
{
    let ab = a.as_bytes();
    let bb = b.as_bytes();
    let mut i: usize = 0;
    assert(ab@.skip(0) =~= ab@);
    assert(bb@.skip(0) =~= bb@);
    loop
        invariant
            ab@ == encode_utf8(a@),
            bb@ == encode_utf8(b@),
            i <= ab@.len(),
            i <= bb@.len(),
            bytes_le(ab@, bb@) == bytes_le(ab@.skip(i as int), bb@.skip(i as int)),
        decreases ab@.len() - i,
    {
        if i == ab.len() {
            return true;
        }
        if i == bb.len() {
            return false;
        }
        if ab[i] < bb[i] {
            return true;
        }
        if ab[i] > bb[i] {
            return false;
        }
        assert(ab@.skip(i as int).drop_first() =~= ab@.skip(i + 1));
        assert(bb@.skip(i as int).drop_first() =~= bb@.skip(i + 1));
        i = i + 1;
    }
}

/// The views of a vector of strings.
pub open spec fn views(v: Seq<String>) -> Seq<Seq<char>> {
    v.map_values(|s: String| s@)
}

/// Sorts strings ascending in the order of `str`'s `Ord` (`Vec::sort`).
pub fn sort_strings(v: &Vec<String>) -> (r: Vec<String>)
    ensures
        views(r@) == views(v@).sort_by(str_leq()),
{
    broadcast use vstd::seq_lib::group_to_multiset_ensures;

    let mut out: Vec<String> = Vec::new();
    let mut i: usize = 0;
    proof {
        lemma_str_le_total_ordering();
    }
    while i < v.len()
        invariant
            i <= v@.len(),
            total_ordering(str_leq()),
            sorted_by(views(out@), str_leq()),
            views(out@).to_multiset() == views(v@).take(i as int).to_multiset(),
        decreases v@.len() - i,
    {
        let s = v[i].clone();
        let mut j: usize = 0;
        while j < out.len() && str_le_exec(out[j].as_str(), s.as_str())
            invariant
                j <= out@.len(),
                forall|k: int| 0 <= k < j ==> str_le(#[trigger] out@[k]@, s@),
            decreases out@.len() - j,
        {
            j = j + 1;
        }
        let ghost old_views = views(out@);
        out.insert(j, s);
        proof {
            assert(views(out@) =~= old_views.insert(j as int, s@));
            if j < old_views.len() {
                assert(!str_le(old_views[j as int], s@));
                assert(str_leq()(old_views[j as int], s@) || str_leq()(s@, old_views[j as int]));
            }
            assert forall|a: int, b: int| 0 <= a < b < views(out@).len() implies #[trigger] str_leq()(
                views(out@)[a],
                views(out@)[b],
            ) by {
                if b < j {
                    assert(str_leq()(old_views[a], old_views[b]));
                } else if b == j {
                    assert(str_le(out@[a]@, s@));
                } else if a == j {
                    if b - 1 > j {
                        assert(str_leq()(old_views[j as int], old_views[b - 1]));
                    }
                } else if a < j {
                    assert(str_leq()(old_views[a], old_views[b - 1]));
                } else {
                    assert(str_leq()(old_views[a - 1], old_views[b - 1]));
                }
            }
            vstd::seq_lib::to_multiset_insert(old_views, j as int, s@);
            assert(views(v@).take(i + 1) =~= views(v@).take(i as int).push(s@));
            vstd::seq_lib::to_multiset_build(views(v@).take(i as int), s@);
        }
        i = i + 1;
    }
    proof {
        assert(views(v@).take(v@.len() as int) =~= views(v@));
        views(v@).lemma_sort_by_ensures(str_leq());
        vstd::seq_lib::lemma_sorted_unique(views(out@), views(v@).sort_by(str_leq()), str_leq());
    }
    out
}

} // verus!
