//! Byte-wise ordering and prefix matching of names, and a sort by name.

use vstd::prelude::*;
use vstd::utf8::encode_utf8;

verus! {

/// `a` comes no later than `b` in lexicographic order of bytes.
pub open spec fn bytes_le(a: Seq<u8>, b: Seq<u8>) -> bool
    decreases a.len(),
{
    if a.len() == 0 {
        true
    } else if b.len() == 0 {
        false
    } else if a[0] != b[0] {
        a[0] < b[0]
    } else {
        bytes_le(a.drop_first(), b.drop_first())
    }
}

/// Ordering of names by their UTF-8 bytes.
pub open spec fn name_le(a: Seq<char>, b: Seq<char>) -> bool {
    bytes_le(encode_utf8(a), encode_utf8(b))
}

/// `p` is a prefix of `s`, byte for byte.
pub open spec fn bytes_prefix(p: Seq<u8>, s: Seq<u8>) -> bool {
    p.len() <= s.len() && s.subrange(0, p.len() as int) == p
}

/// Name `s` starts with `p`, compared on their UTF-8 bytes.
pub open spec fn name_has_prefix(s: Seq<char>, p: Seq<char>) -> bool {
    bytes_prefix(encode_utf8(p), encode_utf8(s))
}

/// A sequence of names in ascending byte order.
pub open spec fn names_sorted(names: Seq<Seq<char>>) -> bool {
    forall|i: int, j: int| 0 <= i < j < names.len() ==> name_le(#[trigger] names[i], #[trigger] names[j])
}

/// The texts of a sequence of strings.
pub open spec fn views(v: Seq<String>) -> Seq<Seq<char>> {
    v.map_values(|s: String| s@)
}

/// The text of an optional filter.
pub open spec fn filter_view(f: Option<String>) -> Option<Seq<char>> {
    match f {
        Some(s) => Some(s@),
        None => None,
    }
}

/// A name passes a filter when there is none, or when it starts with the filter.
pub open spec fn matches_filter(name: Seq<char>, filter: Option<Seq<char>>) -> bool {
    match filter {
        Some(p) => name_has_prefix(name, p),
        None => true,
    }
}

/// The names that pass a filter, in their order.
pub open spec fn matching_names(names: Seq<Seq<char>>, filter: Option<Seq<char>>) -> Seq<Seq<char>>
    decreases names.len(),
{
    if names.len() == 0 {
        Seq::empty()
    } else {
        let rest = matching_names(names.drop_last(), filter);
        if matches_filter(names.last(), filter) {
            rest.push(names.last())
        } else {
            rest
        }
    }
}

/// `p` lists each index below `n` exactly once.
pub open spec fn is_permutation(p: Seq<int>, n: nat) -> bool {
    &&& p.len() == n
    &&& forall|k: int| 0 <= k < p.len() ==> 0 <= #[trigger] p[k] < n
    &&& forall|k: int, l: int| 0 <= k < l < p.len() ==> #[trigger] p[k] != #[trigger] p[l]
}

/// `r` holds the items of `s`, each once, in some order.
pub open spec fn is_reordering<T>(r: Seq<T>, s: Seq<T>) -> bool {
    r.len() == s.len() && exists|p: Seq<int>|
        is_permutation(p, s.len()) && forall|k: int| 0 <= k < r.len() ==> r[k] == s[#[trigger] p[k]]
}

pub proof fn lemma_bytes_le_total(a: Seq<u8>, b: Seq<u8>)
    ensures
        bytes_le(a, b) || bytes_le(b, a),
    decreases a.len(),
{
    if a.len() > 0 && b.len() > 0 && a[0] == b[0] {
        lemma_bytes_le_total(a.drop_first(), b.drop_first());
    }
}

pub proof fn lemma_bytes_le_trans(a: Seq<u8>, b: Seq<u8>, c: Seq<u8>)
    requires
        bytes_le(a, b),
        bytes_le(b, c),
    ensures
        bytes_le(a, c),
    decreases a.len(),
{
    if a.len() > 0 && b.len() > 0 && c.len() > 0 && a[0] == b[0] && b[0] == c[0] {
        lemma_bytes_le_trans(a.drop_first(), b.drop_first(), c.drop_first());
    }
}

proof fn lemma_bytes_le_skip(a: Seq<u8>, b: Seq<u8>, i: int)
    requires
        0 <= i < a.len(),
        i < b.len(),
        a[i] == b[i],
    ensures
        bytes_le(a.skip(i), b.skip(i)) == bytes_le(a.skip(i + 1), b.skip(i + 1)),
{
    assert(a.skip(i).drop_first() =~= a.skip(i + 1));
    assert(b.skip(i).drop_first() =~= b.skip(i + 1));
}

/// Compares two byte strings in lexicographic order.
pub fn bytes_le_exec(a: &[u8], b: &[u8]) -> (r: bool)
    ensures
        r == bytes_le(a@, b@),
{
    let mut i: usize = 0;
    assert(a@.skip(0) =~= a@);
    assert(b@.skip(0) =~= b@);
    while i < a.len() && i < b.len()
        invariant
            i <= a@.len(),
            i <= b@.len(),
            bytes_le(a@, b@) == bytes_le(a@.skip(i as int), b@.skip(i as int)),
        decreases a@.len() - i,
    {
        if a[i] != b[i] {
            return a[i] < b[i];
        }
        proof {
            lemma_bytes_le_skip(a@, b@, i as int);
        }
        i = i + 1;
    }
    i == a.len()
}

/// Whether `s` begins with `p`, byte for byte.
pub fn has_prefix(s: &str, p: &str) -> (r: bool)
    ensures
        r == name_has_prefix(s@, p@),
{
    let sb = s.as_bytes();
    let pb = p.as_bytes();
    assert(sb@ == encode_utf8(s@) && pb@ == encode_utf8(p@));
    if pb.len() > sb.len() {
        return false;
    }
    let mut i: usize = 0;
    while i < pb.len()
        invariant
            sb@ == encode_utf8(s@),
            pb@ == encode_utf8(p@),
            pb@.len() <= sb@.len(),
            i <= pb@.len(),
            forall|k: int| 0 <= k < i ==> sb@[k] == pb@[k],
        decreases pb@.len() - i,
    {
        if sb[i] != pb[i] {
            assert(sb@.subrange(0, pb@.len() as int)[i as int] != pb@[i as int]);
            return false;
        }
        i = i + 1;
    }
    assert(sb@.subrange(0, pb@.len() as int) =~= pb@);
    true
}

/// Whether `name` passes the optional prefix filter `group_query` (case-sensitive).
pub fn filter_group(name: &str, group_query: &Option<String>) -> (r: bool)
    ensures
        r == matches_filter(name@, filter_view(*group_query)),
{
    match group_query {
        Some(q) => has_prefix(name, q.as_str()),
        None => true,
    }
}

/// Whether name `a` sorts no later than name `b`.
pub fn name_le_exec(a: &String, b: &String) -> (r: bool)
    ensures
        r == name_le(a@, b@),
{
    bytes_le_exec(a.as_str().as_bytes(), b.as_str().as_bytes())
}

/// The order in which to visit `names` so that they come in ascending byte order;
/// among equal names the earlier one comes first.
pub fn name_order(names: &Vec<String>) -> (order: Vec<usize>)
    ensures
        is_permutation(order@.map_values(|k: usize| k as int), names@.len()),
        forall|k: int, l: int|
            0 <= k < l < order@.len() ==> name_le(
                #[trigger] names@[order@[k] as int]@,
                #[trigger] names@[order@[l] as int]@,
            ),
{
    let mut order: Vec<usize> = Vec::new();
    let mut i: usize = 0;
    while i < names.len()
        invariant
            i <= names@.len(),
            order@.len() == i,
            forall|k: int| 0 <= k < order@.len() ==> #[trigger] order@[k] < i,
            forall|k: int, l: int| 0 <= k < l < order@.len() ==> #[trigger] order@[k] != #[trigger] order@[l],
            forall|k: int, l: int|
                0 <= k < l < order@.len() ==> name_le(
                    #[trigger] names@[order@[k] as int]@,
                    #[trigger] names@[order@[l] as int]@,
                ),
        decreases names@.len() - i,
    {
        let mut pos: usize = 0;
        while pos < order.len() && name_le_exec(&names[order[pos]], &names[i])
            invariant
                pos <= order@.len(),
                i < names@.len(),
                forall|k: int| 0 <= k < order@.len() ==> #[trigger] order@[k] < i,
                forall|k: int| 0 <= k < pos ==> name_le(#[trigger] names@[order@[k] as int]@, names@[i as int]@),
            decreases order@.len() - pos,
        {
            pos = pos + 1;
        }
        let ghost before = order@;
        let ghost x = names@[i as int]@;
        proof {
            if pos < before.len() {
                lemma_bytes_le_total(encode_utf8(names@[before[pos as int] as int]@), encode_utf8(x));
            }
            assert forall|k: int| pos <= k < before.len() implies name_le(x, #[trigger] names@[before[k] as int]@) by {
                if k > pos {
                    lemma_bytes_le_trans(
                        encode_utf8(x),
                        encode_utf8(names@[before[pos as int] as int]@),
                        encode_utf8(names@[before[k] as int]@),
                    );
                }
            }
        }
        order.insert(pos, i);
        proof {
            let after = order@;
            assert(after =~= before.insert(pos as int, i));
            assert forall|k: int, l: int| 0 <= k < l < after.len() implies name_le(
                #[trigger] names@[after[k] as int]@,
                #[trigger] names@[after[l] as int]@,
            ) by {
                if k < pos && l == pos {
                } else if k < pos && l > pos {
                    assert(after[l] == before[l - 1]);
                } else if k == pos {
                    assert(after[l] == before[l - 1]);
                } else if k > pos {
                    assert(after[k] == before[k - 1]);
                    assert(after[l] == before[l - 1]);
                }
            }
            assert forall|k: int, l: int| 0 <= k < l < after.len() implies #[trigger] after[k] != #[trigger] after[l] by {
                if k > pos {
                    assert(after[k] == before[k - 1]);
                }
                if l > pos {
                    assert(after[l] == before[l - 1]);
                }
            }
        }
        i = i + 1;
    }
    proof {
        let p = order@.map_values(|k: usize| k as int);
        assert forall|k: int, l: int| 0 <= k < l < p.len() implies #[trigger] p[k] != #[trigger] p[l] by {
            assert(order@[k] != order@[l]);
        }
    }
    order
}

} // verus!
