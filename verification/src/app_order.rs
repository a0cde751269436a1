use vstd::prelude::*;
use crate::copyright_pages::chars_of;

verus! {

/// `a` comes before `b` in the order of `str`: character by character, a
/// proper prefix first.
pub open spec fn text_before(a: Seq<char>, b: Seq<char>) -> bool
    decreases a.len(),
{
    if a.len() == 0 {
        b.len() > 0
    } else if b.len() == 0 {
        false
    } else if a[0] != b[0] {
        a[0] < b[0]
    } else {
        text_before(a.drop_first(), b.drop_first())
    }
}

proof fn lemma_text_before_total(a: Seq<char>, b: Seq<char>)
    ensures
        text_before(a, b) || a == b || text_before(b, a),
        !(text_before(a, b) && text_before(b, a)),
        !text_before(a, a),
    decreases a.len(),
{
    if a.len() > 0 && b.len() > 0 && a[0] == b[0] {
        lemma_text_before_total(a.drop_first(), b.drop_first());
        if a.drop_first() == b.drop_first() {
            assert(a =~= seq![a[0]] + a.drop_first());
            assert(b =~= seq![b[0]] + b.drop_first());
        }
    }
    if a.len() > 0 {
        lemma_text_before_total(a.drop_first(), a.drop_first());
    }
    if a.len() == 0 && b.len() == 0 {
        assert(a =~= b);
    }
}

proof fn lemma_text_before_transitive(a: Seq<char>, b: Seq<char>, c: Seq<char>)
    requires
        text_before(a, b),
        text_before(b, c),
    ensures
        text_before(a, c),
    decreases a.len(),
{
    if a.len() > 0 && b.len() > 0 && c.len() > 0 && a[0] == b[0] && b[0] == c[0] {
        lemma_text_before_transitive(a.drop_first(), b.drop_first(), c.drop_first());
    }
}

/// Whether the text `a` comes before `b`.
fn chars_before(a: &Vec<char>, b: &Vec<char>) -> (r: bool)
    ensures
        r == text_before(a@, b@),
{
    let mut i: usize = 0;
    assert(a@.skip(0) =~= a@ && b@.skip(0) =~= b@);
    while i < a.len() && i < b.len() && a[i] == b[i]
        invariant
            i <= a@.len(),
            i <= b@.len(),
            text_before(a@, b@) == text_before(a@.skip(i as int), b@.skip(i as int)),
        decreases a@.len() - i,
    {
        assert(a@.skip(i as int).drop_first() =~= a@.skip(i + 1));
        assert(b@.skip(i as int).drop_first() =~= b@.skip(i + 1));
        i = i + 1;
    }
    if i == a.len() {
        i < b.len()
    } else if i == b.len() {
        false
    } else {
        a[i] < b[i]
    }
}

/// `order` lists every index below `n` once.
pub open spec fn is_permutation(order: Seq<usize>, n: int) -> bool {
    &&& order.len() == n
    &&& forall|a: int| 0 <= a < n ==> order[a] < n
    &&& forall|a: int, b: int| 0 <= a < b < n ==> order[a] != order[b]
}

/// `order` lists the keys in order, and keys that are equal in the order
/// they were given.
pub open spec fn is_stably_sorted(order: Seq<usize>, keys: Seq<Seq<char>>) -> bool {
    forall|a: int, b: int|
        0 <= a < b < order.len() ==> text_before(keys[order[a] as int], keys[order[b] as int])
            || (keys[order[a] as int] == keys[order[b] as int] && order[a] < order[b])
}

/// The order in which the games are listed, given the key of each (its
/// display name in capitals): sorted by key, games with equal keys in the
/// order they were found. Returns the indices of the games in that order.
pub fn order_by_keys(keys: &Vec<String>) -> (order: Vec<usize>)
    ensures
        is_permutation(order@, keys@.len() as int),
        is_stably_sorted(order@, keys.deep_view()),
{
    let ghost ks = keys.deep_view();
    let mut chars: Vec<Vec<char>> = Vec::new();
    let mut i: usize = 0;
    while i < keys.len()
        invariant
            ks == keys.deep_view(),
            i <= keys@.len(),
            chars@.len() == i,
            forall|j: int| 0 <= j < i ==> (#[trigger] chars@[j])@ == ks[j],
        decreases keys@.len() - i,
    {
        chars.push(chars_of(keys[i].as_str()));
        i = i + 1;
    }
    let n = keys.len();
    let mut order: Vec<usize> = Vec::new();
    let mut k: usize = 0;
    while k < n
        invariant
            n == keys@.len(),
            ks == keys.deep_view(),
            ks.len() == n,
            chars@.len() == n,
            forall|j: int| 0 <= j < n ==> (#[trigger] chars@[j])@ == ks[j],
            k <= n,
            is_permutation(order@, k as int),
            is_stably_sorted(order@, ks),
        decreases n - k,
    {
        // The games already placed whose key does not come after key `k`
        // form a prefix of the order; `k` goes right after them.
        let mut pos: usize = 0;
        while pos < order.len() && !chars_before(&chars[k], &chars[order[pos]])
            invariant
                chars@.len() == n,
                forall|j: int| 0 <= j < n ==> (#[trigger] chars@[j])@ == ks[j],
                is_permutation(order@, k as int),
                k < n,
                pos <= order@.len(),
                forall|a: int| 0 <= a < pos ==> !text_before(ks[k as int], #[trigger] ks[order@[a] as int]),
            decreases order@.len() - pos,
        {
            pos = pos + 1;
        }
        proof {
            assert forall|b: int| pos <= b < order@.len() implies text_before(
                ks[k as int],
                #[trigger] ks[order@[b] as int],
            ) by {
                if b > pos {
                    let kp = ks[order@[pos as int] as int];
                    let kb = ks[order@[b] as int];
                    lemma_text_before_total(kp, kb);
                    if text_before(kp, kb) {
                        lemma_text_before_transitive(ks[k as int], kp, kb);
                    }
                }
            }
        }
        let ghost before = order@;
        order.insert(pos, k);
        proof {
            assert forall|a: int| 0 <= a < pos implies order@[a] == before[a] by {}
            assert forall|b: int| pos < b < order@.len() implies order@[b] == before[b - 1] by {}
            assert(order@[pos as int] == k);
            assert forall|a: int, b: int| 0 <= a < b < order@.len() implies text_before(
                ks[order@[a] as int],
                ks[order@[b] as int],
            ) || (ks[order@[a] as int] == ks[order@[b] as int] && order@[a] < order@[b]) by {
                if b == pos {
                    let ka = ks[order@[a] as int];
                    lemma_text_before_total(ka, ks[k as int]);
                } else if a == pos {
                } else if a < pos && b > pos {
                    let ka = ks[before[a] as int];
                    let kb = ks[before[b - 1] as int];
                    lemma_text_before_total(ka, ks[k as int]);
                    if text_before(ka, ks[k as int]) {
                        lemma_text_before_transitive(ka, ks[k as int], kb);
                    }
                } else if b < pos {
                    assert(before[a] == order@[a] && before[b] == order@[b]);
                } else {
                    assert(before[a - 1] == order@[a] && before[b - 1] == order@[b]);
                }
            }
        }
        k = k + 1;
    }
    order
}

} // verus!
