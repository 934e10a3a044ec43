//! The order of identifiers: lexicographic by character (for UTF-8 text
//! this is the order of `str`, byte by byte).

use vstd::prelude::*;

verus! {

/// `a` is below `b` at position `k`: they agree before `k`, and at `k`
/// either `a` ends while `b` goes on, or `a`'s character is the smaller.
pub open spec fn lt_at(a: Seq<char>, b: Seq<char>, k: int) -> bool {
    &&& 0 <= k <= a.len()
    &&& k <= b.len()
    &&& forall|j: int| 0 <= j < k ==> a[j] == b[j]
    &&& ((k == a.len() && k < b.len()) || (k < a.len() && k < b.len() && (a[k] as int) < (
    b[k] as int)))
}

/// Lexicographic order of texts.
pub open spec fn text_lt(a: Seq<char>, b: Seq<char>) -> bool {
    exists|k: int| lt_at(a, b, k)
}

/// No text is below itself, and the order is asymmetric.
pub proof fn lemma_lt_asymmetric(a: Seq<char>, b: Seq<char>)
    ensures
        !(text_lt(a, b) && text_lt(b, a)),
        !text_lt(a, a),
{
    if text_lt(a, b) && text_lt(b, a) {
        let k1 = choose|k: int| lt_at(a, b, k);
        let k2 = choose|k: int| lt_at(b, a, k);
        if k1 < k2 {
            assert(b[k1] == a[k1]);
        } else if k2 < k1 {
            assert(a[k2] == b[k2]);
        }
    }
    if text_lt(a, a) {
        let k = choose|k: int| lt_at(a, a, k);
    }
}

/// The order is transitive.
pub proof fn lemma_lt_transitive(a: Seq<char>, b: Seq<char>, c: Seq<char>)
    requires
        text_lt(a, b),
        text_lt(b, c),
    ensures
        text_lt(a, c),
{
    let k1 = choose|k: int| lt_at(a, b, k);
    let k2 = choose|k: int| lt_at(b, c, k);
    if k1 < k2 {
        assert(b[k1] == c[k1]);
        assert forall|j: int| 0 <= j < k1 implies a[j] == c[j] by {
            assert(a[j] == b[j]);
            assert(b[j] == c[j]);
        }
        assert(lt_at(a, c, k1));
    } else if k2 < k1 {
        assert(a[k2] == b[k2]);
        assert forall|j: int| 0 <= j < k2 implies a[j] == c[j] by {
            assert(a[j] == b[j]);
            assert(b[j] == c[j]);
        }
        assert(lt_at(a, c, k2));
    } else {
        assert forall|j: int| 0 <= j < k1 implies a[j] == c[j] by {
            assert(a[j] == b[j]);
            assert(b[j] == c[j]);
        }
        assert(lt_at(a, c, k1));
    }
}

proof fn lemma_first_difference(a: Seq<char>, b: Seq<char>, i: int) -> (k: int)
    requires
        0 <= i <= a.len(),
        i <= b.len(),
        forall|j: int| 0 <= j < i ==> a[j] == b[j],
    ensures
        i <= k <= a.len(),
        k <= b.len(),
        forall|j: int| 0 <= j < k ==> a[j] == b[j],
        k == a.len() || k == b.len() || a[k] != b[k],
    decreases a.len() - i,
{
    if i == a.len() || i == b.len() || a[i] != b[i] {
        i
    } else {
        lemma_first_difference(a, b, i + 1)
    }
}

/// Distinct texts are ordered one way or the other.
pub proof fn lemma_lt_total(a: Seq<char>, b: Seq<char>)
    requires
        a != b,
    ensures
        text_lt(a, b) || text_lt(b, a),
{
    let k = lemma_first_difference(a, b, 0);
    if k == a.len() && k == b.len() {
        assert(a =~= b);
    } else if k == a.len() {
        assert(lt_at(a, b, k));
    } else if k == b.len() {
        assert(lt_at(b, a, k));
    } else if (a[k] as int) < (b[k] as int) {
        assert(lt_at(a, b, k));
    } else {
        assert((a[k] as int) != (b[k] as int));
        assert(lt_at(b, a, k));
    }
}

/// Whether `a` sorts before `b`.
pub fn str_lt(a: &str, b: &str) -> (r: bool)
    ensures
        r == text_lt(a@, b@),
{
    let n = a.unicode_len();
    let m = b.unicode_len();
    let mut i: usize = 0;
    while i < n && i < m && a.get_char(i) == b.get_char(i)
        invariant
            n == a@.len(),
            m == b@.len(),
            i <= n,
            i <= m,
            forall|j: int| 0 <= j < i ==> a@[j] == b@[j],
        decreases n - i,
    {
        i = i + 1;
    }
    proof {
        lemma_lt_asymmetric(a@, b@);
    }
    if i == n {
        if i < m {
            assert(lt_at(a@, b@, i as int));
            true
        } else {
            assert(a@ =~= b@);
            false
        }
    } else if i == m {
        assert(lt_at(b@, a@, i as int));
        false
    } else {
        let x = a.get_char(i);
        let y = b.get_char(i);
        if x < y {
            assert(lt_at(a@, b@, i as int));
            true
        } else {
            assert(lt_at(b@, a@, i as int));
            false
        }
    }
}

/// A sequence of texts is strictly increasing.
pub open spec fn strictly_sorted(s: Seq<Seq<char>>) -> bool {
    forall|i: int, j: int| 0 <= i < j < s.len() ==> text_lt(#[trigger] s[i], #[trigger] s[j])
}

} // verus!
