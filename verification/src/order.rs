//! The lexicographic order on byte strings, by which identifiers are compared
//! and by which the store lists its keys.

use vstd::prelude::*;

verus! {

/// `x` and `y` agree before position `i`, and at `i` either `x` ends while `y`
/// goes on, or `x` holds the smaller byte.
pub open spec fn diverges_below(x: Seq<u8>, y: Seq<u8>, i: int) -> bool {
    &&& 0 <= i <= x.len()
    &&& i < y.len()
    &&& forall|j: int| 0 <= j < i ==> x[j] == y[j]
    &&& (i < x.len() ==> x[i] < y[i])
}

/// `x` comes strictly before `y` in lexicographic order.
pub open spec fn bytes_lt(x: Seq<u8>, y: Seq<u8>) -> bool {
    exists|i: int| diverges_below(x, y, i)
}

/// No byte string comes before itself.
pub proof fn lemma_lt_irreflexive(x: Seq<u8>)
    ensures
        !bytes_lt(x, x),
{
}

/// Of two byte strings at most one comes before the other.
pub proof fn lemma_lt_asymmetric(x: Seq<u8>, y: Seq<u8>)
    ensures
        !(bytes_lt(x, y) && bytes_lt(y, x)),
{
    if bytes_lt(x, y) && bytes_lt(y, x) {
        let i: int = choose|i: int| diverges_below(x, y, i);
        let j: int = choose|j: int| diverges_below(y, x, j);
        if i < j {
            assert(y[i] == x[i]);
        } else if j < i {
            assert(x[j] == y[j]);
        }
    }
}

/// The order is transitive.
pub proof fn lemma_lt_transitive(x: Seq<u8>, y: Seq<u8>, z: Seq<u8>)
    requires
        bytes_lt(x, y),
        bytes_lt(y, z),
    ensures
        bytes_lt(x, z),
{
    let i: int = choose|i: int| diverges_below(x, y, i);
    let j: int = choose|j: int| diverges_below(y, z, j);
    let k: int = if i <= j { i } else { j };
    assert forall|l: int| 0 <= l < k implies x[l] == z[l] by {
        assert(x[l] == y[l]);
        assert(y[l] == z[l]);
    }
    if i < j {
        assert(y[i] == z[i]);
    } else if j < i {
        assert(x[j] == y[j]);
    }
    assert(diverges_below(x, z, k));
}

proof fn lemma_connex_from(x: Seq<u8>, y: Seq<u8>, k: int)
    requires
        0 <= k <= x.len(),
        k <= y.len(),
        forall|j: int| 0 <= j < k ==> x[j] == y[j],
    ensures
        x == y || bytes_lt(x, y) || bytes_lt(y, x),
    decreases x.len() - k,
{
    if k == x.len() {
        if k == y.len() {
            assert(x =~= y);
        } else {
            assert(diverges_below(x, y, k));
        }
    } else if k == y.len() {
        assert(diverges_below(y, x, k));
    } else if x[k] < y[k] {
        assert(diverges_below(x, y, k));
    } else if y[k] < x[k] {
        assert(diverges_below(y, x, k));
    } else {
        lemma_connex_from(x, y, k + 1);
    }
}

/// Two different byte strings are ordered one way or the other.
pub proof fn lemma_lt_connex(x: Seq<u8>, y: Seq<u8>)
    ensures
        x == y || bytes_lt(x, y) || bytes_lt(y, x),
{
    lemma_connex_from(x, y, 0);
}

/// Whether `a` comes strictly before `b` in lexicographic order.
pub fn bytes_less(a: &[u8], b: &[u8]) -> (r: bool)
    ensures
        r == bytes_lt(a@, b@),
{
    let mut i: usize = 0;
    while i < a.len() && i < b.len()
        invariant
            i <= a.len(),
            i <= b.len(),
            forall|j: int| 0 <= j < i ==> a@[j] == b@[j],
        decreases a.len() - i,
    {
        if a[i] != b[i] {
            proof {
                if a[i as int] < b[i as int] {
                    assert(diverges_below(a@, b@, i as int));
                } else {
                    assert(diverges_below(b@, a@, i as int));
                    lemma_lt_asymmetric(a@, b@);
                }
            }
            return a[i] < b[i];
        }
        i += 1;
    }
    proof {
        if a.len() < b.len() {
            assert(diverges_below(a@, b@, i as int));
        } else if b.len() < a.len() {
            assert(diverges_below(b@, a@, i as int));
            lemma_lt_asymmetric(a@, b@);
        } else {
            assert(a@ =~= b@);
            lemma_lt_irreflexive(a@);
        }
    }
    a.len() < b.len()
}

} // verus!
