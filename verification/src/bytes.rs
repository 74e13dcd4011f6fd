//! The order of keys: byte strings compared lexicographically.

use vstd::prelude::*;

verus! {

/// `a` and `b` hold the same bytes in their first `n` places.
pub open spec fn agree_upto(a: Seq<u8>, b: Seq<u8>, n: int) -> bool {
    &&& 0 <= n <= a.len()
    &&& n <= b.len()
    &&& forall|k: int| 0 <= k < n ==> a[k] == b[k]
}

/// `n` is the place that puts `a` before `b`: up to it the two agree, and
/// there `a` ends while `b` goes on, or `a` holds the smaller byte.
pub open spec fn parts_at(a: Seq<u8>, b: Seq<u8>, n: int) -> bool {
    &&& agree_upto(a, b, n)
    &&& ((n == a.len() && n < b.len()) || (n < a.len() && n < b.len() && a[n] < b[n]))
}

/// `a` sorts strictly before `b`.
pub open spec fn lex_lt(a: Seq<u8>, b: Seq<u8>) -> bool {
    exists|n: int| parts_at(a, b, n)
}

/// `a` sorts before `b` or equals it.
pub open spec fn lex_le(a: Seq<u8>, b: Seq<u8>) -> bool {
    a == b || lex_lt(a, b)
}

/// How one byte string stands to another.
#[derive(Clone, Copy, Debug, PartialEq, Eq)]
pub enum Order {
    Less,
    Equal,
    Greater,
}

/// A string that sorts before another is a different string, and the other
/// does not sort before it.
pub proof fn lemma_lt_asymmetric(a: Seq<u8>, b: Seq<u8>)
    requires
        lex_lt(a, b),
    ensures
        a != b,
        !lex_lt(b, a),
{
    let n = choose|n: int| parts_at(a, b, n);
    assert forall|m: int| !parts_at(b, a, m) by {
        if parts_at(b, a, m) {
            if m < n {
                assert(a[m] == b[m]);
            } else if n < m {
                assert(b[n] == a[n]);
            }
        }
    }
}

/// The strict order is transitive.
pub proof fn lemma_lt_transitive(a: Seq<u8>, b: Seq<u8>, c: Seq<u8>)
    requires
        lex_lt(a, b),
        lex_lt(b, c),
    ensures
        lex_lt(a, c),
{
    let n = choose|n: int| parts_at(a, b, n);
    let m = choose|m: int| parts_at(b, c, m);
    if n <= m {
        assert(agree_upto(a, c, n)) by {
            assert forall|k: int| 0 <= k < n implies a[k] == c[k] by {
                assert(a[k] == b[k]);
                assert(b[k] == c[k]);
            }
        }
        if n < m {
            assert(n < b.len() ==> b[n] == c[n]);
        }
        assert(parts_at(a, c, n));
    } else {
        assert(agree_upto(a, c, m)) by {
            assert forall|k: int| 0 <= k < m implies a[k] == c[k] by {
                assert(a[k] == b[k]);
                assert(b[k] == c[k]);
            }
        }
        assert(a[m] == b[m]);
        assert(parts_at(a, c, m));
    }
}

/// Compares two byte strings lexicographically.
pub fn order(a: &[u8], b: &[u8]) -> (r: Order)
    ensures
        r == Order::Less <==> lex_lt(a@, b@),
        r == Order::Equal <==> a@ == b@,
        r == Order::Greater <==> lex_lt(b@, a@),
{
    let mut i: usize = 0;
    while i < a.len() && i < b.len()
        invariant
            agree_upto(a@, b@, i as int),
        decreases a.len() - i,
    {
        if a[i] < b[i] {
            proof {
                assert(parts_at(a@, b@, i as int));
                lemma_lt_asymmetric(a@, b@);
            }
            return Order::Less;
        }
        if a[i] > b[i] {
            proof {
                assert(agree_upto(b@, a@, i as int));
                assert(parts_at(b@, a@, i as int));
                lemma_lt_asymmetric(b@, a@);
            }
            return Order::Greater;
        }
        i += 1;
    }
    if i < b.len() {
        proof {
            assert(parts_at(a@, b@, i as int));
            lemma_lt_asymmetric(a@, b@);
        }
        Order::Less
    } else if i < a.len() {
        proof {
            assert(agree_upto(b@, a@, i as int));
            assert(parts_at(b@, a@, i as int));
            lemma_lt_asymmetric(b@, a@);
        }
        Order::Greater
    } else {
        proof {
            assert(a@ =~= b@);
            if lex_lt(a@, b@) {
                lemma_lt_asymmetric(a@, b@);
            }
        }
        Order::Equal
    }
}

} // verus!
