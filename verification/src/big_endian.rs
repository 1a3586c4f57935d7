//! Unsigned big-endian interpretation of byte sequences, and an executable
//! comparison that is proved to agree with it.

use vstd::prelude::*;

verus! {

/// 256 raised to the power `n`; the weight of a byte `n` positions from the
/// least significant end.
pub open spec fn pow256(n: nat) -> nat
    decreases n,
{
    if n == 0 {
        1
    } else {
        256 * pow256((n - 1) as nat)
    }
}

/// The value of `s` read as an unsigned big-endian integer.
pub open spec fn be_val(s: Seq<u8>) -> nat
    decreases s.len(),
{
    if s.len() == 0 {
        0
    } else {
        (s[0] * pow256((s.len() - 1) as nat) + be_val(s.skip(1))) as nat
    }
}

pub proof fn lemma_pow256_pos(n: nat)
    ensures pow256(n) >= 1,
    decreases n,
{
    if n > 0 {
        lemma_pow256_pos((n - 1) as nat);
    }
}

/// A sequence of `n` bytes denotes a value below `256^n`.
pub proof fn lemma_be_val_bound(s: Seq<u8>)
    ensures be_val(s) < pow256(s.len()),
    decreases s.len(),
{
    if s.len() == 0 {
    } else {
        let p = pow256((s.len() - 1) as nat);
        lemma_be_val_bound(s.skip(1));
        lemma_pow256_pos((s.len() - 1) as nat);
        assert(be_val(s) == s[0] * p + be_val(s.skip(1)));
        assert(s[0] * p + p == (s[0] + 1) * p) by (nonlinear_arith);
        assert((s[0] + 1) * p <= 256 * p) by (nonlinear_arith)
            requires s[0] < 256, p >= 1;
    }
}

/// Equal-length big-endian sequences compare numerically as they compare
/// lexicographically: if they agree before position `i` and differ there,
/// the one with the smaller byte denotes the smaller value.
pub proof fn lemma_be_lt(a: Seq<u8>, b: Seq<u8>, i: int)
    requires
        a.len() == b.len(),
        0 <= i < a.len(),
        forall|j: int| 0 <= j < i ==> a[j] == b[j],
        a[i] < b[i],
    ensures
        be_val(a) < be_val(b),
    decreases i,
{
    let p = pow256((a.len() - 1) as nat);
    if i == 0 {
        lemma_be_val_bound(a.skip(1));
        assert(a[0] * p + p == (a[0] + 1) * p) by (nonlinear_arith);
        assert((a[0] + 1) * p <= b[0] * p) by (nonlinear_arith)
            requires a[0] + 1 <= b[0], p >= 0;
        assert(be_val(a) == a[0] * p + be_val(a.skip(1)));
        assert(be_val(b) == b[0] * p + be_val(b.skip(1)));
    } else {
        assert forall|j: int| 0 <= j < i - 1 implies a.skip(1)[j] == b.skip(1)[j] by {
            assert(a[j + 1] == b[j + 1]);
        }
        assert(a.skip(1)[i - 1] == a[i] && b.skip(1)[i - 1] == b[i]);
        lemma_be_lt(a.skip(1), b.skip(1), i - 1);
        assert(a[0] == b[0]);
        assert(be_val(a) == a[0] * p + be_val(a.skip(1)));
        assert(be_val(b) == b[0] * p + be_val(b.skip(1)));
    }
}

/// Appending a byte multiplies the value by 256 and adds the byte.
pub proof fn lemma_be_val_push(s: Seq<u8>, b: u8)
    ensures
        be_val(s.push(b)) == 256 * be_val(s) + b,
    decreases s.len(),
{
    if s.len() == 0 {
        assert(s.push(b).skip(1) =~= Seq::<u8>::empty());
        assert(pow256(0) == 1);
        assert(be_val(Seq::<u8>::empty()) == 0);
        assert(s.push(b)[0] == b);
        assert((s.push(b).len() - 1) as nat == 0);
        assert(be_val(s.push(b)) == b * pow256(0) + be_val(s.push(b).skip(1)));
        assert(be_val(s.push(b)) == b);
        assert(be_val(s) == 0);
    } else {
        let p = pow256((s.len() - 1) as nat);
        assert(s.push(b).skip(1) =~= s.skip(1).push(b));
        lemma_be_val_push(s.skip(1), b);
        lemma_pow256_pos((s.len() - 1) as nat);
        assert(s.push(b)[0] == s[0]);
        assert((s.push(b).len() - 1) as nat == s.len());
        assert(pow256(s.len()) == 256 * p);
        assert(s[0] * (256 * p) >= 0) by (nonlinear_arith)
            requires s[0] >= 0, p >= 1;
        assert(s[0] * p >= 0) by (nonlinear_arith)
            requires s[0] >= 0, p >= 1;
        assert(be_val(s.push(b)) == s[0] * (256 * p) + be_val(s.skip(1).push(b)));
        assert(be_val(s.push(b)) == s[0] * (256 * p) + 256 * be_val(s.skip(1)) + b);
        assert(be_val(s) == s[0] * p + be_val(s.skip(1)));
        assert(s[0] * (256 * p) == 256 * (s[0] * p)) by (nonlinear_arith);
        assert(256 * (s[0] * p + be_val(s.skip(1))) == 256 * (s[0] * p) + 256 * be_val(
            s.skip(1),
        ));
        assert(256 * be_val(s) + b == 256 * (s[0] * p) + 256 * be_val(s.skip(1)) + b);
        assert(be_val(s.push(b)) == 256 * be_val(s) + b);
    }
}

/// One step of evaluating a big-endian value prefix by prefix.
pub proof fn lemma_be_val_take_step(s: Seq<u8>, k: int)
    requires
        0 <= k < s.len(),
    ensures
        be_val(s.take(k + 1)) == 256 * be_val(s.take(k)) + s[k],
{
    assert(s.take(k + 1) =~= s.take(k).push(s[k]));
    lemma_be_val_push(s.take(k), s[k]);
}

/// Compares two equal-length byte strings as big-endian integers.
pub fn be_less(a: &[u8], b: &[u8]) -> (r: bool)
    requires
        a@.len() == b@.len(),
    ensures
        r == (be_val(a@) < be_val(b@)),
{
    let n = a.len();
    let mut i: usize = 0;
    while i < n
        invariant
            a@.len() == n,
            b@.len() == n,
            0 <= i <= n,
            forall|j: int| 0 <= j < i ==> a@[j] == b@[j],
        decreases n - i,
    {
        let x = *vstd::slice::slice_index_get(a, i);
        let y = *vstd::slice::slice_index_get(b, i);
        if x < y {
            proof { lemma_be_lt(a@, b@, i as int); }
            return true;
        }
        if x > y {
            proof { lemma_be_lt(b@, a@, i as int); }
            return false;
        }
        i += 1;
    }
    proof {
        assert(a@ =~= b@);
    }
    false
}

} // verus!
