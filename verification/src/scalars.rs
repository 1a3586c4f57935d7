//! Range and malleability bounds on the two 32-byte scalars of a compact
//! ECDSA signature, stated against the order of the P-256 group.

use vstd::prelude::*;
use crate::big_endian::{be_val, be_less, lemma_be_val_take_step};

verus! {

/// The order of the P-256 (secp256r1) base-point group.
pub open spec fn p256_order() -> nat {
    0xffffffff00000000ffffffffffffffffbce6faada7179e84f3b9cac2fc632551nat
}

/// Bytes of 1 as a 32-byte big-endian integer.
pub open spec fn one_seq() -> Seq<u8> {
    seq![
        0x00, 0x00, 0x00, 0x00, 0x00, 0x00, 0x00, 0x00,
        0x00, 0x00, 0x00, 0x00, 0x00, 0x00, 0x00, 0x00,
        0x00, 0x00, 0x00, 0x00, 0x00, 0x00, 0x00, 0x00,
        0x00, 0x00, 0x00, 0x00, 0x00, 0x00, 0x00, 0x01,
    ]
}

/// Bytes of the group order minus one, big-endian.
pub open spec fn order_minus_one_seq() -> Seq<u8> {
    seq![
        0xff, 0xff, 0xff, 0xff, 0x00, 0x00, 0x00, 0x00,
        0xff, 0xff, 0xff, 0xff, 0xff, 0xff, 0xff, 0xff,
        0xbc, 0xe6, 0xfa, 0xad, 0xa7, 0x17, 0x9e, 0x84,
        0xf3, 0xb9, 0xca, 0xc2, 0xfc, 0x63, 0x25, 0x50,
    ]
}

/// Bytes of half the group order (order >> 1), big-endian.
pub open spec fn half_order_seq() -> Seq<u8> {
    seq![
        0x7f, 0xff, 0xff, 0xff, 0x80, 0x00, 0x00, 0x00,
        0x7f, 0xff, 0xff, 0xff, 0xff, 0xff, 0xff, 0xff,
        0xde, 0x73, 0x7d, 0x56, 0xd3, 0x8b, 0xcf, 0x42,
        0x79, 0xdc, 0xe5, 0x61, 0x7e, 0x31, 0x92, 0xa8,
    ]
}

pub proof fn lemma_one_seq_val()
    ensures be_val(one_seq()) == 1,
{
    let s = one_seq();
    assert(s.take(0) =~= Seq::<u8>::empty());
    lemma_be_val_take_step(s, 0);
    lemma_be_val_take_step(s, 1);
    lemma_be_val_take_step(s, 2);
    lemma_be_val_take_step(s, 3);
    lemma_be_val_take_step(s, 4);
    lemma_be_val_take_step(s, 5);
    lemma_be_val_take_step(s, 6);
    lemma_be_val_take_step(s, 7);
    lemma_be_val_take_step(s, 8);
    lemma_be_val_take_step(s, 9);
    lemma_be_val_take_step(s, 10);
    lemma_be_val_take_step(s, 11);
    lemma_be_val_take_step(s, 12);
    lemma_be_val_take_step(s, 13);
    lemma_be_val_take_step(s, 14);
    lemma_be_val_take_step(s, 15);
    lemma_be_val_take_step(s, 16);
    lemma_be_val_take_step(s, 17);
    lemma_be_val_take_step(s, 18);
    lemma_be_val_take_step(s, 19);
    lemma_be_val_take_step(s, 20);
    lemma_be_val_take_step(s, 21);
    lemma_be_val_take_step(s, 22);
    lemma_be_val_take_step(s, 23);
    lemma_be_val_take_step(s, 24);
    lemma_be_val_take_step(s, 25);
    lemma_be_val_take_step(s, 26);
    lemma_be_val_take_step(s, 27);
    lemma_be_val_take_step(s, 28);
    lemma_be_val_take_step(s, 29);
    lemma_be_val_take_step(s, 30);
    lemma_be_val_take_step(s, 31);
    assert(s.take(32) =~= s);
}

pub proof fn lemma_order_minus_one_seq_val()
    ensures be_val(order_minus_one_seq()) == p256_order() - 1,
{
    let s = order_minus_one_seq();
    assert(s.take(0) =~= Seq::<u8>::empty());
    lemma_be_val_take_step(s, 0);
    lemma_be_val_take_step(s, 1);
    lemma_be_val_take_step(s, 2);
    lemma_be_val_take_step(s, 3);
    lemma_be_val_take_step(s, 4);
    lemma_be_val_take_step(s, 5);
    lemma_be_val_take_step(s, 6);
    lemma_be_val_take_step(s, 7);
    lemma_be_val_take_step(s, 8);
    lemma_be_val_take_step(s, 9);
    lemma_be_val_take_step(s, 10);
    lemma_be_val_take_step(s, 11);
    lemma_be_val_take_step(s, 12);
    lemma_be_val_take_step(s, 13);
    lemma_be_val_take_step(s, 14);
    lemma_be_val_take_step(s, 15);
    lemma_be_val_take_step(s, 16);
    lemma_be_val_take_step(s, 17);
    lemma_be_val_take_step(s, 18);
    lemma_be_val_take_step(s, 19);
    lemma_be_val_take_step(s, 20);
    lemma_be_val_take_step(s, 21);
    lemma_be_val_take_step(s, 22);
    lemma_be_val_take_step(s, 23);
    lemma_be_val_take_step(s, 24);
    lemma_be_val_take_step(s, 25);
    lemma_be_val_take_step(s, 26);
    lemma_be_val_take_step(s, 27);
    lemma_be_val_take_step(s, 28);
    lemma_be_val_take_step(s, 29);
    lemma_be_val_take_step(s, 30);
    lemma_be_val_take_step(s, 31);
    assert(s.take(32) =~= s);
}

pub proof fn lemma_half_order_seq_val()
    ensures be_val(half_order_seq()) == p256_order() / 2,
{
    let s = half_order_seq();
    assert(s.take(0) =~= Seq::<u8>::empty());
    lemma_be_val_take_step(s, 0);
    lemma_be_val_take_step(s, 1);
    lemma_be_val_take_step(s, 2);
    lemma_be_val_take_step(s, 3);
    lemma_be_val_take_step(s, 4);
    lemma_be_val_take_step(s, 5);
    lemma_be_val_take_step(s, 6);
    lemma_be_val_take_step(s, 7);
    lemma_be_val_take_step(s, 8);
    lemma_be_val_take_step(s, 9);
    lemma_be_val_take_step(s, 10);
    lemma_be_val_take_step(s, 11);
    lemma_be_val_take_step(s, 12);
    lemma_be_val_take_step(s, 13);
    lemma_be_val_take_step(s, 14);
    lemma_be_val_take_step(s, 15);
    lemma_be_val_take_step(s, 16);
    lemma_be_val_take_step(s, 17);
    lemma_be_val_take_step(s, 18);
    lemma_be_val_take_step(s, 19);
    lemma_be_val_take_step(s, 20);
    lemma_be_val_take_step(s, 21);
    lemma_be_val_take_step(s, 22);
    lemma_be_val_take_step(s, 23);
    lemma_be_val_take_step(s, 24);
    lemma_be_val_take_step(s, 25);
    lemma_be_val_take_step(s, 26);
    lemma_be_val_take_step(s, 27);
    lemma_be_val_take_step(s, 28);
    lemma_be_val_take_step(s, 29);
    lemma_be_val_take_step(s, 30);
    lemma_be_val_take_step(s, 31);
    assert(s.take(32) =~= s);
}

/// A scalar passes the verifier's range check when it lies strictly between
/// 1 and the group order minus one, both bounds excluded.
pub open spec fn scalar_in_range(x: Seq<u8>) -> bool {
    1 < be_val(x) && be_val(x) < p256_order() - 1
}

/// The canonical ("low-S") half of the scalar range: at most order / 2.
pub open spec fn is_low_s(x: Seq<u8>) -> bool {
    be_val(x) <= p256_order() / 2
}

fn one_bytes() -> (r: Vec<u8>)
    ensures r@ == one_seq(),
{
    let mut v: Vec<u8> = Vec::new();
    let mut i: usize = 0;
    while i < 31
        invariant
            0 <= i <= 31,
            v@.len() == i,
            forall|j: int| 0 <= j < i ==> v@[j] == 0u8,
        decreases 31 - i,
    {
        v.push(0x00);
        i += 1;
    }
    v.push(0x01);
    proof {
        assert(v@ =~= one_seq());
    }
    v
}

fn order_minus_one_bytes() -> (r: Vec<u8>)
    ensures r@ == order_minus_one_seq(),
{
    let v: Vec<u8> = vec![
        0xff, 0xff, 0xff, 0xff, 0x00, 0x00, 0x00, 0x00,
        0xff, 0xff, 0xff, 0xff, 0xff, 0xff, 0xff, 0xff,
        0xbc, 0xe6, 0xfa, 0xad, 0xa7, 0x17, 0x9e, 0x84,
        0xf3, 0xb9, 0xca, 0xc2, 0xfc, 0x63, 0x25, 0x50,
    ];
    proof {
        assert(v@ =~= order_minus_one_seq());
    }
    v
}

fn half_order_bytes() -> (r: Vec<u8>)
    ensures r@ == half_order_seq(),
{
    let v: Vec<u8> = vec![
        0x7f, 0xff, 0xff, 0xff, 0x80, 0x00, 0x00, 0x00,
        0x7f, 0xff, 0xff, 0xff, 0xff, 0xff, 0xff, 0xff,
        0xde, 0x73, 0x7d, 0x56, 0xd3, 0x8b, 0xcf, 0x42,
        0x79, 0xdc, 0xe5, 0x61, 0x7e, 0x31, 0x92, 0xa8,
    ];
    proof {
        assert(v@ =~= half_order_seq());
    }
    v
}

/// Checks that a 32-byte scalar lies strictly between 1 and order - 1.
pub fn scalar_range_ok(x: &[u8]) -> (r: bool)
    requires
        x@.len() == 32,
    ensures
        r == scalar_in_range(x@),
{
    let one = one_bytes();
    let nm1 = order_minus_one_bytes();
    proof {
        lemma_one_seq_val();
        lemma_order_minus_one_seq_val();
    }
    let above_one = be_less(one.as_slice(), x);
    let below_nm1 = be_less(x, nm1.as_slice());
    above_one && below_nm1
}

/// Checks that a 32-byte scalar is at most half the group order.
pub fn low_s_ok(x: &[u8]) -> (r: bool)
    requires
        x@.len() == 32,
    ensures
        r == is_low_s(x@),
{
    let half = half_order_bytes();
    proof {
        lemma_half_order_seq_val();
    }
    !be_less(half.as_slice(), x)
}

} // verus!
