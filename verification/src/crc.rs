//! CRC-16/CCITT-FALSE (polynomial 0x1021, initial value 0xFFFF, no reflection,
//! no final xor), defined bit by bit as polynomial division over GF(2).

use vstd::prelude::*;

verus! {

/// Initial register value of CRC-16/CCITT-FALSE.
pub const CRC16_INIT: u16 = 0xFFFF;

/// Generator polynomial x^16 + x^12 + x^5 + 1, without its leading term.
pub const CRC16_POLY: u16 = 0x1021;

/// One step of the division: shift the register left by one bit and
/// subtract the polynomial when the bit shifted out was set.
pub open spec fn crc_shift(crc: u16) -> u16 {
    if crc & 0x8000u16 != 0 {
        ((crc << 1u16) ^ 0x1021u16)
    } else {
        crc << 1u16
    }
}

/// `n` division steps.
pub open spec fn crc_shift_n(crc: u16, n: nat) -> u16
    decreases n,
{
    if n == 0 {
        crc
    } else {
        crc_shift(crc_shift_n(crc, (n - 1) as nat))
    }
}

/// Feeds one byte, most significant bit first, into the register.
pub open spec fn crc_feed(crc: u16, b: u8) -> u16 {
    crc_shift_n(crc ^ ((b as u16) << 8u16), 8)
}

/// The register after feeding every byte of `data`, in order, starting from `crc`.
pub open spec fn crc16_from(crc: u16, data: Seq<u8>) -> u16
    decreases data.len(),
{
    if data.len() == 0 {
        crc
    } else {
        crc_feed(crc16_from(crc, data.drop_last()), data.last())
    }
}

/// CRC-16/CCITT-FALSE of `data`.
pub open spec fn crc16(data: Seq<u8>) -> u16 {
    crc16_from(CRC16_INIT, data)
}

/// Computes CRC-16/CCITT-FALSE of `data` (check value of "123456789": 0x29B1).
pub fn crc16_ccitt_false(data: &[u8]) -> (crc: u16)
    ensures
        crc == crc16(data@),
{
    let mut crc: u16 = CRC16_INIT;
    let mut i: usize = 0;
    while i < data.len()
        invariant
            i <= data.len(),
            crc == crc16_from(CRC16_INIT, data@.take(i as int)),
        decreases data.len() - i,
    {
        let b = data[i];
        crc = crc ^ ((b as u16) << 8u16);
        let ghost start = crc;
        let mut k: u32 = 0;
        while k < 8
            invariant
                k <= 8,
                crc == crc_shift_n(start, k as nat),
            decreases 8 - k,
        {
            if crc & 0x8000 != 0 {
                crc = (crc << 1u16) ^ CRC16_POLY;
            } else {
                crc = crc << 1u16;
            }
            k = k + 1;
        }
        assert(data@.take(i + 1).drop_last() =~= data@.take(i as int));
        i = i + 1;
    }
    assert(data@.take(data.len() as int) =~= data@);
    crc
}


/// Eight division steps written out, the form the bit-vector solver reads.
pub open spec fn crc_shift8(c: u16) -> u16 {
    crc_shift(crc_shift(crc_shift(crc_shift(crc_shift(crc_shift(crc_shift(crc_shift(c))))))))
}

/// Bytewise xor of two sequences of the same length.
pub open spec fn xor_bytes(s: Seq<u8>, t: Seq<u8>) -> Seq<u8> {
    Seq::new(s.len(), |i: int| s[i] ^ t[i])
}

/// `n` zero bytes.
pub open spec fn zero_bytes(n: nat) -> Seq<u8> {
    Seq::new(n, |i: int| 0u8)
}

proof fn lemma_shift_linear(a: u16, b: u16)
    by (bit_vector)
    ensures
        crc_shift(a ^ b) == crc_shift(a) ^ crc_shift(b),
{
}

proof fn lemma_shift_kernel(a: u16)
    by (bit_vector)
    ensures
        crc_shift(a) == 0 ==> a == 0,
{
}

proof fn lemma_shift_n_linear(a: u16, b: u16, n: nat)
    ensures
        crc_shift_n(a ^ b, n) == crc_shift_n(a, n) ^ crc_shift_n(b, n),
    decreases n,
{
    if n > 0 {
        lemma_shift_n_linear(a, b, (n - 1) as nat);
        lemma_shift_linear(crc_shift_n(a, (n - 1) as nat), crc_shift_n(b, (n - 1) as nat));
    }
}

proof fn lemma_shift_n_kernel(a: u16, n: nat)
    ensures
        crc_shift_n(a, n) == 0 ==> a == 0,
    decreases n,
{
    if n > 0 {
        lemma_shift_kernel(crc_shift_n(a, (n - 1) as nat));
        lemma_shift_n_kernel(a, (n - 1) as nat);
    }
}

proof fn lemma_shift_eight(c: u16)
    ensures
        crc_shift_n(c, 8) == crc_shift8(c),
{
    reveal_with_fuel(crc_shift_n, 9);
}

/// Feeding a byte is linear over GF(2) in the register and the byte together.
proof fn lemma_feed_linear(a: u16, x: u8, b: u16, y: u8)
    ensures
        crc_feed(a ^ b, x ^ y) == crc_feed(a, x) ^ crc_feed(b, y),
{
    assert((a ^ b) ^ (((x ^ y) as u16) << 8u16) == (a ^ ((x as u16) << 8u16)) ^ (b ^ ((y
        as u16) << 8u16))) by (bit_vector);
    lemma_shift_n_linear(a ^ ((x as u16) << 8u16), b ^ ((y as u16) << 8u16), 8);
}

proof fn lemma_feed_zero_byte_kernel(a: u16)
    ensures
        crc_feed(a, 0) == 0 ==> a == 0,
{
    assert(a ^ ((0u8 as u16) << 8u16) == a) by (bit_vector);
    lemma_shift_n_kernel(a, 8);
}

proof fn lemma_feed_zero_zero()
    ensures
        crc_feed(0, 0) == 0,
{
    assert(0u16 ^ ((0u8 as u16) << 8u16) == 0) by (bit_vector);
    lemma_shift_eight(0);
    assert(crc_shift8(0) == 0) by (bit_vector);
}

/// No two bytes other than two zeros take the zero register back to zero.
proof fn lemma_feed_two_kernel(x: u8, y: u8)
    ensures
        crc_feed(crc_feed(0, x), y) == 0 ==> x == 0 && y == 0,
{
    let r = crc_feed(0, x);
    lemma_shift_eight(0u16 ^ ((x as u16) << 8u16));
    lemma_shift_eight(r ^ ((y as u16) << 8u16));
    lemma_shift_n_kernel(r ^ ((y as u16) << 8u16), 8);
    assert(crc_shift8(0u16 ^ ((x as u16) << 8u16)) == r);
    assert(crc_shift8(0u16 ^ ((x as u16) << 8u16)) ^ ((y as u16) << 8u16) == 0 ==> x == 0 && y
        == 0) by (bit_vector);
}

proof fn lemma_fold_linear(a: u16, b: u16, s: Seq<u8>, t: Seq<u8>)
    requires
        s.len() == t.len(),
    ensures
        crc16_from(a ^ b, xor_bytes(s, t)) == crc16_from(a, s) ^ crc16_from(b, t),
    decreases s.len(),
{
    if s.len() > 0 {
        assert(xor_bytes(s, t).drop_last() =~= xor_bytes(s.drop_last(), t.drop_last()));
        lemma_fold_linear(a, b, s.drop_last(), t.drop_last());
        lemma_feed_linear(crc16_from(a, s.drop_last()), s.last(), crc16_from(b, t.drop_last()), t.last());
    }
}

proof fn lemma_fold_append(c: u16, s: Seq<u8>, t: Seq<u8>)
    ensures
        crc16_from(c, s + t) == crc16_from(crc16_from(c, s), t),
    decreases t.len(),
{
    if t.len() == 0 {
        assert(s + t =~= s);
    } else {
        assert((s + t).drop_last() =~= s + t.drop_last());
        lemma_fold_append(c, s, t.drop_last());
    }
}

proof fn lemma_fold_zeros_from_zero(n: nat)
    ensures
        crc16_from(0, zero_bytes(n)) == 0,
    decreases n,
{
    if n > 0 {
        assert(zero_bytes(n).drop_last() =~= zero_bytes((n - 1) as nat));
        lemma_fold_zeros_from_zero((n - 1) as nat);
        lemma_feed_zero_zero();
    }
}

proof fn lemma_fold_zeros_kernel(a: u16, n: nat)
    ensures
        crc16_from(a, zero_bytes(n)) == 0 ==> a == 0,
    decreases n,
{
    if n > 0 {
        assert(zero_bytes(n).drop_last() =~= zero_bytes((n - 1) as nat));
        lemma_feed_zero_byte_kernel(crc16_from(a, zero_bytes((n - 1) as nat)));
        lemma_fold_zeros_kernel(a, (n - 1) as nat);
    }
}

/// Burst detection: two messages of the same length that differ only within
/// one window of two adjacent bytes never have the same CRC-16/CCITT-FALSE.
pub proof fn lemma_crc16_detects_two_byte_burst(m1: Seq<u8>, m2: Seq<u8>, k: int)
    requires
        m1.len() == m2.len(),
        0 <= k,
        k + 2 <= m1.len(),
        forall|i: int| 0 <= i < m1.len() && i != k && i != k + 1 ==> m1[i] == m2[i],
        m1 != m2,
    ensures
        crc16(m1) != crc16(m2),
{
    let n = m1.len();
    let d = xor_bytes(m1, m2);
    let e1 = m1[k] ^ m2[k];
    let e2 = m1[k + 1] ^ m2[k + 1];
    let head = zero_bytes(k as nat);
    let tail = zero_bytes((n - k - 2) as nat);
    assert forall|i: int| 0 <= i < n && i != k && i != k + 1 implies d[i] == 0u8 by {
        let x = m1[i];
        assert(x ^ x == 0u8) by (bit_vector);
    }
    assert(d =~= head + seq![e1, e2] + tail);
    assert(CRC16_INIT ^ CRC16_INIT == 0u16) by (bit_vector);
    lemma_fold_linear(CRC16_INIT, CRC16_INIT, m1, m2);
    lemma_fold_append(0, head + seq![e1, e2], tail);
    lemma_fold_append(0, head, seq![e1, e2]);
    lemma_fold_zeros_from_zero(k as nat);
    let w = seq![e1, e2];
    assert(w.drop_last() =~= seq![e1]);
    assert(w.drop_last().drop_last() =~= Seq::<u8>::empty());
    let w1 = seq![e1];
    assert(w1.drop_last() =~= Seq::<u8>::empty());
    assert(crc16_from(0, w1.drop_last()) == 0);
    assert(w1.last() == e1);
    assert(crc16_from(0, w1) == crc_feed(0, e1));
    assert(w.drop_last() == w1);
    assert(w.last() == e2);
    let r = crc16_from(0, w);
    assert(r == crc_feed(crc_feed(0, e1), e2));
    lemma_fold_zeros_kernel(r, (n - k - 2) as nat);
    lemma_feed_two_kernel(e1, e2);
    if crc16(m1) == crc16(m2) {
        let c = crc16(m1);
        assert(c ^ c == 0u16) by (bit_vector);
        assert(e1 == 0 && e2 == 0);
        let (a1, b1, a2, b2) = (m1[k], m2[k], m1[k + 1], m2[k + 1]);
        assert(a1 ^ b1 == 0 ==> a1 == b1) by (bit_vector);
        assert(a2 ^ b2 == 0 ==> a2 == b2) by (bit_vector);
        assert(m1 =~= m2);
    }
}


proof fn lemma_feed_value(c: u16, b: u8, r: u16)
    requires
        crc_shift8(c ^ ((b as u16) << 8u16)) == r,
    ensures
        crc_feed(c, b) == r,
{
    lemma_shift_eight(c ^ ((b as u16) << 8u16));
}

/// The division polynomial is CCITT's 0x1021: each step doubles the register
/// modulo 2^16, and xors in 0x1021 exactly when the bit shifted out (bit 15)
/// was set.
pub proof fn lemma_crc_step_uses_ccitt_polynomial(c: u16)
    ensures
        c < 0x8000 ==> crc_shift(c) as int == (c as int * 2) % 0x10000,
        c >= 0x8000 ==> crc_shift(c) == (((c as int * 2) % 0x10000) as u16 ^ 0x1021u16),
{
    assert(c < 0x8000 ==> crc_shift(c) as int == (c as int * 2) % 0x10000) by (bit_vector);
    assert(c >= 0x8000 ==> crc_shift(c) == (((c as int * 2) % 0x10000) as u16 ^ 0x1021u16)) by (bit_vector);
}

/// Known CRC-16/CCITT-FALSE values: the empty message gives the initial
/// 0xFFFF, "A" gives 0xB915, and the standard check string "123456789" gives
/// 0x29B1.
pub proof fn lemma_crc16_known_values()
    ensures
        crc16(Seq::<u8>::empty()) == 0xFFFF,
        crc16(seq![0x41u8]) == 0xB915,
        crc16(seq![0x31u8, 0x32u8, 0x33u8, 0x34u8, 0x35u8, 0x36u8, 0x37u8, 0x38u8, 0x39u8]) == 0x29B1,
{
    let a = seq![0x41u8];
    assert(a.drop_last() =~= Seq::<u8>::empty());
    assert(crc_shift8(0xFFFFu16 ^ ((0x41u8 as u16) << 8u16)) == 0xB915u16) by (bit_vector);
    lemma_feed_value(0xFFFFu16, 0x41u8, 0xB915u16);
    assert(a.last() == 0x41u8);
    assert(crc16_from(CRC16_INIT, a.drop_last()) == 0xFFFFu16);
    let s = seq![0x31u8, 0x32u8, 0x33u8, 0x34u8, 0x35u8, 0x36u8, 0x37u8, 0x38u8, 0x39u8];
    assert(s.take(0) =~= Seq::<u8>::empty());
    assert(crc16_from(CRC16_INIT, s.take(0)) == 0xFFFFu16);
    assert(s.take(1).drop_last() =~= s.take(0));
    assert(s.take(1).last() == 0x31u8);
    assert(crc_shift8(0xFFFFu16 ^ ((0x31u8 as u16) << 8u16)) == 0xC782u16) by (bit_vector);
    lemma_feed_value(0xFFFFu16, 0x31u8, 0xC782u16);
    assert(crc16_from(CRC16_INIT, s.take(1)) == 0xC782u16);
    assert(s.take(2).drop_last() =~= s.take(1));
    assert(s.take(2).last() == 0x32u8);
    assert(crc_shift8(0xC782u16 ^ ((0x32u8 as u16) << 8u16)) == 0x3DBAu16) by (bit_vector);
    lemma_feed_value(0xC782u16, 0x32u8, 0x3DBAu16);
    assert(crc16_from(CRC16_INIT, s.take(2)) == 0x3DBAu16);
    assert(s.take(3).drop_last() =~= s.take(2));
    assert(s.take(3).last() == 0x33u8);
    assert(crc_shift8(0x3DBAu16 ^ ((0x33u8 as u16) << 8u16)) == 0x5BCEu16) by (bit_vector);
    lemma_feed_value(0x3DBAu16, 0x33u8, 0x5BCEu16);
    assert(crc16_from(CRC16_INIT, s.take(3)) == 0x5BCEu16);
    assert(s.take(4).drop_last() =~= s.take(3));
    assert(s.take(4).last() == 0x34u8);
    assert(crc_shift8(0x5BCEu16 ^ ((0x34u8 as u16) << 8u16)) == 0x5349u16) by (bit_vector);
    lemma_feed_value(0x5BCEu16, 0x34u8, 0x5349u16);
    assert(crc16_from(CRC16_INIT, s.take(4)) == 0x5349u16);
    assert(s.take(5).drop_last() =~= s.take(4));
    assert(s.take(5).last() == 0x35u8);
    assert(crc_shift8(0x5349u16 ^ ((0x35u8 as u16) << 8u16)) == 0x4560u16) by (bit_vector);
    lemma_feed_value(0x5349u16, 0x35u8, 0x4560u16);
    assert(crc16_from(CRC16_INIT, s.take(5)) == 0x4560u16);
    assert(s.take(6).drop_last() =~= s.take(5));
    assert(s.take(6).last() == 0x36u8);
    assert(crc_shift8(0x4560u16 ^ ((0x36u8 as u16) << 8u16)) == 0x2EF4u16) by (bit_vector);
    lemma_feed_value(0x4560u16, 0x36u8, 0x2EF4u16);
    assert(crc16_from(CRC16_INIT, s.take(6)) == 0x2EF4u16);
    assert(s.take(7).drop_last() =~= s.take(6));
    assert(s.take(7).last() == 0x37u8);
    assert(crc_shift8(0x2EF4u16 ^ ((0x37u8 as u16) << 8u16)) == 0x7718u16) by (bit_vector);
    lemma_feed_value(0x2EF4u16, 0x37u8, 0x7718u16);
    assert(crc16_from(CRC16_INIT, s.take(7)) == 0x7718u16);
    assert(s.take(8).drop_last() =~= s.take(7));
    assert(s.take(8).last() == 0x38u8);
    assert(crc_shift8(0x7718u16 ^ ((0x38u8 as u16) << 8u16)) == 0xA12Bu16) by (bit_vector);
    lemma_feed_value(0x7718u16, 0x38u8, 0xA12Bu16);
    assert(crc16_from(CRC16_INIT, s.take(8)) == 0xA12Bu16);
    assert(s.take(9).drop_last() =~= s.take(8));
    assert(s.take(9).last() == 0x39u8);
    assert(crc_shift8(0xA12Bu16 ^ ((0x39u8 as u16) << 8u16)) == 0x29B1u16) by (bit_vector);
    lemma_feed_value(0xA12Bu16, 0x39u8, 0x29B1u16);
    assert(crc16_from(CRC16_INIT, s.take(9)) == 0x29B1u16);
    assert(s.take(9) =~= s);
}

} // verus!
