//! CRC-16/XMODEM checksum: polynomial 0x1021, initial value 0, MSB first,
//! no final XOR. Every frame and every reassembled block carries this
//! checksum over its body, so the whole protocol rests on it.

use vstd::prelude::*;

verus! {

/// One shift of the MSB-first polynomial division: shift the register left
/// and fold the polynomial in when a one bit falls out.
pub open spec fn crc_step(c: u16) -> u16 {
    if c & 0x8000 != 0 {
        (c << 1) ^ 0x1021
    } else {
        c << 1
    }
}

/// `crc_step` applied `n` times.
pub open spec fn crc_steps(c: u16, n: nat) -> u16
    decreases n,
{
    if n == 0 {
        c
    } else {
        crc_step(crc_steps(c, (n - 1) as nat))
    }
}

/// Folding one input byte into the register: xor it into the top byte,
/// then divide for eight bit positions.
pub open spec fn crc_push_byte(c: u16, b: u8) -> u16 {
    crc_steps(c ^ ((b as u16) << 8), 8)
}

/// The checksum of a whole byte sequence, starting from register value 0.
pub open spec fn crc16(s: Seq<u8>) -> u16
    decreases s.len(),
{
    if s.len() == 0 {
        0
    } else {
        crc_push_byte(crc16(s.drop_last()), s.last())
    }
}

/// High byte of a checksum, as it appears on the wire (big-endian).
pub open spec fn crc_hi(c: u16) -> u8 {
    (c >> 8) as u8
}

/// Low byte of a checksum, as it appears on the wire (big-endian).
pub open spec fn crc_lo(c: u16) -> u8 {
    c as u8
}

/// The checksum of the empty sequence is the initial register value.
pub proof fn lemma_crc16_empty()
    ensures
        crc16(Seq::<u8>::empty()) == 0,
{
}

/// Splitting a checksum into its two wire bytes and rejoining them
/// big-endian gives the checksum back.
pub proof fn lemma_crc_split_join(c: u16)
    ensures
        (((crc_hi(c) as u16) << 8) | (crc_lo(c) as u16)) == c,
{
    assert((((((c >> 8) as u8) as u16) << 8) | ((c as u8) as u16)) == c) by (bit_vector);
}

/// The polynomial-division step distributes over xor.
proof fn lemma_crc_step_linear(x: u16, y: u16)
    ensures
        crc_step(x ^ y) == crc_step(x) ^ crc_step(y),
{
    assert(crc_step(x ^ y) == crc_step(x) ^ crc_step(y)) by (bit_vector);
}

/// The polynomial-division step maps only zero to zero.
proof fn lemma_crc_step_zero(x: u16)
    ensures
        crc_step(x) == 0 ==> x == 0,
{
    assert(crc_step(x) == 0 ==> x == 0) by (bit_vector);
}

/// Iterated polynomial division distributes over xor.
proof fn lemma_crc_steps_linear(x: u16, y: u16, n: nat)
    ensures
        crc_steps(x ^ y, n) == crc_steps(x, n) ^ crc_steps(y, n),
    decreases n,
{
    if n != 0 {
        lemma_crc_steps_linear(x, y, (n - 1) as nat);
        lemma_crc_step_linear(crc_steps(x, (n - 1) as nat), crc_steps(y, (n - 1) as nat));
    }
}

/// Iterated polynomial division never collapses a nonzero register to zero.
proof fn lemma_crc_steps_nonzero(x: u16, n: nat)
    ensures
        x != 0 ==> crc_steps(x, n) != 0,
    decreases n,
{
    if n != 0 {
        lemma_crc_steps_nonzero(x, (n - 1) as nat);
        lemma_crc_step_zero(crc_steps(x, (n - 1) as nat));
    }
}

/// Feeding the same byte into two different registers keeps their
/// difference: the registers after differ by the divided xor of the
/// registers before.
proof fn lemma_crc_push_byte_diff(c1: u16, c2: u16, b: u8)
    ensures
        crc_push_byte(c1, b) ^ crc_push_byte(c2, b) == crc_steps(c1 ^ c2, 8),
{
    let t = (b as u16) << 8;
    assert((c1 ^ t) ^ (c2 ^ t) == c1 ^ c2) by (bit_vector);
    lemma_crc_steps_linear(c1 ^ t, c2 ^ t, 8);
}

/// Feeding two different bytes into the same register yields two
/// different registers.
proof fn lemma_crc_push_byte_injective(c: u16, b1: u8, b2: u8)
    ensures
        b1 != b2 ==> crc_push_byte(c, b1) != crc_push_byte(c, b2),
{
    if b1 != b2 {
        let t1 = (b1 as u16) << 8;
        let t2 = (b2 as u16) << 8;
        assert((c ^ t1) ^ (c ^ t2) == t1 ^ t2) by (bit_vector);
        assert(t1 ^ t2 != 0) by (bit_vector)
            requires
                b1 != b2,
                t1 == (b1 as u16) << 8,
                t2 == (b2 as u16) << 8,
        ;
        lemma_crc_steps_linear(c ^ t1, c ^ t2, 8);
        lemma_crc_steps_nonzero(t1 ^ t2, 8);
        let p1 = crc_push_byte(c, b1);
        let p2 = crc_push_byte(c, b2);
        assert(p1 ^ p1 == 0) by (bit_vector);
    }
}

/// Error detection: two byte sequences of the same length that differ in
/// exactly one byte never share a checksum. In particular flipping any
/// single bit anywhere in the input changes the checksum.
pub proof fn lemma_crc16_detects_single_byte_change(s1: Seq<u8>, s2: Seq<u8>, i: int)
    requires
        s1.len() == s2.len(),
        0 <= i < s1.len(),
        s1[i] != s2[i],
        forall|j: int| 0 <= j < s1.len() && j != i ==> s1[j] == s2[j],
    ensures
        crc16(s1) != crc16(s2),
    decreases s1.len(),
{
    if i == s1.len() - 1 {
        assert(s1.drop_last() =~= s2.drop_last());
        lemma_crc_push_byte_injective(crc16(s1.drop_last()), s1.last(), s2.last());
    } else {
        let d1 = s1.drop_last();
        let d2 = s2.drop_last();
        assert(forall|j: int| 0 <= j < d1.len() && j != i ==> d1[j] == d2[j]);
        lemma_crc16_detects_single_byte_change(d1, d2, i);
        let c1 = crc16(d1);
        let c2 = crc16(d2);
        lemma_crc_push_byte_diff(c1, c2, s1.last());
        assert(c1 ^ c2 != 0) by (bit_vector)
            requires
                c1 != c2,
        ;
        lemma_crc_steps_nonzero(c1 ^ c2, 8);
        let p1 = crc_push_byte(c1, s1.last());
        let p2 = crc_push_byte(c2, s2.last());
        assert(s1.last() == s2.last());
        assert(p1 ^ p1 == 0) by (bit_vector);
        assert(crc16(s1) == p1);
        assert(crc16(s2) == p2);
    }
}

/// Computes the CRC-16/XMODEM checksum of `data`.
pub fn compute_crc16(data: &[u8]) -> (r: u16)
    ensures
        r == crc16(data@),
{
    let n: usize = data.len();
    let mut c: u16 = 0;
    for i in 0..n
        invariant
            n == data@.len(),
            c == crc16(data@.subrange(0, i as int)),
    {
        let b: u8 = data[i];
        let mut x: u16 = c ^ ((b as u16) << 8);
        let ghost x0: u16 = x;
        for k in 0..8usize
            invariant
                x == crc_steps(x0, k as nat),
        {
            x = if x & 0x8000 != 0 {
                (x << 1) ^ 0x1021
            } else {
                x << 1
            };
            assert(x == crc_step(crc_steps(x0, k as nat)));
            assert(crc_steps(x0, (k + 1) as nat) == crc_step(crc_steps(x0, k as nat)));
        }
        assert(x == crc_push_byte(c, b));
        proof {
            let s1 = data@.subrange(0, i + 1);
            assert(s1.drop_last() =~= data@.subrange(0, i as int));
            assert(s1.last() == data@[i as int]);
        }
        c = x;
    }
    assert(data@.subrange(0, n as int) =~= data@);
    c
}

/// The checksum of `data` split into its two wire bytes, high byte first.
pub fn compute_crc(data: &[u8]) -> (r: [u8; 2])
    ensures
        r@ == seq![crc_hi(crc16(data@)), crc_lo(crc16(data@))],
{
    let c: u16 = compute_crc16(data);
    let r: [u8; 2] = [(c >> 8) as u8, c as u8];
    assert(r@ =~= seq![crc_hi(crc16(data@)), crc_lo(crc16(data@))]);
    r
}

} // verus!
