//! FNV-1a hashing and little-endian byte encodings, the building blocks of
//! theme fingerprints, texture-cache keys and texture-file headers.

use vstd::prelude::*;

verus! {

/// FNV-1a 64-bit offset basis.
pub const FNV_OFFSET: u64 = 0xcbf29ce484222325;
/// FNV-1a 64-bit prime.
pub const FNV_PRIME: u64 = 0x100000001b3;

/// One FNV-1a step: xor the byte in, multiply by the prime (wrapping).
pub open spec fn fnv_step(h: u64, b: u8) -> u64 {
    (h ^ (b as u64)).wrapping_mul(FNV_PRIME)
}

/// FNV-1a over `bytes`, starting from state `h`.
pub open spec fn fnv_fold(h: u64, bytes: Seq<u8>) -> u64
    decreases bytes.len(),
{
    if bytes.len() == 0 {
        h
    } else {
        fnv_fold(fnv_step(h, bytes[0]), bytes.drop_first())
    }
}

/// Hashing a concatenation is hashing its parts in turn.
pub proof fn lemma_fnv_fold_append(h: u64, a: Seq<u8>, b: Seq<u8>)
    ensures
        fnv_fold(h, a + b) == fnv_fold(fnv_fold(h, a), b),
    decreases a.len(),
{
    if a.len() > 0 {
        assert((a + b).drop_first() =~= a.drop_first() + b);
        lemma_fnv_fold_append(fnv_step(h, a[0]), a.drop_first(), b);
    } else {
        assert(a + b =~= b);
    }
}

/// FNV-1a over `bytes`, continuing from state `h`.
pub fn fnv_update(h: u64, bytes: &[u8]) -> (r: u64)
    ensures
        r == fnv_fold(h, bytes@),
{
    let mut state = h;
    let mut i: usize = 0;
    assert(bytes@.skip(0) =~= bytes@);
    while i < bytes.len()
        invariant
            i <= bytes.len(),
            fnv_fold(h, bytes@) == fnv_fold(state, bytes@.skip(i as int)),
        decreases bytes.len() - i,
    {
        assert(bytes@.skip(i as int).drop_first() =~= bytes@.skip(i as int + 1));
        state = (state ^ (bytes[i] as u64)).wrapping_mul(FNV_PRIME);
        i += 1;
    }
    assert(bytes@.skip(i as int) =~= Seq::<u8>::empty());
    state
}

/// Appends the bytes of `src` to `dst`.
pub fn extend_bytes(dst: &mut Vec<u8>, src: &[u8])
    ensures
        final(dst)@ == old(dst)@ + src@,
{
    let mut i: usize = 0;
    while i < src.len()
        invariant
            i <= src.len(),
            dst@ == old(dst)@ + src@.take(i as int),
        decreases src.len() - i,
    {
        dst.push(src[i]);
        i += 1;
        assert(dst@ =~= old(dst)@ + src@.take(i as int));
    }
    assert(src@.take(src@.len() as int) =~= src@);
}

/// Little-endian bytes of a 32-bit value.
pub open spec fn le4(x: u32) -> Seq<u8> {
    seq![
        (x % 256) as u8,
        ((x / 256) % 256) as u8,
        ((x / 65536) % 256) as u8,
        ((x / 16777216) % 256) as u8,
    ]
}

/// Little-endian bytes of a 64-bit value.
pub open spec fn le8(x: u64) -> Seq<u8> {
    le4((x % 4294967296) as u32) + le4((x / 4294967296) as u32)
}

/// Little-endian bytes of a 32-bit value.
pub fn le_bytes_u32(x: u32) -> (r: Vec<u8>)
    ensures
        r@ == le4(x),
{
    let r = vec![
        (x % 256) as u8,
        ((x / 256) % 256) as u8,
        ((x / 65536) % 256) as u8,
        ((x / 16777216) % 256) as u8,
    ];
    assert(r@ =~= le4(x));
    r
}

/// Little-endian bytes of a 64-bit value.
pub fn le_bytes_u64(x: u64) -> (r: Vec<u8>)
    ensures
        r@ == le8(x),
        r@.len() == 8,
{
    let mut lo = le_bytes_u32((x % 4294967296) as u32);
    let mut hi = le_bytes_u32((x / 4294967296) as u32);
    lo.append(&mut hi);
    lo
}

/// The value whose little-endian encoding is `b` (four bytes).
pub open spec fn from_le4(b: Seq<u8>) -> int {
    b[0] + 256 * b[1] + 65536 * b[2] + 16777216 * b[3]
}

/// The value whose little-endian encoding is `b` (eight bytes).
pub open spec fn from_le8(b: Seq<u8>) -> int {
    from_le4(b.take(4)) + 4294967296 * from_le4(b.skip(4))
}


/// Decoding the little-endian bytes of a 32-bit value gives it back.
pub proof fn lemma_le4_round_trip(x: u32)
    ensures
        from_le4(le4(x)) == x,
{
    let b = le4(x);
    let x0 = x as int;
    assert(b[0] == x0 % 256 && b[1] == (x0 / 256) % 256 && b[2] == (x0 / 65536) % 256 && b[3] == (x0
        / 16777216) % 256);
    assert(x0 % 256 + 256 * ((x0 / 256) % 256) + 65536 * ((x0 / 65536) % 256) + 16777216 * ((x0
        / 16777216) % 256) == x0) by (nonlinear_arith)
        requires
            0 <= x0 < 4294967296,
    ;
}

/// Decoding the little-endian bytes of a 64-bit value gives it back.
pub proof fn lemma_le8_round_trip(x: u64)
    ensures
        from_le8(le8(x)) == x,
{
    let lo = (x % 4294967296) as u32;
    let hi = (x / 4294967296) as u32;
    lemma_le4_round_trip(lo);
    lemma_le4_round_trip(hi);
    assert(le8(x).take(4) =~= le4(lo));
    assert(le8(x).skip(4) =~= le4(hi));
    assert(lo + 4294967296 * hi == x as int) by (nonlinear_arith)
        requires
            lo == x % 4294967296,
            hi == x / 4294967296,
    ;
}

} // verus!
