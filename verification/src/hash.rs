//! The 64-bit FNV-1a hash.
use vstd::prelude::*;
use vstd::wrapping::u64_specs::wrapping_mul;

verus! {

/// The hash of no bytes.
pub const BASIS: u64 = 0xcbf29ce484222325;

/// The multiplier of the hash.
pub const PRIME: u64 = 0x100000001b3;

/// A hash continued over bytes: each byte is combined by exclusive or, then multiplied.
pub open spec fn hash_from(start: u64, bytes: Seq<u8>) -> u64
    decreases bytes.len(),
{
    if bytes.len() == 0 {
        start
    } else {
        wrapping_mul(hash_from(start, bytes.drop_last()) ^ (bytes.last() as u64), PRIME)
    }
}

/// The hash of bytes.
pub open spec fn hash_of(bytes: Seq<u8>) -> u64 {
    hash_from(BASIS, bytes)
}

/// The lowest bytes of a number, the lowest first.
pub open spec fn little_endian(value: nat, bytes: nat) -> Seq<u8>
    decreases bytes,
{
    if bytes == 0 {
        Seq::empty()
    } else {
        seq![(value % 256) as u8] + little_endian(value / 256, (bytes - 1) as nat)
    }
}

/// A hash over two parts is the hash over the one continued over the other.
pub proof fn hash_continues(start: u64, a: Seq<u8>, b: Seq<u8>)
    ensures
        hash_from(start, a + b) == hash_from(hash_from(start, a), b),
    decreases b.len(),
{
    if b.len() == 0 {
        assert(a + b =~= a);
    } else {
        hash_continues(start, a, b.drop_last());
        assert((a + b).drop_last() =~= a + b.drop_last());
    }
}

/// Continues a hash over one byte.
pub fn absorb(hash: u64, byte: u8) -> (r: u64)
    ensures
        r == hash_from(hash, seq![byte]),
{
    proof {
        let one = seq![byte];
        assert(one.drop_last() =~= Seq::<u8>::empty());
        reveal_with_fuel(hash_from, 2);
    }
    (hash ^ (byte as u64)).wrapping_mul(PRIME)
}

/// Continues a hash over bytes.
pub fn absorb_all(hash: u64, bytes: &[u8]) -> (r: u64)
    ensures
        r == hash_from(hash, bytes@),
{
    let mut r: u64 = hash;
    let mut i: usize = 0;
    assert(bytes@.take(0) =~= Seq::<u8>::empty());
    while i < bytes.len()
        invariant
            i <= bytes.len(),
            r == hash_from(hash, bytes@.take(i as int)),
        decreases bytes.len() - i,
    {
        proof {
            hash_continues(hash, bytes@.take(i as int), seq![bytes@[i as int]]);
            assert(bytes@.take(i as int) + seq![bytes@[i as int]] =~= bytes@.take(i + 1));
        }
        r = absorb(r, bytes[i]);
        i += 1;
    }
    assert(bytes@.take(i as int) =~= bytes@);
    r
}

/// Continues a hash over the lowest bytes of a number, the lowest first.
pub fn absorb_number(hash: u64, value: u128, bytes: u8) -> (r: u64)
    ensures
        r == hash_from(hash, little_endian(value as nat, bytes as nat)),
    decreases bytes,
{
    if bytes == 0 {
        hash
    } else {
        let low = (value % 256) as u8;
        proof {
            hash_continues(
                hash,
                seq![low],
                little_endian((value / 256) as nat, (bytes - 1) as nat),
            );
        }
        absorb_number(absorb(hash, low), value / 256, bytes - 1)
    }
}

} // verus!
