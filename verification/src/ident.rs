//! Token identifiers derived from the position in the chain: the block
//! number and the index of the transaction in its block, hashed together
//! with a fixed seed.

use vstd::prelude::*;
use crate::registry::Pallet;

verus! {

/// The Blake2b digest of 32 bytes of `data`.
pub uninterp spec fn blake2_256_digest(data: Seq<u8>) -> Seq<u8>;

/// The Blake2b digest of 16 bytes of `data`.
pub uninterp spec fn blake2_128_digest(data: Seq<u8>) -> Seq<u8>;

/// Calls `sp_io::hashing::blake2_256`. Trusted: the 32 bytes that come
/// back are a function of the input bytes alone, here named
/// `blake2_256_digest`.
#[verifier::external_body]
fn blake2_256(data: &[u8]) -> (r: [u8; 32])
    ensures
        r@ == blake2_256_digest(data@),
{
    sp_io::hashing::blake2_256(data)
}

/// Calls `sp_io::hashing::blake2_128`. Trusted: the 16 bytes that come
/// back are a function of the input bytes alone, here named
/// `blake2_128_digest`.
#[verifier::external_body]
fn blake2_128(data: &[u8]) -> (r: [u8; 16])
    ensures
        r@ == blake2_128_digest(data@),
{
    sp_io::hashing::blake2_128(data)
}

/// The `width` low bytes of `value`, least significant first.
pub open spec fn le_bytes(value: nat, width: nat) -> Seq<u8>
    decreases width,
{
    if width == 0 {
        Seq::empty()
    } else {
        seq![(value % 256) as u8].add(le_bytes(value / 256, (width - 1) as nat))
    }
}

/// The number that the eight bytes of `bytes` from position `at` on
/// stand for, least significant first.
pub open spec fn le_u64_at(bytes: Seq<u8>, at: int) -> nat {
    (bytes[at] as nat + 256 * (bytes[at + 1] as nat) + 65536 * (bytes[at + 2] as nat) + 16777216
        * (bytes[at + 3] as nat) + 4294967296 * (bytes[at + 4] as nat) + 1099511627776 * (bytes[at
        + 5] as nat) + 281474976710656 * (bytes[at + 6] as nat) + 72057594037927936 * (bytes[at
        + 7] as nat)) as nat
}

/// The number that sixteen bytes stand for, least significant first.
pub open spec fn le_u128(bytes: Seq<u8>) -> nat {
    le_u64_at(bytes, 0) + 18446744073709551616 * le_u64_at(bytes, 8)
}

/// The bytes of the text `random_seed`.
pub open spec fn seed() -> Seq<u8> {
    seq![114u8, 97u8, 110u8, 100u8, 111u8, 109u8, 95u8, 115u8, 101u8, 101u8, 100u8]
}

/// The number drawn for a block: the first eight bytes of the 32-byte
/// digest of the encoded block number followed by the seed.
pub open spec fn spec_random_number(block_number: u32) -> nat {
    le_u64_at(blake2_256_digest(le_bytes(block_number as nat, 4).add(seed())), 0)
}

/// The bytes that are hashed into an identifier: the drawn number, the
/// index of the transaction and the block number, each in its fixed
/// width, least significant byte first.
pub open spec fn id_payload(random: u64, extrinsic_index: u32, block_number: u32) -> Seq<u8> {
    le_bytes(random as nat, 8).add(le_bytes(extrinsic_index as nat, 4)).add(
        le_bytes(block_number as nat, 4),
    )
}

/// The identifier for a transaction: the 16-byte digest of the payload,
/// read as a number.
pub open spec fn spec_unique_id(block_number: u32, extrinsic_index: u32) -> nat {
    le_u128(
        blake2_128_digest(
            id_payload(spec_random_number(block_number) as u64, extrinsic_index, block_number),
        ),
    )
}

/// Appends the `width` low bytes of `value`, least significant first.
pub fn push_le(out: &mut Vec<u8>, value: u64, width: usize)
    ensures
        final(out)@ == old(out)@.add(le_bytes(value as nat, width as nat)),
{
    let ghost start = out@;
    let mut rest: u64 = value;
    let mut i: usize = 0;
    assert(out@.add(le_bytes(rest as nat, width as nat)) == start.add(
        le_bytes(value as nat, width as nat),
    ));
    while i < width
        invariant
            i <= width,
            out@.add(le_bytes(rest as nat, (width - i) as nat)) == start.add(
                le_bytes(value as nat, width as nat),
            ),
        decreases width - i,
    {
        let byte: u8 = (rest % 256) as u8;
        let ghost before = out@;
        let ghost tail = le_bytes((rest / 256) as nat, (width - i - 1) as nat);
        assert(le_bytes(rest as nat, (width - i) as nat) == seq![byte].add(tail));
        out.push(byte);
        assert(out@.add(tail) =~= before.add(seq![byte].add(tail)));
        rest = rest / 256;
        i += 1;
    }
    assert(le_bytes(rest as nat, 0) =~= Seq::<u8>::empty());
    assert(out@.add(Seq::<u8>::empty()) =~= out@);
}

/// Reads eight bytes from position `at` on as a number, least significant
/// byte first.
pub fn read_le_u64<const N: usize>(bytes: &[u8; N], at: usize) -> (r: u64)
    requires
        at + 8 <= N,
    ensures
        r == le_u64_at(bytes@, at as int),
{
    let b0: u64 = bytes[at] as u64;
    let b1: u64 = bytes[at + 1] as u64;
    let b2: u64 = bytes[at + 2] as u64;
    let b3: u64 = bytes[at + 3] as u64;
    let b4: u64 = bytes[at + 4] as u64;
    let b5: u64 = bytes[at + 5] as u64;
    let b6: u64 = bytes[at + 6] as u64;
    let b7: u64 = bytes[at + 7] as u64;
    b0 + 256 * b1 + 65536 * b2 + 16777216 * b3 + 4294967296 * b4 + 1099511627776 * b5
        + 281474976710656 * b6 + 72057594037927936 * b7
}

/// Reads sixteen bytes as a number, least significant byte first.
pub fn read_le_u128(bytes: &[u8; 16]) -> (r: u128)
    ensures
        r == le_u128(bytes@),
{
    let lo: u64 = read_le_u64(bytes, 0);
    let hi: u64 = read_le_u64(bytes, 8);
    lo as u128 + 18446744073709551616 * (hi as u128)
}

impl Pallet {
    /// Draws a number for the block `block_number`.
    pub fn generate_random_number(block_number: u32) -> (r: u64)
        ensures
            r == spec_random_number(block_number),
    {
        let mut input: Vec<u8> = Vec::new();
        push_le(&mut input, block_number as u64, 4);
        let ghost encoded = input@;
        input.push(114u8);
        input.push(97u8);
        input.push(110u8);
        input.push(100u8);
        input.push(111u8);
        input.push(109u8);
        input.push(95u8);
        input.push(115u8);
        input.push(101u8);
        input.push(101u8);
        input.push(100u8);
        assert(input@ =~= encoded.add(seed()));
        assert(encoded =~= le_bytes(block_number as nat, 4));
        let digest: [u8; 32] = blake2_256(input.as_slice());
        read_le_u64(&digest, 0)
    }

    /// Derives the identifier for the transaction at `extrinsic_index` of
    /// the block `block_number`.
    pub fn gen_unique_id(block_number: u32, extrinsic_index: u32) -> (r: u128)
        ensures
            r == spec_unique_id(block_number, extrinsic_index),
    {
        let random: u64 = Self::generate_random_number(block_number);
        let mut payload: Vec<u8> = Vec::new();
        push_le(&mut payload, random, 8);
        push_le(&mut payload, extrinsic_index as u64, 4);
        push_le(&mut payload, block_number as u64, 4);
        assert(payload@ =~= id_payload(random, extrinsic_index, block_number));
        let digest: [u8; 16] = blake2_128(payload.as_slice());
        read_le_u128(&digest)
    }
}

} // verus!
