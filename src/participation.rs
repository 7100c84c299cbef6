use vstd::prelude::*;
use crate::merkle::copy_bytes;
use crate::types::Error;

verus! {

/// Bytes of the packed participation bitfield: one bit for each of 512 members.
pub const SYNC_COMMITTEE_BITS_BYTES: usize = 64;

/// A packed bitfield read out bit by bit, lowest bit of each byte first.
pub open spec fn unpack_bits(b: Seq<u8>) -> Seq<u8> {
    Seq::new(8 * b.len(), |i: int| (b[i / 8] >> ((i % 8) as u8)) & 1u8)
}

/// The sum of a sequence of bytes.
pub open spec fn bit_sum(bits: Seq<u8>) -> int
    decreases bits.len(),
{
    if bits.len() == 0 {
        0
    } else {
        bit_sum(bits.drop_last()) + bits.last()
    }
}

/// At least two thirds of the committee took part.
pub open spec fn is_supermajority(bits: Seq<u8>) -> bool {
    bit_sum(bits) * 3 >= bits.len() * 2
}

/// The keys whose participation bit is 1, in committee order; pairs bits and
/// keys up to the shorter of the two.
pub open spec fn participants(bits: Seq<u8>, keys: Seq<Vec<u8>>, n: nat) -> Seq<Seq<u8>>
    decreases n,
{
    if n == 0 {
        Seq::empty()
    } else {
        let rest = participants(bits, keys, (n - 1) as nat);
        if bits[n - 1] == 1 {
            rest.push(keys[n - 1]@)
        } else {
            rest
        }
    }
}

/// The participants of a committee under a bit vector.
pub open spec fn participant_keys(bits: Seq<u8>, keys: Seq<Vec<u8>>) -> Seq<Seq<u8>> {
    participants(bits, keys, if bits.len() < keys.len() { bits.len() } else { keys.len() })
}

/// Unpacks the 64-byte participation bitfield into 512 bits; `InvalidHash` for any
/// other length.
pub fn get_sync_committee_bits(packed: &Vec<u8>) -> (r: Result<Vec<u8>, Error>)
    ensures
        match r {
            Ok(bits) => packed@.len() == SYNC_COMMITTEE_BITS_BYTES && bits@ == unpack_bits(packed@),
            Err(e) => packed@.len() != SYNC_COMMITTEE_BITS_BYTES && e == Error::InvalidHash,
        },
{
    if packed.len() != SYNC_COMMITTEE_BITS_BYTES {
        return Err(Error::InvalidHash);
    }
    let mut bits: Vec<u8> = Vec::new();
    for i in 0..8 * SYNC_COMMITTEE_BITS_BYTES
        invariant
            packed@.len() == SYNC_COMMITTEE_BITS_BYTES,
            bits@ =~= unpack_bits(packed@).subrange(0, i as int),
    {
        bits.push((packed[i / 8] >> ((i % 8) as u8)) & 1u8);
    }
    Ok(bits)
}

/// Sums the bit vector of sync committee participation.
pub fn get_sync_committee_sum(bits: &Vec<u8>) -> (r: u64)
    requires
        bits@.len() <= u64::MAX / 255,
    ensures
        r == bit_sum(bits@),
{
    let mut sum: u64 = 0;
    for i in 0..bits.len()
        invariant
            bits@.len() <= u64::MAX / 255,
            sum == bit_sum(bits@.subrange(0, i as int)),
            sum <= 255 * i,
    {
        assert(bits@.subrange(0, i + 1).drop_last() =~= bits@.subrange(0, i as int));
        sum = sum + bits[i] as u64;
    }
    assert(bits@.subrange(0, bits@.len() as int) =~= bits@);
    sum
}

/// Succeeds when at least two thirds of the committee took part:
/// `sum * 3 >= len * 2`.
pub fn sync_committee_participation_is_supermajority(bits: &Vec<u8>) -> (r: Result<(), Error>)
    requires
        bits@.len() <= u64::MAX / 765,
    ensures
        r is Ok <==> is_supermajority(bits@),
        r matches Err(e) ==> e == Error::SyncCommitteeParticipantsNotSupermajority,
{
    let sum = get_sync_committee_sum(bits);
    assert(sum <= 255 * bits@.len()) by {
        lemma_bit_sum_bound(bits@);
    }
    if sum * 3 >= bits.len() as u64 * 2 {
        Ok(())
    } else {
        Err(Error::SyncCommitteeParticipantsNotSupermajority)
    }
}

proof fn lemma_bit_sum_bound(bits: Seq<u8>)
    ensures
        0 <= bit_sum(bits) <= 255 * bits.len(),
    decreases bits.len(),
{
    if bits.len() > 0 {
        lemma_bit_sum_bound(bits.drop_last());
    }
}

/// The public keys of the members whose bit is 1, in committee order.
pub fn participant_pubkeys(bits: &Vec<u8>, pubkeys: &Vec<Vec<u8>>) -> (r: Vec<Vec<u8>>)
    ensures
        crate::merkle::views(r@) == participant_keys(bits@, pubkeys@),
{
    let n: usize = if bits.len() < pubkeys.len() { bits.len() } else { pubkeys.len() };
    let mut out: Vec<Vec<u8>> = Vec::new();
    for i in 0..n
        invariant
            n <= bits@.len(),
            n <= pubkeys@.len(),
            crate::merkle::views(out@) == participants(bits@, pubkeys@, i as nat),
    {
        if bits[i] == 1u8 {
            let ghost prev = crate::merkle::views(out@);
            out.push(copy_bytes(&pubkeys[i]));
            assert(crate::merkle::views(out@) =~= prev.push(pubkeys@[i as int]@));
        }
    }
    out
}

} // verus!
