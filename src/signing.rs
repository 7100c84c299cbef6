use vstd::prelude::*;
use crate::merkle::copy_bytes;
use crate::merkleization::{fork_data_root, hash_tree_root_beacon_header, hash_tree_root_fork_data, hash_tree_root_signing_data, header_ok, header_root, root_result, signing_data_root};
use crate::types::{BeaconHeader, Error};

verus! {

pub const SLOTS_PER_EPOCH: u64 = 32;

pub const EPOCHS_PER_SYNC_COMMITTEE_PERIOD: u64 = 256;

/// The sync-committee period of a slot.
pub open spec fn period_of(slot: u64) -> u64 {
    slot / SLOTS_PER_EPOCH / EPOCHS_PER_SYNC_COMMITTEE_PERIOD
}

/// The domain type of sync-committee signatures, `0x07000000`.
pub open spec fn domain_sync_committee() -> Seq<u8> {
    seq![7u8, 0u8, 0u8, 0u8]
}

/// The fork version used where none is given.
pub open spec fn genesis_fork_version() -> Seq<u8> {
    seq![30u8, 30u8, 30u8, 30u8]
}

/// The domain: the domain type, then the first 28 bytes of the fork-data root.
pub open spec fn domain_of(domain_type: Seq<u8>, fork_version: Seq<u8>, validators_root: Seq<u8>) -> Seq<u8> {
    domain_type + fork_data_root(fork_version, validators_root).subrange(0, 28)
}

/// The message that a sync committee signs for a header under a domain.
pub open spec fn signing_root(h: BeaconHeader, domain: Seq<u8>) -> Seq<u8> {
    signing_data_root(header_root(h), domain)
}

fn four_bytes(a: u8, b: u8, c: u8, d: u8) -> (r: Vec<u8>)
    ensures
        r@ == seq![a, b, c, d],
{
    let mut r: Vec<u8> = Vec::new();
    r.push(a);
    r.push(b);
    r.push(c);
    r.push(d);
    assert(r@ =~= seq![a, b, c, d]);
    r
}

/// The domain type of sync-committee signatures.
pub fn domain_sync_committee_bytes() -> (r: Vec<u8>)
    ensures
        r@ == domain_sync_committee(),
{
    four_bytes(7, 0, 0, 0)
}

/// The fork version used where none is given.
pub fn genesis_fork_version_bytes() -> (r: Vec<u8>)
    ensures
        r@ == genesis_fork_version(),
{
    four_bytes(30, 30, 30, 30)
}

/// The sync-committee period of a slot.
pub fn compute_current_sync_period(slot: u64) -> (r: u64)
    ensures
        r == period_of(slot),
        r == slot / 8192,
{
    slot / SLOTS_PER_EPOCH / EPOCHS_PER_SYNC_COMMITTEE_PERIOD
}

/// The hash-tree-root of the fork data of a version and a validators root.
pub fn compute_fork_data_root(current_version: &Vec<u8>, genesis_validators_root: &Vec<u8>) -> (r: Vec<u8>)
    requires
        current_version@.len() == 4,
        genesis_validators_root@.len() == 32,
    ensures
        r@ == fork_data_root(current_version@, genesis_validators_root@),
        r@.len() == 32,
{
    hash_tree_root_fork_data(current_version, genesis_validators_root)
}

/// The domain for a domain type and a fork version (the genesis version where
/// none is given).
pub fn compute_domain(domain_type: &Vec<u8>, fork_version: Option<&Vec<u8>>, genesis_validators_root: &Vec<u8>) -> (r: Vec<u8>)
    requires
        domain_type@.len() == 4,
        fork_version matches Some(v) ==> v@.len() == 4,
        genesis_validators_root@.len() == 32,
    ensures
        r@ == domain_of(
            domain_type@,
            match fork_version { Some(v) => v@, None => genesis_fork_version() },
            genesis_validators_root@,
        ),
        r@.len() == 32,
{
    let version = match fork_version {
        Some(v) => copy_bytes(v),
        None => genesis_fork_version_bytes(),
    };
    let fork_root = compute_fork_data_root(&version, genesis_validators_root);
    let mut domain = copy_bytes(domain_type);
    for i in 0..28usize
        invariant
            fork_root@.len() == 32,
            domain@ =~= domain_type@ + fork_root@.subrange(0, i as int),
    {
        domain.push(fork_root[i]);
    }
    domain
}

/// The signing root of a header under a domain; `InvalidHash` when the header's
/// roots are not 32 bytes.
pub fn compute_signing_root(beacon_header: &BeaconHeader, domain: &Vec<u8>) -> (r: Result<Vec<u8>, Error>)
    requires
        domain@.len() == 32,
    ensures
        root_result(r, header_ok(*beacon_header), signing_root(*beacon_header, domain@)),
{
    let header_root = hash_tree_root_beacon_header(beacon_header);
    match header_root {
        Ok(root) => Ok(hash_tree_root_signing_data(&root, domain)),
        Err(e) => Err(e),
    }
}

} // verus!
