use vstd::prelude::*;
use crate::merkle::{copy_bytes, views};
use crate::ssz::{bytes_root, fixed_bytes_root, is_pow2, merkleize, merkleize_chunks, mix_in_length, u64_chunk, u64_to_chunk};
use crate::hashing::hash_pair_bytes;
use crate::types::{BeaconBlockBody, BeaconHeader, Error, ExecutionHeader, SyncCommittee};

verus! {

/// Number of members of a sync committee.
pub const SYNC_COMMITTEE_SIZE: usize = 512;

/// Length of a BLS public key in bytes.
pub const PUBKEY_LEN: usize = 48;

/// Most bytes an execution header's extra data may hold.
pub const MAX_EXTRA_DATA_BYTES: usize = 32;

/// The outcome of a hash-tree-root computation: the root when the value is well
/// formed, `InvalidHash` when it is not.
pub open spec fn root_result(r: Result<Vec<u8>, Error>, ok: bool, root: Seq<u8>) -> bool {
    match r {
        Ok(v) => ok && v@ == root && v@.len() == 32,
        Err(e) => !ok && e == Error::InvalidHash,
    }
}

/// The header's roots are 32 bytes each.
pub open spec fn header_ok(h: BeaconHeader) -> bool {
    h.parent_root@.len() == 32 && h.state_root@.len() == 32 && h.body_root@.len() == 32
}

/// The hash-tree-root of a beacon header.
pub open spec fn header_root(h: BeaconHeader) -> Seq<u8> {
    merkleize(
        seq![u64_chunk(h.slot), u64_chunk(h.proposer_index), h.parent_root@, h.state_root@, h.body_root@],
        8,
    )
}

/// The root of a 48-byte public key.
pub open spec fn pubkey_root(pk: Seq<u8>) -> Seq<u8> {
    bytes_root(pk, 2)
}

/// The roots of a sequence of public keys.
pub open spec fn pubkey_roots(pks: Seq<Vec<u8>>) -> Seq<Seq<u8>> {
    Seq::new(pks.len(), |i: int| pubkey_root(pks[i]@))
}

/// The committee holds 512 keys, and every key is 48 bytes long.
pub open spec fn committee_ok(c: SyncCommittee) -> bool {
    &&& c.pubkeys@.len() == SYNC_COMMITTEE_SIZE
    &&& forall|i: int| 0 <= i < c.pubkeys@.len() ==> (#[trigger] c.pubkeys@[i]@).len() == PUBKEY_LEN
    &&& c.aggregate_pubkey@.len() == PUBKEY_LEN
}

/// The hash-tree-root of a sync committee.
pub open spec fn committee_root(c: SyncCommittee) -> Seq<u8> {
    merkleize(seq![merkleize(pubkey_roots(c.pubkeys@), 512), pubkey_root(c.aggregate_pubkey@)], 2)
}

/// The hash-tree-root of fork data: a 4-byte version and the validators root.
pub open spec fn fork_data_root(version: Seq<u8>, validators_root: Seq<u8>) -> Seq<u8> {
    merkleize(seq![bytes_root(version, 1), validators_root], 2)
}

/// The hash-tree-root of signing data: an object root and a domain.
pub open spec fn signing_data_root(object_root: Seq<u8>, domain: Seq<u8>) -> Seq<u8> {
    merkleize(seq![object_root, domain], 2)
}

/// The execution header's fields have their fixed sizes, and its extra data fits.
pub open spec fn execution_ok(p: ExecutionHeader) -> bool {
    &&& p.parent_hash@.len() == 32
    &&& p.fee_recipient@.len() == 20
    &&& p.state_root@.len() == 32
    &&& p.receipts_root@.len() == 32
    &&& p.logs_bloom@.len() == 256
    &&& p.prev_randao@.len() == 32
    &&& p.extra_data@.len() <= MAX_EXTRA_DATA_BYTES
    &&& p.base_fee_per_gas@.len() == 32
    &&& p.block_hash@.len() == 32
    &&& p.transactions_root@.len() == 32
}

/// The hash-tree-root of an execution header.
pub open spec fn execution_root(p: ExecutionHeader) -> Seq<u8> {
    merkleize(
        seq![
            p.parent_hash@,
            bytes_root(p.fee_recipient@, 1),
            p.state_root@,
            p.receipts_root@,
            bytes_root(p.logs_bloom@, 8),
            p.prev_randao@,
            u64_chunk(p.block_number),
            u64_chunk(p.gas_limit),
            u64_chunk(p.gas_used),
            u64_chunk(p.timestamp),
            mix_in_length(bytes_root(p.extra_data@, 1), p.extra_data@.len() as u64),
            p.base_fee_per_gas@,
            p.block_hash@,
            p.transactions_root@,
        ],
        16,
    )
}

/// The body's fields have their fixed sizes, and its payload is well formed.
pub open spec fn body_ok(b: BeaconBlockBody) -> bool {
    &&& b.randao_reveal@.len() == 96
    &&& b.eth1_data_root@.len() == 32
    &&& b.graffiti@.len() == 32
    &&& b.proposer_slashings_root@.len() == 32
    &&& b.attester_slashings_root@.len() == 32
    &&& b.attestations_root@.len() == 32
    &&& b.deposits_root@.len() == 32
    &&& b.voluntary_exits_root@.len() == 32
    &&& b.sync_aggregate_root@.len() == 32
    &&& execution_ok(b.execution_payload)
}

/// The hash-tree-root of a beacon block body.
pub open spec fn body_root(b: BeaconBlockBody) -> Seq<u8> {
    merkleize(
        seq![
            bytes_root(b.randao_reveal@, 4),
            b.eth1_data_root@,
            b.graffiti@,
            b.proposer_slashings_root@,
            b.attester_slashings_root@,
            b.attestations_root@,
            b.deposits_root@,
            b.voluntary_exits_root@,
            b.sync_aggregate_root@,
            execution_root(b.execution_payload),
        ],
        16,
    )
}

proof fn lemma_pow2_widths()
    ensures
        is_pow2(1),
        is_pow2(2),
        is_pow2(4),
        is_pow2(8),
        is_pow2(16),
        is_pow2(512),
{
    reveal_with_fuel(is_pow2, 10);
}

/// The hash-tree-root of a beacon header; `InvalidHash` when a root is not 32 bytes.
pub fn hash_tree_root_beacon_header(h: &BeaconHeader) -> (r: Result<Vec<u8>, Error>)
    ensures
        root_result(r, header_ok(*h), header_root(*h)),
{
    if h.parent_root.len() != 32 || h.state_root.len() != 32 || h.body_root.len() != 32 {
        return Err(Error::InvalidHash);
    }
    let mut fields: Vec<Vec<u8>> = Vec::new();
    fields.push(u64_to_chunk(h.slot));
    fields.push(u64_to_chunk(h.proposer_index));
    fields.push(copy_bytes(&h.parent_root));
    fields.push(copy_bytes(&h.state_root));
    fields.push(copy_bytes(&h.body_root));
    assert(views(fields@) =~= seq![u64_chunk(h.slot), u64_chunk(h.proposer_index), h.parent_root@, h.state_root@, h.body_root@]);
    proof { lemma_pow2_widths(); }
    Ok(merkleize_chunks(fields, 8))
}

/// The hash-tree-root of a sync committee; `InvalidHash` unless it holds 512 keys
/// and every key is 48 bytes long.
pub fn hash_tree_root_sync_committee(c: &SyncCommittee) -> (r: Result<Vec<u8>, Error>)
    ensures
        root_result(r, committee_ok(*c), committee_root(*c)),
{
    proof { lemma_pow2_widths(); }
    if c.pubkeys.len() != SYNC_COMMITTEE_SIZE || c.aggregate_pubkey.len() != PUBKEY_LEN {
        return Err(Error::InvalidHash);
    }
    let mut roots: Vec<Vec<u8>> = Vec::new();
    for i in 0..c.pubkeys.len()
        invariant
            c.pubkeys@.len() == SYNC_COMMITTEE_SIZE,
            is_pow2(2),
            forall|j: int| 0 <= j < i ==> (#[trigger] c.pubkeys@[j]@).len() == PUBKEY_LEN,
            views(roots@) == pubkey_roots(c.pubkeys@).subrange(0, i as int),
            forall|j: int| 0 <= j < roots@.len() ==> (#[trigger] roots@[j]@).len() == 32,
    {
        if c.pubkeys[i].len() != PUBKEY_LEN {
            assert(!committee_ok(*c));
            return Err(Error::InvalidHash);
        }
        let root = fixed_bytes_root(&c.pubkeys[i], 2);
        let ghost prev = views(roots@);
        roots.push(root);
        assert(views(roots@) =~= prev.push(pubkey_roots(c.pubkeys@)[i as int]));
        assert(views(roots@) =~= pubkey_roots(c.pubkeys@).subrange(0, i + 1));
    }
    assert(views(roots@) =~= pubkey_roots(c.pubkeys@));
    let keys_root = merkleize_chunks(roots, 512);
    let agg_root = fixed_bytes_root(&c.aggregate_pubkey, 2);
    let mut fields: Vec<Vec<u8>> = Vec::new();
    fields.push(keys_root);
    fields.push(agg_root);
    assert(views(fields@) =~= seq![merkleize(pubkey_roots(c.pubkeys@), 512), pubkey_root(c.aggregate_pubkey@)]);
    Ok(merkleize_chunks(fields, 2))
}

/// The hash-tree-root of fork data.
pub fn hash_tree_root_fork_data(version: &Vec<u8>, validators_root: &Vec<u8>) -> (r: Vec<u8>)
    requires
        version@.len() == 4,
        validators_root@.len() == 32,
    ensures
        r@ == fork_data_root(version@, validators_root@),
        r@.len() == 32,
{
    proof { lemma_pow2_widths(); }
    let mut fields: Vec<Vec<u8>> = Vec::new();
    fields.push(fixed_bytes_root(version, 1));
    fields.push(copy_bytes(validators_root));
    assert(views(fields@) =~= seq![bytes_root(version@, 1), validators_root@]);
    merkleize_chunks(fields, 2)
}

/// The hash-tree-root of signing data.
pub fn hash_tree_root_signing_data(object_root: &Vec<u8>, domain: &Vec<u8>) -> (r: Vec<u8>)
    requires
        object_root@.len() == 32,
        domain@.len() == 32,
    ensures
        r@ == signing_data_root(object_root@, domain@),
        r@.len() == 32,
{
    proof { lemma_pow2_widths(); }
    let mut fields: Vec<Vec<u8>> = Vec::new();
    fields.push(copy_bytes(object_root));
    fields.push(copy_bytes(domain));
    assert(views(fields@) =~= seq![object_root@, domain@]);
    merkleize_chunks(fields, 2)
}

/// The hash-tree-root of an execution header; `InvalidHash` when a field has the
/// wrong size.
pub fn hash_tree_root_execution_header(p: &ExecutionHeader) -> (r: Result<Vec<u8>, Error>)
    ensures
        root_result(r, execution_ok(*p), execution_root(*p)),
{
    proof { lemma_pow2_widths(); }
    if p.parent_hash.len() != 32 || p.fee_recipient.len() != 20 || p.state_root.len() != 32
        || p.receipts_root.len() != 32 || p.logs_bloom.len() != 256 || p.prev_randao.len() != 32
        || p.extra_data.len() > MAX_EXTRA_DATA_BYTES || p.base_fee_per_gas.len() != 32
        || p.block_hash.len() != 32 || p.transactions_root.len() != 32 {
        return Err(Error::InvalidHash);
    }
    let extra_root = fixed_bytes_root(&p.extra_data, 1);
    let extra_len = u64_to_chunk(p.extra_data.len() as u64);
    let extra = hash_pair_bytes(&extra_root, &extra_len);
    let mut fields: Vec<Vec<u8>> = Vec::new();
    fields.push(copy_bytes(&p.parent_hash));
    fields.push(fixed_bytes_root(&p.fee_recipient, 1));
    fields.push(copy_bytes(&p.state_root));
    fields.push(copy_bytes(&p.receipts_root));
    fields.push(fixed_bytes_root(&p.logs_bloom, 8));
    fields.push(copy_bytes(&p.prev_randao));
    fields.push(u64_to_chunk(p.block_number));
    fields.push(u64_to_chunk(p.gas_limit));
    fields.push(u64_to_chunk(p.gas_used));
    fields.push(u64_to_chunk(p.timestamp));
    fields.push(extra);
    fields.push(copy_bytes(&p.base_fee_per_gas));
    fields.push(copy_bytes(&p.block_hash));
    fields.push(copy_bytes(&p.transactions_root));
    assert(views(fields@) =~= seq![
        p.parent_hash@,
        bytes_root(p.fee_recipient@, 1),
        p.state_root@,
        p.receipts_root@,
        bytes_root(p.logs_bloom@, 8),
        p.prev_randao@,
        u64_chunk(p.block_number),
        u64_chunk(p.gas_limit),
        u64_chunk(p.gas_used),
        u64_chunk(p.timestamp),
        mix_in_length(bytes_root(p.extra_data@, 1), p.extra_data@.len() as u64),
        p.base_fee_per_gas@,
        p.block_hash@,
        p.transactions_root@,
    ]);
    Ok(merkleize_chunks(fields, 16))
}

/// The hash-tree-root of a beacon block body; `InvalidHash` when a field has the
/// wrong size.
pub fn hash_tree_root_beacon_body(b: &BeaconBlockBody) -> (r: Result<Vec<u8>, Error>)
    ensures
        root_result(r, body_ok(*b), body_root(*b)),
{
    proof { lemma_pow2_widths(); }
    let payload = hash_tree_root_execution_header(&b.execution_payload);
    let payload_root = match payload {
        Ok(v) => v,
        Err(e) => { return Err(e); },
    };
    if b.randao_reveal.len() != 96 || b.eth1_data_root.len() != 32 || b.graffiti.len() != 32
        || b.proposer_slashings_root.len() != 32 || b.attester_slashings_root.len() != 32
        || b.attestations_root.len() != 32 || b.deposits_root.len() != 32
        || b.voluntary_exits_root.len() != 32 || b.sync_aggregate_root.len() != 32 {
        return Err(Error::InvalidHash);
    }
    let mut fields: Vec<Vec<u8>> = Vec::new();
    fields.push(fixed_bytes_root(&b.randao_reveal, 4));
    fields.push(copy_bytes(&b.eth1_data_root));
    fields.push(copy_bytes(&b.graffiti));
    fields.push(copy_bytes(&b.proposer_slashings_root));
    fields.push(copy_bytes(&b.attester_slashings_root));
    fields.push(copy_bytes(&b.attestations_root));
    fields.push(copy_bytes(&b.deposits_root));
    fields.push(copy_bytes(&b.voluntary_exits_root));
    fields.push(copy_bytes(&b.sync_aggregate_root));
    fields.push(payload_root);
    assert(views(fields@) =~= seq![
        bytes_root(b.randao_reveal@, 4),
        b.eth1_data_root@,
        b.graffiti@,
        b.proposer_slashings_root@,
        b.attester_slashings_root@,
        b.attestations_root@,
        b.deposits_root@,
        b.voluntary_exits_root@,
        b.sync_aggregate_root@,
        execution_root(b.execution_payload),
    ]);
    Ok(merkleize_chunks(fields, 16))
}

} // verus!
