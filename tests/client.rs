use beacon_client::{
    block_header, check_signature, compute_domain, compute_signing_root, hash_tree_root_beacon_header,
    hash_tree_root_sync_committee, BeaconBlock, BeaconBlockBody, BeaconHeader, BlockUpdate, Error,
    ExecutionHeader, FinalizedHeaderUpdate, InitialSync, Pallet, SignatureCheck, SyncAggregate,
    SyncCommittee, SyncCommitteePeriodUpdate,
};

const PERIOD: u64 = 3;

fn sha(a: &[u8], b: &[u8]) -> Vec<u8> {
    let mut d = a.to_vec();
    d.extend_from_slice(b);
    sp_io::hashing::sha2_256(&d).to_vec()
}

fn fold(leaf: &[u8], branch: &[Vec<u8>], index: u64) -> Vec<u8> {
    let mut v = leaf.to_vec();
    for (i, sib) in branch.iter().enumerate() {
        if (index >> i) & 1 == 0 {
            v = sha(&v, sib);
        } else {
            v = sha(sib, &v);
        }
    }
    v
}

fn word(seed: u8) -> Vec<u8> {
    (0..32u8).map(|i| i.wrapping_mul(17).wrapping_add(seed)).collect()
}

fn branch(seed: u8, depth: u8) -> Vec<Vec<u8>> {
    (0..depth).map(|i| word(seed.wrapping_add(i))).collect()
}

fn committee(seed: u8) -> SyncCommittee {
    SyncCommittee {
        pubkeys: (0..512u32).map(|i| vec![(i as u8).wrapping_mul(3).wrapping_add(seed); 48]).collect(),
        aggregate_pubkey: vec![seed; 48],
    }
}

fn validators_root() -> Vec<u8> {
    word(200)
}

fn initial_sync_fixture() -> InitialSync {
    let c = committee(1);
    let b = branch(10, 5);
    let state_root = fold(&hash_tree_root_sync_committee(&c).unwrap(), &b, 22);
    InitialSync {
        header: BeaconHeader {
            slot: PERIOD * 8192 + 5,
            proposer_index: 11,
            parent_root: word(1),
            state_root,
            body_root: word(2),
        },
        current_sync_committee: c,
        current_sync_committee_branch: b,
        validators_root: validators_root(),
    }
}

fn synced() -> Pallet {
    let mut p = Pallet::new();
    assert_eq!(p.initial_sync(initial_sync_fixture()), Ok(()));
    p
}

fn period_update_fixture(bits: Vec<u8>) -> SyncCommitteePeriodUpdate {
    let next = committee(2);
    let nb = branch(50, 5);
    let finalized = BeaconHeader {
        slot: PERIOD * 8192 + 100,
        proposer_index: 12,
        parent_root: word(3),
        state_root: fold(&hash_tree_root_sync_committee(&next).unwrap(), &nb, 23),
        body_root: word(4),
    };
    let fb = branch(80, 6);
    let attested = BeaconHeader {
        slot: PERIOD * 8192 + 120,
        proposer_index: 13,
        parent_root: word(5),
        state_root: fold(&hash_tree_root_beacon_header(&finalized).unwrap(), &fb, 41),
        body_root: word(6),
    };
    SyncCommitteePeriodUpdate {
        attested_header: attested,
        next_sync_committee: next,
        next_sync_committee_branch: nb,
        finalized_header: finalized,
        finality_branch: fb,
        sync_aggregate: SyncAggregate { sync_committee_bits: bits, sync_committee_signature: vec![0xab; 96] },
        fork_version: vec![1, 0, 0, 0],
        sync_committee_period: PERIOD,
    }
}

fn packed_bits(n: usize) -> Vec<u8> {
    let mut packed = vec![0u8; 64];
    for i in 0..n {
        packed[i / 8] |= 1 << (i % 8);
    }
    packed
}

fn execution_payload() -> ExecutionHeader {
    ExecutionHeader {
        parent_hash: word(20),
        fee_recipient: vec![0x11; 20],
        state_root: word(21),
        receipts_root: word(22),
        logs_bloom: vec![0; 256],
        prev_randao: word(23),
        block_number: 1234,
        gas_limit: 30_000_000,
        gas_used: 21_000,
        timestamp: 1_650_000_000,
        extra_data: vec![1, 2, 3],
        base_fee_per_gas: {
            let mut b = vec![0u8; 32];
            b[0] = 7;
            b
        },
        block_hash: word(24),
        transactions_root: word(25),
    }
}

fn block_update(slot: u64) -> BlockUpdate {
    BlockUpdate {
        block: BeaconBlock {
            slot,
            proposer_index: 14,
            parent_root: word(30),
            state_root: word(31),
            body: BeaconBlockBody {
                randao_reveal: vec![0x22; 96],
                eth1_data_root: word(32),
                graffiti: word(33),
                proposer_slashings_root: word(34),
                attester_slashings_root: word(35),
                attestations_root: word(36),
                deposits_root: word(37),
                voluntary_exits_root: word(38),
                sync_aggregate_root: word(39),
                execution_payload: execution_payload(),
            },
        },
        sync_aggregate: SyncAggregate { sync_committee_bits: packed_bits(512), sync_committee_signature: vec![0xcd; 96] },
        fork_version: vec![1, 0, 0, 0],
    }
}

#[test]
fn fresh_initial_sync() {
    let u = initial_sync_fixture();
    let root = hash_tree_root_beacon_header(&u.header).unwrap();
    let p = synced();
    assert_eq!(p.get_sync_committee_for_period(PERIOD), Ok(&u.current_sync_committee));
    assert_eq!(p.get_sync_committee_for_period(PERIOD + 1), Err(Error::SyncCommitteeMissing));
    assert_eq!(p.validators_root(), Some(&validators_root()));
    assert_eq!(p.finalized_header(&root), Some(&u.header));
    assert_eq!(p.latest_finalized_slot(), u.header.slot);
}

#[test]
fn second_initial_sync_refused() {
    let mut p = synced();
    assert_eq!(p.initial_sync(initial_sync_fixture()), Err(Error::Unknown));
}

#[test]
fn tampered_committee_root() {
    let mut u = initial_sync_fixture();
    u.current_sync_committee.aggregate_pubkey[0] ^= 1;
    let mut p = Pallet::new();
    assert_eq!(p.initial_sync(u), Err(Error::InvalidSyncCommitteeMerkleProof));
    assert_eq!(p.validators_root(), None);
    assert_eq!(p.get_sync_committee_for_period(PERIOD), Err(Error::SyncCommitteeMissing));
    assert_eq!(p.latest_finalized_slot(), 0);
}

#[test]
fn initial_sync_with_short_validators_root() {
    let mut u = initial_sync_fixture();
    u.validators_root.pop();
    let mut p = Pallet::new();
    assert_eq!(p.initial_sync(u), Err(Error::InvalidHash));
    assert_eq!(p.validators_root(), None);
}

#[test]
fn period_update_without_supermajority() {
    let mut p = synced();
    let u = period_update_fixture(packed_bits(341));
    assert_eq!(p.sync_committee_period_update(u, SignatureCheck::Valid), Err(Error::SyncCommitteeParticipantsNotSupermajority));
    assert_eq!(p.get_sync_committee_for_period(PERIOD + 1), Err(Error::SyncCommitteeMissing));
}

#[test]
fn period_update_with_bitfield_of_wrong_size() {
    let mut p = synced();
    let u = period_update_fixture(vec![0xff; 63]);
    assert_eq!(p.sync_committee_period_update(u, SignatureCheck::Valid), Err(Error::InvalidHash));
}

#[test]
fn valid_period_update() {
    let mut p = synced();
    let u = period_update_fixture(packed_bits(512));
    let fin_root = hash_tree_root_beacon_header(&u.finalized_header).unwrap();
    let req = p.signature_request(&u.sync_aggregate, &u.fork_version, &u.attested_header).unwrap();
    assert_eq!(req.pubkeys, committee(1).pubkeys);
    let domain = compute_domain(&vec![7, 0, 0, 0], Some(&u.fork_version), &validators_root());
    assert_eq!(req.message, compute_signing_root(&u.attested_header, &domain).unwrap());
    assert_eq!(req.signature, vec![0xab; 96]);
    assert_eq!(p.sync_committee_period_update(u.clone(), SignatureCheck::Valid), Ok(()));
    assert_eq!(p.get_sync_committee_for_period(PERIOD + 1), Ok(&u.next_sync_committee));
    assert_eq!(p.finalized_header(&fin_root), Some(&u.finalized_header));
    assert_eq!(p.latest_finalized_slot(), u.finalized_header.slot);
    assert_eq!(p.sync_committee_period_update(u, SignatureCheck::Valid), Ok(()));
}

#[test]
fn period_update_conflicting_committee_refused() {
    let mut p = synced();
    let u = period_update_fixture(packed_bits(512));
    assert_eq!(p.sync_committee_period_update(u, SignatureCheck::Valid), Ok(()));
    let mut other = period_update_fixture(packed_bits(512));
    other.next_sync_committee = committee(9);
    let nb = branch(50, 5);
    other.finalized_header.state_root = fold(&hash_tree_root_sync_committee(&other.next_sync_committee).unwrap(), &nb, 23);
    other.attested_header.state_root = fold(&hash_tree_root_beacon_header(&other.finalized_header).unwrap(), &other.finality_branch, 41);
    assert_eq!(p.sync_committee_period_update(other, SignatureCheck::Valid), Err(Error::Unknown));
    assert_eq!(p.get_sync_committee_for_period(PERIOD + 1), Ok(&committee(2)));
}

#[test]
fn signature_forgery() {
    let mut p = synced();
    let u = period_update_fixture(packed_bits(512));
    assert_eq!(
        p.sync_committee_period_update(u, SignatureCheck::VerificationFailed),
        Err(Error::SignatureVerificationFailed)
    );
    assert_eq!(p.get_sync_committee_for_period(PERIOD + 1), Err(Error::SyncCommitteeMissing));
    assert_eq!(p.latest_finalized_slot(), PERIOD * 8192 + 5);
}

#[test]
fn bad_finality_branch() {
    let mut p = synced();
    let mut u = period_update_fixture(packed_bits(512));
    u.finality_branch[3][0] ^= 4;
    assert_eq!(p.sync_committee_period_update(u, SignatureCheck::Valid), Err(Error::InvalidHeaderMerkleProof));
}

#[test]
fn bad_next_committee_branch() {
    let mut p = synced();
    let mut u = period_update_fixture(packed_bits(512));
    u.next_sync_committee_branch[0][0] ^= 4;
    assert_eq!(p.sync_committee_period_update(u, SignatureCheck::Valid), Err(Error::InvalidSyncCommitteeMerkleProof));
}

#[test]
fn finalized_header_update() {
    let mut p = synced();
    let full = period_update_fixture(packed_bits(400));
    let u = FinalizedHeaderUpdate {
        attested_header: full.attested_header.clone(),
        finalized_header: full.finalized_header.clone(),
        finality_branch: full.finality_branch.clone(),
        sync_aggregate: full.sync_aggregate.clone(),
        fork_version: full.fork_version.clone(),
    };
    let root = hash_tree_root_beacon_header(&u.finalized_header).unwrap();
    assert_eq!(p.import_finalized_header(u.clone(), SignatureCheck::InvalidSignature), Err(Error::InvalidSignature));
    assert_eq!(p.finalized_header(&root), None);
    assert_eq!(p.import_finalized_header(u.clone(), SignatureCheck::Valid), Ok(()));
    assert_eq!(p.finalized_header(&root), Some(&u.finalized_header));
    assert_eq!(p.get_sync_committee_for_period(PERIOD + 1), Err(Error::SyncCommitteeMissing));
}

#[test]
fn finalized_update_without_committee() {
    let mut p = synced();
    let mut full = period_update_fixture(packed_bits(512));
    full.attested_header.slot = (PERIOD + 2) * 8192;
    let u = FinalizedHeaderUpdate {
        attested_header: full.attested_header,
        finalized_header: full.finalized_header,
        finality_branch: full.finality_branch,
        sync_aggregate: full.sync_aggregate,
        fork_version: full.fork_version,
    };
    assert_eq!(p.import_finalized_header(u, SignatureCheck::Valid), Err(Error::SyncCommitteeMissing));
}

#[test]
fn latest_slot_does_not_decrease() {
    let mut p = synced();
    let mut full = period_update_fixture(packed_bits(512));
    full.finalized_header.slot = PERIOD * 8192 + 1;
    full.attested_header.state_root = fold(&hash_tree_root_beacon_header(&full.finalized_header).unwrap(), &full.finality_branch, 41);
    let u = FinalizedHeaderUpdate {
        attested_header: full.attested_header,
        finalized_header: full.finalized_header,
        finality_branch: full.finality_branch,
        sync_aggregate: full.sync_aggregate,
        fork_version: full.fork_version,
    };
    assert_eq!(p.import_finalized_header(u, SignatureCheck::Valid), Ok(()));
    assert_eq!(p.latest_finalized_slot(), PERIOD * 8192 + 5);
}

#[test]
fn execution_header_before_finalization() {
    let mut p = synced();
    let slot = p.latest_finalized_slot() + 1;
    assert_eq!(p.import_execution_header(block_update(slot), SignatureCheck::Valid), Err(Error::HeaderNotFinalized));
}

#[test]
fn execution_header_import() {
    let mut p = synced();
    let slot = p.latest_finalized_slot();
    let u = block_update(slot);
    let header = block_header(&u.block).unwrap();
    assert_eq!(header.slot, slot);
    assert_eq!(header.body_root.len(), 32);
    let req = p.signature_request(&u.sync_aggregate, &u.fork_version, &header).unwrap();
    assert_eq!(req.pubkeys.len(), 512);
    assert_eq!(p.import_execution_header(u.clone(), SignatureCheck::InvalidAggregatePublicKeys), Err(Error::InvalidAggregatePublicKeys));
    assert_eq!(p.execution_header(&word(24)), None);
    assert_eq!(p.import_execution_header(u.clone(), SignatureCheck::Valid), Ok(()));
    assert_eq!(p.execution_header(&word(24)), Some(&execution_payload()));
}

#[test]
fn execution_header_with_bad_body() {
    let mut p = synced();
    let mut u = block_update(p.latest_finalized_slot());
    u.block.body.execution_payload.extra_data = vec![0; 33];
    assert_eq!(block_header(&u.block), Err(Error::InvalidHash));
    assert_eq!(p.import_execution_header(u, SignatureCheck::Valid), Err(Error::InvalidHash));
}

#[test]
fn signature_request_before_sync() {
    let p = Pallet::new();
    let u = period_update_fixture(packed_bits(512));
    assert!(matches!(
        p.signature_request(&u.sync_aggregate, &u.fork_version, &u.attested_header),
        Err(Error::SyncCommitteeMissing)
    ));
}

#[test]
fn signature_checks_map_to_errors() {
    assert_eq!(check_signature(SignatureCheck::Valid), Ok(()));
    assert_eq!(check_signature(SignatureCheck::InvalidSignature), Err(Error::InvalidSignature));
    assert_eq!(check_signature(SignatureCheck::InvalidSignaturePoint), Err(Error::InvalidSignaturePoint));
    assert_eq!(check_signature(SignatureCheck::InvalidAggregatePublicKeys), Err(Error::InvalidAggregatePublicKeys));
    assert_eq!(check_signature(SignatureCheck::VerificationFailed), Err(Error::SignatureVerificationFailed));
}

#[test]
fn receipt_inclusion_accepts() {
    assert_eq!(Pallet::new().verify_eth1_receipt_inclusion(), Ok(()));
}

#[test]
fn branch_checks_name_their_errors() {
    let u = initial_sync_fixture();
    assert_eq!(
        beacon_client::verify_sync_committee(&u.current_sync_committee, &u.current_sync_committee_branch, &u.header.state_root, 5, 22),
        Ok(())
    );
    assert_eq!(
        beacon_client::verify_sync_committee(&u.current_sync_committee, &u.current_sync_committee_branch, &u.header.state_root, 5, 23),
        Err(Error::InvalidSyncCommitteeMerkleProof)
    );
    let root = hash_tree_root_beacon_header(&u.header).unwrap();
    let b = branch(90, 6);
    let state_root = fold(&root, &b, 41);
    assert_eq!(beacon_client::verify_header(&root, &b, &state_root, 6, 41), Ok(()));
    assert_eq!(beacon_client::verify_header(&root, &b, &word(1), 6, 41), Err(Error::InvalidHeaderMerkleProof));
}

#[test]
fn execution_header_body_checked_before_committee() {
    let mut p = synced();
    let mut full = period_update_fixture(packed_bits(512));
    full.finalized_header.slot = (PERIOD + 2) * 8192;
    full.attested_header.state_root = fold(&hash_tree_root_beacon_header(&full.finalized_header).unwrap(), &full.finality_branch, 41);
    let u = FinalizedHeaderUpdate {
        attested_header: full.attested_header,
        finalized_header: full.finalized_header,
        finality_branch: full.finality_branch,
        sync_aggregate: full.sync_aggregate,
        fork_version: full.fork_version,
    };
    assert_eq!(p.import_finalized_header(u, SignatureCheck::Valid), Ok(()));
    let slot = (PERIOD + 2) * 8192;
    let mut bad = block_update(slot);
    bad.block.body.graffiti.pop();
    assert_eq!(p.import_execution_header(bad, SignatureCheck::Valid), Err(Error::InvalidHash));
    assert_eq!(p.import_execution_header(block_update(slot), SignatureCheck::Valid), Err(Error::SyncCommitteeMissing));
}
