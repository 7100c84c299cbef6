use beacon_client::{
    compute_current_sync_period, compute_domain, get_sync_committee_bits, get_sync_committee_sum,
    hash_pair_bytes, hash_tree_root_beacon_header, hash_tree_root_sync_committee, is_valid_merkle_branch,
    merkleize_chunks, participant_pubkeys, sync_committee_participation_is_supermajority, u64_to_chunk,
    BasicChannel, BeaconHeader, Error, SyncCommittee,
};

fn hex(s: &str) -> Vec<u8> {
    (0..s.len() / 2).map(|i| u8::from_str_radix(&s[2 * i..2 * i + 2], 16).unwrap()).collect()
}

fn sha(a: &[u8], b: &[u8]) -> Vec<u8> {
    let mut d = a.to_vec();
    d.extend_from_slice(b);
    sp_io::hashing::sha2_256(&d).to_vec()
}

fn fold(leaf: &[u8], branch: &[Vec<u8>], index: u64) -> Vec<u8> {
    let mut v = leaf.to_vec();
    for (i, sib) in branch.iter().enumerate() {
        if (index >> i) & 1 == 0 {
            v = sha(&v, sib);
        } else {
            v = sha(sib, &v);
        }
    }
    v
}

fn word(seed: u8) -> Vec<u8> {
    (0..32u8).map(|i| i.wrapping_mul(31).wrapping_add(seed)).collect()
}

fn bits_with(n: usize) -> Vec<u8> {
    let mut bits = vec![0u8; 512];
    for b in bits.iter_mut().take(n) {
        *b = 1;
    }
    bits
}

#[test]
fn supermajority_boundary_at_512() {
    assert_eq!(
        sync_committee_participation_is_supermajority(&bits_with(341)),
        Err(Error::SyncCommitteeParticipantsNotSupermajority)
    );
    assert_eq!(sync_committee_participation_is_supermajority(&bits_with(342)), Ok(()));
    assert_eq!(sync_committee_participation_is_supermajority(&bits_with(384)), Ok(()));
    assert_eq!(sync_committee_participation_is_supermajority(&bits_with(512)), Ok(()));
}

#[test]
fn supermajority_small_lengths() {
    assert_eq!(sync_committee_participation_is_supermajority(&vec![]), Ok(()));
    assert_eq!(sync_committee_participation_is_supermajority(&vec![1, 1, 0]), Ok(()));
    assert_eq!(
        sync_committee_participation_is_supermajority(&vec![1, 0, 0]),
        Err(Error::SyncCommitteeParticipantsNotSupermajority)
    );
}

#[test]
fn committee_sum() {
    assert_eq!(get_sync_committee_sum(&vec![0, 1, 0, 1, 1, 1]), 4);
    assert_eq!(get_sync_committee_sum(&vec![]), 0);
}

#[test]
fn bits_unpack_lowest_bit_first() {
    let mut packed = vec![0u8; 64];
    packed[0] = 0b0000_0101;
    packed[63] = 0b1000_0000;
    let bits = get_sync_committee_bits(&packed).unwrap();
    assert_eq!(bits.len(), 512);
    assert_eq!(&bits[0..4], &[1, 0, 1, 0]);
    assert_eq!(bits[511], 1);
    assert_eq!(bits.iter().map(|b| *b as u32).sum::<u32>(), 3);
    assert_eq!(get_sync_committee_bits(&vec![0u8; 63]), Err(Error::InvalidHash));
    assert_eq!(get_sync_committee_bits(&vec![0u8; 65]), Err(Error::InvalidHash));
}

#[test]
fn participants_follow_bits() {
    let keys: Vec<Vec<u8>> = (0..4u8).map(|i| vec![i; 48]).collect();
    let got = participant_pubkeys(&vec![0, 1, 1, 0], &keys);
    assert_eq!(got, vec![vec![1u8; 48], vec![2u8; 48]]);
}

#[test]
fn period_of_slot() {
    assert_eq!(compute_current_sync_period(0), 0);
    assert_eq!(compute_current_sync_period(8191), 0);
    assert_eq!(compute_current_sync_period(8192), 1);
    assert_eq!(compute_current_sync_period(3 * 8192 + 17), 3);
}

#[test]
fn sha256_of_two_zero_words() {
    let z = vec![0u8; 32];
    assert_eq!(
        hash_pair_bytes(&z, &z),
        hex("f5a5fd42d16a20302798ef6ed309979b43003d2320d9f0e8ea9831a92759fb4b")
    );
}

#[test]
fn u64_chunk_is_little_endian() {
    let c = u64_to_chunk(0x0102030405060708);
    assert_eq!(c.len(), 32);
    assert_eq!(&c[0..8], &[8, 7, 6, 5, 4, 3, 2, 1]);
    assert!(c[8..].iter().all(|b| *b == 0));
}

#[test]
fn merkleize_pads_with_zero_chunks() {
    let a = word(1);
    let b = word(2);
    let z = vec![0u8; 32];
    let expected = sha(&sha(&a, &b), &sha(&z, &z));
    assert_eq!(merkleize_chunks(vec![a.clone(), b.clone()], 4), expected);
    assert_eq!(merkleize_chunks(vec![a.clone()], 1), a);
}

#[test]
fn zero_header_root() {
    let h = BeaconHeader {
        slot: 0,
        proposer_index: 0,
        parent_root: vec![0; 32],
        state_root: vec![0; 32],
        body_root: vec![0; 32],
    };
    let z = vec![0u8; 32];
    let z1 = sha(&z, &z);
    let z2 = sha(&z1, &z1);
    let z3 = sha(&z2, &z2);
    assert_eq!(hash_tree_root_beacon_header(&h), Ok(z3));
}

#[test]
fn header_root_of_fields() {
    let h = BeaconHeader {
        slot: 9,
        proposer_index: 3,
        parent_root: word(1),
        state_root: word(2),
        body_root: word(3),
    };
    let mut s = vec![0u8; 32];
    s[0] = 9;
    let mut p = vec![0u8; 32];
    p[0] = 3;
    let z = vec![0u8; 32];
    let l0 = sha(&s, &p);
    let l1 = sha(&word(1), &word(2));
    let l2 = sha(&word(3), &z);
    let l3 = sha(&z, &z);
    let expected = sha(&sha(&l0, &l1), &sha(&l2, &l3));
    assert_eq!(hash_tree_root_beacon_header(&h), Ok(expected));
}

#[test]
fn header_with_short_root_is_invalid_hash() {
    let h = BeaconHeader {
        slot: 1,
        proposer_index: 0,
        parent_root: vec![0; 31],
        state_root: vec![0; 32],
        body_root: vec![0; 32],
    };
    assert_eq!(hash_tree_root_beacon_header(&h), Err(Error::InvalidHash));
}

#[test]
fn committee_of_wrong_size_is_invalid_hash() {
    let c = SyncCommittee { pubkeys: vec![vec![1u8; 48]; 511], aggregate_pubkey: vec![2u8; 48] };
    assert_eq!(hash_tree_root_sync_committee(&c), Err(Error::InvalidHash));
    let mut keys = vec![vec![1u8; 48]; 512];
    keys[7] = vec![1u8; 47];
    let c = SyncCommittee { pubkeys: keys, aggregate_pubkey: vec![2u8; 48] };
    assert_eq!(hash_tree_root_sync_committee(&c), Err(Error::InvalidHash));
}

#[test]
fn committee_root_of_two_keys_per_leaf() {
    let keys: Vec<Vec<u8>> = (0..512u32).map(|i| vec![(i % 251) as u8; 48]).collect();
    let agg = vec![9u8; 48];
    let c = SyncCommittee { pubkeys: keys.clone(), aggregate_pubkey: agg.clone() };
    let key_root = |k: &Vec<u8>| {
        let mut second = k[32..48].to_vec();
        second.resize(32, 0);
        sha(&k[0..32], &second)
    };
    let mut layer: Vec<Vec<u8>> = keys.iter().map(key_root).collect();
    while layer.len() > 1 {
        layer = layer.chunks(2).map(|p| sha(&p[0], &p[1])).collect();
    }
    let expected = sha(&layer[0], &key_root(&agg));
    assert_eq!(hash_tree_root_sync_committee(&c), Ok(expected));
}

#[test]
fn merkle_branch_round_trip_and_mutations() {
    let leaf = word(7);
    let branch: Vec<Vec<u8>> = (0..6u8).map(|i| word(40 + i)).collect();
    let root = fold(&leaf, &branch, 41);
    assert!(is_valid_merkle_branch(&leaf, &branch, 6, 41, &root));
    let mut bad_leaf = leaf.clone();
    bad_leaf[5] ^= 0x10;
    assert!(!is_valid_merkle_branch(&bad_leaf, &branch, 6, 41, &root));
    let mut bad_root = root.clone();
    bad_root[31] ^= 0x01;
    assert!(!is_valid_merkle_branch(&leaf, &branch, 6, 41, &bad_root));
    for k in 0..branch.len() {
        let mut bad_branch = branch.clone();
        bad_branch[k][0] ^= 0x80;
        assert!(!is_valid_merkle_branch(&leaf, &bad_branch, 6, 41, &root));
    }
    assert!(!is_valid_merkle_branch(&leaf, &branch, 6, 40, &root));
}

#[test]
fn merkle_branch_malformed() {
    let leaf = word(7);
    let branch: Vec<Vec<u8>> = (0..5u8).map(|i| word(i)).collect();
    let root = fold(&leaf, &branch, 22);
    assert!(is_valid_merkle_branch(&leaf, &branch, 5, 22, &root));
    assert!(!is_valid_merkle_branch(&leaf, &branch, 6, 22, &root));
    let mut short = branch.clone();
    short[2].pop();
    assert!(!is_valid_merkle_branch(&leaf, &short, 5, 22, &root));
    assert!(!is_valid_merkle_branch(&leaf[0..31].to_vec(), &branch, 5, 22, &root));
    assert!(is_valid_merkle_branch(&leaf, &vec![], 0, 1, &leaf));
}

#[test]
fn domain_starts_with_type_and_fork_root() {
    let root = word(5);
    let dt = vec![7u8, 0, 0, 0];
    let version = vec![1u8, 2, 3, 4];
    let d = compute_domain(&dt, Some(&version), &root);
    let mut v = version.clone();
    v.resize(32, 0);
    let fork_root = sha(&v, &root);
    assert_eq!(d.len(), 32);
    assert_eq!(&d[0..4], &dt[..]);
    assert_eq!(&d[4..32], &fork_root[0..28]);
    let g = compute_domain(&dt, None, &root);
    let mut gv = vec![30u8; 4];
    gv.resize(32, 0);
    assert_eq!(&g[4..32], &sha(&gv, &root)[0..28]);
}

#[test]
fn channel_keeps_prefix() {
    let c: BasicChannel<u64> = BasicChannel::new(b"commitment");
    assert_eq!(c.prefix(), &b"commitment".to_vec());
}
