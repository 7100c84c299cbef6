//! Verified core of an Ethereum beacon-chain light client: SSZ hash-tree-roots,
//! Merkle branch checks, sync-committee participation and the update state machine.

mod channel;
mod client;
mod hashing;
mod merkle;
mod merkleization;
mod participation;
mod signing;
mod store;
mod ssz;
mod types;

pub use hashing::{concat_bytes, hash_pair, hash_pair_bytes, sha256};
pub use merkle::{all_words, collision_free_path, lemma_merkle_branch_other_leaf_rejected, branch_root, bytes_eq, copy_bytes, is_valid_merkle_branch, lemma_merkle_branch_other_root_rejected, lemma_merkle_branch_round_trip, valid_merkle_branch, views};
pub use ssz::{bytes_root, fixed_bytes_root, hash_layer, is_pow2, merkleize, merkleize_chunks, mix_in_length, pack, pack_bytes, pad_chunks, reduce_layers, u64_chunk, u64_to_chunk, zero_chunk, zero_chunk_bytes};
pub use types::{BeaconBlock, BeaconBlockBody, BeaconHeader, BlockUpdate, Error, ExecutionHeader, FinalizedHeaderUpdate, Genesis, InitialSync, SyncAggregate, SyncCommittee, SyncCommitteePeriodUpdate};
pub use merkleization::{body_ok, body_root, committee_ok, committee_root, execution_ok, execution_root, fork_data_root, hash_tree_root_beacon_body, hash_tree_root_beacon_header, hash_tree_root_execution_header, hash_tree_root_fork_data, hash_tree_root_signing_data, hash_tree_root_sync_committee, header_ok, header_root, pubkey_root, pubkey_roots, root_result, signing_data_root, MAX_EXTRA_DATA_BYTES, PUBKEY_LEN, SYNC_COMMITTEE_SIZE};
pub use participation::{bit_sum, get_sync_committee_bits, get_sync_committee_sum, is_supermajority, participant_keys, participant_pubkeys, participants, sync_committee_participation_is_supermajority, unpack_bits, SYNC_COMMITTEE_BITS_BYTES};
pub use signing::{compute_current_sync_period, compute_domain, compute_fork_data_root, compute_signing_root, domain_of, domain_sync_committee, domain_sync_committee_bytes, genesis_fork_version, genesis_fork_version_bytes, period_of, signing_root, EPOCHS_PER_SYNC_COMMITTEE_PERIOD, SLOTS_PER_EPOCH};
pub use store::{period_entries_map, root_entries_map, PeriodTable, RootTable};
pub use channel::BasicChannel;
pub use client::{
    after_block_update, after_finalized_update, after_initial_sync, after_period_update, block_header,
    block_update_outcome, check_signature, finality_outcome, finalized_update_outcome, initial_sync_outcome,
    lemma_finalized_header_keyed_by_root, lemma_store_header_latest_slot, outcome_after_request, participation_outcome, period_update_outcome,
    request_error, request_keys, request_message, same_committee, same_committee_keys, signature_result,
    state_wf, store_header, validators_root_of, ClientState, Pallet, SignatureCheck, SignatureRequest,
    CURRENT_SYNC_COMMITTEE_DEPTH, CURRENT_SYNC_COMMITTEE_INDEX, FINALIZED_ROOT_DEPTH, FINALIZED_ROOT_INDEX,
    NEXT_SYNC_COMMITTEE_DEPTH, NEXT_SYNC_COMMITTEE_INDEX, verify_header, verify_sync_committee,
};
