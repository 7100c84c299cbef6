use vstd::prelude::*;

verus! {

/// Failures of the light client's operations.
#[derive(Clone, Copy, Debug, PartialEq, Eq, Structural)]
pub enum Error {
    AncientHeader,
    SkippedSyncCommitteePeriod,
    SyncCommitteeMissing,
    Unknown,
    SyncCommitteeParticipantsNotSupermajority,
    InvalidSyncCommiteeSignature,
    InvalidHeaderMerkleProof,
    InvalidSyncCommitteeMerkleProof,
    InvalidSignature,
    InvalidSignaturePoint,
    InvalidAggregatePublicKeys,
    InvalidHash,
    SignatureVerificationFailed,
    NoBranchExpected,
    HeaderNotFinalized,
}

/// A beacon-chain block header. The three roots are 32 bytes each.
#[derive(Clone, Debug, PartialEq, Eq)]
pub struct BeaconHeader {
    pub slot: u64,
    pub proposer_index: u64,
    pub parent_root: Vec<u8>,
    pub state_root: Vec<u8>,
    pub body_root: Vec<u8>,
}

/// The public keys of a sync committee (48 bytes each) and their aggregate.
#[derive(Clone, Debug, PartialEq, Eq)]
pub struct SyncCommittee {
    pub pubkeys: Vec<Vec<u8>>,
    pub aggregate_pubkey: Vec<u8>,
}

/// Participation bits, packed little-endian (one per committee member), and the
/// aggregate signature of the participants.
#[derive(Clone, Debug, PartialEq, Eq)]
pub struct SyncAggregate {
    pub sync_committee_bits: Vec<u8>,
    pub sync_committee_signature: Vec<u8>,
}

/// An execution-layer block header, as carried in a beacon block body. The
/// base fee is a 256-bit integer in 32 little-endian bytes.
#[derive(Clone, Debug, PartialEq, Eq)]
pub struct ExecutionHeader {
    pub parent_hash: Vec<u8>,
    pub fee_recipient: Vec<u8>,
    pub state_root: Vec<u8>,
    pub receipts_root: Vec<u8>,
    pub logs_bloom: Vec<u8>,
    pub prev_randao: Vec<u8>,
    pub block_number: u64,
    pub gas_limit: u64,
    pub gas_used: u64,
    pub timestamp: u64,
    pub extra_data: Vec<u8>,
    pub base_fee_per_gas: Vec<u8>,
    pub block_hash: Vec<u8>,
    pub transactions_root: Vec<u8>,
}

/// A beacon block body: the randao reveal, the graffiti, the roots of the fields
/// whose contents the client does not read, and the execution payload.
#[derive(Clone, Debug, PartialEq, Eq)]
pub struct BeaconBlockBody {
    pub randao_reveal: Vec<u8>,
    pub eth1_data_root: Vec<u8>,
    pub graffiti: Vec<u8>,
    pub proposer_slashings_root: Vec<u8>,
    pub attester_slashings_root: Vec<u8>,
    pub attestations_root: Vec<u8>,
    pub deposits_root: Vec<u8>,
    pub voluntary_exits_root: Vec<u8>,
    pub sync_aggregate_root: Vec<u8>,
    pub execution_payload: ExecutionHeader,
}

/// A beacon block.
#[derive(Clone, Debug, PartialEq, Eq)]
pub struct BeaconBlock {
    pub slot: u64,
    pub proposer_index: u64,
    pub parent_root: Vec<u8>,
    pub state_root: Vec<u8>,
    pub body: BeaconBlockBody,
}

/// Bootstraps the client with a header and its period's sync committee.
#[derive(Clone, Debug, PartialEq, Eq)]
pub struct InitialSync {
    pub header: BeaconHeader,
    pub current_sync_committee: SyncCommittee,
    pub current_sync_committee_branch: Vec<Vec<u8>>,
    pub validators_root: Vec<u8>,
}

/// Hands over to the next period's sync committee and advances finality.
#[derive(Clone, Debug, PartialEq, Eq)]
pub struct SyncCommitteePeriodUpdate {
    pub attested_header: BeaconHeader,
    pub next_sync_committee: SyncCommittee,
    pub next_sync_committee_branch: Vec<Vec<u8>>,
    pub finalized_header: BeaconHeader,
    pub finality_branch: Vec<Vec<u8>>,
    pub sync_aggregate: SyncAggregate,
    pub fork_version: Vec<u8>,
    pub sync_committee_period: u64,
}

/// Advances finality within a period.
#[derive(Clone, Debug, PartialEq, Eq)]
pub struct FinalizedHeaderUpdate {
    pub attested_header: BeaconHeader,
    pub finalized_header: BeaconHeader,
    pub finality_branch: Vec<Vec<u8>>,
    pub sync_aggregate: SyncAggregate,
    pub fork_version: Vec<u8>,
}

/// A finalized beacon block whose execution header is to be stored.
#[derive(Clone, Debug, PartialEq, Eq)]
pub struct BlockUpdate {
    pub block: BeaconBlock,
    pub sync_aggregate: SyncAggregate,
    pub fork_version: Vec<u8>,
}

/// Configuration at genesis.
#[derive(Clone, Debug, PartialEq, Eq)]
pub struct Genesis {
    pub validators_root: Vec<u8>,
}

} // verus!
