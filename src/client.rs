use vstd::prelude::*;
use crate::merkle::{bytes_eq, copy_bytes, is_valid_merkle_branch, valid_merkle_branch, views};
use crate::merkleization::{
    body_ok, body_root, committee_ok, committee_root, execution_ok, hash_tree_root_beacon_body,
    hash_tree_root_beacon_header, hash_tree_root_sync_committee, header_ok, header_root,
    signing_data_root,
};
use crate::participation::{
    get_sync_committee_bits, is_supermajority, participant_keys, participant_pubkeys,
    sync_committee_participation_is_supermajority, unpack_bits, SYNC_COMMITTEE_BITS_BYTES,
};
use crate::signing::{
    compute_current_sync_period, compute_domain, compute_signing_root, domain_of,
    domain_sync_committee, domain_sync_committee_bytes, period_of,
};
use crate::store::{PeriodTable, RootTable};
use crate::types::{
    BeaconBlock, BeaconHeader, BlockUpdate, Error, ExecutionHeader, FinalizedHeaderUpdate,
    InitialSync, SyncAggregate, SyncCommittee, SyncCommitteePeriodUpdate,
};

verus! {

pub const CURRENT_SYNC_COMMITTEE_INDEX: u64 = 22;

pub const CURRENT_SYNC_COMMITTEE_DEPTH: u64 = 5;

pub const NEXT_SYNC_COMMITTEE_INDEX: u64 = 23;

pub const NEXT_SYNC_COMMITTEE_DEPTH: u64 = 5;

pub const FINALIZED_ROOT_INDEX: u64 = 41;

pub const FINALIZED_ROOT_DEPTH: u64 = 6;

/// The outcome of checking an aggregate BLS signature over a signing request.
#[derive(Clone, Copy, Debug, PartialEq, Eq, Structural)]
pub enum SignatureCheck {
    Valid,
    InvalidSignature,
    InvalidSignaturePoint,
    InvalidAggregatePublicKeys,
    VerificationFailed,
}

/// What an aggregate signature must be checked against: the keys of the members
/// that took part, the signed message and the signature.
pub struct SignatureRequest {
    pub pubkeys: Vec<Vec<u8>>,
    pub message: Vec<u8>,
    pub signature: Vec<u8>,
}

/// The client's persistent state, as maps.
pub struct ClientState {
    pub finalized_headers: Map<Seq<u8>, BeaconHeader>,
    pub execution_headers: Map<Seq<u8>, ExecutionHeader>,
    pub sync_committees: Map<u64, SyncCommittee>,
    pub validators_root: Option<Seq<u8>>,
    pub latest_finalized_slot: u64,
}

/// The result that a signature check leads to.
pub open spec fn signature_result(c: SignatureCheck) -> Result<(), Error> {
    match c {
        SignatureCheck::Valid => Ok(()),
        SignatureCheck::InvalidSignature => Err(Error::InvalidSignature),
        SignatureCheck::InvalidSignaturePoint => Err(Error::InvalidSignaturePoint),
        SignatureCheck::InvalidAggregatePublicKeys => Err(Error::InvalidAggregatePublicKeys),
        SignatureCheck::VerificationFailed => Err(Error::SignatureVerificationFailed),
    }
}

/// Two committees hold the same keys in the same order.
pub open spec fn same_committee(a: SyncCommittee, b: SyncCommittee) -> bool {
    views(a.pubkeys@) == views(b.pubkeys@) && a.aggregate_pubkey@ == b.aggregate_pubkey@
}

/// The validators root, or nothing before the initial sync.
pub open spec fn validators_root_of(s: ClientState) -> Seq<u8> {
    match s.validators_root {
        Some(v) => v,
        None => Seq::empty(),
    }
}

/// The state's invariant: every finalized header is stored under its own root and
/// lies at or below the latest finalized slot; every committee and execution header
/// is well formed, the latter stored under its block hash; before the initial sync
/// nothing is stored.
pub open spec fn state_wf(s: ClientState) -> bool {
    &&& forall|r: Seq<u8>| #[trigger] s.finalized_headers.contains_key(r) ==> {
        &&& header_ok(s.finalized_headers[r])
        &&& header_root(s.finalized_headers[r]) == r
        &&& s.finalized_headers[r].slot <= s.latest_finalized_slot
    }
    &&& forall|p: u64| #[trigger] s.sync_committees.contains_key(p) ==> committee_ok(s.sync_committees[p])
    &&& forall|k: Seq<u8>| #[trigger] s.execution_headers.contains_key(k) ==> {
        &&& execution_ok(s.execution_headers[k])
        &&& s.execution_headers[k].block_hash@ == k
    }
    &&& s.validators_root is None ==> {
        &&& s.finalized_headers == Map::<Seq<u8>, BeaconHeader>::empty()
        &&& s.execution_headers == Map::<Seq<u8>, ExecutionHeader>::empty()
        &&& s.sync_committees == Map::<u64, SyncCommittee>::empty()
        &&& s.latest_finalized_slot == 0
    }
    &&& s.validators_root matches Some(v) ==> v.len() == 32
}

/// The state with a finalized header stored under `root`; the latest finalized
/// slot rises to the header's slot when that is higher.
pub open spec fn store_header(s: ClientState, root: Seq<u8>, h: BeaconHeader) -> ClientState {
    ClientState {
        finalized_headers: s.finalized_headers.insert(root, h),
        execution_headers: s.execution_headers,
        sync_committees: s.sync_committees,
        validators_root: s.validators_root,
        latest_finalized_slot: if h.slot > s.latest_finalized_slot { h.slot } else { s.latest_finalized_slot },
    }
}

/// Why a signature over a header at `slot` cannot be checked, if it cannot: no
/// committee for the slot's period, or a bitfield, header or fork version of the
/// wrong size.
pub open spec fn request_error(
    s: ClientState,
    packed_bits: Seq<u8>,
    fork_version: Seq<u8>,
    slot: u64,
    header_well_formed: bool,
) -> Option<Error> {
    if !s.sync_committees.contains_key(period_of(slot)) {
        Some(Error::SyncCommitteeMissing)
    } else if packed_bits.len() != SYNC_COMMITTEE_BITS_BYTES || !header_well_formed || fork_version.len() != 4 {
        Some(Error::InvalidHash)
    } else {
        None
    }
}

/// The keys of the members of the slot's committee that took part.
pub open spec fn request_keys(s: ClientState, packed_bits: Seq<u8>, slot: u64) -> Seq<Seq<u8>> {
    participant_keys(unpack_bits(packed_bits), s.sync_committees[period_of(slot)].pubkeys@)
}

/// The message signed for a header root: its signing root under the sync-committee
/// domain of the fork version and the validators root.
pub open spec fn request_message(s: ClientState, fork_version: Seq<u8>, header_root: Seq<u8>) -> Seq<u8> {
    signing_data_root(header_root, domain_of(domain_sync_committee(), fork_version, validators_root_of(s)))
}

/// The request's own failure, if any, and otherwise the signature's verdict.
pub open spec fn outcome_after_request(
    request: Option<Error>,
    signature: SignatureCheck,
) -> Result<(), Error> {
    match request {
        Some(e) => Err(e),
        None => signature_result(signature),
    }
}

/// What an initial sync returns.
pub open spec fn initial_sync_outcome(s: ClientState, u: InitialSync) -> Result<(), Error> {
    if s.validators_root is Some {
        Err(Error::Unknown)
    } else if !committee_ok(u.current_sync_committee) {
        Err(Error::InvalidHash)
    } else if !valid_merkle_branch(
        committee_root(u.current_sync_committee),
        views(u.current_sync_committee_branch@),
        CURRENT_SYNC_COMMITTEE_DEPTH,
        CURRENT_SYNC_COMMITTEE_INDEX,
        u.header.state_root@,
    ) {
        Err(Error::InvalidSyncCommitteeMerkleProof)
    } else if !header_ok(u.header) || u.validators_root@.len() != 32 {
        Err(Error::InvalidHash)
    } else {
        Ok(())
    }
}

/// The state after a successful initial sync.
pub open spec fn after_initial_sync(s: ClientState, u: InitialSync) -> ClientState {
    store_header(
        ClientState {
            finalized_headers: s.finalized_headers,
            execution_headers: s.execution_headers,
            sync_committees: s.sync_committees.insert(period_of(u.header.slot), u.current_sync_committee),
            validators_root: Some(u.validators_root@),
            latest_finalized_slot: s.latest_finalized_slot,
        },
        header_root(u.header),
        u.header,
    )
}

/// The checks shared by the updates that advance finality: participation, the
/// finality branch, the signature.
pub open spec fn finality_outcome(
    s: ClientState,
    attested: BeaconHeader,
    finalized: BeaconHeader,
    finality_branch: Seq<Seq<u8>>,
    aggregate: SyncAggregate,
    fork_version: Seq<u8>,
    signature: SignatureCheck,
) -> Result<(), Error> {
    if !header_ok(finalized) {
        Err(Error::InvalidHash)
    } else if !valid_merkle_branch(
        header_root(finalized),
        finality_branch,
        FINALIZED_ROOT_DEPTH,
        FINALIZED_ROOT_INDEX,
        attested.state_root@,
    ) {
        Err(Error::InvalidHeaderMerkleProof)
    } else {
        outcome_after_request(
            request_error(s, aggregate.sync_committee_bits@, fork_version, attested.slot, header_ok(attested)),
            signature,
        )
    }
}

/// Participation: a 64-byte bitfield in which at least two thirds of the bits are set.
pub open spec fn participation_outcome(aggregate: SyncAggregate) -> Result<(), Error> {
    if aggregate.sync_committee_bits@.len() != SYNC_COMMITTEE_BITS_BYTES {
        Err(Error::InvalidHash)
    } else if !is_supermajority(unpack_bits(aggregate.sync_committee_bits@)) {
        Err(Error::SyncCommitteeParticipantsNotSupermajority)
    } else {
        Ok(())
    }
}

/// What a sync-committee period update returns.
pub open spec fn period_update_outcome(s: ClientState, u: SyncCommitteePeriodUpdate, signature: SignatureCheck) -> Result<(), Error> {
    let next_period = period_of(u.attested_header.slot) + 1;
    if participation_outcome(u.sync_aggregate) is Err {
        participation_outcome(u.sync_aggregate)
    } else if !committee_ok(u.next_sync_committee) {
        Err(Error::InvalidHash)
    } else if !valid_merkle_branch(
        committee_root(u.next_sync_committee),
        views(u.next_sync_committee_branch@),
        NEXT_SYNC_COMMITTEE_DEPTH,
        NEXT_SYNC_COMMITTEE_INDEX,
        u.finalized_header.state_root@,
    ) {
        Err(Error::InvalidSyncCommitteeMerkleProof)
    } else if finality_outcome(
        s, u.attested_header, u.finalized_header, views(u.finality_branch@), u.sync_aggregate, u.fork_version@, signature,
    ) is Err {
        finality_outcome(
            s, u.attested_header, u.finalized_header, views(u.finality_branch@), u.sync_aggregate, u.fork_version@, signature,
        )
    } else if s.sync_committees.contains_key(next_period as u64)
        && !same_committee(s.sync_committees[next_period as u64], u.next_sync_committee) {
        Err(Error::Unknown)
    } else {
        Ok(())
    }
}

/// The state after a successful period update: the next committee stored for the
/// period after the attested header's (unless the same one is there already), and
/// the finalized header stored.
pub open spec fn after_period_update(s: ClientState, u: SyncCommitteePeriodUpdate) -> ClientState {
    let next_period = (period_of(u.attested_header.slot) + 1) as u64;
    let s1 = if s.sync_committees.contains_key(next_period) {
        s
    } else {
        ClientState {
            finalized_headers: s.finalized_headers,
            execution_headers: s.execution_headers,
            sync_committees: s.sync_committees.insert(next_period, u.next_sync_committee),
            validators_root: s.validators_root,
            latest_finalized_slot: s.latest_finalized_slot,
        }
    };
    store_header(s1, header_root(u.finalized_header), u.finalized_header)
}

/// What a finalized-header update returns.
pub open spec fn finalized_update_outcome(s: ClientState, u: FinalizedHeaderUpdate, signature: SignatureCheck) -> Result<(), Error> {
    if participation_outcome(u.sync_aggregate) is Err {
        participation_outcome(u.sync_aggregate)
    } else {
        finality_outcome(
            s, u.attested_header, u.finalized_header, views(u.finality_branch@), u.sync_aggregate, u.fork_version@, signature,
        )
    }
}

/// The state after a successful finalized-header update.
pub open spec fn after_finalized_update(s: ClientState, u: FinalizedHeaderUpdate) -> ClientState {
    store_header(s, header_root(u.finalized_header), u.finalized_header)
}

/// What an execution-header import returns.
pub open spec fn block_update_outcome(s: ClientState, u: BlockUpdate, signature: SignatureCheck) -> Result<(), Error> {
    if u.block.slot > s.latest_finalized_slot {
        Err(Error::HeaderNotFinalized)
    } else if !body_ok(u.block.body) {
        Err(Error::InvalidHash)
    } else if !s.sync_committees.contains_key(period_of(u.block.slot)) {
        Err(Error::SyncCommitteeMissing)
    } else {
        outcome_after_request(
            request_error(
                s,
                u.sync_aggregate.sync_committee_bits@,
                u.fork_version@,
                u.block.slot,
                u.block.parent_root@.len() == 32 && u.block.state_root@.len() == 32,
            ),
            signature,
        )
    }
}

/// The state after a successful execution-header import: the block's execution
/// payload stored under its block hash.
pub open spec fn after_block_update(s: ClientState, u: BlockUpdate) -> ClientState {
    ClientState {
        finalized_headers: s.finalized_headers,
        execution_headers: s.execution_headers.insert(
            u.block.body.execution_payload.block_hash@,
            u.block.body.execution_payload,
        ),
        sync_committees: s.sync_committees,
        validators_root: s.validators_root,
        latest_finalized_slot: s.latest_finalized_slot,
    }
}

/// The result that a signature check leads to.
pub fn check_signature(c: SignatureCheck) -> (r: Result<(), Error>)
    ensures
        r == signature_result(c),
{
    match c {
        SignatureCheck::Valid => Ok(()),
        SignatureCheck::InvalidSignature => Err(Error::InvalidSignature),
        SignatureCheck::InvalidSignaturePoint => Err(Error::InvalidSignaturePoint),
        SignatureCheck::InvalidAggregatePublicKeys => Err(Error::InvalidAggregatePublicKeys),
        SignatureCheck::VerificationFailed => Err(Error::SignatureVerificationFailed),
    }
}

/// Whether two committees hold the same keys.
pub fn same_committee_keys(a: &SyncCommittee, b: &SyncCommittee) -> (r: bool)
    ensures
        r == same_committee(*a, *b),
{
    if a.pubkeys.len() != b.pubkeys.len() {
        assert(views(a.pubkeys@).len() != views(b.pubkeys@).len());
        return false;
    }
    if !bytes_eq(&a.aggregate_pubkey, &b.aggregate_pubkey) {
        return false;
    }
    for i in 0..a.pubkeys.len()
        invariant
            a.pubkeys@.len() == b.pubkeys@.len(),
            forall|j: int| 0 <= j < i ==> a.pubkeys@[j]@ == b.pubkeys@[j]@,
    {
        if !bytes_eq(&a.pubkeys[i], &b.pubkeys[i]) {
            assert(views(a.pubkeys@)[i as int] != views(b.pubkeys@)[i as int]);
            return false;
        }
    }
    assert(views(a.pubkeys@) =~= views(b.pubkeys@));
    true
}

/// Checks that a sync committee is committed to by a state root through a branch
/// at the given depth and generalized index.
pub fn verify_sync_committee(
    sync_committee: &SyncCommittee,
    sync_committee_branch: &Vec<Vec<u8>>,
    header_state_root: &Vec<u8>,
    depth: u64,
    index: u64,
) -> (r: Result<(), Error>)
    ensures
        r == (if !committee_ok(*sync_committee) {
            Err(Error::InvalidHash)
        } else if !valid_merkle_branch(committee_root(*sync_committee), views(sync_committee_branch@), depth, index, header_state_root@) {
            Err(Error::InvalidSyncCommitteeMerkleProof)
        } else {
            Ok(())
        }),
{
    let committee_root = match hash_tree_root_sync_committee(sync_committee) {
        Ok(v) => v,
        Err(e) => { return Err(e); },
    };
    if !is_valid_merkle_branch(&committee_root, sync_committee_branch, depth, index, header_state_root) {
        return Err(Error::InvalidSyncCommitteeMerkleProof);
    }
    Ok(())
}

/// Checks that a block root is committed to by an attested state root through a
/// branch at the given depth and generalized index.
pub fn verify_header(
    block_root: &Vec<u8>,
    proof_branch: &Vec<Vec<u8>>,
    attested_header_state_root: &Vec<u8>,
    depth: u64,
    index: u64,
) -> (r: Result<(), Error>)
    ensures
        r == (if valid_merkle_branch(block_root@, views(proof_branch@), depth, index, attested_header_state_root@) {
            Ok(())
        } else {
            Err(Error::InvalidHeaderMerkleProof)
        }),
{
    if is_valid_merkle_branch(block_root, proof_branch, depth, index, attested_header_state_root) {
        Ok(())
    } else {
        Err(Error::InvalidHeaderMerkleProof)
    }
}

/// The beacon header of a block: its fields, with the body's hash-tree-root;
/// `InvalidHash` when the body is malformed.
pub fn block_header(block: &BeaconBlock) -> (r: Result<BeaconHeader, Error>)
    ensures
        match r {
            Ok(h) => {
                &&& body_ok(block.body)
                &&& h.slot == block.slot
                &&& h.proposer_index == block.proposer_index
                &&& h.parent_root@ == block.parent_root@
                &&& h.state_root@ == block.state_root@
                &&& h.body_root@ == body_root(block.body)
            },
            Err(e) => !body_ok(block.body) && e == Error::InvalidHash,
        },
{
    let body_root = match hash_tree_root_beacon_body(&block.body) {
        Ok(v) => v,
        Err(e) => { return Err(e); },
    };
    Ok(BeaconHeader {
        slot: block.slot,
        proposer_index: block.proposer_index,
        parent_root: copy_bytes(&block.parent_root),
        state_root: copy_bytes(&block.state_root),
        body_root,
    })
}

/// An Ethereum beacon-chain light client: sync committees by period, finalized
/// headers by root, execution headers by block hash.
pub struct Pallet {
    finalized_headers: RootTable<BeaconHeader>,
    execution_headers: RootTable<ExecutionHeader>,
    sync_committees: PeriodTable,
    validators_root: Option<Vec<u8>>,
    latest_finalized_slot: u64,
}

impl View for Pallet {
    type V = ClientState;

    closed spec fn view(&self) -> ClientState {
        ClientState {
            finalized_headers: self.finalized_headers@,
            execution_headers: self.execution_headers@,
            sync_committees: self.sync_committees@,
            validators_root: match self.validators_root {
                Some(v) => Some(v@),
                None => None,
            },
            latest_finalized_slot: self.latest_finalized_slot,
        }
    }
}

impl Pallet {
    /// The client's invariant.
    pub open spec fn wf(&self) -> bool {
        state_wf(self@)
    }

    /// A client before its initial sync: nothing stored.
    pub fn new() -> (r: Self)
        ensures
            r.wf(),
            r@.finalized_headers == Map::<Seq<u8>, BeaconHeader>::empty(),
            r@.execution_headers == Map::<Seq<u8>, ExecutionHeader>::empty(),
            r@.sync_committees == Map::<u64, SyncCommittee>::empty(),
            r@.validators_root is None,
            r@.latest_finalized_slot == 0,
    {
        Pallet {
            finalized_headers: RootTable::new(),
            execution_headers: RootTable::new(),
            sync_committees: PeriodTable::new(),
            validators_root: None,
            latest_finalized_slot: 0,
        }
    }

    fn signature_precheck(
        &self,
        packed_bits: &Vec<u8>,
        fork_version: &Vec<u8>,
        slot: u64,
        header_well_formed: bool,
    ) -> (r: Option<Error>)
        ensures
            r == request_error(self@, packed_bits@, fork_version@, slot, header_well_formed),
    {
        let period = compute_current_sync_period(slot);
        if self.sync_committees.get(period).is_none() {
            return Some(Error::SyncCommitteeMissing);
        }
        if packed_bits.len() != SYNC_COMMITTEE_BITS_BYTES || !header_well_formed || fork_version.len() != 4 {
            return Some(Error::InvalidHash);
        }
        None
    }
    /// The latest slot of any finalized header stored.
    pub fn latest_finalized_slot(&self) -> (r: u64)
        ensures
            r == self@.latest_finalized_slot,
    {
        self.latest_finalized_slot
    }

    /// The validators root, once the initial sync has set it.
    pub fn validators_root(&self) -> (r: Option<&Vec<u8>>)
        ensures
            match r {
                Some(v) => self@.validators_root == Some(v@),
                None => self@.validators_root is None,
            },
    {
        match &self.validators_root {
            Some(v) => Some(v),
            None => None,
        }
    }

    /// The finalized header stored under a block root, if any.
    pub fn finalized_header(&self, block_root: &Vec<u8>) -> (r: Option<&BeaconHeader>)
        ensures
            match r {
                Some(h) => self@.finalized_headers.contains_key(block_root@) && *h == self@.finalized_headers[block_root@],
                None => !self@.finalized_headers.contains_key(block_root@),
            },
    {
        self.finalized_headers.get(block_root)
    }

    /// The execution header stored under a block hash, if any.
    pub fn execution_header(&self, block_hash: &Vec<u8>) -> (r: Option<&ExecutionHeader>)
        ensures
            match r {
                Some(h) => self@.execution_headers.contains_key(block_hash@) && *h == self@.execution_headers[block_hash@],
                None => !self@.execution_headers.contains_key(block_hash@),
            },
    {
        self.execution_headers.get(block_hash)
    }

    /// The sync committee of a period; `SyncCommitteeMissing` when none is stored.
    pub fn get_sync_committee_for_period(&self, period: u64) -> (r: Result<&SyncCommittee, Error>)
        ensures
            match r {
                Ok(c) => self@.sync_committees.contains_key(period) && *c == self@.sync_committees[period],
                Err(e) => !self@.sync_committees.contains_key(period) && e == Error::SyncCommitteeMissing,
            },
    {
        match self.sync_committees.get(period) {
            Some(c) => Ok(c),
            None => Err(Error::SyncCommitteeMissing),
        }
    }

    fn store_finalized_header(&mut self, block_root: Vec<u8>, header: BeaconHeader)
        requires
            old(self).wf(),
            old(self)@.validators_root is Some,
            header_ok(header),
            header_root(header) == block_root@,
        ensures
            final(self).wf(),
            final(self)@ == store_header(old(self)@, block_root@, header),
    {
        let slot = header.slot;
        self.finalized_headers.insert(block_root, header);
        if slot > self.latest_finalized_slot {
            self.latest_finalized_slot = slot;
        }
    }

    /// What the aggregate signature over `header` must be checked against: the keys
    /// of the members of the committee for the header's period whose bits are set,
    /// and the header's signing root under the sync-committee domain of the fork
    /// version and the validators root.
    pub fn signature_request(
        &self,
        sync_aggregate: &SyncAggregate,
        fork_version: &Vec<u8>,
        header: &BeaconHeader,
    ) -> (r: Result<SignatureRequest, Error>)
        requires
            self.wf(),
        ensures
            match r {
                Ok(req) => {
                    &&& request_error(self@, sync_aggregate.sync_committee_bits@, fork_version@, header.slot, header_ok(*header)) is None
                    &&& views(req.pubkeys@) == request_keys(self@, sync_aggregate.sync_committee_bits@, header.slot)
                    &&& req.message@ == request_message(self@, fork_version@, header_root(*header))
                    &&& req.signature@ == sync_aggregate.sync_committee_signature@
                },
                Err(e) => request_error(self@, sync_aggregate.sync_committee_bits@, fork_version@, header.slot, header_ok(*header)) == Some(e),
            },
    {
        let header_well_formed = header.parent_root.len() == 32 && header.state_root.len() == 32
            && header.body_root.len() == 32;
        match self.signature_precheck(&sync_aggregate.sync_committee_bits, fork_version, header.slot, header_well_formed) {
            Some(e) => { return Err(e); },
            None => {},
        }
        let period = compute_current_sync_period(header.slot);
        let committee = match self.sync_committees.get(period) {
            Some(c) => c,
            None => { return Err(Error::SyncCommitteeMissing); },
        };
        let bits = match get_sync_committee_bits(&sync_aggregate.sync_committee_bits) {
            Ok(b) => b,
            Err(e) => { return Err(e); },
        };
        let pubkeys = participant_pubkeys(&bits, &committee.pubkeys);
        let validators_root = match &self.validators_root {
            Some(v) => v,
            None => { return Err(Error::Unknown); },
        };
        let domain_type = domain_sync_committee_bytes();
        let domain = compute_domain(&domain_type, Some(fork_version), validators_root);
        let message = match compute_signing_root(header, &domain) {
            Ok(m) => m,
            Err(e) => { return Err(e); },
        };
        Ok(SignatureRequest { pubkeys, message, signature: copy_bytes(&sync_aggregate.sync_committee_signature) })
    }

    /// Bootstraps the client: checks that the committee is committed to by the
    /// header's state root, then stores the committee for the header's period, the
    /// header under its root, and the validators root. Refused once done.
    pub fn initial_sync(&mut self, initial_sync: InitialSync) -> (r: Result<(), Error>)
        requires
            old(self).wf(),
        ensures
            final(self).wf(),
            r == initial_sync_outcome(old(self)@, initial_sync),
            r is Ok ==> final(self)@ == after_initial_sync(old(self)@, initial_sync),
            r is Err ==> final(self)@ == old(self)@,
            final(self)@.latest_finalized_slot >= old(self)@.latest_finalized_slot,
    {
        if self.validators_root.is_some() {
            return Err(Error::Unknown);
        }
        match verify_sync_committee(
            &initial_sync.current_sync_committee,
            &initial_sync.current_sync_committee_branch,
            &initial_sync.header.state_root,
            CURRENT_SYNC_COMMITTEE_DEPTH,
            CURRENT_SYNC_COMMITTEE_INDEX,
        ) {
            Ok(()) => {},
            Err(e) => { return Err(e); },
        }
        let block_root = match hash_tree_root_beacon_header(&initial_sync.header) {
            Ok(v) => v,
            Err(e) => { return Err(e); },
        };
        if initial_sync.validators_root.len() != 32 {
            return Err(Error::InvalidHash);
        }
        let period = compute_current_sync_period(initial_sync.header.slot);
        self.sync_committees.insert(period, initial_sync.current_sync_committee);
        self.validators_root = Some(initial_sync.validators_root);
        self.store_finalized_header(block_root, initial_sync.header);
        Ok(())
    }

    fn check_participation(aggregate: &SyncAggregate) -> (r: Result<Vec<u8>, Error>)
        ensures
            match r {
                Ok(bits) => participation_outcome(*aggregate) is Ok,
                Err(e) => participation_outcome(*aggregate) == Err::<(), Error>(e),
            },
    {
        let bits = match get_sync_committee_bits(&aggregate.sync_committee_bits) {
            Ok(b) => b,
            Err(e) => { return Err(e); },
        };
        match sync_committee_participation_is_supermajority(&bits) {
            Ok(()) => Ok(bits),
            Err(e) => Err(e),
        }
    }

    fn check_finality(
        &self,
        attested: &BeaconHeader,
        finalized: &BeaconHeader,
        finality_branch: &Vec<Vec<u8>>,
        aggregate: &SyncAggregate,
        fork_version: &Vec<u8>,
        signature: SignatureCheck,
    ) -> (r: Result<Vec<u8>, Error>)
        requires
            self.wf(),
        ensures
            match r {
                Ok(root) => {
                    &&& finality_outcome(self@, *attested, *finalized, views(finality_branch@), *aggregate, fork_version@, signature) is Ok
                    &&& header_ok(*finalized)
                    &&& root@ == header_root(*finalized)
                },
                Err(e) => finality_outcome(self@, *attested, *finalized, views(finality_branch@), *aggregate, fork_version@, signature)
                    == Err::<(), Error>(e),
            },
    {
        let block_root = match hash_tree_root_beacon_header(finalized) {
            Ok(v) => v,
            Err(e) => { return Err(e); },
        };
        match verify_header(&block_root, finality_branch, &attested.state_root, FINALIZED_ROOT_DEPTH, FINALIZED_ROOT_INDEX) {
            Ok(()) => {},
            Err(e) => { return Err(e); },
        }
        let attested_ok = attested.parent_root.len() == 32 && attested.state_root.len() == 32
            && attested.body_root.len() == 32;
        match self.signature_precheck(&aggregate.sync_committee_bits, fork_version, attested.slot, attested_ok) {
            Some(e) => { return Err(e); },
            None => {},
        }
        match check_signature(signature) {
            Ok(()) => Ok(block_root),
            Err(e) => Err(e),
        }
    }

    /// Hands over to the next sync committee: checks participation, that the next
    /// committee is committed to by the finalized header's state root, that the
    /// finalized header is committed to by the attested header's state root, and
    /// the signature of the attested header's committee; then stores the next
    /// committee for the following period and the finalized header.
    pub fn sync_committee_period_update(
        &mut self,
        update: SyncCommitteePeriodUpdate,
        signature: SignatureCheck,
    ) -> (r: Result<(), Error>)
        requires
            old(self).wf(),
        ensures
            final(self).wf(),
            r == period_update_outcome(old(self)@, update, signature),
            r is Ok ==> final(self)@ == after_period_update(old(self)@, update),
            r is Err ==> final(self)@ == old(self)@,
            final(self)@.latest_finalized_slot >= old(self)@.latest_finalized_slot,
    {
        match Self::check_participation(&update.sync_aggregate) {
            Ok(_) => {},
            Err(e) => { return Err(e); },
        }
        match verify_sync_committee(
            &update.next_sync_committee,
            &update.next_sync_committee_branch,
            &update.finalized_header.state_root,
            NEXT_SYNC_COMMITTEE_DEPTH,
            NEXT_SYNC_COMMITTEE_INDEX,
        ) {
            Ok(()) => {},
            Err(e) => { return Err(e); },
        }
        let block_root = match self.check_finality(
            &update.attested_header,
            &update.finalized_header,
            &update.finality_branch,
            &update.sync_aggregate,
            &update.fork_version,
            signature,
        ) {
            Ok(v) => v,
            Err(e) => { return Err(e); },
        };
        let current_period = compute_current_sync_period(update.attested_header.slot);
        let next_period = current_period + 1;
        let present = match self.sync_committees.get(next_period) {
            Some(c) => {
                if !same_committee_keys(c, &update.next_sync_committee) {
                    return Err(Error::Unknown);
                }
                true
            },
            None => false,
        };
        if !present {
            self.sync_committees.insert(next_period, update.next_sync_committee);
        }
        self.store_finalized_header(block_root, update.finalized_header);
        Ok(())
    }

    /// Advances finality within a period: checks participation, that the
    /// finalized header is committed to by the attested header's state root, and
    /// the signature; then stores the finalized header.
    pub fn import_finalized_header(
        &mut self,
        update: FinalizedHeaderUpdate,
        signature: SignatureCheck,
    ) -> (r: Result<(), Error>)
        requires
            old(self).wf(),
        ensures
            final(self).wf(),
            r == finalized_update_outcome(old(self)@, update, signature),
            r is Ok ==> final(self)@ == after_finalized_update(old(self)@, update),
            r is Err ==> final(self)@ == old(self)@,
            final(self)@.latest_finalized_slot >= old(self)@.latest_finalized_slot,
    {
        match Self::check_participation(&update.sync_aggregate) {
            Ok(_) => {},
            Err(e) => { return Err(e); },
        }
        let block_root = match self.check_finality(
            &update.attested_header,
            &update.finalized_header,
            &update.finality_branch,
            &update.sync_aggregate,
            &update.fork_version,
            signature,
        ) {
            Ok(v) => v,
            Err(e) => { return Err(e); },
        };
        self.store_finalized_header(block_root, update.finalized_header);
        Ok(())
    }

    /// Stores the execution payload of a block at or below the latest finalized
    /// slot, once the signature of the committee for the block's period over the
    /// block's header is checked.
    pub fn import_execution_header(&mut self, update: BlockUpdate, signature: SignatureCheck) -> (r: Result<(), Error>)
        requires
            old(self).wf(),
        ensures
            final(self).wf(),
            r == block_update_outcome(old(self)@, update, signature),
            r is Ok ==> final(self)@ == after_block_update(old(self)@, update),
            r is Err ==> final(self)@ == old(self)@,
            final(self)@.latest_finalized_slot >= old(self)@.latest_finalized_slot,
    {
        if update.block.slot > self.latest_finalized_slot {
            return Err(Error::HeaderNotFinalized);
        }
        match hash_tree_root_beacon_body(&update.block.body) {
            Ok(_) => {},
            Err(e) => { return Err(e); },
        }
        let period = compute_current_sync_period(update.block.slot);
        if self.sync_committees.get(period).is_none() {
            return Err(Error::SyncCommitteeMissing);
        }
        let header_well_formed = update.block.parent_root.len() == 32 && update.block.state_root.len() == 32;
        match self.signature_precheck(&update.sync_aggregate.sync_committee_bits, &update.fork_version, update.block.slot, header_well_formed) {
            Some(e) => { return Err(e); },
            None => {},
        }
        match check_signature(signature) {
            Ok(()) => {},
            Err(e) => { return Err(e); },
        }
        let payload = update.block.body.execution_payload;
        let block_hash = copy_bytes(&payload.block_hash);
        self.execution_headers.insert(block_hash, payload);
        Ok(())
    }

    /// Receipt inclusion is not checked yet: any call succeeds and changes nothing.
    pub fn verify_eth1_receipt_inclusion(&self) -> (r: Result<(), Error>)
        ensures
            r is Ok,
    {
        Ok(())
    }
}

/// Storing a finalized header sets the latest finalized slot to the larger of its
/// old value and the header's slot, so it never decreases.
pub proof fn lemma_store_header_latest_slot(s: ClientState, root: Seq<u8>, h: BeaconHeader)
    ensures
        store_header(s, root, h).latest_finalized_slot == if h.slot > s.latest_finalized_slot {
            h.slot
        } else {
            s.latest_finalized_slot
        },
        store_header(s, root, h).latest_finalized_slot >= s.latest_finalized_slot,
        store_header(s, root, h).latest_finalized_slot >= h.slot,
{
}

/// Every finalized header is stored under its own hash-tree-root.
pub proof fn lemma_finalized_header_keyed_by_root(client: &Pallet, root: Seq<u8>)
    requires
        client.wf(),
        client@.finalized_headers.contains_key(root),
    ensures
        header_root(client@.finalized_headers[root]) == root,
        client@.finalized_headers[root].slot <= client@.latest_finalized_slot,
{
}

} // verus!
