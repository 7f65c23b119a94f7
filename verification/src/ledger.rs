//! The address-keyed store of records, and the five operations on it with
//! the addresses of the records they touch already resolved.

use crate::address::Address;
use crate::errors::{GovernanceError, OperationError};
use crate::instructions::authorize;
use crate::instructions::commit_vote_results;
use crate::instructions::commit_vote_results::CommitVoteResults;
use crate::instructions::create_organization;
use crate::instructions::create_organization::CreateOrganization;
use crate::instructions::create_proposal;
use crate::instructions::create_proposal::CreateProposal;
use crate::instructions::finalize_proposal;
use crate::instructions::finalize_proposal::FinalizeProposal;
use crate::instructions::update_proposal_status;
use crate::instructions::update_proposal_status::UpdateProposalStatus;
use crate::state::{byte_len, OrganizationAccount, ProposalAccount, ProposalResultsAccount, ProposalStatus};
use vstd::prelude::*;

verus! {

/// No address occurs twice among `keys`.
pub open spec fn distinct(keys: Seq<Address>) -> bool {
    forall|i: int, j: int| 0 <= i < j < keys.len() ==> keys[i] != keys[j]
}

/// An index at which `key` stands among `keys`, where it stands there.
pub open spec fn position(keys: Seq<Address>, key: Address) -> int {
    choose|i: int| 0 <= i < keys.len() && keys[i] == key
}

/// The map from each of `keys` to the value at the same index.
pub open spec fn table<V>(keys: Seq<Address>, values: Seq<V>) -> Map<Address, V> {
    Map::new(|a: Address| keys.contains(a), |a: Address| values[position(keys, a)])
}

/// Among distinct keys, each stands at one index only.
pub proof fn lemma_position(keys: Seq<Address>, i: int)
    requires
        distinct(keys),
        0 <= i < keys.len(),
    ensures
        keys.contains(keys[i]),
        position(keys, keys[i]) == i,
{
    let p = position(keys, keys[i]);
    assert(0 <= p < keys.len() && keys[p] == keys[i]);
}

/// Appending an entry under a new key inserts it into the map.
pub proof fn lemma_table_push<V>(keys: Seq<Address>, values: Seq<V>, key: Address, value: V)
    requires
        distinct(keys),
        keys.len() == values.len(),
        !keys.contains(key),
    ensures
        distinct(keys.push(key)),
        table(keys.push(key), values.push(value)) == table(keys, values).insert(key, value),
{
    let longer = keys.push(key);
    assert forall|i: int, j: int| 0 <= i < j < longer.len() implies longer[i] != longer[j] by {
        if j == keys.len() {
            assert(keys.contains(keys[i]));
        }
    }
    assert(longer[keys.len() as int] == key);
    lemma_position(longer, keys.len() as int);
    assert forall|a: Address| keys.contains(a) implies longer.contains(a) && position(longer, a)
        == position(keys, a) by {
        let p = position(keys, a);
        assert(longer[p] == a);
        lemma_position(longer, p);
    }
    assert forall|a: Address| longer.contains(a) implies keys.contains(a) || a == key by {
        let p = position(longer, a);
        if p < keys.len() {
            assert(keys[p] == a);
        }
    }
    assert(table(longer, values.push(value)) =~= table(keys, values).insert(key, value));
}

/// Replacing the value at an index replaces it in the map.
pub proof fn lemma_table_update<V>(keys: Seq<Address>, values: Seq<V>, i: int, value: V)
    requires
        distinct(keys),
        keys.len() == values.len(),
        0 <= i < keys.len(),
    ensures
        table(keys, values.update(i, value)) == table(keys, values).insert(keys[i], value),
{
    lemma_position(keys, i);
    assert forall|a: Address| keys.contains(a) && a != keys[i] implies position(keys, a) != i by {}
    assert(table(keys, values.update(i, value)) =~= table(keys, values).insert(keys[i], value));
}

/// Finds the first index of `key` among `keys`.
pub fn find(keys: &Vec<Address>, key: &Address) -> (r: Option<usize>)
    ensures
        match r {
            Some(i) => i < keys@.len() && keys@[i as int] == *key && forall|j: int|
                0 <= j < i ==> keys@[j] != *key,
            None => !keys@.contains(*key),
        },
{
    let mut i: usize = 0;
    while i < keys.len()
        invariant
            0 <= i <= keys@.len(),
            forall|j: int| 0 <= j < i ==> keys@[j] != *key,
        decreases keys@.len() - i,
    {
        if keys[i].same(key) {
            return Some(i);
        }
        i += 1;
    }
    None
}

/// What a ledger holds: the records of each kind by their addresses.
pub struct LedgerState {
    pub program_id: Address,
    pub organizations: Map<Address, OrganizationAccount>,
    pub proposals: Map<Address, ProposalAccount>,
    pub results: Map<Address, ProposalResultsAccount>,
}

/// The store of all records. Each kind is kept as a list of addresses and
/// a list of records of the same length, in the order of creation.
#[derive(Debug)]
pub struct Ledger {
    pub program_id: Address,
    pub organization_keys: Vec<Address>,
    pub organizations: Vec<OrganizationAccount>,
    pub proposal_keys: Vec<Address>,
    pub proposals: Vec<ProposalAccount>,
    pub results_keys: Vec<Address>,
    pub results: Vec<ProposalResultsAccount>,
}

impl View for Ledger {
    type V = LedgerState;

    open spec fn view(&self) -> LedgerState {
        LedgerState {
            program_id: self.program_id,
            organizations: table(self.organization_keys@, self.organizations@),
            proposals: table(self.proposal_keys@, self.proposals@),
            results: table(self.results_keys@, self.results@),
        }
    }
}

/// Creation of an organization at `address`: create-if-absent, then the
/// check of the name.
pub open spec fn create_organization_step(
    s: LedgerState,
    address: Address,
    bump: u8,
    caller: Address,
    now: i64,
    organization_id: [u8; 16],
    name: String,
) -> (Result<(), OperationError>, LedgerState) {
    if s.organizations.contains_key(address) {
        (Err(OperationError::AddressInUse), s)
    } else if byte_len(name@) > OrganizationAccount::MAX_NAME_LENGTH {
        (Err(OperationError::Governance(GovernanceError::NameTooLong)), s)
    } else {
        (
            Ok(()),
            LedgerState {
                organizations: s.organizations.insert(
                    address,
                    create_organization::new_organization(caller, bump, now, organization_id, name),
                ),
                ..s
            },
        )
    }
}

/// Creation of a proposal at `address` under the organization at
/// `organization`: the organization must exist, the guard must pass, the
/// address must be free, and the request must be valid.
pub open spec fn create_proposal_step(
    s: LedgerState,
    organization: Address,
    address: Address,
    bump: u8,
    caller: Address,
    now: i64,
    proposal_id: [u8; 16],
    organization_id: [u8; 16],
    title: String,
    content_hash: [u8; 32],
    start_at: Option<i64>,
    end_at: Option<i64>,
    eligible_voting_power: u64,
    quorum_requirement: Option<u16>,
) -> (Result<(), OperationError>, LedgerState) {
    if !s.organizations.contains_key(organization) {
        (Err(OperationError::Governance(GovernanceError::OrganizationNotFound)), s)
    } else if s.organizations[organization].authority != caller {
        (Err(OperationError::Governance(GovernanceError::Unauthorized)), s)
    } else if s.proposals.contains_key(address) {
        (Err(OperationError::AddressInUse), s)
    } else {
        match create_proposal::rejection(
            s.organizations[organization],
            caller,
            organization_id,
            title@,
            start_at,
            end_at,
            quorum_requirement,
        ) {
            Some(e) => (Err(OperationError::Governance(e)), s),
            None => (
                Ok(()),
                LedgerState {
                    organizations: s.organizations.insert(
                        organization,
                        create_proposal::counted(s.organizations[organization]),
                    ),
                    proposals: s.proposals.insert(
                        address,
                        create_proposal::new_proposal(
                            caller,
                            bump,
                            now,
                            proposal_id,
                            organization_id,
                            title,
                            content_hash,
                            start_at,
                            end_at,
                            eligible_voting_power,
                            quorum_requirement,
                        ),
                    ),
                    ..s
                },
            ),
        }
    }
}

/// The generic status update of the proposal at `proposal`, whose parent
/// organization is at `organization`.
pub open spec fn update_proposal_status_step(
    s: LedgerState,
    proposal: Address,
    organization: Address,
    caller: Address,
    now: i64,
    new_status: ProposalStatus,
) -> (Result<(), OperationError>, LedgerState) {
    if !s.proposals.contains_key(proposal) {
        (Err(OperationError::Governance(GovernanceError::ProposalNotFound)), s)
    } else if !s.organizations.contains_key(organization) {
        (Err(OperationError::Governance(GovernanceError::OrganizationNotFound)), s)
    } else {
        match update_proposal_status::outcome(
            s.proposals[proposal],
            s.organizations[organization],
            caller,
            new_status,
        ) {
            Err(e) => (Err(OperationError::Governance(e)), s),
            Ok(_) => (
                Ok(()),
                LedgerState {
                    proposals: s.proposals.insert(
                        proposal,
                        update_proposal_status::moved(s.proposals[proposal], new_status, now),
                    ),
                    ..s
                },
            ),
        }
    }
}

/// Commitment of results at `results` for the proposal at `proposal`: the
/// guard first, then create-if-absent, then the proposal's status.
pub open spec fn commit_vote_results_step(
    s: LedgerState,
    proposal: Address,
    organization: Address,
    results: Address,
    bump: u8,
    caller: Address,
    now: i64,
    results_hash: [u8; 32],
    winning_option_id: Option<[u8; 16]>,
    total_votes_cast: u64,
    quorum_met: bool,
) -> (Result<(), OperationError>, LedgerState) {
    if !s.proposals.contains_key(proposal) {
        (Err(OperationError::Governance(GovernanceError::ProposalNotFound)), s)
    } else if !s.organizations.contains_key(organization) {
        (Err(OperationError::Governance(GovernanceError::OrganizationNotFound)), s)
    } else if s.organizations[organization].authority != caller {
        (Err(OperationError::Governance(GovernanceError::Unauthorized)), s)
    } else if s.results.contains_key(results) {
        (Err(OperationError::Governance(GovernanceError::ResultsAlreadyExists)), s)
    } else {
        match commit_vote_results::rejection(s.proposals[proposal], s.organizations[organization], caller) {
            Some(e) => (Err(OperationError::Governance(e)), s),
            None => (
                Ok(()),
                LedgerState {
                    results: s.results.insert(
                        results,
                        commit_vote_results::new_results(
                            s.proposals[proposal].proposal_id,
                            bump,
                            now,
                            results_hash,
                            winning_option_id,
                            total_votes_cast,
                            quorum_met,
                        ),
                    ),
                    ..s
                },
            ),
        }
    }
}

/// Finalization of the proposal at `proposal` with its results at
/// `results`: the guard first, then the proposal's status, then the
/// results, which must exist and belong to the proposal.
pub open spec fn finalize_proposal_step(
    s: LedgerState,
    proposal: Address,
    organization: Address,
    results: Address,
    caller: Address,
    now: i64,
) -> (Result<(), OperationError>, LedgerState) {
    if !s.proposals.contains_key(proposal) {
        (Err(OperationError::Governance(GovernanceError::ProposalNotFound)), s)
    } else if !s.organizations.contains_key(organization) {
        (Err(OperationError::Governance(GovernanceError::OrganizationNotFound)), s)
    } else if s.organizations[organization].authority != caller {
        (Err(OperationError::Governance(GovernanceError::Unauthorized)), s)
    } else if s.proposals[proposal].status != ProposalStatus::Closed {
        (Err(OperationError::Governance(GovernanceError::ProposalNotClosedForFinalization)), s)
    } else if !s.results.contains_key(results) {
        (Err(OperationError::Governance(GovernanceError::ResultsNotFound)), s)
    } else {
        match finalize_proposal::rejection(
            s.proposals[proposal],
            s.results[results],
            s.organizations[organization],
            caller,
        ) {
            Some(e) => (Err(OperationError::Governance(e)), s),
            None => (
                Ok(()),
                LedgerState {
                    proposals: s.proposals.insert(
                        proposal,
                        finalize_proposal::sealed_proposal(s.proposals[proposal], now),
                    ),
                    results: s.results.insert(
                        results,
                        finalize_proposal::sealed_results(s.results[results], now),
                    ),
                    ..s
                },
            ),
        }
    }
}

/// One operation on the ledger, with the addresses of the records it
/// touches.
#[derive(Debug)]
pub enum Request {
    CreateOrganization {
        address: Address,
        bump: u8,
        caller: Address,
        now: i64,
        organization_id: [u8; 16],
        name: String,
    },
    CreateProposal {
        organization: Address,
        address: Address,
        bump: u8,
        caller: Address,
        now: i64,
        proposal_id: [u8; 16],
        organization_id: [u8; 16],
        title: String,
        content_hash: [u8; 32],
        start_at: Option<i64>,
        end_at: Option<i64>,
        eligible_voting_power: u64,
        quorum_requirement: Option<u16>,
    },
    UpdateProposalStatus {
        proposal: Address,
        organization: Address,
        caller: Address,
        now: i64,
        new_status: ProposalStatus,
    },
    CommitVoteResults {
        proposal: Address,
        organization: Address,
        results: Address,
        bump: u8,
        caller: Address,
        now: i64,
        results_hash: [u8; 32],
        winning_option_id: Option<[u8; 16]>,
        total_votes_cast: u64,
        quorum_met: bool,
    },
    FinalizeProposal {
        proposal: Address,
        organization: Address,
        results: Address,
        caller: Address,
        now: i64,
    },
}

/// What one operation answers and what the ledger holds after it.
pub open spec fn apply_step(s: LedgerState, request: Request) -> (
    Result<(), OperationError>,
    LedgerState,
) {
    match request {
        Request::CreateOrganization { address, bump, caller, now, organization_id, name } => {
            create_organization_step(s, address, bump, caller, now, organization_id, name)
        },
        Request::CreateProposal {
            organization,
            address,
            bump,
            caller,
            now,
            proposal_id,
            organization_id,
            title,
            content_hash,
            start_at,
            end_at,
            eligible_voting_power,
            quorum_requirement,
        } => create_proposal_step(
            s,
            organization,
            address,
            bump,
            caller,
            now,
            proposal_id,
            organization_id,
            title,
            content_hash,
            start_at,
            end_at,
            eligible_voting_power,
            quorum_requirement,
        ),
        Request::UpdateProposalStatus { proposal, organization, caller, now, new_status } => {
            update_proposal_status_step(s, proposal, organization, caller, now, new_status)
        },
        Request::CommitVoteResults {
            proposal,
            organization,
            results,
            bump,
            caller,
            now,
            results_hash,
            winning_option_id,
            total_votes_cast,
            quorum_met,
        } => commit_vote_results_step(
            s,
            proposal,
            organization,
            results,
            bump,
            caller,
            now,
            results_hash,
            winning_option_id,
            total_votes_cast,
            quorum_met,
        ),
        Request::FinalizeProposal { proposal, organization, results, caller, now } => {
            finalize_proposal_step(s, proposal, organization, results, caller, now)
        },
    }
}

impl Ledger {
    /// The store's invariant: each kind has as many addresses as records,
    /// no address twice, and every stored record meets its own invariant.
    pub open spec fn wf(&self) -> bool {
        &&& self.organization_keys@.len() == self.organizations@.len()
        &&& self.proposal_keys@.len() == self.proposals@.len()
        &&& self.results_keys@.len() == self.results@.len()
        &&& distinct(self.organization_keys@)
        &&& distinct(self.proposal_keys@)
        &&& distinct(self.results_keys@)
        &&& forall|i: int| 0 <= i < self.organizations@.len() ==> (#[trigger] self.organizations@[i]).wf()
        &&& forall|i: int| 0 <= i < self.proposals@.len() ==> (#[trigger] self.proposals@[i]).wf()
    }

    /// An empty ledger under `program_id`.
    pub fn new(program_id: Address) -> (r: Ledger)
        ensures
            r.wf(),
            r@.program_id == program_id,
            r@.organizations == Map::<Address, OrganizationAccount>::empty(),
            r@.proposals == Map::<Address, ProposalAccount>::empty(),
            r@.results == Map::<Address, ProposalResultsAccount>::empty(),
    {
        let r = Ledger {
            program_id,
            organization_keys: Vec::new(),
            organizations: Vec::new(),
            proposal_keys: Vec::new(),
            proposals: Vec::new(),
            results_keys: Vec::new(),
            results: Vec::new(),
        };
        assert(r@.organizations =~= Map::<Address, OrganizationAccount>::empty());
        assert(r@.proposals =~= Map::<Address, ProposalAccount>::empty());
        assert(r@.results =~= Map::<Address, ProposalResultsAccount>::empty());
        r
    }

    /// The organization stored at `address`, if there is one.
    pub fn organization(&self, address: &Address) -> (r: Option<&OrganizationAccount>)
        requires
            self.wf(),
        ensures
            r is Some == self@.organizations.contains_key(*address),
            r matches Some(found) ==> *found == self@.organizations[*address] && found.wf(),
    {
        match find(&self.organization_keys, address) {
            Some(i) => {
                proof {
                    lemma_position(self.organization_keys@, i as int);
                }
                Some(&self.organizations[i])
            },
            None => None,
        }
    }

    /// The proposal stored at `address`, if there is one.
    pub fn proposal(&self, address: &Address) -> (r: Option<&ProposalAccount>)
        requires
            self.wf(),
        ensures
            r is Some == self@.proposals.contains_key(*address),
            r matches Some(found) ==> *found == self@.proposals[*address] && found.wf(),
    {
        match find(&self.proposal_keys, address) {
            Some(i) => {
                proof {
                    lemma_position(self.proposal_keys@, i as int);
                }
                Some(&self.proposals[i])
            },
            None => None,
        }
    }

    /// The results stored at `address`, if there are any.
    pub fn results(&self, address: &Address) -> (r: Option<&ProposalResultsAccount>)
        requires
            self.wf(),
        ensures
            r is Some == self@.results.contains_key(*address),
            r matches Some(found) ==> *found == self@.results[*address],
    {
        match find(&self.results_keys, address) {
            Some(i) => {
                proof {
                    lemma_position(self.results_keys@, i as int);
                }
                Some(&self.results[i])
            },
            None => None,
        }
    }

    /// Creates an organization at `address`, with the caller as its
    /// authority and no proposals yet.
    pub fn create_organization_at(
        &mut self,
        address: &Address,
        bump: u8,
        authority: &Address,
        now: i64,
        organization_id: [u8; 16],
        name: String,
    ) -> (r: Result<(), OperationError>)
        requires
            old(self).wf(),
        ensures
            final(self).wf(),
            (r, final(self)@) == create_organization_step(
                old(self)@,
                *address,
                bump,
                *authority,
                now,
                organization_id,
                name,
            ),
    {
        if find(&self.organization_keys, address).is_some() {
            return Err(OperationError::AddressInUse);
        }
        let mut ctx = CreateOrganization {
            organization: OrganizationAccount::zeroed(),
            authority: *authority,
            bump,
        };
        match create_organization::handler(&mut ctx, now, organization_id, name) {
            Err(e) => Err(OperationError::Governance(e)),
            Ok(()) => {
                proof {
                    lemma_table_push(
                        self.organization_keys@,
                        self.organizations@,
                        *address,
                        ctx.organization,
                    );
                }
                self.organization_keys.push(*address);
                self.organizations.push(ctx.organization);
                Ok(())
            },
        }
    }

    /// Creates a proposal in `Draft` at `address` under the organization at
    /// `organization`, and counts it there.
    pub fn create_proposal_at(
        &mut self,
        organization: &Address,
        address: &Address,
        bump: u8,
        authority: &Address,
        now: i64,
        proposal_id: [u8; 16],
        organization_id: [u8; 16],
        title: String,
        content_hash: [u8; 32],
        start_at: Option<i64>,
        end_at: Option<i64>,
        eligible_voting_power: u64,
        quorum_requirement: Option<u16>,
    ) -> (r: Result<(), OperationError>)
        requires
            old(self).wf(),
        ensures
            final(self).wf(),
            (r, final(self)@) == create_proposal_step(
                old(self)@,
                *organization,
                *address,
                bump,
                *authority,
                now,
                proposal_id,
                organization_id,
                title,
                content_hash,
                start_at,
                end_at,
                eligible_voting_power,
                quorum_requirement,
            ),
    {
        let o: usize = match find(&self.organization_keys, organization) {
            Some(o) => o,
            None => {
                return Err(OperationError::Governance(GovernanceError::OrganizationNotFound));
            },
        };
        proof {
            lemma_position(self.organization_keys@, o as int);
        }
        if authorize(&self.organizations[o], authority).is_err() {
            return Err(OperationError::Governance(GovernanceError::Unauthorized));
        }
        if find(&self.proposal_keys, address).is_some() {
            return Err(OperationError::AddressInUse);
        }
        let mut ctx = CreateProposal {
            proposal: ProposalAccount::zeroed(),
            organization: self.organizations[o].duplicate(),
            authority: *authority,
            bump,
        };
        match create_proposal::handler(
            &mut ctx,
            now,
            proposal_id,
            organization_id,
            title,
            content_hash,
            start_at,
            end_at,
            eligible_voting_power,
            quorum_requirement,
        ) {
            Err(e) => Err(OperationError::Governance(e)),
            Ok(()) => {
                proof {
                    lemma_table_push(self.proposal_keys@, self.proposals@, *address, ctx.proposal);
                    lemma_table_update(
                        self.organization_keys@,
                        self.organizations@,
                        o as int,
                        ctx.organization,
                    );
                }
                self.proposal_keys.push(*address);
                self.proposals.push(ctx.proposal);
                self.organizations.set(o, ctx.organization);
                Ok(())
            },
        }
    }

    /// Moves the proposal at `proposal` through the generic part of its
    /// lifecycle.
    pub fn update_proposal_status_at(
        &mut self,
        proposal: &Address,
        organization: &Address,
        authority: &Address,
        now: i64,
        new_status: ProposalStatus,
    ) -> (r: Result<(), OperationError>)
        requires
            old(self).wf(),
        ensures
            final(self).wf(),
            (r, final(self)@) == update_proposal_status_step(
                old(self)@,
                *proposal,
                *organization,
                *authority,
                now,
                new_status,
            ),
    {
        let p: usize = match find(&self.proposal_keys, proposal) {
            Some(p) => p,
            None => {
                return Err(OperationError::Governance(GovernanceError::ProposalNotFound));
            },
        };
        let o: usize = match find(&self.organization_keys, organization) {
            Some(o) => o,
            None => {
                return Err(OperationError::Governance(GovernanceError::OrganizationNotFound));
            },
        };
        proof {
            lemma_position(self.proposal_keys@, p as int);
            lemma_position(self.organization_keys@, o as int);
        }
        let mut ctx = UpdateProposalStatus {
            proposal: self.proposals[p].duplicate(),
            organization: self.organizations[o].duplicate(),
            authority: *authority,
        };
        match update_proposal_status::handler(&mut ctx, now, new_status) {
            Err(e) => Err(OperationError::Governance(e)),
            Ok(()) => {
                proof {
                    lemma_table_update(self.proposal_keys@, self.proposals@, p as int, ctx.proposal);
                }
                self.proposals.set(p, ctx.proposal);
                Ok(())
            },
        }
    }

    /// Commits the results of the vote on the proposal at `proposal` to a
    /// new record at `results`.
    pub fn commit_vote_results_at(
        &mut self,
        proposal: &Address,
        organization: &Address,
        results: &Address,
        bump: u8,
        authority: &Address,
        now: i64,
        results_hash: [u8; 32],
        winning_option_id: Option<[u8; 16]>,
        total_votes_cast: u64,
        quorum_met: bool,
    ) -> (r: Result<(), OperationError>)
        requires
            old(self).wf(),
        ensures
            final(self).wf(),
            (r, final(self)@) == commit_vote_results_step(
                old(self)@,
                *proposal,
                *organization,
                *results,
                bump,
                *authority,
                now,
                results_hash,
                winning_option_id,
                total_votes_cast,
                quorum_met,
            ),
    {
        let p: usize = match find(&self.proposal_keys, proposal) {
            Some(p) => p,
            None => {
                return Err(OperationError::Governance(GovernanceError::ProposalNotFound));
            },
        };
        let o: usize = match find(&self.organization_keys, organization) {
            Some(o) => o,
            None => {
                return Err(OperationError::Governance(GovernanceError::OrganizationNotFound));
            },
        };
        proof {
            lemma_position(self.proposal_keys@, p as int);
            lemma_position(self.organization_keys@, o as int);
        }
        if authorize(&self.organizations[o], authority).is_err() {
            return Err(OperationError::Governance(GovernanceError::Unauthorized));
        }
        if find(&self.results_keys, results).is_some() {
            return Err(OperationError::Governance(GovernanceError::ResultsAlreadyExists));
        }
        let mut ctx = CommitVoteResults {
            results: ProposalResultsAccount::zeroed(),
            proposal: self.proposals[p].duplicate(),
            organization: self.organizations[o].duplicate(),
            authority: *authority,
            bump,
        };
        match commit_vote_results::handler(
            &mut ctx,
            now,
            results_hash,
            winning_option_id,
            total_votes_cast,
            quorum_met,
        ) {
            Err(e) => Err(OperationError::Governance(e)),
            Ok(()) => {
                proof {
                    lemma_table_push(self.results_keys@, self.results@, *results, ctx.results);
                }
                self.results_keys.push(*results);
                self.results.push(ctx.results);
                Ok(())
            },
        }
    }

    /// Finalizes the proposal at `proposal` and seals its results at
    /// `results`, both or neither.
    pub fn finalize_proposal_at(
        &mut self,
        proposal: &Address,
        organization: &Address,
        results: &Address,
        authority: &Address,
        now: i64,
    ) -> (r: Result<(), OperationError>)
        requires
            old(self).wf(),
        ensures
            final(self).wf(),
            (r, final(self)@) == finalize_proposal_step(
                old(self)@,
                *proposal,
                *organization,
                *results,
                *authority,
                now,
            ),
    {
        let p: usize = match find(&self.proposal_keys, proposal) {
            Some(p) => p,
            None => {
                return Err(OperationError::Governance(GovernanceError::ProposalNotFound));
            },
        };
        let o: usize = match find(&self.organization_keys, organization) {
            Some(o) => o,
            None => {
                return Err(OperationError::Governance(GovernanceError::OrganizationNotFound));
            },
        };
        proof {
            lemma_position(self.proposal_keys@, p as int);
            lemma_position(self.organization_keys@, o as int);
        }
        if authorize(&self.organizations[o], authority).is_err() {
            return Err(OperationError::Governance(GovernanceError::Unauthorized));
        }
        if self.proposals[p].status != ProposalStatus::Closed {
            return Err(
                OperationError::Governance(GovernanceError::ProposalNotClosedForFinalization),
            );
        }
        let k: usize = match find(&self.results_keys, results) {
            Some(k) => k,
            None => {
                return Err(OperationError::Governance(GovernanceError::ResultsNotFound));
            },
        };
        proof {
            lemma_position(self.results_keys@, k as int);
        }
        let mut ctx = FinalizeProposal {
            proposal: self.proposals[p].duplicate(),
            results: self.results[k],
            organization: self.organizations[o].duplicate(),
            authority: *authority,
        };
        match finalize_proposal::handler(&mut ctx, now) {
            Err(e) => Err(OperationError::Governance(e)),
            Ok(()) => {
                proof {
                    lemma_table_update(self.proposal_keys@, self.proposals@, p as int, ctx.proposal);
                    lemma_table_update(self.results_keys@, self.results@, k as int, ctx.results);
                }
                self.proposals.set(p, ctx.proposal);
                self.results.set(k, ctx.results);
                Ok(())
            },
        }
    }

    /// Carries out one operation: all of it, or none where it is rejected.
    pub fn apply(&mut self, request: Request) -> (r: Result<(), OperationError>)
        requires
            old(self).wf(),
        ensures
            final(self).wf(),
            (r, final(self)@) == apply_step(old(self)@, request),
            r is Err ==> final(self)@ == old(self)@,
    {
        match request {
            Request::CreateOrganization { address, bump, caller, now, organization_id, name } => {
                self.create_organization_at(&address, bump, &caller, now, organization_id, name)
            },
            Request::CreateProposal {
                organization,
                address,
                bump,
                caller,
                now,
                proposal_id,
                organization_id,
                title,
                content_hash,
                start_at,
                end_at,
                eligible_voting_power,
                quorum_requirement,
            } => self.create_proposal_at(
                &organization,
                &address,
                bump,
                &caller,
                now,
                proposal_id,
                organization_id,
                title,
                content_hash,
                start_at,
                end_at,
                eligible_voting_power,
                quorum_requirement,
            ),
            Request::UpdateProposalStatus { proposal, organization, caller, now, new_status } => {
                self.update_proposal_status_at(&proposal, &organization, &caller, now, new_status)
            },
            Request::CommitVoteResults {
                proposal,
                organization,
                results,
                bump,
                caller,
                now,
                results_hash,
                winning_option_id,
                total_votes_cast,
                quorum_met,
            } => self.commit_vote_results_at(
                &proposal,
                &organization,
                &results,
                bump,
                &caller,
                now,
                results_hash,
                winning_option_id,
                total_votes_cast,
                quorum_met,
            ),
            Request::FinalizeProposal { proposal, organization, results, caller, now } => {
                self.finalize_proposal_at(&proposal, &organization, &results, &caller, now)
            },
        }
    }
}

} // verus!
