//! The governance contract: proposals, token-weighted voting, finalisation,
//! execution behind a timelock, admin rotation, pausing, versioning and
//! multi-sig admin actions.
//!
//! The contract's storage is a [`GovernanceContract`]; its abstract content is
//! a [`GovView`]. Each operation is described by a transition on views: it
//! either succeeds and moves to the state the transition gives, or fails with
//! the error the transition gives and leaves the storage as it was (a failed
//! contract call leaves no trace). Where the contract traps on an arithmetic
//! overflow, the transition gives `None`, and the operation requires that this
//! does not happen. The caller passes the ledger time `now`, and the state of
//! the voting token contract wherever the contract reads it.
use vstd::prelude::*;
use vstd::utf8::encode_utf8;

use crate::address::{is_zero_address, spec_is_zero_address};
use crate::gov_types::{
    config_view, GovernanceConfig, SpamConfig, version_lt, ContractError, ContractState, GovEvent, MultiSigAction, MultiSigActionType,
    MultiSigActionView, MultiSigConfig, MultiSigConfigView, Proposal, ProposalState, ProposalView, Version,
    Vote, VoteRecord,
};
use crate::token::TokenContract;

verus! {

/// Maximum title length in bytes.
pub const MAX_TITLE_LEN: usize = 128;

/// Maximum description length in bytes.
pub const MAX_DESC_LEN: usize = 1024;

/// Maximum number of tags on a proposal.
pub const MAX_TAGS: usize = 5;

/// Maximum tag length in bytes.
pub const MAX_TAG_LEN: usize = 32;

/// Acceptance window of an admin nomination when none is given (48 hours).
pub const DEFAULT_ADMIN_TRANSFER_WINDOW: u64 = 172_800;

/// Default TTL bump for persistent entries, in ledgers (about 60 days).
pub const DEFAULT_PERSISTENT_STORAGE_TTL: u32 = 535_680;

/// Largest page returned by `list_proposals`.
pub const MAX_LIST_LIMIT: u64 = 50;

/// The vote `voter` cast on proposal `proposal_id`.
#[derive(Clone, Debug)]
pub struct Ballot {
    pub proposal_id: u64,
    pub voter: String,
    pub record: VoteRecord,
}

/// The time of the last proposal an address created.
#[derive(Clone, Debug)]
pub struct LastProposal {
    pub proposer: String,
    pub timestamp: u64,
}

/// An approval of a multi-sig action by one admin.
#[derive(Clone, Debug)]
pub struct Approval {
    pub action_id: u64,
    pub approver: String,
}

/// What the governance contract holds.
#[verifier::ext_equal]
pub struct GovView {
    pub admin: Option<String>,
    pub voting_token: Option<String>,
    /// Proposals in id order; the proposal with id `i + 1` stands at `i`.
    pub proposals: Seq<ProposalView>,
    /// Every vote cast, with the balance it weighed.
    pub ballots: Seq<Ballot>,
    pub min_proposal_balance: i128,
    pub proposal_cooldown: u64,
    pub contract_state: ContractState,
    pub restrict_admin_vote: bool,
    pub paused: bool,
    pub pause_reason: Option<String>,
    pub last_proposal: Seq<LastProposal>,
    pub version: Version,
    pub timelock_duration: u64,
    pub min_duration: u64,
    pub max_duration: u64,
    pub veto_threshold: i128,
    pub pending_admin: Option<String>,
    pub admin_transfer_expiry: u64,
    pub amend_window: u64,
    pub persistent_storage_ttl: u32,
    pub multisig_config: Option<MultiSigConfigView>,
    /// Multi-sig actions in id order; the action with id `i + 1` stands at `i`.
    pub multisig_actions: Seq<MultiSigActionView>,
    pub approvals: Seq<Approval>,
    pub metadata_version: u32,
    pub events: Seq<GovEvent>,
}

/// The governance contract's storage.
#[derive(Debug)]
pub struct GovernanceContract {
    admin: Option<String>,
    voting_token: Option<String>,
    proposals: Vec<Proposal>,
    ballots: Vec<Ballot>,
    min_proposal_balance: i128,
    proposal_cooldown: u64,
    contract_state: ContractState,
    restrict_admin_vote: bool,
    paused: bool,
    pause_reason: Option<String>,
    last_proposal: Vec<LastProposal>,
    version: Version,
    timelock_duration: u64,
    min_duration: u64,
    max_duration: u64,
    veto_threshold: i128,
    pending_admin: Option<String>,
    admin_transfer_expiry: u64,
    amend_window: u64,
    persistent_storage_ttl: u32,
    multisig_config: Option<MultiSigConfig>,
    multisig_actions: Vec<MultiSigAction>,
    approvals: Vec<Approval>,
    metadata_version: u32,
    events: Vec<GovEvent>,
}

impl View for GovernanceContract {
    type V = GovView;

    closed spec fn view(&self) -> GovView {
        GovView {
            admin: self.admin,
            voting_token: self.voting_token,
            proposals: self.proposals@.map_values(|p: Proposal| p@),
            ballots: self.ballots@,
            min_proposal_balance: self.min_proposal_balance,
            proposal_cooldown: self.proposal_cooldown,
            contract_state: self.contract_state,
            restrict_admin_vote: self.restrict_admin_vote,
            paused: self.paused,
            pause_reason: self.pause_reason,
            last_proposal: self.last_proposal@,
            version: self.version,
            timelock_duration: self.timelock_duration,
            min_duration: self.min_duration,
            max_duration: self.max_duration,
            veto_threshold: self.veto_threshold,
            pending_admin: self.pending_admin,
            admin_transfer_expiry: self.admin_transfer_expiry,
            amend_window: self.amend_window,
            persistent_storage_ttl: self.persistent_storage_ttl,
            multisig_config: config_view(self.multisig_config),
            multisig_actions: self.multisig_actions@.map_values(|a: MultiSigAction| a@),
            approvals: self.approvals@,
            metadata_version: self.metadata_version,
            events: self.events@,
        }
    }
}

// ---------------------------------------------------------------------------
// The model
// ---------------------------------------------------------------------------

/// Every byte is printable: no C0 control byte and no DEL.
pub open spec fn printable(b: Seq<u8>) -> bool {
    forall|i: int| 0 <= i < b.len() ==> b[i] >= 0x20 && b[i] != 0x7f
}

/// A title or description: non-empty, at most `max` bytes, all printable.
pub open spec fn valid_text(s: String, max: int) -> bool {
    let b = encode_utf8(s@);
    &&& 0 < b.len() <= max
    &&& printable(b)
}

/// At most 5 tags, each at most 32 bytes; the error for the first breach.
pub open spec fn tags_check(tags: Seq<String>) -> Result<(), ContractError> {
    if tags.len() > MAX_TAGS {
        Err(ContractError::TooManyTags)
    } else if exists|i: int| 0 <= i < tags.len() && encode_utf8(tags[i]@).len() > MAX_TAG_LEN {
        Err(ContractError::TagTooLong)
    } else {
        Ok(())
    }
}

/// The sum of the weights of the `vote` ballots cast on proposal `id`.
pub open spec fn tally(ballots: Seq<Ballot>, id: u64, vote: Vote) -> int
    decreases ballots.len(),
{
    if ballots.len() == 0 {
        0
    } else {
        let b = ballots.last();
        tally(ballots.drop_last(), id, vote) + if b.proposal_id == id && b.record.vote_type
            == vote {
            b.record.weight as int
        } else {
            0
        }
    }
}

/// A proposal's state can go from `a` to `b`: it only moves forward, from
/// Active to Passed, Rejected or Cancelled, and from Passed to Executed;
/// Rejected, Cancelled and Executed are final.
pub open spec fn state_step(a: ProposalState, b: ProposalState) -> bool {
    ||| a == b
    ||| a == ProposalState::Active && b != ProposalState::Active
    ||| a == ProposalState::Passed && b == ProposalState::Executed
}

/// `post` keeps the `i`-th proposal of `pre` with its id and proposer, and
/// moves its state only forward.
pub open spec fn keeps_proposal(pre: GovView, post: GovView, i: int) -> bool {
    &&& post.proposals[i].id == pre.proposals[i].id
    &&& post.proposals[i].proposer == pre.proposals[i].proposer
    &&& state_step(pre.proposals[i].state, post.proposals[i].state)
}

/// `post` keeps every proposal of `pre` with the same id and proposer,
/// moving its state only forward, and keeps every ballot.
pub open spec fn lifecycle_step(pre: GovView, post: GovView) -> bool {
    &&& pre.proposals.len() <= post.proposals.len()
    &&& forall|i: int| 0 <= i < pre.proposals.len() ==> #[trigger] keeps_proposal(pre, post, i)
    &&& pre.ballots.len() <= post.ballots.len()
    &&& forall|i: int| 0 <= i < pre.ballots.len() ==> #[trigger] post.ballots[i] == pre.ballots[i]
}

/// Each (proposal, voter) pair has at most one ballot.
#[verifier::opaque]
pub open spec fn ballots_unique(ballots: Seq<Ballot>) -> bool {
    forall|i: int, j: int|
        0 <= i < j < ballots.len() ==> !(ballots[i].proposal_id == ballots[j].proposal_id
            && ballots[i].voter@ == ballots[j].voter@)
}

/// Every ballot belongs to one of the proposals `1..=n`.
#[verifier::opaque]
pub open spec fn ballots_in_range(ballots: Seq<Ballot>, n: nat) -> bool {
    forall|i: int| 0 <= i < ballots.len() ==> 1 <= #[trigger] ballots[i].proposal_id <= n
}

/// Each proposer has at most one last-proposal entry.
#[verifier::opaque]
pub open spec fn last_unique(last: Seq<LastProposal>) -> bool {
    forall|i: int, j: int| 0 <= i < j < last.len() ==> last[i].proposer@ != last[j].proposer@
}

/// Each (action, approver) pair is approved at most once.
#[verifier::opaque]
pub open spec fn approvals_unique(approvals: Seq<Approval>) -> bool {
    forall|i: int, j: int|
        0 <= i < j < approvals.len() ==> !(approvals[i].action_id == approvals[j].action_id
            && approvals[i].approver@ == approvals[j].approver@)
}

/// Every approval belongs to one of the multi-sig actions `1..=n`.
#[verifier::opaque]
pub open spec fn approvals_in_range(approvals: Seq<Approval>, n: nat) -> bool {
    forall|i: int| 0 <= i < approvals.len() ==> 1 <= #[trigger] approvals[i].action_id <= n
}

/// Every proposal's tallies are the sums of the weights of its ballots.
#[verifier::opaque]
pub open spec fn tallies_match(proposals: Seq<ProposalView>, ballots: Seq<Ballot>) -> bool {
    forall|i: int|
        0 <= i < proposals.len() ==> {
            &&& #[trigger] proposals[i].votes_yes == tally(ballots, (i + 1) as u64, Vote::Yes)
            &&& proposals[i].votes_no == tally(ballots, (i + 1) as u64, Vote::No)
            &&& proposals[i].votes_abstain == tally(ballots, (i + 1) as u64, Vote::Abstain)
        }
}

/// A proposal that has not passed carries no execution time.
#[verifier::opaque]
pub open spec fn unpassed_without_timelock(proposals: Seq<ProposalView>) -> bool {
    forall|i: int|
        0 <= i < proposals.len() ==> (#[trigger] proposals[i]).state != ProposalState::Passed
            && proposals[i].state != ProposalState::Executed ==> proposals[i].execute_after == 0
}

/// Replacing proposal `old_p` by `p` keeps the execution time unset for a
/// proposal that has not passed: `p` either has passed, carries no execution
/// time, or keeps the one of `old_p`, which has not passed either.
pub open spec fn keeps_untimed(old_p: ProposalView, p: ProposalView) -> bool {
    p.state != ProposalState::Passed && p.state != ProposalState::Executed ==> {
        ||| p.execute_after == 0
        ||| p.execute_after == old_p.execute_after && old_p.state != ProposalState::Passed
            && old_p.state != ProposalState::Executed
    }
}

impl GovView {
    /// The storage invariant: proposals and multi-sig actions stand at their
    /// id, each (proposal, voter), proposer and (action, approver) appears at
    /// most once, every ballot belongs to an existing proposal, and every
    /// proposal's tallies are the sums of its ballots' weights, and a proposal
    /// that has not passed carries no execution time.
    pub open spec fn wf(self) -> bool {
        &&& forall|i: int| 0 <= i < self.proposals.len() ==> #[trigger] self.proposals[i].id == i + 1
        &&& self.proposals.len() <= u64::MAX
        &&& forall|i: int|
            0 <= i < self.multisig_actions.len() ==> #[trigger] self.multisig_actions[i].id == i + 1
        &&& self.multisig_actions.len() <= u64::MAX
        &&& ballots_unique(self.ballots)
        &&& ballots_in_range(self.ballots, self.proposals.len())
        &&& last_unique(self.last_proposal)
        &&& approvals_unique(self.approvals)
        &&& approvals_in_range(self.approvals, self.multisig_actions.len())
        &&& tallies_match(self.proposals, self.ballots)
        &&& unpassed_without_timelock(self.proposals)
    }

    /// The proposal with id `id`, if it exists.
    pub open spec fn proposal(self, id: u64) -> Option<ProposalView> {
        if 1 <= id <= self.proposals.len() {
            Some(self.proposals[id - 1])
        } else {
            None
        }
    }

    /// The view with the proposal standing at `p.id` replaced by `p`.
    pub open spec fn with_proposal(self, p: ProposalView) -> GovView {
        GovView { proposals: self.proposals.update(p.id - 1, p), ..self }
    }

    /// Whether `voter` has voted on proposal `id`.
    pub open spec fn has_voted(self, id: u64, voter: Seq<char>) -> bool {
        exists|i: int|
            0 <= i < self.ballots.len() && self.ballots[i].proposal_id == id
                && self.ballots[i].voter@ == voter
    }

    /// The vote `voter` cast on proposal `id`, if any.
    pub open spec fn vote_of(self, id: u64, voter: Seq<char>) -> Option<VoteRecord> {
        if self.has_voted(id, voter) {
            Some(
                self.ballots[choose|i: int|
                    0 <= i < self.ballots.len() && self.ballots[i].proposal_id == id
                        && self.ballots[i].voter@ == voter].record,
            )
        } else {
            None
        }
    }

    /// The time of `proposer`'s last proposal; 0 if it never proposed.
    pub open spec fn last_proposal_of(self, proposer: Seq<char>) -> u64 {
        if exists|i: int|
            0 <= i < self.last_proposal.len() && self.last_proposal[i].proposer@ == proposer {
            self.last_proposal[choose|i: int|
                0 <= i < self.last_proposal.len() && self.last_proposal[i].proposer@
                    == proposer].timestamp
        } else {
            0
        }
    }

    /// The view with `proposer`'s last proposal time set to `ts`.
    pub open spec fn with_last_proposal(self, proposer: String, ts: u64) -> GovView {
        if exists|i: int|
            0 <= i < self.last_proposal.len() && self.last_proposal[i].proposer@ == proposer@ {
            let k = choose|i: int|
                0 <= i < self.last_proposal.len() && self.last_proposal[i].proposer@
                    == proposer@;
            GovView {
                last_proposal: self.last_proposal.update(
                    k,
                    LastProposal { timestamp: ts, ..self.last_proposal[k] },
                ),
                ..self
            }
        } else {
            GovView {
                last_proposal: self.last_proposal.push(
                    LastProposal { proposer, timestamp: ts },
                ),
                ..self
            }
        }
    }

    /// Whether `approver` has approved multi-sig action `id`.
    pub open spec fn has_approved(self, id: u64, approver: Seq<char>) -> bool {
        exists|i: int|
            0 <= i < self.approvals.len() && self.approvals[i].action_id == id
                && self.approvals[i].approver@ == approver
    }

    /// The multi-sig action with id `id`, if it exists.
    pub open spec fn action(self, id: u64) -> Option<MultiSigActionView> {
        if 1 <= id <= self.multisig_actions.len() {
            Some(self.multisig_actions[id - 1])
        } else {
            None
        }
    }

    /// The view with the event `e` published.
    pub open spec fn emit(self, e: GovEvent) -> GovView {
        GovView { events: self.events.push(e), ..self }
    }

    /// Ok if `caller` is the stored admin; else the error the contract raises.
    pub open spec fn check_admin(self, caller: String) -> Result<(), ContractError> {
        match self.admin {
            None => Err(ContractError::AdminNotSet),
            Some(a) => if a@ == caller@ {
                Ok(())
            } else {
                Err(ContractError::NotAdmin)
            },
        }
    }
}

/// Whether `who` is in the admin list `admins`.
pub open spec fn in_admins(admins: Seq<String>, who: Seq<char>) -> bool {
    exists|i: int| 0 <= i < admins.len() && admins[i]@ == who
}

/// A new proposal's record.
pub open spec fn new_proposal(
    v: GovView,
    id: u64,
    proposer: String,
    title: String,
    description: String,
    quorum: i128,
    start_time: u64,
    end_time: u64,
    tags: Seq<String>,
) -> ProposalView {
    ProposalView {
        id,
        proposer,
        title,
        description,
        votes_yes: 0,
        votes_no: 0,
        votes_abstain: 0,
        quorum,
        start_time,
        end_time,
        state: ProposalState::Active,
        execute_after: 0,
        tags,
        metadata_version: v.metadata_version,
    }
}

/// The outcome of `initialize`; `supply` is the voting token's total supply.
pub open spec fn initialize_spec(
    v: GovView,
    admin: String,
    voting_token: String,
    min_proposal_balance: i128,
    proposal_cooldown: u64,
    min_duration: u64,
    max_duration: u64,
    restrict_admin_vote: bool,
    amend_window: u64,
    timelock_duration: u64,
    veto_threshold: i128,
    persistent_storage_ttl: u32,
    supply: i128,
) -> Result<GovView, ContractError> {
    if spec_is_zero_address(admin@) || spec_is_zero_address(voting_token@) {
        Err(ContractError::InvalidAddress)
    } else if v.admin is Some {
        Err(ContractError::AlreadyInitialized)
    } else if veto_threshold < 0 || veto_threshold > supply {
        Err(ContractError::InvalidVetoThreshold)
    } else {
        Ok(
            GovView {
                admin: Some(admin),
                voting_token: Some(voting_token),
                min_proposal_balance: if min_proposal_balance > 0 {
                    min_proposal_balance
                } else {
                    v.min_proposal_balance
                },
                proposal_cooldown: if proposal_cooldown > 0 {
                    proposal_cooldown
                } else {
                    v.proposal_cooldown
                },
                min_duration,
                max_duration,
                restrict_admin_vote,
                amend_window: if amend_window > 0 {
                    amend_window
                } else {
                    v.amend_window
                },
                timelock_duration: if timelock_duration > 0 {
                    timelock_duration
                } else {
                    v.timelock_duration
                },
                veto_threshold,
                persistent_storage_ttl: if persistent_storage_ttl > 0 {
                    persistent_storage_ttl
                } else {
                    v.persistent_storage_ttl
                },
                version: Version { major: 1, minor: 0, patch: 0 },
                contract_state: ContractState::Ready,
                ..v
            }.emit(GovEvent::Initialized { admin }),
        )
    }
}

/// The outcome of `create_proposal`; `supply` is the voting token's total
/// supply and `balance` the proposer's balance. `None` where the contract
/// traps on overflow.
pub open spec fn create_proposal_spec(
    v: GovView,
    proposer: String,
    title: String,
    description: String,
    quorum: i128,
    duration: u64,
    tags: Seq<String>,
    now: u64,
    supply: i128,
    balance: i128,
) -> Option<Result<(GovView, u64), ContractError>> {
    if spec_is_zero_address(proposer@) {
        Some(Err(ContractError::InvalidAddress))
    } else if v.paused {
        Some(Err(ContractError::ContractPaused))
    } else if !valid_text(title, MAX_TITLE_LEN as int) {
        Some(Err(ContractError::InvalidTitle))
    } else if !valid_text(description, MAX_DESC_LEN as int) {
        Some(Err(ContractError::InvalidDescription))
    } else if tags_check(tags) is Err {
        Some(Err(tags_check(tags)->Err_0))
    } else if quorum <= 0 {
        Some(Err(ContractError::InvalidQuorum))
    } else if duration == 0 {
        Some(Err(ContractError::InvalidDuration))
    } else if duration < v.min_duration || duration > v.max_duration {
        Some(Err(ContractError::InvalidDurationRange))
    } else if v.voting_token is None {
        Some(Err(ContractError::VotingTokenNotSet))
    } else if quorum > supply {
        Some(Err(ContractError::QuorumExceedsSupply))
    } else if v.min_proposal_balance > 0 && balance < v.min_proposal_balance {
        Some(Err(ContractError::InsufficientBalance))
    } else if v.proposal_cooldown > 0 && v.last_proposal_of(proposer@) > 0
        && v.last_proposal_of(proposer@) + v.proposal_cooldown > u64::MAX {
        None
    } else if v.proposal_cooldown > 0 && v.last_proposal_of(proposer@) > 0 && now
        < v.last_proposal_of(proposer@) + v.proposal_cooldown {
        Some(Err(ContractError::ProposalCooldown))
    } else if now + v.amend_window > u64::MAX {
        None
    } else if v.proposals.len() + 1 > u64::MAX {
        Some(Err(ContractError::ProposalCountOverflow))
    } else if now + v.amend_window + duration > u64::MAX {
        None
    } else {
        let id = (v.proposals.len() + 1) as u64;
        let start = (now + v.amend_window) as u64;
        let p = new_proposal(
            v,
            id,
            proposer,
            title,
            description,
            quorum,
            start,
            (start + duration) as u64,
            tags,
        );
        Some(
            Ok(
                (
                    GovView { proposals: v.proposals.push(p), ..v }.with_last_proposal(
                        proposer,
                        now,
                    ).emit(
                        GovEvent::ProposalCreated {
                            id,
                            proposer,
                            metadata_version: v.metadata_version,
                        },
                    ),
                    id,
                ),
            ),
        )
    }
}

/// The outcome of `amend_proposal`.
pub open spec fn amend_proposal_spec(
    v: GovView,
    proposer: String,
    proposal_id: u64,
    title: String,
    description: String,
    now: u64,
) -> Result<GovView, ContractError> {
    if spec_is_zero_address(proposer@) {
        Err(ContractError::InvalidAddress)
    } else if v.paused {
        Err(ContractError::ContractPaused)
    } else if v.proposal(proposal_id) is None {
        Err(ContractError::ProposalNotFound)
    } else {
        let p = v.proposal(proposal_id).unwrap();
        if p.state != ProposalState::Active {
            Err(ContractError::ProposalNotActive)
        } else if p.proposer@ != proposer@ {
            Err(ContractError::NotProposalOwner)
        } else if v.amend_window > 0 && now >= p.start_time {
            Err(ContractError::ProposalAmendmentNotAllowed)
        } else if !valid_text(title, MAX_TITLE_LEN as int) {
            Err(ContractError::InvalidTitle)
        } else if !valid_text(description, MAX_DESC_LEN as int) {
            Err(ContractError::InvalidDescription)
        } else {
            Ok(
                v.with_proposal(ProposalView { title, description, ..p }).emit(
                    GovEvent::ProposalAmended { id: proposal_id, proposer, title, description },
                ),
            )
        }
    }
}

/// `p` with `weight` added to the tally of `vote`; `None` on `i128` overflow.
pub open spec fn add_vote(p: ProposalView, vote: Vote, weight: i128) -> Option<ProposalView> {
    match vote {
        Vote::Yes => if p.votes_yes + weight <= i128::MAX {
            Some(ProposalView { votes_yes: (p.votes_yes + weight) as i128, ..p })
        } else {
            None
        },
        Vote::No => if p.votes_no + weight <= i128::MAX {
            Some(ProposalView { votes_no: (p.votes_no + weight) as i128, ..p })
        } else {
            None
        },
        Vote::Abstain => if p.votes_abstain + weight <= i128::MAX {
            Some(ProposalView { votes_abstain: (p.votes_abstain + weight) as i128, ..p })
        } else {
            None
        },
    }
}

/// `p` after a vote: rejected at once when the veto threshold is set and the
/// no votes reach it.
pub open spec fn apply_veto(p: ProposalView, veto_threshold: i128) -> ProposalView {
    if veto_threshold > 0 && p.votes_no >= veto_threshold {
        ProposalView { state: ProposalState::Rejected, ..p }
    } else {
        p
    }
}

/// The outcome of `cast_vote`; `balance` is the voter's voting-token balance now.
pub open spec fn cast_vote_spec(
    v: GovView,
    voter: String,
    proposal_id: u64,
    vote: Vote,
    now: u64,
    balance: i128,
) -> Result<GovView, ContractError> {
    if spec_is_zero_address(voter@) {
        Err(ContractError::InvalidAddress)
    } else if v.paused {
        Err(ContractError::ContractPaused)
    } else if v.proposal(proposal_id) is None {
        Err(ContractError::ProposalNotFound)
    } else {
        let p = v.proposal(proposal_id).unwrap();
        if p.state != ProposalState::Active {
            Err(ContractError::ProposalNotActive)
        } else if now < p.start_time {
            Err(ContractError::VotingNotStarted)
        } else if now >= p.end_time {
            Err(ContractError::VotingPeriodEnded)
        } else if v.has_voted(proposal_id, voter@) {
            Err(ContractError::AlreadyVoted)
        } else if v.restrict_admin_vote && v.admin is None {
            Err(ContractError::AdminNotSet)
        } else if v.restrict_admin_vote && v.admin.unwrap()@ == voter@ && p.proposer@
            == v.admin.unwrap()@ {
            Err(ContractError::AdminVoteRestricted)
        } else if v.voting_token is None {
            Err(ContractError::VotingTokenNotSet)
        } else if balance <= 0 {
            Err(ContractError::NoVotingPower)
        } else if add_vote(p, vote, balance) is None {
            Err(ContractError::VoteTallyOverflow)
        } else {
            let p2 = apply_veto(add_vote(p, vote, balance).unwrap(), v.veto_threshold);
            let record = VoteRecord { vote_type: vote, weight: balance };
            let v2 = GovView {
                ballots: v.ballots.push(Ballot { proposal_id, voter, record }),
                ..v.with_proposal(p2)
            }.emit(GovEvent::VoteCast { id: proposal_id, voter, vote, weight: balance });
            if p2.state == ProposalState::Rejected && v.veto_threshold > 0 && vote == Vote::No {
                Ok(
                    v2.emit(
                        GovEvent::ProposalVetoed {
                            id: proposal_id,
                            votes_no: p2.votes_no,
                            veto_threshold: v.veto_threshold,
                        },
                    ),
                )
            } else {
                Ok(v2)
            }
        }
    }
}

/// Whether a finalised proposal passes: the total of all votes reaches the
/// quorum and yes votes outnumber no votes.
pub open spec fn passes(p: ProposalView) -> bool {
    p.votes_yes + p.votes_no + p.votes_abstain >= p.quorum && p.votes_yes > p.votes_no
}

/// The outcome of `finalise`; `None` where the contract traps on an arithmetic overflow.
pub open spec fn finalise_spec(v: GovView, proposal_id: u64, now: u64) -> Option<
    Result<GovView, ContractError>,
> {
    if v.paused {
        Some(Err(ContractError::ContractPaused))
    } else if v.proposal(proposal_id) is None {
        Some(Err(ContractError::ProposalNotFound))
    } else {
        let p = v.proposal(proposal_id).unwrap();
        if p.state != ProposalState::Active {
            Some(Err(ContractError::ProposalNotActive))
        } else if now <= p.end_time {
            Some(Err(ContractError::VotingStillOpen))
        } else if !(i128::MIN <= p.votes_yes + p.votes_no <= i128::MAX) || !(i128::MIN
            <= p.votes_yes + p.votes_no + p.votes_abstain <= i128::MAX) {
            None
        } else if passes(p) {
            if p.end_time + v.timelock_duration > u64::MAX {
                None
            } else {
                let after = (p.end_time + v.timelock_duration) as u64;
                Some(
                    Ok(
                        v.with_proposal(
                            ProposalView { state: ProposalState::Passed, execute_after: after, ..p },
                        ).emit(
                            GovEvent::ProposalFinalised {
                                id: proposal_id,
                                state: ProposalState::Passed,
                                execute_after: after,
                            },
                        ),
                    ),
                )
            }
        } else {
            Some(
                Ok(
                    v.with_proposal(ProposalView { state: ProposalState::Rejected, ..p }).emit(
                        GovEvent::ProposalFinalised {
                            id: proposal_id,
                            state: ProposalState::Rejected,
                            execute_after: p.execute_after,
                        },
                    ),
                ),
            )
        }
    }
}

/// The outcome of `execute`.
pub open spec fn execute_spec(v: GovView, admin: String, proposal_id: u64, now: u64) -> Result<
    GovView,
    ContractError,
> {
    if spec_is_zero_address(admin@) {
        Err(ContractError::InvalidAddress)
    } else if v.paused {
        Err(ContractError::ContractPaused)
    } else if v.check_admin(admin) is Err {
        Err(v.check_admin(admin)->Err_0)
    } else if v.proposal(proposal_id) is None {
        Err(ContractError::ProposalNotFound)
    } else if v.proposal(proposal_id).unwrap().state != ProposalState::Passed {
        Err(ContractError::ProposalNotPassed)
    } else if now < v.proposal(proposal_id).unwrap().execute_after {
        Err(ContractError::TimelockNotExpired)
    } else {
        Ok(
            v.with_proposal(
                ProposalView { state: ProposalState::Executed, ..v.proposal(proposal_id).unwrap() },
            ).emit(GovEvent::ProposalExecuted { id: proposal_id }),
        )
    }
}

/// The outcome of `cancel`.
pub open spec fn cancel_spec(v: GovView, admin: String, proposal_id: u64) -> Result<
    GovView,
    ContractError,
> {
    if spec_is_zero_address(admin@) {
        Err(ContractError::InvalidAddress)
    } else if v.paused {
        Err(ContractError::ContractPaused)
    } else if v.check_admin(admin) is Err {
        Err(v.check_admin(admin)->Err_0)
    } else if v.proposal(proposal_id) is None {
        Err(ContractError::ProposalNotFound)
    } else if v.proposal(proposal_id).unwrap().state != ProposalState::Active {
        Err(ContractError::ProposalNotActive)
    } else {
        Ok(
            v.with_proposal(
                ProposalView { state: ProposalState::Cancelled, ..v.proposal(proposal_id).unwrap() },
            ).emit(GovEvent::ProposalCancelled { id: proposal_id }),
        )
    }
}

/// The outcome of `update_quorum`.
pub open spec fn update_quorum_spec(
    v: GovView,
    admin: String,
    proposal_id: u64,
    new_quorum: i128,
) -> Result<GovView, ContractError> {
    if spec_is_zero_address(admin@) {
        Err(ContractError::InvalidAddress)
    } else if v.paused {
        Err(ContractError::ContractPaused)
    } else if v.check_admin(admin) is Err {
        Err(v.check_admin(admin)->Err_0)
    } else if new_quorum <= 0 {
        Err(ContractError::InvalidQuorum)
    } else if v.proposal(proposal_id) is None {
        Err(ContractError::ProposalNotFound)
    } else if v.proposal(proposal_id).unwrap().state != ProposalState::Active {
        Err(ContractError::ProposalNotActive)
    } else {
        Ok(
            v.with_proposal(
                ProposalView { quorum: new_quorum, ..v.proposal(proposal_id).unwrap() },
            ).emit(GovEvent::QuorumUpdated { id: proposal_id, new_quorum }),
        )
    }
}

/// The outcome of `transfer_admin`.
pub open spec fn transfer_admin_spec(v: GovView, admin: String, new_admin: String) -> Result<
    GovView,
    ContractError,
> {
    if spec_is_zero_address(admin@) || spec_is_zero_address(new_admin@) {
        Err(ContractError::InvalidAddress)
    } else if v.paused {
        Err(ContractError::ContractPaused)
    } else if v.check_admin(admin) is Err {
        Err(v.check_admin(admin)->Err_0)
    } else {
        Ok(
            GovView { admin: Some(new_admin), ..v }.emit(
                GovEvent::AdminTransferred { old_admin: admin, new_admin },
            ),
        )
    }
}

/// The outcome of `propose_admin_transfer`; `None` where the contract traps
/// on overflow.
pub open spec fn propose_admin_transfer_spec(
    v: GovView,
    admin: String,
    new_admin: String,
    window_secs: u64,
    now: u64,
) -> Option<Result<GovView, ContractError>> {
    let window = if window_secs == 0 {
        DEFAULT_ADMIN_TRANSFER_WINDOW
    } else {
        window_secs
    };
    if spec_is_zero_address(admin@) || spec_is_zero_address(new_admin@) {
        Some(Err(ContractError::InvalidAddress))
    } else if v.paused {
        Some(Err(ContractError::ContractPaused))
    } else if v.check_admin(admin) is Err {
        Some(Err(v.check_admin(admin)->Err_0))
    } else if now + window > u64::MAX {
        None
    } else {
        let expiry = (now + window) as u64;
        Some(
            Ok(
                GovView {
                    pending_admin: Some(new_admin),
                    admin_transfer_expiry: expiry,
                    ..v
                }.emit(GovEvent::AdminTransferProposed { admin, nominee: new_admin, expiry }),
            ),
        )
    }
}

/// The outcome of `accept_admin_transfer`.
pub open spec fn accept_admin_transfer_spec(v: GovView, new_admin: String, now: u64) -> Result<
    GovView,
    ContractError,
> {
    if spec_is_zero_address(new_admin@) {
        Err(ContractError::InvalidAddress)
    } else if v.paused {
        Err(ContractError::ContractPaused)
    } else if v.pending_admin is None {
        Err(ContractError::PendingAdminNotSet)
    } else if v.pending_admin.unwrap()@ != new_admin@ {
        Err(ContractError::NotPendingAdmin)
    } else if now > v.admin_transfer_expiry {
        Err(ContractError::AdminTransferExpired)
    } else if v.admin is None {
        Err(ContractError::AdminNotSet)
    } else {
        Ok(
            GovView {
                admin: Some(new_admin),
                pending_admin: None,
                admin_transfer_expiry: 0,
                ..v
            }.emit(GovEvent::AdminTransferred { old_admin: v.admin.unwrap(), new_admin }),
        )
    }
}

/// The outcome of `pause`.
pub open spec fn pause_spec(v: GovView, admin: String, reason: Option<String>) -> Result<
    GovView,
    ContractError,
> {
    if spec_is_zero_address(admin@) {
        Err(ContractError::InvalidAddress)
    } else if v.check_admin(admin) is Err {
        Err(v.check_admin(admin)->Err_0)
    } else {
        Ok(
            GovView { paused: true, pause_reason: reason, ..v }.emit(
                GovEvent::ContractPaused { admin, reason },
            ),
        )
    }
}

/// The outcome of `unpause`.
pub open spec fn unpause_spec(v: GovView, admin: String) -> Result<GovView, ContractError> {
    if spec_is_zero_address(admin@) {
        Err(ContractError::InvalidAddress)
    } else if v.check_admin(admin) is Err {
        Err(v.check_admin(admin)->Err_0)
    } else if !v.paused {
        Err(ContractError::NotPaused)
    } else {
        Ok(
            GovView { paused: false, pause_reason: None, ..v }.emit(
                GovEvent::ContractUnpaused { admin },
            ),
        )
    }
}

/// The outcome of `migrate`.
pub open spec fn migrate_spec(v: GovView, admin: String) -> Result<GovView, ContractError> {
    let v2 = Version { major: 2, minor: 0, patch: 0 };
    if spec_is_zero_address(admin@) {
        Err(ContractError::InvalidAddress)
    } else if v.check_admin(admin) is Err {
        Err(v.check_admin(admin)->Err_0)
    } else if !version_lt(v.version, v2) {
        Ok(v)
    } else {
        Ok(
            GovView { version: v2, ..v }.emit(
                GovEvent::MigrationCompleted { old_version: v.version, new_version: v2 },
            ),
        )
    }
}

/// The outcome of `upgrade`.
pub open spec fn upgrade_spec(v: GovView, admin: String, new_version: Version) -> Result<
    GovView,
    ContractError,
> {
    if spec_is_zero_address(admin@) {
        Err(ContractError::InvalidAddress)
    } else if v.check_admin(admin) is Err {
        Err(v.check_admin(admin)->Err_0)
    } else if !version_lt(v.version, new_version) {
        Err(ContractError::DowngradeNotAllowed)
    } else {
        Ok(
            GovView { version: new_version, ..v }.emit(
                GovEvent::ContractUpgraded { old_version: v.version, new_version },
            ),
        )
    }
}

/// Ok if `admins` and `threshold` make a usable multi-sig configuration.
pub open spec fn config_check(admins: Seq<String>, threshold: u32) -> Result<(), ContractError> {
    if admins.len() == 0 {
        Err(ContractError::EmptyAdminList)
    } else if threshold == 0 || threshold > admins.len() {
        Err(ContractError::InvalidThreshold)
    } else {
        Ok(())
    }
}

/// The outcome of `initialize_multisig`.
pub open spec fn initialize_multisig_spec(
    v: GovView,
    caller: String,
    admins: Seq<String>,
    threshold: u32,
) -> Result<GovView, ContractError> {
    if spec_is_zero_address(caller@) {
        Err(ContractError::InvalidAddress)
    } else if v.check_admin(caller) is Err {
        Err(v.check_admin(caller)->Err_0)
    } else if config_check(admins, threshold) is Err {
        Err(config_check(admins, threshold)->Err_0)
    } else {
        Ok(
            GovView {
                multisig_config: Some(MultiSigConfigView { admins, threshold }),
                ..v
            }.emit(GovEvent::MultiSigConfigUpdated { threshold }),
        )
    }
}

/// The error carrying out a multi-sig action would raise, if any.
pub open spec fn action_failure(
    v: GovView,
    action_type: MultiSigActionType,
    proposal_id: u64,
    new_config: Option<MultiSigConfigView>,
    now: u64,
) -> Option<ContractError> {
    match action_type {
        MultiSigActionType::ExecuteProposal => if v.proposal(proposal_id) is None {
            Some(ContractError::ProposalNotFound)
        } else if v.proposal(proposal_id).unwrap().state != ProposalState::Passed {
            Some(ContractError::ProposalNotPassed)
        } else if now < v.proposal(proposal_id).unwrap().execute_after {
            Some(ContractError::TimelockNotExpired)
        } else {
            None
        },
        MultiSigActionType::CancelProposal => if v.proposal(proposal_id) is None {
            Some(ContractError::ProposalNotFound)
        } else if v.proposal(proposal_id).unwrap().state != ProposalState::Active {
            Some(ContractError::ProposalNotActive)
        } else {
            None
        },
        MultiSigActionType::UpdateMultiSig => match new_config {
            None => Some(ContractError::MultiSigNotConfigured),
            Some(c) => match config_check(c.admins, c.threshold) {
                Err(e) => Some(e),
                Ok(_) => None,
            },
        },
        MultiSigActionType::Pause => None,
        MultiSigActionType::Unpause => if !v.paused {
            Some(ContractError::NotPaused)
        } else {
            None
        },
    }
}

/// The state after carrying out multi-sig action `action_id`: the action is
/// marked executed and its operation performed.
pub open spec fn action_effect(
    v: GovView,
    action_id: u64,
    action_type: MultiSigActionType,
    proposal_id: u64,
    new_config: Option<MultiSigConfigView>,
) -> GovView {
    let a = v.multisig_actions[action_id - 1];
    let v1 = GovView {
        multisig_actions: v.multisig_actions.update(
            action_id - 1,
            MultiSigActionView { executed: true, ..a },
        ),
        ..v
    };
    let done = GovEvent::MultiSigActionExecuted { action_id, action_type };
    match action_type {
        MultiSigActionType::ExecuteProposal => v1.with_proposal(
            ProposalView { state: ProposalState::Executed, ..v.proposal(proposal_id).unwrap() },
        ).emit(GovEvent::ProposalExecuted { id: proposal_id }).emit(done),
        MultiSigActionType::CancelProposal => v1.with_proposal(
            ProposalView { state: ProposalState::Cancelled, ..v.proposal(proposal_id).unwrap() },
        ).emit(GovEvent::ProposalCancelled { id: proposal_id }).emit(done),
        MultiSigActionType::UpdateMultiSig => GovView {
            multisig_config: new_config,
            ..v1
        }.emit(GovEvent::MultiSigConfigUpdated { threshold: new_config.unwrap().threshold }).emit(
            done,
        ),
        MultiSigActionType::Pause => {
            let v2 = GovView { paused: true, ..v1 };
            match v.admin {
                Some(admin) => v2.emit(GovEvent::ContractPaused { admin, reason: None }).emit(done),
                None => v2.emit(done),
            }
        },
        MultiSigActionType::Unpause => {
            let v2 = GovView { paused: false, ..v1 };
            match v.admin {
                Some(admin) => v2.emit(GovEvent::ContractUnpaused { admin }).emit(done),
                None => v2.emit(done),
            }
        },
    }
}

/// The outcome of carrying out multi-sig action `action_id` once it has
/// reached its threshold.
pub open spec fn run_action_spec(
    v: GovView,
    action_id: u64,
    action_type: MultiSigActionType,
    proposal_id: u64,
    new_config: Option<MultiSigConfigView>,
    now: u64,
) -> Result<GovView, ContractError> {
    match action_failure(v, action_type, proposal_id, new_config, now) {
        Some(e) => Err(e),
        None => Ok(action_effect(v, action_id, action_type, proposal_id, new_config)),
    }
}

/// The outcome of `propose_multisig_action`.
pub open spec fn propose_multisig_action_spec(
    v: GovView,
    proposer: String,
    action_type: MultiSigActionType,
    proposal_id: u64,
    new_config: Option<MultiSigConfigView>,
    now: u64,
) -> Result<(GovView, u64), ContractError> {
    if spec_is_zero_address(proposer@) {
        Err(ContractError::InvalidAddress)
    } else if v.paused {
        Err(ContractError::ContractPaused)
    } else if v.multisig_config is None {
        Err(ContractError::MultiSigNotConfigured)
    } else if !in_admins(v.multisig_config.unwrap().admins, proposer@) {
        Err(ContractError::NotMultiSigAdmin)
    } else if v.multisig_actions.len() + 1 > u64::MAX {
        Err(ContractError::ProposalCountOverflow)
    } else {
        let id = (v.multisig_actions.len() + 1) as u64;
        let threshold = v.multisig_config.unwrap().threshold;
        let action = MultiSigActionView {
            id,
            action_type,
            proposal_id,
            new_config,
            approvals: 1,
            executed: false,
        };
        let v1 = GovView {
            multisig_actions: v.multisig_actions.push(action),
            approvals: v.approvals.push(Approval { action_id: id, approver: proposer }),
            ..v
        }.emit(GovEvent::MultiSigActionProposed { action_id: id, proposer, action_type }).emit(
            GovEvent::MultiSigActionApproved {
                action_id: id,
                approver: proposer,
                approvals: 1,
                threshold,
            },
        );
        if threshold == 1 {
            match run_action_spec(v1, id, action_type, proposal_id, new_config, now) {
                Ok(v2) => Ok((v2, id)),
                Err(e) => Err(e),
            }
        } else {
            Ok((v1, id))
        }
    }
}

/// The outcome of `approve_multisig_action`.
pub open spec fn approve_multisig_action_spec(
    v: GovView,
    approver: String,
    action_id: u64,
    now: u64,
) -> Result<GovView, ContractError> {
    if spec_is_zero_address(approver@) {
        Err(ContractError::InvalidAddress)
    } else if v.paused {
        Err(ContractError::ContractPaused)
    } else if v.multisig_config is None {
        Err(ContractError::MultiSigNotConfigured)
    } else if !in_admins(v.multisig_config.unwrap().admins, approver@) {
        Err(ContractError::NotMultiSigAdmin)
    } else if v.action(action_id) is None {
        Err(ContractError::ActionNotFound)
    } else {
        let a = v.action(action_id).unwrap();
        let threshold = v.multisig_config.unwrap().threshold;
        if a.executed {
            Err(ContractError::ActionAlreadyExecuted)
        } else if v.has_approved(action_id, approver@) {
            Err(ContractError::AlreadyApproved)
        } else if a.approvals + 1 > u32::MAX {
            Err(ContractError::VoteTallyOverflow)
        } else {
            let approvals = (a.approvals + 1) as u32;
            let v1 = GovView {
                multisig_actions: v.multisig_actions.update(
                    action_id - 1,
                    MultiSigActionView { approvals, ..a },
                ),
                approvals: v.approvals.push(Approval { action_id, approver }),
                ..v
            }.emit(
                GovEvent::MultiSigActionApproved { action_id, approver, approvals, threshold },
            );
            if approvals >= threshold {
                run_action_spec(v1, action_id, a.action_type, a.proposal_id, a.new_config, now)
            } else {
                Ok(v1)
            }
        }
    }
}

/// The page of proposals `list_proposals` returns: ids `offset + 1` up to
/// `offset + min(limit, 50)`, cut at the last proposal.
pub open spec fn list_page(v: GovView, offset: u64, limit: u64) -> Seq<ProposalView> {
    let eff = if limit > MAX_LIST_LIMIT {
        MAX_LIST_LIMIT
    } else {
        limit
    };
    if offset >= v.proposals.len() {
        Seq::empty()
    } else if offset + eff < v.proposals.len() {
        v.proposals.subrange(offset as int, offset + eff)
    } else {
        v.proposals.subrange(offset as int, v.proposals.len() as int)
    }
}

/// A call that returned `r` left the contract in `post` exactly as `outcome` says.
pub open spec fn follows(
    outcome: Result<GovView, ContractError>,
    pre: GovView,
    post: GovView,
    r: Result<(), ContractError>,
) -> bool {
    match outcome {
        Ok(v) => r is Ok && post == v,
        Err(e) => r == Err::<(), ContractError>(e) && post == pre,
    }
}

/// Like [`follows`], for an operation that returns a value on success.
pub open spec fn follows_with<T>(
    outcome: Result<(GovView, T), ContractError>,
    pre: GovView,
    post: GovView,
    r: Result<T, ContractError>,
) -> bool {
    match outcome {
        Ok((v, x)) => r == Ok::<T, ContractError>(x) && post == v,
        Err(e) => r == Err::<T, ContractError>(e) && post == pre,
    }
}


// ---------------------------------------------------------------------------
// Lemmas
// ---------------------------------------------------------------------------

/// A ballot added at the end changes only its own proposal's tally.
pub proof fn lemma_tally_push(s: Seq<Ballot>, b: Ballot, id: u64, vote: Vote)
    ensures
        tally(s.push(b), id, vote) == tally(s, id, vote) + if b.proposal_id == id
            && b.record.vote_type == vote {
            b.record.weight as int
        } else {
            0
        },
{
    assert(s.push(b).drop_last() =~= s);
}

/// A proposal no ballot refers to has empty tallies.
pub proof fn lemma_tally_absent(s: Seq<Ballot>, id: u64, vote: Vote)
    requires
        forall|i: int| 0 <= i < s.len() ==> #[trigger] s[i].proposal_id != id,
    ensures
        tally(s, id, vote) == 0,
    decreases s.len(),
{
    if s.len() > 0 {
        lemma_tally_absent(s.drop_last(), id, vote);
    }
}

/// The vote found for a (proposal, voter) pair is the ballot at `k`.
proof fn lemma_ballot_at(v: GovView, k: int)
    requires
        v.wf(),
        0 <= k < v.ballots.len(),
    ensures
        v.has_voted(v.ballots[k].proposal_id, v.ballots[k].voter@),
        v.vote_of(v.ballots[k].proposal_id, v.ballots[k].voter@) == Some(v.ballots[k].record),
{
    reveal(ballots_unique);
    let id = v.ballots[k].proposal_id;
    let who = v.ballots[k].voter@;
    assert(v.has_voted(id, who));
    let c = choose|i: int|
        0 <= i < v.ballots.len() && v.ballots[i].proposal_id == id && v.ballots[i].voter@ == who;
    if c < k {
    } else if c > k {
    }
}

/// The last-proposal entry found for `who` is the one at `k`.
proof fn lemma_last_at(v: GovView, k: int, who: Seq<char>)
    requires
        v.wf(),
        0 <= k < v.last_proposal.len(),
        v.last_proposal[k].proposer@ == who,
    ensures
        exists|i: int| 0 <= i < v.last_proposal.len() && v.last_proposal[i].proposer@ == who,
        (choose|i: int| 0 <= i < v.last_proposal.len() && v.last_proposal[i].proposer@ == who)
            == k,
        v.last_proposal_of(who) == v.last_proposal[k].timestamp,
{
    reveal(last_unique);
    assert(0 <= k < v.last_proposal.len() && v.last_proposal[k].proposer@ == who);
    let c = choose|i: int| 0 <= i < v.last_proposal.len() && v.last_proposal[i].proposer@ == who;
    if c < k {
    } else if c > k {
    }
}

/// Allowed lifecycle steps compose.
pub proof fn lemma_lifecycle_trans(a: GovView, b: GovView, c: GovView)
    requires
        lifecycle_step(a, b),
        lifecycle_step(b, c),
    ensures
        lifecycle_step(a, c),
{
    assert forall|i: int| 0 <= i < a.proposals.len() implies #[trigger] keeps_proposal(a, c, i) by {
        assert(keeps_proposal(a, b, i));
        assert(keeps_proposal(b, c, i));
    }
    assert forall|i: int| 0 <= i < a.ballots.len() implies #[trigger] c.ballots[i] == a.ballots[i] by {
        assert(b.ballots[i] == a.ballots[i]);
    }
}

/// Replacing the proposal at `k` keeps every proposal that has not passed
/// without an execution time.
proof fn lemma_untimed_update(s: Seq<ProposalView>, k: int, p: ProposalView)
    requires
        unpassed_without_timelock(s),
        0 <= k < s.len(),
        keeps_untimed(s[k], p),
    ensures
        unpassed_without_timelock(s.update(k, p)),
{
    reveal(unpassed_without_timelock);
    let w = s.update(k, p);
    assert forall|i: int| 0 <= i < w.len() implies (#[trigger] w[i]).state
        != ProposalState::Passed && w[i].state != ProposalState::Executed ==> w[i].execute_after
        == 0 by {
        assert(s[i] == s[i]);
    }
}

/// Replacing a proposal by one with the same id and tallies keeps the
/// invariant; with the same proposer and a forward state it is a lifecycle step.
pub proof fn lemma_with_proposal(v: GovView, p: ProposalView)
    requires
        v.wf(),
        1 <= p.id <= v.proposals.len(),
        p.votes_yes == v.proposals[p.id - 1].votes_yes,
        p.votes_no == v.proposals[p.id - 1].votes_no,
        p.votes_abstain == v.proposals[p.id - 1].votes_abstain,
        keeps_untimed(v.proposals[p.id - 1], p),
    ensures
        v.with_proposal(p).wf(),
        p.proposer == v.proposals[p.id - 1].proposer && state_step(
            v.proposals[p.id - 1].state,
            p.state,
        ) ==> lifecycle_step(v, v.with_proposal(p)),
{
    let w = v.with_proposal(p);
    let k = p.id - 1;
    assert forall|i: int| 0 <= i < w.proposals.len() implies #[trigger] w.proposals[i].id == i
        + 1 by {
        if i != k {
            assert(w.proposals[i] == v.proposals[i]);
        }
    }
    lemma_untimed_update(v.proposals, k, p);
    reveal(tallies_match);
    assert forall|i: int| 0 <= i < w.proposals.len() implies {
        &&& #[trigger] w.proposals[i].votes_yes == tally(w.ballots, (i + 1) as u64, Vote::Yes)
        &&& w.proposals[i].votes_no == tally(w.ballots, (i + 1) as u64, Vote::No)
        &&& w.proposals[i].votes_abstain == tally(w.ballots, (i + 1) as u64, Vote::Abstain)
    } by {
        if i != k {
            assert(w.proposals[i] == v.proposals[i]);
        }
    }
    if p.proposer == v.proposals[p.id - 1].proposer && state_step(
        v.proposals[p.id - 1].state,
        p.state,
    ) {
        assert forall|i: int| 0 <= i < v.proposals.len() implies #[trigger] keeps_proposal(
            v,
            w,
            i,
        ) by {
            if i != k {
                assert(w.proposals[i] == v.proposals[i]);
            }
        }
    }
}

// ---------------------------------------------------------------------------
// The contract
// ---------------------------------------------------------------------------

/// Whether `s` is a valid title or description of at most `max` bytes.
fn check_text(s: &String, max: usize) -> (r: bool)
    ensures
        r == valid_text(*s, max as int),
{
    let b: &[u8] = s.as_str().as_bytes();
    let n = b.len();
    if n == 0 || n > max {
        return false;
    }
    let mut i: usize = 0;
    while i < n
        invariant
            n == b@.len(),
            b@ == encode_utf8(s@),
            i <= n,
            forall|j: int| 0 <= j < i ==> b@[j] >= 0x20 && b@[j] != 0x7f,
        decreases n - i,
    {
        if b[i] < 0x20 || b[i] == 0x7f {
            return false;
        }
        i = i + 1;
    }
    true
}

/// Ok when the tag list is acceptable; else the error for the first breach.
fn check_tags(tags: &Vec<String>) -> (r: Result<(), ContractError>)
    ensures
        r == tags_check(tags@),
{
    if tags.len() > MAX_TAGS {
        return Err(ContractError::TooManyTags);
    }
    let mut i: usize = 0;
    while i < tags.len()
        invariant
            i <= tags@.len(),
            tags@.len() <= MAX_TAGS,
            forall|j: int| 0 <= j < i ==> encode_utf8(tags@[j]@).len() <= MAX_TAG_LEN,
        decreases tags@.len() - i,
    {
        if tags[i].as_str().as_bytes().len() > MAX_TAG_LEN {
            assert(encode_utf8(tags@[i as int]@).len() > MAX_TAG_LEN);
            assert(exists|j: int| 0 <= j < tags@.len() && encode_utf8(tags@[j]@).len() > MAX_TAG_LEN);
            return Err(ContractError::TagTooLong);
        }
        i = i + 1;
    }
    Ok(())
}

/// Whether `who` is in the admin list of `config`.
fn require_multisig_admin(config: &MultiSigConfig, who: &String) -> (r: Result<(), ContractError>)
    ensures
        r is Ok <==> in_admins(config@.admins, who@),
        r is Err ==> r == Err::<(), ContractError>(ContractError::NotMultiSigAdmin),
{
    let mut i: usize = 0;
    while i < config.admins.len()
        invariant
            i <= config.admins@.len(),
            forall|j: int| 0 <= j < i ==> config.admins@[j]@ != who@,
        decreases config.admins@.len() - i,
    {
        if config.admins[i] == *who {
            return Ok(());
        }
        i = i + 1;
    }
    Err(ContractError::NotMultiSigAdmin)
}

impl GovernanceContract {
    /// A freshly deployed, uninitialised governance contract.
    pub fn new() -> (r: Self)
        ensures
            r@.wf(),
            r@.admin is None,
            r@.voting_token is None,
            r@.proposals.len() == 0,
            r@.ballots.len() == 0,
            r@.min_proposal_balance == 0,
            r@.proposal_cooldown == 0,
            r@.contract_state == ContractState::Uninitialized,
            !r@.restrict_admin_vote,
            !r@.paused,
            r@.pause_reason is None,
            r@.last_proposal.len() == 0,
            r@.version == (Version { major: 0, minor: 0, patch: 0 }),
            r@.timelock_duration == 0,
            r@.min_duration == 60,
            r@.max_duration == 2_592_000,
            r@.veto_threshold == 0,
            r@.pending_admin is None,
            r@.admin_transfer_expiry == 0,
            r@.amend_window == 0,
            r@.persistent_storage_ttl == DEFAULT_PERSISTENT_STORAGE_TTL,
            r@.multisig_config is None,
            r@.multisig_actions.len() == 0,
            r@.approvals.len() == 0,
            r@.metadata_version == 1,
            r@.events.len() == 0,
    {
        proof {
            reveal(ballots_unique);
            reveal(ballots_in_range);
            reveal(last_unique);
            reveal(approvals_unique);
            reveal(approvals_in_range);
            reveal(tallies_match);
            reveal(unpassed_without_timelock);
        }
        GovernanceContract {
            admin: None,
            voting_token: None,
            proposals: Vec::new(),
            ballots: Vec::new(),
            min_proposal_balance: 0,
            proposal_cooldown: 0,
            contract_state: ContractState::Uninitialized,
            restrict_admin_vote: false,
            paused: false,
            pause_reason: None,
            last_proposal: Vec::new(),
            version: Version { major: 0, minor: 0, patch: 0 },
            timelock_duration: 0,
            min_duration: 60,
            max_duration: 2_592_000,
            veto_threshold: 0,
            pending_admin: None,
            admin_transfer_expiry: 0,
            amend_window: 0,
            persistent_storage_ttl: DEFAULT_PERSISTENT_STORAGE_TTL,
            multisig_config: None,
            multisig_actions: Vec::new(),
            approvals: Vec::new(),
            metadata_version: 1,
            events: Vec::new(),
        }
    }

    /// The `i`-th stored proposal is the view's `i`-th proposal.
    proof fn lemma_proposal_view(&self, i: int)
        requires
            0 <= i < self.proposals@.len(),
        ensures
            self@.proposals[i] == self.proposals@[i]@,
            self@.proposals.len() == self.proposals@.len(),
    {
    }

    /// Ok if `caller` is the stored admin; else `AdminNotSet` or `NotAdmin`.
    fn require_admin(&self, caller: &String) -> (r: Result<(), ContractError>)
        ensures
            r == self@.check_admin(*caller),
    {
        match &self.admin {
            None => Err(ContractError::AdminNotSet),
            Some(a) => if *a == *caller {
                Ok(())
            } else {
                Err(ContractError::NotAdmin)
            },
        }
    }

    /// The index of the stored proposal with id `id`, if it exists.
    fn proposal_index(&self, id: u64) -> (r: Option<usize>)
        requires
            self@.wf(),
        ensures
            match r {
                Some(k) => 1 <= id <= self@.proposals.len() && k == id - 1,
                None => self@.proposal(id) is None,
            },
    {
        if id >= 1 && id <= self.proposals.len() as u64 {
            Some((id - 1) as usize)
        } else {
            None
        }
    }

    /// The index of the ballot of `voter` on proposal `id`, if any.
    fn find_ballot(&self, id: u64, voter: &String) -> (r: Option<usize>)
        requires
            self@.wf(),
        ensures
            match r {
                Some(k) => k < self@.ballots.len() && self@.ballots[k as int].proposal_id == id
                    && self@.ballots[k as int].voter@ == voter@,
                None => !self@.has_voted(id, voter@),
            },
    {
        let mut i: usize = 0;
        while i < self.ballots.len()
            invariant
                i <= self@.ballots.len(),
                self@.ballots == self.ballots@,
                forall|j: int|
                    0 <= j < i ==> !(self@.ballots[j].proposal_id == id && self@.ballots[j].voter@
                        == voter@),
            decreases self@.ballots.len() - i,
        {
            if self.ballots[i].proposal_id == id && self.ballots[i].voter == *voter {
                return Some(i);
            }
            i = i + 1;
        }
        None
    }

    /// The index of `proposer`'s last-proposal entry, if any.
    fn find_last_proposal(&self, proposer: &String) -> (r: Option<usize>)
        requires
            self@.wf(),
        ensures
            match r {
                Some(k) => k < self@.last_proposal.len() && self@.last_proposal[k as int].proposer@
                    == proposer@,
                None => !(exists|i: int|
                    0 <= i < self@.last_proposal.len() && self@.last_proposal[i].proposer@
                        == proposer@),
            },
    {
        let mut i: usize = 0;
        while i < self.last_proposal.len()
            invariant
                i <= self@.last_proposal.len(),
                self@.last_proposal == self.last_proposal@,
                forall|j: int| 0 <= j < i ==> self@.last_proposal[j].proposer@ != proposer@,
            decreases self@.last_proposal.len() - i,
        {
            if self.last_proposal[i].proposer == *proposer {
                return Some(i);
            }
            i = i + 1;
        }
        None
    }

    /// The time of `proposer`'s last proposal; 0 if it never proposed.
    fn get_last_proposal(&self, proposer: &String) -> (r: u64)
        requires
            self@.wf(),
        ensures
            r == self@.last_proposal_of(proposer@),
    {
        match self.find_last_proposal(proposer) {
            Some(k) => {
                proof {
                    lemma_last_at(self@, k as int, proposer@);
                    assert(self@.last_proposal[k as int] == self.last_proposal@[k as int]);
                }
                self.last_proposal[k].timestamp
            },
            None => 0,
        }
    }

    /// Records `ts` as the time of `proposer`'s last proposal.
    fn set_last_proposal(&mut self, proposer: &String, ts: u64)
        requires
            old(self)@.wf(),
        ensures
            final(self)@ == old(self)@.with_last_proposal(*proposer, ts),
            final(self)@.wf(),
            lifecycle_step(old(self)@, final(self)@),
    {
        let ghost v = self@;
        proof {
            reveal(last_unique);
        }
        match self.find_last_proposal(proposer) {
            Some(k) => {
                proof {
                    lemma_last_at(self@, k as int, proposer@);
                }
                let who = self.last_proposal[k].proposer.clone();
                self.last_proposal.set(k, LastProposal { proposer: who, timestamp: ts });
                assert(self@ =~= v.with_last_proposal(*proposer, ts));
            },
            None => {
                self.last_proposal.push(LastProposal { proposer: proposer.clone(), timestamp: ts });
                assert(self@ =~= v.with_last_proposal(*proposer, ts));
            },
        }
        assert(self@.proposals == v.proposals);
        assert(self@.ballots == v.ballots);
        assert(self@.multisig_actions == v.multisig_actions);
        assert(self@.approvals == v.approvals);
    }

    /// Publishes `e`.
    fn emit(&mut self, e: GovEvent)
        ensures
            final(self)@ == old(self)@.emit(e),
            lifecycle_step(old(self)@, final(self)@),
    {
        let ghost v = self@;
        self.events.push(e);
        assert(self@ =~= v.emit(e));
    }

    /// Replaces the proposal at index `k` by `p`, which keeps its id and tallies.
    fn replace_proposal(&mut self, k: usize, p: Proposal)
        requires
            old(self)@.wf(),
            k < old(self)@.proposals.len(),
            p.id == k + 1,
            p.votes_yes == old(self)@.proposals[k as int].votes_yes,
            p.votes_no == old(self)@.proposals[k as int].votes_no,
            p.votes_abstain == old(self)@.proposals[k as int].votes_abstain,
            p.proposer == old(self)@.proposals[k as int].proposer,
            state_step(old(self)@.proposals[k as int].state, p.state),
            keeps_untimed(old(self)@.proposals[k as int], p@),
        ensures
            final(self)@ == old(self)@.with_proposal(p@),
            final(self)@.wf(),
            lifecycle_step(old(self)@, final(self)@),
    {
        let ghost v = self@;
        self.proposals.set(k, p);
        assert(self@.proposals =~= v.proposals.update(k as int, p@));
        proof {
            lemma_with_proposal(v, p@);
        }
        assert(self@ =~= v.with_proposal(p@));
    }

    /// Initialises the contract with an admin, a voting token and its settings.
    ///
    /// `token` is the voting token contract at `voting_token`. A zero
    /// `min_proposal_balance`, `proposal_cooldown`, `amend_window`,
    /// `timelock_duration` or `persistent_storage_ttl` keeps the default.
    pub fn initialize(
        &mut self,
        admin: String,
        voting_token: String,
        min_proposal_balance: i128,
        proposal_cooldown: u64,
        min_duration: u64,
        max_duration: u64,
        restrict_admin_vote: bool,
        amend_window: u64,
        timelock_duration: u64,
        veto_threshold: i128,
        persistent_storage_ttl: u32,
        token: &TokenContract,
    ) -> (r: Result<(), ContractError>)
        requires
            old(self)@.wf(),
            token@.address@ == voting_token@,
        ensures
            final(self)@.wf(),
            lifecycle_step(old(self)@, final(self)@),
            follows(
                initialize_spec(
                    old(self)@,
                    admin,
                    voting_token,
                    min_proposal_balance,
                    proposal_cooldown,
                    min_duration,
                    max_duration,
                    restrict_admin_vote,
                    amend_window,
                    timelock_duration,
                    veto_threshold,
                    persistent_storage_ttl,
                    token@.total_supply,
                ),
                old(self)@,
                final(self)@,
                r,
            ),
    {
        if is_zero_address(&admin) || is_zero_address(&voting_token) {
            return Err(ContractError::InvalidAddress);
        }
        if self.admin.is_some() {
            return Err(ContractError::AlreadyInitialized);
        }
        let supply = token.total_supply();
        if veto_threshold < 0 || veto_threshold > supply {
            return Err(ContractError::InvalidVetoThreshold);
        }
        let ghost v = self@;
        self.admin = Some(admin.clone());
        self.voting_token = Some(voting_token);
        if min_proposal_balance > 0 {
            self.min_proposal_balance = min_proposal_balance;
        }
        if proposal_cooldown > 0 {
            self.proposal_cooldown = proposal_cooldown;
        }
        self.min_duration = min_duration;
        self.max_duration = max_duration;
        self.restrict_admin_vote = restrict_admin_vote;
        if amend_window > 0 {
            self.amend_window = amend_window;
        }
        if timelock_duration > 0 {
            self.timelock_duration = timelock_duration;
        }
        self.veto_threshold = veto_threshold;
        if persistent_storage_ttl > 0 {
            self.persistent_storage_ttl = persistent_storage_ttl;
        }
        self.version = Version::new(1, 0, 0);
        self.contract_state = ContractState::Ready;
        assert(self@.proposals == v.proposals);
        assert(self@.multisig_actions == v.multisig_actions);
        self.emit(GovEvent::Initialized { admin });
        Ok(())
    }

    /// Creates a proposal and returns its id, the next in sequence.
    ///
    /// `now` is the ledger time and `token` the contract deployed at the
    /// stored voting-token address.
    pub fn create_proposal(
        &mut self,
        proposer: String,
        title: String,
        description: String,
        quorum: i128,
        duration: u64,
        tags: Vec<String>,
        now: u64,
        token: &TokenContract,
    ) -> (r: Result<u64, ContractError>)
        requires
            old(self)@.wf(),
            token@.wf(),
            old(self)@.voting_token matches Some(t) ==> t@ == token@.address@,
            create_proposal_spec(
                old(self)@,
                proposer,
                title,
                description,
                quorum,
                duration,
                tags@,
                now,
                token@.total_supply,
                token@.balance(proposer@),
            ) is Some,
        ensures
            final(self)@.wf(),
            lifecycle_step(old(self)@, final(self)@),
            follows_with(
                create_proposal_spec(
                    old(self)@,
                    proposer,
                    title,
                    description,
                    quorum,
                    duration,
                    tags@,
                    now,
                    token@.total_supply,
                    token@.balance(proposer@),
                ).unwrap(),
                old(self)@,
                final(self)@,
                r,
            ),
    {
        if is_zero_address(&proposer) {
            return Err(ContractError::InvalidAddress);
        }
        if self.paused {
            return Err(ContractError::ContractPaused);
        }
        if !check_text(&title, MAX_TITLE_LEN) {
            return Err(ContractError::InvalidTitle);
        }
        if !check_text(&description, MAX_DESC_LEN) {
            return Err(ContractError::InvalidDescription);
        }
        match check_tags(&tags) {
            Err(e) => {
                return Err(e);
            },
            Ok(()) => {},
        }
        if quorum <= 0 {
            return Err(ContractError::InvalidQuorum);
        }
        if duration == 0 {
            return Err(ContractError::InvalidDuration);
        }
        if duration < self.min_duration || duration > self.max_duration {
            return Err(ContractError::InvalidDurationRange);
        }
        if self.voting_token.is_none() {
            return Err(ContractError::VotingTokenNotSet);
        }
        let supply = token.total_supply();
        if quorum > supply {
            return Err(ContractError::QuorumExceedsSupply);
        }
        let min_balance = self.min_proposal_balance;
        if min_balance > 0 {
            let balance = token.balance(&proposer);
            if balance < min_balance {
                return Err(ContractError::InsufficientBalance);
            }
        }
        let cooldown = self.proposal_cooldown;
        if cooldown > 0 {
            let last = self.get_last_proposal(&proposer);
            if last > 0 && now < last + cooldown {
                return Err(ContractError::ProposalCooldown);
            }
        }
        let start_time = now + self.amend_window;
        let count = self.proposals.len() as u64;
        if count == u64::MAX {
            return Err(ContractError::ProposalCountOverflow);
        }
        let id = count + 1;
        if self.proposal_index(id).is_some() {
            return Err(ContractError::ProposalAlreadyExists);
        }
        let end_time = start_time + duration;
        let ghost v = self@;
        let proposal = Proposal {
            id,
            proposer: proposer.clone(),
            title,
            description,
            votes_yes: 0,
            votes_no: 0,
            votes_abstain: 0,
            quorum,
            start_time,
            end_time,
            state: ProposalState::Active,
            execute_after: 0,
            tags,
            metadata_version: self.metadata_version,
        };
        proof {
            reveal(tallies_match);
            reveal(ballots_in_range);
            lemma_tally_absent(v.ballots, id, Vote::Yes);
            lemma_tally_absent(v.ballots, id, Vote::No);
            lemma_tally_absent(v.ballots, id, Vote::Abstain);
            reveal(unpassed_without_timelock);
        }
        self.proposals.push(proposal);
        assert(self@ =~= GovView { proposals: v.proposals.push(proposal@), ..v });
        self.set_last_proposal(&proposer, now);
        let metadata_version = self.metadata_version;
        self.emit(GovEvent::ProposalCreated { id, proposer, metadata_version });
        Ok(id)
    }
}

impl GovernanceContract {
    /// Records ballot `b` and replaces proposal `k` by `p`, whose tallies add
    /// the ballot's weight.
    #[verifier::spinoff_prover]
    fn store_vote(&mut self, k: usize, p: Proposal, b: Ballot)
        requires
            old(self)@.wf(),
            k < old(self)@.proposals.len(),
            p.id == k + 1,
            b.proposal_id == k + 1,
            !old(self)@.has_voted(b.proposal_id, b.voter@),
            p.proposer == old(self)@.proposals[k as int].proposer,
            state_step(old(self)@.proposals[k as int].state, p.state),
            keeps_untimed(old(self)@.proposals[k as int], p@),
            p.votes_yes == old(self)@.proposals[k as int].votes_yes + if b.record.vote_type
                == Vote::Yes {
                b.record.weight as int
            } else {
                0
            },
            p.votes_no == old(self)@.proposals[k as int].votes_no + if b.record.vote_type
                == Vote::No {
                b.record.weight as int
            } else {
                0
            },
            p.votes_abstain == old(self)@.proposals[k as int].votes_abstain + if b.record.vote_type
                == Vote::Abstain {
                b.record.weight as int
            } else {
                0
            },
        ensures
            final(self)@ == (GovView {
                ballots: old(self)@.ballots.push(b),
                ..old(self)@.with_proposal(p@)
            }),
            final(self)@.wf(),
            lifecycle_step(old(self)@, final(self)@),
    {
        let ghost v = self@;
        self.proposals.set(k, p);
        self.ballots.push(b);
        let ghost w = self@;
        assert(w.proposals =~= v.proposals.update(k as int, p@));
        assert(w =~= GovView { ballots: v.ballots.push(b), ..v.with_proposal(p@) });
        proof {
            reveal(tallies_match);
            reveal(ballots_in_range);
            reveal(ballots_unique);
            lemma_untimed_update(v.proposals, k as int, p@);
            assert forall|i: int| 0 <= i < w.proposals.len() implies #[trigger] w.proposals[i].id
                == i + 1 by {
                if i != k {
                    assert(w.proposals[i] == v.proposals[i]);
                }
            }
            assert forall|i: int| 0 <= i < w.proposals.len() implies {
                &&& #[trigger] w.proposals[i].votes_yes == tally(
                    w.ballots,
                    (i + 1) as u64,
                    Vote::Yes,
                )
                &&& w.proposals[i].votes_no == tally(w.ballots, (i + 1) as u64, Vote::No)
                &&& w.proposals[i].votes_abstain == tally(w.ballots, (i + 1) as u64, Vote::Abstain)
            } by {
                lemma_tally_push(v.ballots, b, (i + 1) as u64, Vote::Yes);
                lemma_tally_push(v.ballots, b, (i + 1) as u64, Vote::No);
                lemma_tally_push(v.ballots, b, (i + 1) as u64, Vote::Abstain);
                assert(v.proposals[i].votes_yes == tally(v.ballots, (i + 1) as u64, Vote::Yes));
                if i != k {
                    assert(w.proposals[i] == v.proposals[i]);
                } else {
                    assert(w.proposals[i] == p@);
                }
            }
            assert forall|i: int, j: int| 0 <= i < j < w.ballots.len() implies !(
            w.ballots[i].proposal_id == w.ballots[j].proposal_id && w.ballots[i].voter@
                == w.ballots[j].voter@) by {
                if j == v.ballots.len() {
                    if w.ballots[i].proposal_id == b.proposal_id && w.ballots[i].voter@ == b.voter@ {
                        assert(v.has_voted(b.proposal_id, b.voter@));
                    }
                }
            }
            assert forall|i: int| 0 <= i < v.proposals.len() implies #[trigger] keeps_proposal(
                v,
                w,
                i,
            ) by {
                if i != k {
                    assert(w.proposals[i] == v.proposals[i]);
                }
            }
        }
    }

    /// The proposer changes the title and description of its active proposal
    /// before voting starts.
    pub fn amend_proposal(
        &mut self,
        proposer: String,
        proposal_id: u64,
        title: String,
        description: String,
        now: u64,
    ) -> (r: Result<(), ContractError>)
        requires
            old(self)@.wf(),
        ensures
            final(self)@.wf(),
            lifecycle_step(old(self)@, final(self)@),
            follows(
                amend_proposal_spec(old(self)@, proposer, proposal_id, title, description, now),
                old(self)@,
                final(self)@,
                r,
            ),
    {
        if is_zero_address(&proposer) {
            return Err(ContractError::InvalidAddress);
        }
        if self.paused {
            return Err(ContractError::ContractPaused);
        }
        let k = match self.proposal_index(proposal_id) {
            None => {
                return Err(ContractError::ProposalNotFound);
            },
            Some(k) => k,
        };
        proof {
            self.lemma_proposal_view(k as int);
        }
        if self.proposals[k].state != ProposalState::Active {
            return Err(ContractError::ProposalNotActive);
        }
        if self.proposals[k].proposer != proposer {
            return Err(ContractError::NotProposalOwner);
        }
        if self.amend_window > 0 && now >= self.proposals[k].start_time {
            return Err(ContractError::ProposalAmendmentNotAllowed);
        }
        if !check_text(&title, MAX_TITLE_LEN) {
            return Err(ContractError::InvalidTitle);
        }
        if !check_text(&description, MAX_DESC_LEN) {
            return Err(ContractError::InvalidDescription);
        }
        let ghost v = self@;
        let mut p = self.proposals[k].copy();
        p.title = title.clone();
        p.description = description.clone();
        self.replace_proposal(k, p);
        let ghost v1 = self@;
        self.emit(GovEvent::ProposalAmended { id: proposal_id, proposer, title, description });
        proof {
            lemma_lifecycle_trans(v, v1, self@);
        }
        Ok(())
    }

    /// Casts `voter`'s vote on an active proposal, weighing it by the voter's
    /// balance now in `token`, the contract deployed at the stored voting-token
    /// address. When a veto threshold is set and the no votes reach it, the
    /// proposal is rejected at once.
    pub fn cast_vote(
        &mut self,
        voter: String,
        proposal_id: u64,
        vote: Vote,
        now: u64,
        token: &TokenContract,
    ) -> (r: Result<(), ContractError>)
        requires
            old(self)@.wf(),
            token@.wf(),
            old(self)@.voting_token matches Some(t) ==> t@ == token@.address@,
        ensures
            final(self)@.wf(),
            lifecycle_step(old(self)@, final(self)@),
            follows(
                cast_vote_spec(old(self)@, voter, proposal_id, vote, now, token@.balance(voter@)),
                old(self)@,
                final(self)@,
                r,
            ),
    {
        if is_zero_address(&voter) {
            return Err(ContractError::InvalidAddress);
        }
        if self.paused {
            return Err(ContractError::ContractPaused);
        }
        let k = match self.proposal_index(proposal_id) {
            None => {
                return Err(ContractError::ProposalNotFound);
            },
            Some(k) => k,
        };
        proof {
            self.lemma_proposal_view(k as int);
        }
        if self.proposals[k].state != ProposalState::Active {
            return Err(ContractError::ProposalNotActive);
        }
        if now < self.proposals[k].start_time {
            return Err(ContractError::VotingNotStarted);
        }
        if now >= self.proposals[k].end_time {
            return Err(ContractError::VotingPeriodEnded);
        }
        match self.find_ballot(proposal_id, &voter) {
            Some(j) => {
                assert(self@.has_voted(proposal_id, voter@)) by {
                    assert(self@.ballots[j as int].proposal_id == proposal_id);
                }
                return Err(ContractError::AlreadyVoted);
            },
            None => {},
        }
        if self.restrict_admin_vote {
            match &self.admin {
                None => {
                    return Err(ContractError::AdminNotSet);
                },
                Some(a) => {
                    if *a == voter && self.proposals[k].proposer == *a {
                        return Err(ContractError::AdminVoteRestricted);
                    }
                },
            }
        }
        if self.voting_token.is_none() {
            return Err(ContractError::VotingTokenNotSet);
        }
        let weight = token.balance(&voter);
        if weight <= 0 {
            return Err(ContractError::NoVotingPower);
        }
        let ghost v = self@;
        let mut p = self.proposals[k].copy();
        match vote {
            Vote::Yes => match p.votes_yes.checked_add(weight) {
                None => {
                    return Err(ContractError::VoteTallyOverflow);
                },
                Some(x) => {
                    p.votes_yes = x;
                },
            },
            Vote::No => match p.votes_no.checked_add(weight) {
                None => {
                    return Err(ContractError::VoteTallyOverflow);
                },
                Some(x) => {
                    p.votes_no = x;
                },
            },
            Vote::Abstain => match p.votes_abstain.checked_add(weight) {
                None => {
                    return Err(ContractError::VoteTallyOverflow);
                },
                Some(x) => {
                    p.votes_abstain = x;
                },
            },
        }
        let veto_threshold = self.veto_threshold;
        if veto_threshold > 0 && p.votes_no >= veto_threshold {
            p.state = ProposalState::Rejected;
        }
        let vetoed = p.state == ProposalState::Rejected && veto_threshold > 0 && vote == Vote::No;
        let votes_no = p.votes_no;
        let record = VoteRecord { vote_type: vote, weight };
        self.store_vote(k, p, Ballot { proposal_id, voter: voter.clone(), record });
        let ghost v1 = self@;
        self.emit(GovEvent::VoteCast { id: proposal_id, voter, vote, weight });
        proof {
            lemma_lifecycle_trans(v, v1, self@);
        }
        if vetoed {
            let ghost v2 = self@;
            self.emit(GovEvent::ProposalVetoed { id: proposal_id, votes_no, veto_threshold });
            proof {
                lemma_lifecycle_trans(v, v2, self@);
            }
        }
        Ok(())
    }

    /// The vote `voter` cast on `proposal_id`, or `None` if it did not vote.
    pub fn get_vote(&self, proposal_id: u64, voter: &String) -> (r: Option<VoteRecord>)
        requires
            self@.wf(),
        ensures
            r == self@.vote_of(proposal_id, voter@),
    {
        match self.find_ballot(proposal_id, voter) {
            Some(k) => {
                proof {
                    lemma_ballot_at(self@, k as int);
                }
                Some(self.ballots[k].record)
            },
            None => None,
        }
    }

    /// Finalises a proposal whose voting period has ended: it passes when the
    /// total of all votes reaches the quorum and yes votes outnumber no votes
    /// (it may then be executed from its end time plus the timelock), and is
    /// rejected otherwise.
    pub fn finalise(&mut self, proposal_id: u64, now: u64) -> (r: Result<(), ContractError>)
        requires
            old(self)@.wf(),
            finalise_spec(old(self)@, proposal_id, now) is Some,
        ensures
            final(self)@.wf(),
            lifecycle_step(old(self)@, final(self)@),
            follows(finalise_spec(old(self)@, proposal_id, now).unwrap(), old(self)@, final(self)@, r),
    {
        if self.paused {
            return Err(ContractError::ContractPaused);
        }
        let k = match self.proposal_index(proposal_id) {
            None => {
                return Err(ContractError::ProposalNotFound);
            },
            Some(k) => k,
        };
        proof {
            self.lemma_proposal_view(k as int);
        }
        if self.proposals[k].state != ProposalState::Active {
            return Err(ContractError::ProposalNotActive);
        }
        if now <= self.proposals[k].end_time {
            return Err(ContractError::VotingStillOpen);
        }
        let ghost v = self@;
        let mut p = self.proposals[k].copy();
        let total = p.votes_yes + p.votes_no + p.votes_abstain;
        if total >= p.quorum && p.votes_yes > p.votes_no {
            p.execute_after = p.end_time + self.timelock_duration;
            p.state = ProposalState::Passed;
        } else {
            p.state = ProposalState::Rejected;
        }
        let state = p.state;
        let execute_after = p.execute_after;
        self.replace_proposal(k, p);
        let ghost v1 = self@;
        self.emit(GovEvent::ProposalFinalised { id: proposal_id, state, execute_after });
        proof {
            lemma_lifecycle_trans(v, v1, self@);
        }
        Ok(())
    }

    /// The admin marks a passed proposal executed once its timelock has expired.
    pub fn execute(&mut self, admin: String, proposal_id: u64, now: u64) -> (r: Result<
        (),
        ContractError,
    >)
        requires
            old(self)@.wf(),
        ensures
            final(self)@.wf(),
            lifecycle_step(old(self)@, final(self)@),
            follows(execute_spec(old(self)@, admin, proposal_id, now), old(self)@, final(self)@, r),
    {
        if is_zero_address(&admin) {
            return Err(ContractError::InvalidAddress);
        }
        if self.paused {
            return Err(ContractError::ContractPaused);
        }
        match self.require_admin(&admin) {
            Err(e) => {
                return Err(e);
            },
            Ok(()) => {},
        }
        let k = match self.proposal_index(proposal_id) {
            None => {
                return Err(ContractError::ProposalNotFound);
            },
            Some(k) => k,
        };
        proof {
            self.lemma_proposal_view(k as int);
        }
        if self.proposals[k].state != ProposalState::Passed {
            return Err(ContractError::ProposalNotPassed);
        }
        if now < self.proposals[k].execute_after {
            return Err(ContractError::TimelockNotExpired);
        }
        let ghost v = self@;
        let mut p = self.proposals[k].copy();
        p.state = ProposalState::Executed;
        self.replace_proposal(k, p);
        let ghost v1 = self@;
        self.emit(GovEvent::ProposalExecuted { id: proposal_id });
        proof {
            lemma_lifecycle_trans(v, v1, self@);
        }
        Ok(())
    }

    /// The admin cancels an active proposal.
    pub fn cancel(&mut self, admin: String, proposal_id: u64) -> (r: Result<(), ContractError>)
        requires
            old(self)@.wf(),
        ensures
            final(self)@.wf(),
            lifecycle_step(old(self)@, final(self)@),
            follows(cancel_spec(old(self)@, admin, proposal_id), old(self)@, final(self)@, r),
    {
        if is_zero_address(&admin) {
            return Err(ContractError::InvalidAddress);
        }
        if self.paused {
            return Err(ContractError::ContractPaused);
        }
        match self.require_admin(&admin) {
            Err(e) => {
                return Err(e);
            },
            Ok(()) => {},
        }
        let k = match self.proposal_index(proposal_id) {
            None => {
                return Err(ContractError::ProposalNotFound);
            },
            Some(k) => k,
        };
        proof {
            self.lemma_proposal_view(k as int);
        }
        if self.proposals[k].state != ProposalState::Active {
            return Err(ContractError::ProposalNotActive);
        }
        let ghost v = self@;
        let mut p = self.proposals[k].copy();
        p.state = ProposalState::Cancelled;
        self.replace_proposal(k, p);
        let ghost v1 = self@;
        self.emit(GovEvent::ProposalCancelled { id: proposal_id });
        proof {
            lemma_lifecycle_trans(v, v1, self@);
        }
        Ok(())
    }

    /// The admin sets a new quorum on an active proposal.
    pub fn update_quorum(&mut self, admin: String, proposal_id: u64, new_quorum: i128) -> (r:
        Result<(), ContractError>)
        requires
            old(self)@.wf(),
        ensures
            final(self)@.wf(),
            lifecycle_step(old(self)@, final(self)@),
            follows(
                update_quorum_spec(old(self)@, admin, proposal_id, new_quorum),
                old(self)@,
                final(self)@,
                r,
            ),
    {
        if is_zero_address(&admin) {
            return Err(ContractError::InvalidAddress);
        }
        if self.paused {
            return Err(ContractError::ContractPaused);
        }
        match self.require_admin(&admin) {
            Err(e) => {
                return Err(e);
            },
            Ok(()) => {},
        }
        if new_quorum <= 0 {
            return Err(ContractError::InvalidQuorum);
        }
        let k = match self.proposal_index(proposal_id) {
            None => {
                return Err(ContractError::ProposalNotFound);
            },
            Some(k) => k,
        };
        proof {
            self.lemma_proposal_view(k as int);
        }
        if self.proposals[k].state != ProposalState::Active {
            return Err(ContractError::ProposalNotActive);
        }
        let ghost v = self@;
        let mut p = self.proposals[k].copy();
        p.quorum = new_quorum;
        self.replace_proposal(k, p);
        let ghost v1 = self@;
        self.emit(GovEvent::QuorumUpdated { id: proposal_id, new_quorum });
        proof {
            lemma_lifecycle_trans(v, v1, self@);
        }
        Ok(())
    }
}

impl GovernanceContract {
    /// The admin hands admin rights to `new_admin` at once.
    pub fn transfer_admin(&mut self, admin: String, new_admin: String) -> (r: Result<
        (),
        ContractError,
    >)
        requires
            old(self)@.wf(),
        ensures
            final(self)@.wf(),
            lifecycle_step(old(self)@, final(self)@),
            follows(transfer_admin_spec(old(self)@, admin, new_admin), old(self)@, final(self)@, r),
    {
        if is_zero_address(&admin) || is_zero_address(&new_admin) {
            return Err(ContractError::InvalidAddress);
        }
        if self.paused {
            return Err(ContractError::ContractPaused);
        }
        match self.require_admin(&admin) {
            Err(e) => {
                return Err(e);
            },
            Ok(()) => {},
        }
        let ghost v = self@;
        self.admin = Some(new_admin.clone());
        assert(self@ =~= GovView { admin: Some(new_admin), ..v });
        self.emit(GovEvent::AdminTransferred { old_admin: admin, new_admin });
        Ok(())
    }

    /// The admin nominates `new_admin`, who may accept until `now` plus
    /// `window_secs` (48 hours when 0).
    pub fn propose_admin_transfer(
        &mut self,
        admin: String,
        new_admin: String,
        window_secs: u64,
        now: u64,
    ) -> (r: Result<(), ContractError>)
        requires
            old(self)@.wf(),
            propose_admin_transfer_spec(old(self)@, admin, new_admin, window_secs, now) is Some,
        ensures
            final(self)@.wf(),
            lifecycle_step(old(self)@, final(self)@),
            follows(
                propose_admin_transfer_spec(old(self)@, admin, new_admin, window_secs, now).unwrap(),
                old(self)@,
                final(self)@,
                r,
            ),
    {
        if is_zero_address(&admin) || is_zero_address(&new_admin) {
            return Err(ContractError::InvalidAddress);
        }
        if self.paused {
            return Err(ContractError::ContractPaused);
        }
        match self.require_admin(&admin) {
            Err(e) => {
                return Err(e);
            },
            Ok(()) => {},
        }
        let window = if window_secs == 0 {
            DEFAULT_ADMIN_TRANSFER_WINDOW
        } else {
            window_secs
        };
        let expiry = now + window;
        let ghost v = self@;
        self.pending_admin = Some(new_admin.clone());
        self.admin_transfer_expiry = expiry;
        assert(self@ =~= GovView {
            pending_admin: Some(new_admin),
            admin_transfer_expiry: expiry,
            ..v
        });
        self.emit(GovEvent::AdminTransferProposed { admin, nominee: new_admin, expiry });
        Ok(())
    }

    /// The nominee accepts the admin rights within the acceptance window.
    pub fn accept_admin_transfer(&mut self, new_admin: String, now: u64) -> (r: Result<
        (),
        ContractError,
    >)
        requires
            old(self)@.wf(),
        ensures
            final(self)@.wf(),
            lifecycle_step(old(self)@, final(self)@),
            follows(accept_admin_transfer_spec(old(self)@, new_admin, now), old(self)@, final(self)@, r),
    {
        if is_zero_address(&new_admin) {
            return Err(ContractError::InvalidAddress);
        }
        if self.paused {
            return Err(ContractError::ContractPaused);
        }
        match &self.pending_admin {
            None => {
                return Err(ContractError::PendingAdminNotSet);
            },
            Some(p) => {
                if *p != new_admin {
                    return Err(ContractError::NotPendingAdmin);
                }
            },
        }
        if now > self.admin_transfer_expiry {
            return Err(ContractError::AdminTransferExpired);
        }
        let old_admin = match &self.admin {
            None => {
                return Err(ContractError::AdminNotSet);
            },
            Some(a) => a.clone(),
        };
        let ghost v = self@;
        self.admin = Some(new_admin.clone());
        self.pending_admin = None;
        self.admin_transfer_expiry = 0;
        assert(self@ =~= GovView {
            admin: Some(new_admin),
            pending_admin: None,
            admin_transfer_expiry: 0,
            ..v
        });
        self.emit(GovEvent::AdminTransferred { old_admin, new_admin });
        Ok(())
    }

    /// The admin pauses the contract, with an optional reason; state-changing
    /// operations are refused until it is unpaused.
    pub fn pause(&mut self, admin: String, reason: Option<String>) -> (r: Result<
        (),
        ContractError,
    >)
        requires
            old(self)@.wf(),
        ensures
            final(self)@.wf(),
            lifecycle_step(old(self)@, final(self)@),
            follows(pause_spec(old(self)@, admin, reason), old(self)@, final(self)@, r),
    {
        if is_zero_address(&admin) {
            return Err(ContractError::InvalidAddress);
        }
        match self.require_admin(&admin) {
            Err(e) => {
                return Err(e);
            },
            Ok(()) => {},
        }
        let ghost v = self@;
        self.paused = true;
        self.pause_reason = match &reason {
            Some(t) => Some(t.clone()),
            None => None,
        };
        assert(self@ =~= GovView { paused: true, pause_reason: reason, ..v });
        self.emit(GovEvent::ContractPaused { admin, reason });
        Ok(())
    }

    /// The admin unpauses the contract and clears the pause reason.
    pub fn unpause(&mut self, admin: String) -> (r: Result<(), ContractError>)
        requires
            old(self)@.wf(),
        ensures
            final(self)@.wf(),
            lifecycle_step(old(self)@, final(self)@),
            follows(unpause_spec(old(self)@, admin), old(self)@, final(self)@, r),
    {
        if is_zero_address(&admin) {
            return Err(ContractError::InvalidAddress);
        }
        match self.require_admin(&admin) {
            Err(e) => {
                return Err(e);
            },
            Ok(()) => {},
        }
        if !self.paused {
            return Err(ContractError::NotPaused);
        }
        let ghost v = self@;
        self.paused = false;
        self.pause_reason = None;
        assert(self@ =~= GovView { paused: false, pause_reason: None, ..v });
        self.emit(GovEvent::ContractUnpaused { admin });
        Ok(())
    }

    /// Whether the contract is paused.
    pub fn paused(&self) -> (r: bool)
        ensures
            r == self@.paused,
    {
        self.paused
    }

    /// The reason given when the contract was paused, if any.
    pub fn get_pause_reason(&self) -> (r: Option<String>)
        ensures
            r == self@.pause_reason,
    {
        match &self.pause_reason {
            Some(t) => Some(t.clone()),
            None => None,
        }
    }

    /// The proposal with id `proposal_id`.
    pub fn get_proposal(&self, proposal_id: u64) -> (r: Result<Proposal, ContractError>)
        requires
            self@.wf(),
        ensures
            match self@.proposal(proposal_id) {
                Some(p) => r is Ok && r->Ok_0@ == p,
                None => r == Err::<Proposal, ContractError>(ContractError::ProposalNotFound),
            },
    {
        match self.proposal_index(proposal_id) {
            None => Err(ContractError::ProposalNotFound),
            Some(k) => {
                proof {
                    self.lemma_proposal_view(k as int);
                }
                Ok(self.proposals[k].copy())
            },
        }
    }

    /// The number of proposals ever created.
    pub fn proposal_count(&self) -> (r: u64)
        requires
            self@.wf(),
        ensures
            r == self@.proposals.len(),
    {
        self.proposals.len() as u64
    }

    /// Whether `voter` has voted on `proposal_id`.
    pub fn has_voted(&self, proposal_id: u64, voter: &String) -> (r: Result<bool, ContractError>)
        requires
            self@.wf(),
        ensures
            r == (if spec_is_zero_address(voter@) {
                Err(ContractError::InvalidAddress)
            } else if self@.proposal(proposal_id) is None {
                Err(ContractError::ProposalNotFound)
            } else {
                Ok(self@.has_voted(proposal_id, voter@))
            }),
    {
        if is_zero_address(voter) {
            return Err(ContractError::InvalidAddress);
        }
        if self.proposal_index(proposal_id).is_none() {
            return Err(ContractError::ProposalNotFound);
        }
        match self.find_ballot(proposal_id, voter) {
            Some(k) => {
                assert(self@.ballots[k as int].proposal_id == proposal_id);
                Ok(true)
            },
            None => Ok(false),
        }
    }

    /// The contract version.
    pub fn get_version(&self) -> (r: Version)
        ensures
            r == self@.version,
    {
        self.version
    }

    /// The contract lifecycle state.
    pub fn get_state(&self) -> (r: ContractState)
        ensures
            r == self@.contract_state,
    {
        self.contract_state
    }

    /// The events published so far.
    pub fn events(&self) -> (r: &Vec<GovEvent>)
        ensures
            r@ == self@.events,
    {
        &self.events
    }

    /// The spam-prevention settings.
    pub fn get_spam_config(&self) -> (r: SpamConfig)
        ensures
            r == (SpamConfig {
                min_proposal_balance: self@.min_proposal_balance,
                proposal_cooldown: self@.proposal_cooldown,
            }),
    {
        SpamConfig {
            min_proposal_balance: self.min_proposal_balance,
            proposal_cooldown: self.proposal_cooldown,
        }
    }

    /// The full configuration; `None` before initialisation.
    pub fn get_config(&self) -> (r: Option<GovernanceConfig>)
        ensures
            match self@.voting_token {
                None => r is None,
                Some(t) => r == Some(
                    GovernanceConfig {
                        voting_token: t,
                        min_proposal_balance: self@.min_proposal_balance,
                        proposal_cooldown: self@.proposal_cooldown,
                        min_duration: self@.min_duration,
                        max_duration: self@.max_duration,
                        restrict_admin_vote: self@.restrict_admin_vote,
                        timelock_duration: self@.timelock_duration,
                        paused: self@.paused,
                        version: self@.version,
                        persistent_storage_ttl: self@.persistent_storage_ttl,
                    },
                ),
            },
    {
        match &self.voting_token {
            None => None,
            Some(t) => Some(
                GovernanceConfig {
                    voting_token: t.clone(),
                    min_proposal_balance: self.min_proposal_balance,
                    proposal_cooldown: self.proposal_cooldown,
                    min_duration: self.min_duration,
                    max_duration: self.max_duration,
                    restrict_admin_vote: self.restrict_admin_vote,
                    timelock_duration: self.timelock_duration,
                    paused: self.paused,
                    version: self.version,
                    persistent_storage_ttl: self.persistent_storage_ttl,
                },
            ),
        }
    }

    /// The admin moves the storage to version 2.0.0; from 2.0.0 on it does nothing.
    pub fn migrate(&mut self, admin: String) -> (r: Result<(), ContractError>)
        requires
            old(self)@.wf(),
        ensures
            final(self)@.wf(),
            lifecycle_step(old(self)@, final(self)@),
            follows(migrate_spec(old(self)@, admin), old(self)@, final(self)@, r),
    {
        if is_zero_address(&admin) {
            return Err(ContractError::InvalidAddress);
        }
        match self.require_admin(&admin) {
            Err(e) => {
                return Err(e);
            },
            Ok(()) => {},
        }
        let old_version = self.version;
        let target = Version::new(2, 0, 0);
        if !old_version.less_than(&target) {
            return Ok(());
        }
        if self.admin.is_none() {
            return Err(ContractError::MigrationFailed);
        }
        let ghost v = self@;
        self.version = target;
        assert(self@ =~= GovView { version: target, ..v });
        self.emit(GovEvent::MigrationCompleted { old_version, new_version: target });
        Ok(())
    }

    /// Proposals with ids `offset + 1` up to `offset + min(limit, 50)`, in id
    /// order, cut at the last proposal; empty when `offset` is past the end.
    pub fn list_proposals(&self, offset: u64, limit: u64) -> (r: Vec<Proposal>)
        requires
            self@.wf(),
            offset >= self@.proposals.len() || offset + (if limit > MAX_LIST_LIMIT {
                MAX_LIST_LIMIT
            } else {
                limit
            }) <= u64::MAX,
        ensures
            r@.map_values(|p: Proposal| p@) == list_page(self@, offset, limit),
    {
        let total = self.proposals.len() as u64;
        let mut out: Vec<Proposal> = Vec::new();
        if offset >= total {
            assert(out@.map_values(|p: Proposal| p@) =~= list_page(self@, offset, limit));
            return out;
        }
        let effective_limit = if limit > MAX_LIST_LIMIT {
            MAX_LIST_LIMIT
        } else {
            limit
        };
        let end_id = if offset + effective_limit < total {
            offset + effective_limit
        } else {
            total
        };
        let ghost page = list_page(self@, offset, limit);
        assert(page =~= self@.proposals.subrange(offset as int, end_id as int));
        let end = end_id as usize;
        let mut k = offset as usize;
        while k < end
            invariant
                self@.wf(),
                total == self@.proposals.len(),
                offset <= k <= end,
                end <= self@.proposals.len(),
                out@.map_values(|p: Proposal| p@) =~= self@.proposals.subrange(
                    offset as int,
                    k as int,
                ),
            decreases end - k,
        {
            proof {
                self.lemma_proposal_view(k as int);
            }
            let ghost prev = out@;
            let c = self.proposals[k].copy();
            out.push(c);
            assert(out@.map_values(|p: Proposal| p@) =~= prev.map_values(|p: Proposal| p@).push(
                c@,
            ));
            assert(self@.proposals.subrange(offset as int, k + 1) =~= self@.proposals.subrange(
                offset as int,
                k as int,
            ).push(self@.proposals[k as int]));
            k = k + 1;
        }
        out
    }

    /// The admin raises the contract version; a version that is not strictly
    /// greater is refused.
    pub fn upgrade(&mut self, admin: String, new_version: Version) -> (r: Result<
        (),
        ContractError,
    >)
        requires
            old(self)@.wf(),
        ensures
            final(self)@.wf(),
            lifecycle_step(old(self)@, final(self)@),
            follows(upgrade_spec(old(self)@, admin, new_version), old(self)@, final(self)@, r),
    {
        if is_zero_address(&admin) {
            return Err(ContractError::InvalidAddress);
        }
        match self.require_admin(&admin) {
            Err(e) => {
                return Err(e);
            },
            Ok(()) => {},
        }
        let current = self.version;
        if !current.less_than(&new_version) {
            return Err(ContractError::DowngradeNotAllowed);
        }
        let ghost v = self@;
        self.version = new_version;
        assert(self@ =~= GovView { version: new_version, ..v });
        self.emit(GovEvent::ContractUpgraded { old_version: current, new_version });
        Ok(())
    }
}

/// Ok when `admins` and `threshold` make a usable multi-sig configuration.
fn check_config(admins: &Vec<String>, threshold: u32) -> (r: Result<(), ContractError>)
    ensures
        r == config_check(admins@, threshold),
{
    if admins.len() == 0 {
        return Err(ContractError::EmptyAdminList);
    }
    if threshold == 0 || threshold as usize > admins.len() {
        return Err(ContractError::InvalidThreshold);
    }
    Ok(())
}

impl GovernanceContract {
    /// The index of multi-sig action `id`, if it exists.
    fn action_index(&self, id: u64) -> (r: Option<usize>)
        requires
            self@.wf(),
        ensures
            match r {
                Some(k) => 1 <= id <= self@.multisig_actions.len() && k == id - 1,
                None => self@.action(id) is None,
            },
    {
        if id >= 1 && id <= self.multisig_actions.len() as u64 {
            Some((id - 1) as usize)
        } else {
            None
        }
    }

    /// Whether `approver` has approved multi-sig action `action_id`.
    fn has_approval(&self, action_id: u64, approver: &String) -> (r: bool)
        ensures
            r == self@.has_approved(action_id, approver@),
    {
        let mut i: usize = 0;
        while i < self.approvals.len()
            invariant
                i <= self@.approvals.len(),
                self@.approvals == self.approvals@,
                forall|j: int|
                    0 <= j < i ==> !(self@.approvals[j].action_id == action_id
                        && self@.approvals[j].approver@ == approver@),
            decreases self@.approvals.len() - i,
        {
            if self.approvals[i].action_id == action_id && self.approvals[i].approver == *approver {
                assert(self@.approvals[i as int].action_id == action_id);
                return true;
            }
            i = i + 1;
        }
        false
    }

    /// The error carrying out a multi-sig action would raise, if any.
    fn action_check(
        &self,
        action_type: MultiSigActionType,
        proposal_id: u64,
        new_config: &Option<MultiSigConfig>,
        now: u64,
    ) -> (r: Result<(), ContractError>)
        requires
            self@.wf(),
        ensures
            r == (match action_failure(
                self@,
                action_type,
                proposal_id,
                config_view(*new_config),
                now,
            ) {
                Some(e) => Err(e),
                None => Ok(()),
            }),
    {
        match action_type {
            MultiSigActionType::ExecuteProposal => {
                let k = match self.proposal_index(proposal_id) {
                    None => {
                        return Err(ContractError::ProposalNotFound);
                    },
                    Some(k) => k,
                };
                proof {
                    self.lemma_proposal_view(k as int);
                }
                if self.proposals[k].state != ProposalState::Passed {
                    return Err(ContractError::ProposalNotPassed);
                }
                if now < self.proposals[k].execute_after {
                    return Err(ContractError::TimelockNotExpired);
                }
                Ok(())
            },
            MultiSigActionType::CancelProposal => {
                let k = match self.proposal_index(proposal_id) {
                    None => {
                        return Err(ContractError::ProposalNotFound);
                    },
                    Some(k) => k,
                };
                proof {
                    self.lemma_proposal_view(k as int);
                }
                if self.proposals[k].state != ProposalState::Active {
                    return Err(ContractError::ProposalNotActive);
                }
                Ok(())
            },
            MultiSigActionType::UpdateMultiSig => match new_config {
                None => Err(ContractError::MultiSigNotConfigured),
                Some(c) => check_config(&c.admins, c.threshold),
            },
            MultiSigActionType::Pause => Ok(()),
            MultiSigActionType::Unpause => if !self.paused {
                Err(ContractError::NotPaused)
            } else {
                Ok(())
            },
        }
    }

    /// Marks multi-sig action `action_id` executed and performs its operation.
    fn run_action(
        &mut self,
        action_id: u64,
        action_type: MultiSigActionType,
        proposal_id: u64,
        new_config: Option<MultiSigConfig>,
        now: u64,
    )
        requires
            old(self)@.wf(),
            1 <= action_id <= old(self)@.multisig_actions.len(),
            action_failure(old(self)@, action_type, proposal_id, config_view(new_config), now)
                is None,
        ensures
            final(self)@ == action_effect(
                old(self)@,
                action_id,
                action_type,
                proposal_id,
                config_view(new_config),
            ),
            final(self)@.wf(),
            lifecycle_step(old(self)@, final(self)@),
    {
        let ghost v = self@;
        let k = match self.action_index(action_id) {
            Some(k) => k,
            None => {
                return;
            },
        };
        let mut a = self.multisig_actions[k].copy();
        a.executed = true;
        self.multisig_actions.set(k, a);
        let ghost v1 = self@;
        assert(v1.multisig_actions =~= v.multisig_actions.update(
            k as int,
            MultiSigActionView { executed: true, ..v.multisig_actions[k as int] },
        ));
        assert(v1 =~= GovView {
            multisig_actions: v.multisig_actions.update(
                k as int,
                MultiSigActionView { executed: true, ..v.multisig_actions[k as int] },
            ),
            ..v
        });
        assert(v1.wf()) by {
            assert forall|i: int| 0 <= i < v1.multisig_actions.len() implies #[trigger]
                v1.multisig_actions[i].id == i + 1 by {
                if i != k {
                    assert(v1.multisig_actions[i] == v.multisig_actions[i]);
                }
            }
        }
        assert(lifecycle_step(v, v1)) by {
            assert forall|i: int| 0 <= i < v.proposals.len() implies #[trigger] keeps_proposal(
                v,
                v1,
                i,
            ) by {}
        }
        match action_type {
            MultiSigActionType::ExecuteProposal => {
                assert(self@.proposals == v.proposals);
                let j = match self.proposal_index(proposal_id) {
                    Some(j) => j,
                    None => {
                        return;
                    },
                };
                proof {
                    self.lemma_proposal_view(j as int);
                }
                let mut p = self.proposals[j].copy();
                p.state = ProposalState::Executed;
                self.replace_proposal(j, p);
                let ghost v2 = self@;
                self.emit(GovEvent::ProposalExecuted { id: proposal_id });
                proof {
                    lemma_lifecycle_trans(v, v1, v2);
                    lemma_lifecycle_trans(v, v2, self@);
                }
            },
            MultiSigActionType::CancelProposal => {
                assert(self@.proposals == v.proposals);
                let j = match self.proposal_index(proposal_id) {
                    Some(j) => j,
                    None => {
                        return;
                    },
                };
                proof {
                    self.lemma_proposal_view(j as int);
                }
                let mut p = self.proposals[j].copy();
                p.state = ProposalState::Cancelled;
                self.replace_proposal(j, p);
                let ghost v2 = self@;
                self.emit(GovEvent::ProposalCancelled { id: proposal_id });
                proof {
                    lemma_lifecycle_trans(v, v1, v2);
                    lemma_lifecycle_trans(v, v2, self@);
                }
            },
            MultiSigActionType::UpdateMultiSig => {
                match new_config {
                    Some(c) => {
                        let threshold = c.threshold;
                        let ghost cv = c@;
                        self.multisig_config = Some(c);
                        assert(self@ =~= GovView { multisig_config: Some(cv), ..v1 });
                        self.emit(GovEvent::MultiSigConfigUpdated { threshold });
                    },
                    None => {},
                }
                proof {
                    lemma_lifecycle_trans(v, v1, self@);
                }
            },
            MultiSigActionType::Pause => {
                self.paused = true;
                assert(self@ =~= GovView { paused: true, ..v1 });
                match &self.admin {
                    Some(admin) => {
                        let admin = admin.clone();
                        self.emit(GovEvent::ContractPaused { admin, reason: None });
                    },
                    None => {},
                }
                proof {
                    lemma_lifecycle_trans(v, v1, self@);
                }
            },
            MultiSigActionType::Unpause => {
                self.paused = false;
                assert(self@ =~= GovView { paused: false, ..v1 });
                match &self.admin {
                    Some(admin) => {
                        let admin = admin.clone();
                        self.emit(GovEvent::ContractUnpaused { admin });
                    },
                    None => {},
                }
                proof {
                    lemma_lifecycle_trans(v, v1, self@);
                }
            },
        }
        let ghost v3 = self@;
        self.emit(GovEvent::MultiSigActionExecuted { action_id, action_type });
        proof {
            lemma_lifecycle_trans(v, v3, self@);
        }
    }

    /// The admin sets the multi-sig admin list and approval threshold.
    pub fn initialize_multisig(&mut self, caller: String, admins: Vec<String>, threshold: u32) -> (r:
        Result<(), ContractError>)
        requires
            old(self)@.wf(),
        ensures
            final(self)@.wf(),
            lifecycle_step(old(self)@, final(self)@),
            follows(
                initialize_multisig_spec(old(self)@, caller, admins@, threshold),
                old(self)@,
                final(self)@,
                r,
            ),
    {
        if is_zero_address(&caller) {
            return Err(ContractError::InvalidAddress);
        }
        match self.require_admin(&caller) {
            Err(e) => {
                return Err(e);
            },
            Ok(()) => {},
        }
        match check_config(&admins, threshold) {
            Err(e) => {
                return Err(e);
            },
            Ok(()) => {},
        }
        let ghost v = self@;
        let ghost admins_view = admins@;
        self.multisig_config = Some(MultiSigConfig { admins, threshold });
        assert(self@ =~= GovView {
            multisig_config: Some(MultiSigConfigView { admins: admins_view, threshold }),
            ..v
        });
        self.emit(GovEvent::MultiSigConfigUpdated { threshold });
        Ok(())
    }

    /// A multi-sig admin proposes a privileged action, approving it at once;
    /// with a threshold of 1 it is carried out at once. Returns the action id.
    pub fn propose_multisig_action(
        &mut self,
        proposer: String,
        action_type: MultiSigActionType,
        proposal_id: u64,
        new_config: Option<MultiSigConfig>,
        now: u64,
    ) -> (r: Result<u64, ContractError>)
        requires
            old(self)@.wf(),
        ensures
            final(self)@.wf(),
            lifecycle_step(old(self)@, final(self)@),
            follows_with(
                propose_multisig_action_spec(
                    old(self)@,
                    proposer,
                    action_type,
                    proposal_id,
                    config_view(new_config),
                    now,
                ),
                old(self)@,
                final(self)@,
                r,
            ),
    {
        if is_zero_address(&proposer) {
            return Err(ContractError::InvalidAddress);
        }
        if self.paused {
            return Err(ContractError::ContractPaused);
        }
        let threshold = match &self.multisig_config {
            None => {
                return Err(ContractError::MultiSigNotConfigured);
            },
            Some(config) => {
                match require_multisig_admin(config, &proposer) {
                    Err(e) => {
                        return Err(e);
                    },
                    Ok(()) => {},
                }
                config.threshold
            },
        };
        let count = self.multisig_actions.len() as u64;
        if count == u64::MAX {
            return Err(ContractError::ProposalCountOverflow);
        }
        let id = count + 1;
        if threshold == 1 {
            match self.action_check(action_type, proposal_id, &new_config, now) {
                Err(e) => {
                    return Err(e);
                },
                Ok(()) => {},
            }
        }
        let ghost v = self@;
        let ghost cfg = config_view(new_config);
        let run_config = match &new_config {
            Some(c) => Some(c.copy()),
            None => None,
        };
        let action = MultiSigAction {
            id,
            action_type,
            proposal_id,
            new_config,
            approvals: 1,
            executed: false,
        };
        self.multisig_actions.push(action);
        self.approvals.push(Approval { action_id: id, approver: proposer.clone() });
        let ghost v1 = self@;
        assert(v1.multisig_actions =~= v.multisig_actions.push(
            MultiSigActionView {
                id,
                action_type,
                proposal_id,
                new_config: cfg,
                approvals: 1,
                executed: false,
            },
        ));
        proof {
            reveal(approvals_unique);
            reveal(approvals_in_range);
            assert forall|i: int| 0 <= i < v1.multisig_actions.len() implies #[trigger]
                v1.multisig_actions[i].id == i + 1 by {
                if i < v.multisig_actions.len() {
                    assert(v1.multisig_actions[i] == v.multisig_actions[i]);
                }
            }
            assert forall|i: int, j: int| 0 <= i < j < v1.approvals.len() implies !(
            v1.approvals[i].action_id == v1.approvals[j].action_id && v1.approvals[i].approver@
                == v1.approvals[j].approver@) by {
                if j == v.approvals.len() {
                    assert(v.approvals[i].action_id <= v.multisig_actions.len());
                }
            }
            assert(lifecycle_step(v, v1)) by {
                assert forall|i: int| 0 <= i < v.proposals.len() implies #[trigger] keeps_proposal(
                    v,
                    v1,
                    i,
                ) by {}
            }
        }
        self.emit(GovEvent::MultiSigActionProposed { action_id: id, proposer: proposer.clone(), action_type });
        self.emit(
            GovEvent::MultiSigActionApproved { action_id: id, approver: proposer, approvals: 1, threshold },
        );
        let ghost v2 = self@;
        proof {
            lemma_lifecycle_trans(v, v1, v2);
        }
        if threshold == 1 {
            self.run_action(id, action_type, proposal_id, run_config, now);
            proof {
                lemma_lifecycle_trans(v, v2, self@);
            }
        }
        Ok(id)
    }

    /// A multi-sig admin approves a pending action; once the approvals reach
    /// the threshold the action is carried out at once.
    pub fn approve_multisig_action(&mut self, approver: String, action_id: u64, now: u64) -> (r:
        Result<(), ContractError>)
        requires
            old(self)@.wf(),
        ensures
            final(self)@.wf(),
            lifecycle_step(old(self)@, final(self)@),
            follows(
                approve_multisig_action_spec(old(self)@, approver, action_id, now),
                old(self)@,
                final(self)@,
                r,
            ),
    {
        if is_zero_address(&approver) {
            return Err(ContractError::InvalidAddress);
        }
        if self.paused {
            return Err(ContractError::ContractPaused);
        }
        let threshold = match &self.multisig_config {
            None => {
                return Err(ContractError::MultiSigNotConfigured);
            },
            Some(config) => {
                match require_multisig_admin(config, &approver) {
                    Err(e) => {
                        return Err(e);
                    },
                    Ok(()) => {},
                }
                config.threshold
            },
        };
        let k = match self.action_index(action_id) {
            None => {
                return Err(ContractError::ActionNotFound);
            },
            Some(k) => k,
        };
        if self.multisig_actions[k].executed {
            return Err(ContractError::ActionAlreadyExecuted);
        }
        if self.has_approval(action_id, &approver) {
            return Err(ContractError::AlreadyApproved);
        }
        let approvals = match self.multisig_actions[k].approvals.checked_add(1) {
            None => {
                return Err(ContractError::VoteTallyOverflow);
            },
            Some(n) => n,
        };
        let action_type = self.multisig_actions[k].action_type;
        let proposal_id = self.multisig_actions[k].proposal_id;
        let run_config = match &self.multisig_actions[k].new_config {
            Some(c) => Some(c.copy()),
            None => None,
        };
        if approvals >= threshold {
            match self.action_check(action_type, proposal_id, &run_config, now) {
                Err(e) => {
                    return Err(e);
                },
                Ok(()) => {},
            }
        }
        let ghost v = self@;
        let mut a = self.multisig_actions[k].copy();
        a.approvals = approvals;
        self.multisig_actions.set(k, a);
        self.approvals.push(Approval { action_id, approver: approver.clone() });
        let ghost v1 = self@;
        assert(v1.multisig_actions =~= v.multisig_actions.update(
            k as int,
            MultiSigActionView { approvals, ..v.multisig_actions[k as int] },
        ));
        proof {
            reveal(approvals_unique);
            reveal(approvals_in_range);
            assert forall|i: int| 0 <= i < v1.multisig_actions.len() implies #[trigger]
                v1.multisig_actions[i].id == i + 1 by {
                if i != k {
                    assert(v1.multisig_actions[i] == v.multisig_actions[i]);
                }
            }
            assert forall|i: int, j: int| 0 <= i < j < v1.approvals.len() implies !(
            v1.approvals[i].action_id == v1.approvals[j].action_id && v1.approvals[i].approver@
                == v1.approvals[j].approver@) by {
                if j == v.approvals.len() {
                    if v.approvals[i].action_id == action_id && v.approvals[i].approver@
                        == approver@ {
                        assert(v.has_approved(action_id, approver@));
                    }
                }
            }
            assert(lifecycle_step(v, v1)) by {
                assert forall|i: int| 0 <= i < v.proposals.len() implies #[trigger] keeps_proposal(
                    v,
                    v1,
                    i,
                ) by {}
            }
        }
        self.emit(GovEvent::MultiSigActionApproved { action_id, approver, approvals, threshold });
        let ghost v2 = self@;
        proof {
            lemma_lifecycle_trans(v, v1, v2);
        }
        if approvals >= threshold {
            self.run_action(action_id, action_type, proposal_id, run_config, now);
            proof {
                lemma_lifecycle_trans(v, v2, self@);
            }
        }
        Ok(())
    }

    /// The multi-sig configuration, or `None` if it was never set.
    pub fn get_multisig_config(&self) -> (r: Option<MultiSigConfig>)
        ensures
            config_view(r) == self@.multisig_config,
    {
        match &self.multisig_config {
            Some(c) => Some(c.copy()),
            None => None,
        }
    }
}
} // verus!
