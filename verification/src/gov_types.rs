//! Types of the governance contract: its errors, proposals, votes, multi-sig
//! actions and the events it publishes.
use vstd::prelude::*;

verus! {

/// All revert conditions for the governance contract.
#[derive(Clone, Copy, Debug, PartialEq, Eq, Structural)]
pub enum ContractError {
    /// Admin address is not set
    AdminNotSet,
    /// Caller is not the admin
    NotAdmin,
    /// Voting token address is not set
    VotingTokenNotSet,
    /// Quorum must be greater than zero
    InvalidQuorum,
    /// Duration must be greater than zero
    InvalidDuration,
    /// Proposal with the given ID does not exist
    ProposalNotFound,
    /// Proposal is not in Active status
    ProposalNotActive,
    /// Voting period has already ended
    VotingPeriodEnded,
    /// Voting period has not ended yet
    VotingStillOpen,
    /// Voter has already cast a vote on this proposal
    AlreadyVoted,
    /// Voter has no token balance (no voting power)
    NoVotingPower,
    /// Proposal has not passed
    ProposalNotPassed,
    /// Contract has already been initialized
    AlreadyInitialized,
    /// Vote tally arithmetic overflow
    VoteTallyOverflow,
    /// Proposer has insufficient token balance to create a proposal
    InsufficientBalance,
    /// Proposer must wait for the cooldown period to expire
    ProposalCooldown,
    /// Proposal title exceeds maximum byte length
    TitleTooLong,
    /// Proposal description exceeds maximum byte length
    DescriptionTooLong,
    /// Proposal title is empty, too long or holds a control byte
    InvalidTitle,
    /// Proposal description is empty, too long or holds a control byte
    InvalidDescription,
    /// Duration is outside the allowed [min_duration, max_duration] range
    InvalidDurationRange,
    /// Quorum exceeds the total token supply
    QuorumExceedsSupply,
    /// Voting period has not yet started
    VotingNotStarted,
    /// New admin address is invalid (e.g. zero address)
    InvalidNewAdmin,
    /// Admin is not permitted to vote on their own proposals
    AdminVoteRestricted,
    /// Contract is paused; state-changing operations are blocked
    ContractPaused,
    /// Contract is not paused
    NotPaused,
    /// Address parameter is the zero/default address
    InvalidAddress,
    /// Proposal ID counter overflowed (u64::MAX reached)
    ProposalCountOverflow,
    /// Timelock period has not yet expired
    TimelockNotExpired,
    /// No pending admin transfer has been proposed
    PendingAdminNotSet,
    /// The admin transfer window has expired; propose again
    AdminTransferExpired,
    /// Caller is not the pending admin
    NotPendingAdmin,
    /// Target version is not greater than the current version (downgrade rejected)
    DowngradeNotAllowed,
    /// Proposal amendment is not allowed once voting has started
    ProposalAmendmentNotAllowed,
    /// Only the proposer may amend the proposal
    NotProposalOwner,
    /// Invalid duration configuration (min > max)
    InvalidDurationConfig,
    /// Invalid veto threshold (must be >= 0 and <= total supply)
    InvalidVetoThreshold,
    /// Invalid minimum proposal balance (must be >= 0)
    InvalidMinProposalBalance,
    /// Migration failed (invalid state or preconditions)
    MigrationFailed,
    /// The voting token does not expose the token interface
    InvalidTokenContract,
    /// More tags than allowed
    TooManyTags,
    /// A tag is longer than allowed
    TagTooLong,
    /// A proposal already exists under the next ID
    ProposalAlreadyExists,
    /// Caller is not in the multi-sig admin list
    NotMultiSigAdmin,
    /// Multi-sig has not been configured
    MultiSigNotConfigured,
    /// The multi-sig admin list is empty
    EmptyAdminList,
    /// The multi-sig threshold is zero or larger than the admin list
    InvalidThreshold,
    /// Multi-sig action with the given ID does not exist
    ActionNotFound,
    /// The multi-sig action has already been executed
    ActionAlreadyExecuted,
    /// The approver has already approved this action
    AlreadyApproved,
}

/// A semantic version `(major, minor, patch)`.
#[derive(Clone, Copy, Debug, PartialEq, Eq, Structural)]
pub struct Version {
    pub major: u32,
    pub minor: u32,
    pub patch: u32,
}

/// Versions are ordered lexicographically by major, minor and patch.
pub open spec fn version_lt(a: Version, b: Version) -> bool {
    ||| a.major < b.major
    ||| a.major == b.major && a.minor < b.minor
    ||| a.major == b.major && a.minor == b.minor && a.patch < b.patch
}

impl Version {
    /// The version `(major, minor, patch)`.
    pub fn new(major: u32, minor: u32, patch: u32) -> (r: Self)
        ensures
            r == (Version { major, minor, patch }),
    {
        Version { major, minor, patch }
    }

    /// Whether `self` comes strictly before `other`.
    pub fn less_than(&self, other: &Version) -> (r: bool)
        ensures
            r == version_lt(*self, *other),
    {
        self.major < other.major || (self.major == other.major && (self.minor < other.minor || (
        self.minor == other.minor && self.patch < other.patch)))
    }
}

/// Lifecycle state of the governance contract itself.
#[derive(Clone, Copy, Debug, PartialEq, Eq, Structural)]
pub enum ContractState {
    Uninitialized,
    Ready,
}

/// Lifecycle state of a proposal.
#[derive(Clone, Copy, Debug, PartialEq, Eq, Structural)]
pub enum ProposalState {
    Active,
    Passed,
    Rejected,
    Executed,
    Cancelled,
}

/// A vote direction.
#[derive(Clone, Copy, Debug, PartialEq, Eq, Structural)]
pub enum Vote {
    Yes,
    No,
    Abstain,
}

/// A governance proposal.
///
/// `metadata_version` identifies the schema version the proposal was created
/// under; `execute_after` is the earliest time at which a passed proposal may
/// be executed (0 until it passes).
#[derive(Clone, Debug)]
pub struct Proposal {
    pub id: u64,
    pub proposer: String,
    pub title: String,
    pub description: String,
    pub votes_yes: i128,
    pub votes_no: i128,
    pub votes_abstain: i128,
    pub quorum: i128,
    pub start_time: u64,
    pub end_time: u64,
    pub state: ProposalState,
    pub execute_after: u64,
    pub tags: Vec<String>,
    pub metadata_version: u32,
}

/// The vote a voter cast on a proposal, with the weight it carried.
#[derive(Clone, Copy, Debug, PartialEq, Eq, Structural)]
pub struct VoteRecord {
    pub vote_type: Vote,
    pub weight: i128,
}

/// Full contract configuration.
#[derive(Clone, Debug)]
pub struct GovernanceConfig {
    pub voting_token: String,
    pub min_proposal_balance: i128,
    pub proposal_cooldown: u64,
    pub min_duration: u64,
    pub max_duration: u64,
    pub restrict_admin_vote: bool,
    pub timelock_duration: u64,
    pub paused: bool,
    pub version: Version,
    pub persistent_storage_ttl: u32,
}

/// Spam-prevention configuration.
#[derive(Clone, Copy, Debug, PartialEq, Eq, Structural)]
pub struct SpamConfig {
    /// Minimum token balance required to create a proposal (0 = disabled).
    pub min_proposal_balance: i128,
    /// Minimum seconds between consecutive proposals per address (0 = disabled).
    pub proposal_cooldown: u64,
}

/// Multi-sig admin configuration.
#[derive(Clone, Debug)]
pub struct MultiSigConfig {
    pub admins: Vec<String>,
    pub threshold: u32,
}

/// Type of privileged action that requires multi-sig approval.
#[derive(Clone, Copy, Debug, PartialEq, Eq, Structural)]
pub enum MultiSigActionType {
    ExecuteProposal,
    CancelProposal,
    UpdateMultiSig,
    Pause,
    Unpause,
}

/// A pending or executed multi-sig action.
#[derive(Clone, Debug)]
pub struct MultiSigAction {
    pub id: u64,
    pub action_type: MultiSigActionType,
    pub proposal_id: u64,
    pub new_config: Option<MultiSigConfig>,
    pub approvals: u32,
    pub executed: bool,
}

/// An event published by the governance contract. Every event carries the
/// topic `gov` first, then its own topic; the payloads are the fields.
#[derive(Clone, Debug)]
pub enum GovEvent {
    /// `("gov", "init")`
    Initialized { admin: String },
    /// `("gov", "created", id)`
    ProposalCreated { id: u64, proposer: String, metadata_version: u32 },
    /// `("gov", "amended", id)`
    ProposalAmended { id: u64, proposer: String, title: String, description: String },
    /// `("gov", "vote", id)`
    VoteCast { id: u64, voter: String, vote: Vote, weight: i128 },
    /// `("gov", "final", id)`
    ProposalFinalised { id: u64, state: ProposalState, execute_after: u64 },
    /// `("gov", "veto", id)`
    ProposalVetoed { id: u64, votes_no: i128, veto_threshold: i128 },
    /// `("gov", "executed", id)`
    ProposalExecuted { id: u64 },
    /// `("gov", "cancelled", id)`
    ProposalCancelled { id: u64 },
    /// `("gov", "qupdate", id)`
    QuorumUpdated { id: u64, new_quorum: i128 },
    /// `("gov", "admxfer")`
    AdminTransferred { old_admin: String, new_admin: String },
    /// `("gov", "admprop")`
    AdminTransferProposed { admin: String, nominee: String, expiry: u64 },
    /// `("gov", "paused")`
    ContractPaused { admin: String, reason: Option<String> },
    /// `("gov", "unpaused")`
    ContractUnpaused { admin: String },
    /// `("gov", "upgraded")`
    ContractUpgraded { old_version: Version, new_version: Version },
    /// `("gov", "migrated")`
    MigrationCompleted { old_version: Version, new_version: Version },
    /// `("gov", "msprop", action_id)`
    MultiSigActionProposed { action_id: u64, proposer: String, action_type: MultiSigActionType },
    /// `("gov", "msapprv", action_id)`
    MultiSigActionApproved { action_id: u64, approver: String, approvals: u32, threshold: u32 },
    /// `("gov", "msexec", action_id)`
    MultiSigActionExecuted { action_id: u64, action_type: MultiSigActionType },
    /// `("gov", "mscfg")`
    MultiSigConfigUpdated { threshold: u32 },
}

/// What a proposal holds, with its tag list as a sequence.
pub struct ProposalView {
    pub id: u64,
    pub proposer: String,
    pub title: String,
    pub description: String,
    pub votes_yes: i128,
    pub votes_no: i128,
    pub votes_abstain: i128,
    pub quorum: i128,
    pub start_time: u64,
    pub end_time: u64,
    pub state: ProposalState,
    pub execute_after: u64,
    pub tags: Seq<String>,
    pub metadata_version: u32,
}

impl View for Proposal {
    type V = ProposalView;

    open spec fn view(&self) -> ProposalView {
        ProposalView {
            id: self.id,
            proposer: self.proposer,
            title: self.title,
            description: self.description,
            votes_yes: self.votes_yes,
            votes_no: self.votes_no,
            votes_abstain: self.votes_abstain,
            quorum: self.quorum,
            start_time: self.start_time,
            end_time: self.end_time,
            state: self.state,
            execute_after: self.execute_after,
            tags: self.tags@,
            metadata_version: self.metadata_version,
        }
    }
}

/// What a multi-sig configuration holds, with its admin list as a sequence.
pub struct MultiSigConfigView {
    pub admins: Seq<String>,
    pub threshold: u32,
}

impl View for MultiSigConfig {
    type V = MultiSigConfigView;

    open spec fn view(&self) -> MultiSigConfigView {
        MultiSigConfigView { admins: self.admins@, threshold: self.threshold }
    }
}

/// The view of an optional multi-sig configuration.
pub open spec fn config_view(c: Option<MultiSigConfig>) -> Option<MultiSigConfigView> {
    match c {
        Some(c) => Some(c@),
        None => None,
    }
}

/// What a multi-sig action holds.
pub struct MultiSigActionView {
    pub id: u64,
    pub action_type: MultiSigActionType,
    pub proposal_id: u64,
    pub new_config: Option<MultiSigConfigView>,
    pub approvals: u32,
    pub executed: bool,
}

impl View for MultiSigAction {
    type V = MultiSigActionView;

    open spec fn view(&self) -> MultiSigActionView {
        MultiSigActionView {
            id: self.id,
            action_type: self.action_type,
            proposal_id: self.proposal_id,
            new_config: config_view(self.new_config),
            approvals: self.approvals,
            executed: self.executed,
        }
    }
}

impl Proposal {
    /// A field-by-field copy.
    pub fn copy(&self) -> (r: Self)
        ensures
            r@ == self@,
    {
        Proposal {
            id: self.id,
            proposer: self.proposer.clone(),
            title: self.title.clone(),
            description: self.description.clone(),
            votes_yes: self.votes_yes,
            votes_no: self.votes_no,
            votes_abstain: self.votes_abstain,
            quorum: self.quorum,
            start_time: self.start_time,
            end_time: self.end_time,
            state: self.state,
            execute_after: self.execute_after,
            tags: copy_strings(&self.tags),
            metadata_version: self.metadata_version,
        }
    }
}

/// A copy of a list of strings.
pub fn copy_strings(v: &Vec<String>) -> (r: Vec<String>)
    ensures
        r@ == v@,
{
    let mut r: Vec<String> = Vec::new();
    let mut i: usize = 0;
    while i < v.len()
        invariant
            i <= v@.len(),
            r@ == v@.take(i as int),
        decreases v@.len() - i,
    {
        r.push(v[i].clone());
        assert(v@.take(i + 1) =~= v@.take(i as int).push(v@[i as int]));
        i = i + 1;
    }
    assert(v@.take(v@.len() as int) =~= v@);
    r
}

impl MultiSigConfig {
    /// A field-by-field copy.
    pub fn copy(&self) -> (r: Self)
        ensures
            r@ == self@,
    {
        MultiSigConfig { admins: copy_strings(&self.admins), threshold: self.threshold }
    }
}

impl MultiSigAction {
    /// A field-by-field copy.
    pub fn copy(&self) -> (r: Self)
        ensures
            r@ == self@,
    {
        MultiSigAction {
            id: self.id,
            action_type: self.action_type,
            proposal_id: self.proposal_id,
            new_config: match &self.new_config {
                Some(c) => Some(c.copy()),
                None => None,
            },
            approvals: self.approvals,
            executed: self.executed,
        }
    }
}

} // verus!
