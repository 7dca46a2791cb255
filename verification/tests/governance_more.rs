use votechain::address::ZERO_ADDRESS;
use votechain::gov_types::{
    ContractError, GovEvent, MultiSigActionType, MultiSigConfig, ProposalState, SpamConfig, Version, Vote,
};
use votechain::governance::GovernanceContract;
use votechain::token::TokenContract;

/// A governance contract initialised against a token of 1_000_000 units
/// held by the admin.
struct Gov {
    gov: GovernanceContract,
    tok: TokenContract,
    admin: String,
    now: u64,
    next: u32,
}

impl Gov {
    fn generate(&mut self) -> String {
        self.next += 1;
        format!("GMEMBER{:049}", self.next)
    }

    fn mint(&mut self, to: &str, amount: i128) {
        self.tok.mint(self.admin.clone(), to.to_string(), amount).unwrap();
    }

    fn create(&mut self, proposer: &str, title: &str, quorum: i128, duration: u64) -> Result<u64, ContractError> {
        self.create_tagged(proposer, title, quorum, duration, Vec::new())
    }

    fn create_tagged(
        &mut self,
        proposer: &str,
        title: &str,
        quorum: i128,
        duration: u64,
        tags: Vec<String>,
    ) -> Result<u64, ContractError> {
        self.gov.create_proposal(
            proposer.to_string(),
            title.to_string(),
            "description".to_string(),
            quorum,
            duration,
            tags,
            self.now,
            &self.tok,
        )
    }

    fn vote(&mut self, voter: &str, id: u64, vote: Vote) -> Result<(), ContractError> {
        self.gov.cast_vote(voter.to_string(), id, vote, self.now, &self.tok)
    }

    fn state(&self, id: u64) -> ProposalState {
        self.gov.get_proposal(id).unwrap().state
    }

    /// A proposal that a minted voter passed, finalised at `self.now`.
    fn passed_proposal(&mut self) -> u64 {
        let voter = self.generate();
        self.mint(&voter, 1_000);
        let id = self.create(&voter, "Passing", 100, 3600).unwrap();
        self.vote(&voter, id, Vote::Yes).unwrap();
        self.now += 3601;
        self.gov.finalise(id, self.now).unwrap();
        id
    }
}

/// Settings: amendment window, timelock and veto threshold; durations
/// between 60 s and 30 days.
fn gov_with(amend_window: u64, timelock: u64, veto: i128) -> Gov {
    let mut tok = TokenContract::new("GTOKEN00000000000000000000000000000000000000000000000000".to_string());
    let admin = "GADMIN00000000000000000000000000000000000000000000000000".to_string();
    tok.initialize(admin.clone(), 1_000_000).unwrap();
    let mut gov = GovernanceContract::new();
    gov.initialize(
        admin.clone(),
        "GTOKEN00000000000000000000000000000000000000000000000000".to_string(),
        0,
        0,
        60,
        2_592_000,
        false,
        amend_window,
        timelock,
        veto,
        0,
        &tok,
    )
    .unwrap();
    Gov { gov, tok, admin, now: 0, next: 0 }
}

fn gov() -> Gov {
    gov_with(0, 0, 0)
}

#[test]
fn gov_amend_only_by_proposer_before_voting_starts() {
    let mut g = gov_with(100, 0, 0);
    let proposer = g.generate();
    let other = g.generate();
    let id = g.create(&proposer, "Draft", 100, 3600).unwrap();
    let p = g.gov.get_proposal(id).unwrap();
    assert_eq!((p.start_time, p.end_time), (100, 3700));
    g.now = 50;
    g.mint(&other, 10);
    assert_eq!(g.vote(&other, id, Vote::Yes), Err(ContractError::VotingNotStarted));
    assert_eq!(
        g.gov.amend_proposal(other.clone(), id, "X".into(), "Y".into(), g.now),
        Err(ContractError::NotProposalOwner)
    );
    assert_eq!(
        g.gov.amend_proposal(proposer.clone(), id, "".into(), "Y".into(), g.now),
        Err(ContractError::InvalidTitle)
    );
    assert_eq!(
        g.gov.amend_proposal(proposer.clone(), id, "T\u{7}".into(), "Y".into(), g.now),
        Err(ContractError::InvalidTitle)
    );
    assert_eq!(
        g.gov.amend_proposal(proposer.clone(), id, "T".into(), "d".repeat(1025), g.now),
        Err(ContractError::InvalidDescription)
    );
    g.gov.amend_proposal(proposer.clone(), id, "Final".into(), "Better".into(), g.now).unwrap();
    let p = g.gov.get_proposal(id).unwrap();
    assert_eq!(p.title, "Final");
    assert_eq!(p.description, "Better");
    assert!(g.gov.events().iter().any(|e| matches!(e, GovEvent::ProposalAmended { id: i, .. } if *i == id)));
    g.now = 100;
    assert_eq!(
        g.gov.amend_proposal(proposer, id, "Late".into(), "Y".into(), g.now),
        Err(ContractError::ProposalAmendmentNotAllowed)
    );
    g.vote(&other, id, Vote::Yes).unwrap();
}

#[test]
fn gov_timelock_delays_execution() {
    let mut g = gov_with(0, 100, 0);
    let id = g.passed_proposal();
    let p = g.gov.get_proposal(id).unwrap();
    assert_eq!(p.end_time, 3600);
    assert_eq!(p.execute_after, 3600 + 100);
    assert!(g.gov.events().iter().any(|e| matches!(e,
        GovEvent::ProposalFinalised { id: i, state: ProposalState::Passed, execute_after: 3700 } if *i == id)));
    let admin = g.admin.clone();
    assert_eq!(g.gov.execute(admin.clone(), id, 3650), Err(ContractError::TimelockNotExpired));
    assert_eq!(g.gov.execute(admin.clone(), id, 3699), Err(ContractError::TimelockNotExpired));
    assert_eq!(g.state(id), ProposalState::Passed);
    g.gov.execute(admin, id, 3700).unwrap();
    assert_eq!(g.state(id), ProposalState::Executed);
}

#[test]
fn gov_timelock_counts_from_end_time_not_finalisation() {
    let mut g = gov_with(0, 100, 0);
    let voter = g.generate();
    g.mint(&voter, 1_000);
    let id = g.create(&voter, "Late finalise", 100, 3600).unwrap();
    g.vote(&voter, id, Vote::Yes).unwrap();
    g.gov.finalise(id, 10_000).unwrap();
    assert_eq!(g.gov.get_proposal(id).unwrap().execute_after, 3700);
    g.gov.execute(g.admin.clone(), id, 10_000).unwrap();
    assert_eq!(g.state(id), ProposalState::Executed);
}

#[test]
fn gov_rejected_proposal_has_no_execution_time() {
    let mut g = gov_with(0, 100, 0);
    let p = g.generate();
    let id = g.create(&p, "Unloved", 100, 3600).unwrap();
    g.gov.finalise(id, 3601).unwrap();
    let r = g.gov.get_proposal(id).unwrap();
    assert_eq!(r.state, ProposalState::Rejected);
    assert_eq!(r.execute_after, 0);
}

#[test]
fn gov_veto_rejects_once_no_votes_reach_threshold() {
    let mut g = gov_with(0, 0, 500);
    let proposer = g.generate();
    let id = g.create(&proposer, "Contested", 100, 3600).unwrap();
    let a = g.generate();
    let b = g.generate();
    let c = g.generate();
    g.mint(&a, 300);
    g.mint(&b, 200);
    g.mint(&c, 50);
    g.vote(&a, id, Vote::No).unwrap();
    assert_eq!(g.state(id), ProposalState::Active);
    g.vote(&b, id, Vote::No).unwrap();
    assert_eq!(g.state(id), ProposalState::Rejected);
    assert!(g.gov.events().iter().any(|e| matches!(e,
        GovEvent::ProposalVetoed { id: i, votes_no: 500, veto_threshold: 500 } if *i == id)));
    assert_eq!(g.vote(&c, id, Vote::Yes), Err(ContractError::ProposalNotActive));
}

#[test]
fn gov_veto_threshold_must_fit_supply() {
    let mut tok = TokenContract::new("GTOKEN".to_string());
    let admin = "GADMIN".to_string();
    tok.initialize(admin.clone(), 1_000).unwrap();
    let mut gov = GovernanceContract::new();
    let init = |gov: &mut GovernanceContract, veto: i128| {
        gov.initialize(admin.clone(), "GTOKEN".into(), 0, 0, 60, 2_592_000, false, 0, 0, veto, 0, &tok)
    };
    assert_eq!(init(&mut gov, 1_001), Err(ContractError::InvalidVetoThreshold));
    assert_eq!(init(&mut gov, -1), Err(ContractError::InvalidVetoThreshold));
    init(&mut gov, 1_000).unwrap();
}

#[test]
fn gov_admin_handover_in_two_steps() {
    let mut g = gov();
    let admin = g.admin.clone();
    let nominee = g.generate();
    let stranger = g.generate();
    assert_eq!(g.gov.accept_admin_transfer(nominee.clone(), 0), Err(ContractError::PendingAdminNotSet));
    g.gov.propose_admin_transfer(admin.clone(), nominee.clone(), 0, 10).unwrap();
    assert!(g.gov.events().iter().any(|e| matches!(e,
        GovEvent::AdminTransferProposed { expiry: 172_810, .. })));
    assert_eq!(g.gov.accept_admin_transfer(stranger, 20), Err(ContractError::NotPendingAdmin));
    g.gov.accept_admin_transfer(nominee.clone(), 172_810).unwrap();
    let id = g.create(&nominee, "After handover", 100, 3600).unwrap();
    assert_eq!(g.gov.cancel(admin, id), Err(ContractError::NotAdmin));
    g.gov.cancel(nominee.clone(), id).unwrap();
    assert_eq!(g.gov.accept_admin_transfer(nominee, 0), Err(ContractError::PendingAdminNotSet));
}

#[test]
fn gov_admin_nomination_expires() {
    let mut g = gov();
    let admin = g.admin.clone();
    let nominee = g.generate();
    g.gov.propose_admin_transfer(admin.clone(), nominee.clone(), 100, 0).unwrap();
    assert_eq!(g.gov.accept_admin_transfer(nominee, 101), Err(ContractError::AdminTransferExpired));
    let id = g.create(&admin, "Still mine", 100, 3600).unwrap();
    g.gov.cancel(admin, id).unwrap();
}

#[test]
fn gov_versions_only_move_up() {
    let mut g = gov();
    let admin = g.admin.clone();
    let outsider = g.generate();
    assert_eq!(g.gov.get_version(), Version { major: 1, minor: 0, patch: 0 });
    assert_eq!(g.gov.migrate(outsider.clone()), Err(ContractError::NotAdmin));
    g.gov.migrate(admin.clone()).unwrap();
    assert_eq!(g.gov.get_version(), Version { major: 2, minor: 0, patch: 0 });
    let events = g.gov.events().len();
    g.gov.migrate(admin.clone()).unwrap();
    assert_eq!(g.gov.events().len(), events);
    assert_eq!(
        g.gov.upgrade(admin.clone(), Version { major: 2, minor: 0, patch: 0 }),
        Err(ContractError::DowngradeNotAllowed)
    );
    assert_eq!(
        g.gov.upgrade(admin.clone(), Version { major: 1, minor: 9, patch: 9 }),
        Err(ContractError::DowngradeNotAllowed)
    );
    assert_eq!(
        g.gov.upgrade(outsider, Version { major: 3, minor: 0, patch: 0 }),
        Err(ContractError::NotAdmin)
    );
    g.gov.upgrade(admin, Version { major: 2, minor: 1, patch: 0 }).unwrap();
    assert_eq!(g.gov.get_version(), Version { major: 2, minor: 1, patch: 0 });
}

#[test]
fn gov_multisig_executes_at_threshold() {
    let mut g = gov();
    let admin = g.admin.clone();
    let (a, b, c) = (g.generate(), g.generate(), g.generate());
    let outsider = g.generate();
    let id = g.passed_proposal();
    assert_eq!(
        g.gov.propose_multisig_action(a.clone(), MultiSigActionType::ExecuteProposal, id, None, g.now),
        Err(ContractError::MultiSigNotConfigured)
    );
    assert_eq!(g.gov.initialize_multisig(admin.clone(), Vec::new(), 1), Err(ContractError::EmptyAdminList));
    assert_eq!(
        g.gov.initialize_multisig(admin.clone(), vec![a.clone(), b.clone()], 0),
        Err(ContractError::InvalidThreshold)
    );
    assert_eq!(
        g.gov.initialize_multisig(admin.clone(), vec![a.clone(), b.clone()], 3),
        Err(ContractError::InvalidThreshold)
    );
    assert_eq!(
        g.gov.initialize_multisig(outsider.clone(), vec![a.clone()], 1),
        Err(ContractError::NotAdmin)
    );
    g.gov.initialize_multisig(admin, vec![a.clone(), b.clone(), c.clone()], 2).unwrap();
    assert_eq!(g.gov.get_multisig_config().unwrap().threshold, 2);
    assert_eq!(
        g.gov.propose_multisig_action(outsider, MultiSigActionType::ExecuteProposal, id, None, g.now),
        Err(ContractError::NotMultiSigAdmin)
    );
    let action = g
        .gov
        .propose_multisig_action(a.clone(), MultiSigActionType::ExecuteProposal, id, None, g.now)
        .unwrap();
    assert_eq!(action, 1);
    assert_eq!(g.state(id), ProposalState::Passed);
    assert_eq!(g.gov.approve_multisig_action(a, action, g.now), Err(ContractError::AlreadyApproved));
    assert_eq!(g.gov.approve_multisig_action(b.clone(), 9, g.now), Err(ContractError::ActionNotFound));
    g.gov.approve_multisig_action(b, action, g.now).unwrap();
    assert_eq!(g.state(id), ProposalState::Executed);
    assert!(g.gov.events().iter().any(|e| matches!(e,
        GovEvent::MultiSigActionExecuted { action_id: 1, action_type: MultiSigActionType::ExecuteProposal })));
    assert_eq!(g.gov.approve_multisig_action(c, action, g.now), Err(ContractError::ActionAlreadyExecuted));
}

#[test]
fn gov_multisig_single_approval_pauses_and_reconfigures() {
    let mut g = gov();
    let admin = g.admin.clone();
    let a = g.generate();
    let b = g.generate();
    g.gov.initialize_multisig(admin, vec![a.clone()], 1).unwrap();
    let cfg = MultiSigConfig { admins: vec![a.clone(), b.clone()], threshold: 2 };
    g.gov.propose_multisig_action(a.clone(), MultiSigActionType::UpdateMultiSig, 0, Some(cfg), 0).unwrap();
    let now_cfg = g.gov.get_multisig_config().unwrap();
    assert_eq!(now_cfg.admins, vec![a.clone(), b.clone()]);
    assert_eq!(now_cfg.threshold, 2);
    let pause = g.gov.propose_multisig_action(b.clone(), MultiSigActionType::Pause, 0, None, 0).unwrap();
    assert!(!g.gov.paused());
    g.gov.approve_multisig_action(a, pause, 0).unwrap();
    assert!(g.gov.paused());
    assert_eq!(
        g.gov.propose_multisig_action(b, MultiSigActionType::Unpause, 0, None, 0),
        Err(ContractError::ContractPaused)
    );
}

#[test]
fn gov_multisig_failed_action_changes_nothing() {
    let mut g = gov();
    let admin = g.admin.clone();
    let a = g.generate();
    g.gov.initialize_multisig(admin, vec![a.clone()], 1).unwrap();
    let before = g.gov.events().len();
    assert_eq!(
        g.gov.propose_multisig_action(a.clone(), MultiSigActionType::CancelProposal, 42, None, 0),
        Err(ContractError::ProposalNotFound)
    );
    assert_eq!(g.gov.events().len(), before);
    assert_eq!(
        g.gov.propose_multisig_action(a, MultiSigActionType::UpdateMultiSig, 0, None, 0),
        Err(ContractError::MultiSigNotConfigured)
    );
}

#[test]
fn gov_list_proposals_pages_by_id() {
    let mut g = gov();
    let p = g.generate();
    for title in ["one", "two", "three"] {
        g.create(&p, title, 100, 3600).unwrap();
    }
    let ids: Vec<u64> = g.gov.list_proposals(0, 2).iter().map(|p| p.id).collect();
    assert_eq!(ids, vec![1, 2]);
    let ids: Vec<u64> = g.gov.list_proposals(2, 10).iter().map(|p| p.id).collect();
    assert_eq!(ids, vec![3]);
    assert!(g.gov.list_proposals(5, 1).is_empty());
    assert_eq!(g.gov.list_proposals(0, 1000).len(), 3);
}

#[test]
fn gov_configuration_is_readable() {
    let mut fresh = GovernanceContract::new();
    assert!(fresh.get_config().is_none());
    assert_eq!(fresh.get_version(), Version { major: 0, minor: 0, patch: 0 });
    assert_eq!(fresh.unpause("GX".into()), Err(ContractError::AdminNotSet));
    let mut g = gov();
    let cfg = g.gov.get_config().unwrap();
    assert_eq!(cfg.voting_token, "GTOKEN00000000000000000000000000000000000000000000000000");
    assert_eq!((cfg.min_duration, cfg.max_duration), (60, 2_592_000));
    assert!(!cfg.paused);
    assert_eq!(g.gov.get_spam_config(), SpamConfig { min_proposal_balance: 0, proposal_cooldown: 0 });
    let admin = g.admin.clone();
    assert_eq!(g.gov.unpause(admin.clone()), Err(ContractError::NotPaused));
    g.gov.pause(admin.clone(), Some("maintenance".into())).unwrap();
    assert_eq!(g.gov.get_pause_reason(), Some("maintenance".to_string()));
    assert!(g.gov.get_config().unwrap().paused);
    g.gov.unpause(admin).unwrap();
    assert_eq!(g.gov.get_pause_reason(), None);
}

#[test]
fn gov_create_proposal_errors() {
    let mut g = gov();
    let p = g.generate();
    assert_eq!(g.create(ZERO_ADDRESS, "t", 100, 3600), Err(ContractError::InvalidAddress));
    assert_eq!(g.create(&p, "", 100, 3600), Err(ContractError::InvalidTitle));
    assert_eq!(g.create(&p, &"t".repeat(129), 100, 3600), Err(ContractError::InvalidTitle));
    g.create(&p, &"t".repeat(128), 100, 3600).unwrap();
    assert_eq!(g.create(&p, "t", 0, 3600), Err(ContractError::InvalidQuorum));
    assert_eq!(g.create(&p, "t", 100, 0), Err(ContractError::InvalidDuration));
    assert_eq!(g.create(&p, "t", 100, 59), Err(ContractError::InvalidDurationRange));
    assert_eq!(g.create(&p, "t", 1_000_001, 3600), Err(ContractError::QuorumExceedsSupply));
    let six: Vec<String> = (0..6).map(|i| format!("tag{}", i)).collect();
    assert_eq!(g.create_tagged(&p, "t", 100, 3600, six), Err(ContractError::TooManyTags));
    assert_eq!(
        g.create_tagged(&p, "t", 100, 3600, vec!["x".repeat(33)]),
        Err(ContractError::TagTooLong)
    );
    let id = g.create_tagged(&p, "t", 100, 3600, vec!["x".repeat(32), "gov".into()]).unwrap();
    assert_eq!(g.gov.get_proposal(id).unwrap().tags, vec!["x".repeat(32), "gov".to_string()]);
    assert_eq!(g.gov.get_proposal(99).unwrap_err(), ContractError::ProposalNotFound);
}

#[test]
fn gov_create_before_initialize_reports_missing_token() {
    let tok = TokenContract::new("GTOKEN".to_string());
    let mut gov = GovernanceContract::new();
    let r = gov.create_proposal("GP".into(), "t".into(), "d".into(), 1, 3600, Vec::new(), 0, &tok);
    assert_eq!(r, Err(ContractError::VotingTokenNotSet));
}

#[test]
fn gov_spam_rules() {
    let mut tok = TokenContract::new("GTOKEN".to_string());
    let admin = "GADMIN".to_string();
    tok.initialize(admin.clone(), 1_000).unwrap();
    let mut gov = GovernanceContract::new();
    gov.initialize(admin.clone(), "GTOKEN".into(), 10, 500, 60, 2_592_000, false, 0, 0, 0, 0, &tok).unwrap();
    assert_eq!(gov.get_spam_config(), SpamConfig { min_proposal_balance: 10, proposal_cooldown: 500 });
    let poor = "GPOOR".to_string();
    let r = gov.create_proposal(poor, "t".into(), "d".into(), 1, 3600, Vec::new(), 100, &tok);
    assert_eq!(r, Err(ContractError::InsufficientBalance));
    gov.create_proposal(admin.clone(), "t".into(), "d".into(), 1, 3600, Vec::new(), 100, &tok).unwrap();
    let again = gov.create_proposal(admin.clone(), "t".into(), "d".into(), 1, 3600, Vec::new(), 599, &tok);
    assert_eq!(again, Err(ContractError::ProposalCooldown));
    gov.create_proposal(admin, "t".into(), "d".into(), 1, 3600, Vec::new(), 600, &tok).unwrap();
    assert_eq!(gov.proposal_count(), 2);
}

#[test]
fn gov_events_record_each_successful_change() {
    let mut g = gov();
    let voter = g.generate();
    g.mint(&voter, 40);
    let id = g.create(&voter, "Evented", 10, 3600).unwrap();
    g.vote(&voter, id, Vote::Abstain).unwrap();
    let n = g.gov.events().len();
    assert!(matches!(&g.gov.events()[n - 1],
        GovEvent::VoteCast { id: i, vote: Vote::Abstain, weight: 40, .. } if *i == id));
    assert!(g.gov.events().iter().any(|e| matches!(e,
        GovEvent::ProposalCreated { id: i, metadata_version: 1, .. } if *i == id)));
    assert_eq!(g.vote(&voter, id, Vote::Yes), Err(ContractError::AlreadyVoted));
    assert_eq!(g.gov.events().len(), n);
    g.gov.update_quorum(g.admin.clone(), id, 20).unwrap();
    assert!(matches!(&g.gov.events()[n], GovEvent::QuorumUpdated { new_quorum: 20, .. }));
}

#[test]
fn gov_pause_then_unpause_restores_settings() {
    let mut g = gov();
    let admin = g.admin.clone();
    let before = g.gov.get_config().unwrap();
    let events = g.gov.events().len();
    g.gov.pause(admin.clone(), Some("audit".into())).unwrap();
    g.gov.unpause(admin).unwrap();
    let after = g.gov.get_config().unwrap();
    assert_eq!(after.paused, before.paused);
    assert_eq!(after.voting_token, before.voting_token);
    assert_eq!(after.version, before.version);
    assert_eq!(g.gov.get_pause_reason(), None);
    assert_eq!(g.gov.events().len(), events + 2);
    assert!(matches!(&g.gov.events()[events], GovEvent::ContractPaused { reason: Some(r), .. } if r == "audit"));
    assert!(matches!(&g.gov.events()[events + 1], GovEvent::ContractUnpaused { .. }));
}

#[test]
fn gov_amend_without_window_is_allowed_while_active() {
    let mut g = gov();
    let proposer = g.generate();
    let id = g.create(&proposer, "Draft", 100, 3600).unwrap();
    g.now = 1_800;
    g.gov.amend_proposal(proposer.clone(), id, "Revised".into(), "Clearer".into(), g.now).unwrap();
    assert_eq!(g.gov.get_proposal(id).unwrap().title, "Revised");
    let admin = g.admin.clone();
    g.gov.cancel(admin, id).unwrap();
    assert_eq!(
        g.gov.amend_proposal(proposer, id, "Again".into(), "x".into(), g.now),
        Err(ContractError::ProposalNotActive)
    );
}
