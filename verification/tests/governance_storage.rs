use votechain::gov_types::{ContractError, ProposalState, Version, Vote};
use votechain::governance::GovernanceContract;
use votechain::token::TokenContract;

/// Both contracts, the token admin (also the governance admin) and the clock.
struct Env {
    gov: GovernanceContract,
    tok: TokenContract,
    admin: String,
    now: u64,
    next: u32,
}

impl Env {
    fn generate(&mut self) -> String {
        self.next += 1;
        format!("GHOLDER{:049}", self.next)
    }

    fn mint(&mut self, to: &str, amount: i128) {
        self.tok.mint(self.admin.clone(), to.to_string(), amount).unwrap();
    }

    fn make_proposal(&mut self, proposer: &str) -> u64 {
        self.gov
            .create_proposal(
                proposer.to_string(),
                "TTL proposal".to_string(),
                "TTL description".to_string(),
                100,
                3600,
                Vec::new(),
                self.now,
                &self.tok,
            )
            .unwrap()
    }

    fn vote(&mut self, voter: &str, id: u64, vote: Vote) -> Result<(), ContractError> {
        self.gov.cast_vote(voter.to_string(), id, vote, self.now, &self.tok)
    }

    fn initialize(&mut self, ttl: u32) -> Result<(), ContractError> {
        self.gov.initialize(
            self.admin.clone(),
            "GVOTINGTOKEN".to_string(),
            0,
            0,
            60,
            2_592_000,
            false,
            0,
            0,
            0,
            ttl,
            &self.tok,
        )
    }
}

/// A token of 100_000_000 units held by the admin, and governance
/// initialised against it with storage entries kept for `ttl` ledgers.
fn setup(ttl: u32) -> Env {
    let mut tok = TokenContract::new("GVOTINGTOKEN".to_string());
    let admin = "GADMIN000000000000000000000000000000000000000000000000000".to_string();
    tok.initialize(admin.clone(), 100_000_000).unwrap();
    let mut e = Env { gov: GovernanceContract::new(), tok, admin, now: 0, next: 0 };
    e.initialize(ttl).unwrap();
    e
}

/// A token of 10_000 units held by its admin.
fn token_only() -> (TokenContract, String) {
    let mut tok = TokenContract::new("GTOKEN".to_string());
    let admin = "GTOKENADMIN".to_string();
    tok.initialize(admin.clone(), 10_000).unwrap();
    (tok, admin)
}

#[test]
fn test_ttl_default_zero_uses_contract_default() {
    let mut e = setup(0);
    let proposer = e.generate();
    e.mint(&proposer, 1_000);
    let id = e.make_proposal(&proposer);
    let p = e.gov.get_proposal(id).unwrap();
    assert_eq!(p.id, id, "proposal readable with default TTL");
    assert_eq!(p.state, ProposalState::Active);
    assert_eq!(e.gov.get_config().unwrap().persistent_storage_ttl, 535_680);
}

#[test]
fn test_ttl_custom_value_stored_and_applied() {
    let custom_ttl: u32 = 268_800;
    let mut e = setup(custom_ttl);
    let proposer = e.generate();
    e.mint(&proposer, 1_000);
    let id = e.make_proposal(&proposer);
    let p = e.gov.get_proposal(id).unwrap();
    assert_eq!(p.id, id, "proposal readable with custom TTL {}", custom_ttl);
    assert_eq!(e.gov.get_config().unwrap().persistent_storage_ttl, custom_ttl);
}

#[test]
fn test_ttl_max_value_accepted() {
    let mut e = setup(u32::MAX);
    let proposer = e.generate();
    e.mint(&proposer, 1_000);
    let id = e.make_proposal(&proposer);
    assert_eq!(e.gov.get_proposal(id).unwrap().state, ProposalState::Active, "proposal readable with max TTL");
}

#[test]
fn test_double_initialize_rejected() {
    let mut e = setup(0);
    let result = e.initialize(0);
    assert!(result.is_err(), "second initialize must be rejected (AlreadyInitialized)");
}

#[test]
fn test_proposal_storage_present_after_create() {
    let mut e = setup(535_680);
    let proposer = e.generate();
    e.mint(&proposer, 500);
    let id = e.make_proposal(&proposer);
    let p = e.gov.get_proposal(id).unwrap();
    assert_eq!(p.votes_yes, 0);
    assert_eq!(p.votes_no, 0);
    assert_eq!(p.votes_abstain, 0);
    assert_eq!(p.quorum, 100);
}

#[test]
fn test_proposal_storage_survives_ledger_advance() {
    let mut e = setup(535_680);
    let proposer = e.generate();
    e.mint(&proposer, 500);
    let id = e.make_proposal(&proposer);
    let p = e.gov.get_proposal(id).unwrap();
    assert_eq!(p.id, id, "proposal must survive 1000 ledger advance");
    assert_eq!(p.state, ProposalState::Active);
}

#[test]
fn test_proposal_ttl_bumped_on_vote() {
    let mut e = setup(535_680);
    let proposer = e.generate();
    let voter = e.generate();
    e.mint(&proposer, 500);
    e.mint(&voter, 300);
    let id = e.make_proposal(&proposer);
    e.vote(&voter, id, Vote::Yes).unwrap();
    let p = e.gov.get_proposal(id).unwrap();
    assert_eq!(p.votes_yes, 300, "vote weight must be recorded after ledger advance");
}

#[test]
fn test_proposal_ttl_bumped_on_finalise() {
    let mut e = setup(535_680);
    let proposer = e.generate();
    let voter = e.generate();
    e.mint(&proposer, 500);
    e.mint(&voter, 200);
    let id = e.make_proposal(&proposer);
    e.vote(&voter, id, Vote::Yes).unwrap();
    e.now += 3601;
    e.gov.finalise(id, e.now).unwrap();
    let p = e.gov.get_proposal(id).unwrap();
    assert_eq!(p.state, ProposalState::Passed, "proposal must be Passed and readable after finalise+ledger advance");
}

#[test]
fn test_proposal_ttl_bumped_on_execute() {
    let mut e = setup(535_680);
    let proposer = e.generate();
    let voter = e.generate();
    e.mint(&proposer, 500);
    e.mint(&voter, 200);
    let id = e.make_proposal(&proposer);
    e.vote(&voter, id, Vote::Yes).unwrap();
    e.now += 3601;
    e.gov.finalise(id, e.now).unwrap();
    e.gov.execute(e.admin.clone(), id, e.now).unwrap();
    let p = e.gov.get_proposal(id).unwrap();
    assert_eq!(p.state, ProposalState::Executed, "proposal storage must be readable after execute");
}

#[test]
fn test_proposal_ttl_bumped_on_cancel() {
    let mut e = setup(535_680);
    let proposer = e.generate();
    e.mint(&proposer, 500);
    let id = e.make_proposal(&proposer);
    e.gov.cancel(e.admin.clone(), id).unwrap();
    let p = e.gov.get_proposal(id).unwrap();
    assert_eq!(p.state, ProposalState::Cancelled, "cancelled proposal must remain readable after ledger advance");
}

#[test]
fn test_vote_record_readable_after_cast() {
    let mut e = setup(535_680);
    let proposer = e.generate();
    let voter = e.generate();
    e.mint(&proposer, 500);
    e.mint(&voter, 750);
    let id = e.make_proposal(&proposer);
    e.vote(&voter, id, Vote::Yes).unwrap();
    let rec = e.gov.get_vote(id, &voter).expect("VoteRecord must exist after cast_vote");
    assert_eq!(rec.weight, 750, "VoteRecord weight must equal minted balance");
}

#[test]
fn test_vote_record_readable_after_ledger_advance() {
    let mut e = setup(535_680);
    let proposer = e.generate();
    let voter = e.generate();
    e.mint(&proposer, 500);
    e.mint(&voter, 400);
    let id = e.make_proposal(&proposer);
    e.vote(&voter, id, Vote::No).unwrap();
    let rec = e.gov.get_vote(id, &voter).expect("VoteRecord must survive 2000 ledger advance");
    assert_eq!(rec.weight, 400);
}

#[test]
fn test_has_voted_flag_readable_after_ledger_advance() {
    let mut e = setup(535_680);
    let proposer = e.generate();
    let voter = e.generate();
    e.mint(&proposer, 500);
    e.mint(&voter, 100);
    let id = e.make_proposal(&proposer);
    assert!(!e.gov.has_voted(id, &voter).unwrap(), "has_voted must be false before voting");
    e.vote(&voter, id, Vote::Abstain).unwrap();
    assert!(e.gov.has_voted(id, &voter).unwrap(), "has_voted must remain true after 3000 ledger advance");
}

#[test]
fn test_has_voted_prevents_double_vote_after_ledger_advance() {
    let mut e = setup(535_680);
    let proposer = e.generate();
    let voter = e.generate();
    e.mint(&proposer, 500);
    e.mint(&voter, 200);
    let id = e.make_proposal(&proposer);
    e.vote(&voter, id, Vote::Yes).unwrap();
    let result = e.vote(&voter, id, Vote::No);
    assert!(
        matches!(result, Err(ContractError::AlreadyVoted)),
        "double-vote must be rejected even after ledger advance: {:?}",
        result
    );
}

#[test]
fn test_voter_snapshot_weight_immutable_after_balance_change() {
    let mut e = setup(535_680);
    let proposer = e.generate();
    let voter = e.generate();
    let other = e.generate();
    e.mint(&proposer, 500);
    e.mint(&voter, 600);
    let id = e.make_proposal(&proposer);
    e.vote(&voter, id, Vote::Yes).unwrap();
    e.tok.transfer(voter.clone(), other, 600).unwrap();
    assert_eq!(e.tok.balance(&voter), 0, "voter balance should be 0 after transfer");
    let rec = e.gov.get_vote(id, &voter).expect("vote record must still exist");
    assert_eq!(rec.weight, 600, "snapshot weight must be immutable after balance change");
    let p = e.gov.get_proposal(id).unwrap();
    assert_eq!(p.votes_yes, 600, "proposal tally must reflect snapshot, not current balance");
}

#[test]
fn test_multiple_voters_all_snapshots_persist() {
    let mut e = setup(535_680);
    let proposer = e.generate();
    e.mint(&proposer, 500);
    let id = e.make_proposal(&proposer);
    let weights = [100_i128, 200, 300, 400, 500];
    let mut voters = Vec::new();
    for &w in weights.iter() {
        let v = e.generate();
        e.mint(&v, w);
        e.vote(&v, id, Vote::Yes).unwrap();
        voters.push(v);
    }
    for (v, &w) in voters.iter().zip(weights.iter()) {
        let rec = e.gov.get_vote(id, v).expect("vote record must survive ledger advance");
        assert_eq!(rec.weight, w, "snapshot for voter with weight {} corrupted after ledger advance", w);
    }
    let p = e.gov.get_proposal(id).unwrap();
    assert_eq!(p.votes_yes, weights.iter().sum::<i128>(), "total tally must equal sum of all snapshots");
}

#[test]
fn test_token_allowance_set_and_readable() {
    let (mut tok, admin) = token_only();
    let owner = "GOWNER".to_string();
    let spender = "GSPENDER".to_string();
    tok.transfer(admin, owner.clone(), 5_000).unwrap();
    tok.approve(owner.clone(), spender.clone(), 2_000).unwrap();
    assert_eq!(tok.allowance(&owner, &spender), 2_000, "allowance must be readable after approve");
}

#[test]
fn test_token_allowance_consumed_by_transfer_from() {
    let (mut tok, admin) = token_only();
    let owner = "GOWNER".to_string();
    let spender = "GSPENDER".to_string();
    let recipient = "GRECIPIENT".to_string();
    tok.transfer(admin, owner.clone(), 5_000).unwrap();
    tok.approve(owner.clone(), spender.clone(), 2_000).unwrap();
    tok.transfer_from(spender.clone(), owner.clone(), recipient, 1_000).unwrap();
    assert_eq!(tok.allowance(&owner, &spender), 1_000, "allowance must be reduced by transfer_from amount");
    assert_eq!(tok.total_supply(), 10_000, "total supply must not change after transfer_from");
}

#[test]
fn test_token_expired_allowance_returns_zero() {
    let (mut tok, admin) = token_only();
    let owner = "GOWNER".to_string();
    let spender = "GSPENDER".to_string();
    tok.transfer(admin, owner.clone(), 5_000).unwrap();
    assert_eq!(tok.allowance(&owner, &spender), 0, "unset allowance must return 0 (expired/absent temporary entry)");
}

#[test]
fn test_expired_allowance_blocks_transfer_from() {
    let (mut tok, admin) = token_only();
    let owner = "GOWNER".to_string();
    let spender = "GSPENDER".to_string();
    let recipient = "GRECIPIENT".to_string();
    tok.transfer(admin, owner.clone(), 5_000).unwrap();
    let result = tok.transfer_from(spender, owner.clone(), recipient, 100);
    assert!(result.is_err(), "transfer_from without allowance must be rejected (simulates expired allowance)");
    assert_eq!(tok.balance(&owner), 5_000, "owner balance must not change when transfer_from is rejected");
}

#[test]
fn test_amendment_updates_proposal_and_storage_survives() {
    let mut e = setup(535_680);
    let proposer = e.generate();
    e.mint(&proposer, 500);
    let id = e.make_proposal(&proposer);
    e.gov
        .amend_proposal(
            proposer.clone(),
            id,
            "Amended Title".to_string(),
            "Amended description".to_string(),
            e.now,
        )
        .unwrap();
    let p = e.gov.get_proposal(id).unwrap();
    assert_eq!(p.title, "Amended Title", "amended title must be readable after ledger advance");
    assert_eq!(p.description, "Amended description", "amended description must be readable after ledger advance");
}

#[test]
fn test_last_proposal_timestamp_survives_ledger_advance() {
    let mut e = setup(535_680);
    let proposer = e.generate();
    e.mint(&proposer, 1_000);
    let id1 = e.make_proposal(&proposer);
    let id2 = e.make_proposal(&proposer);
    assert_ne!(id1, id2, "proposal IDs must be distinct");
    assert_eq!(e.gov.get_proposal(id1).unwrap().state, ProposalState::Active);
    assert_eq!(e.gov.get_proposal(id2).unwrap().state, ProposalState::Active);
}

#[test]
fn test_version_readable_after_init() {
    let e = setup(0);
    assert_eq!(e.gov.get_version(), Version { major: 1, minor: 0, patch: 0 }, "version must be (1,0,0) after initialize");
}

#[test]
fn test_persistent_storage_survives_version_check() {
    let mut e = setup(535_680);
    let proposer = e.generate();
    e.mint(&proposer, 500);
    let id = e.make_proposal(&proposer);
    assert_eq!(e.gov.get_version(), Version { major: 1, minor: 0, patch: 0 });
    let p = e.gov.get_proposal(id).unwrap();
    assert_eq!(p.id, id, "persistent proposal storage must remain consistent after version read");
}

#[test]
fn test_rejected_proposal_storage_survives() {
    let mut e = setup(535_680);
    let proposer = e.generate();
    let voter = e.generate();
    e.mint(&proposer, 500);
    e.mint(&voter, 50);
    let id = e.make_proposal(&proposer);
    e.vote(&voter, id, Vote::No).unwrap();
    e.now += 3601;
    e.gov.finalise(id, e.now).unwrap();
    let p = e.gov.get_proposal(id).unwrap();
    assert_eq!(p.state, ProposalState::Rejected, "rejected proposal must remain readable after ledger advance");
    assert_eq!(p.votes_no, 50, "vote tally must be preserved after rejection + ledger advance");
}

#[test]
fn test_ttl_test_get_vote_returns_none_for_non_voter() {
    let mut e = setup(535_680);
    let proposer = e.generate();
    e.mint(&proposer, 500);
    let id = e.make_proposal(&proposer);
    let non_voter = e.generate();
    assert!(e.gov.get_vote(id, &non_voter).is_none(), "get_vote must return None for address that never voted");
}

#[test]
fn test_has_voted_false_for_non_voter() {
    let mut e = setup(535_680);
    let proposer = e.generate();
    e.mint(&proposer, 500);
    let id = e.make_proposal(&proposer);
    let non_voter = e.generate();
    assert!(!e.gov.has_voted(id, &non_voter).unwrap(), "has_voted must return false for address that never voted");
}

#[test]
fn test_full_lifecycle_all_storage_consistent() {
    let mut e = setup(535_680);
    let proposer = e.generate();
    let voter_yes = e.generate();
    let voter_no = e.generate();
    let voter_abs = e.generate();
    e.mint(&proposer, 500);
    e.mint(&voter_yes, 300);
    e.mint(&voter_no, 100);
    e.mint(&voter_abs, 50);
    let id = e.make_proposal(&proposer);
    e.vote(&voter_yes, id, Vote::Yes).unwrap();
    e.vote(&voter_no, id, Vote::No).unwrap();
    e.vote(&voter_abs, id, Vote::Abstain).unwrap();
    e.now += 3601;
    e.gov.finalise(id, e.now).unwrap();
    let p = e.gov.get_proposal(id).unwrap();
    assert_eq!(p.state, ProposalState::Passed, "total=450 >= quorum=100, yes=300 > no=100 → Passed");
    e.gov.execute(e.admin.clone(), id, e.now).unwrap();
    let p = e.gov.get_proposal(id).unwrap();
    assert_eq!(p.state, ProposalState::Executed);
    assert_eq!(p.votes_yes, 300);
    assert_eq!(p.votes_no, 100);
    assert_eq!(p.votes_abstain, 50);
    assert!(e.gov.has_voted(id, &voter_yes).unwrap());
    assert!(e.gov.has_voted(id, &voter_no).unwrap());
    assert!(e.gov.has_voted(id, &voter_abs).unwrap());
    let rec = e.gov.get_vote(id, &voter_yes).unwrap();
    assert_eq!(rec.weight, 300, "yes voter snapshot must survive full lifecycle");
}
