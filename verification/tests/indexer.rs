use votechain::decimal::{parse_u64, push_decimal};
use votechain::indexer::{page_bounds, ApiError, Event, Indexer, ProposalListParams, ProposalState, VoteChoice};
use votechain::poller::{is_tracked_topic, plan_poll, poll_interval_secs, PolledEvent};

fn created(id: u64, title: &str) -> Event {
    Event::ProposalCreated {
        id,
        proposer: "GABC123".into(),
        title: title.into(),
        description: "A proposal".into(),
        quorum: 10,
        start_time: 1000,
        end_time: 2000,
    }
}

#[test]
fn test_indexer_ingest_and_query() {
    let mut indexer = Indexer::new();
    indexer.ingest(Event::ProposalCreated {
        id: 1,
        proposer: "GABC123".into(),
        title: "Test".into(),
        description: "A proposal".into(),
        quorum: 100,
        start_time: 1000,
        end_time: 2000,
    });
    indexer.ingest(Event::VoteCast {
        proposal_id: 1,
        voter: "GDEF456".into(),
        vote: VoteChoice::Yes,
        weight: 42,
    });
    let proposal = indexer.get_proposal(1).expect("proposal should exist");
    assert_eq!(proposal.votes_yes, 42);
    assert_eq!(proposal.state, ProposalState::Active);
    let votes = indexer.get_proposal_votes(1);
    assert_eq!(votes.len(), 1);
    assert_eq!(votes[0].voter, "GDEF456");
    let history = indexer.get_voter_votes("GDEF456");
    assert_eq!(history.len(), 1);
    assert_eq!(history[0].weight, 42);
}

#[test]
fn test_list_proposals_with_state_filter() {
    let mut indexer = Indexer::new();
    indexer.ingest(Event::ProposalCreated {
        id: 1,
        proposer: "GABC123".into(),
        title: "Active".into(),
        description: "Active proposal".into(),
        quorum: 10,
        start_time: 1000,
        end_time: 2000,
    });
    indexer.ingest(Event::ProposalCreated {
        id: 2,
        proposer: "GABC123".into(),
        title: "Cancelled".into(),
        description: "Cancelled proposal".into(),
        quorum: 10,
        start_time: 1000,
        end_time: 2000,
    });
    indexer.ingest(Event::ProposalCancelled { proposal_id: 2 });
    let summaries = indexer.list_proposals(Some(ProposalState::Cancelled), 0, 10);
    assert_eq!(summaries.len(), 1);
    assert_eq!(summaries[0].id, 2);
}

// ── Further cases ────────────────────────────────────────────────────────────

#[test]
fn indexer_lists_in_id_order_and_pages() {
    let mut indexer = Indexer::default();
    for id in [5u64, 2, 9, 1, 7] {
        indexer.ingest(created(id, "p"));
    }
    let all: Vec<u64> = indexer.list_proposals(None, 0, 50).iter().map(|s| s.id).collect();
    assert_eq!(all, vec![1, 2, 5, 7, 9]);
    let page: Vec<u64> = indexer.list_proposals(None, 1, 2).iter().map(|s| s.id).collect();
    assert_eq!(page, vec![2, 5]);
    assert!(indexer.list_proposals(None, 10, 5).is_empty());
    assert!(indexer.list_proposals(None, 0, 0).is_empty());
}

#[test]
fn indexer_recreating_a_proposal_resets_it() {
    let mut indexer = Indexer::new();
    indexer.ingest(created(3, "first"));
    indexer.ingest(Event::VoteCast { proposal_id: 3, voter: "GV".into(), vote: VoteChoice::No, weight: 9 });
    indexer.ingest(created(3, "second"));
    let p = indexer.get_proposal(3).unwrap();
    assert_eq!(p.title, "second");
    assert_eq!(p.votes_no, 0);
    assert_eq!(indexer.list_proposals(None, 0, 50).len(), 1);
    assert_eq!(indexer.get_proposal_votes(3).len(), 1);
}

#[test]
fn indexer_state_events_and_unknown_proposals() {
    let mut indexer = Indexer::new();
    indexer.ingest(created(1, "a"));
    indexer.ingest(Event::VoteCast { proposal_id: 1, voter: "GA".into(), vote: VoteChoice::Abstain, weight: 4 });
    indexer.ingest(Event::VoteCast { proposal_id: 8, voter: "GA".into(), vote: VoteChoice::Yes, weight: 5 });
    indexer.ingest(Event::ProposalFinalised { proposal_id: 1, state: ProposalState::Passed, execute_after: 77 });
    let p = indexer.get_proposal(1).unwrap();
    assert_eq!(p.state, ProposalState::Passed);
    assert_eq!(p.execute_after, 77);
    assert_eq!(p.votes_abstain, 4);
    indexer.ingest(Event::ProposalExecuted { proposal_id: 1 });
    assert_eq!(indexer.get_proposal(1).unwrap().state, ProposalState::Executed);
    indexer.ingest(Event::ProposalExecuted { proposal_id: 8 });
    assert!(indexer.get_proposal(8).is_none());
    assert_eq!(indexer.get_proposal_votes(8).len(), 1);
    let history = indexer.get_voter_votes("GA");
    assert_eq!(history.len(), 2);
    assert_eq!(history[0].proposal_id, 1);
    assert_eq!(history[1].proposal_id, 8);
    assert!(indexer.get_voter_votes("GB").is_empty());
}

#[test]
fn indexer_can_ingest_refuses_tally_overflow() {
    let mut indexer = Indexer::new();
    indexer.ingest(created(1, "a"));
    indexer.ingest(Event::VoteCast { proposal_id: 1, voter: "GA".into(), vote: VoteChoice::Yes, weight: i128::MAX });
    let more = Event::VoteCast { proposal_id: 1, voter: "GB".into(), vote: VoteChoice::Yes, weight: 1 };
    assert!(!indexer.can_ingest(&more));
    let other = Event::VoteCast { proposal_id: 1, voter: "GB".into(), vote: VoteChoice::No, weight: 1 };
    assert!(indexer.can_ingest(&other));
    let unknown = Event::VoteCast { proposal_id: 2, voter: "GB".into(), vote: VoteChoice::Yes, weight: i128::MAX };
    assert!(indexer.can_ingest(&unknown));
}

#[test]
fn indexer_page_bounds_defaults_and_cap() {
    assert_eq!(page_bounds(None, None), (0, 50));
    assert_eq!(page_bounds(Some(7), Some(10)), (7, 10));
    assert_eq!(page_bounds(Some(3), Some(500)), (3, 50));
    assert_eq!(page_bounds(None, Some(50)), (0, 50));
    let params = ProposalListParams::default();
    assert!(params.offset.is_none() && params.limit.is_none() && params.state.is_none());
}

#[test]
fn indexer_not_found_error_body() {
    let e = ApiError::proposal_not_found(42);
    assert_eq!(e.code, "ProposalNotFound");
    assert_eq!(e.message, "Proposal 42 not found");
    assert_eq!(ApiError::proposal_not_found(0).message, "Proposal 0 not found");
    assert_eq!(
        ApiError::proposal_not_found(u64::MAX).message,
        format!("Proposal {} not found", u64::MAX)
    );
}

#[test]
fn decimal_text_round_trips() {
    for n in [0u64, 9, 10, 99, 100, 12345, 1_000_000_007, u64::MAX] {
        let mut s = String::from("x");
        push_decimal(&mut s, n);
        assert_eq!(s, format!("x{}", n));
        assert_eq!(parse_u64(&n.to_string()), Some(n));
    }
}

#[test]
fn decimal_parse_matches_std() {
    let samples = [
        "", "+", "-", "-1", "+7", "007", "12a", " 1", "1 ", "18446744073709551615",
        "18446744073709551616", "99999999999999999999", "+0", "3", "1_000",
    ];
    for s in samples {
        assert_eq!(parse_u64(s), s.parse::<u64>().ok(), "text {:?}", s);
    }
}

#[test]
fn poller_tracks_governance_topics() {
    for t in [
        "init", "created", "vote", "final", "executed", "cancelled", "qupdate", "admxfer", "paused",
        "unpaused", "durationupdate",
    ] {
        assert!(is_tracked_topic(t), "{}", t);
    }
    for t in ["unknown", "", "veto", "Vote", "init ", "mint"] {
        assert!(!is_tracked_topic(t), "{}", t);
    }
}

fn ev(ledger: u64, topic: Option<&str>) -> PolledEvent {
    PolledEvent { ledger, topic: topic.map(|t| t.to_string()) }
}

#[test]
fn poller_plans_inserts_and_cursor() {
    let page = vec![
        ev(12, Some("created")),
        ev(15, Some("mint")),
        ev(14, None),
        ev(13, Some("vote")),
    ];
    let plan = plan_poll(10, &page);
    assert_eq!(plan.store, vec![0, 3]);
    assert_eq!(plan.cursor, Some(15));
    let empty = plan_poll(10, &Vec::new());
    assert!(empty.store.is_empty());
    assert_eq!(empty.cursor, None);
    let old = plan_poll(50, &vec![ev(3, Some("final"))]);
    assert_eq!(old.store, vec![0]);
    assert_eq!(old.cursor, Some(50));
}

#[test]
fn poller_interval_setting() {
    assert_eq!(poll_interval_secs(None), 3);
    assert_eq!(poll_interval_secs(Some("10")), 10);
    assert_eq!(poll_interval_secs(Some("+5")), 5);
    assert_eq!(poll_interval_secs(Some("ten")), 3);
    assert_eq!(poll_interval_secs(Some("-1")), 3);
    assert_eq!(poll_interval_secs(Some("")), 3);
}
