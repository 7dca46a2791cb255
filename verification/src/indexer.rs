//! In-memory event indexer behind the REST API.
//!
//! Governance events are fed in with [`Indexer::ingest`]; the indexer keeps a
//! mirror of every proposal and the history of votes, which the query
//! functions page through and filter.
use vstd::prelude::*;

use vstd::string::StringExecFns;

use crate::decimal::{decimal, push_decimal};
use crate::seqs::{lemma_filter_push, lemma_take_push};

verus! {

/// Local proposal state mirror used by the REST indexer.
#[derive(Clone, Copy, Debug, PartialEq, Eq, Structural)]
pub enum ProposalState {
    Active,
    Passed,
    Rejected,
    Executed,
    Cancelled,
}

/// Vote choice values emitted by the contract.
#[derive(Clone, Copy, Debug, PartialEq, Eq, Structural)]
pub enum VoteChoice {
    Yes,
    No,
    Abstain,
}

/// Summary data returned by the paginated proposals endpoint.
#[derive(Clone, Debug)]
pub struct ProposalSummary {
    pub id: u64,
    pub title: String,
    pub state: ProposalState,
    pub quorum: i128,
    pub start_time: u64,
    pub end_time: u64,
}

/// Full proposal detail returned by ID.
#[derive(Clone, Debug)]
pub struct ProposalDetail {
    pub id: u64,
    pub proposer: String,
    pub title: String,
    pub description: String,
    pub quorum: i128,
    pub votes_yes: i128,
    pub votes_no: i128,
    pub votes_abstain: i128,
    pub start_time: u64,
    pub end_time: u64,
    pub state: ProposalState,
    pub execute_after: u64,
}

/// Voter history entry for query responses.
#[derive(Clone, Debug)]
pub struct VoteRecord {
    pub proposal_id: u64,
    pub voter: String,
    pub vote: VoteChoice,
    pub weight: i128,
}

/// Event envelope used to feed the indexer.
#[derive(Clone, Debug)]
pub enum Event {
    ProposalCreated {
        id: u64,
        proposer: String,
        title: String,
        description: String,
        quorum: i128,
        start_time: u64,
        end_time: u64,
    },
    VoteCast { proposal_id: u64, voter: String, vote: VoteChoice, weight: i128 },
    ProposalFinalised { proposal_id: u64, state: ProposalState, execute_after: u64 },
    ProposalExecuted { proposal_id: u64 },
    ProposalCancelled { proposal_id: u64 },
}

/// Query parameters of the paginated proposals endpoint.
#[derive(Clone, Debug)]
pub struct ProposalListParams {
    pub offset: Option<u64>,
    pub limit: Option<u64>,
    pub state: Option<ProposalState>,
}

impl Default for ProposalListParams {
    fn default() -> (r: Self)
        ensures
            r.offset is None,
            r.limit is None,
            r.state is None,
    {
        ProposalListParams { offset: None, limit: None, state: None }
    }
}

/// Error body returned by the REST API.
#[derive(Clone, Debug)]
pub struct ApiError {
    pub code: String,
    pub message: String,
}

impl ApiError {
    /// The error body for a request naming an unknown proposal: code
    /// `ProposalNotFound`, message `Proposal <id> not found`.
    pub fn proposal_not_found(id: u64) -> (r: ApiError)
        ensures
            r.code@ == "ProposalNotFound"@,
            r.message@ == "Proposal "@ + decimal(id as nat) + " not found"@,
    {
        let code = String::from_str("ProposalNotFound");
        let mut message = String::from_str("Proposal ");
        push_decimal(&mut message, id);
        message.append(" not found");
        ApiError { code, message }
    }
}

/// The largest page the proposals endpoint returns.
pub const MAX_PAGE_LIMIT: u64 = 50;

/// The page a proposals request asks for: the offset (default 0) and the
/// limit (default 50, and never more than 50).
pub fn page_bounds(offset: Option<u64>, limit: Option<u64>) -> (r: (u64, u64))
    ensures
        r.0 == (match offset {
            Some(o) => o,
            None => 0u64,
        }),
        r.1 == (match limit {
            Some(l) => if l < 50 {
                l
            } else {
                50u64
            },
            None => 50u64,
        }),
{
    let o = match offset {
        Some(o) => o,
        None => 0,
    };
    let l = match limit {
        Some(l) => if l < MAX_PAGE_LIMIT {
            l
        } else {
            MAX_PAGE_LIMIT
        },
        None => MAX_PAGE_LIMIT,
    };
    (o, l)
}

impl ProposalDetail {
    /// A field-by-field copy.
    pub fn copy(&self) -> (r: Self)
        ensures
            r == *self,
    {
        ProposalDetail {
            id: self.id,
            proposer: self.proposer.clone(),
            title: self.title.clone(),
            description: self.description.clone(),
            quorum: self.quorum,
            votes_yes: self.votes_yes,
            votes_no: self.votes_no,
            votes_abstain: self.votes_abstain,
            start_time: self.start_time,
            end_time: self.end_time,
            state: self.state,
            execute_after: self.execute_after,
        }
    }
}

impl VoteRecord {
    /// A field-by-field copy.
    pub fn copy(&self) -> (r: Self)
        ensures
            r == *self,
    {
        VoteRecord {
            proposal_id: self.proposal_id,
            voter: self.voter.clone(),
            vote: self.vote,
            weight: self.weight,
        }
    }
}

/// The summary of a proposal detail.
pub open spec fn summary_of(p: ProposalDetail) -> ProposalSummary {
    ProposalSummary {
        id: p.id,
        title: p.title,
        state: p.state,
        quorum: p.quorum,
        start_time: p.start_time,
        end_time: p.end_time,
    }
}

/// Proposal ids strictly ascend along the sequence.
pub open spec fn sorted_ids(s: Seq<ProposalDetail>) -> bool {
    forall|i: int, j: int| 0 <= i < j < s.len() ==> s[i].id < s[j].id
}

/// Some entry of `s` carries `id`.
pub open spec fn has_id(s: Seq<ProposalDetail>, id: u64) -> bool {
    exists|i: int| 0 <= i < s.len() && s[i].id == id
}

/// The entry of `s` that carries `id`, if any.
pub open spec fn find_proposal(s: Seq<ProposalDetail>, id: u64) -> Option<ProposalDetail> {
    if has_id(s, id) {
        Some(s[choose|i: int| 0 <= i < s.len() && s[i].id == id])
    } else {
        None
    }
}

/// A fresh detail for a newly created proposal: no votes, active, no timelock.
pub open spec fn created_detail(
    id: u64,
    proposer: String,
    title: String,
    description: String,
    quorum: i128,
    start_time: u64,
    end_time: u64,
) -> ProposalDetail {
    ProposalDetail {
        id,
        proposer,
        title,
        description,
        quorum,
        votes_yes: 0,
        votes_no: 0,
        votes_abstain: 0,
        start_time,
        end_time,
        state: ProposalState::Active,
        execute_after: 0,
    }
}

/// The detail `p` with `weight` added to the tally of `vote`.
pub open spec fn tallied(p: ProposalDetail, vote: VoteChoice, weight: i128) -> ProposalDetail {
    match vote {
        VoteChoice::Yes => ProposalDetail { votes_yes: (p.votes_yes + weight) as i128, ..p },
        VoteChoice::No => ProposalDetail { votes_no: (p.votes_no + weight) as i128, ..p },
        VoteChoice::Abstain => ProposalDetail {
            votes_abstain: (p.votes_abstain + weight) as i128,
            ..p
        },
    }
}

/// Adding `weight` to the tally of `vote` stays within `i128`.
pub open spec fn tally_fits(p: ProposalDetail, vote: VoteChoice, weight: i128) -> bool {
    match vote {
        VoteChoice::Yes => i128::MIN <= p.votes_yes + weight <= i128::MAX,
        VoteChoice::No => i128::MIN <= p.votes_no + weight <= i128::MAX,
        VoteChoice::Abstain => i128::MIN <= p.votes_abstain + weight <= i128::MAX,
    }
}

/// What the indexer holds: proposals in ascending id order, and every vote in
/// the order it was ingested.
pub struct IndexerView {
    pub proposals: Seq<ProposalDetail>,
    pub votes: Seq<VoteRecord>,
}

/// The page `[offset, offset + limit)` of `s`, cut to the length of `s`.
pub open spec fn page<A>(s: Seq<A>, offset: int, limit: int) -> Seq<A> {
    let lo = if offset < s.len() {
        offset
    } else {
        s.len() as int
    };
    let hi = if offset + limit < s.len() {
        offset + limit
    } else {
        s.len() as int
    };
    s.subrange(lo, hi)
}

/// Whether a proposal passes the optional state filter.
pub open spec fn state_matches(filter: Option<ProposalState>, p: ProposalDetail) -> bool {
    match filter {
        Some(s) => p.state == s,
        None => true,
    }
}

/// `post` is what ingesting `event` into `pre` gives: a created proposal
/// replaces any entry with its id, a vote is logged and added to its
/// proposal's tally, and a state event updates its proposal; every other
/// proposal stays as it was, and only a vote adds to the vote log.
pub open spec fn ingested(pre: IndexerView, post: IndexerView, event: Event) -> bool {
    match event {
        Event::ProposalCreated {
            id,
            proposer,
            title,
            description,
            quorum,
            start_time,
            end_time,
        } => {
            &&& post.votes == pre.votes
            &&& forall|pid: u64| #[trigger]
                find_proposal(post.proposals, pid) == if pid == id {
                    Some(
                        created_detail(
                            id,
                            proposer,
                            title,
                            description,
                            quorum,
                            start_time,
                            end_time,
                        ),
                    )
                } else {
                    find_proposal(pre.proposals, pid)
                }
        },
        Event::VoteCast { proposal_id, voter, vote, weight } => {
            &&& post.votes == pre.votes.push(
                VoteRecord { proposal_id, voter, vote, weight },
            )
            &&& forall|pid: u64| #[trigger]
                find_proposal(post.proposals, pid) == if pid == proposal_id {
                    match find_proposal(pre.proposals, pid) {
                        Some(p) => Some(tallied(p, vote, weight)),
                        None => None,
                    }
                } else {
                    find_proposal(pre.proposals, pid)
                }
        },
        Event::ProposalFinalised { proposal_id, state, execute_after } => {
            &&& post.votes == pre.votes
            &&& forall|pid: u64| #[trigger]
                find_proposal(post.proposals, pid) == if pid == proposal_id {
                    match find_proposal(pre.proposals, pid) {
                        Some(p) => Some(ProposalDetail { state, execute_after, ..p }),
                        None => None,
                    }
                } else {
                    find_proposal(pre.proposals, pid)
                }
        },
        Event::ProposalExecuted { proposal_id } => {
            &&& post.votes == pre.votes
            &&& forall|pid: u64| #[trigger]
                find_proposal(post.proposals, pid) == if pid == proposal_id {
                    match find_proposal(pre.proposals, pid) {
                        Some(p) => Some(ProposalDetail { state: ProposalState::Executed, ..p }),
                        None => None,
                    }
                } else {
                    find_proposal(pre.proposals, pid)
                }
        },
        Event::ProposalCancelled { proposal_id } => {
            &&& post.votes == pre.votes
            &&& forall|pid: u64| #[trigger]
                find_proposal(post.proposals, pid) == if pid == proposal_id {
                    match find_proposal(pre.proposals, pid) {
                        Some(p) => Some(ProposalDetail { state: ProposalState::Cancelled, ..p }),
                        None => None,
                    }
                } else {
                    find_proposal(pre.proposals, pid)
                }
        },
    }
}

/// In-memory event indexer for proposal and vote query patterns.
#[derive(Debug)]
pub struct Indexer {
    proposals: Vec<ProposalDetail>,
    votes: Vec<VoteRecord>,
}

impl View for Indexer {
    type V = IndexerView;

    closed spec fn view(&self) -> IndexerView {
        IndexerView { proposals: self.proposals@, votes: self.votes@ }
    }
}

impl Default for Indexer {
    fn default() -> (r: Self)
        ensures
            r.wf(),
            r@.proposals.len() == 0,
            r@.votes.len() == 0,
    {
        Indexer::new()
    }
}

impl Indexer {
    /// The indexer keeps its proposals in ascending id order.
    pub open spec fn wf(&self) -> bool {
        sorted_ids(self@.proposals)
    }

    /// Ingesting `event` does not overflow a vote tally.
    pub open spec fn ingest_fits(&self, event: Event) -> bool {
        match event {
            Event::VoteCast { proposal_id, vote, weight, .. } => match find_proposal(
                self@.proposals,
                proposal_id,
            ) {
                Some(p) => tally_fits(p, vote, weight),
                None => true,
            },
            _ => true,
        }
    }

    /// An empty indexer.
    pub fn new() -> (r: Self)
        ensures
            r.wf(),
            r@.proposals.len() == 0,
            r@.votes.len() == 0,
    {
        Indexer { proposals: Vec::new(), votes: Vec::new() }
    }

    /// The first index whose proposal id is at least `id`, and whether the
    /// proposal there carries exactly `id`.
    fn position(&self, id: u64) -> (r: (usize, bool))
        requires
            self.wf(),
        ensures
            r.0 <= self@.proposals.len(),
            forall|i: int| 0 <= i < r.0 ==> self@.proposals[i].id < id,
            r.0 < self@.proposals.len() ==> self@.proposals[r.0 as int].id >= id,
            r.1 <==> (r.0 < self@.proposals.len() && self@.proposals[r.0 as int].id == id),
    {
        let mut i: usize = 0;
        while i < self.proposals.len()
            invariant
                i <= self.proposals@.len(),
                forall|k: int| 0 <= k < i ==> self.proposals@[k].id < id,
            decreases self.proposals@.len() - i,
        {
            if self.proposals[i].id >= id {
                return (i, self.proposals[i].id == id);
            }
            i = i + 1;
        }
        (i, false)
    }

    /// In sorted order, the entry at `k` is the one found for its id.
    proof fn lemma_find_at(s: Seq<ProposalDetail>, k: int)
        requires
            sorted_ids(s),
            0 <= k < s.len(),
        ensures
            find_proposal(s, s[k].id) == Some(s[k]),
    {
        let id = s[k].id;
        assert(has_id(s, id));
        let c = choose|i: int| 0 <= i < s.len() && s[i].id == id;
        if c < k {
            assert(s[c].id < s[k].id);
        } else if c > k {
            assert(s[k].id < s[c].id);
        }
    }

    /// Whether `event` can be ingested without overflowing a vote tally.
    pub fn can_ingest(&self, event: &Event) -> (r: bool)
        requires
            self.wf(),
        ensures
            r == self.ingest_fits(*event),
    {
        match event {
            Event::VoteCast { proposal_id, vote, weight, .. } => {
                let (k, found) = self.position(*proposal_id);
                if found {
                    proof {
                        Self::lemma_find_at(self@.proposals, k as int);
                    }
                    let p = &self.proposals[k];
                    let current = match vote {
                        VoteChoice::Yes => p.votes_yes,
                        VoteChoice::No => p.votes_no,
                        VoteChoice::Abstain => p.votes_abstain,
                    };
                    if *weight >= 0 {
                        current <= i128::MAX - *weight
                    } else {
                        current >= i128::MIN - *weight
                    }
                } else {
                    proof {
                        self.lemma_absent(k as int, *proposal_id);
                    }
                    true
                }
            },
            _ => true,
        }
    }

    /// Ingests one contract event into the index.
    pub fn ingest(&mut self, event: Event)
        requires
            old(self).wf(),
            old(self).ingest_fits(event),
        ensures
            final(self).wf(),
            ingested(old(self)@, final(self)@, event),
    {
        match event {
            Event::ProposalCreated {
                id,
                proposer,
                title,
                description,
                quorum,
                start_time,
                end_time,
            } => {
                let detail = ProposalDetail {
                    id,
                    proposer,
                    title,
                    description,
                    quorum,
                    votes_yes: 0,
                    votes_no: 0,
                    votes_abstain: 0,
                    start_time,
                    end_time,
                    state: ProposalState::Active,
                    execute_after: 0,
                };
                self.insert_detail(detail);
            },
            Event::VoteCast { proposal_id, voter, vote, weight } => {
                let record = VoteRecord { proposal_id, voter, vote, weight };
                let (k, found) = self.position(proposal_id);
                if found {
                    let mut p = self.proposals[k].copy();
                    proof {
                        Self::lemma_find_at(self@.proposals, k as int);
                    }
                    match vote {
                        VoteChoice::Yes => p.votes_yes = p.votes_yes + weight,
                        VoteChoice::No => p.votes_no = p.votes_no + weight,
                        VoteChoice::Abstain => p.votes_abstain = p.votes_abstain + weight,
                    }
                    self.replace_at(k, p);
                } else {
                    proof {
                        self.lemma_absent(k as int, proposal_id);
                    }
                }
                self.votes.push(record);
            },
            Event::ProposalFinalised { proposal_id, state, execute_after } => {
                let (k, found) = self.position(proposal_id);
                if found {
                    let mut p = self.proposals[k].copy();
                    proof {
                        Self::lemma_find_at(self@.proposals, k as int);
                    }
                    p.state = state;
                    p.execute_after = execute_after;
                    self.replace_at(k, p);
                } else {
                    proof {
                        self.lemma_absent(k as int, proposal_id);
                    }
                }
            },
            Event::ProposalExecuted { proposal_id } => {
                self.set_state(proposal_id, ProposalState::Executed);
            },
            Event::ProposalCancelled { proposal_id } => {
                self.set_state(proposal_id, ProposalState::Cancelled);
            },
        }
    }

    /// No proposal carries `id` when the search stopped at `k` without a match.
    proof fn lemma_absent(&self, k: int, id: u64)
        requires
            self.wf(),
            0 <= k <= self@.proposals.len(),
            forall|i: int| 0 <= i < k ==> self@.proposals[i].id < id,
            k < self@.proposals.len() ==> self@.proposals[k].id > id,
        ensures
            find_proposal(self@.proposals, id) is None,
    {
        let s = self@.proposals;
        if has_id(s, id) {
            let c = choose|i: int| 0 <= i < s.len() && s[i].id == id;
            if c >= k {
                if c > k {
                    assert(s[k].id < s[c].id);
                }
            }
        }
    }

    /// Sets the state of the proposal carrying `id`, if there is one.
    fn set_state(&mut self, id: u64, state: ProposalState)
        requires
            old(self).wf(),
        ensures
            final(self).wf(),
            final(self)@.votes == old(self)@.votes,
            forall|pid: u64| #[trigger]
                find_proposal(final(self)@.proposals, pid) == if pid == id {
                    match find_proposal(old(self)@.proposals, pid) {
                        Some(p) => Some(ProposalDetail { state, ..p }),
                        None => None,
                    }
                } else {
                    find_proposal(old(self)@.proposals, pid)
                },
    {
        let (k, found) = self.position(id);
        if found {
            let mut p = self.proposals[k].copy();
            proof {
                Self::lemma_find_at(self@.proposals, k as int);
            }
            p.state = state;
            self.replace_at(k, p);
        } else {
            proof {
                self.lemma_absent(k as int, id);
            }
        }
    }

    /// Replaces the proposal at index `k` by `p`, which carries the same id.
    fn replace_at(&mut self, k: usize, p: ProposalDetail)
        requires
            old(self).wf(),
            k < old(self)@.proposals.len(),
            p.id == old(self)@.proposals[k as int].id,
        ensures
            final(self).wf(),
            final(self)@.votes == old(self)@.votes,
            final(self)@.proposals == old(self)@.proposals.update(k as int, p),
            forall|pid: u64| #[trigger]
                find_proposal(final(self)@.proposals, pid) == if pid == p.id {
                    Some(p)
                } else {
                    find_proposal(old(self)@.proposals, pid)
                },
    {
        let ghost old_s = self@.proposals;
        self.proposals.set(k, p);
        let ghost new_s = self@.proposals;
        assert(sorted_ids(new_s));
        assert forall|pid: u64| #[trigger]
            find_proposal(new_s, pid) == if pid == p.id {
                Some(p)
            } else {
                find_proposal(old_s, pid)
            } by {
            if pid == p.id {
                Self::lemma_find_at(new_s, k as int);
            } else {
                assert(has_id(new_s, pid) == has_id(old_s, pid)) by {
                    if has_id(old_s, pid) {
                        let c = choose|i: int| 0 <= i < old_s.len() && old_s[i].id == pid;
                        assert(new_s[c].id == pid);
                    }
                    if has_id(new_s, pid) {
                        let c = choose|i: int| 0 <= i < new_s.len() && new_s[i].id == pid;
                        assert(old_s[c].id == pid);
                    }
                }
                if has_id(old_s, pid) {
                    let c = choose|i: int| 0 <= i < old_s.len() && old_s[i].id == pid;
                    Self::lemma_find_at(old_s, c);
                    Self::lemma_find_at(new_s, c);
                }
            }
        }
    }

    /// Inserts `p` at its place in id order, replacing a proposal with its id.
    fn insert_detail(&mut self, p: ProposalDetail)
        requires
            old(self).wf(),
        ensures
            final(self).wf(),
            final(self)@.votes == old(self)@.votes,
            forall|pid: u64| #[trigger]
                find_proposal(final(self)@.proposals, pid) == if pid == p.id {
                    Some(p)
                } else {
                    find_proposal(old(self)@.proposals, pid)
                },
    {
        let (k, found) = self.position(p.id);
        if found {
            self.replace_at(k, p);
        } else {
            let ghost old_s = self@.proposals;
            let ghost id = p.id;
            self.proposals.insert(k, p);
            let ghost new_s = self@.proposals;
            assert(new_s =~= old_s.insert(k as int, p));
            assert(sorted_ids(new_s)) by {
                assert forall|i: int, j: int| 0 <= i < j < new_s.len() implies new_s[i].id
                    < new_s[j].id by {
                    if j < k {
                    } else if i < k && j == k {
                    } else if i < k {
                        assert(new_s[j] == old_s[j - 1]);
                        if k < old_s.len() {
                            assert(old_s[k as int].id <= old_s[j - 1].id);
                        }
                    } else if i == k {
                        assert(new_s[j] == old_s[j - 1]);
                        assert(old_s[k as int].id <= old_s[j - 1].id);
                    } else {
                        assert(new_s[i] == old_s[i - 1]);
                        assert(new_s[j] == old_s[j - 1]);
                    }
                }
            }
            assert forall|pid: u64| #[trigger]
                find_proposal(new_s, pid) == if pid == id {
                    Some(p)
                } else {
                    find_proposal(old_s, pid)
                } by {
                if pid == id {
                    Self::lemma_find_at(new_s, k as int);
                } else {
                    if has_id(old_s, pid) {
                        let c = choose|i: int| 0 <= i < old_s.len() && old_s[i].id == pid;
                        Self::lemma_find_at(old_s, c);
                        if c < k {
                            assert(new_s[c] == old_s[c]);
                            Self::lemma_find_at(new_s, c);
                        } else {
                            assert(new_s[c + 1] == old_s[c]);
                            Self::lemma_find_at(new_s, c + 1);
                        }
                    } else {
                        if has_id(new_s, pid) {
                            let c = choose|i: int| 0 <= i < new_s.len() && new_s[i].id == pid;
                            if c < k {
                                assert(old_s[c].id == pid);
                            } else if c > k {
                                assert(old_s[c - 1].id == pid);
                            }
                        }
                    }
                }
            }
        }
    }

    /// Lists proposals in ascending id order, optionally only those in `state`,
    /// skipping the first `offset` of them and returning at most `limit`.
    pub fn list_proposals(&self, state: Option<ProposalState>, offset: u64, limit: u64) -> (r: Vec<
        ProposalSummary,
    >)
        requires
            self.wf(),
        ensures
            r@ == page(
                self@.proposals.filter(|p: ProposalDetail| state_matches(state, p)),
                offset as int,
                limit as int,
            ).map_values(|p: ProposalDetail| summary_of(p)),
    {
        let ghost pred = |p: ProposalDetail| state_matches(state, p);
        let ghost s = self@.proposals;
        let mut r: Vec<ProposalSummary> = Vec::new();
        let mut seen: u64 = 0;
        let mut i: usize = 0;
        while i < self.proposals.len()
            invariant
                s == self@.proposals,
                pred == (|p: ProposalDetail| state_matches(state, p)),
                i <= s.len(),
                seen as int == s.take(i as int).filter(pred).len(),
                seen <= i,
                r@ == page(s.take(i as int).filter(pred), offset as int, limit as int).map_values(
                    |p: ProposalDetail| summary_of(p),
                ),
            decreases s.len() - i,
        {
            let p = &self.proposals[i];
            let ghost f = s.take(i as int).filter(pred);
            proof {
                lemma_take_push(s, i as int);
                lemma_filter_push(s.take(i as int), s[i as int], pred);
            }
            assert(pred(s[i as int]) == state_matches(state, s[i as int]));
            let matches = match state {
                Some(st) => p.state == st,
                None => true,
            };
            if matches {
                let ghost f2 = s.take(i + 1).filter(pred);
                assert(f2 == f.push(*p));
                if seen >= offset && seen - offset < limit {
                    r.push(
                        ProposalSummary {
                            id: p.id,
                            title: p.title.clone(),
                            state: p.state,
                            quorum: p.quorum,
                            start_time: p.start_time,
                            end_time: p.end_time,
                        },
                    );
                }
                assert(r@ =~= page(f2, offset as int, limit as int).map_values(
                    |p: ProposalDetail| summary_of(p),
                ));
                seen = seen + 1;
            } else {
                assert(s.take(i + 1).filter(pred) == f);
            }
            i = i + 1;
        }
        assert(s.take(s.len() as int) =~= s);
        r
    }

    /// The full detail of the proposal carrying `id`.
    pub fn get_proposal(&self, id: u64) -> (r: Option<ProposalDetail>)
        requires
            self.wf(),
        ensures
            r == find_proposal(self@.proposals, id),
    {
        let (k, found) = self.position(id);
        if found {
            proof {
                Self::lemma_find_at(self@.proposals, k as int);
            }
            Some(self.proposals[k].copy())
        } else {
            proof {
                self.lemma_absent(k as int, id);
            }
            None
        }
    }

    /// Every vote cast on proposal `id`, in the order it was ingested.
    pub fn get_proposal_votes(&self, id: u64) -> (r: Vec<VoteRecord>)
        ensures
            r@ == self@.votes.filter(|v: VoteRecord| v.proposal_id == id),
    {
        let ghost pred = |v: VoteRecord| v.proposal_id == id;
        let ghost s = self@.votes;
        let mut r: Vec<VoteRecord> = Vec::new();
        let mut i: usize = 0;
        while i < self.votes.len()
            invariant
                s == self@.votes,
                pred == (|v: VoteRecord| v.proposal_id == id),
                i <= s.len(),
                r@ == s.take(i as int).filter(pred),
            decreases s.len() - i,
        {
            proof {
                lemma_take_push(s, i as int);
                lemma_filter_push(s.take(i as int), s[i as int], pred);
            }
            assert(pred(s[i as int]) == (s[i as int].proposal_id == id));
            if self.votes[i].proposal_id == id {
                r.push(self.votes[i].copy());
            }
            i = i + 1;
        }
        assert(s.take(s.len() as int) =~= s);
        r
    }

    /// Every vote cast by `voter`, in the order it was ingested.
    pub fn get_voter_votes(&self, voter: &str) -> (r: Vec<VoteRecord>)
        ensures
            r@ == self@.votes.filter(|v: VoteRecord| v.voter@ == voter@),
    {
        let ghost pred = |v: VoteRecord| v.voter@ == voter@;
        let ghost s = self@.votes;
        let who = voter.to_owned();
        let mut r: Vec<VoteRecord> = Vec::new();
        let mut i: usize = 0;
        while i < self.votes.len()
            invariant
                s == self@.votes,
                pred == (|v: VoteRecord| v.voter@ == voter@),
                who@ == voter@,
                i <= s.len(),
                r@ == s.take(i as int).filter(pred),
            decreases s.len() - i,
        {
            proof {
                lemma_take_push(s, i as int);
                lemma_filter_push(s.take(i as int), s[i as int], pred);
            }
            assert(pred(s[i as int]) == (s[i as int].voter@ == voter@));
            if self.votes[i].voter == who {
                r.push(self.votes[i].copy());
            }
            i = i + 1;
        }
        assert(s.take(s.len() as int) =~= s);
        r
    }
}

/// Every ingested vote shows up, after the earlier ones, in the history of its
/// proposal and in that of its voter, and in no other history.
pub proof fn law_vote_history(pre: IndexerView, post: IndexerView, r: VoteRecord, id: u64, voter: Seq<char>)
    requires
        post.votes == pre.votes.push(r),
    ensures
        post.votes.filter(|v: VoteRecord| v.proposal_id == id) == if r.proposal_id == id {
            pre.votes.filter(|v: VoteRecord| v.proposal_id == id).push(r)
        } else {
            pre.votes.filter(|v: VoteRecord| v.proposal_id == id)
        },
        post.votes.filter(|v: VoteRecord| v.voter@ == voter) == if r.voter@ == voter {
            pre.votes.filter(|v: VoteRecord| v.voter@ == voter).push(r)
        } else {
            pre.votes.filter(|v: VoteRecord| v.voter@ == voter)
        },
{
    lemma_filter_push(pre.votes, r, |v: VoteRecord| v.proposal_id == id);
    lemma_filter_push(pre.votes, r, |v: VoteRecord| v.voter@ == voter);
}

/// A page never holds more than the limit asked for, and a request never
/// gets more than 50 proposals.
pub proof fn law_page_bounded<A>(s: Seq<A>, offset: Option<u64>, limit: Option<u64>)
    ensures
        ({
            let lim = match limit {
                Some(l) => if l < 50 { l } else { 50u64 },
                None => 50u64,
            };
            let off = match offset {
                Some(o) => o,
                None => 0u64,
            };
            &&& page(s, off as int, lim as int).len() <= lim
            &&& lim <= MAX_PAGE_LIMIT
        }),
{
}

/// A sorted sequence stays sorted under any filter, and what passes the
/// filter carries an id no larger than the last entry's.
proof fn lemma_filter_sorted(s: Seq<ProposalDetail>, pred: spec_fn(ProposalDetail) -> bool)
    requires
        sorted_ids(s),
    ensures
        sorted_ids(s.filter(pred)),
        s.len() > 0 ==> forall|i: int|
            0 <= i < s.filter(pred).len() ==> #[trigger] s.filter(pred)[i].id <= s.last().id,
    decreases s.len(),
{
    if s.len() > 0 {
        let t = s.drop_last();
        lemma_filter_sorted(t, pred);
        assert(t.push(s.last()) =~= s);
        lemma_filter_push(t, s.last(), pred);
        if t.len() > 0 {
            assert(t.last().id < s.last().id);
        } else {
            t.lemma_filter_len(pred);
        }
    }
}

/// Proposals are listed in ascending id order, whatever the filter and page.
pub proof fn law_list_in_id_order(v: IndexerView, state: Option<ProposalState>, offset: u64, limit: u64)
    requires
        sorted_ids(v.proposals),
    ensures
        ({
            let r = page(
                v.proposals.filter(|p: ProposalDetail| state_matches(state, p)),
                offset as int,
                limit as int,
            ).map_values(|p: ProposalDetail| summary_of(p));
            forall|i: int, j: int| 0 <= i < j < r.len() ==> r[i].id < r[j].id
        }),
{
    let f = v.proposals.filter(|p: ProposalDetail| state_matches(state, p));
    lemma_filter_sorted(v.proposals, |p: ProposalDetail| state_matches(state, p));
    let pg = page(f, offset as int, limit as int);
    assert(sorted_ids(pg));
}

/// The proposal an event is about.
pub open spec fn event_proposal(e: Event) -> u64 {
    match e {
        Event::ProposalCreated { id, .. } => id,
        Event::VoteCast { proposal_id, .. } => proposal_id,
        Event::ProposalFinalised { proposal_id, .. } => proposal_id,
        Event::ProposalExecuted { proposal_id } => proposal_id,
        Event::ProposalCancelled { proposal_id } => proposal_id,
    }
}

/// Whether `e` creates the proposal `id`.
pub open spec fn creates(e: Event, id: u64) -> bool {
    e matches Event::ProposalCreated { id: i, .. } && i == id
}

/// Ingesting an event touches nothing but its own proposal and, for a vote,
/// its voter: every other proposal, every other proposal's vote history, and
/// the history of every other voter stay as they were.
pub proof fn law_ingest_frame(pre: IndexerView, post: IndexerView, event: Event, q: u64, u: Seq<char>)
    requires
        ingested(pre, post, event),
    ensures
        q != event_proposal(event) ==> find_proposal(post.proposals, q) == find_proposal(
            pre.proposals,
            q,
        ),
        q != event_proposal(event) ==> post.votes.filter(|v: VoteRecord| v.proposal_id == q)
            == pre.votes.filter(|v: VoteRecord| v.proposal_id == q),
        !(event matches Event::VoteCast { voter, .. } && voter@ == u) ==> post.votes.filter(
            |v: VoteRecord| v.voter@ == u,
        ) == pre.votes.filter(|v: VoteRecord| v.voter@ == u),
{
    assert(find_proposal(post.proposals, q) == find_proposal(post.proposals, q));
    match event {
        Event::VoteCast { proposal_id, voter, vote, weight } => {
            law_vote_history(pre, post, VoteRecord { proposal_id, voter, vote, weight }, q, u);
        },
        _ => {},
    }
}

/// Ingesting an event makes a proposal known exactly when it was known before
/// or the event creates it.
pub proof fn law_ingest_known(pre: IndexerView, post: IndexerView, event: Event, id: u64)
    requires
        ingested(pre, post, event),
    ensures
        find_proposal(post.proposals, id) is Some <==> (find_proposal(pre.proposals, id) is Some
            || creates(event, id)),
{
    assert(find_proposal(post.proposals, id) == find_proposal(post.proposals, id));
}

/// Starting from an empty indexer, a proposal is known after a run of events
/// exactly when one of the events created it.
pub proof fn law_known_iff_created(views: Seq<IndexerView>, events: Seq<Event>, id: u64)
    requires
        views.len() == events.len() + 1,
        views[0].proposals.len() == 0,
        forall|i: int|
            0 <= i < events.len() ==> #[trigger] ingested(views[i], views[i + 1], events[i]),
    ensures
        find_proposal(views.last().proposals, id) is Some <==> exists|i: int|
            0 <= i < events.len() && #[trigger] creates(events[i], id),
    decreases events.len(),
{
    if events.len() == 0 {
        assert(!has_id(views[0].proposals, id));
    } else {
        let n = events.len() - 1;
        let vs = views.drop_last();
        let es = events.drop_last();
        assert forall|i: int| 0 <= i < es.len() implies #[trigger] ingested(vs[i], vs[i + 1], es[i]) by {
            assert(ingested(views[i], views[i + 1], events[i]));
        }
        law_known_iff_created(vs, es, id);
        assert(ingested(views[n], views[n + 1], events[n]));
        law_ingest_known(views[n], views[n + 1], events[n], id);
        assert(vs.last() == views[n]);
        if exists|i: int| 0 <= i < events.len() && #[trigger] creates(events[i], id) {
            let i = choose|i: int| 0 <= i < events.len() && #[trigger] creates(events[i], id);
            if i < n {
                assert(creates(es[i], id));
            }
        }
        if exists|i: int| 0 <= i < es.len() && #[trigger] creates(es[i], id) {
            let i = choose|i: int| 0 <= i < es.len() && #[trigger] creates(es[i], id);
            assert(creates(events[i], id));
        }
    }
}

/// Ingesting a vote on a known proposal raises the tally of the vote's choice
/// by exactly its weight and leaves the other two tallies, and everything
/// else about the proposal, as they were.
pub proof fn law_vote_adds_weight(
    pre: IndexerView,
    post: IndexerView,
    proposal_id: u64,
    voter: String,
    vote: VoteChoice,
    weight: i128,
)
    requires
        ingested(pre, post, Event::VoteCast { proposal_id, voter, vote, weight }),
        find_proposal(pre.proposals, proposal_id) is Some,
        tally_fits(find_proposal(pre.proposals, proposal_id).unwrap(), vote, weight),
    ensures
        ({
            let p = find_proposal(pre.proposals, proposal_id).unwrap();
            let q = find_proposal(post.proposals, proposal_id).unwrap();
            &&& find_proposal(post.proposals, proposal_id) is Some
            &&& q.votes_yes == p.votes_yes + if vote == VoteChoice::Yes {
                weight as int
            } else {
                0
            }
            &&& q.votes_no == p.votes_no + if vote == VoteChoice::No {
                weight as int
            } else {
                0
            }
            &&& q.votes_abstain == p.votes_abstain + if vote == VoteChoice::Abstain {
                weight as int
            } else {
                0
            }
            &&& q == ProposalDetail {
                votes_yes: q.votes_yes,
                votes_no: q.votes_no,
                votes_abstain: q.votes_abstain,
                ..p
            }
        }),
{
    assert(find_proposal(post.proposals, proposal_id) == find_proposal(post.proposals, proposal_id));
}

/// A state event on a known proposal sets what it names and nothing else: a
/// finalisation sets the proposal's state and execution time, an execution
/// marks it `Executed` and a cancellation marks it `Cancelled`; its tallies
/// and every other field stay as they were, and no vote is logged.
pub proof fn law_state_events(pre: IndexerView, post: IndexerView, event: Event, id: u64)
    requires
        ingested(pre, post, event),
        event_proposal(event) == id,
        find_proposal(pre.proposals, id) is Some,
        !(event is ProposalCreated),
        !(event is VoteCast),
    ensures
        post.votes == pre.votes,
        find_proposal(post.proposals, id) == Some(
            match event {
                Event::ProposalFinalised { state, execute_after, .. } => ProposalDetail {
                    state,
                    execute_after,
                    ..find_proposal(pre.proposals, id).unwrap()
                },
                Event::ProposalExecuted { .. } => ProposalDetail {
                    state: ProposalState::Executed,
                    ..find_proposal(pre.proposals, id).unwrap()
                },
                _ => ProposalDetail {
                    state: ProposalState::Cancelled,
                    ..find_proposal(pre.proposals, id).unwrap()
                },
            },
        ),
{
    assert(find_proposal(post.proposals, id) == find_proposal(post.proposals, id));
}

} // verus!
