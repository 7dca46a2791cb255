//! Laws of the governance contract: what holds across its operations, stated
//! over the transitions that each operation's contract follows.
use vstd::prelude::*;
use vstd::utf8::encode_utf8;

use crate::address::spec_is_zero_address;

use crate::gov_types::{
    ContractError, GovEvent, MultiSigActionType, MultiSigActionView, MultiSigConfigView, ProposalState,
    ProposalView, Vote, VoteRecord,
};
use crate::governance::{
    accept_admin_transfer_spec, add_vote, amend_proposal_spec, approve_multisig_action_spec,
    cancel_spec, transfer_admin_spec, update_quorum_spec, cast_vote_spec, create_proposal_spec, execute_spec, printable, propose_multisig_action_spec,
    finalise_spec, lifecycle_step, keeps_proposal, new_proposal,
    pause_spec, propose_admin_transfer_spec, state_step, unpause_spec, unpassed_without_timelock,
    last_unique, GovView,
};

verus! {

/// Each address votes at most once on a proposal: once a vote of `voter` on
/// `proposal_id` has been counted, every further vote of `voter` on that
/// proposal is refused, with `AlreadyVoted` while the proposal is still open
/// for voting.
pub proof fn law_one_vote_per_voter(
    v: GovView,
    voter: String,
    proposal_id: u64,
    vote: Vote,
    now: u64,
    balance: i128,
    again: Vote,
    later: u64,
    later_balance: i128,
)
    requires
        v.wf(),
        cast_vote_spec(v, voter, proposal_id, vote, now, balance) is Ok,
    ensures
        ({
            let v2 = cast_vote_spec(v, voter, proposal_id, vote, now, balance)->Ok_0;
            let p2 = v2.proposal(proposal_id).unwrap();
            &&& v2.has_voted(proposal_id, voter@)
            &&& cast_vote_spec(v2, voter, proposal_id, again, later, later_balance) is Err
            &&& p2.state == ProposalState::Active && p2.start_time <= later < p2.end_time
                ==> cast_vote_spec(v2, voter, proposal_id, again, later, later_balance) == Err::<
                GovView,
                ContractError,
            >(ContractError::AlreadyVoted)
        }),
{
    let v2 = cast_vote_spec(v, voter, proposal_id, vote, now, balance)->Ok_0;
    assert(v.proposals[proposal_id - 1].id == proposal_id);
    let n = v.ballots.len() as int;
    assert(v2.ballots[n].proposal_id == proposal_id && v2.ballots[n].voter@ == voter@);
    assert(v2.has_voted(proposal_id, voter@));
}

/// A vote weighs the voter's token balance: the vote recorded for the voter
/// is its choice with that weight, the proposal's tally for the choice grows
/// by exactly that weight, the other tallies are unchanged, and a
/// `VoteCast` event records it.
pub proof fn law_vote_weight_is_balance(
    v: GovView,
    voter: String,
    proposal_id: u64,
    vote: Vote,
    now: u64,
    balance: i128,
)
    requires
        v.wf(),
        cast_vote_spec(v, voter, proposal_id, vote, now, balance) is Ok,
    ensures
        ({
            let v2 = cast_vote_spec(v, voter, proposal_id, vote, now, balance)->Ok_0;
            let p = v.proposal(proposal_id).unwrap();
            let p2 = v2.proposal(proposal_id).unwrap();
            &&& balance > 0
            &&& v2.vote_of(proposal_id, voter@) == Some(VoteRecord { vote_type: vote, weight: balance })
            &&& p2.votes_yes == p.votes_yes + if vote == Vote::Yes { balance as int } else { 0 }
            &&& p2.votes_no == p.votes_no + if vote == Vote::No { balance as int } else { 0 }
            &&& p2.votes_abstain == p.votes_abstain + if vote == Vote::Abstain {
                balance as int
            } else {
                0
            }
            &&& v2.events[v.events.len() as int] == GovEvent::VoteCast {
                id: proposal_id,
                voter,
                vote,
                weight: balance,
            }
        }),
{
    let v2 = cast_vote_spec(v, voter, proposal_id, vote, now, balance)->Ok_0;
    let n = v.ballots.len() as int;
    assert(!v.has_voted(proposal_id, voter@));
    assert(v2.ballots[n].proposal_id == proposal_id && v2.ballots[n].voter@ == voter@);
    let c = choose|i: int|
        0 <= i < v2.ballots.len() && v2.ballots[i].proposal_id == proposal_id
            && v2.ballots[i].voter@ == voter@;
    if c < n {
        assert(v.ballots[c] == v2.ballots[c]);
    }
    let p = v.proposal(proposal_id).unwrap();
    let added = add_vote(p, vote, balance).unwrap();
    assert(v2.proposals[proposal_id - 1].votes_yes == added.votes_yes);
}

/// Finalising a proposal after its voting period ends passes it exactly when
/// the total of all votes reaches the quorum and yes votes outnumber no
/// votes; a passed proposal may be executed once its timelock, counted from
/// the end of its voting period, has run out, and a rejected one never.
pub proof fn law_finalise_outcome(v: GovView, proposal_id: u64, now: u64)
    requires
        v.wf(),
        finalise_spec(v, proposal_id, now) matches Some(Ok(_)),
    ensures
        ({
            let v2 = finalise_spec(v, proposal_id, now)->Some_0->Ok_0;
            let p = v.proposal(proposal_id).unwrap();
            let p2 = v2.proposal(proposal_id).unwrap();
            &&& p.state == ProposalState::Active
            &&& now > p.end_time
            &&& p2.state == if p.votes_yes + p.votes_no + p.votes_abstain >= p.quorum
                && p.votes_yes > p.votes_no {
                ProposalState::Passed
            } else {
                ProposalState::Rejected
            }
            &&& p2.state == ProposalState::Passed ==> p2.execute_after == p.end_time + v.timelock_duration
            &&& p2.state == ProposalState::Rejected ==> p2.execute_after == 0
            &&& p2.votes_yes == p.votes_yes && p2.votes_no == p.votes_no && p2.votes_abstain
                == p.votes_abstain
        }),
{
    assert(v.proposals[proposal_id - 1].id == proposal_id);
    reveal(unpassed_without_timelock);
    assert(v.proposals[proposal_id - 1] == v.proposals[proposal_id - 1]);
}

/// A proposal is executed only once it has passed and its timelock has run
/// out; execution marks it `Executed`.
pub proof fn law_execute_needs_passed_and_timelock(
    v: GovView,
    admin: String,
    proposal_id: u64,
    now: u64,
)
    requires
        v.wf(),
    ensures
        execute_spec(v, admin, proposal_id, now) is Ok <==> {
            &&& !spec_is_zero_address(admin@)
            &&& !v.paused
            &&& v.admin matches Some(a) && a@ == admin@
            &&& v.proposal(proposal_id) is Some
            &&& v.proposal(proposal_id).unwrap().state == ProposalState::Passed
            &&& now >= v.proposal(proposal_id).unwrap().execute_after
        },
        execute_spec(v, admin, proposal_id, now) is Ok ==> execute_spec(
            v,
            admin,
            proposal_id,
            now,
        )->Ok_0.proposal(proposal_id).unwrap().state == ProposalState::Executed,
{
    if 1 <= proposal_id <= v.proposals.len() {
        assert(v.proposals[proposal_id - 1].id == proposal_id);
    }
}

/// While the contract is paused, no proposal is created, no vote is cast and
/// no proposal is finalised or executed: each such call by a valid address
/// fails with `ContractPaused`.
pub proof fn law_paused_blocks_changes(
    v: GovView,
    caller: String,
    proposal_id: u64,
    vote: Vote,
    title: String,
    description: String,
    quorum: i128,
    duration: u64,
    tags: Seq<String>,
    now: u64,
    supply: i128,
    balance: i128,
)
    requires
        v.paused,
        !spec_is_zero_address(caller@),
    ensures
        cast_vote_spec(v, caller, proposal_id, vote, now, balance) == Err::<GovView, ContractError>(
            ContractError::ContractPaused,
        ),
        create_proposal_spec(
            v,
            caller,
            title,
            description,
            quorum,
            duration,
            tags,
            now,
            supply,
            balance,
        ) == Some(Err::<(GovView, u64), ContractError>(ContractError::ContractPaused)),
        finalise_spec(v, proposal_id, now) == Some(
            Err::<GovView, ContractError>(ContractError::ContractPaused),
        ),
        execute_spec(v, caller, proposal_id, now) == Err::<GovView, ContractError>(
            ContractError::ContractPaused,
        ),
{
}

/// Proposal ids are sequential: a created proposal gets the next id, is
/// active with empty tallies, and its voting period opens after the
/// amendment window and lasts `duration`.
pub proof fn law_proposal_ids_sequential(
    v: GovView,
    proposer: String,
    title: String,
    description: String,
    quorum: i128,
    duration: u64,
    tags: Seq<String>,
    now: u64,
    supply: i128,
    balance: i128,
)
    requires
        create_proposal_spec(
            v,
            proposer,
            title,
            description,
            quorum,
            duration,
            tags,
            now,
            supply,
            balance,
        ) matches Some(Ok(_)),
    ensures
        ({
            let (v2, id) = create_proposal_spec(
                v,
                proposer,
                title,
                description,
                quorum,
                duration,
                tags,
                now,
                supply,
                balance,
            )->Some_0->Ok_0;
            let p = v2.proposal(id).unwrap();
            &&& id == v.proposals.len() + 1
            &&& v2.proposals.len() == id
            &&& v2.proposals.take(v.proposals.len() as int) == v.proposals
            &&& p == new_proposal(
                v,
                id,
                proposer,
                title,
                description,
                quorum,
                (now + v.amend_window) as u64,
                (now + v.amend_window + duration) as u64,
                tags,
            )
            &&& p.state == ProposalState::Active
            &&& p.votes_yes == 0 && p.votes_no == 0 && p.votes_abstain == 0
            &&& p.end_time - p.start_time == duration
        }),
{
    let (v2, id) = create_proposal_spec(
        v,
        proposer,
        title,
        description,
        quorum,
        duration,
        tags,
        now,
        supply,
        balance,
    )->Some_0->Ok_0;
    assert(v2.proposals.take(v.proposals.len() as int) =~= v.proposals);
}

/// The admin role moves in two steps: once the admin nominates a successor,
/// the nominee that accepts within the window becomes the admin and the
/// nomination is cleared; after the window, acceptance is refused.
pub proof fn law_admin_handover(
    v: GovView,
    admin: String,
    nominee: String,
    window_secs: u64,
    now: u64,
    accepted_at: u64,
)
    requires
        propose_admin_transfer_spec(v, admin, nominee, window_secs, now) matches Some(Ok(_)),
    ensures
        ({
            let v2 = propose_admin_transfer_spec(v, admin, nominee, window_secs, now)->Some_0->Ok_0;
            let r = accept_admin_transfer_spec(v2, nominee, accepted_at);
            &&& v2.admin == v.admin
            &&& accepted_at <= v2.admin_transfer_expiry ==> r is Ok && r->Ok_0.admin == Some(nominee)
                && r->Ok_0.pending_admin is None
            &&& accepted_at > v2.admin_transfer_expiry ==> r == Err::<GovView, ContractError>(
                ContractError::AdminTransferExpired,
            )
        }),
{
}

/// A proposal only moves forward through its lifecycle: once rejected,
/// cancelled or executed, its state never changes again, and a passed
/// proposal can only become executed.
pub proof fn law_lifecycle_forward(pre: GovView, post: GovView, i: int)
    requires
        lifecycle_step(pre, post),
        0 <= i < pre.proposals.len(),
    ensures
        post.proposals[i].id == pre.proposals[i].id,
        pre.proposals[i].state == ProposalState::Rejected ==> post.proposals[i].state
            == ProposalState::Rejected,
        pre.proposals[i].state == ProposalState::Cancelled ==> post.proposals[i].state
            == ProposalState::Cancelled,
        pre.proposals[i].state == ProposalState::Executed ==> post.proposals[i].state
            == ProposalState::Executed,
        pre.proposals[i].state == ProposalState::Passed ==> post.proposals[i].state
            == ProposalState::Passed || post.proposals[i].state == ProposalState::Executed,
        post.proposals[i].state != ProposalState::Active ==> pre.proposals[i].state
            == ProposalState::Active || pre.proposals[i].state == post.proposals[i].state
            || post.proposals[i].state == ProposalState::Executed,
{
    assert(keeps_proposal(pre, post, i));
    assert(state_step(pre.proposals[i].state, post.proposals[i].state));
}

/// Unpausing undoes pausing: pausing a running contract and unpausing it
/// again leaves every setting and record as it was; only the two events are
/// added.
pub proof fn law_pause_unpause_round_trip(v: GovView, admin: String, reason: Option<String>)
    requires
        !v.paused,
        v.pause_reason is None,
        pause_spec(v, admin, reason) is Ok,
    ensures
        ({
            let v2 = pause_spec(v, admin, reason)->Ok_0;
            let r = unpause_spec(v2, admin);
            &&& v2.paused
            &&& v2.pause_reason == reason
            &&& r is Ok
            &&& r->Ok_0 == (GovView { events: r->Ok_0.events, ..v })
            &&& r->Ok_0.events == v.events.push(GovEvent::ContractPaused { admin, reason }).push(
                GovEvent::ContractUnpaused { admin },
            )
        }),
{
}

/// Setting a proposer's last proposal time makes that the time found for it.
proof fn lemma_last_after_set(w: GovView, proposer: String, ts: u64)
    requires
        last_unique(w.last_proposal),
    ensures
        w.with_last_proposal(proposer, ts).last_proposal_of(proposer@) == ts,
{
    reveal(last_unique);
    let w2 = w.with_last_proposal(proposer, ts);
    let s = w.last_proposal;
    if exists|i: int| 0 <= i < s.len() && s[i].proposer@ == proposer@ {
        let k = choose|i: int| 0 <= i < s.len() && s[i].proposer@ == proposer@;
        assert(w2.last_proposal[k].proposer@ == proposer@);
        let c = choose|i: int|
            0 <= i < w2.last_proposal.len() && w2.last_proposal[i].proposer@ == proposer@;
        if c != k {
            assert(w2.last_proposal[c] == s[c]);
            if c < k {
                assert(s[c].proposer@ != s[k].proposer@);
            } else {
                assert(s[k].proposer@ != s[c].proposer@);
            }
        }
    } else {
        let n = s.len() as int;
        assert(w2.last_proposal[n].proposer@ == proposer@);
        let c = choose|i: int|
            0 <= i < w2.last_proposal.len() && w2.last_proposal[i].proposer@ == proposer@;
        if c != n {
            assert(w2.last_proposal[c] == s[c]);
        }
    }
}

/// A proposer's proposals are spaced by the cooldown: once a proposal of
/// `proposer` is created at a time `now` other than 0 while a cooldown is
/// set, a further proposal of `proposer` is accepted only from
/// `now + proposal_cooldown` on.
pub proof fn law_proposal_cooldown(
    v: GovView,
    proposer: String,
    title: String,
    description: String,
    quorum: i128,
    duration: u64,
    tags: Seq<String>,
    now: u64,
    supply: i128,
    balance: i128,
    title2: String,
    description2: String,
    quorum2: i128,
    duration2: u64,
    tags2: Seq<String>,
    later: u64,
    supply2: i128,
    balance2: i128,
)
    requires
        v.wf(),
        v.proposal_cooldown > 0,
        now > 0,
        create_proposal_spec(
            v,
            proposer,
            title,
            description,
            quorum,
            duration,
            tags,
            now,
            supply,
            balance,
        ) matches Some(Ok(_)),
    ensures
        ({
            let v2 = create_proposal_spec(
                v,
                proposer,
                title,
                description,
                quorum,
                duration,
                tags,
                now,
                supply,
                balance,
            )->Some_0->Ok_0.0;
            &&& v2.last_proposal_of(proposer@) == now
            &&& v2.proposal_cooldown == v.proposal_cooldown
            &&& create_proposal_spec(
                v2,
                proposer,
                title2,
                description2,
                quorum2,
                duration2,
                tags2,
                later,
                supply2,
                balance2,
            ) matches Some(Ok(_)) ==> later >= now + v.proposal_cooldown
        }),
{
    let id = (v.proposals.len() + 1) as u64;
    let start = (now + v.amend_window) as u64;
    let p = new_proposal(
        v,
        id,
        proposer,
        title,
        description,
        quorum,
        start,
        (start + duration) as u64,
        tags,
    );
    let w = GovView { proposals: v.proposals.push(p), ..v };
    lemma_last_after_set(w, proposer, now);
}

/// The admin-vote restriction covers only the admin's own proposals: on a
/// proposal open for voting, a vote that meets every other condition is
/// counted unless the restriction is on and the voter is the admin voting on
/// a proposal it made itself; and `AdminVoteRestricted` is never the answer
/// to anything else.
pub proof fn law_admin_vote_restriction(
    v: GovView,
    voter: String,
    proposal_id: u64,
    vote: Vote,
    now: u64,
    balance: i128,
)
    ensures
        cast_vote_spec(v, voter, proposal_id, vote, now, balance) == Err::<GovView, ContractError>(
            ContractError::AdminVoteRestricted,
        ) ==> {
            &&& v.restrict_admin_vote
            &&& v.admin is Some
            &&& v.admin.unwrap()@ == voter@
            &&& v.proposal(proposal_id) is Some
            &&& v.proposal(proposal_id).unwrap().proposer@ == voter@
        },
        ({
            let p = v.proposal(proposal_id).unwrap();
            &&& !spec_is_zero_address(voter@)
            &&& !v.paused
            &&& v.proposal(proposal_id) is Some
            &&& p.state == ProposalState::Active
            &&& p.start_time <= now < p.end_time
            &&& !v.has_voted(proposal_id, voter@)
            &&& v.admin is Some
            &&& v.voting_token is Some
            &&& balance > 0
            &&& p.votes_yes + balance <= i128::MAX
            &&& p.votes_no + balance <= i128::MAX
            &&& p.votes_abstain + balance <= i128::MAX
        }) ==> (cast_vote_spec(v, voter, proposal_id, vote, now, balance) is Ok <==> !(
        v.restrict_admin_vote && v.admin.unwrap()@ == voter@
            && v.proposal(proposal_id).unwrap().proposer@ == voter@)),
{
}

/// A description is accepted when it holds 1 to 1024 bytes, none of them a
/// control byte: for a proposal from a valid address with a valid title on an
/// unpaused contract, creation fails with `InvalidDescription` exactly when
/// the description is empty, longer than 1024 bytes or holds a control byte;
/// the same holds of an amendment that the proposal's owner may make.
pub proof fn law_description_limit(
    v: GovView,
    proposer: String,
    title: String,
    description: String,
    quorum: i128,
    duration: u64,
    tags: Seq<String>,
    now: u64,
    supply: i128,
    balance: i128,
    proposal_id: u64,
)
    requires
        !spec_is_zero_address(proposer@),
        !v.paused,
        0 < encode_utf8(title@).len() <= 128,
        printable(encode_utf8(title@)),
    ensures
        create_proposal_spec(
            v,
            proposer,
            title,
            description,
            quorum,
            duration,
            tags,
            now,
            supply,
            balance,
        ) == Some(Err::<(GovView, u64), ContractError>(ContractError::InvalidDescription)) <==> !(0
            < encode_utf8(description@).len() <= 1024 && printable(encode_utf8(description@))),
        ({
            let p = v.proposal(proposal_id).unwrap();
            &&& v.proposal(proposal_id) is Some
            &&& p.state == ProposalState::Active
            &&& p.proposer@ == proposer@
            &&& !(v.amend_window > 0 && now >= p.start_time)
        }) ==> (amend_proposal_spec(v, proposer, proposal_id, title, description, now) == Err::<
            GovView,
            ContractError,
        >(ContractError::InvalidDescription) <==> !(0 < encode_utf8(description@).len() <= 1024
            && printable(encode_utf8(description@)))),
{
}

/// What carrying out multi-sig action `a` did to `pre`, giving `post`: the
/// action is marked executed, a cancel leaves its proposal `Cancelled` and an
/// execute leaves it `Executed` (each otherwise unchanged), a pause or an
/// unpause sets the paused flag, and a reconfiguration installs the action's
/// configuration.
pub open spec fn carried_out(pre: GovView, post: GovView, a: MultiSigActionView) -> bool {
    let pid = a.proposal_id;
    &&& post.action(a.id) is Some
    &&& post.action(a.id).unwrap().executed
    &&& a.action_type == MultiSigActionType::CancelProposal ==> {
        &&& pre.proposal(pid) is Some
        &&& post.proposal(pid) == Some(
            ProposalView { state: ProposalState::Cancelled, ..pre.proposal(pid).unwrap() },
        )
    }
    &&& a.action_type == MultiSigActionType::ExecuteProposal ==> {
        &&& pre.proposal(pid) is Some
        &&& post.proposal(pid) == Some(
            ProposalView { state: ProposalState::Executed, ..pre.proposal(pid).unwrap() },
        )
    }
    &&& a.action_type == MultiSigActionType::Pause ==> post.paused
    &&& a.action_type == MultiSigActionType::Unpause ==> !post.paused
    &&& a.action_type == MultiSigActionType::UpdateMultiSig ==> post.multisig_config
        == a.new_config
}

/// A multi-sig action runs as soon as an approval brings it to the threshold:
/// that approval leaves the action executed and its operation performed, so a
/// cancel leaves the target proposal `Cancelled`, as the admin's cancel does.
/// An action proposed under a threshold of one runs at once in the same way.
pub proof fn law_multisig_action_runs(
    v: GovView,
    approver: String,
    action_id: u64,
    now: u64,
    proposer: String,
    action_type: MultiSigActionType,
    proposal_id: u64,
    new_config: Option<MultiSigConfigView>,
)
    requires
        v.wf(),
    ensures
        approve_multisig_action_spec(v, approver, action_id, now) is Ok && v.action(action_id)
            is Some && v.action(action_id).unwrap().approvals + 1
            >= v.multisig_config.unwrap().threshold ==> carried_out(
            v,
            approve_multisig_action_spec(v, approver, action_id, now)->Ok_0,
            v.action(action_id).unwrap(),
        ),
        propose_multisig_action_spec(v, proposer, action_type, proposal_id, new_config, now) is Ok
            && v.multisig_config.unwrap().threshold == 1 ==> carried_out(
            v,
            propose_multisig_action_spec(
                v,
                proposer,
                action_type,
                proposal_id,
                new_config,
                now,
            )->Ok_0.0,
            MultiSigActionView {
                id: (v.multisig_actions.len() + 1) as u64,
                action_type,
                proposal_id,
                new_config,
                approvals: 1,
                executed: false,
            },
        ),
{
    if 1 <= proposal_id <= v.proposals.len() {
        assert(v.proposals[proposal_id - 1].id == proposal_id);
    }
    if v.action(action_id) is Some {
        let pid = v.action(action_id).unwrap().proposal_id;
        assert(v.multisig_actions[action_id - 1].id == action_id);
        if 1 <= pid <= v.proposals.len() {
            assert(v.proposals[pid - 1].id == pid);
        }
    }
}

/// A vote that brings the no votes to the veto threshold rejects the proposal
/// at once: after a counted vote the proposal is `Rejected` exactly when the
/// veto is enabled (threshold above zero) and its no votes reach the
/// threshold, and stays `Active` otherwise.
pub proof fn law_veto_rejects_at_once(
    v: GovView,
    voter: String,
    proposal_id: u64,
    vote: Vote,
    now: u64,
    balance: i128,
)
    requires
        v.wf(),
        cast_vote_spec(v, voter, proposal_id, vote, now, balance) is Ok,
    ensures
        ({
            let v2 = cast_vote_spec(v, voter, proposal_id, vote, now, balance)->Ok_0;
            let p2 = v2.proposal(proposal_id).unwrap();
            &&& v2.proposal(proposal_id) is Some
            &&& p2.state == if v.veto_threshold > 0 && p2.votes_no >= v.veto_threshold {
                ProposalState::Rejected
            } else {
                ProposalState::Active
            }
        }),
{
    assert(v.proposals[proposal_id - 1].id == proposal_id);
}

/// The admin's edits of a proposal do what they name and nothing more: a
/// cancel, asked for by the admin on an active proposal, leaves it
/// `Cancelled`; a quorum update sets its quorum to the new, positive value; an
/// amendment by its proposer replaces its title and description; everything
/// else about the proposal stays as it was. A transfer of the admin role
/// makes the new address the admin.
pub proof fn law_proposal_edits(
    v: GovView,
    caller: String,
    proposal_id: u64,
    new_quorum: i128,
    new_admin: String,
    title: String,
    description: String,
    now: u64,
)
    requires
        v.wf(),
    ensures
        cancel_spec(v, caller, proposal_id) is Ok ==> {
            let p = v.proposal(proposal_id).unwrap();
            &&& v.admin is Some && v.admin.unwrap()@ == caller@
            &&& v.proposal(proposal_id) is Some
            &&& p.state == ProposalState::Active
            &&& cancel_spec(v, caller, proposal_id)->Ok_0.proposal(proposal_id) == Some(
                ProposalView { state: ProposalState::Cancelled, ..p },
            )
        },
        update_quorum_spec(v, caller, proposal_id, new_quorum) is Ok ==> {
            let p = v.proposal(proposal_id).unwrap();
            &&& v.admin is Some && v.admin.unwrap()@ == caller@
            &&& new_quorum > 0
            &&& v.proposal(proposal_id) is Some
            &&& update_quorum_spec(v, caller, proposal_id, new_quorum)->Ok_0.proposal(proposal_id)
                == Some(ProposalView { quorum: new_quorum, ..p })
        },
        amend_proposal_spec(v, caller, proposal_id, title, description, now) is Ok ==> {
            let p = v.proposal(proposal_id).unwrap();
            &&& v.proposal(proposal_id) is Some
            &&& p.proposer@ == caller@
            &&& amend_proposal_spec(v, caller, proposal_id, title, description, now)->Ok_0.proposal(
                proposal_id,
            ) == Some(ProposalView { title, description, ..p })
        },
        transfer_admin_spec(v, caller, new_admin) is Ok ==> {
            &&& v.admin is Some && v.admin.unwrap()@ == caller@
            &&& transfer_admin_spec(v, caller, new_admin)->Ok_0.admin == Some(new_admin)
        },
{
    if 1 <= proposal_id <= v.proposals.len() {
        assert(v.proposals[proposal_id - 1].id == proposal_id);
    }
}

} // verus!
