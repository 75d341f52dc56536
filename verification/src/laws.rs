use vstd::prelude::*;

use crate::block::hash_chain;
use crate::hash::aggregate_hash;
use crate::model::{
    on_timeout_propose, timeout_in_range, is_equivocation, on_4f_favor_prevote_propose, on_proposal, on_proposal_favor, with_votes, begin_round, precommit_deadline, proposer_of, start_round, add_precommit, add_prevote, count_prevote, handle_event, handle_timeouts, power_of, progress_accepts,
    progress_spec,
};
use crate::state::{ConsensusStateView, VotesView};
use crate::tally::{
    first_over, lemma_amount_at, lemma_amount_le_sum, lemma_first_over, lemma_last_over,
    lemma_tally_add_amount,
    lemma_tally_add_sorted, lemma_tally_add_sum, tally_add, tally_amount, tally_sorted,
};
use crate::types::{
    exceeds_five_sixths, exceeds_two_thirds, BlockIdentifier, ConsensusEvent, ConsensusResponseView, ConsensusStep,
    HeightInfo, Round, Timestamp, ValidatorIndex,
};

verus! {

/// Once this node is locked on a value, no event changes the lock.
pub proof fn law_lock_is_kept(h: HeightInfo, s: ConsensusStateView, e: ConsensusEvent)
    requires
        s.locked_value is Some,
    ensures
        progress_spec(h, s, e).0.locked_value == s.locked_value,
        progress_spec(h, s, e).0.locked_round == s.locked_round,
{
}

/// An event that is ignored leaves the state as it was.
pub proof fn law_ignored_event_changes_nothing(h: HeightInfo, s: ConsensusStateView, e: ConsensusEvent)
    requires
        progress_spec(h, s, e).1 is None,
    ensures
        progress_spec(h, s, e).0 == s,
{
}

/// An event asks for at most one action.
pub proof fn law_at_most_one_response(h: HeightInfo, s: ConsensusStateView, e: ConsensusEvent)
    requires
        progress_spec(h, s, e).1 is Some,
    ensures
        progress_spec(h, s, e).1->0.len() <= 1,
{
}

/// While this node waits for its own proposal, every event but the creation
/// of that proposal in the current round is ignored.
pub proof fn law_waiting_ignores_other_events(h: HeightInfo, s: ConsensusStateView, e: ConsensusEvent)
    requires
        s.waiting_for_proposal_creation,
        !(e matches ConsensusEvent::BlockProposalCreated { round, .. } && round == s.round),
    ensures
        progress_spec(h, s, e) == (s, None::<Seq<ConsensusResponseView>>),
{
}

/// A value and its round are locked together: where the lock is a pair before
/// an event, it is after.
pub proof fn law_lock_pairs(h: HeightInfo, s: ConsensusStateView, e: ConsensusEvent)
    requires
        (s.locked_value is Some) == (s.locked_round is Some),
        (s.valid_value is Some) == (s.valid_round is Some),
    ensures
        (progress_spec(h, s, e).0.locked_value is Some) == (progress_spec(h, s, e).0.locked_round is Some),
        (progress_spec(h, s, e).0.valid_value is Some) == (progress_spec(h, s, e).0.valid_round is Some),
{
    if let ConsensusEvent::Prevote { proposal, signer, round, .. } = e {
        let t = tally_add(s.votes_in(round).prevotes_favor, proposal, power_of(h, signer));
        lemma_first_over(t, h.total_power());
        lemma_last_over(t, h.total_power());
    }
}

/// Only the start of the height moves the round back (to 0); any other event
/// keeps the round or moves it to the next one.
pub proof fn law_round_moves_forward(h: HeightInfo, s: ConsensusStateView, e: ConsensusEvent)
    requires
        progress_accepts(h, s, e),
    ensures
        e is Start && !s.waiting_for_proposal_creation ==> progress_spec(h, s, e).0.round == 0,
        !(e is Start) ==> progress_spec(h, s, e).0.round == s.round || progress_spec(h, s, e).0.round
            == s.round + 1,
{
}

/// The first qualifying proposal of a sorted tally has more than two thirds.
proof fn lemma_first_over_has_two_thirds(t: Seq<(BlockIdentifier, u64)>, total: int)
    requires
        tally_sorted(t),
        first_over(t, total) is Some,
    ensures
        exceeds_two_thirds(tally_amount(t, first_over(t, total)->0), total),
{
    lemma_first_over(t, total);
    let i = choose|i: int|
        0 <= i < t.len() && t[i].0 == first_over(t, total)->0 && exceeds_two_thirds(
            #[trigger] t[i].1 as int,
            total,
        );
    lemma_amount_at(t, i);
}


/// An expired timeout asks at most for a nil prevote, a proposal, the
/// creation of a proposal, or a prevote for the locked value.
proof fn lemma_timeout_responses(h: HeightInfo, s: ConsensusStateView, time: Timestamp)
    ensures
        handle_timeouts(h, s, time).1.len() <= 1,
        handle_timeouts(h, s, time).1.len() == 1 ==> (handle_timeouts(h, s, time).1[0] is BroadcastNilPrevote
            || handle_timeouts(h, s, time).1[0] is BroadcastProposal || handle_timeouts(h, s, time).1[0] is CreateProposal
            || handle_timeouts(h, s, time).1[0] is BroadcastPrevote),
        handle_timeouts(h, s, time).1.len() == 1 && handle_timeouts(h, s, time).1[0] is BroadcastPrevote
            ==> s.locked_value == Some(handle_timeouts(h, s, time).1[0]->BroadcastPrevote_proposal),
{
}

/// A block is finalized only when more than two thirds of the total voting
/// power have precommitted for it in the current round.
pub proof fn law_finalize_needs_two_thirds_precommits(
    h: HeightInfo,
    s: ConsensusStateView,
    e: ConsensusEvent,
    p: BlockIdentifier,
)
    requires
        s.wf(),
        progress_spec(h, s, e).1 == Some(seq![ConsensusResponseView::FinalizeBlock { proposal: p }]),
    ensures
        progress_spec(h, s, e).0.votes.contains_key(progress_spec(h, s, e).0.round),
        exceeds_two_thirds(
            tally_amount(
                progress_spec(h, s, e).0.votes[progress_spec(h, s, e).0.round].precommits_favor,
                p,
            ),
            h.total_power(),
        ),
{
    if !s.waiting_for_proposal_creation {
        if let Some((s1, r1)) = handle_event(h, s, e) {
            if r1.len() == 0 {
                lemma_timeout_responses(h, s1, e.spec_time());
                assert(progress_spec(h, s, e).1->0[0] is FinalizeBlock);
            } else if let ConsensusEvent::Precommit { proposal, signer, round, time } = e {
                let v0 = s.votes_in(round);
                let t = tally_add(v0.precommits_favor, proposal, power_of(h, signer));
                lemma_tally_add_sorted(v0.precommits_favor, proposal, power_of(h, signer));
                if first_over(t, h.total_power()) is Some {
                    lemma_first_over_has_two_thirds(t, h.total_power());
                }
            } else {
                assert(r1[0] is FinalizeBlock);
            }
        }
    }
}

/// This node precommits for a proposal only in the current round and only
/// when more than two thirds of the total voting power have prevoted for it
/// in that round.
pub proof fn law_precommit_needs_two_thirds_prevotes(
    h: HeightInfo,
    s: ConsensusStateView,
    e: ConsensusEvent,
    p: BlockIdentifier,
    r: Round,
)
    requires
        s.wf(),
        progress_spec(h, s, e).1 == Some(
            seq![ConsensusResponseView::BroadcastPrecommit { proposal: p, round: r }],
        ),
    ensures
        r == progress_spec(h, s, e).0.round,
        progress_spec(h, s, e).0.votes.contains_key(r),
        exceeds_two_thirds(
            tally_amount(progress_spec(h, s, e).0.votes[r].prevotes_favor, p),
            h.total_power(),
        ),
{
    if !s.waiting_for_proposal_creation {
        if let Some((s1, r1)) = handle_event(h, s, e) {
            if r1.len() == 0 {
                lemma_timeout_responses(h, s1, e.spec_time());
                assert(progress_spec(h, s, e).1->0[0] is BroadcastPrecommit);
            } else {
                match e {
                    ConsensusEvent::Prevote { proposal, signer, round, .. } => {
                        let v0 = s.votes_in(round);
                        let t = tally_add(v0.prevotes_favor, proposal, power_of(h, signer));
                        lemma_tally_add_sorted(v0.prevotes_favor, proposal, power_of(h, signer));
                        if first_over(t, h.total_power()) is Some {
                            lemma_first_over_has_two_thirds(t, h.total_power());
                        }
                    },
                    ConsensusEvent::NilPrevote { round, .. } => {
                        let t = s.votes_in(round).prevotes_favor;
                        if first_over(t, h.total_power()) is Some {
                            lemma_first_over_has_two_thirds(t, h.total_power());
                        }
                    },
                    _ => {
                        assert(r1[0] is BroadcastPrecommit);
                    },
                }
            }
        }
    }
}

/// The votes of `v2` include those of `v`: totals and the power counted for
/// `q` are at least as large.
pub open spec fn votes_include(v2: VotesView, v: VotesView, q: BlockIdentifier) -> bool {
    &&& v2.prevotes_total >= v.prevotes_total
    &&& v2.precommits_total >= v.precommits_total
    &&& tally_amount(v2.prevotes_favor, q) >= tally_amount(v.prevotes_favor, q)
    &&& tally_amount(v2.precommits_favor, q) >= tally_amount(v.precommits_favor, q)
}

/// Counting one more prevote keeps what was counted.
proof fn lemma_prevote_includes(
    v: VotesView,
    signer: ValidatorIndex,
    proposal: Option<BlockIdentifier>,
    power: u64,
    q: BlockIdentifier,
)
    requires
        v.wf(),
        v.prevotes_total + power <= u64::MAX,
    ensures
        votes_include(add_prevote(v, signer, proposal, power), v, q),
        add_prevote(v, signer, proposal, power).wf(),
{
    if let Some(p) = proposal {
        lemma_amount_le_sum(v.prevotes_favor, p);
        lemma_tally_add_amount(v.prevotes_favor, p, power, q);
        lemma_tally_add_sum(v.prevotes_favor, p, power);
        lemma_tally_add_sorted(v.prevotes_favor, p, power);
    }
}

/// Counting one more precommit keeps what was counted.
proof fn lemma_precommit_includes(
    v: VotesView,
    signer: ValidatorIndex,
    proposal: Option<BlockIdentifier>,
    power: u64,
    q: BlockIdentifier,
)
    requires
        v.wf(),
        v.precommits_total + power <= u64::MAX,
    ensures
        votes_include(add_precommit(v, signer, proposal, power), v, q),
        add_precommit(v, signer, proposal, power).wf(),
{
    if let Some(p) = proposal {
        lemma_amount_le_sum(v.precommits_favor, p);
        lemma_tally_add_amount(v.precommits_favor, p, power, q);
        lemma_tally_add_sum(v.precommits_favor, p, power);
        lemma_tally_add_sorted(v.precommits_favor, p, power);
    }
}

/// Counted votes are never forgotten: in every round, the totals of prevotes
/// and precommits, and the power counted for each proposal, only grow.
pub proof fn law_votes_only_grow(
    h: HeightInfo,
    s: ConsensusStateView,
    e: ConsensusEvent,
    r: Round,
    q: BlockIdentifier,
)
    requires
        s.wf(),
        progress_accepts(h, s, e),
        s.votes.contains_key(r),
    ensures
        progress_spec(h, s, e).0.votes.contains_key(r),
        votes_include(progress_spec(h, s, e).0.votes[r], s.votes[r], q),
{
    let v = s.votes[r];
    if !s.waiting_for_proposal_creation && r == s.round {
        match e {
            ConsensusEvent::ProposalFavor { proposal, favor, .. } => if s.step
                == ConsensusStep::Propose {
                let power = power_of(h, h.this_node_index);
                let me = h.this_node_index;
                let voted = if favor {
                    Some(proposal)
                } else {
                    None
                };
                let v1 = count_prevote(v, me, voted, power);
                if !v.prevote_signers.contains(me) {
                    lemma_prevote_includes(v, me, voted, power, q);
                }
                if !v1.precommit_signers.contains(me) {
                    lemma_precommit_includes(v1, me, voted, power, q);
                }
            },
            ConsensusEvent::Prevote { proposal, signer, round, .. } => if round == r
                && !v.prevote_signers.contains(signer) {
                lemma_prevote_includes(v, signer, Some(proposal), power_of(h, signer), q);
            },
            ConsensusEvent::NilPrevote { signer, round, .. } => if round == r
                && !v.prevote_signers.contains(signer) {
                lemma_prevote_includes(v, signer, None, power_of(h, signer), q);
            },
            ConsensusEvent::Precommit { proposal, signer, round, .. } => if round == r
                && !v.precommit_signers.contains(signer) {
                lemma_precommit_includes(v, signer, Some(proposal), power_of(h, signer), q);
            },
            ConsensusEvent::NilPrecommit { signer, round, .. } => if round == r
                && !v.precommit_signers.contains(signer) {
                lemma_precommit_includes(v, signer, None, power_of(h, signer), q);
            },
            _ => {},
        }
    }
}

/// The events that are answered with `None`: while a proposal creation is
/// awaited, anything but the creation of the proposal of the current round;
/// otherwise a created proposal, or a vote of another round.
pub open spec fn refused(s: ConsensusStateView, e: ConsensusEvent) -> bool {
    if s.waiting_for_proposal_creation {
        !(e matches ConsensusEvent::BlockProposalCreated { round, .. } && round == s.round)
    } else {
        match e {
            ConsensusEvent::BlockProposalCreated { .. } => true,
            ConsensusEvent::Prevote { round, .. } => round != s.round,
            ConsensusEvent::NilPrevote { round, .. } => round != s.round,
            ConsensusEvent::Precommit { round, .. } => round != s.round,
            ConsensusEvent::NilPrecommit { round, .. } => round != s.round,
            _ => false,
        }
    }
}

/// An event is answered with `None` exactly when it is refused.
pub proof fn law_when_events_are_refused(h: HeightInfo, s: ConsensusStateView, e: ConsensusEvent)
    ensures
        (progress_spec(h, s, e).1 is None) == refused(s, e),
{
}

/// A node locked on a value prevotes for another proposal only on a proposal
/// whose valid round is newer than the round it locked in.
pub proof fn law_locked_node_prevotes_its_lock(
    h: HeightInfo,
    s: ConsensusStateView,
    e: ConsensusEvent,
    p: BlockIdentifier,
    r: Round,
)
    requires
        s.locked_value is Some,
        s.locked_round is Some,
        p != s.locked_value->0,
        progress_spec(h, s, e).1 == Some(seq![ConsensusResponseView::BroadcastPrevote { proposal: p, round: r }]),
    ensures
        e matches ConsensusEvent::BlockProposalReceived { proposal_round: Some(vr), .. } && s.locked_round->0
            < vr,
{
    if !s.waiting_for_proposal_creation {
        if let Some((s1, r1)) = handle_event(h, s, e) {
            if r1.len() == 0 {
                lemma_timeout_responses(h, s1, e.spec_time());
                assert(progress_spec(h, s, e).1->0[0] is BroadcastPrevote);
            }
        }
    }
}

/// The event is a vote of the current round by a validator whose vote of that
/// kind was already counted in that round.
pub open spec fn repeats_vote(s: ConsensusStateView, e: ConsensusEvent) -> bool {
    match e {
        ConsensusEvent::Prevote { signer, round, .. } => round == s.round
            && s.votes_in(round).prevote_signers.contains(signer),
        ConsensusEvent::NilPrevote { signer, round, .. } => round == s.round
            && s.votes_in(round).prevote_signers.contains(signer),
        ConsensusEvent::Precommit { signer, round, .. } => round == s.round
            && s.votes_in(round).precommit_signers.contains(signer),
        ConsensusEvent::NilPrecommit { signer, round, .. } => round == s.round
            && s.votes_in(round).precommit_signers.contains(signer),
        _ => false,
    }
}

/// A validator's vote counts once in a round: a second prevote, or a second
/// precommit, of the same validator in the same round does what a mere clock
/// tick at its time does.
pub proof fn law_repeated_vote_is_a_tick(h: HeightInfo, s: ConsensusStateView, e: ConsensusEvent)
    requires
        repeats_vote(s, e),
    ensures
        progress_spec(h, s, e) == progress_spec(h, s, ConsensusEvent::Timer { time: e.spec_time() }),
{
}

/// What an event other than the start does before timeouts are looked at: it
/// keeps the round, its start and a started precommit timeout, never proposes,
/// and prevotes for a proposal only when locked on it or favoring it.
proof fn lemma_handle_event_responses(h: HeightInfo, s: ConsensusStateView, e: ConsensusEvent)
    requires
        !(e is Start),
        handle_event(h, s, e) is Some,
    ensures
        ({
            let (s1, r) = handle_event(h, s, e)->0;
            &&& s1.round == s.round
            &&& s1.round_start == s.round_start
            &&& s.timeout_precommit is Some ==> s1.timeout_precommit == s.timeout_precommit
            &&& s1.timeout_precommit != s.timeout_precommit ==> s1.timeout_precommit == Some(
                h.timeout_at(e.spec_time()) as i64,
            )
            &&& r.len() <= 1
            &&& r.len() == 0 ==> s1.locked_value == s.locked_value
            &&& r.len() == 1 ==> !(r[0] is BroadcastProposal)
            &&& r.len() == 1 && r[0] is BroadcastPrevote ==> ({
                let p = r[0]->BroadcastPrevote_proposal;
                ||| s.locked_value == Some(p)
                ||| (e matches ConsensusEvent::ProposalFavor { proposal, favor, .. } && proposal == p && favor)
                ||| (s.proposal_favors.contains_key(p) && s.proposal_favors[p])
            })
        }),
{
    match e {
        ConsensusEvent::BlockProposalReceived { proposal, proposal_round, proposer, round, .. } => {
            if proposer != proposer_of(round, h) {
            } else if is_equivocation(s, proposal, round) {
            } else {
                let s1 = ConsensusStateView { proposals: s.proposals.insert(round, proposal), ..s };
                if s.step == ConsensusStep::Propose {
                    match proposal_round {
                        Some(vr) => {
                            if vr < round {
                                assert(handle_event(h, s, e) == Some(
                                    on_4f_favor_prevote_propose(h, s1, proposal, round, vr),
                                ));
                            }
                        },
                        None => {
                            assert(handle_event(h, s, e) == Some(on_proposal(s1, proposal, round)));
                        },
                    }
                }
            }
        },
        ConsensusEvent::ProposalFavor { proposal, favor, .. } => {
            if s.step == ConsensusStep::Propose {
                assert(handle_event(h, s, e) == Some(on_proposal_favor(h, s, proposal, favor, s.round)));
            }
        },
        ConsensusEvent::Prevote { proposal, signer, round, .. } => {
            let v = add_prevote(s.votes_in(round), signer, Some(proposal), power_of(h, signer));
            let s1 = with_votes(s, round, v);
            let t = v.prevotes_favor;
            lemma_first_over(t, h.total_power());
            lemma_last_over(t, h.total_power());
        },
        ConsensusEvent::NilPrevote { signer, round, .. } => {
            let v = add_prevote(s.votes_in(round), signer, None, power_of(h, signer));
            lemma_first_over(v.prevotes_favor, h.total_power());
        },
        _ => {},
    }
}

/// Starting a round: the round and its start are set; a proposal is the valid
/// value for that round, and a prevote is for the locked value.
proof fn lemma_begin_round(h: HeightInfo, s: ConsensusStateView, round: Round, time: Timestamp)
    ensures
        begin_round(h, s, round, time).0.round == round,
        begin_round(h, s, round, time).0.round_start == time,
        begin_round(h, s, round, time).0.valid_value == s.valid_value,
        begin_round(h, s, round, time).0.locked_value == s.locked_value,
        begin_round(h, s, round, time).0.proposals == s.proposals,
        begin_round(h, s, round, time).1.len() <= 1,
        begin_round(h, s, round, time).1.len() == 1 && begin_round(h, s, round, time).1[0] is BroadcastProposal
            ==> s.valid_value == Some(begin_round(h, s, round, time).1[0]->BroadcastProposal_proposal)
            && begin_round(h, s, round, time).1[0]->BroadcastProposal_round == round,
        begin_round(h, s, round, time).1.len() == 1 && begin_round(h, s, round, time).1[0] is BroadcastPrevote
            ==> s.locked_value == Some(begin_round(h, s, round, time).1[0]->BroadcastPrevote_proposal),
        (proposer_of(round, h) != h.this_node_index && s.locked_value is Some) ==> begin_round(h, s, round, time).1
            == seq![ConsensusResponseView::BroadcastPrevote { proposal: s.locked_value->0, round }]
            && begin_round(h, s, round, time).0.step == ConsensusStep::Prevote,
        (proposer_of(round, h) != h.this_node_index && s.locked_value is None) ==> begin_round(h, s, round, time).1
            == Seq::<ConsensusResponseView>::empty() && begin_round(h, s, round, time).0.step == ConsensusStep::Propose
            && begin_round(h, s, round, time).0.timeout_propose == Some(h.timeout_at(time) as i64),
        begin_round(h, s, round, time).0.timeout_precommit is None,
{
    let s1 = ConsensusStateView {
        round: round,
        step: ConsensusStep::Propose,
        timeout_precommit: None,
        round_start: time,
        ..s
    };
    if proposer_of(round, h) == h.this_node_index {
        match s.valid_value {
            Some(v) => {
                assert(start_round(h, s, round, time) == (
                    s1,
                    seq![ConsensusResponseView::BroadcastProposal { proposal: v, round }],
                    false,
                ));
            },
            None => {
                assert(start_round(h, s, round, time) == (s1, Seq::<ConsensusResponseView>::empty(), true));
            },
        }
    } else {
        match s.locked_value {
            Some(v) => {
                assert(start_round(h, s, round, time) == (
                    ConsensusStateView { step: ConsensusStep::Prevote, ..s1 },
                    seq![ConsensusResponseView::BroadcastPrevote { proposal: v, round }],
                    false,
                ));
            },
            None => {
                assert(start_round(h, s, round, time).1 == Seq::<ConsensusResponseView>::empty());
                assert(start_round(h, s, round, time).0.round == round);
            },
        }
    }
}

/// An expired timeout that proposes proposes the valid value, for the round
/// it starts.
proof fn lemma_timeout_proposal(h: HeightInfo, s: ConsensusStateView, time: Timestamp, p: BlockIdentifier, q: Round)
    requires
        handle_timeouts(h, s, time).1 == seq![ConsensusResponseView::BroadcastProposal { proposal: p, round: q }],
    ensures
        q == handle_timeouts(h, s, time).0.round,
        handle_timeouts(h, s, time).0.valid_value == Some(p),
{
    lemma_timeout_responses(h, s, time);
    if s.step == ConsensusStep::Precommit && time >= precommit_deadline(h, s) {
        let s1 = ConsensusStateView { step: ConsensusStep::Propose, timeout_precommit: None, ..s };
        let next = (s.round + 1) as usize;
        assert(handle_timeouts(h, s, time) == begin_round(h, s1, next, time));
        lemma_begin_round(h, s1, next, time);
    } else if s.step == ConsensusStep::Propose {
        assert(handle_timeouts(h, s, time).1.len() == 0 || handle_timeouts(h, s, time).1[0] is BroadcastNilPrevote);
    } else {
        assert(handle_timeouts(h, s, time).1.len() == 0);
    }
}

/// A proposal is broadcast only for the round the node is in after the event.
/// It is the proposal just created, when one was awaited; otherwise it is the
/// node's valid value, proposed as the leader of the round that starts.
pub proof fn law_proposal_is_for_the_current_round(
    h: HeightInfo,
    s: ConsensusStateView,
    e: ConsensusEvent,
    p: BlockIdentifier,
    q: Round,
)
    requires
        progress_spec(h, s, e).1 == Some(seq![ConsensusResponseView::BroadcastProposal { proposal: p, round: q }]),
    ensures
        q == progress_spec(h, s, e).0.round,
        e matches ConsensusEvent::BlockProposalCreated { proposal, .. } ==> p == proposal && q == s.round,
        !(e is BlockProposalCreated) ==> progress_spec(h, s, e).0.valid_value == Some(p),
{
    if s.waiting_for_proposal_creation {
        if let ConsensusEvent::BlockProposalCreated { proposal, round, .. } = e {
            assert(round == s.round);
            assert(progress_spec(h, s, e) == (
                ConsensusStateView { waiting_for_proposal_creation: false, ..s },
                Some(seq![ConsensusResponseView::BroadcastProposal { proposal, round: s.round }]),
            ));
            assert(seq![ConsensusResponseView::BroadcastProposal { proposal, round: s.round }][0]
                == ConsensusResponseView::BroadcastProposal { proposal: p, round: q });
        }
    } else {
        let (s1, r1) = handle_event(h, s, e)->0;
        if r1.len() == 0 {
            assert(progress_spec(h, s, e) == (
                handle_timeouts(h, s1, e.spec_time()).0,
                Some(handle_timeouts(h, s1, e.spec_time()).1),
            ));
            lemma_timeout_proposal(h, s1, e.spec_time(), p, q);
        } else {
            assert(progress_spec(h, s, e) == (s1, Some(r1)));
            assert(r1[0] == ConsensusResponseView::BroadcastProposal { proposal: p, round: q });
            match e {
                ConsensusEvent::Start { time } => {
                    lemma_begin_round(h, s, 0, time);
                },
                _ => {
                    lemma_handle_event_responses(h, s, e);
                },
            }
        }
    }
}

/// The leader of round 0 that holds a valid value proposes it for round 0 when
/// the height starts.
pub proof fn law_start_proposes_the_valid_value(h: HeightInfo, s: ConsensusStateView, time: Timestamp, v: BlockIdentifier)
    requires
        !s.waiting_for_proposal_creation,
        proposer_of(0, h) == h.this_node_index,
        s.valid_value == Some(v),
    ensures
        progress_spec(h, s, ConsensusEvent::Start { time }).1 == Some(
            seq![ConsensusResponseView::BroadcastProposal { proposal: v, round: 0 }],
        ),
        progress_spec(h, s, ConsensusEvent::Start { time }).0.round == 0,
        progress_spec(h, s, ConsensusEvent::Start { time }).0.round_start == time,
{
}

/// A node prevotes for a proposal it is not locked on only if it favors it:
/// the event is its own favourable judgement of that proposal, or it had
/// already judged the proposal favourably.
pub proof fn law_unlocked_prevote_needs_favor(
    h: HeightInfo,
    s: ConsensusStateView,
    e: ConsensusEvent,
    p: BlockIdentifier,
    r: Round,
)
    requires
        progress_spec(h, s, e).1 == Some(seq![ConsensusResponseView::BroadcastPrevote { proposal: p, round: r }]),
        s.locked_value != Some(p),
    ensures
        (e matches ConsensusEvent::ProposalFavor { proposal, favor, .. } && proposal == p && favor)
            || (s.proposal_favors.contains_key(p) && s.proposal_favors[p]),
{
    if s.waiting_for_proposal_creation {
        if let ConsensusEvent::BlockProposalCreated { proposal, round, .. } = e {
            assert(progress_spec(h, s, e).1 == Some(
                seq![ConsensusResponseView::BroadcastProposal { proposal, round: s.round }],
            ));
            assert(seq![ConsensusResponseView::BroadcastProposal { proposal, round: s.round }][0]
                == ConsensusResponseView::BroadcastPrevote { proposal: p, round: r });
        }
    } else {
        let (s1, r1) = handle_event(h, s, e)->0;
        if r1.len() == 0 {
            assert(progress_spec(h, s, e) == (
                handle_timeouts(h, s1, e.spec_time()).0,
                Some(handle_timeouts(h, s1, e.spec_time()).1),
            ));
            lemma_timeout_responses(h, s1, e.spec_time());
            assert(handle_timeouts(h, s1, e.spec_time()).1[0] == ConsensusResponseView::BroadcastPrevote {
                proposal: p,
                round: r,
            });
            match e {
                ConsensusEvent::Start { time } => {
                    lemma_begin_round(h, s, 0, time);
                },
                _ => {
                    lemma_handle_event_responses(h, s, e);
                },
            }
        } else {
            assert(progress_spec(h, s, e) == (s1, Some(r1)));
            assert(r1[0] == ConsensusResponseView::BroadcastPrevote { proposal: p, round: r });
            match e {
                ConsensusEvent::Start { time } => {
                    lemma_begin_round(h, s, 0, time);
                },
                _ => {
                    lemma_handle_event_responses(h, s, e);
                },
            }
        }
    }
}

/// A proposal received from the proposer of its round is recorded as that
/// round's proposal, whatever the step, unless a different one was recorded.
pub proof fn law_proposal_is_recorded(
    h: HeightInfo,
    s: ConsensusStateView,
    proposal: BlockIdentifier,
    proposal_round: Option<Round>,
    proposer: ValidatorIndex,
    round: Round,
    time: Timestamp,
)
    requires
        !s.waiting_for_proposal_creation,
        proposer == proposer_of(round, h),
        !(s.proposals.contains_key(round) && s.proposals[round] != proposal),
    ensures
        ({
            let s2 = progress_spec(
                h,
                s,
                ConsensusEvent::BlockProposalReceived { proposal, proposal_round, proposer, round, time },
            ).0;
            s2.proposals.contains_key(round) && s2.proposals[round] == proposal
        }),
{
}

/// A proposer that proposes two different blocks in one round is reported,
/// whatever step the node was in when the first arrived.
pub proof fn law_equivocation_is_reported(
    h: HeightInfo,
    s: ConsensusStateView,
    first: BlockIdentifier,
    second: BlockIdentifier,
    first_round: Option<Round>,
    second_round: Option<Round>,
    proposer: ValidatorIndex,
    round: Round,
    t1: Timestamp,
    t2: Timestamp,
)
    requires
        !s.waiting_for_proposal_creation,
        proposer == proposer_of(round, h),
        !(s.proposals.contains_key(round) && s.proposals[round] != first),
        first != second,
        !progress_spec(
            h,
            s,
            ConsensusEvent::BlockProposalReceived { proposal: first, proposal_round: first_round, proposer, round, time: t1 },
        ).0.waiting_for_proposal_creation,
    ensures
        ({
            let s1 = progress_spec(
                h,
                s,
                ConsensusEvent::BlockProposalReceived { proposal: first, proposal_round: first_round, proposer, round, time: t1 },
            ).0;
            progress_spec(
                h,
                s1,
                ConsensusEvent::BlockProposalReceived {
                    proposal: second,
                    proposal_round: second_round,
                    proposer,
                    round,
                    time: t2,
                },
            ) == (
                s1,
                Some(seq![ConsensusResponseView::ViolationReport { violator: proposer, description: Seq::empty() }]),
            )
        }),
{
    law_proposal_is_recorded(h, s, first, first_round, proposer, round, t1);
}

/// A started precommit timeout is never moved: while the round stays, every
/// event but the start of the height leaves it as it was.
pub proof fn law_started_precommit_timeout_stays(h: HeightInfo, s: ConsensusStateView, e: ConsensusEvent)
    requires
        progress_accepts(h, s, e),
        s.timeout_precommit is Some,
        !(e is Start),
        progress_spec(h, s, e).0.round == s.round,
    ensures
        progress_spec(h, s, e).0.timeout_precommit == s.timeout_precommit,
{
}

/// A round starts at the time of the event that starts it, and keeps that
/// start while it lasts.
pub proof fn law_round_start_is_the_start_time(h: HeightInfo, s: ConsensusStateView, e: ConsensusEvent)
    requires
        progress_accepts(h, s, e),
    ensures
        progress_spec(h, s, e).0.round != s.round ==> progress_spec(h, s, e).0.round_start == e.spec_time(),
        progress_spec(h, s, e).0.round == s.round && !(e is Start) ==> progress_spec(h, s, e).0.round_start
            == s.round_start,
{
}

/// Without a started precommit timeout, no event but the start of the height
/// leaves a round before its own timeout, counted from its start, expires.
pub proof fn law_no_round_change_before_its_timeout(h: HeightInfo, s: ConsensusStateView, e: ConsensusEvent)
    requires
        progress_accepts(h, s, e),
        s.timeout_precommit is None,
        !(e is Start),
        s.round_start <= e.spec_time() < h.timeout_at(s.round_start),
    ensures
        progress_spec(h, s, e).0.round == s.round,
{
    if !s.waiting_for_proposal_creation {
        if let Some((s1, r1)) = handle_event(h, s, e) {
            lemma_handle_event_responses(h, s, e);
            if r1.len() == 0 {
                assert(progress_spec(h, s, e) == (
                    handle_timeouts(h, s1, e.spec_time()).0,
                    Some(handle_timeouts(h, s1, e.spec_time()).1),
                ));
                if s1.step == ConsensusStep::Precommit {
                    assert(e.spec_time() < precommit_deadline(h, s1));
                }
            }
        }
    }
}

/// A started precommit timeout moves the node to the next round only once it
/// has expired.
pub proof fn law_no_round_change_before_the_precommit_timeout(
    h: HeightInfo,
    s: ConsensusStateView,
    e: ConsensusEvent,
    t: Timestamp,
)
    requires
        s.timeout_precommit == Some(t),
        !(e is Start),
        e.spec_time() < t,
    ensures
        progress_spec(h, s, e).0.round == s.round,
{
}

/// The leader of round 0 without a valid value asks for a proposal when the
/// height starts, and waits for it.
pub proof fn law_start_asks_for_a_proposal(h: HeightInfo, s: ConsensusStateView, time: Timestamp)
    requires
        !s.waiting_for_proposal_creation,
        proposer_of(0, h) == h.this_node_index,
        s.valid_value is None,
    ensures
        progress_spec(h, s, ConsensusEvent::Start { time }).1 == Some(
            seq![ConsensusResponseView::CreateProposal { round: 0 }],
        ),
        progress_spec(h, s, ConsensusEvent::Start { time }).0.waiting_for_proposal_creation,
        progress_spec(h, s, ConsensusEvent::Start { time }).0.round == 0,
{
}

/// When the precommit timeout of the current round has expired, a clock tick
/// starts the next round at the tick's time: its leader proposes its valid
/// value or, having none, asks for a proposal; another node prevotes the value
/// it is locked on, or else starts the propose timeout.
pub proof fn law_expired_precommit_timeout_starts_the_next_round(
    h: HeightInfo,
    s: ConsensusStateView,
    t: Timestamp,
    time: Timestamp,
)
    requires
        progress_accepts(h, s, ConsensusEvent::Timer { time }),
        !s.waiting_for_proposal_creation,
        s.step == ConsensusStep::Precommit,
        s.timeout_precommit == Some(t),
        t <= time,
    ensures
        ({
            let (s2, r) = progress_spec(h, s, ConsensusEvent::Timer { time });
            let next = s.round + 1;
            &&& s2.round == next
            &&& s2.round_start == time
            &&& s2.timeout_precommit is None
            &&& s2.locked_value == s.locked_value
            &&& s2.valid_value == s.valid_value
            &&& (proposer_of(s2.round, h) == h.this_node_index && s.valid_value is Some) ==> r == Some(
                seq![ConsensusResponseView::BroadcastProposal { proposal: s.valid_value->0, round: s2.round }],
            )
            &&& (proposer_of(s2.round, h) == h.this_node_index && s.valid_value is None) ==> r == Some(
                seq![ConsensusResponseView::CreateProposal { round: s2.round }],
            ) && s2.waiting_for_proposal_creation
            &&& (proposer_of(s2.round, h) != h.this_node_index && s.locked_value is Some) ==> r == Some(
                seq![ConsensusResponseView::BroadcastPrevote { proposal: s.locked_value->0, round: s2.round }],
            ) && s2.step == ConsensusStep::Prevote
            &&& (proposer_of(s2.round, h) != h.this_node_index && s.locked_value is None) ==> r == Some(
                Seq::<ConsensusResponseView>::empty(),
            ) && s2.step == ConsensusStep::Propose && s2.timeout_propose is Some
                && s2.timeout_propose->0 == h.timeout_at(time)
        }),
{
    let s1 = ConsensusStateView { step: ConsensusStep::Propose, timeout_precommit: None, ..s };
    let next = (s.round + 1) as usize;
    assert(handle_timeouts(h, s, time) == begin_round(h, s1, next, time));
    lemma_begin_round(h, s1, next, time);
}

/// When the propose timeout of the current round has expired, a clock tick
/// makes the node prevote nil in that round.
pub proof fn law_expired_propose_timeout_prevotes_nil(h: HeightInfo, s: ConsensusStateView, t: Timestamp, time: Timestamp)
    requires
        !s.waiting_for_proposal_creation,
        s.step == ConsensusStep::Propose,
        s.timeout_propose == Some(t),
        t <= time,
    ensures
        progress_spec(h, s, ConsensusEvent::Timer { time }).1 == Some(
            seq![ConsensusResponseView::BroadcastNilPrevote { round: s.round }],
        ),
        progress_spec(h, s, ConsensusEvent::Timer { time }).0.step == ConsensusStep::Prevote,
        progress_spec(h, s, ConsensusEvent::Timer { time }).0.round == s.round,
{
}

/// A proposal of the current step's proposer, without a valid round, that this
/// node has already judged is prevoted at once: for it when this node is
/// locked on it or is unlocked and favors it, else nil.
pub proof fn law_judged_proposal_is_prevoted(
    h: HeightInfo,
    s: ConsensusStateView,
    proposal: BlockIdentifier,
    proposer: ValidatorIndex,
    round: Round,
    time: Timestamp,
)
    requires
        !s.waiting_for_proposal_creation,
        s.step == ConsensusStep::Propose,
        proposer == proposer_of(round, h),
        !(s.proposals.contains_key(round) && s.proposals[round] != proposal),
        s.proposal_favors.contains_key(proposal),
    ensures
        ({
            let e = ConsensusEvent::BlockProposalReceived { proposal, proposal_round: None, proposer, round, time };
            let favored = s.proposal_favors[proposal];
            &&& (s.locked_value == Some(proposal) || (favored && s.locked_round is None)) ==> progress_spec(
                h,
                s,
                e,
            ).1 == Some(seq![ConsensusResponseView::BroadcastPrevote { proposal, round }])
            &&& !(s.locked_value == Some(proposal) || (favored && s.locked_round is None)) ==> progress_spec(
                h,
                s,
                e,
            ).1 == Some(seq![ConsensusResponseView::BroadcastNilPrevote { round }])
            &&& progress_spec(h, s, e).0.step == ConsensusStep::Prevote
        }),
{
}

/// A proposal re-proposed with a valid round `vr`, received in the propose
/// step: if more than two thirds prevoted for it in `vr`, this node prevotes,
/// for it when locked on it, or when it favors it and locked before `vr`; nil
/// otherwise. Without such a polka it does not prevote yet, unless its propose
/// timeout has expired.
pub proof fn law_reproposal_follows_its_polka(
    h: HeightInfo,
    s: ConsensusStateView,
    proposal: BlockIdentifier,
    proposer: ValidatorIndex,
    round: Round,
    vr: Round,
    time: Timestamp,
)
    requires
        !s.waiting_for_proposal_creation,
        s.step == ConsensusStep::Propose,
        proposer == proposer_of(round, h),
        !(s.proposals.contains_key(round) && s.proposals[round] != proposal),
        vr < round,
    ensures
        ({
            let e = ConsensusEvent::BlockProposalReceived { proposal, proposal_round: Some(vr), proposer, round, time };
            let polka = exceeds_two_thirds(tally_amount(s.votes[vr].prevotes_favor, proposal), h.total_power());
            let favored = s.proposal_favors.contains_key(proposal) && s.proposal_favors[proposal];
            let for_it = s.locked_value == Some(proposal) || (favored && s.locked_round is Some
                && s.locked_round->0 < vr);
            &&& (polka && for_it) ==> progress_spec(h, s, e).1 == Some(
                seq![ConsensusResponseView::BroadcastPrevote { proposal, round }],
            )
            &&& (polka && !for_it) ==> progress_spec(h, s, e).1 == Some(
                seq![ConsensusResponseView::BroadcastNilPrevote { round }],
            )
            &&& polka ==> progress_spec(h, s, e).0.step == ConsensusStep::Prevote
            &&& (!polka && !(s.timeout_propose matches Some(t) && time >= t)) ==> progress_spec(h, s, e).1
                == Some(Seq::<ConsensusResponseView>::empty()) && progress_spec(h, s, e).0.step
                == ConsensusStep::Propose
        }),
{
}

/// The precommit timeout, when it starts during a round, expires one timeout
/// after the event that starts it.
pub proof fn law_precommit_timeout_starts_at_the_event(h: HeightInfo, s: ConsensusStateView, e: ConsensusEvent)
    requires
        progress_accepts(h, s, e),
        s.timeout_precommit is None,
        !(e is Start),
        progress_spec(h, s, e).0.round == s.round,
        progress_spec(h, s, e).0.timeout_precommit is Some,
    ensures
        progress_spec(h, s, e).0.timeout_precommit->0 == h.timeout_at(e.spec_time()),
{
    if !s.waiting_for_proposal_creation {
        if let Some((s1, r1)) = handle_event(h, s, e) {
            lemma_handle_event_responses(h, s, e);
        }
    }
}

/// The start of the height starts round 0 at the start's time: its leader
/// proposes its valid value or, having none, asks for a proposal; another node
/// prevotes the value it is locked on, or else starts the propose timeout
/// (which, if it does not end after the start, expires at once).
pub proof fn law_start_begins_round_zero(h: HeightInfo, s: ConsensusStateView, time: Timestamp)
    requires
        progress_accepts(h, s, ConsensusEvent::Start { time }),
        !s.waiting_for_proposal_creation,
    ensures
        ({
            let (s2, r) = progress_spec(h, s, ConsensusEvent::Start { time });
            &&& s2.round == 0
            &&& s2.round_start == time
            &&& s2.timeout_precommit is None
            &&& s2.locked_value == s.locked_value
            &&& s2.valid_value == s.valid_value
            &&& (proposer_of(0, h) != h.this_node_index && s.locked_value is Some) ==> r == Some(
                seq![ConsensusResponseView::BroadcastPrevote { proposal: s.locked_value->0, round: 0 }],
            ) && s2.step == ConsensusStep::Prevote
            &&& (proposer_of(0, h) != h.this_node_index && s.locked_value is None && h.timeout_at(time)
                > time) ==> r == Some(
                Seq::<ConsensusResponseView>::empty(),
            ) && s2.step == ConsensusStep::Propose && s2.timeout_propose is Some && s2.timeout_propose->0
                == h.timeout_at(time)
        }),
{
    lemma_begin_round(h, s, 0, time);
    let (s1, r1) = begin_round(h, s, 0, time);
    if r1.len() == 0 {
        assert(progress_spec(h, s, ConsensusEvent::Start { time }) == (
            handle_timeouts(h, s1, time).0,
            Some(handle_timeouts(h, s1, time).1),
        ));
        if proposer_of(0, h) != h.this_node_index && s.locked_value is None {
            assert(timeout_in_range(h, time));
            assert(s1.timeout_propose->0 == h.timeout_at(time));
            if h.timeout_at(time) > time {
                assert(handle_timeouts(h, s1, time) == (s1, Seq::<ConsensusResponseView>::empty()));
            } else {
                assert(handle_timeouts(h, s1, time) == on_timeout_propose(s1, s1.round));
            }
        }
    }
}

/// This node's judgement of a proposal, in the propose step, is recorded and
/// answered with its prevote: for the proposal when locked on it or when
/// unlocked and favoring it, else nil.
pub proof fn law_judgement_is_prevoted(
    h: HeightInfo,
    s: ConsensusStateView,
    proposal: BlockIdentifier,
    favor: bool,
    time: Timestamp,
)
    requires
        !s.waiting_for_proposal_creation,
        s.step == ConsensusStep::Propose,
    ensures
        ({
            let (s2, r) = progress_spec(h, s, ConsensusEvent::ProposalFavor { proposal, favor, time });
            &&& s2.proposal_favors.contains_key(proposal)
            &&& s2.proposal_favors[proposal] == favor
            &&& s2.step == ConsensusStep::Prevote
            &&& (s.locked_value == Some(proposal) || (favor && s.locked_round is None)) ==> r == Some(
                seq![ConsensusResponseView::BroadcastPrevote { proposal, round: s.round }],
            )
            &&& !(s.locked_value == Some(proposal) || (favor && s.locked_round is None)) ==> r == Some(
                seq![ConsensusResponseView::BroadcastNilPrevote { round: s.round }],
            )
        }),
{
}

/// A precommit of the current round, of a validator not yet counted, that
/// takes the precommits of the precommit step past five sixths starts the
/// precommit timeout one timeout after it, unless one was started already.
pub proof fn law_five_sixths_of_precommits_start_the_timeout(
    h: HeightInfo,
    s: ConsensusStateView,
    e: ConsensusEvent,
    signer: ValidatorIndex,
)
    requires
        progress_accepts(h, s, e),
        !s.waiting_for_proposal_creation,
        s.step == ConsensusStep::Precommit,
        s.timeout_precommit is None,
        (e matches ConsensusEvent::Precommit { signer: v, round, .. } && v == signer && round == s.round)
            || (e matches ConsensusEvent::NilPrecommit { signer: v, round, .. } && v == signer && round
            == s.round),
        !s.votes_in(s.round).precommit_signers.contains(signer),
        exceeds_five_sixths(s.votes_in(s.round).precommits_total + power_of(h, signer), h.total_power()),
    ensures
        progress_spec(h, s, e).0.round == s.round ==> progress_spec(h, s, e).0.timeout_precommit is Some
            && progress_spec(h, s, e).0.timeout_precommit->0 == h.timeout_at(e.spec_time()),
{
}

/// Counting one more item into a chain of hashes aggregates the item's hash
/// onto the chain so far.
pub proof fn law_hash_chain_extends(start: Seq<u8>, items: Seq<Seq<u8>>, item: Seq<u8>)
    ensures
        hash_chain(start, items.push(item)) == aggregate_hash(hash_chain(start, items), item),
{
    assert(items.push(item).drop_last() =~= items);
}

} // verus!
