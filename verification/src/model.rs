use vstd::prelude::*;

use crate::state::{ConsensusStateView, VotesView};
use crate::tally::{first_over, last_over, tally_add, tally_amount, tally_sum};
use crate::types::{
    exceeds_five_sixths, exceeds_two_thirds, BlockIdentifier, ConsensusEvent, ConsensusResponseView,
    ConsensusStep, HeightInfo, Round, Timestamp, ValidatorIndex, VotingPower,
};

verus! {

// What one event does to the state of a height, as functions on values.
/// The round's proposer is determined: the validator set is not empty where
/// the rotation needs it.
pub open spec fn proposer_defined(round: Round, h: HeightInfo) -> bool {
    round < h.consensus_params.repeat_round_for_first_leader || h.validators@.len() > 0
}

/// The proposer of `round`: the first validator for the first
/// `repeat_round_for_first_leader` rounds, then each validator in turn,
/// starting from the first.
pub open spec fn proposer_of(round: Round, h: HeightInfo) -> ValidatorIndex {
    let repeat = h.consensus_params.repeat_round_for_first_leader;
    if round < repeat {
        0
    } else {
        ((round - repeat) % (h.validators@.len() as int)) as usize
    }
}

/// A timeout started at `time` expires at a representable time.
pub open spec fn timeout_in_range(h: HeightInfo, time: Timestamp) -> bool {
    i64::MIN <= h.timeout_at(time) <= i64::MAX
}

/// Voting power of validator `i`.
pub open spec fn power_of(h: HeightInfo, i: ValidatorIndex) -> VotingPower {
    h.validators@[i as int]
}

/// The votes of `v` with the prevote of `signer`, of `power`, for `proposal`
/// or nil, counted.
pub open spec fn add_prevote(
    v: VotesView,
    signer: ValidatorIndex,
    proposal: Option<BlockIdentifier>,
    power: VotingPower,
) -> VotesView {
    VotesView {
        prevotes_total: (v.prevotes_total + power) as u64,
        prevotes_favor: match proposal {
            Some(p) => tally_add(v.prevotes_favor, p, power),
            None => v.prevotes_favor,
        },
        prevote_signers: v.prevote_signers.insert(signer),
        ..v
    }
}

/// The votes of `v` with the precommit of `signer`, of `power`, for
/// `proposal` or nil, counted.
pub open spec fn add_precommit(
    v: VotesView,
    signer: ValidatorIndex,
    proposal: Option<BlockIdentifier>,
    power: VotingPower,
) -> VotesView {
    VotesView {
        precommits_total: (v.precommits_total + power) as u64,
        precommits_favor: match proposal {
            Some(p) => tally_add(v.precommits_favor, p, power),
            None => v.precommits_favor,
        },
        precommit_signers: v.precommit_signers.insert(signer),
        ..v
    }
}

/// `v` with the prevote of `signer` counted, unless it already is.
pub open spec fn count_prevote(
    v: VotesView,
    signer: ValidatorIndex,
    proposal: Option<BlockIdentifier>,
    power: VotingPower,
) -> VotesView {
    if v.prevote_signers.contains(signer) {
        v
    } else {
        add_prevote(v, signer, proposal, power)
    }
}

/// `v` with the precommit of `signer` counted, unless it already is.
pub open spec fn count_precommit(
    v: VotesView,
    signer: ValidatorIndex,
    proposal: Option<BlockIdentifier>,
    power: VotingPower,
) -> VotesView {
    if v.precommit_signers.contains(signer) {
        v
    } else {
        add_precommit(v, signer, proposal, power)
    }
}

/// `s` with the votes of `round` replaced by `v`.
pub open spec fn with_votes(s: ConsensusStateView, round: Round, v: VotesView) -> ConsensusStateView {
    ConsensusStateView { votes: s.votes.insert(round, v), ..s }
}

/// This node prevotes for `proposal` (rather than nil) when it is locked on it,
/// or when it is locked on nothing and favors it.
pub open spec fn prevote_for(s: ConsensusStateView, proposal: BlockIdentifier, favor: bool) -> bool {
    s.locked_value == Some(proposal) || (favor && s.locked_round is None)
}

/// The prevote this node broadcasts in `round`.
pub open spec fn prevote_response(prevote: bool, proposal: BlockIdentifier, round: Round) -> Seq<ConsensusResponseView> {
    if prevote {
        seq![ConsensusResponseView::BroadcastPrevote { proposal, round }]
    } else {
        seq![ConsensusResponseView::BroadcastNilPrevote { round }]
    }
}

/// Starting `round` at `time`: the step becomes `Propose` and the precommit
/// timeout is cleared. The proposer broadcasts its valid value, or, having
/// none, must create a proposal (the third component). Any other node prevotes
/// at once for the value it is locked on, if any; else it starts the propose
/// timeout.
pub open spec fn start_round(h: HeightInfo, s: ConsensusStateView, round: Round, time: Timestamp) -> (
    ConsensusStateView,
    Seq<ConsensusResponseView>,
    bool,
) {
    let s1 = ConsensusStateView {
        round: round,
        step: ConsensusStep::Propose,
        timeout_precommit: None,
        round_start: time,
        ..s
    };
    if proposer_of(round, h) == h.this_node_index {
        match s.valid_value {
            Some(v) => (s1, seq![ConsensusResponseView::BroadcastProposal { proposal: v, round }], false),
            None => (s1, seq![], true),
        }
    } else {
        match s.locked_value {
            Some(v) => (
                ConsensusStateView { step: ConsensusStep::Prevote, ..s1 },
                seq![ConsensusResponseView::BroadcastPrevote { proposal: v, round }],
                false,
            ),
            None => (
                ConsensusStateView { timeout_propose: Some(h.timeout_at(time) as i64), ..s1 },
                seq![],
                false,
            ),
        }
    }
}

/// Starting `round` at `time`; a proposer with nothing to propose waits for
/// its proposal to be created and asks for it.
pub open spec fn begin_round(h: HeightInfo, s: ConsensusStateView, round: Round, time: Timestamp) -> (
    ConsensusStateView,
    Seq<ConsensusResponseView>,
) {
    let (s1, r, pending) = start_round(h, s, round, time);
    if pending {
        (
            ConsensusStateView { waiting_for_proposal_creation: true, ..s1 },
            seq![ConsensusResponseView::CreateProposal { round }],
        )
    } else {
        (s1, r)
    }
}

pub open spec fn start_round_accepts(h: HeightInfo, s: ConsensusStateView, round: Round, time: Timestamp) -> bool {
    &&& proposer_defined(round, h)
    &&& (proposer_of(round, h) != h.this_node_index && s.locked_value is None) ==> timeout_in_range(h, time)
}

/// A proposal without a valid round: if this node has judged it, it prevotes.
pub open spec fn on_proposal(s: ConsensusStateView, proposal: BlockIdentifier, round: Round) -> (
    ConsensusStateView,
    Seq<ConsensusResponseView>,
) {
    if s.proposal_favors.contains_key(proposal) {
        (
            ConsensusStateView { step: ConsensusStep::Prevote, ..s },
            prevote_response(prevote_for(s, proposal, s.proposal_favors[proposal]), proposal, round),
        )
    } else {
        (s, seq![])
    }
}

/// This node judged `proposal`: it records the judgement, counts its own
/// prevote and precommit in `round` (for the proposal if it favors it, else
/// nil) unless they are counted already, and prevotes.
pub open spec fn on_proposal_favor(
    h: HeightInfo,
    s: ConsensusStateView,
    proposal: BlockIdentifier,
    favor: bool,
    round: Round,
) -> (ConsensusStateView, Seq<ConsensusResponseView>) {
    let power = power_of(h, h.this_node_index);
    let voted = if favor {
        Some(proposal)
    } else {
        None
    };
    let me = h.this_node_index;
    let v = count_precommit(count_prevote(s.votes_in(round), me, voted, power), me, voted, power);
    let s1 = ConsensusStateView {
        step: ConsensusStep::Prevote,
        proposal_favors: s.proposal_favors.insert(proposal, favor),
        votes: s.votes.insert(round, v),
        ..s
    };
    (s1, prevote_response(prevote_for(s, proposal, favor), proposal, round))
}

/// A proposal with valid round `valid_round`: if more than two thirds prevoted
/// for it in that round, this node prevotes, for it when locked on it or when
/// it favors it and its lock is older than `valid_round`.
pub open spec fn on_4f_favor_prevote_propose(
    h: HeightInfo,
    s: ConsensusStateView,
    proposal: BlockIdentifier,
    round: Round,
    valid_round: Round,
) -> (ConsensusStateView, Seq<ConsensusResponseView>) {
    let prevotes = tally_amount(s.votes[valid_round].prevotes_favor, proposal);
    let favor = s.proposal_favors.contains_key(proposal) && s.proposal_favors[proposal];
    let lock_older = match s.locked_round {
        Some(lr) => lr < valid_round,
        None => false,
    };
    if exceeds_two_thirds(prevotes, h.total_power()) {
        (
            ConsensusStateView { step: ConsensusStep::Prevote, ..s },
            prevote_response(
                s.locked_value == Some(proposal) || (favor && lock_older),
                proposal,
                round,
            ),
        )
    } else {
        (s, seq![])
    }
}

/// More than two thirds prevoted in `round`. Unless already locked, every
/// proposal with more than two thirds becomes valid (the last in increasing
/// order stays), and in the prevote step this node locks on the first and
/// precommits for it.
pub open spec fn on_4f_prevote(h: HeightInfo, s: ConsensusStateView, round: Round) -> (
    ConsensusStateView,
    Seq<ConsensusResponseView>,
) {
    let t = s.votes[round].prevotes_favor;
    if s.locked_value is None && first_over(t, h.total_power()) is Some {
        let first = first_over(t, h.total_power())->0;
        let last = last_over(t, h.total_power())->0;
        let s1 = ConsensusStateView { valid_round: Some(round), valid_value: Some(last), ..s };
        if s.step == ConsensusStep::Prevote {
            (
                ConsensusStateView {
                    step: ConsensusStep::Precommit,
                    locked_round: Some(round),
                    locked_value: Some(first),
                    ..s1
                },
                seq![ConsensusResponseView::BroadcastPrecommit { proposal: first, round: s.round }],
            )
        } else {
            (s1, seq![])
        }
    } else {
        (s, seq![])
    }
}

/// More than two thirds prevoted in `round`, in the prevote step: if more than
/// two thirds prevoted nil, this node precommits nil.
pub open spec fn on_4f_nilprevote(h: HeightInfo, s: ConsensusStateView, round: Round) -> (
    ConsensusStateView,
    Seq<ConsensusResponseView>,
) {
    let v = s.votes[round];
    let nil = v.prevotes_total - tally_sum(v.prevotes_favor);
    if exceeds_two_thirds(nil, h.total_power()) {
        (
            ConsensusStateView { step: ConsensusStep::Precommit, ..s },
            seq![ConsensusResponseView::BroadcastNilPrecommit { round: s.round }],
        )
    } else {
        (s, seq![])
    }
}

/// More than five sixths prevoted in `round`: this node precommits, for the
/// first proposal with more than two thirds, else nil. Precommitting a
/// proposal locks on it, unless this node is already locked.
pub open spec fn on_5f_prevote(h: HeightInfo, s: ConsensusStateView, round: Round) -> (
    ConsensusStateView,
    Seq<ConsensusResponseView>,
) {
    let s1 = ConsensusStateView { step: ConsensusStep::Precommit, ..s };
    match first_over(s.votes[round].prevotes_favor, h.total_power()) {
        Some(p) => (
            if s.locked_value is None {
                ConsensusStateView {
                    locked_value: Some(p),
                    locked_round: Some(round),
                    valid_value: Some(p),
                    valid_round: Some(round),
                    ..s1
                }
            } else {
                s1
            },
            seq![ConsensusResponseView::BroadcastPrecommit { proposal: p, round: s.round }],
        ),
        None => (s1, seq![ConsensusResponseView::BroadcastNilPrecommit { round: s.round }]),
    }
}

/// More than five sixths precommitted: the precommit timeout starts.
pub open spec fn on_5f_precommit(h: HeightInfo, s: ConsensusStateView, time: Timestamp) -> (
    ConsensusStateView,
    Seq<ConsensusResponseView>,
) {
    (ConsensusStateView { timeout_precommit: Some(h.timeout_at(time) as i64), ..s }, seq![])
}

/// More than two thirds precommitted in `round`: the first proposal with more
/// than two thirds of the precommits is finalized.
pub open spec fn on_4f_favor_precommit(h: HeightInfo, s: ConsensusStateView, round: Round) -> (
    ConsensusStateView,
    Seq<ConsensusResponseView>,
) {
    match first_over(s.votes[round].precommits_favor, h.total_power()) {
        Some(p) => (s, seq![ConsensusResponseView::FinalizeBlock { proposal: p }]),
        None => (s, seq![]),
    }
}

/// The propose timeout expired in `round`: this node prevotes nil.
pub open spec fn on_timeout_propose(s: ConsensusStateView, round: Round) -> (
    ConsensusStateView,
    Seq<ConsensusResponseView>,
) {
    if s.round == round && s.step == ConsensusStep::Propose {
        (
            ConsensusStateView { step: ConsensusStep::Prevote, timeout_propose: None, ..s },
            seq![ConsensusResponseView::BroadcastNilPrevote { round }],
        )
    } else {
        (s, seq![])
    }
}

/// The precommit timeout expired in `round`: the next round starts.
pub open spec fn on_timeout_precommit(h: HeightInfo, s: ConsensusStateView, round: Round, time: Timestamp) -> (
    ConsensusStateView,
    Seq<ConsensusResponseView>,
) {
    if s.round == round && s.step == ConsensusStep::Precommit {
        let s1 = ConsensusStateView { step: ConsensusStep::Propose, timeout_precommit: None, ..s };
        begin_round(h, s1, (round + 1) as usize, time)
    } else {
        (s, seq![])
    }
}

/// A prevote of `signer` in the current round `round`, for `proposal` or nil.
/// A validator's prevote is counted once in a round: a second one is ignored.
pub open spec fn on_prevote(
    h: HeightInfo,
    s: ConsensusStateView,
    proposal: Option<BlockIdentifier>,
    signer: ValidatorIndex,
    round: Round,
) -> (ConsensusStateView, Seq<ConsensusResponseView>) {
    let v = add_prevote(s.votes_in(round), signer, proposal, power_of(h, signer));
    let s1 = with_votes(s, round, v);
    let total = h.total_power();
    if s.votes_in(round).prevote_signers.contains(signer) {
        (s, seq![])
    } else if exceeds_five_sixths(v.prevotes_total as int, total) && s.step == ConsensusStep::Prevote {
        on_5f_prevote(h, s1, round)
    } else if exceeds_two_thirds(v.prevotes_total as int, total) {
        match proposal {
            Some(_) => if s.step == ConsensusStep::Prevote || s.step == ConsensusStep::Precommit {
                on_4f_prevote(h, s1, round)
            } else {
                (s1, seq![])
            },
            None => if s.step == ConsensusStep::Prevote {
                on_4f_nilprevote(h, s1, round)
            } else {
                (s1, seq![])
            },
        }
    } else {
        (s1, seq![])
    }
}

/// The precommit of the current round `round` starts the precommit timeout.
pub open spec fn precommit_starts_timeout(h: HeightInfo, s: ConsensusStateView, v: VotesView) -> bool {
    exceeds_five_sixths(v.precommits_total as int, h.total_power()) && s.step == ConsensusStep::Precommit
        && s.timeout_precommit is None
}

/// A precommit of `signer` in the current round `round`, for `proposal` or
/// nil. A validator's precommit is counted once in a round: a second one is
/// ignored.
pub open spec fn on_precommit(
    h: HeightInfo,
    s: ConsensusStateView,
    proposal: Option<BlockIdentifier>,
    signer: ValidatorIndex,
    round: Round,
    time: Timestamp,
) -> (ConsensusStateView, Seq<ConsensusResponseView>) {
    let v = add_precommit(s.votes_in(round), signer, proposal, power_of(h, signer));
    let s1 = with_votes(s, round, v);
    let s2 = if precommit_starts_timeout(h, s, v) {
        on_5f_precommit(h, s1, time).0
    } else {
        s1
    };
    if s.votes_in(round).precommit_signers.contains(signer) {
        (s, seq![])
    } else if proposal is Some && exceeds_two_thirds(v.precommits_total as int, h.total_power()) && s.step
        == ConsensusStep::Precommit {
        on_4f_favor_precommit(h, s2, round)
    } else {
        (s2, seq![])
    }
}

/// `proposal` is a second, different proposal of the proposer of `round`.
pub open spec fn is_equivocation(s: ConsensusStateView, proposal: BlockIdentifier, round: Round) -> bool {
    s.proposals.contains_key(round) && s.proposals[round] != proposal
}

/// What an event does when no proposal creation is awaited, before timeouts
/// are looked at; `None` where the event is ignored.
pub open spec fn handle_event(h: HeightInfo, s: ConsensusStateView, e: ConsensusEvent) -> Option<
    (ConsensusStateView, Seq<ConsensusResponseView>),
> {
    match e {
        ConsensusEvent::Start { time } => Some(begin_round(h, s, 0, time)),
        ConsensusEvent::BlockProposalCreated { .. } => None,
        ConsensusEvent::BlockProposalReceived { proposal, proposal_round, proposer, round, .. } => {
            if proposer != proposer_of(round, h) {
                Some((s, seq![]))
            } else if is_equivocation(s, proposal, round) {
                Some(
                    (
                        s,
                        seq![
                            ConsensusResponseView::ViolationReport {
                                violator: proposer,
                                description: Seq::empty(),
                            },
                        ],
                    ),
                )
            } else {
                let s1 = ConsensusStateView { proposals: s.proposals.insert(round, proposal), ..s };
                if s.step == ConsensusStep::Propose {
                    match proposal_round {
                        Some(vr) => if vr < round {
                            Some(on_4f_favor_prevote_propose(h, s1, proposal, round, vr))
                        } else {
                            Some((s1, seq![]))
                        },
                        None => Some(on_proposal(s1, proposal, round)),
                    }
                } else {
                    Some((s1, seq![]))
                }
            }
        },
        ConsensusEvent::ProposalFavor { proposal, favor, .. } => {
            if s.step == ConsensusStep::Propose {
                Some(on_proposal_favor(h, s, proposal, favor, s.round))
            } else {
                Some((s, seq![]))
            }
        },
        ConsensusEvent::Timer { .. } => Some((s, seq![])),
        ConsensusEvent::Prevote { proposal, signer, round, .. } => if round != s.round {
            None
        } else {
            Some(on_prevote(h, s, Some(proposal), signer, round))
        },
        ConsensusEvent::NilPrevote { signer, round, .. } => if round != s.round {
            None
        } else {
            Some(on_prevote(h, s, None, signer, round))
        },
        ConsensusEvent::Precommit { proposal, signer, round, time } => if round != s.round {
            None
        } else {
            Some(on_precommit(h, s, Some(proposal), signer, round, time))
        },
        ConsensusEvent::NilPrecommit { signer, round, time } => if round != s.round {
            None
        } else {
            Some(on_precommit(h, s, None, signer, round, time))
        },
    }
}

/// When the precommit step of the current round times out: at the precommit
/// timeout if one was started, else when the round's own timeout, counted from
/// the round's start, expires.
pub open spec fn precommit_deadline(h: HeightInfo, s: ConsensusStateView) -> int {
    match s.timeout_precommit {
        Some(t) => t as int,
        None => h.timeout_at(s.round_start),
    }
}

/// The expired timeout of the current step, if any, at `time`.
pub open spec fn handle_timeouts(h: HeightInfo, s: ConsensusStateView, time: Timestamp) -> (
    ConsensusStateView,
    Seq<ConsensusResponseView>,
) {
    match s.step {
        ConsensusStep::Propose => match s.timeout_propose {
            Some(t) => if time >= t {
                on_timeout_propose(s, s.round)
            } else {
                (s, seq![])
            },
            None => (s, seq![]),
        },
        ConsensusStep::Precommit => if time >= precommit_deadline(h, s) {
            on_timeout_precommit(h, s, s.round, time)
        } else {
            (s, seq![])
        },
        ConsensusStep::Prevote => (s, seq![]),
    }
}

/// The state after event `e`, and the responses (`None` where the event is
/// ignored: a vote of another round, a created proposal that is not awaited,
/// or anything but the awaited proposal while one is awaited). Where the event
/// itself asks for nothing, the expired timeout of the step is handled.
pub open spec fn progress_spec(h: HeightInfo, s: ConsensusStateView, e: ConsensusEvent) -> (
    ConsensusStateView,
    Option<Seq<ConsensusResponseView>>,
) {
    if s.waiting_for_proposal_creation {
        match e {
            ConsensusEvent::BlockProposalCreated { proposal, round, .. } => if s.round != round {
                (s, None)
            } else {
                (
                    ConsensusStateView { waiting_for_proposal_creation: false, ..s },
                    Some(seq![ConsensusResponseView::BroadcastProposal { proposal, round: s.round }]),
                )
            },
            _ => (s, None),
        }
    } else {
        match handle_event(h, s, e) {
            None => (s, None),
            Some((s1, r)) => if r.len() > 0 {
                (s1, Some(r))
            } else {
                let (s2, r2) = handle_timeouts(h, s1, e.spec_time());
                (s2, Some(r2))
            },
        }
    }
}

/// A vote of `signer` can be counted in the current round: the signer is a
/// validator and the round's total does not overflow.
pub open spec fn vote_countable(h: HeightInfo, total: VotingPower, signer: ValidatorIndex) -> bool {
    signer < h.validators@.len() && total + power_of(h, signer) <= u64::MAX
}

/// The event can be handled without an index out of bounds, a missing round
/// or an arithmetic overflow.
pub open spec fn event_accepts(h: HeightInfo, s: ConsensusStateView, e: ConsensusEvent) -> bool {
    match e {
        ConsensusEvent::Start { time } => start_round_accepts(h, s, 0, time),
        ConsensusEvent::BlockProposalReceived { proposal, proposal_round, proposer, round, .. } => {
            &&& proposer_defined(round, h)
            &&& (proposer == proposer_of(round, h) && !is_equivocation(s, proposal, round) && s.step
                == ConsensusStep::Propose) ==> match proposal_round {
                Some(vr) => vr < round ==> s.votes.contains_key(vr),
                None => true,
            }
        },
        ConsensusEvent::ProposalFavor { .. } => s.step == ConsensusStep::Propose ==> {
            let v = s.votes_in(s.round);
            let me = h.this_node_index;
            &&& me < h.validators@.len()
            &&& !v.prevote_signers.contains(me) ==> v.prevotes_total + power_of(h, me) <= u64::MAX
            &&& !v.precommit_signers.contains(me) ==> v.precommits_total + power_of(h, me) <= u64::MAX
        },
        ConsensusEvent::Prevote { signer, round, .. } => (round == s.round
            && !s.votes_in(round).prevote_signers.contains(signer)) ==> vote_countable(
            h,
            s.votes_in(round).prevotes_total,
            signer,
        ),
        ConsensusEvent::NilPrevote { signer, round, .. } => (round == s.round
            && !s.votes_in(round).prevote_signers.contains(signer)) ==> vote_countable(
            h,
            s.votes_in(round).prevotes_total,
            signer,
        ),
        ConsensusEvent::Precommit { proposal, signer, round, time } => (round == s.round
            && !s.votes_in(round).precommit_signers.contains(signer)) ==> {
            &&& vote_countable(h, s.votes_in(round).precommits_total, signer)
            &&& precommit_starts_timeout(
                h,
                s,
                add_precommit(s.votes_in(round), signer, Some(proposal), power_of(h, signer)),
            ) ==> timeout_in_range(h, time)
        },
        ConsensusEvent::NilPrecommit { signer, round, time } => (round == s.round
            && !s.votes_in(round).precommit_signers.contains(signer)) ==> {
            &&& vote_countable(h, s.votes_in(round).precommits_total, signer)
            &&& precommit_starts_timeout(
                h,
                s,
                add_precommit(s.votes_in(round), signer, None, power_of(h, signer)),
            ) ==> timeout_in_range(h, time)
        },
        _ => true,
    }
}

/// The precommit deadline is representable, and once it has passed the next
/// round can start.
pub open spec fn timeouts_accept(h: HeightInfo, s: ConsensusStateView, time: Timestamp) -> bool {
    s.step == ConsensusStep::Precommit ==> {
        &&& s.timeout_precommit is None ==> timeout_in_range(h, s.round_start)
        &&& time >= precommit_deadline(h, s) ==> {
            let s1 = ConsensusStateView { step: ConsensusStep::Propose, timeout_precommit: None, ..s };
            s.round < usize::MAX && start_round_accepts(h, s1, (s.round + 1) as usize, time)
        }
    }
}

/// `progress` handles `e` in `s` without an index out of bounds, a missing
/// round or an arithmetic overflow.
pub open spec fn progress_accepts(h: HeightInfo, s: ConsensusStateView, e: ConsensusEvent) -> bool {
    !s.waiting_for_proposal_creation ==> {
        &&& event_accepts(h, s, e)
        &&& match handle_event(h, s, e) {
            Some((s1, r)) => r.len() == 0 ==> timeouts_accept(h, s1, e.spec_time()),
            None => true,
        }
    }
}

} // verus!
