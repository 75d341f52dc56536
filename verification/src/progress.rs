use vstd::prelude::*;

use crate::model;
use crate::model::{
    progress_accepts, progress_spec, proposer_defined, proposer_of, start_round_accepts,
    timeout_in_range, vote_countable,
};
use crate::state::{votes_view, ConsensusState, ConsensusStateView, Votes};
use crate::tally::{
    lemma_amount_le_sum, lemma_first_over, lemma_last_over, lemma_tally_add_sorted,
    lemma_tally_add_sum,
};
use crate::types::{
    power_sum, responses_view, BlockIdentifier, ConsensusEvent, ConsensusResponse,
    ConsensusResponseView, ConsensusStep, HeightInfo, Round, Timestamp, ValidatorIndex, VotingPower,
};

verus! {

broadcast use vstd::std_specs::btree::group_btree_axioms;

/// The sum of a prefix is at most the sum of the whole.
proof fn lemma_power_sum_prefix(s: Seq<u64>, i: int)
    requires
        0 <= i <= s.len(),
    ensures
        power_sum(s.take(i)) <= power_sum(s),
    decreases s.len(),
{
    if i < s.len() {
        lemma_power_sum_prefix(s.drop_last(), i);
        assert(s.drop_last().take(i) =~= s.take(i));
    } else {
        assert(s.take(i) =~= s);
    }
}

/// Total voting power of `validators`.
pub fn total_voting_power(validators: &Vec<VotingPower>) -> (total: VotingPower)
    requires
        power_sum(validators@) <= u64::MAX,
    ensures
        total == power_sum(validators@),
{
    let n = validators.len();
    let mut total: u64 = 0;
    let mut i: usize = 0;
    assert(validators@.take(0) =~= Seq::<u64>::empty());
    while i < n
        invariant
            n == validators@.len(),
            0 <= i <= n,
            total == power_sum(validators@.take(i as int)),
            power_sum(validators@) <= u64::MAX,
        decreases n - i,
    {
        proof {
            assert(validators@.take(i + 1).drop_last() =~= validators@.take(i as int));
            lemma_power_sum_prefix(validators@, i + 1);
        }
        total = total + validators[i];
        i = i + 1;
    }
    assert(validators@.take(n as int) =~= validators@);
    total
}

/// The proposer of `round`.
pub fn decide_proposer(round: Round, height_info: &HeightInfo) -> (proposer: ValidatorIndex)
    requires
        proposer_defined(round, *height_info),
    ensures
        proposer == proposer_of(round, *height_info),
{
    let repeat = height_info.consensus_params.repeat_round_for_first_leader;
    if round < repeat {
        0
    } else {
        (round - repeat) % height_info.validators.len()
    }
}

/// The time at which a timeout started at `time` expires.
fn timeout_at(height_info: &HeightInfo, time: Timestamp) -> (t: Timestamp)
    requires
        timeout_in_range(*height_info, time),
    ensures
        t == height_info.timeout_at(time),
{
    time + (height_info.consensus_params.timeout_ms as i64)
}

/// Takes the votes of `round` out of the state.
fn take_votes(state: &mut ConsensusState, round: Round) -> (v: Votes)
    ensures
        v@ == old(state)@.votes_in(round),
        final(state)@ == (ConsensusStateView { votes: old(state)@.votes.remove(round), ..old(state)@ }),
{
    let ghost m = state.votes@;
    let r = state.votes.remove(&round);
    assert(votes_view(state.votes@) =~= votes_view(m).remove(round));
    match r {
        Some(v) => v,
        None => Votes::new(),
    }
}

/// Puts `v` as the votes of `round` into the state.
fn put_votes(state: &mut ConsensusState, round: Round, v: Votes)
    ensures
        final(state)@ == (ConsensusStateView { votes: old(state)@.votes.insert(round, v@), ..old(state)@ }),
{
    let ghost m = state.votes@;
    let ghost vv = v@;
    state.votes.insert(round, v);
    assert(votes_view(state.votes@) =~= votes_view(m).insert(round, vv));
}

/// A single response.
fn respond(response: ConsensusResponse) -> (r: Vec<ConsensusResponse>)
    ensures
        responses_view(r@) == seq![response@],
{
    let r = vec![response];
    assert(responses_view(r@) =~= seq![response@]);
    r
}

/// No response.
fn no_response() -> (r: Vec<ConsensusResponse>)
    ensures
        responses_view(r@) == Seq::<ConsensusResponseView>::empty(),
{
    let r: Vec<ConsensusResponse> = Vec::new();
    assert(responses_view(r@) =~= Seq::<ConsensusResponseView>::empty());
    r
}

/// The prevote this node broadcasts in `round`.
fn prevote_response(prevote: bool, proposal: BlockIdentifier, round: Round) -> (r: Vec<ConsensusResponse>)
    ensures
        responses_view(r@) == model::prevote_response(prevote, proposal, round),
{
    if prevote {
        respond(ConsensusResponse::BroadcastPrevote { proposal, round })
    } else {
        respond(ConsensusResponse::BroadcastNilPrevote { round })
    }
}

/// What starting `round` asks for.
enum StartRoundResponse {
    Normal(Vec<ConsensusResponse>),
    /// This node leads the round and has no valid value to propose: the caller
    /// emits a `CreateProposal` for the round and waits for the proposal.
    Pending,
}

fn start_round(height_info: &HeightInfo, state: &mut ConsensusState, round: Round, time: Timestamp) -> (r:
    StartRoundResponse)
    requires
        start_round_accepts(*height_info, old(state)@, round, time),
    ensures
        final(state)@ == model::start_round(*height_info, old(state)@, round, time).0,
        match r {
            StartRoundResponse::Normal(v) => !model::start_round(*height_info, old(state)@, round, time).2
                && responses_view(v@) == model::start_round(*height_info, old(state)@, round, time).1,
            StartRoundResponse::Pending => model::start_round(*height_info, old(state)@, round, time).2,
        },
{
    state.round = round;
    state.step = ConsensusStep::Propose;
    state.timeout_precommit = None;
    state.round_start = time;
    let proposer = decide_proposer(round, height_info);
    if proposer == height_info.this_node_index {
        if let Some(valid_value) = state.valid_value {
            StartRoundResponse::Normal(
                respond(ConsensusResponse::BroadcastProposal { proposal: valid_value, round }),
            )
        } else {
            StartRoundResponse::Pending
        }
    } else if let Some(locked_value) = state.locked_value {
        // Whatever is proposed, this node can only prevote its lock.
        state.step = ConsensusStep::Prevote;
        StartRoundResponse::Normal(
            respond(ConsensusResponse::BroadcastPrevote { proposal: locked_value, round }),
        )
    } else {
        state.timeout_propose = Some(timeout_at(height_info, time));
        StartRoundResponse::Normal(no_response())
    }
}

fn on_proposal(proposal: BlockIdentifier, state: &mut ConsensusState, round: Round) -> (r: Vec<
    ConsensusResponse,
>)
    ensures
        final(state)@ == model::on_proposal(old(state)@, proposal, round).0,
        responses_view(r@) == model::on_proposal(old(state)@, proposal, round).1,
{
    match state.proposal_favors.get(&proposal) {
        Some(favor) => {
            let favor = *favor;
            state.step = ConsensusStep::Prevote;
            let prevote = state.locked_value == Some(proposal) || (favor
                && state.locked_round.is_none());
            prevote_response(prevote, proposal, round)
        },
        None => no_response(),
    }
}

fn on_proposal_favor(
    proposal: BlockIdentifier,
    favor: bool,
    height_info: &HeightInfo,
    state: &mut ConsensusState,
    round: Round,
) -> (r: Vec<ConsensusResponse>)
    requires
        old(state)@.wf(),
        height_info.this_node_index < height_info.validators@.len(),
        !old(state)@.votes_in(round).prevote_signers.contains(height_info.this_node_index) ==> old(
            state,
        )@.votes_in(round).prevotes_total + height_info.validators@[height_info.this_node_index as int]
            <= u64::MAX,
        !old(state)@.votes_in(round).precommit_signers.contains(height_info.this_node_index) ==> old(
            state,
        )@.votes_in(round).precommits_total + height_info.validators@[height_info.this_node_index as int]
            <= u64::MAX,
    ensures
        final(state)@ == model::on_proposal_favor(*height_info, old(state)@, proposal, favor, round).0,
        responses_view(r@) == model::on_proposal_favor(*height_info, old(state)@, proposal, favor, round).1,
        final(state)@.wf(),
{
    let ghost s0 = state@;
    state.step = ConsensusStep::Prevote;
    state.proposal_favors.insert(proposal, favor);
    let me = height_info.this_node_index;
    let power = height_info.validators[me];
    let mut votes = take_votes(state, round);
    proof {
        assert(votes@.wf());
        lemma_amount_le_sum(votes@.prevotes_favor, proposal);
        lemma_amount_le_sum(votes@.precommits_favor, proposal);
        lemma_tally_add_sorted(votes@.prevotes_favor, proposal, power);
        lemma_tally_add_sorted(votes@.precommits_favor, proposal, power);
    }
    // This node's own votes are counted once.
    if !votes.prevote_signers.contains(&me) {
        proof {
            lemma_tally_add_sum(votes@.prevotes_favor, proposal, power);
        }
        votes.prevotes_total = votes.prevotes_total + power;
        if favor {
            votes.prevotes_favor.add(proposal, power);
        }
        votes.prevote_signers.insert(me);
    }
    if !votes.precommit_signers.contains(&me) {
        proof {
            lemma_tally_add_sum(votes@.precommits_favor, proposal, power);
        }
        votes.precommits_total = votes.precommits_total + power;
        if favor {
            votes.precommits_favor.add(proposal, power);
        }
        votes.precommit_signers.insert(me);
    }
    put_votes(state, round, votes);
    let prevote = state.locked_value == Some(proposal) || (favor && state.locked_round.is_none());
    let r = prevote_response(prevote, proposal, round);
    assert(state@ =~= model::on_proposal_favor(*height_info, s0, proposal, favor, round).0);
    r
}

fn on_4f_favor_prevote_propose(
    proposal: BlockIdentifier,
    height_info: &HeightInfo,
    state: &mut ConsensusState,
    round: Round,
    valid_round: Round,
) -> (r: Vec<ConsensusResponse>)
    requires
        height_info.well_formed(),
        old(state)@.votes.contains_key(valid_round),
    ensures
        final(state)@ == model::on_4f_favor_prevote_propose(
            *height_info,
            old(state)@,
            proposal,
            round,
            valid_round,
        ).0,
        responses_view(r@) == model::on_4f_favor_prevote_propose(
            *height_info,
            old(state)@,
            proposal,
            round,
            valid_round,
        ).1,
{
    let total = total_voting_power(&height_info.validators);
    let locked_prevotes = state.votes.get(&valid_round).unwrap().prevotes_favor.amount(proposal);
    let favor_proposal = match state.proposal_favors.get(&proposal) {
        Some(f) => *f,
        None => false,
    };
    if (locked_prevotes as u128) * 3 > (total as u128) * 2 {
        state.step = ConsensusStep::Prevote;
        let lock_older = match state.locked_round {
            Some(lr) => lr < valid_round,
            None => false,
        };
        let prevote = state.locked_value == Some(proposal) || (favor_proposal && lock_older);
        prevote_response(prevote, proposal, round)
    } else {
        no_response()
    }
}

fn on_4f_prevote(height_info: &HeightInfo, state: &mut ConsensusState, round: Round) -> (r: Vec<
    ConsensusResponse,
>)
    requires
        height_info.well_formed(),
        old(state)@.votes.contains_key(round),
    ensures
        final(state)@ == model::on_4f_prevote(*height_info, old(state)@, round).0,
        responses_view(r@) == model::on_4f_prevote(*height_info, old(state)@, round).1,
{
    // A locked value is set only once in a height.
    if state.locked_value.is_none() {
        let total = total_voting_power(&height_info.validators);
        let tally = &state.votes.get(&round).unwrap().prevotes_favor;
        let first = tally.first_over(total);
        let last = tally.last_over(total);
        proof {
            lemma_first_over(tally@, total as int);
            lemma_last_over(tally@, total as int);
        }
        if let Some(first) = first {
            let last = last.unwrap();
            state.valid_round = Some(round);
            state.valid_value = Some(last);
            if state.step == ConsensusStep::Prevote {
                state.step = ConsensusStep::Precommit;
                state.locked_round = Some(round);
                state.locked_value = Some(first);
                return respond(ConsensusResponse::BroadcastPrecommit { proposal: first, round: state.round });
            }
        }
    }
    no_response()
}

fn on_4f_nilprevote(height_info: &HeightInfo, state: &mut ConsensusState, round: Round) -> (r: Vec<
    ConsensusResponse,
>)
    requires
        height_info.well_formed(),
        old(state)@.wf(),
        old(state)@.votes.contains_key(round),
    ensures
        final(state)@ == model::on_4f_nilprevote(*height_info, old(state)@, round).0,
        responses_view(r@) == model::on_4f_nilprevote(*height_info, old(state)@, round).1,
{
    let total = total_voting_power(&height_info.validators);
    let votes = state.votes.get(&round).unwrap();
    assert(votes@.wf());
    let current_prevotes = votes.prevotes_total;
    let current_favor_prevotes = votes.prevotes_favor.sum();
    let current_nil_votes = current_prevotes - current_favor_prevotes;
    if (current_nil_votes as u128) * 3 > (total as u128) * 2 {
        state.step = ConsensusStep::Precommit;
        respond(ConsensusResponse::BroadcastNilPrecommit { round: state.round })
    } else {
        no_response()
    }
}

fn on_5f_prevote(height_info: &HeightInfo, state: &mut ConsensusState, round: Round) -> (r: Vec<
    ConsensusResponse,
>)
    requires
        height_info.well_formed(),
        old(state)@.votes.contains_key(round),
    ensures
        final(state)@ == model::on_5f_prevote(*height_info, old(state)@, round).0,
        responses_view(r@) == model::on_5f_prevote(*height_info, old(state)@, round).1,
{
    let total = total_voting_power(&height_info.validators);
    state.step = ConsensusStep::Precommit;
    match state.votes.get(&round).unwrap().prevotes_favor.first_over(total) {
        Some(proposal) => {
            // A locked value is set only once in a height.
            if state.locked_value.is_none() {
                state.locked_round = Some(round);
                state.locked_value = Some(proposal);
                state.valid_round = Some(round);
                state.valid_value = Some(proposal);
            }
            respond(ConsensusResponse::BroadcastPrecommit { proposal, round: state.round })
        },
        None => respond(ConsensusResponse::BroadcastNilPrecommit { round: state.round }),
    }
}

fn on_5f_precommit(height_info: &HeightInfo, state: &mut ConsensusState, time: Timestamp) -> (r: Vec<
    ConsensusResponse,
>)
    requires
        timeout_in_range(*height_info, time),
    ensures
        final(state)@ == model::on_5f_precommit(*height_info, old(state)@, time).0,
        responses_view(r@) == model::on_5f_precommit(*height_info, old(state)@, time).1,
{
    state.timeout_precommit = Some(timeout_at(height_info, time));
    no_response()
}

fn on_4f_favor_precommit(height_info: &HeightInfo, state: &mut ConsensusState, round: Round) -> (r: Vec<
    ConsensusResponse,
>)
    requires
        height_info.well_formed(),
        old(state)@.votes.contains_key(round),
    ensures
        final(state)@ == model::on_4f_favor_precommit(*height_info, old(state)@, round).0,
        responses_view(r@) == model::on_4f_favor_precommit(*height_info, old(state)@, round).1,
{
    let total = total_voting_power(&height_info.validators);
    match state.votes.get(&round).unwrap().precommits_favor.first_over(total) {
        // Updating the validators and the state happens outside the height.
        Some(proposal) => respond(ConsensusResponse::FinalizeBlock { proposal }),
        None => no_response(),
    }
}

fn on_timeout_propose(_height_info: &HeightInfo, state: &mut ConsensusState, round: Round) -> (r: Vec<
    ConsensusResponse,
>)
    ensures
        final(state)@ == model::on_timeout_propose(old(state)@, round).0,
        responses_view(r@) == model::on_timeout_propose(old(state)@, round).1,
{
    if state.round == round && state.step == ConsensusStep::Propose {
        state.step = ConsensusStep::Prevote;
        state.timeout_propose = None;
        respond(ConsensusResponse::BroadcastNilPrevote { round })
    } else {
        no_response()
    }
}

fn on_timeout_precommit(
    height_info: &HeightInfo,
    state: &mut ConsensusState,
    round: Round,
    time: Timestamp,
) -> (r: Vec<ConsensusResponse>)
    requires
        (old(state)@.round == round && old(state)@.step == ConsensusStep::Precommit) ==> (round
            < usize::MAX && start_round_accepts(*height_info, old(state)@, (round + 1) as usize, time)),
    ensures
        final(state)@ == model::on_timeout_precommit(*height_info, old(state)@, round, time).0,
        responses_view(r@) == model::on_timeout_precommit(*height_info, old(state)@, round, time).1,
{
    if state.round == round && state.step == ConsensusStep::Precommit {
        state.step = ConsensusStep::Propose;
        state.timeout_precommit = None;
        match start_round(height_info, state, round + 1, time) {
            StartRoundResponse::Normal(r) => r,
            StartRoundResponse::Pending => {
                state.waiting_for_proposal_creation = true;
                respond(ConsensusResponse::CreateProposal { round: round + 1 })
            },
        }
    } else {
        no_response()
    }
}

/// Counts a prevote of `signer` in the current round `round`, for `proposal`
/// or nil, then acts on the quorum it completes.
fn on_prevote(
    height_info: &HeightInfo,
    state: &mut ConsensusState,
    proposal: Option<BlockIdentifier>,
    signer: ValidatorIndex,
    round: Round,
) -> (r: Vec<ConsensusResponse>)
    requires
        height_info.well_formed(),
        old(state)@.wf(),
        !old(state)@.votes_in(round).prevote_signers.contains(signer) ==> vote_countable(
            *height_info,
            old(state)@.votes_in(round).prevotes_total,
            signer,
        ),
    ensures
        final(state)@ == model::on_prevote(*height_info, old(state)@, proposal, signer, round).0,
        responses_view(r@) == model::on_prevote(*height_info, old(state)@, proposal, signer, round).1,
        final(state)@.wf(),
{
    let ghost s0 = state@;
    let duplicate = match state.votes.get(&round) {
        Some(votes) => votes.prevote_signers.contains(&signer),
        None => false,
    };
    if duplicate {
        // A validator's prevote is counted once in a round.
        return no_response();
    }
    let total = total_voting_power(&height_info.validators);
    let voting_power = height_info.validators[signer];
    let mut votes = take_votes(state, round);
    proof {
        assert(votes@.wf());
        if let Some(p) = proposal {
            lemma_amount_le_sum(votes@.prevotes_favor, p);
            lemma_tally_add_sum(votes@.prevotes_favor, p, voting_power);
            lemma_tally_add_sorted(votes@.prevotes_favor, p, voting_power);
        }
    }
    votes.prevotes_total = votes.prevotes_total + voting_power;
    if let Some(p) = proposal {
        votes.prevotes_favor.add(p, voting_power);
    }
    votes.prevote_signers.insert(signer);
    let prevotes_total = votes.prevotes_total;
    put_votes(state, round, votes);
    assert(state@ =~= model::with_votes(
        s0,
        round,
        model::add_prevote(s0.votes_in(round), signer, proposal, voting_power),
    ));
    if (prevotes_total as u128) * 6 > (total as u128) * 5 && state.step == ConsensusStep::Prevote {
        on_5f_prevote(height_info, state, round)
    } else if (prevotes_total as u128) * 3 > (total as u128) * 2 {
        if proposal.is_some() {
            if state.step == ConsensusStep::Prevote || state.step == ConsensusStep::Precommit {
                on_4f_prevote(height_info, state, round)
            } else {
                no_response()
            }
        } else {
            if state.step == ConsensusStep::Prevote {
                on_4f_nilprevote(height_info, state, round)
            } else {
                no_response()
            }
        }
    } else {
        no_response()
    }
}

/// Counts a precommit of `signer` in the current round `round`, for
/// `proposal` or nil, then acts on the quorum it completes.
fn on_precommit(
    height_info: &HeightInfo,
    state: &mut ConsensusState,
    proposal: Option<BlockIdentifier>,
    signer: ValidatorIndex,
    round: Round,
    time: Timestamp,
) -> (r: Vec<ConsensusResponse>)
    requires
        height_info.well_formed(),
        old(state)@.wf(),
        !old(state)@.votes_in(round).precommit_signers.contains(signer) ==> {
            &&& vote_countable(*height_info, old(state)@.votes_in(round).precommits_total, signer)
            &&& model::precommit_starts_timeout(
                *height_info,
                old(state)@,
                model::add_precommit(
                    old(state)@.votes_in(round),
                    signer,
                    proposal,
                    height_info.validators@[signer as int],
                ),
            ) ==> timeout_in_range(*height_info, time)
        },
    ensures
        final(state)@ == model::on_precommit(*height_info, old(state)@, proposal, signer, round, time).0,
        responses_view(r@) == model::on_precommit(*height_info, old(state)@, proposal, signer, round, time).1,
        final(state)@.wf(),
{
    let ghost s0 = state@;
    let duplicate = match state.votes.get(&round) {
        Some(votes) => votes.precommit_signers.contains(&signer),
        None => false,
    };
    if duplicate {
        // A validator's precommit is counted once in a round.
        return no_response();
    }
    let total = total_voting_power(&height_info.validators);
    let voting_power = height_info.validators[signer];
    let mut votes = take_votes(state, round);
    proof {
        assert(votes@.wf());
        if let Some(p) = proposal {
            lemma_amount_le_sum(votes@.precommits_favor, p);
            lemma_tally_add_sum(votes@.precommits_favor, p, voting_power);
            lemma_tally_add_sorted(votes@.precommits_favor, p, voting_power);
        }
    }
    votes.precommits_total = votes.precommits_total + voting_power;
    if let Some(p) = proposal {
        votes.precommits_favor.add(p, voting_power);
    }
    votes.precommit_signers.insert(signer);
    let precommits_total = votes.precommits_total;
    put_votes(state, round, votes);
    assert(state@ =~= model::with_votes(
        s0,
        round,
        model::add_precommit(s0.votes_in(round), signer, proposal, voting_power),
    ));
    if (precommits_total as u128) * 6 > (total as u128) * 5 && state.step == ConsensusStep::Precommit
        && state.timeout_precommit.is_none() {
        on_5f_precommit(height_info, state, time);
    }
    // A proposal with more than two thirds of the precommits is finalized,
    // whether or not the precommit timeout has just started.
    if proposal.is_some() && (precommits_total as u128) * 3 > (total as u128) * 2 && state.step
        == ConsensusStep::Precommit {
        on_4f_favor_precommit(height_info, state, round)
    } else {
        no_response()
    }
}

/// A proposal from the proposer of `round`, recorded in the state: in the
/// propose step this node acts on it.
fn on_proposal_received(
    proposal: BlockIdentifier,
    proposal_round: Option<Round>,
    height_info: &HeightInfo,
    state: &mut ConsensusState,
    round: Round,
) -> (r: Vec<ConsensusResponse>)
    requires
        height_info.well_formed(),
        (old(state)@.step == ConsensusStep::Propose && (proposal_round is Some && proposal_round->0 < round))
            ==> old(state)@.votes.contains_key(proposal_round->0),
    ensures
        (old(state)@.step == ConsensusStep::Propose && (proposal_round is Some && proposal_round->0 < round))
            ==> final(state)@ == model::on_4f_favor_prevote_propose(
            *height_info,
            old(state)@,
            proposal,
            round,
            proposal_round->0,
        ).0 && responses_view(r@) == model::on_4f_favor_prevote_propose(
            *height_info,
            old(state)@,
            proposal,
            round,
            proposal_round->0,
        ).1,
        (old(state)@.step == ConsensusStep::Propose && proposal_round is None) ==> final(state)@
            == model::on_proposal(old(state)@, proposal, round).0 && responses_view(r@)
            == model::on_proposal(old(state)@, proposal, round).1,
        !(old(state)@.step == ConsensusStep::Propose && (proposal_round is None || ((proposal_round is Some && proposal_round->0 < round))))
            ==> final(state)@ == old(state)@ && responses_view(r@) == Seq::<ConsensusResponseView>::empty(),
{
    if state.step == ConsensusStep::Propose {
        match proposal_round {
            Some(vr) => {
                if vr < round {
                    on_4f_favor_prevote_propose(proposal, height_info, state, round, vr)
                } else {
                    no_response()
                }
            },
            None => on_proposal(proposal, state, round),
        }
    } else {
        no_response()
    }
}

/// The answer `r`, as values.
pub open spec fn answer_view(r: Option<Vec<ConsensusResponse>>) -> Option<Seq<ConsensusResponseView>> {
    match r {
        Some(v) => Some(responses_view(v@)),
        None => None,
    }
}

/// Handles `event` in `state`: updates the state and returns what the node
/// must do, or `None` where the event is ignored.
pub fn progress(height_info: &HeightInfo, state: &mut ConsensusState, event: ConsensusEvent) -> (r:
    Option<Vec<ConsensusResponse>>)
    requires
        height_info.well_formed(),
        old(state)@.wf(),
        progress_accepts(*height_info, old(state)@, event),
    ensures
        final(state)@ == progress_spec(*height_info, old(state)@, event).0,
        answer_view(r) == progress_spec(*height_info, old(state)@, event).1,
        final(state)@.wf(),
{
    let ghost s0 = state@;
    let result = if state.waiting_for_proposal_creation {
        match event {
            ConsensusEvent::BlockProposalCreated { proposal, round, .. } => {
                if state.round != round {
                    return None;
                }
                state.waiting_for_proposal_creation = false;
                respond(ConsensusResponse::BroadcastProposal { proposal, round: state.round })
            },
            // Nothing to do while a proposal is being created.
            _ => {
                return None;
            },
        }
    } else {
        match event {
            ConsensusEvent::Start { time } => match start_round(height_info, state, 0, time) {
                StartRoundResponse::Normal(r) => r,
                StartRoundResponse::Pending => {
                    state.waiting_for_proposal_creation = true;
                    respond(ConsensusResponse::CreateProposal { round: 0 })
                },
            },
            ConsensusEvent::BlockProposalCreated { .. } => {
                return None;
            },
            ConsensusEvent::BlockProposalReceived { proposal, proposal_round, proposer, round, .. } => {
                let current_proposer = decide_proposer(round, height_info);
                if proposer != current_proposer {
                    no_response()
                } else if let Some(earlier) = state.proposals.get(&round) {
                    if *earlier != proposal {
                        // The proposer has proposed two different blocks in one round.
                        respond(
                            ConsensusResponse::ViolationReport {
                                violator: proposer,
                                description: String::new(),
                            },
                        )
                    } else {
                        assert(state@.proposals.insert(round, proposal) =~= state@.proposals);
                        on_proposal_received(proposal, proposal_round, height_info, state, round)
                    }
                } else {
                    state.proposals.insert(round, proposal);
                    on_proposal_received(proposal, proposal_round, height_info, state, round)
                }
            },
            ConsensusEvent::ProposalFavor { proposal, favor, .. } => {
                if state.step == ConsensusStep::Propose {
                    let round = state.round;
                    on_proposal_favor(proposal, favor, height_info, state, round)
                } else {
                    no_response()
                }
            },
            // Timeouts are handled below.
            ConsensusEvent::Timer { .. } => no_response(),
            ConsensusEvent::Prevote { proposal, signer, round, .. } => {
                if round != state.round {
                    return None;
                }
                on_prevote(height_info, state, Some(proposal), signer, round)
            },
            ConsensusEvent::NilPrevote { signer, round, .. } => {
                if round != state.round {
                    return None;
                }
                on_prevote(height_info, state, None, signer, round)
            },
            ConsensusEvent::Precommit { proposal, signer, round, time } => {
                if round != state.round {
                    return None;
                }
                on_precommit(height_info, state, Some(proposal), signer, round, time)
            },
            ConsensusEvent::NilPrecommit { signer, round, time } => {
                if round != state.round {
                    return None;
                }
                on_precommit(height_info, state, None, signer, round, time)
            },
        }
    };
    assert(s0.waiting_for_proposal_creation || model::handle_event(*height_info, s0, event) == Some(
        (state@, responses_view(result@)),
    ));
    if !result.is_empty() {
        Some(result)
    } else {
        let ghost s1 = state@;
        let time = event.time();
        let responses = match state.step {
            ConsensusStep::Propose => match state.timeout_propose {
                Some(timeout_propose) => if time >= timeout_propose {
                    let round = state.round;
                    on_timeout_propose(height_info, state, round)
                } else {
                    no_response()
                },
                None => no_response(),
            },
            ConsensusStep::Precommit => {
                let deadline = match state.timeout_precommit {
                    Some(timeout_precommit) => timeout_precommit,
                    None => timeout_at(height_info, state.round_start),
                };
                if time >= deadline {
                    let round = state.round;
                    on_timeout_precommit(height_info, state, round, time)
                } else {
                    no_response()
                }
            },
            ConsensusStep::Prevote => no_response(),
        };
        assert(state@ == model::handle_timeouts(*height_info, s1, time).0);
        assert(responses_view(result@).len() == 0);
        assert(!s0.waiting_for_proposal_creation);
        assert(model::handle_event(*height_info, s0, event) == Some((s1, responses_view(result@))));
        Some(responses)
    }
}

impl ConsensusState {
    /// Handles `event`: updates the state and returns what the node must do,
    /// or `None` where the event is ignored.
    pub fn progress(&mut self, height_info: &HeightInfo, event: ConsensusEvent) -> (r: Option<
        Vec<ConsensusResponse>,
    >)
        requires
            height_info.well_formed(),
            old(self)@.wf(),
            progress_accepts(*height_info, old(self)@, event),
        ensures
            final(self)@ == progress_spec(*height_info, old(self)@, event).0,
            answer_view(r) == progress_spec(*height_info, old(self)@, event).1,
            final(self)@.wf(),
    {
        progress(height_info, self, event)
    }
}

} // verus!
