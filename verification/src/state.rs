use vstd::prelude::*;

use std::collections::{BTreeMap, BTreeSet};

use crate::tally::{tally_sorted, tally_sum, Tally};
use crate::types::{
    BlockIdentifier, ConsensusStep, HeightInfo, Round, Timestamp, ValidatorIndex, VotingPower,
};

verus! {

/// Votes counted in one round.
pub struct Votes {
    pub prevotes_total: VotingPower,
    pub prevotes_favor: Tally,
    pub precommits_total: VotingPower,
    pub precommits_favor: Tally,
    /// The validators whose prevote has been counted.
    pub prevote_signers: BTreeSet<ValidatorIndex>,
    /// The validators whose precommit has been counted.
    pub precommit_signers: BTreeSet<ValidatorIndex>,
}

/// Votes counted in one round, as values.
#[verifier::ext_equal]
pub struct VotesView {
    /// Power of every prevote, for a proposal or nil.
    pub prevotes_total: VotingPower,
    /// Power of the prevotes for each proposal.
    pub prevotes_favor: Seq<(BlockIdentifier, VotingPower)>,
    /// Power of every precommit, for a proposal or nil.
    pub precommits_total: VotingPower,
    /// Power of the precommits for each proposal.
    pub precommits_favor: Seq<(BlockIdentifier, VotingPower)>,
    /// The validators whose prevote has been counted.
    pub prevote_signers: Set<ValidatorIndex>,
    /// The validators whose precommit has been counted.
    pub precommit_signers: Set<ValidatorIndex>,
}

impl View for Votes {
    type V = VotesView;

    open spec fn view(&self) -> VotesView {
        VotesView {
            prevotes_total: self.prevotes_total,
            prevotes_favor: self.prevotes_favor@,
            precommits_total: self.precommits_total,
            precommits_favor: self.precommits_favor@,
            prevote_signers: self.prevote_signers@,
            precommit_signers: self.precommit_signers@,
        }
    }
}

impl VotesView {
    /// Tallies are sorted, and what was counted for proposals is part of the totals.
    pub open spec fn wf(self) -> bool {
        &&& tally_sorted(self.prevotes_favor)
        &&& tally_sorted(self.precommits_favor)
        &&& tally_sum(self.prevotes_favor) <= self.prevotes_total
        &&& tally_sum(self.precommits_favor) <= self.precommits_total
    }
}

/// No votes.
pub open spec fn empty_votes() -> VotesView {
    VotesView {
        prevotes_total: 0,
        prevotes_favor: Seq::empty(),
        precommits_total: 0,
        precommits_favor: Seq::empty(),
        prevote_signers: Set::empty(),
        precommit_signers: Set::empty(),
    }
}

impl Votes {
    /// No votes.
    pub fn new() -> (v: Votes)
        ensures
            v@ == empty_votes(),
    {
        Votes {
            prevotes_total: 0,
            prevotes_favor: Tally::new(),
            precommits_total: 0,
            precommits_favor: Tally::new(),
            prevote_signers: BTreeSet::new(),
            precommit_signers: BTreeSet::new(),
        }
    }
}

/// The state of the consensus for one height, at one node.
pub struct ConsensusState {
    pub step: ConsensusStep,
    pub round: Round,
    pub locked_value: Option<BlockIdentifier>,
    pub locked_round: Option<Round>,
    pub valid_value: Option<BlockIdentifier>,
    pub valid_round: Option<Round>,
    /// This node's judgement of each proposal it has judged.
    pub proposal_favors: BTreeMap<BlockIdentifier, bool>,
    /// Votes counted in each round.
    pub votes: BTreeMap<Round, Votes>,
    pub timeout_propose: Option<Timestamp>,
    pub timeout_precommit: Option<Timestamp>,
    /// This node leads the round and waits for its own proposal.
    pub waiting_for_proposal_creation: bool,
    /// When the current round started.
    pub round_start: Timestamp,
    /// The proposal received from the proposer of each round.
    pub proposals: BTreeMap<Round, BlockIdentifier>,
}

/// The state of the consensus for one height, as values.
#[verifier::ext_equal]
pub struct ConsensusStateView {
    pub step: ConsensusStep,
    pub round: Round,
    pub locked_value: Option<BlockIdentifier>,
    pub locked_round: Option<Round>,
    pub valid_value: Option<BlockIdentifier>,
    pub valid_round: Option<Round>,
    pub proposal_favors: Map<BlockIdentifier, bool>,
    pub votes: Map<Round, VotesView>,
    pub timeout_propose: Option<Timestamp>,
    pub timeout_precommit: Option<Timestamp>,
    pub waiting_for_proposal_creation: bool,
    pub round_start: Timestamp,
    pub proposals: Map<Round, BlockIdentifier>,
}

/// The value of each entry of `votes`.
pub open spec fn votes_view(votes: Map<Round, Votes>) -> Map<Round, VotesView> {
    votes.map_values(|v: Votes| v@)
}

impl View for ConsensusState {
    type V = ConsensusStateView;

    open spec fn view(&self) -> ConsensusStateView {
        ConsensusStateView {
            step: self.step,
            round: self.round,
            locked_value: self.locked_value,
            locked_round: self.locked_round,
            valid_value: self.valid_value,
            valid_round: self.valid_round,
            proposal_favors: self.proposal_favors@,
            votes: votes_view(self.votes@),
            timeout_propose: self.timeout_propose,
            timeout_precommit: self.timeout_precommit,
            waiting_for_proposal_creation: self.waiting_for_proposal_creation,
            round_start: self.round_start,
            proposals: self.proposals@,
        }
    }
}

impl ConsensusStateView {
    /// Every round's votes are well formed.
    pub open spec fn wf(self) -> bool {
        forall|r: Round| #[trigger] self.votes.contains_key(r) ==> self.votes[r].wf()
    }

    /// The votes counted in `round` so far.
    pub open spec fn votes_in(self, round: Round) -> VotesView {
        if self.votes.contains_key(round) {
            self.votes[round]
        } else {
            empty_votes()
        }
    }
}

/// The state in which a height that began at `timestamp` begins.
pub open spec fn initial_state(timestamp: Timestamp) -> ConsensusStateView {
    ConsensusStateView {
        step: ConsensusStep::Propose,
        round: 0,
        locked_value: None,
        locked_round: None,
        valid_value: None,
        valid_round: None,
        proposal_favors: Map::empty(),
        votes: Map::empty(),
        timeout_propose: None,
        timeout_precommit: None,
        waiting_for_proposal_creation: false,
        round_start: timestamp,
        proposals: Map::empty(),
    }
}

impl ConsensusState {
    /// The state in which a height begins: round 0 starts at the height's timestamp.
    pub fn new(height_info: HeightInfo) -> (s: ConsensusState)
        ensures
            s@ == initial_state(height_info.timestamp),
            s@.wf(),
            s.round == 0,
            s.step == ConsensusStep::Propose,
            s.round_start == height_info.timestamp,
            s.timeout_propose is None,
            s.timeout_precommit is None,
            s.locked_value is None,
            s.locked_round is None,
            s.valid_value is None,
            s.valid_round is None,
            !s.waiting_for_proposal_creation,
            s@.votes.is_empty(),
            s@.proposals.is_empty(),
            s@.proposal_favors.is_empty(),
    {
        let s = ConsensusState {
            step: ConsensusStep::Propose,
            round: 0,
            locked_value: None,
            locked_round: None,
            valid_value: None,
            valid_round: None,
            proposal_favors: BTreeMap::new(),
            votes: BTreeMap::new(),
            timeout_propose: None,
            timeout_precommit: None,
            waiting_for_proposal_creation: false,
            round_start: height_info.timestamp,
            proposals: BTreeMap::new(),
        };
        assert(votes_view(s.votes@) =~= Map::empty());
        s
    }
}

} // verus!
