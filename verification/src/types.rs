use vstd::prelude::*;

verus! {

/// Voting power of a validator.
pub type VotingPower = u64;

/// Milliseconds since the epoch.
pub type Timestamp = i64;

/// Identifies a block proposal.
pub type BlockIdentifier = usize;

/// A consensus round within a height.
pub type Round = usize;

/// Position of a validator in the validator set.
pub type ValidatorIndex = usize;

/// Height of a block.
pub type BlockHeight = u64;

/// Parameters of the consensus that stay fixed for a height.
#[derive(Clone, Copy, Debug, PartialEq, Eq)]
pub struct ConsensusParams {
    /// How long, in milliseconds, a node waits for a proposal or for precommits.
    pub timeout_ms: u64,
    /// The number of first rounds that the first validator leads.
    pub repeat_round_for_first_leader: usize,
}

/// What a node knows of the height being decided.
#[derive(Clone, Debug, PartialEq, Eq)]
pub struct HeightInfo {
    /// Voting power of each validator, in the validator set's order.
    pub validators: Vec<VotingPower>,
    /// Index of this node in `validators`.
    pub this_node_index: ValidatorIndex,
    /// When the height started.
    pub timestamp: Timestamp,
    pub consensus_params: ConsensusParams,
}

/// Sum of the voting powers in `validators`.
pub open spec fn power_sum(validators: Seq<u64>) -> int
    decreases validators.len(),
{
    if validators.len() == 0 {
        0
    } else {
        power_sum(validators.drop_last()) + validators.last()
    }
}

impl HeightInfo {
    /// Total voting power of the validator set.
    pub open spec fn total_power(&self) -> int {
        power_sum(self.validators@)
    }

    /// The total voting power is representable as a `VotingPower`.
    pub open spec fn well_formed(&self) -> bool {
        self.total_power() <= u64::MAX
    }

    /// The time at which a timeout started at `time` expires.
    pub open spec fn timeout_at(&self, time: Timestamp) -> int {
        time + (self.consensus_params.timeout_ms as i64)
    }
}

/// `power` is more than two thirds of `total`.
pub open spec fn exceeds_two_thirds(power: int, total: int) -> bool {
    power * 3 > total * 2
}

/// `power` is more than five sixths of `total`.
pub open spec fn exceeds_five_sixths(power: int, total: int) -> bool {
    power * 6 > total * 5
}

/// An input to the consensus state machine.
#[derive(Clone, Copy, Debug, PartialEq, Eq, Structural)]
pub enum ConsensusEvent {
    /// Starts the height.
    Start { time: Timestamp },
    /// This node has created the proposal it was asked for.
    BlockProposalCreated { proposal: BlockIdentifier, round: Round, time: Timestamp },
    /// A proposal arrived from `proposer`; `proposal_round` is the round in
    /// which the proposal was first seen to be valid, if any.
    BlockProposalReceived {
        proposal: BlockIdentifier,
        proposal_round: Option<Round>,
        proposer: ValidatorIndex,
        round: Round,
        time: Timestamp,
    },
    /// This node has judged a proposal.
    ProposalFavor { proposal: BlockIdentifier, favor: bool, time: Timestamp },
    /// Time has passed.
    Timer { time: Timestamp },
    Prevote { proposal: BlockIdentifier, signer: ValidatorIndex, round: Round, time: Timestamp },
    NilPrevote { signer: ValidatorIndex, round: Round, time: Timestamp },
    Precommit { proposal: BlockIdentifier, signer: ValidatorIndex, round: Round, time: Timestamp },
    NilPrecommit { signer: ValidatorIndex, round: Round, time: Timestamp },
}

impl ConsensusEvent {
    /// When the event happened.
    pub open spec fn spec_time(&self) -> Timestamp {
        match *self {
            ConsensusEvent::Start { time } => time,
            ConsensusEvent::BlockProposalCreated { time, .. } => time,
            ConsensusEvent::BlockProposalReceived { time, .. } => time,
            ConsensusEvent::ProposalFavor { time, .. } => time,
            ConsensusEvent::Timer { time } => time,
            ConsensusEvent::Prevote { time, .. } => time,
            ConsensusEvent::NilPrevote { time, .. } => time,
            ConsensusEvent::Precommit { time, .. } => time,
            ConsensusEvent::NilPrecommit { time, .. } => time,
        }
    }

    /// When the event happened.
    #[verifier::when_used_as_spec(spec_time)]
    pub fn time(&self) -> (t: Timestamp)
        ensures
            t == self.spec_time(),
    {
        match *self {
            ConsensusEvent::Start { time } => time,
            ConsensusEvent::BlockProposalCreated { time, .. } => time,
            ConsensusEvent::BlockProposalReceived { time, .. } => time,
            ConsensusEvent::ProposalFavor { time, .. } => time,
            ConsensusEvent::Timer { time } => time,
            ConsensusEvent::Prevote { time, .. } => time,
            ConsensusEvent::NilPrevote { time, .. } => time,
            ConsensusEvent::Precommit { time, .. } => time,
            ConsensusEvent::NilPrecommit { time, .. } => time,
        }
    }
}

/// An action the consensus state machine asks the node to take.
#[derive(Clone, Debug, PartialEq, Eq)]
pub enum ConsensusResponse {
    /// This node leads `round` and has nothing to propose: it must create a
    /// proposal and report it with `ConsensusEvent::BlockProposalCreated`.
    CreateProposal { round: Round },
    BroadcastProposal { proposal: BlockIdentifier, round: Round },
    BroadcastPrevote { proposal: BlockIdentifier, round: Round },
    BroadcastNilPrevote { round: Round },
    BroadcastPrecommit { proposal: BlockIdentifier, round: Round },
    BroadcastNilPrecommit { round: Round },
    FinalizeBlock { proposal: BlockIdentifier },
    /// `violator` broke the protocol, for instance by proposing twice in a round.
    ViolationReport { violator: ValidatorIndex, description: String },
}

/// An action the consensus state machine asks the node to take, as a value.
pub enum ConsensusResponseView {
    CreateProposal { round: Round },
    BroadcastProposal { proposal: BlockIdentifier, round: Round },
    BroadcastPrevote { proposal: BlockIdentifier, round: Round },
    BroadcastNilPrevote { round: Round },
    BroadcastPrecommit { proposal: BlockIdentifier, round: Round },
    BroadcastNilPrecommit { round: Round },
    FinalizeBlock { proposal: BlockIdentifier },
    ViolationReport { violator: ValidatorIndex, description: Seq<char> },
}

impl View for ConsensusResponse {
    type V = ConsensusResponseView;

    open spec fn view(&self) -> ConsensusResponseView {
        match self {
            ConsensusResponse::CreateProposal { round } => ConsensusResponseView::CreateProposal {
                round: *round,
            },
            ConsensusResponse::BroadcastProposal { proposal, round } => ConsensusResponseView::BroadcastProposal {
                proposal: *proposal,
                round: *round,
            },
            ConsensusResponse::BroadcastPrevote { proposal, round } => ConsensusResponseView::BroadcastPrevote {
                proposal: *proposal,
                round: *round,
            },
            ConsensusResponse::BroadcastNilPrevote { round } => ConsensusResponseView::BroadcastNilPrevote {
                round: *round,
            },
            ConsensusResponse::BroadcastPrecommit { proposal, round } => ConsensusResponseView::BroadcastPrecommit {
                proposal: *proposal,
                round: *round,
            },
            ConsensusResponse::BroadcastNilPrecommit { round } => ConsensusResponseView::BroadcastNilPrecommit {
                round: *round,
            },
            ConsensusResponse::FinalizeBlock { proposal } => ConsensusResponseView::FinalizeBlock {
                proposal: *proposal,
            },
            ConsensusResponse::ViolationReport { violator, description } => ConsensusResponseView::ViolationReport {
                violator: *violator,
                description: description@,
            },
        }
    }
}

/// The responses of `v`, as values.
pub open spec fn responses_view(v: Seq<ConsensusResponse>) -> Seq<ConsensusResponseView> {
    v.map_values(|r: ConsensusResponse| r@)
}

/// The step of the current round.
#[derive(Clone, Copy, Debug, PartialEq, Eq, Structural)]
pub enum ConsensusStep {
    Propose,
    Prevote,
    Precommit,
}

} // verus!
