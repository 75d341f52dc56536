use vetomint::progress::progress;
use vetomint::state::ConsensusState;
use vetomint::types::{
    BlockIdentifier, ConsensusEvent, ConsensusParams, ConsensusResponse, HeightInfo, Round,
    Timestamp, ValidatorIndex,
};

fn initialize(
    validators: Vec<u64>,
    this_node_index: ValidatorIndex,
    timestamp: Timestamp,
    consensus_params: ConsensusParams,
) -> (HeightInfo, ConsensusState) {
    let height_info = HeightInfo {
        validators,
        this_node_index,
        timestamp,
        consensus_params,
    };
    let state = ConsensusState::new(height_info.clone());
    (height_info, state)
}

/// A proposal is received, then judged.
#[allow(clippy::too_many_arguments)]
fn receive_and_favor_propose(
    height_info: &HeightInfo,
    state: &mut ConsensusState,
    proposal: BlockIdentifier,
    proposal_round: Option<Round>,
    proposer: ValidatorIndex,
    round: usize,
    time: Timestamp,
    favor: bool,
) -> (
    Option<Vec<ConsensusResponse>>,
    Option<Vec<ConsensusResponse>>,
) {
    let event = ConsensusEvent::BlockProposalReceived {
        proposal,
        proposal_round,
        proposer,
        round,
        time,
    };
    let proposal_response = state.progress(height_info, event);
    let event = ConsensusEvent::ProposalFavor {
        proposal,
        favor,
        time,
    };
    let favor_response = state.progress(height_info, event);
    (proposal_response, favor_response)
}

/// Feeds prevotes in time order until one kind passes two thirds, or all
/// of them pass five sixths.
fn prevotes(
    height_info: &HeightInfo,
    state: &mut ConsensusState,
    favor_of_this_node: (bool, u64),
    votes: Vec<(ValidatorIndex, bool, u64, Timestamp)>,
    round: usize,
    proposal: usize,
) -> Vec<Option<Vec<ConsensusResponse>>> {
    let mut votes_time_sorted = votes;
    let total_voting_power: u64 = height_info.validators.iter().sum();
    votes_time_sorted.sort_by_key(|k| k.3);
    let early_termination_condition1 = total_voting_power * 2 / 3;
    let early_termination_condition2 = total_voting_power * 5 / 6;
    let mut current_prevoted = if favor_of_this_node.0 {
        favor_of_this_node.1
    } else {
        0
    };
    let mut current_nilvoted = if !favor_of_this_node.0 {
        favor_of_this_node.1
    } else {
        0
    };
    let mut return_responses = Vec::<Option<Vec<ConsensusResponse>>>::new();
    for (signer, favor, power, time) in votes_time_sorted {
        let current_voted = current_prevoted + current_nilvoted;
        if current_prevoted > early_termination_condition1
            || current_nilvoted > early_termination_condition1
            || current_voted > early_termination_condition2
        {
            assertion_check(&return_responses);
            return return_responses;
        }
        if favor {
            let event = ConsensusEvent::Prevote {
                proposal,
                signer,
                round,
                time,
            };
            return_responses.push(state.progress(height_info, event));
            current_prevoted += power;
        } else {
            let event = ConsensusEvent::NilPrevote {
                signer,
                round,
                time,
            };
            return_responses.push(state.progress(height_info, event));
            current_nilvoted += power;
        }
    }
    assertion_check(&return_responses);
    return_responses
}

/// Feeds precommits in time order until one kind passes two thirds.
fn precommits(
    height_info: &HeightInfo,
    state: &mut ConsensusState,
    favor_of_this_node: (bool, u64),
    commits: Vec<(ValidatorIndex, bool, u64, Timestamp)>,
    round: usize,
    proposal: usize,
) -> Vec<Option<Vec<ConsensusResponse>>> {
    let mut commits_time_sorted = commits;
    let total_voting_power: u64 = height_info.validators.iter().sum();
    commits_time_sorted.sort_by_key(|k| k.3);
    let early_termination_condition1 = total_voting_power * 2 / 3;
    let mut current_precommitted = if favor_of_this_node.0 {
        favor_of_this_node.1
    } else {
        0
    };
    let mut current_nilcommitted = if !favor_of_this_node.0 {
        favor_of_this_node.1
    } else {
        0
    };
    let mut return_responses = Vec::<Option<Vec<ConsensusResponse>>>::new();
    for (signer, favor, power, time) in commits_time_sorted {
        if current_precommitted > early_termination_condition1
            || current_nilcommitted > early_termination_condition1
        {
            assertion_check(&return_responses);
            return return_responses;
        }
        if favor {
            let event = ConsensusEvent::Precommit {
                proposal,
                signer,
                round,
                time,
            };
            return_responses.push(state.progress(height_info, event));
            current_precommitted += power;
        } else {
            let event = ConsensusEvent::NilPrecommit {
                signer,
                round,
                time,
            };
            return_responses.push(state.progress(height_info, event));
            current_nilcommitted += power;
        }
    }
    assertion_check(&return_responses);
    return_responses
}

/// All responses but the last are empty; the last is not.
fn assertion_check(responses: &Vec<Option<Vec<ConsensusResponse>>>) {
    let length = responses.len();
    let formal_responses = &responses[0..length - 1];
    let last_response = &responses[length - 1];
    for response in formal_responses {
        assert_eq!(response, &Some(Vec::new()));
    }
    assert_ne!(last_response, &Some(Vec::new()));
}

fn params() -> ConsensusParams {
    ConsensusParams {
        timeout_ms: 1000,
        repeat_round_for_first_leader: 0,
    }
}

#[test]
fn early_termination_by_polka_1() {
    let (height_info, mut state) = initialize(vec![1, 1, 1, 1, 1, 1, 1], 6, 0, params());
    let favor_of_this_node = (true, height_info.validators[height_info.this_node_index]);
    let (proposal_response, favor_response) =
        receive_and_favor_propose(&height_info, &mut state, 0, None, 0, 0, 1, true);
    assert_eq!(proposal_response, Some(vec![]));
    assert_eq!(
        favor_response,
        Some(vec![ConsensusResponse::BroadcastPrevote {
            proposal: 0,
            round: 0
        }])
    );
    let votes = Vec::<(usize, bool, u64, Timestamp)>::from([
        (0, true, 1, 2),
        (1, true, 1, 2),
        (2, true, 1, 2),
        (3, true, 1, 2),
    ]);
    let mut response_seq = prevotes(&height_info, &mut state, favor_of_this_node, votes, 0, 0);
    let last_response = response_seq.pop();
    for response in response_seq {
        assert_eq!(response, Some(vec![]));
    }
    assert_eq!(
        last_response.unwrap(),
        Some(vec![ConsensusResponse::BroadcastPrecommit {
            proposal: 0,
            round: 0
        }])
    );
    let commits = Vec::<(usize, bool, u64, Timestamp)>::from([
        (0, true, 1, 3),
        (1, true, 1, 3),
        (2, true, 1, 3),
        (3, true, 1, 3),
    ]);
    let mut response_seq = precommits(&height_info, &mut state, favor_of_this_node, commits, 0, 0);
    let last_response = response_seq.pop();
    for response in response_seq {
        assert_eq!(response, Some(vec![]));
    }
    assert_eq!(
        last_response.unwrap(),
        Some(vec![ConsensusResponse::FinalizeBlock { proposal: 0 }])
    );
}

#[test]
fn early_termination_by_polka_2() {
    let (height_info, mut state) = initialize(vec![10, 8, 6, 5, 4, 2, 2], 3, 0, params());
    let favor_of_this_node = (true, height_info.validators[height_info.this_node_index]);
    let (proposal_response, favor_response) =
        receive_and_favor_propose(&height_info, &mut state, 0, None, 0, 0, 1, true);
    assert_eq!(proposal_response, Some(vec![]));
    assert_eq!(
        favor_response,
        Some(vec![ConsensusResponse::BroadcastPrevote {
            proposal: 0,
            round: 0
        }])
    );
    let votes = Vec::<(usize, bool, u64, Timestamp)>::from([
        (0, true, 10, 2),
        (1, true, 8, 2),
        (2, true, 6, 2),
    ]);
    let mut response_seq = prevotes(&height_info, &mut state, favor_of_this_node, votes, 0, 0);
    let last_response = response_seq.pop();
    for response in response_seq {
        assert_eq!(response, Some(vec![]));
    }
    assert_eq!(
        last_response.unwrap(),
        Some(vec![ConsensusResponse::BroadcastPrecommit {
            proposal: 0,
            round: 0
        }])
    );
    let commits = Vec::<(usize, bool, u64, Timestamp)>::from([
        (0, true, 10, 4),
        (1, true, 8, 4),
        (2, true, 6, 4),
    ]);
    let mut response_seq = precommits(&height_info, &mut state, favor_of_this_node, commits, 0, 0);
    let last_response = response_seq.pop();
    for response in response_seq {
        assert_eq!(response, Some(vec![]));
    }
    assert_eq!(
        last_response.unwrap(),
        Some(vec![ConsensusResponse::FinalizeBlock { proposal: 0 }])
    );
}

#[test]
fn ternination_by_polka() {
    let (height_info, mut state) = initialize(vec![1, 1, 1, 1, 1, 1, 1], 6, 0, params());
    let favor_of_this_node = (true, height_info.validators[height_info.this_node_index]);
    let (proposal_response, favor_response) =
        receive_and_favor_propose(&height_info, &mut state, 0, None, 0, 0, 1, true);
    assert_eq!(proposal_response, Some(vec![]));
    assert_eq!(
        favor_response,
        Some(vec![ConsensusResponse::BroadcastPrevote {
            proposal: 0,
            round: 0
        }])
    );
    let votes = Vec::<(usize, bool, u64, Timestamp)>::from([
        (0, true, 1, 2),
        (1, true, 1, 2),
        (2, true, 1, 2),
        (3, true, 1, 3),
        (4, false, 1, 2),
    ]);
    let mut response_seq = prevotes(&height_info, &mut state, favor_of_this_node, votes, 0, 0);
    let last_response = response_seq.pop();
    for response in response_seq {
        assert_eq!(response, Some(vec![]));
    }
    assert_eq!(
        last_response.unwrap(),
        Some(vec![ConsensusResponse::BroadcastPrecommit {
            proposal: 0,
            round: 0
        }])
    );
    let commits = Vec::<(usize, bool, u64, Timestamp)>::from([
        (0, true, 1, 5),
        (1, true, 1, 5),
        (2, true, 1, 5),
        (3, true, 1, 6),
        (4, false, 1, 5),
    ]);
    let mut response_seq = precommits(&height_info, &mut state, favor_of_this_node, commits, 0, 0);
    let last_response = response_seq.pop();
    for response in response_seq {
        assert_eq!(response, Some(vec![]));
    }
    assert_eq!(
        last_response.unwrap(),
        Some(vec![ConsensusResponse::FinalizeBlock { proposal: 0 }])
    );
}

#[test]
fn early_termination_and_timeout() {
    let (height_info, mut state) = initialize(vec![1, 1, 1, 1, 1, 1, 1], 6, 0, params());
    let favor_of_this_node = (true, height_info.validators[height_info.this_node_index]);
    let (proposal_response, favor_response) =
        receive_and_favor_propose(&height_info, &mut state, 0, None, 0, 0, 1, true);
    assert_eq!(proposal_response, Some(vec![]));
    assert_eq!(
        favor_response,
        Some(vec![ConsensusResponse::BroadcastPrevote {
            proposal: 0,
            round: 0
        }])
    );
    let votes = Vec::<(usize, bool, u64, Timestamp)>::from([
        (0, true, 1, 2),
        (1, true, 1, 2),
        (2, true, 1, 2),
        (3, true, 1, 2),
    ]);
    let mut response_seq = prevotes(&height_info, &mut state, favor_of_this_node, votes, 0, 0);
    let last_response = response_seq.pop();
    for response in response_seq {
        assert_eq!(response, Some(vec![]));
    }
    assert_eq!(
        last_response.unwrap(),
        Some(vec![ConsensusResponse::BroadcastPrecommit {
            proposal: 0,
            round: 0
        }])
    );
    let timeout = height_info.consensus_params.timeout_ms as i64;
    let event = ConsensusEvent::Timer { time: timeout };
    let response = progress(&height_info, &mut state, event);
    assert_eq!(
        response,
        Some(vec![ConsensusResponse::BroadcastPrevote {
            proposal: 0,
            round: 1
        }])
    );
}

#[test]
fn termination_and_timeout() {
    let (height_info, mut state) = initialize(vec![1, 1, 1, 1, 1, 1, 1], 6, 0, params());
    let favor_of_this_node = (true, height_info.validators[height_info.this_node_index]);
    let (proposal_response, favor_response) =
        receive_and_favor_propose(&height_info, &mut state, 0, None, 0, 0, 1, true);
    assert_eq!(proposal_response, Some(vec![]));
    assert_eq!(
        favor_response,
        Some(vec![ConsensusResponse::BroadcastPrevote {
            proposal: 0,
            round: 0
        }])
    );
    let event = ConsensusEvent::NilPrevote {
        signer: 4,
        round: 0,
        time: 3,
    };
    let response = progress(&height_info, &mut state, event);
    assert_eq!(response, Some(vec![]));
    let votes = Vec::<(usize, bool, u64, Timestamp)>::from([
        (0, true, 1, 2),
        (1, true, 1, 2),
        (2, true, 1, 2),
        (3, true, 1, 3),
        (4, false, 1, 2),
    ]);
    let mut response_seq = prevotes(&height_info, &mut state, favor_of_this_node, votes, 0, 0);
    let last_response = response_seq.pop();
    for response in response_seq {
        assert_eq!(response, Some(vec![]));
    }
    assert_eq!(
        last_response.unwrap(),
        Some(vec![ConsensusResponse::BroadcastPrecommit {
            proposal: 0,
            round: 0
        }])
    );
    let timeout = height_info.consensus_params.timeout_ms as i64;
    let event = ConsensusEvent::Timer { time: timeout };
    let response = progress(&height_info, &mut state, event);
    assert_eq!(
        response,
        Some(vec![ConsensusResponse::BroadcastPrevote {
            proposal: 0,
            round: 1
        }])
    );
}

#[test]
fn violation_same_proposer() {
    let (height_info, mut state) = initialize(vec![1, 1, 1, 1, 1, 1, 1], 6, 0, params());
    let (proposal_response, favor_response) =
        receive_and_favor_propose(&height_info, &mut state, 0, None, 0, 0, 1, true);
    assert_eq!(proposal_response, Some(vec![]));
    assert_eq!(
        favor_response,
        Some(vec![ConsensusResponse::BroadcastPrevote {
            proposal: 0,
            round: 0
        }])
    );
    let fake_proposal_response = progress(
        &height_info,
        &mut state,
        ConsensusEvent::BlockProposalReceived {
            proposal: 1,
            proposal_round: None,
            proposer: 0,
            round: 0,
            time: 1,
        },
    );
    assert_eq!(
        fake_proposal_response,
        Some(vec![ConsensusResponse::ViolationReport {
            violator: 0,
            description: "".to_string(),
        }])
    );
}
