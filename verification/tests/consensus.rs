use vetomint::progress::{decide_proposer, progress, total_voting_power};
use vetomint::state::ConsensusState;
use vetomint::types::{
    ConsensusEvent, ConsensusParams, ConsensusResponse, ConsensusStep, HeightInfo,
};

fn height_info(validators: Vec<u64>, this_node_index: usize) -> HeightInfo {
    HeightInfo {
        validators,
        this_node_index,
        timestamp: 0,
        consensus_params: ConsensusParams {
            timeout_ms: 1000,
            repeat_round_for_first_leader: 0,
        },
    }
}

fn prevote(proposal: usize, signer: usize, round: usize, time: i64) -> ConsensusEvent {
    ConsensusEvent::Prevote {
        proposal,
        signer,
        round,
        time,
    }
}

fn precommit(proposal: usize, signer: usize, round: usize, time: i64) -> ConsensusEvent {
    ConsensusEvent::Precommit {
        proposal,
        signer,
        round,
        time,
    }
}

fn nil_prevote(signer: usize, round: usize, time: i64) -> ConsensusEvent {
    ConsensusEvent::NilPrevote {
        signer,
        round,
        time,
    }
}

fn nil_precommit(signer: usize, round: usize, time: i64) -> ConsensusEvent {
    ConsensusEvent::NilPrecommit {
        signer,
        round,
        time,
    }
}

/// Seven validators of power 1; this node is the last; round `r` is led by validator `r`.
fn seven() -> (HeightInfo, ConsensusState) {
    let h = height_info(vec![1, 1, 1, 1, 1, 1, 1], 6);
    let s = ConsensusState::new(h.clone());
    (h, s)
}

/// Receives proposal 0 of round 0 and judges it.
fn receive_and_judge(h: &HeightInfo, s: &mut ConsensusState, favor: bool) -> Option<Vec<ConsensusResponse>> {
    let r = progress(
        h,
        s,
        ConsensusEvent::BlockProposalReceived {
            proposal: 0,
            proposal_round: None,
            proposer: 0,
            round: 0,
            time: 1,
        },
    );
    assert_eq!(r, Some(vec![]));
    progress(
        h,
        s,
        ConsensusEvent::ProposalFavor {
            proposal: 0,
            favor,
            time: 1,
        },
    )
}

#[test]
fn new_state_starts_in_propose_of_round_zero() {
    let (_, s) = seven();
    assert_eq!(s.step, ConsensusStep::Propose);
    assert_eq!(s.round, 0);
    assert_eq!(s.locked_value, None);
    assert_eq!(s.valid_value, None);
    assert!(!s.waiting_for_proposal_creation);
}

#[test]
fn total_voting_power_sums_the_validators() {
    assert_eq!(total_voting_power(&vec![10, 8, 6, 5, 4, 2, 2]), 37);
    assert_eq!(total_voting_power(&vec![]), 0);
}

#[test]
fn proposer_rotates_after_the_first_leader() {
    let mut h = height_info(vec![1, 1, 1, 1, 1, 1, 1], 6);
    assert_eq!(decide_proposer(0, &h), 0);
    assert_eq!(decide_proposer(5, &h), 5);
    assert_eq!(decide_proposer(7, &h), 0);
    h.consensus_params.repeat_round_for_first_leader = 2;
    assert_eq!(decide_proposer(0, &h), 0);
    assert_eq!(decide_proposer(1, &h), 0);
    assert_eq!(decide_proposer(2, &h), 0);
    assert_eq!(decide_proposer(3, &h), 1);
}

#[test]
fn favored_proposal_is_prevoted_then_precommitted_then_finalized() {
    let (h, mut s) = seven();
    assert_eq!(
        receive_and_judge(&h, &mut s, true),
        Some(vec![ConsensusResponse::BroadcastPrevote { proposal: 0, round: 0 }])
    );
    assert_eq!(s.step, ConsensusStep::Prevote);
    for signer in 0..3 {
        assert_eq!(progress(&h, &mut s, prevote(0, signer, 0, 2)), Some(vec![]));
    }
    assert_eq!(
        progress(&h, &mut s, prevote(0, 3, 0, 2)),
        Some(vec![ConsensusResponse::BroadcastPrecommit { proposal: 0, round: 0 }])
    );
    assert_eq!(s.step, ConsensusStep::Precommit);
    assert_eq!(s.locked_value, Some(0));
    assert_eq!(s.locked_round, Some(0));
    assert_eq!(s.valid_value, Some(0));
    assert_eq!(s.valid_round, Some(0));
    for signer in 0..3 {
        assert_eq!(progress(&h, &mut s, precommit(0, signer, 0, 3)), Some(vec![]));
    }
    assert_eq!(
        progress(&h, &mut s, precommit(0, 3, 0, 3)),
        Some(vec![ConsensusResponse::FinalizeBlock { proposal: 0 }])
    );
}

#[test]
fn disfavored_proposal_is_prevoted_nil_and_nil_polka_precommits_nil() {
    let (h, mut s) = seven();
    assert_eq!(
        receive_and_judge(&h, &mut s, false),
        Some(vec![ConsensusResponse::BroadcastNilPrevote { round: 0 }])
    );
    for signer in 0..3 {
        assert_eq!(progress(&h, &mut s, nil_prevote(signer, 0, 2)), Some(vec![]));
    }
    assert_eq!(
        progress(&h, &mut s, nil_prevote(3, 0, 2)),
        Some(vec![ConsensusResponse::BroadcastNilPrecommit { round: 0 }])
    );
    assert_eq!(s.step, ConsensusStep::Precommit);
    assert_eq!(s.locked_value, None);
}

#[test]
fn five_sixths_of_prevotes_without_a_two_thirds_proposal_precommits_nil() {
    let h = height_info(vec![1, 1, 1, 1, 1, 1], 5);
    let mut s = ConsensusState::new(h.clone());
    let r = progress(
        &h,
        &mut s,
        ConsensusEvent::ProposalFavor {
            proposal: 2,
            favor: true,
            time: 0,
        },
    );
    assert_eq!(r, Some(vec![ConsensusResponse::BroadcastPrevote { proposal: 2, round: 0 }]));
    assert_eq!(progress(&h, &mut s, prevote(2, 0, 0, 1)), Some(vec![]));
    assert_eq!(progress(&h, &mut s, prevote(2, 1, 0, 1)), Some(vec![]));
    assert_eq!(progress(&h, &mut s, nil_prevote(2, 0, 1)), Some(vec![]));
    assert_eq!(progress(&h, &mut s, nil_prevote(3, 0, 1)), Some(vec![]));
    assert_eq!(
        progress(&h, &mut s, prevote(2, 4, 0, 1)),
        Some(vec![ConsensusResponse::BroadcastNilPrecommit { round: 0 }])
    );
}

#[test]
fn votes_of_another_round_are_ignored() {
    let (h, mut s) = seven();
    receive_and_judge(&h, &mut s, true);
    let before = (s.step, s.round, s.votes.len());
    assert_eq!(progress(&h, &mut s, prevote(0, 0, 3, 2)), None);
    assert_eq!(progress(&h, &mut s, nil_prevote(0, 1, 2)), None);
    assert_eq!(progress(&h, &mut s, precommit(0, 0, 2, 2)), None);
    assert_eq!(progress(&h, &mut s, nil_precommit(0, 5, 2)), None);
    assert_eq!((s.step, s.round, s.votes.len()), before);
}

#[test]
fn start_as_follower_starts_the_propose_timeout() {
    let (h, mut s) = seven();
    assert_eq!(progress(&h, &mut s, ConsensusEvent::Start { time: 0 }), Some(vec![]));
    assert_eq!(s.timeout_propose, Some(1000));
    assert_eq!(progress(&h, &mut s, ConsensusEvent::Timer { time: 999 }), Some(vec![]));
    assert_eq!(
        progress(&h, &mut s, ConsensusEvent::Timer { time: 1000 }),
        Some(vec![ConsensusResponse::BroadcastNilPrevote { round: 0 }])
    );
    assert_eq!(s.step, ConsensusStep::Prevote);
    assert_eq!(s.timeout_propose, None);
}

#[test]
fn start_as_leader_waits_for_its_proposal() {
    let h = height_info(vec![1, 1, 1, 1], 0);
    let mut s = ConsensusState::new(h.clone());
    assert_eq!(
        progress(&h, &mut s, ConsensusEvent::Start { time: 5 }),
        Some(vec![ConsensusResponse::CreateProposal { round: 0 }])
    );
    assert!(s.waiting_for_proposal_creation);
    assert_eq!(progress(&h, &mut s, prevote(3, 0, 0, 6)), None);
    assert_eq!(progress(&h, &mut s, ConsensusEvent::Timer { time: 10_000 }), None);
    assert_eq!(
        progress(
            &h,
            &mut s,
            ConsensusEvent::BlockProposalCreated {
                proposal: 9,
                round: 1,
                time: 7
            }
        ),
        None
    );
    assert_eq!(
        progress(
            &h,
            &mut s,
            ConsensusEvent::BlockProposalCreated {
                proposal: 9,
                round: 0,
                time: 7
            }
        ),
        Some(vec![ConsensusResponse::BroadcastProposal { proposal: 9, round: 0 }])
    );
    assert!(!s.waiting_for_proposal_creation);
}

#[test]
fn created_proposal_is_ignored_when_not_awaited() {
    let (h, mut s) = seven();
    let r = progress(
        &h,
        &mut s,
        ConsensusEvent::BlockProposalCreated {
            proposal: 1,
            round: 0,
            time: 0,
        },
    );
    assert_eq!(r, None);
}

#[test]
fn proposal_from_another_proposer_is_not_acted_on() {
    let (h, mut s) = seven();
    let r = progress(
        &h,
        &mut s,
        ConsensusEvent::BlockProposalReceived {
            proposal: 0,
            proposal_round: None,
            proposer: 3,
            round: 0,
            time: 1,
        },
    );
    assert_eq!(r, Some(vec![]));
    assert_eq!(s.step, ConsensusStep::Propose);
    assert!(s.proposals.is_empty());
}

#[test]
fn second_proposal_of_the_proposer_is_reported() {
    let (h, mut s) = seven();
    receive_and_judge(&h, &mut s, true);
    let event = ConsensusEvent::BlockProposalReceived {
        proposal: 0,
        proposal_round: None,
        proposer: 0,
        round: 0,
        time: 2,
    };
    assert_eq!(progress(&h, &mut s, event), Some(vec![]));
    let event = ConsensusEvent::BlockProposalReceived {
        proposal: 1,
        proposal_round: None,
        proposer: 0,
        round: 0,
        time: 2,
    };
    assert_eq!(
        progress(&h, &mut s, event),
        Some(vec![ConsensusResponse::ViolationReport {
            violator: 0,
            description: String::new()
        }])
    );
}

/// Locks on proposal 0 in round 0, then lets the precommit timeout move to
/// round 1, where this node prevotes its lock at once.
fn locked_then_round_one(h: &HeightInfo) -> ConsensusState {
    let mut s = ConsensusState::new(h.clone());
    receive_and_judge(h, &mut s, true);
    for signer in 0..4 {
        progress(h, &mut s, prevote(0, signer, 0, 2));
    }
    assert_eq!(s.locked_value, Some(0));
    for signer in 0..4 {
        assert_eq!(progress(h, &mut s, nil_precommit(signer, 0, 3)), Some(vec![]));
    }
    assert_eq!(s.timeout_precommit, None);
    assert_eq!(progress(h, &mut s, nil_precommit(4, 0, 3)), Some(vec![]));
    assert_eq!(s.timeout_precommit, Some(1003));
    assert_eq!(
        progress(h, &mut s, ConsensusEvent::Timer { time: 1003 }),
        Some(vec![ConsensusResponse::BroadcastPrevote { proposal: 0, round: 1 }])
    );
    s
}

#[test]
fn precommit_timeout_starts_the_next_round() {
    let (h, _) = seven();
    let s = locked_then_round_one(&h);
    assert_eq!(s.round, 1);
    assert_eq!(s.round_start, 1003);
    assert_eq!(s.step, ConsensusStep::Prevote);
    assert_eq!(s.timeout_precommit, None);
    assert_eq!(s.locked_value, Some(0));
    assert_eq!(s.locked_round, Some(0));
}

#[test]
fn precommit_step_times_out_with_the_round() {
    let (h, mut s) = seven();
    receive_and_judge(&h, &mut s, true);
    for signer in 0..4 {
        progress(&h, &mut s, prevote(0, signer, 0, 2));
    }
    assert_eq!(s.step, ConsensusStep::Precommit);
    assert_eq!(progress(&h, &mut s, ConsensusEvent::Timer { time: 999 }), Some(vec![]));
    assert_eq!(
        progress(&h, &mut s, ConsensusEvent::Timer { time: 1000 }),
        Some(vec![ConsensusResponse::BroadcastPrevote { proposal: 0, round: 1 }])
    );
}

#[test]
fn next_round_leader_without_a_valid_value_asks_for_a_proposal() {
    // This node (index 1) leads round 1.
    let h = height_info(vec![1, 1, 1, 1], 1);
    let mut s = ConsensusState::new(h.clone());
    progress(
        &h,
        &mut s,
        ConsensusEvent::ProposalFavor {
            proposal: 0,
            favor: false,
            time: 1,
        },
    );
    for signer in [0, 2] {
        progress(&h, &mut s, nil_prevote(signer, 0, 2));
    }
    assert_eq!(s.step, ConsensusStep::Precommit);
    assert_eq!(s.valid_value, None);
    assert_eq!(
        progress(&h, &mut s, ConsensusEvent::Timer { time: 1000 }),
        Some(vec![ConsensusResponse::CreateProposal { round: 1 }])
    );
    assert!(s.waiting_for_proposal_creation);
    assert_eq!(s.round, 1);
}

/// Round 0 ends with proposal 5 valid but not locked: the prevotes for it
/// reach two thirds only after this node precommitted nil.
fn valid_unlocked_then_round_one(h: &HeightInfo) -> ConsensusState {
    let mut s = ConsensusState::new(h.clone());
    progress(
        h,
        &mut s,
        ConsensusEvent::ProposalFavor {
            proposal: 5,
            favor: true,
            time: 1,
        },
    );
    for signer in 0..3 {
        progress(h, &mut s, prevote(5, signer, 0, 2));
    }
    progress(h, &mut s, nil_prevote(3, 0, 2));
    assert_eq!(
        progress(h, &mut s, nil_prevote(4, 0, 2)),
        Some(vec![ConsensusResponse::BroadcastNilPrecommit { round: 0 }])
    );
    assert_eq!(progress(h, &mut s, prevote(5, 5, 0, 2)), Some(vec![]));
    assert_eq!(s.locked_value, None);
    assert_eq!(s.valid_value, Some(5));
    assert_eq!(progress(h, &mut s, ConsensusEvent::Timer { time: 1000 }), Some(vec![]));
    assert_eq!(s.round, 1);
    assert_eq!(s.step, ConsensusStep::Propose);
    assert_eq!(s.timeout_propose, Some(2000));
    s
}

#[test]
fn proposal_with_a_valid_round_and_a_polka_is_prevoted() {
    let (h, _) = seven();
    let mut s = valid_unlocked_then_round_one(&h);
    let r = progress(
        &h,
        &mut s,
        ConsensusEvent::BlockProposalReceived {
            proposal: 5,
            proposal_round: Some(0),
            proposer: 1,
            round: 1,
            time: 1100,
        },
    );
    // Not locked, so the lock is not older than the valid round: nil.
    assert_eq!(r, Some(vec![ConsensusResponse::BroadcastNilPrevote { round: 1 }]));
    assert_eq!(s.step, ConsensusStep::Prevote);
}

#[test]
fn proposal_with_a_valid_round_without_a_polka_is_not_prevoted() {
    let (h, _) = seven();
    let mut s = valid_unlocked_then_round_one(&h);
    let r = progress(
        &h,
        &mut s,
        ConsensusEvent::BlockProposalReceived {
            proposal: 9,
            proposal_round: Some(0),
            proposer: 1,
            round: 1,
            time: 1100,
        },
    );
    assert_eq!(r, Some(vec![]));
    assert_eq!(s.step, ConsensusStep::Propose);
}

#[test]
fn lock_is_kept_across_rounds() {
    let (h, _) = seven();
    let mut s = locked_then_round_one(&h);
    for signer in 0..5 {
        progress(&h, &mut s, prevote(7, signer, 1, 1300));
    }
    assert_eq!(s.locked_value, Some(0));
    assert_eq!(s.locked_round, Some(0));
}

#[test]
fn start_moves_the_round_back_to_zero() {
    let (h, _) = seven();
    let mut s = locked_then_round_one(&h);
    assert_eq!(s.round, 1);
    // This node does not lead round 0 and is locked: it prevotes its lock.
    assert_eq!(
        progress(&h, &mut s, ConsensusEvent::Start { time: 5000 }),
        Some(vec![ConsensusResponse::BroadcastPrevote { proposal: 0, round: 0 }])
    );
    assert_eq!(s.round, 0);
    assert_eq!(s.round_start, 5000);
}

#[test]
fn counted_votes_only_grow() {
    let (h, mut s) = seven();
    receive_and_judge(&h, &mut s, true);
    let mut last = (0u64, 0u64, 0u64, 0u64);
    let events = vec![
        prevote(0, 0, 0, 2),
        nil_prevote(1, 0, 2),
        prevote(0, 2, 0, 2),
        precommit(0, 3, 0, 2),
        nil_precommit(4, 0, 2),
        prevote(0, 5, 0, 2),
    ];
    for e in events {
        let r = progress(&h, &mut s, e);
        assert!(r.map_or(0, |v| v.len()) <= 1);
        let v = s.votes.get(&0).unwrap();
        let now = (
            v.prevotes_total,
            v.precommits_total,
            v.prevotes_favor.amount(0),
            v.precommits_favor.amount(0),
        );
        assert!(now.0 >= last.0 && now.1 >= last.1 && now.2 >= last.2 && now.3 >= last.3);
        last = now;
    }
    assert_eq!(last, (5, 3, 4, 2));
}

#[test]
fn a_repeated_vote_counts_once() {
    let (h, mut s) = seven();
    receive_and_judge(&h, &mut s, true);
    for signer in 0..3 {
        assert_eq!(progress(&h, &mut s, prevote(0, signer, 0, 2)), Some(vec![]));
    }
    for _ in 0..3 {
        assert_eq!(progress(&h, &mut s, prevote(0, 2, 0, 2)), Some(vec![]));
        assert_eq!(progress(&h, &mut s, nil_prevote(1, 0, 2)), Some(vec![]));
    }
    assert_eq!(s.step, ConsensusStep::Prevote);
    assert_eq!(s.votes.get(&0).unwrap().prevotes_total, 4);
    assert_eq!(
        progress(&h, &mut s, prevote(0, 3, 0, 2)),
        Some(vec![ConsensusResponse::BroadcastPrecommit { proposal: 0, round: 0 }])
    );
    for signer in 0..3 {
        assert_eq!(progress(&h, &mut s, precommit(0, signer, 0, 3)), Some(vec![]));
    }
    assert_eq!(progress(&h, &mut s, precommit(0, 0, 0, 3)), Some(vec![]));
    assert_eq!(s.votes.get(&0).unwrap().precommits_total, 4);
    assert_eq!(
        progress(&h, &mut s, precommit(0, 3, 0, 3)),
        Some(vec![ConsensusResponse::FinalizeBlock { proposal: 0 }])
    );
}
