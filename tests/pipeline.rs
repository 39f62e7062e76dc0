#[allow(deprecated)]
use solana_sdk::vote::instruction::{tower_sync, update_vote_state, vote, withdraw};
#[allow(deprecated)]
use solana_sdk::vote::state::{Lockout, TowerSync, Vote, VoteStateUpdate};

use solana_sdk::pubkey::Pubkey;
use std::collections::VecDeque;
use voteperfx::{
    parse_vote_instruction_data, process_finalized_block, process_finalized_block_at,
    process_vote_transaction, process_vote_transaction_at, BlockTransaction, BlockUpdate,
    InstructionInfo, MessageInfo, PerformanceStats, VoteMonitorError, VoteSlotInfo,
    VoteTracker, VoteTransactionInfo, VoteTransactionUpdate, VOTE_PROGRAM_ID,
};

const SIG: [u8; 64] = [7u8; 64];

#[allow(deprecated)]
fn vote_data(slots: Vec<u64>) -> Vec<u8> {
    let pk = Pubkey::default();
    vote(&pk, &pk, Vote::new(slots, solana_sdk::hash::Hash::default())).data
}

#[allow(deprecated)]
fn tower_data(lockouts: Vec<(u64, u32)>) -> Vec<u8> {
    let pk = Pubkey::default();
    let l: VecDeque<Lockout> = lockouts
        .into_iter()
        .map(|(s, c)| Lockout::new_with_confirmation_count(s, c))
        .collect();
    tower_sync(&pk, &pk, TowerSync::new(l, None, solana_sdk::hash::Hash::default(), solana_sdk::hash::Hash::default())).data
}

fn message(data: Vec<Vec<u8>>) -> MessageInfo {
    MessageInfo {
        account_keys: vec![vec![1u8; 32], VOTE_PROGRAM_ID.to_vec()],
        instructions: data
            .into_iter()
            .map(|d| InstructionInfo { program_id_index: 1, data: d })
            .collect(),
    }
}

fn tx_update(slot: u64, data: Vec<Vec<u8>>) -> VoteTransactionUpdate {
    VoteTransactionUpdate {
        slot,
        transaction: Some(VoteTransactionInfo {
            signature: SIG.to_vec(),
            is_vote: true,
            message: Some(message(data)),
        }),
    }
}

fn block(slot: u64, data: Vec<Vec<u8>>) -> BlockUpdate {
    BlockUpdate {
        slot,
        transactions: vec![Some(BlockTransaction {
            signatures: vec![SIG.to_vec()],
            message: Some(message(data)),
        })],
    }
}

#[test]
fn parse_plain_vote_marks_new_votes() {
    let infos = parse_vote_instruction_data(&vote_data(vec![10, 11])).unwrap();
    assert_eq!(infos, vec![VoteSlotInfo::new(10, Some(1)), VoteSlotInfo::new(11, Some(1))]);
    assert!(infos[0].is_new_vote());
    assert!(!infos[0].is_existing_vote());
}

#[test]
fn parse_tower_sync_keeps_confirmation_counts() {
    let infos = parse_vote_instruction_data(&tower_data(vec![(5, 3), (6, 2), (7, 1)])).unwrap();
    assert_eq!(
        infos,
        vec![
            VoteSlotInfo::new(5, Some(3)),
            VoteSlotInfo::new(6, Some(2)),
            VoteSlotInfo::new(7, Some(1))
        ]
    );
    assert!(infos[0].is_existing_vote());
    assert!(infos[2].is_new_vote());
}

#[test]
#[allow(deprecated)]
fn parse_vote_state_update() {
    let pk = Pubkey::default();
    let l: VecDeque<Lockout> = vec![Lockout::new_with_confirmation_count(40, 2), Lockout::new(41)]
        .into_iter()
        .collect();
    let data = update_vote_state(&pk, &pk, VoteStateUpdate::new(l, None, solana_sdk::hash::Hash::default())).data;
    let infos = parse_vote_instruction_data(&data).unwrap();
    assert_eq!(infos, vec![VoteSlotInfo::new(40, Some(2)), VoteSlotInfo::new(41, Some(1))]);
}

#[test]
#[allow(deprecated)]
fn parse_rejects_non_vote_and_garbage() {
    let pk = Pubkey::default();
    let data = withdraw(&pk, &pk, 5, &pk).data;
    assert!(matches!(parse_vote_instruction_data(&data), Err(VoteMonitorError::VoteParsing(_))));
    assert!(matches!(parse_vote_instruction_data(&[0xff, 0xff]), Err(VoteMonitorError::VoteParsing(_))));
    assert!(matches!(parse_vote_instruction_data(&[]), Err(VoteMonitorError::VoteParsing(_))));
}

#[test]
fn end_to_end_vote_confirmed_four_slots_later() {
    let mut tracker = VoteTracker::new_at(0);
    let mut stats = PerformanceStats::new_at(0);
    process_vote_transaction_at(&tx_update(1000, vec![vote_data(vec![1000])]), &mut tracker, 1).unwrap();
    assert_eq!(tracker.get_stats().pending_votes, 1);
    let confirmed = process_finalized_block_at(&block(1004, vec![vote_data(vec![1000])]), &mut tracker, 2);
    assert_eq!(confirmed.len(), 1);
    assert_eq!(confirmed[0].latency, 4);
    assert_eq!(confirmed[0].tvc_credits, 14);
    assert_eq!(confirmed[0].voted_slot, 1000);
    assert_eq!(confirmed[0].finalized_slot, 1004);
    assert_eq!(*confirmed[0].signature, fd_bs58::encode_64(SIG));
    for c in confirmed {
        stats.add_confirmed_vote(c);
    }
    assert_eq!(stats.total_transactions(), 1);
    assert_eq!(stats.optimal_votes(), 0);
    assert_eq!(stats.good_votes(), 1);
    assert_eq!(tracker.get_stats().pending_votes, 0);
}

#[test]
fn same_block_twice_yields_nothing_second_time() {
    let mut tracker = VoteTracker::new_at(0);
    let mut stats = PerformanceStats::new_at(0);
    process_vote_transaction_at(&tx_update(1000, vec![vote_data(vec![1000])]), &mut tracker, 1).unwrap();
    let b = block(1002, vec![vote_data(vec![1000])]);
    let first = process_finalized_block_at(&b, &mut tracker, 2);
    assert_eq!(first.len(), 1);
    for c in first {
        stats.add_confirmed_vote(c);
    }
    let second = process_finalized_block_at(&b, &mut tracker, 3);
    assert!(second.is_empty());
    for c in second {
        stats.add_confirmed_vote(c);
    }
    assert_eq!(stats.total_transactions(), 1);
    assert_eq!(stats.total_tvc_earned(), 16);
    assert_eq!(tracker.get_stats().processed_slots, 1);
}

#[test]
fn tower_replays_are_not_pending() {
    let mut tracker = VoteTracker::new_at(0);
    process_vote_transaction_at(&tx_update(90, vec![tower_data(vec![(80, 5), (81, 4)])]), &mut tracker, 1).unwrap();
    assert_eq!(tracker.get_stats().pending_votes, 0);
    process_vote_transaction_at(&tx_update(90, vec![tower_data(vec![(80, 5), (90, 1)])]), &mut tracker, 1).unwrap();
    assert_eq!(tracker.get_stats().pending_votes, 1);
}

#[test]
fn malformed_instruction_is_skipped_not_fatal() {
    let mut tracker = VoteTracker::new_at(0);
    process_vote_transaction_at(
        &tx_update(1000, vec![vec![0xde, 0xad], vote_data(vec![1000])]),
        &mut tracker,
        1,
    )
    .unwrap();
    assert_eq!(tracker.get_stats().pending_votes, 1);
    let confirmed = process_finalized_block_at(
        &block(1010, vec![vec![1, 2, 3], vote_data(vec![1000])]),
        &mut tracker,
        2,
    );
    assert_eq!(confirmed.len(), 1);
    assert_eq!(confirmed[0].latency, 10);
    assert_eq!(confirmed[0].tvc_credits, 8);
}

#[test]
fn first_matching_slot_ends_a_block_transaction() {
    let mut tracker = VoteTracker::new_at(0);
    process_vote_transaction_at(&tx_update(500, vec![vote_data(vec![499, 500])]), &mut tracker, 1).unwrap();
    let confirmed = process_finalized_block_at(&block(503, vec![vote_data(vec![400, 500, 499])]), &mut tracker, 2);
    assert_eq!(confirmed.len(), 1);
    assert_eq!(confirmed[0].voted_slot, 500);
    assert_eq!(confirmed[0].latency, 3);
}

#[test]
fn update_without_transaction_is_an_error() {
    let mut tracker = VoteTracker::new_at(0);
    let r = process_vote_transaction(VoteTransactionUpdate { slot: 1, transaction: None }, "acct", &mut tracker);
    assert!(matches!(r, Err(VoteMonitorError::VoteParsing(_))));
    let short = VoteTransactionUpdate {
        slot: 1,
        transaction: Some(VoteTransactionInfo { signature: vec![1, 2], is_vote: true, message: None }),
    };
    assert!(matches!(process_vote_transaction(short, "acct", &mut tracker), Err(VoteMonitorError::VoteParsing(_))));
    let not_vote = VoteTransactionUpdate {
        slot: 1,
        transaction: Some(VoteTransactionInfo { signature: vec![1, 2], is_vote: false, message: None }),
    };
    assert!(process_vote_transaction(not_vote, "acct", &mut tracker).is_ok());
    assert_eq!(tracker.get_stats().pending_votes, 0);
}

#[test]
fn other_program_instructions_are_ignored() {
    let mut tracker = VoteTracker::new_at(0);
    let mut u = tx_update(1000, vec![vote_data(vec![1000])]);
    if let Some(t) = u.transaction.as_mut() {
        if let Some(m) = t.message.as_mut() {
            m.instructions[0].program_id_index = 0;
        }
    }
    process_vote_transaction_at(&u, &mut tracker, 1).unwrap();
    assert_eq!(tracker.get_stats().pending_votes, 0);
}

#[test]
fn block_without_pending_gives_late_confirmation() {
    let mut tracker = VoteTracker::new_at(0);
    let confirmed = process_finalized_block(block(2005, vec![vote_data(vec![2000])]), "acct", &mut tracker).unwrap();
    assert_eq!(confirmed.len(), 1);
    assert_eq!(confirmed[0].latency, 5);
    assert_eq!(confirmed[0].tvc_credits, 13);
    assert_eq!(tracker.get_stats().confirmed_votes, 0);
}

#[test]
fn block_finalized_before_voted_slot_confirms_nothing() {
    let mut tracker = VoteTracker::new_at(0);
    process_vote_transaction_at(&tx_update(50, vec![vote_data(vec![50])]), &mut tracker, 1).unwrap();
    let confirmed = process_finalized_block_at(&block(40, vec![vote_data(vec![50])]), &mut tracker, 2);
    assert!(confirmed.is_empty());
    let s = tracker.get_stats();
    assert_eq!(s.pending_votes, 1);
    assert_eq!(s.confirmed_votes, 0);
    assert_eq!(s.processed_slots, 1);
}
