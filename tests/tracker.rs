use std::sync::Arc;
use voteperfx::{PendingVote, SignatureCache, VoteTracker};

fn pending(signature: &str, slots: Vec<u64>, transaction_slot: u64) -> PendingVote {
    PendingVote {
        signature: Arc::new(signature.to_string()),
        voted_slots: slots,
        transaction_slot,
        timestamp: 0,
        instruction_data: vec![],
    }
}

#[test]
fn confirm_pending_vote_removes_entry() {
    let mut t = VoteTracker::new_at(0);
    t.add_pending_vote_at(pending("sig", vec![100, 101], 101), 1);
    assert_eq!(t.get_stats().pending_votes, 1);
    let c = t.confirm_vote_at(Arc::new("sig".to_string()), 101, 105, 7).unwrap();
    assert_eq!(c.signature.as_str(), "sig");
    assert_eq!(c.voted_slot, 101);
    assert_eq!(c.finalized_slot, 105);
    assert_eq!(c.latency, 4);
    assert_eq!(c.tvc_credits, 14);
    assert_eq!(c.timestamp, 7);
    let s = t.get_stats();
    assert_eq!(s.pending_votes, 0);
    assert_eq!(s.confirmed_votes, 1);
}

#[test]
fn second_slot_of_confirmed_vote_takes_late_path() {
    let mut t = VoteTracker::new_at(0);
    t.add_pending_vote_at(pending("sig", vec![100, 101], 101), 1);
    let first = t.confirm_vote_at(Arc::new("sig".to_string()), 101, 110, 1).unwrap();
    assert_eq!(first.latency, 9);
    let late = t.confirm_vote_at(Arc::new("sig".to_string()), 100, 120, 2).unwrap();
    assert_eq!(late.latency, 20);
    assert_eq!(late.tvc_credits, 1);
    let s = t.get_stats();
    assert_eq!(s.pending_votes, 0);
    assert_eq!(s.confirmed_votes, 1);
}

#[test]
fn finalized_before_voted_is_rejected() {
    let mut t = VoteTracker::new_at(0);
    t.add_pending_vote_at(pending("sig", vec![50], 50), 1);
    assert!(t.confirm_vote_at(Arc::new("sig".to_string()), 50, 40, 1).is_none());
    assert!(t.confirm_vote_at(Arc::new("other".to_string()), 50, 40, 1).is_none());
    let s = t.get_stats();
    assert_eq!(s.pending_votes, 1);
    assert_eq!(s.confirmed_votes, 0);
}

#[test]
fn slot_not_in_pending_vote_yields_nothing() {
    let mut t = VoteTracker::new_at(0);
    t.add_pending_vote_at(pending("sig", vec![100], 100), 1);
    assert!(t.confirm_vote_at(Arc::new("sig".to_string()), 99, 104, 1).is_none());
    assert_eq!(t.get_stats().pending_votes, 1);
    assert!(t.confirm_vote_at(Arc::new("sig".to_string()), 100, 104, 1).is_some());
}

#[test]
fn unknown_signature_is_confirmed_directly() {
    let mut t = VoteTracker::new_at(0);
    let c = t.confirm_vote_at(Arc::new("never-seen".to_string()), 200, 203, 5).unwrap();
    assert_eq!(c.latency, 3);
    assert_eq!(c.tvc_credits, 15);
    let s = t.get_stats();
    assert_eq!(s.confirmed_votes, 0);
    assert_eq!(s.pending_votes, 0);
}

#[test]
fn reinserting_signature_overwrites() {
    let mut t = VoteTracker::new_at(0);
    t.add_pending_vote_at(pending("sig", vec![10], 10), 1);
    t.add_pending_vote_at(pending("sig", vec![20], 20), 2);
    assert_eq!(t.get_stats().pending_votes, 1);
    assert!(t.confirm_vote_at(Arc::new("sig".to_string()), 10, 30, 3).is_none());
    assert_eq!(t.confirm_vote_at(Arc::new("sig".to_string()), 20, 30, 3).unwrap().latency, 10);
}

#[test]
fn sweep_drops_old_pending_votes_once_a_minute() {
    let mut t = VoteTracker::new_at(0);
    t.mark_slot_processed(500);
    t.add_pending_vote_at(pending("old", vec![300], 300), 1_000);
    t.add_pending_vote_at(pending("edge", vec![400], 400), 2_000);
    t.add_pending_vote_at(pending("new", vec![450], 450), 3_000);
    assert_eq!(t.get_stats().pending_votes, 3);
    t.add_pending_vote_at(pending("newer", vec![480], 480), 60_000);
    assert_eq!(t.get_stats().pending_votes, 2);
    assert!(t.confirm_vote_at(Arc::new("new".to_string()), 450, 501, 1).is_some());
    t.add_pending_vote_at(pending("stale", vec![1], 1), 100_000);
    assert_eq!(t.get_stats().pending_votes, 2);
}

#[test]
fn processed_slots_are_remembered_for_fifty_blocks() {
    let mut t = VoteTracker::new_at(0);
    assert!(!t.has_processed_slot(7));
    t.mark_slot_processed(7);
    assert!(t.has_processed_slot(7));
    for s in 100..149u64 {
        t.mark_slot_processed(s);
    }
    assert!(t.has_processed_slot(7));
    t.mark_slot_processed(149);
    assert!(!t.has_processed_slot(7));
    assert_eq!(t.get_stats().processed_slots, 50);
}

#[test]
fn signature_text_is_base58_of_first_64_bytes() {
    let mut cache = SignatureCache::new(2);
    let a = [3u8; 64];
    let mut longer = a.to_vec();
    longer.extend_from_slice(&[9, 9]);
    let text = cache.get_or_insert(&a);
    assert_eq!(*text, fd_bs58::encode_64(a));
    assert_ne!(text.as_bytes(), &a[..]);
    let again = cache.get_or_insert(&longer);
    assert_eq!(again, text);
    assert!(Arc::ptr_eq(&again, &text));
    let b = [4u8; 64];
    let c = [5u8; 64];
    assert_eq!(*cache.get_or_insert(&b), fd_bs58::encode_64(b));
    assert_eq!(*cache.get_or_insert(&c), fd_bs58::encode_64(c));
    let evicted_then_back = cache.get_or_insert(&a);
    assert_eq!(*evicted_then_back, fd_bs58::encode_64(a));
    assert!(!Arc::ptr_eq(&evicted_then_back, &text));
}

#[test]
fn tracker_signature_cache_matches_encoding() {
    let mut t = VoteTracker::new_at(0);
    let bytes = [200u8; 64];
    assert_eq!(*t.get_or_cache_signature(&bytes), fd_bs58::encode_64(bytes));
}

#[test]
fn signature_text_of_unaligned_slice() {
    let buf: Vec<u8> = (0u8..80).collect();
    let mut cache = SignatureCache::new(4);
    for start in 1..5usize {
        let text = cache.get_or_insert(&buf[start..start + 64]);
        let mut key = [0u8; 64];
        key.copy_from_slice(&buf[start..start + 64]);
        assert_eq!(*text, fd_bs58::encode_64(key));
    }
}
