//! Intake of vote transactions and of finalized blocks: the two event
//! streams that drive the tracker.
use vstd::prelude::*;
use std::sync::Arc;
use crate::clock::now_millis;
use crate::credits::Slot;
use crate::decode::{parse_vote_instruction_data, vote_slots_of, VoteSlotInfo, VOTE_PROGRAM_ID};
use crate::error::VoteMonitorError;
use crate::signature::{base58_of, signature_key};
use crate::stats::{record_all_spec, StatsView};
use crate::tracker::{
    add_pending_spec, confirm_spec, mark_processed_spec, TrackerView, VoteTracker,
    PROCESSED_CAPACITY,
};
use crate::vote::{opt_view, ConfirmedVote, ConfirmedVoteView, PendingVote, PendingVoteView};

verus! {

/// An instruction of a transaction message: the index of its program among
/// the message's account keys, and its data.
#[derive(Debug)]
pub struct InstructionInfo {
    pub program_id_index: u32,
    pub data: Vec<u8>,
}

/// A transaction message: account keys and instructions.
#[derive(Debug)]
pub struct MessageInfo {
    pub account_keys: Vec<Vec<u8>>,
    pub instructions: Vec<InstructionInfo>,
}

/// The transaction carried by a transaction update.
#[derive(Debug)]
pub struct VoteTransactionInfo {
    pub signature: Vec<u8>,
    pub is_vote: bool,
    pub message: Option<MessageInfo>,
}

/// A transaction observed at `slot`.
#[derive(Debug)]
pub struct VoteTransactionUpdate {
    pub slot: Slot,
    pub transaction: Option<VoteTransactionInfo>,
}

/// A transaction inside a finalized block.
#[derive(Debug)]
pub struct BlockTransaction {
    pub signatures: Vec<Vec<u8>>,
    pub message: Option<MessageInfo>,
}

/// A finalized block at `slot`.
#[derive(Debug)]
pub struct BlockUpdate {
    pub slot: Slot,
    pub transactions: Vec<Option<BlockTransaction>>,
}

/// Whether the instruction's program is the vote program.
pub open spec fn is_vote_instruction(account_keys: Seq<Vec<u8>>, ix: InstructionInfo) -> bool {
    &&& (ix.program_id_index as int) < account_keys.len()
    &&& account_keys[ix.program_id_index as int]@ == VOTE_PROGRAM_ID@
}

/// The slots of new votes (confirmation count one), in order.
pub open spec fn new_vote_slots(infos: Seq<VoteSlotInfo>) -> Seq<Slot>
    decreases infos.len(),
{
    if infos.len() == 0 {
        Seq::empty()
    } else if infos.last().spec_is_new_vote() {
        new_vote_slots(infos.drop_last()).push(infos.last().slot)
    } else {
        new_vote_slots(infos.drop_last())
    }
}

/// The new-vote slots an instruction's data names; none when it does not
/// decode as a vote-carrying instruction.
pub open spec fn instruction_new_slots(data: Seq<u8>) -> Seq<Slot> {
    match vote_slots_of(data) {
        Some(infos) => new_vote_slots(infos),
        None => Seq::empty(),
    }
}

/// The new-vote slots of all vote-program instructions, in order.
pub open spec fn candidate_slots(account_keys: Seq<Vec<u8>>, ixs: Seq<InstructionInfo>) -> Seq<Slot>
    decreases ixs.len(),
{
    if ixs.len() == 0 {
        Seq::empty()
    } else if is_vote_instruction(account_keys, ixs.last()) {
        candidate_slots(account_keys, ixs.drop_last()) + instruction_new_slots(ixs.last().data@)
    } else {
        candidate_slots(account_keys, ixs.drop_last())
    }
}

/// Whether confirming `slot` yields a confirmation.
pub open spec fn confirmable(v: TrackerView, signature: Seq<char>, slot: Slot, finalized_slot: Slot) -> bool {
    confirm_spec(v, signature, slot, finalized_slot, 0).1 is Some
}

/// Index of the first confirmable slot, or -1.
pub open spec fn first_confirmable(
    v: TrackerView,
    signature: Seq<char>,
    finalized_slot: Slot,
    slots: Seq<Slot>,
) -> int
    decreases slots.len(),
{
    if slots.len() == 0 {
        -1
    } else {
        let f = first_confirmable(v, signature, finalized_slot, slots.drop_last());
        if f >= 0 {
            f
        } else if confirmable(v, signature, slots.last(), finalized_slot) {
            slots.len() - 1
        } else {
            -1
        }
    }
}

/// A transaction of a finalized block: its first confirmable new-vote slot
/// is confirmed, and no other.
pub open spec fn block_transaction_spec(
    v: TrackerView,
    signature: Seq<char>,
    finalized_slot: Slot,
    timestamp: i64,
    tx: BlockTransaction,
) -> (TrackerView, Option<ConfirmedVoteView>) {
    match tx.message {
        Some(m) => {
            let c = candidate_slots(m.account_keys@, m.instructions@);
            let f = first_confirmable(v, signature, finalized_slot, c);
            if f < 0 {
                (v, None)
            } else {
                confirm_spec(v, signature, c[f], finalized_slot, timestamp)
            }
        },
        None => (v, None),
    }
}

/// Whether a block transaction has a usable signature.
pub open spec fn has_signature(tx: BlockTransaction) -> bool {
    tx.signatures@.len() > 0 && tx.signatures@[0]@.len() >= 64
}

/// The transactions of a finalized block, in order: the state they leave and
/// the confirmations they yield.
pub open spec fn block_transactions_spec(
    v: TrackerView,
    finalized_slot: Slot,
    timestamp: i64,
    txs: Seq<Option<BlockTransaction>>,
) -> (TrackerView, Seq<ConfirmedVoteView>)
    decreases txs.len(),
{
    if txs.len() == 0 {
        (v, Seq::empty())
    } else {
        let (v1, out) = block_transactions_spec(v, finalized_slot, timestamp, txs.drop_last());
        match txs.last() {
            Some(tx) => if has_signature(tx) {
                let sig = base58_of(signature_key(tx.signatures@[0]@));
                let (v2, r) = block_transaction_spec(v1, sig, finalized_slot, timestamp, tx);
                match r {
                    Some(c) => (v2, out.push(c)),
                    None => (v2, out),
                }
            } else {
                (v1, out)
            },
            None => (v1, out),
        }
    }
}

/// A finalized block: ignored when its slot was processed recently;
/// otherwise its slot is marked processed and its transactions are run.
pub open spec fn finalized_block_spec(v: TrackerView, block: BlockUpdate, timestamp: i64) -> (
    TrackerView,
    Seq<ConfirmedVoteView>,
) {
    if v.processed.contains(block.slot) {
        (v, Seq::empty())
    } else {
        block_transactions_spec(
            mark_processed_spec(v, block.slot),
            block.slot,
            timestamp,
            block.transactions@,
        )
    }
}

/// Transaction intake: each vote-program instruction with new votes records
/// a pending vote, in order.
pub open spec fn intake_spec(
    v: TrackerView,
    signature: Seq<char>,
    transaction_slot: Slot,
    account_keys: Seq<Vec<u8>>,
    ixs: Seq<InstructionInfo>,
    now: i64,
) -> TrackerView
    decreases ixs.len(),
{
    if ixs.len() == 0 {
        v
    } else {
        let v1 = intake_spec(v, signature, transaction_slot, account_keys, ixs.drop_last(), now);
        let ix = ixs.last();
        let slots = instruction_new_slots(ix.data@);
        if is_vote_instruction(account_keys, ix) && slots.len() > 0 {
            add_pending_spec(
                v1,
                PendingVoteView {
                    signature,
                    voted_slots: slots,
                    transaction_slot,
                    timestamp: now,
                    instruction_data: ix.data@,
                },
                now,
            )
        } else {
            v1
        }
    }
}

/// The tracker state after a transaction update at time `now`.
pub open spec fn transaction_update_spec(v: TrackerView, update: VoteTransactionUpdate, now: i64) -> TrackerView {
    match update.transaction {
        Some(t) => if t.is_vote && t.signature@.len() >= 64 {
            match t.message {
                Some(m) => intake_spec(
                    v,
                    base58_of(signature_key(t.signature@)),
                    update.slot,
                    m.account_keys@,
                    m.instructions@,
                    now,
                ),
                None => v,
            }
        } else {
            v
        },
        None => v,
    }
}

/// Processing the same finalized block a second time and recording what it
/// yields leaves the statistics exactly as they were.
pub proof fn lemma_replayed_block_leaves_stats(
    v: TrackerView,
    block: BlockUpdate,
    timestamp: i64,
    later_timestamp: i64,
    stats: StatsView,
)
    ensures
        ({
            let (v1, _) = finalized_block_spec(v, block, timestamp);
            record_all_spec(stats, finalized_block_spec(v1, block, later_timestamp).1) == stats
        }),
{
    lemma_finalized_block_idempotent(v, block, timestamp, later_timestamp);
}

proof fn lemma_block_transactions_keep_processed(
    v: TrackerView,
    finalized_slot: Slot,
    timestamp: i64,
    txs: Seq<Option<BlockTransaction>>,
)
    ensures
        block_transactions_spec(v, finalized_slot, timestamp, txs).0.processed == v.processed,
    decreases txs.len(),
{
    if txs.len() > 0 {
        lemma_block_transactions_keep_processed(v, finalized_slot, timestamp, txs.drop_last());
    }
}

/// Processing the same finalized block a second time yields no
/// confirmations and leaves the tracker as the first time left it; with no
/// confirmations, nothing reaches the statistics either.
pub proof fn lemma_finalized_block_idempotent(
    v: TrackerView,
    block: BlockUpdate,
    timestamp: i64,
    later_timestamp: i64,
)
    ensures
        ({
            let (v1, _) = finalized_block_spec(v, block, timestamp);
            finalized_block_spec(v1, block, later_timestamp) == (v1, Seq::<ConfirmedVoteView>::empty())
        }),
{
    let (v1, _) = finalized_block_spec(v, block, timestamp);
    if !v.processed.contains(block.slot) {
        let vm = mark_processed_spec(v, block.slot);
        lemma_block_transactions_keep_processed(vm, block.slot, timestamp, block.transactions@);
        let p = vm.processed;
        assert(p.last() == block.slot);
        assert(p.contains(block.slot)) by {
            assert(p[p.len() - 1] == block.slot);
        }
    }
}

/// A block slot is remembered at most once: if the processed slots hold no
/// repeats, processing a finalized block keeps it so.
pub proof fn lemma_processed_slots_stay_distinct(v: TrackerView, block: BlockUpdate, timestamp: i64)
    requires
        v.processed.no_duplicates(),
    ensures
        finalized_block_spec(v, block, timestamp).0.processed.no_duplicates(),
{
    if !v.processed.contains(block.slot) {
        let vm = mark_processed_spec(v, block.slot);
        lemma_block_transactions_keep_processed(vm, block.slot, timestamp, block.transactions@);
        let grown = v.processed.push(block.slot);
        assert(grown.no_duplicates()) by {
            assert forall|i: int, j: int|
                0 <= i < grown.len() && 0 <= j < grown.len() && i != j implies grown[i]
                != grown[j] by {
                if i == grown.len() - 1 {
                    assert(v.processed[j] == grown[j]);
                } else if j == grown.len() - 1 {
                    assert(v.processed[i] == grown[i]);
                }
            }
        }
        if v.processed.len() >= PROCESSED_CAPACITY {
            assert forall|i: int, j: int|
                0 <= i < grown.drop_first().len() && 0 <= j < grown.drop_first().len() && i
                    != j implies grown.drop_first()[i] != grown.drop_first()[j] by {
                assert(grown.drop_first()[i] == grown[i + 1]);
                assert(grown.drop_first()[j] == grown[j + 1]);
            }
        }
    }
}

fn is_vote_program_key(account_keys: &Vec<Vec<u8>>, index: u32) -> (r: bool)
    ensures
        r == ((index as int) < account_keys@.len() && account_keys@[index as int]@
            == VOTE_PROGRAM_ID@),
{
    let idx = index as usize;
    if idx >= account_keys.len() {
        return false;
    }
    let key = &account_keys[idx];
    if key.len() != 32 {
        return false;
    }
    let mut i: usize = 0;
    while i < 32
        invariant
            i <= 32,
            key@.len() == 32,
            (idx as int) < account_keys@.len(),
            idx == index as usize,
            *key == account_keys@[idx as int],
            forall|k: int| 0 <= k < i ==> key@[k] == VOTE_PROGRAM_ID@[k],
        decreases 32 - i,
    {
        if key[i] != VOTE_PROGRAM_ID[i] {
            assert(key@[i as int] != VOTE_PROGRAM_ID@[i as int]);
            return false;
        }
        i = i + 1;
    }
    assert(key@ =~= VOTE_PROGRAM_ID@);
    true
}

fn collect_new_vote_slots(infos: &Vec<VoteSlotInfo>) -> (r: Vec<Slot>)
    ensures
        r@ == new_vote_slots(infos@),
{
    let mut out: Vec<Slot> = Vec::new();
    let mut i: usize = 0;
    while i < infos.len()
        invariant
            i <= infos@.len(),
            out@ == new_vote_slots(infos@.subrange(0, i as int)),
        decreases infos@.len() - i,
    {
        assert(infos@.subrange(0, i + 1).drop_last() =~= infos@.subrange(0, i as int));
        if infos[i].is_new_vote() {
            out.push(infos[i].slot);
        }
        i = i + 1;
    }
    assert(infos@.subrange(0, i as int) =~= infos@);
    out
}

/// The new-vote slots of one instruction's data; none when the data does not
/// decode (the instruction is skipped, the rest goes on).
fn instruction_slots(data: &Vec<u8>) -> (r: Vec<Slot>)
    ensures
        r@ == instruction_new_slots(data@),
{
    match parse_vote_instruction_data(data.as_slice()) {
        Ok(infos) => collect_new_vote_slots(&infos),
        Err(_) => Vec::new(),
    }
}

fn message_candidate_slots(m: &MessageInfo) -> (r: Vec<Slot>)
    ensures
        r@ == candidate_slots(m.account_keys@, m.instructions@),
{
    let mut out: Vec<Slot> = Vec::new();
    let mut i: usize = 0;
    while i < m.instructions.len()
        invariant
            i <= m.instructions@.len(),
            out@ == candidate_slots(m.account_keys@, m.instructions@.subrange(0, i as int)),
        decreases m.instructions@.len() - i,
    {
        let ix = &m.instructions[i];
        assert(m.instructions@.subrange(0, i + 1).drop_last() =~= m.instructions@.subrange(0, i as int));
        if is_vote_program_key(&m.account_keys, ix.program_id_index) {
            let slots = instruction_slots(&ix.data);
            let ghost before = out@;
            let mut j: usize = 0;
            while j < slots.len()
                invariant
                    j <= slots@.len(),
                    out@ == before + slots@.subrange(0, j as int),
                decreases slots@.len() - j,
            {
                out.push(slots[j]);
                j = j + 1;
                assert(out@ =~= before + slots@.subrange(0, j as int));
            }
            assert(slots@.subrange(0, j as int) =~= slots@);
        }
        i = i + 1;
    }
    assert(m.instructions@.subrange(0, i as int) =~= m.instructions@);
    out
}

proof fn lemma_first_confirmable_extends(
    v: TrackerView,
    signature: Seq<char>,
    finalized_slot: Slot,
    slots: Seq<Slot>,
    j: int,
)
    requires
        0 <= j <= slots.len(),
        first_confirmable(v, signature, finalized_slot, slots.subrange(0, j)) >= 0,
    ensures
        first_confirmable(v, signature, finalized_slot, slots) == first_confirmable(
            v,
            signature,
            finalized_slot,
            slots.subrange(0, j),
        ),
    decreases slots.len() - j,
{
    if j == slots.len() {
        assert(slots.subrange(0, j) =~= slots);
    } else {
        assert(slots.subrange(0, j + 1).drop_last() =~= slots.subrange(0, j));
        lemma_first_confirmable_extends(v, signature, finalized_slot, slots, j + 1);
    }
}

/// Records the pending votes of one transaction's vote-program
/// instructions; instructions whose data does not decode are skipped.
fn intake_instructions(
    m: &MessageInfo,
    signature: &Arc<String>,
    transaction_slot: Slot,
    vote_tracker: &mut VoteTracker,
    now: i64,
)
    requires
        old(vote_tracker).wf(),
    ensures
        final(vote_tracker).wf(),
        final(vote_tracker)@ == intake_spec(
            old(vote_tracker)@,
            signature@,
            transaction_slot,
            m.account_keys@,
            m.instructions@,
            now,
        ),
{
    let mut i: usize = 0;
    assert(m.instructions@.subrange(0, 0) =~= Seq::<InstructionInfo>::empty());
    while i < m.instructions.len()
        invariant
            vote_tracker.wf(),
            i <= m.instructions@.len(),
            vote_tracker@ == intake_spec(
                old(vote_tracker)@,
                signature@,
                transaction_slot,
                m.account_keys@,
                m.instructions@.subrange(0, i as int),
                now,
            ),
        decreases m.instructions@.len() - i,
    {
        let ix = &m.instructions[i];
        assert(m.instructions@.subrange(0, i + 1).drop_last() =~= m.instructions@.subrange(0, i as int));
        if is_vote_program_key(&m.account_keys, ix.program_id_index) {
            let slots = instruction_slots(&ix.data);
            if slots.len() > 0 {
                let pending = PendingVote {
                    signature: signature.clone(),
                    voted_slots: slots,
                    transaction_slot,
                    timestamp: now,
                    instruction_data: ix.data.clone(),
                };
                vote_tracker.add_pending_vote_at(pending, now);
            }
        }
        i = i + 1;
    }
    assert(m.instructions@.subrange(0, i as int) =~= m.instructions@);
}

/// Applies a transaction update at time `now`: a vote transaction with a
/// 64-byte signature records a pending vote for each of its vote-program
/// instructions that names new votes. An update without a transaction, or
/// whose signature is shorter than 64 bytes, is an error and changes nothing.
pub fn process_vote_transaction_at(
    tx_update: &VoteTransactionUpdate,
    vote_tracker: &mut VoteTracker,
    now: i64,
) -> (r: Result<(), VoteMonitorError>)
    requires
        old(vote_tracker).wf(),
    ensures
        final(vote_tracker).wf(),
        final(vote_tracker)@ == transaction_update_spec(old(vote_tracker)@, *tx_update, now),
        r is Err <==> (tx_update.transaction is None || (tx_update.transaction matches Some(t)
            && t.is_vote && t.signature@.len() < 64)),
        r matches Err(e) ==> e is VoteParsing,
{
    match &tx_update.transaction {
        None => Err(VoteMonitorError::VoteParsing(String::from_str("empty transaction"))),
        Some(t) => {
            if !t.is_vote {
                return Ok(());
            }
            if t.signature.len() < 64 {
                return Err(VoteMonitorError::VoteParsing(String::from_str("malformed signature")));
            }
            let signature = vote_tracker.get_or_cache_signature(t.signature.as_slice());
            match &t.message {
                Some(m) => intake_instructions(m, &signature, tx_update.slot, vote_tracker, now),
                None => {},
            }
            Ok(())
        },
    }
}

/// Applies a transaction update as `process_vote_transaction_at` does, at
/// the current time.
pub fn process_vote_transaction(
    tx_update: VoteTransactionUpdate,
    _vote_account: &str,
    vote_tracker: &mut VoteTracker,
) -> (r: Result<(), VoteMonitorError>)
    requires
        old(vote_tracker).wf(),
    ensures
        final(vote_tracker).wf(),
        exists|now: i64| final(vote_tracker)@ == transaction_update_spec(old(vote_tracker)@, tx_update, now),
        r is Err <==> (tx_update.transaction is None || (tx_update.transaction matches Some(t)
            && t.is_vote && t.signature@.len() < 64)),
        r matches Err(e) ==> e is VoteParsing,
{
    process_vote_transaction_at(&tx_update, vote_tracker, now_millis())
}

/// Runs one transaction of a finalized block: the first of its new-vote
/// slots that confirms is confirmed, and the transaction is done.
pub fn process_transaction_in_block(
    transaction: &BlockTransaction,
    signature: Arc<String>,
    finalized_slot: Slot,
    vote_tracker: &mut VoteTracker,
    timestamp: i64,
) -> (r: Option<ConfirmedVote>)
    requires
        old(vote_tracker).wf(),
    ensures
        final(vote_tracker).wf(),
        (final(vote_tracker)@, opt_view(r)) == block_transaction_spec(
            old(vote_tracker)@,
            signature@,
            finalized_slot,
            timestamp,
            *transaction,
        ),
{
    match &transaction.message {
        Some(m) => {
            let slots = message_candidate_slots(m);
            let ghost v0 = vote_tracker@;
            let mut k: usize = 0;
            while k < slots.len()
                invariant
                    vote_tracker.wf(),
                    vote_tracker@ == v0,
                    v0 == old(vote_tracker)@,
                    k <= slots@.len(),
                    slots@ == candidate_slots(m.account_keys@, m.instructions@),
                    transaction.message == Some(*m),
                    first_confirmable(v0, signature@, finalized_slot, slots@.subrange(0, k as int))
                        == -1,
                decreases slots@.len() - k,
            {
                assert(slots@.subrange(0, k + 1).drop_last() =~= slots@.subrange(0, k as int));
                let r = vote_tracker.confirm_vote_at(signature.clone(), slots[k], finalized_slot, timestamp);
                if r.is_some() {
                    proof {
                        assert(confirmable(v0, signature@, slots@[k as int], finalized_slot));
                        assert(slots@.subrange(0, k + 1).last() == slots@[k as int]);
                        assert(first_confirmable(v0, signature@, finalized_slot, slots@.subrange(0, k + 1)) == k);
                        lemma_first_confirmable_extends(v0, signature@, finalized_slot, slots@, k + 1);
                    }
                    return r;
                }
                k = k + 1;
            }
            assert(slots@.subrange(0, k as int) =~= slots@);
            None
        },
        None => None,
    }
}

/// Runs a finalized block against the tracker, stamping confirmations with
/// `timestamp`. A block whose slot was processed recently yields nothing and
/// changes nothing; malformed instructions are skipped.
pub fn process_finalized_block_at(
    block_update: &BlockUpdate,
    vote_tracker: &mut VoteTracker,
    timestamp: i64,
) -> (r: Vec<ConfirmedVote>)
    requires
        old(vote_tracker).wf(),
    ensures
        final(vote_tracker).wf(),
        (final(vote_tracker)@, r@.map_values(|c: ConfirmedVote| c@)) == finalized_block_spec(
            old(vote_tracker)@,
            *block_update,
            timestamp,
        ),
{
    let mut confirmed: Vec<ConfirmedVote> = Vec::new();
    let finalized_slot = block_update.slot;
    if vote_tracker.has_processed_slot(finalized_slot) {
        assert(confirmed@.map_values(|c: ConfirmedVote| c@) =~= Seq::<ConfirmedVoteView>::empty());
        return confirmed;
    }
    vote_tracker.mark_slot_processed(finalized_slot);
    let ghost v1 = vote_tracker@;
    let txs = &block_update.transactions;
    let mut i: usize = 0;
    assert(txs@.subrange(0, 0) =~= Seq::<Option<BlockTransaction>>::empty());
    assert(confirmed@.map_values(|c: ConfirmedVote| c@) =~= Seq::<ConfirmedVoteView>::empty());
    while i < txs.len()
        invariant
            vote_tracker.wf(),
            i <= txs@.len(),
            (vote_tracker@, confirmed@.map_values(|c: ConfirmedVote| c@)) == block_transactions_spec(
                v1,
                finalized_slot,
                timestamp,
                txs@.subrange(0, i as int),
            ),
        decreases txs@.len() - i,
    {
        assert(txs@.subrange(0, i + 1).drop_last() =~= txs@.subrange(0, i as int));
        let ghost before = confirmed@.map_values(|c: ConfirmedVote| c@);
        match &txs[i] {
            Some(tx) => {
                if tx.signatures.len() > 0 && tx.signatures[0].len() >= 64 {
                    let signature = vote_tracker.get_or_cache_signature(tx.signatures[0].as_slice());
                    let r = process_transaction_in_block(
                        tx,
                        signature,
                        finalized_slot,
                        vote_tracker,
                        timestamp,
                    );
                    match r {
                        Some(c) => {
                            confirmed.push(c);
                            assert(confirmed@.map_values(|c: ConfirmedVote| c@) =~= before.push(c@));
                        },
                        None => {},
                    }
                }
            },
            None => {},
        }
        i = i + 1;
    }
    assert(txs@.subrange(0, i as int) =~= txs@);
    confirmed
}

/// Runs a finalized block against the tracker, stamping confirmations with
/// the current time.
pub fn process_finalized_block(
    block_update: BlockUpdate,
    _vote_account: &str,
    vote_tracker: &mut VoteTracker,
) -> (r: Result<Vec<ConfirmedVote>, VoteMonitorError>)
    requires
        old(vote_tracker).wf(),
    ensures
        final(vote_tracker).wf(),
        r matches Ok(v) && exists|ts: i64|
            (final(vote_tracker)@, v@.map_values(|c: ConfirmedVote| c@)) == finalized_block_spec(
                old(vote_tracker)@,
                block_update,
                ts,
            ),
{
    let ts = now_millis();
    Ok(process_finalized_block_at(&block_update, vote_tracker, ts))
}

} // verus!
