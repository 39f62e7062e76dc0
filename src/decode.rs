//! Reading the voted slots out of a vote-program instruction.
use vstd::prelude::*;
use solana_sdk::instruction::InstructionError;
#[allow(deprecated)]
use solana_sdk::program_utils::limited_deserialize;
#[allow(deprecated)]
use solana_sdk::vote::instruction::VoteInstruction;
use crate::credits::Slot;
use crate::error::VoteMonitorError;

verus! {

/// Account key of the vote program, whose instructions carry votes.
pub const VOTE_PROGRAM_ID: [u8; 32] = [
    7, 97, 72, 29, 53, 116, 116, 187, 124, 77, 118, 36, 235, 211, 189, 179,
    216, 53, 94, 115, 209, 16, 67, 252, 13, 163, 83, 128, 0, 0, 0, 0,
];

/// One slot named by a vote instruction, with its confirmation count when
/// the instruction carries one.
#[derive(Debug, Clone, Copy, PartialEq, Eq, Structural)]
pub struct VoteSlotInfo {
    pub slot: Slot,
    pub confirmation_count: Option<u32>,
}

impl VoteSlotInfo {
    pub open spec fn spec_is_new_vote(self) -> bool {
        self.confirmation_count == Some(1u32)
    }

    pub fn new(slot: Slot, confirmation_count: Option<u32>) -> (r: Self)
        ensures
            r.slot == slot,
            r.confirmation_count == confirmation_count,
    {
        VoteSlotInfo { slot, confirmation_count }
    }

    /// A fresh vote: its confirmation count is exactly one.
    pub fn is_new_vote(&self) -> (r: bool)
        ensures
            r == self.spec_is_new_vote(),
    {
        match self.confirmation_count {
            Some(c) => c == 1,
            None => false,
        }
    }

    /// A replay of an earlier vote from the tower: confirmation count above one.
    pub fn is_existing_vote(&self) -> (r: bool)
        ensures
            r == (self.confirmation_count matches Some(c) && c > 1),
    {
        match self.confirmation_count {
            Some(c) => c > 1,
            None => false,
        }
    }
}

#[verifier::external_type_specification]
#[verifier::external_body]
pub struct ExInstructionError(InstructionError);

/// The slot content of a decoded vote instruction.
pub enum DecodedVote {
    /// A plain vote: the voted slots, each one a new vote.
    Slots(Vec<Slot>),
    /// A tower update: each slot with its confirmation count.
    Lockouts(Vec<(Slot, u32)>),
    /// A vote-program instruction that carries no votes.
    Other,
}

pub enum DecodedVoteView {
    Slots(Seq<Slot>),
    Lockouts(Seq<(Slot, u32)>),
    Other,
}

impl View for DecodedVote {
    type V = DecodedVoteView;

    open spec fn view(&self) -> DecodedVoteView {
        match self {
            DecodedVote::Slots(s) => DecodedVoteView::Slots(s@),
            DecodedVote::Lockouts(l) => DecodedVoteView::Lockouts(l@),
            DecodedVote::Other => DecodedVoteView::Other,
        }
    }
}

/// What the bincode decoding of a vote instruction gives for these bytes,
/// `None` where they do not decode.
pub uninterp spec fn decoded_vote_of(data: Seq<u8>) -> Option<DecodedVoteView>;

/// Relies on `solana_sdk::program_utils::limited_deserialize::<VoteInstruction>`:
/// the bincode decoding of the instruction bytes (an error for bytes that do
/// not decode), which depends on the bytes alone. The decoded variants are
/// sorted by what they carry, using `Lockout::slot` and
/// `Lockout::confirmation_count` for tower updates.
#[verifier::external_body]
fn decode_vote_instruction(data: &[u8]) -> (r: Result<DecodedVote, InstructionError>)
    ensures
        r matches Ok(d) ==> decoded_vote_of(data@) == Some(d@),
        r is Err ==> decoded_vote_of(data@) is None,
{
    #[allow(deprecated)]
    Ok(match limited_deserialize::<VoteInstruction>(data)? {
        VoteInstruction::Vote(v) | VoteInstruction::VoteSwitch(v, _) => DecodedVote::Slots(v.slots),
        VoteInstruction::UpdateVoteState(u) | VoteInstruction::UpdateVoteStateSwitch(u, _)
        | VoteInstruction::CompactUpdateVoteState(u)
        | VoteInstruction::CompactUpdateVoteStateSwitch(u, _) => DecodedVote::Lockouts(
            u.lockouts.iter().map(|l| (l.slot(), l.confirmation_count())).collect(),
        ),
        VoteInstruction::TowerSync(t) | VoteInstruction::TowerSyncSwitch(t, _) => DecodedVote::Lockouts(
            t.lockouts.iter().map(|l| (l.slot(), l.confirmation_count())).collect(),
        ),
        _ => DecodedVote::Other,
    })
}

/// The slot list a decoded instruction stands for: a plain vote names new
/// votes only; a tower update gives each slot its confirmation count.
pub open spec fn slot_infos_of(d: DecodedVoteView) -> Option<Seq<VoteSlotInfo>> {
    match d {
        DecodedVoteView::Slots(s) => Some(
            s.map_values(|x: Slot| VoteSlotInfo { slot: x, confirmation_count: Some(1u32) }),
        ),
        DecodedVoteView::Lockouts(l) => Some(
            l.map_values(
                |p: (Slot, u32)| VoteSlotInfo { slot: p.0, confirmation_count: Some(p.1) },
            ),
        ),
        DecodedVoteView::Other => None,
    }
}

/// The slot list of an instruction's bytes, `None` when they are not a
/// vote-carrying vote instruction.
pub open spec fn vote_slots_of(data: Seq<u8>) -> Option<Seq<VoteSlotInfo>> {
    match decoded_vote_of(data) {
        Some(d) => slot_infos_of(d),
        None => None,
    }
}

/// Turns a decoded instruction into its slot list; an instruction that
/// carries no votes is an error.
pub fn vote_slots_from_decoded(decoded: DecodedVote) -> (r: Result<Vec<VoteSlotInfo>, VoteMonitorError>)
    ensures
        r matches Ok(v) ==> slot_infos_of(decoded@) == Some(v@),
        r is Err <==> slot_infos_of(decoded@) is None,
        r matches Err(e) ==> e is VoteParsing,
{
    match decoded {
        DecodedVote::Slots(slots) => {
            let mut out: Vec<VoteSlotInfo> = Vec::new();
            let mut i: usize = 0;
            while i < slots.len()
                invariant
                    i <= slots@.len(),
                    out@ =~= slots@.subrange(0, i as int).map_values(
                        |x: Slot| VoteSlotInfo { slot: x, confirmation_count: Some(1u32) },
                    ),
                decreases slots@.len() - i,
            {
                out.push(VoteSlotInfo::new(slots[i], Some(1)));
                i = i + 1;
            }
            assert(slots@.subrange(0, i as int) =~= slots@);
            Ok(out)
        },
        DecodedVote::Lockouts(lockouts) => {
            let mut out: Vec<VoteSlotInfo> = Vec::new();
            let mut i: usize = 0;
            while i < lockouts.len()
                invariant
                    i <= lockouts@.len(),
                    out@ =~= lockouts@.subrange(0, i as int).map_values(
                        |p: (Slot, u32)| VoteSlotInfo { slot: p.0, confirmation_count: Some(p.1) },
                    ),
                decreases lockouts@.len() - i,
            {
                let (slot, count) = lockouts[i];
                out.push(VoteSlotInfo::new(slot, Some(count)));
                i = i + 1;
            }
            assert(lockouts@.subrange(0, i as int) =~= lockouts@);
            Ok(out)
        },
        DecodedVote::Other => Err(
            VoteMonitorError::VoteParsing(String::from_str("unknown vote instruction type")),
        ),
    }
}

/// Decodes a vote instruction's bytes into the slots it votes on.
pub fn parse_vote_instruction_data(data: &[u8]) -> (r: Result<Vec<VoteSlotInfo>, VoteMonitorError>)
    ensures
        r matches Ok(v) ==> vote_slots_of(data@) == Some(v@),
        r is Err <==> vote_slots_of(data@) is None,
        r matches Err(e) ==> e is VoteParsing,
{
    match decode_vote_instruction(data) {
        Ok(decoded) => vote_slots_from_decoded(decoded),
        Err(_) => Err(
            VoteMonitorError::VoteParsing(
                String::from_str("failed to deserialize vote instruction: invalid instruction data"),
            ),
        ),
    }
}

} // verus!
