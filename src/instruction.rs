//! The three operations and their payload: a tag byte, then the fields.
use vstd::prelude::*;
use crate::wire::{
    append_bytes, lemma_le_i64_injective, lemma_le_u64_injective, i64_to_le, le_i64, le_u64, read_i64_le, read_u64_le, u64_to_le};

verus! {

#[derive(Debug, Clone, Copy, PartialEq, Eq, Structural)]
pub enum FuturityInstruction {
    CreateTimeLockDeposit { amount: u64, unlock_time: i64 },
    WithdrawDeposit,
    CloseExpiredDeposit,
}

impl FuturityInstruction {
    pub open spec fn spec_pack(self) -> Seq<u8> {
        match self {
            FuturityInstruction::CreateTimeLockDeposit { amount, unlock_time } => seq![0u8]
                + le_u64(amount) + le_i64(unlock_time),
            FuturityInstruction::WithdrawDeposit => seq![1u8],
            FuturityInstruction::CloseExpiredDeposit => seq![2u8],
        }
    }

    pub fn pack(&self) -> (r: Vec<u8>)
        ensures
            r@ == self.spec_pack(),
    {
        let mut out: Vec<u8> = Vec::new();
        match self {
            FuturityInstruction::CreateTimeLockDeposit { amount, unlock_time } => {
                out.push(0u8);
                let v = u64_to_le(*amount);
                append_bytes(&mut out, v.as_slice());
                let v = i64_to_le(*unlock_time);
                append_bytes(&mut out, v.as_slice());
            },
            FuturityInstruction::WithdrawDeposit => {
                out.push(1u8);
            },
            FuturityInstruction::CloseExpiredDeposit => {
                out.push(2u8);
            },
        }
        assert(out@ =~= self.spec_pack());
        out
    }

    /// Reads an operation from its payload; `None` when no operation is
    /// written as exactly these bytes.
    pub fn unpack(data: &[u8]) -> (r: Option<FuturityInstruction>)
        ensures
            r == stored_instruction(data@),
            match r {
                Some(ix) => ix.spec_pack() == data@,
                None => forall|ix: FuturityInstruction| #[trigger] ix.spec_pack() != data@,
            },
    {
        if data.len() == 17 && data[0] == 0 {
            let amount = read_u64_le(data, 1);
            let unlock_time = read_i64_le(data, 9);
            let ix = FuturityInstruction::CreateTimeLockDeposit { amount, unlock_time };
            assert(ix.spec_pack() =~= data@);
            proof {
                lemma_instruction_injective(ix, stored_instruction(data@).unwrap());
            }
            Some(ix)
        } else if data.len() == 1 && data[0] == 1 {
            assert(FuturityInstruction::WithdrawDeposit.spec_pack() =~= data@);
            proof {
                lemma_instruction_injective(
                    FuturityInstruction::WithdrawDeposit,
                    stored_instruction(data@).unwrap(),
                );
            }
            Some(FuturityInstruction::WithdrawDeposit)
        } else if data.len() == 1 && data[0] == 2 {
            assert(FuturityInstruction::CloseExpiredDeposit.spec_pack() =~= data@);
            proof {
                lemma_instruction_injective(
                    FuturityInstruction::CloseExpiredDeposit,
                    stored_instruction(data@).unwrap(),
                );
            }
            Some(FuturityInstruction::CloseExpiredDeposit)
        } else {
            proof {
                assert forall|ix: FuturityInstruction| #[trigger] ix.spec_pack() != data@ by {
                    if ix.spec_pack() == data@ {
                        assert(ix.spec_pack()[0] == data@[0]);
                    }
                }
            }
            None
        }
    }
}

/// The operation written as exactly these bytes, if any.
pub open spec fn stored_instruction(data: Seq<u8>) -> Option<FuturityInstruction> {
    if exists|ix: FuturityInstruction| #[trigger] ix.spec_pack() == data {
        Some(choose|ix: FuturityInstruction| #[trigger] ix.spec_pack() == data)
    } else {
        None
    }
}

proof fn lemma_first_byte(ix: FuturityInstruction)
    ensures
        ix.spec_pack().len() >= 1,
        ix.spec_pack()[0] == match ix {
            FuturityInstruction::CreateTimeLockDeposit { .. } => 0u8,
            FuturityInstruction::WithdrawDeposit => 1u8,
            FuturityInstruction::CloseExpiredDeposit => 2u8,
        },
{
    match ix {
        FuturityInstruction::CreateTimeLockDeposit { amount, unlock_time } => {
            assert((seq![0u8] + le_u64(amount) + le_i64(unlock_time))[0] == 0u8);
        },
        _ => {},
    }
}

/// Two operations with the same payload are the same operation.
pub proof fn lemma_instruction_injective(a: FuturityInstruction, b: FuturityInstruction)
    requires
        a.spec_pack() == b.spec_pack(),
    ensures
        a == b,
{
    lemma_first_byte(a);
    lemma_first_byte(b);
    match (a, b) {
        (
            FuturityInstruction::CreateTimeLockDeposit { amount: a1, unlock_time: u1 },
            FuturityInstruction::CreateTimeLockDeposit { amount: a2, unlock_time: u2 },
        ) => {
            assert(a.spec_pack().subrange(1, 9) =~= le_u64(a1));
            assert(b.spec_pack().subrange(1, 9) =~= le_u64(a2));
            assert(a.spec_pack().subrange(9, 17) =~= le_i64(u1));
            assert(b.spec_pack().subrange(9, 17) =~= le_i64(u2));
            lemma_le_u64_injective(a1, a2);
            lemma_le_i64_injective(u1, u2);
        },
        _ => {},
    }
}

} // verus!
