//! The instruction dispatcher's wire format: a tagged union of five
//! commands in a byte-exact, length-prefixed encoding.  Decoding touches no
//! state and fails with a single decode error on any malformed payload.

use vstd::prelude::*;

use vstd::bytes::{spec_u32_from_le_bytes, spec_u64_from_le_bytes};
use vstd::utf8::valid_utf8;

use crate::addr::Address;
use crate::codec::{bytes_of_range, is_valid_utf8, read_u32_le, read_u64_le};
use crate::error::PoolError;

verus! {

/// One decoded call into the pool controller.
#[derive(Clone, Debug)]
pub enum StakePoolInstruction {
    /// Create and configure a new pool.
    Initialize {
        /// Pool name as UTF-8 bytes.
        name: Vec<u8>,
        /// Fee percentage, 0 to 100.
        fee_percentage: u8,
        /// The single validator the pool delegates to.
        helius_validator_vote: Address,
    },
    /// Deposit native-asset units.
    Stake { amount: u64 },
    /// Burn claim-tokens and request deactivation.
    Unstake { amount: u64 },
    /// Advance the reward epoch marker.
    ClaimRewards,
    /// Settle a cooled-down withdrawal.
    WithdrawStake,
}

/// The mathematical model of an instruction.
pub enum InstructionView {
    Initialize { name: Seq<u8>, fee_percentage: u8, helius_validator_vote: Seq<u8> },
    Stake { amount: u64 },
    Unstake { amount: u64 },
    ClaimRewards,
    WithdrawStake,
}

impl View for StakePoolInstruction {
    type V = InstructionView;

    open spec fn view(&self) -> InstructionView {
        match self {
            StakePoolInstruction::Initialize { name, fee_percentage, helius_validator_vote } => {
                InstructionView::Initialize {
                    name: name@,
                    fee_percentage: *fee_percentage,
                    helius_validator_vote: helius_validator_vote@,
                }
            },
            StakePoolInstruction::Stake { amount } => InstructionView::Stake { amount: *amount },
            StakePoolInstruction::Unstake { amount } => InstructionView::Unstake {
                amount: *amount,
            },
            StakePoolInstruction::ClaimRewards => InstructionView::ClaimRewards,
            StakePoolInstruction::WithdrawStake => InstructionView::WithdrawStake,
        }
    }
}

/// The wire grammar: a one-byte variant tag, then that variant's fields.
/// `Initialize` carries a four-byte little-endian length, that many UTF-8
/// name bytes, one fee byte and a 32-byte validator address; the amounts
/// are eight-byte little-endian integers; the last two variants carry
/// nothing.  A payload parses only when it is consumed exactly.
pub open spec fn parse_instruction(bytes: Seq<u8>) -> Option<InstructionView> {
    if bytes.len() == 0 {
        None
    } else if bytes[0] == 0 {
        if bytes.len() < 5 {
            None
        } else {
            let nlen = spec_u32_from_le_bytes(bytes.subrange(1, 5)) as int;
            if bytes.len() == 38 + nlen && valid_utf8(bytes.subrange(5, 5 + nlen)) {
                Some(
                    InstructionView::Initialize {
                        name: bytes.subrange(5, 5 + nlen),
                        fee_percentage: bytes[5 + nlen],
                        helius_validator_vote: bytes.subrange(6 + nlen, 38 + nlen),
                    },
                )
            } else {
                None
            }
        }
    } else if bytes[0] == 1 {
        if bytes.len() == 9 {
            Some(InstructionView::Stake { amount: spec_u64_from_le_bytes(bytes.subrange(1, 9)) })
        } else {
            None
        }
    } else if bytes[0] == 2 {
        if bytes.len() == 9 {
            Some(InstructionView::Unstake { amount: spec_u64_from_le_bytes(bytes.subrange(1, 9)) })
        } else {
            None
        }
    } else if bytes[0] == 3 {
        if bytes.len() == 1 {
            Some(InstructionView::ClaimRewards)
        } else {
            None
        }
    } else if bytes[0] == 4 {
        if bytes.len() == 1 {
            Some(InstructionView::WithdrawStake)
        } else {
            None
        }
    } else {
        None
    }
}

/// The wire encoding of an instruction, the inverse of
/// [`parse_instruction`].
pub open spec fn instruction_bytes(iv: InstructionView) -> Seq<u8> {
    match iv {
        InstructionView::Initialize { name, fee_percentage, helius_validator_vote } => seq![0u8]
            + vstd::bytes::spec_u32_to_le_bytes(name.len() as u32) + name + seq![fee_percentage]
            + helius_validator_vote,
        InstructionView::Stake { amount } => seq![1u8] + vstd::bytes::spec_u64_to_le_bytes(amount),
        InstructionView::Unstake { amount } => seq![2u8] + vstd::bytes::spec_u64_to_le_bytes(
            amount,
        ),
        InstructionView::ClaimRewards => seq![3u8],
        InstructionView::WithdrawStake => seq![4u8],
    }
}

/// Decoding inverts the wire encoding: every instruction whose name is
/// UTF-8 of a length the length prefix can carry, and whose validator
/// address has its 32 bytes, comes back from its own bytes unchanged.
pub proof fn lemma_instruction_round_trip(iv: InstructionView)
    requires
        iv matches InstructionView::Initialize { name, fee_percentage, helius_validator_vote }
            ==> name.len() <= 0xFFFF_FFFF && valid_utf8(name) && helius_validator_vote.len() == 32,
    ensures
        parse_instruction(instruction_bytes(iv)) == Some(iv),
{
    vstd::bytes::lemma_auto_spec_u32_to_from_le_bytes();
    vstd::bytes::lemma_auto_spec_u64_to_from_le_bytes();
    let b = instruction_bytes(iv);
    match iv {
        InstructionView::Initialize { name, fee_percentage, helius_validator_vote } => {
            let n = name.len() as int;
            assert(b.len() == 38 + n);
            assert(b[0] == 0);
            assert(b.subrange(1, 5) =~= vstd::bytes::spec_u32_to_le_bytes(name.len() as u32));
            assert(b.subrange(5, 5 + n) =~= name);
            assert(b[5 + n] == fee_percentage);
            assert(b.subrange(6 + n, 38 + n) =~= helius_validator_vote);
        },
        InstructionView::Stake { amount } => {
            assert(b.len() == 9);
            assert(b[0] == 1);
            assert(b.subrange(1, 9) =~= vstd::bytes::spec_u64_to_le_bytes(amount));
        },
        InstructionView::Unstake { amount } => {
            assert(b.len() == 9);
            assert(b[0] == 2);
            assert(b.subrange(1, 9) =~= vstd::bytes::spec_u64_to_le_bytes(amount));
        },
        InstructionView::ClaimRewards => {
            assert(b.len() == 1 && b[0] == 3);
        },
        InstructionView::WithdrawStake => {
            assert(b.len() == 1 && b[0] == 4);
        },
    }
}

/// Decodes a payload, or fails with the single decode error exactly on the
/// payloads the wire grammar refuses.
pub fn decode_instruction(data: &Vec<u8>) -> (r: Result<StakePoolInstruction, PoolError>)
    ensures
        r matches Ok(i) ==> parse_instruction(data@) == Some(i@),
        r is Err ==> parse_instruction(data@) is None && r == Err::<
            StakePoolInstruction,
            PoolError,
        >(PoolError::InvalidInstructionData),
{
    let n = data.len();
    if n == 0 {
        return Err(PoolError::InvalidInstructionData);
    }
    let tag = data[0];
    if tag == 0 {
        if n < 5 {
            return Err(PoolError::InvalidInstructionData);
        }
        let nlen32 = read_u32_le(data, 1);
        if (n as u64) != 38u64 + (nlen32 as u64) {
            return Err(PoolError::InvalidInstructionData);
        }
        let nlen: usize = nlen32 as usize;
        let name = bytes_of_range(data, 5, 5 + nlen);
        if !is_valid_utf8(&name) {
            return Err(PoolError::InvalidInstructionData);
        }
        let fee_percentage = data[5 + nlen];
        let helius_validator_vote = Address::from_slice_at(data, 6 + nlen);
        Ok(StakePoolInstruction::Initialize { name, fee_percentage, helius_validator_vote })
    } else if tag == 1 {
        if n != 9 {
            return Err(PoolError::InvalidInstructionData);
        }
        Ok(StakePoolInstruction::Stake { amount: read_u64_le(data, 1) })
    } else if tag == 2 {
        if n != 9 {
            return Err(PoolError::InvalidInstructionData);
        }
        Ok(StakePoolInstruction::Unstake { amount: read_u64_le(data, 1) })
    } else if tag == 3 {
        if n != 1 {
            return Err(PoolError::InvalidInstructionData);
        }
        Ok(StakePoolInstruction::ClaimRewards)
    } else if tag == 4 {
        if n != 1 {
            return Err(PoolError::InvalidInstructionData);
        }
        Ok(StakePoolInstruction::WithdrawStake)
    } else {
        Err(PoolError::InvalidInstructionData)
    }
}

} // verus!
