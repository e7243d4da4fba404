//! The operation requests and their byte layout.
use vstd::prelude::*;
use crate::address::Address;
use crate::error::ProcessError;
use crate::layout::{le_value, read_u16, read_u64};
use crate::state::read_address;

verus! {

/// The operations, by selector byte 0 to 6.
#[derive(Clone, Copy, Debug)]
pub enum EscrowInstruction {
    /// Records the signer as the authority.
    Initialize,
    /// Deposits `amount` of native currency for `deadline_days` days.
    CreateBox { id: Address, deadline_days: u16, amount: u64 },
    /// Releases a currency box before its deadline.
    OpenBox,
    /// Hands an expired currency box to the authority.
    SweepBox,
    /// Deposits `amount` tokens for `deadline_days` days.
    CreateBoxToken { id: Address, deadline_days: u16, amount: u64 },
    /// Releases a token box before its deadline.
    OpenBoxToken,
    /// Hands an expired token box to the authority.
    SweepBoxToken,
}

/// Length of the payload of the two create operations: id, days, amount.
pub const CREATE_PAYLOAD_LEN: usize = 42;

/// `p` is the payload layout of `id`, `days` and `amount`.
pub open spec fn encodes_payload(p: Seq<u8>, id: Address, days: u16, amount: u64) -> bool {
    &&& p.len() == CREATE_PAYLOAD_LEN
    &&& p.subrange(0, 32) == id.bytes@
    &&& le_value(p.subrange(32, 34)) == days
    &&& le_value(p.subrange(34, 42)) == amount
}

/// `d` is a well-formed request: a known selector, and for the two create
/// operations a payload of exactly the payload's length.
pub open spec fn valid_request(d: Seq<u8>) -> bool {
    &&& d.len() >= 1
    &&& d[0] <= 6
    &&& (d[0] == 1 || d[0] == 4) ==> d.len() == 1 + CREATE_PAYLOAD_LEN
}

/// `i` is the request that the bytes `d` hold.
pub open spec fn request_of(d: Seq<u8>, i: EscrowInstruction) -> bool {
    match i {
        EscrowInstruction::Initialize => d[0] == 0,
        EscrowInstruction::CreateBox { id, deadline_days, amount } => d[0] == 1 && encodes_payload(
            d.drop_first(),
            id,
            deadline_days,
            amount,
        ),
        EscrowInstruction::OpenBox => d[0] == 2,
        EscrowInstruction::SweepBox => d[0] == 3,
        EscrowInstruction::CreateBoxToken { id, deadline_days, amount } => d[0] == 4
            && encodes_payload(d.drop_first(), id, deadline_days, amount),
        EscrowInstruction::OpenBoxToken => d[0] == 5,
        EscrowInstruction::SweepBoxToken => d[0] == 6,
    }
}

impl EscrowInstruction {
    /// Decodes a request: the selector byte, then the payload where the
    /// operation takes one.
    pub fn unpack(input: &Vec<u8>) -> (r: Result<EscrowInstruction, ProcessError>)
        ensures
            r.is_ok() == valid_request(input@),
            r.is_ok() ==> request_of(input@, r.unwrap()),
            r.is_err() ==> r == Err::<EscrowInstruction, ProcessError>(
                ProcessError::InvalidInstructionData,
            ),
    {
        if input.len() == 0 {
            return Err(ProcessError::InvalidInstructionData);
        }
        let variant = input[0];
        if variant == 1 || variant == 4 {
            if input.len() != 1 + CREATE_PAYLOAD_LEN {
                return Err(ProcessError::InvalidInstructionData);
            }
            let id = read_address(input, 1);
            let deadline_days = read_u16(input, 33);
            let amount = read_u64(input, 35);
            proof {
                let p = input@.drop_first();
                assert(p.subrange(0, 32) =~= input@.subrange(1, 33));
                assert(p.subrange(32, 34) =~= input@.subrange(33, 35));
                assert(p.subrange(34, 42) =~= input@.subrange(35, 43));
            }
            if variant == 1 {
                return Ok(EscrowInstruction::CreateBox { id, deadline_days, amount });
            } else {
                return Ok(EscrowInstruction::CreateBoxToken { id, deadline_days, amount });
            }
        }
        match variant {
            0 => Ok(EscrowInstruction::Initialize),
            2 => Ok(EscrowInstruction::OpenBox),
            3 => Ok(EscrowInstruction::SweepBox),
            5 => Ok(EscrowInstruction::OpenBoxToken),
            6 => Ok(EscrowInstruction::SweepBoxToken),
            _ => Err(ProcessError::InvalidInstructionData),
        }
    }
}

} // verus!
