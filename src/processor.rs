//! The box lifecycle: each operation checks its accounts and inputs, and
//! returns the plan of effects that the execution environment carries out
//! atomically.
use vstd::prelude::*;
use crate::address::{
    check_associated_account, is_associated_account, box_seed_list, box_seeds, bump_of,
    check_derived, derives_to, program_state_seed_list, program_state_seeds,
    token_box_seed_list, token_box_seeds, vault_seed_list, vault_seeds, Address,
};
use crate::error::{EscrowError, ProcessError};
use crate::token::{holds_no_tokens, token_account_amount};
use crate::instruction::{request_of, valid_request, EscrowInstruction};
use crate::state::{
    encodes_box, encodes_program_state, encodes_token_box, Box, ProgramState, TokenBox, BOX_LEN,
    PROGRAM_STATE_LEN, TOKEN_BOX_LEN,
};

verus! {

/// Longest lock, in days.
pub const MAX_DEADLINE_DAYS: u16 = 365;

pub const SECONDS_PER_DAY: i64 = 86400;

/// What the program sees of one account.
#[derive(Clone, Debug)]
pub struct AccountInfo {
    pub key: Address,
    pub owner: Address,
    pub is_signer: bool,
    pub data: Vec<u8>,
}

/// Create the authority record at `state`, funded by `authority`, signed
/// with the record's seeds and `bump`, and write `record` into it.
#[derive(Clone, Copy, Debug)]
pub struct InitPlan {
    pub authority: Address,
    pub state: Address,
    pub bump: u8,
    pub record: ProgramState,
}

/// Create the box account at `box_address`, funded by `sender`, signed with
/// the box's seeds and `bump`; write `record`; move `record.amount` from
/// `sender` to the box.
#[derive(Clone, Copy, Debug)]
pub struct CreatePlan {
    pub sender: Address,
    pub box_address: Address,
    pub bump: u8,
    pub record: Box,
}

/// Move `amount` from the box at `box_address` to `to`, and write `record`,
/// the box closed.
#[derive(Clone, Copy, Debug)]
pub struct ReleasePlan {
    pub box_address: Address,
    pub to: Address,
    pub amount: u64,
    pub record: Box,
}

/// Create the token box account at `token_box`, funded by `sender`, signed
/// with its seeds and `bump`; write `record`; create the vault where
/// `create_vault` holds; transfer `record.amount` tokens from
/// `sender_token_account` to `vault`, signed by `sender`.
#[derive(Clone, Copy, Debug)]
pub struct CreateTokenPlan {
    pub sender: Address,
    pub sender_token_account: Address,
    pub token_box: Address,
    pub bump: u8,
    pub vault: Address,
    pub vault_authority: Address,
    pub create_vault: bool,
    pub record: TokenBox,
}

/// Transfer `amount` tokens from `vault` to `destination`, then close
/// `vault` and refund its deposit to `rent_to`, both signed by
/// `vault_authority` with the vault seeds of `token_box` and `vault_bump`;
/// write `record`, the box closed.
#[derive(Clone, Copy, Debug)]
pub struct TokenReleasePlan {
    pub token_box: Address,
    pub vault: Address,
    pub destination: Address,
    pub rent_to: Address,
    pub vault_authority: Address,
    pub vault_bump: u8,
    pub amount: u64,
    pub record: TokenBox,
}

/// The effects that an accepted operation asks for.
#[derive(Clone, Copy, Debug)]
pub enum Action {
    Initialize(InitPlan),
    CreateBox(CreatePlan),
    Release(ReleasePlan),
    CreateTokenBox(CreateTokenPlan),
    ReleaseToken(TokenReleasePlan),
}

pub open spec fn same(a: Address, b: Address) -> bool {
    a.bytes@ == b.bytes@
}

/// How many accounts the operation with selector `sel` reads.
pub open spec fn accounts_needed(sel: u8) -> nat {
    if sel == 0 || sel == 1 || sel == 3 {
        3
    } else if sel == 2 {
        2
    } else if sel == 4 {
        9
    } else if sel == 5 {
        6
    } else {
        7
    }
}

pub open spec fn lift_init(r: Result<InitPlan, ProcessError>) -> Result<Action, ProcessError> {
    match r {
        Ok(p) => Ok(Action::Initialize(p)),
        Err(e) => Err(e),
    }
}

pub open spec fn lift_create(r: Result<CreatePlan, ProcessError>) -> Result<Action, ProcessError> {
    match r {
        Ok(p) => Ok(Action::CreateBox(p)),
        Err(e) => Err(e),
    }
}

pub open spec fn lift_release(r: Result<ReleasePlan, ProcessError>) -> Result<Action, ProcessError> {
    match r {
        Ok(p) => Ok(Action::Release(p)),
        Err(e) => Err(e),
    }
}

pub open spec fn lift_create_token(r: Result<CreateTokenPlan, ProcessError>) -> Result<
    Action,
    ProcessError,
> {
    match r {
        Ok(p) => Ok(Action::CreateTokenBox(p)),
        Err(e) => Err(e),
    }
}

pub open spec fn lift_release_token(r: Result<TokenReleasePlan, ProcessError>) -> Result<
    Action,
    ProcessError,
> {
    match r {
        Ok(p) => Ok(Action::ReleaseToken(p)),
        Err(e) => Err(e),
    }
}

/// The outcome of the well-formed request `d` on the accounts `a`, which
/// are enough for it.
pub open spec fn dispatch_result(
    program_id: Address,
    a: Seq<AccountInfo>,
    d: Seq<u8>,
    now: i64,
    r: Result<Action, ProcessError>,
) -> bool {
    let sel = d[0];
    if sel == 0 {
        r == lift_init(
            initialize_result(
                program_id,
                a[0].key,
                a[0].is_signer,
                a[1].key,
                same(a[1].owner, program_id) || a[1].data@.len() > 0,
            ),
        )
    } else if sel == 1 {
        exists|i: EscrowInstruction|
            request_of(d, i) && r == lift_create(
                create_box_result(
                    program_id,
                    a[0].key,
                    a[0].is_signer,
                    a[1].key,
                    same(a[1].owner, program_id) || a[1].data@.len() > 0,
                    i->CreateBox_id,
                    i->CreateBox_deadline_days,
                    i->CreateBox_amount,
                    now,
                ),
            )
    } else if sel == 2 {
        if !same(a[0].owner, program_id) {
            r == Err::<Action, ProcessError>(ProcessError::InvalidAccountOwner)
        } else if a[0].data@.len() != BOX_LEN {
            r == Err::<Action, ProcessError>(ProcessError::InvalidAccountData)
        } else {
            exists|b: Box|
                encodes_box(b, a[0].data@) && r == lift_release(
                    open_box_result(program_id, a[0].key, a[0].owner, b, a[1].key, now),
                )
        }
    } else if sel == 3 {
        if !same(a[0].owner, program_id) || !same(a[1].owner, program_id) {
            r == Err::<Action, ProcessError>(ProcessError::InvalidAccountOwner)
        } else if a[0].data@.len() != PROGRAM_STATE_LEN || a[1].data@.len() != BOX_LEN {
            r == Err::<Action, ProcessError>(ProcessError::InvalidAccountData)
        } else {
            exists|st: ProgramState, b: Box|
                encodes_program_state(st, a[0].data@) && encodes_box(b, a[1].data@) && r
                    == lift_release(
                    sweep_box_result(
                        program_id,
                        a[0].key,
                        a[0].owner,
                        st,
                        a[1].key,
                        a[1].owner,
                        b,
                        a[2].key,
                        now,
                    ),
                )
        }
    } else if sel == 4 {
        exists|i: EscrowInstruction|
            request_of(d, i) && r == lift_create_token(
                create_box_token_result(
                    program_id,
                    a[0].key,
                    a[0].is_signer,
                    a[1].key,
                    a[2].key,
                    same(a[2].owner, program_id) || a[2].data@.len() > 0,
                    a[3].key,
                    a[4].key,
                    a[5].key,
                    a[3].data@,
                    i->CreateBoxToken_id,
                    i->CreateBoxToken_deadline_days,
                    i->CreateBoxToken_amount,
                    now,
                ),
            )
    } else if sel == 5 {
        if !same(a[0].owner, program_id) {
            r == Err::<Action, ProcessError>(ProcessError::InvalidAccountOwner)
        } else if a[0].data@.len() != TOKEN_BOX_LEN {
            r == Err::<Action, ProcessError>(ProcessError::InvalidAccountData)
        } else {
            exists|b: TokenBox|
                encodes_token_box(b, a[0].data@) && r == lift_release_token(
                    open_box_token_result(
                        program_id,
                        a[0].key,
                        a[0].owner,
                        b,
                        a[1].key,
                        a[2].key,
                        a[3].key,
                        a[4].key,
                        now,
                    ),
                )
        }
    } else {
        if !same(a[0].owner, program_id) || !same(a[1].owner, program_id) {
            r == Err::<Action, ProcessError>(ProcessError::InvalidAccountOwner)
        } else if a[0].data@.len() != PROGRAM_STATE_LEN || a[1].data@.len() != TOKEN_BOX_LEN {
            r == Err::<Action, ProcessError>(ProcessError::InvalidAccountData)
        } else {
            exists|st: ProgramState, b: TokenBox|
                encodes_program_state(st, a[0].data@) && encodes_token_box(b, a[1].data@) && r
                    == lift_release_token(
                    sweep_box_token_result(
                        program_id,
                        a[0].key,
                        a[0].owner,
                        st,
                        a[1].key,
                        a[1].owner,
                        b,
                        a[2].key,
                        a[3].key,
                        a[4].key,
                        a[4].is_signer,
                        a[5].key,
                        now,
                    ),
                )
        }
    }
}

/// The deadline `days` days after `now`, if it is a positive instant that
/// fits the clock's range: zero marks a closed box.
pub open spec fn deadline_after(now: i64, days: u16) -> Option<i64> {
    let d = now + days * SECONDS_PER_DAY;
    if 0 < d <= i64::MAX {
        Some(d as i64)
    } else {
        None
    }
}

pub open spec fn valid_days(days: u16) -> bool {
    1 <= days <= MAX_DEADLINE_DAYS
}

pub open spec fn initialize_result(
    program_id: Address,
    authority: Address,
    authority_signs: bool,
    state: Address,
    state_in_use: bool,
) -> Result<InitPlan, ProcessError> {
    if !authority_signs {
        Err(ProcessError::MissingRequiredSignature)
    } else if !derives_to(program_state_seeds(), program_id, state) {
        Err(ProcessError::InvalidSeeds)
    } else if state_in_use {
        Err(ProcessError::AccountAlreadyInitialized)
    } else {
        Ok(
            InitPlan {
                authority,
                state,
                bump: bump_of(program_state_seeds(), program_id),
                record: ProgramState { authority },
            },
        )
    }
}

pub open spec fn create_box_result(
    program_id: Address,
    sender: Address,
    sender_signs: bool,
    box_address: Address,
    box_in_use: bool,
    id: Address,
    days: u16,
    amount: u64,
    now: i64,
) -> Result<CreatePlan, ProcessError> {
    if !sender_signs {
        Err(ProcessError::MissingRequiredSignature)
    } else if !valid_days(days) {
        Err(ProcessError::Escrow(EscrowError::BadDeadline))
    } else if amount == 0 {
        Err(ProcessError::Escrow(EscrowError::NoSol))
    } else if !derives_to(box_seeds(sender, id), program_id, box_address) {
        Err(ProcessError::InvalidSeeds)
    } else if box_in_use {
        Err(ProcessError::AccountAlreadyInitialized)
    } else if deadline_after(now, days).is_none() {
        Err(ProcessError::ArithmeticOverflow)
    } else {
        Ok(
            CreatePlan {
                sender,
                box_address,
                bump: bump_of(box_seeds(sender, id), program_id),
                record: Box { sender, id, deadline: deadline_after(now, days).unwrap(), amount },
            },
        )
    }
}

pub open spec fn open_box_result(
    program_id: Address,
    box_address: Address,
    box_owner: Address,
    b: Box,
    recipient: Address,
    now: i64,
) -> Result<ReleasePlan, ProcessError> {
    if !same(box_owner, program_id) {
        Err(ProcessError::InvalidAccountOwner)
    } else if b.deadline == 0 {
        Err(ProcessError::Escrow(EscrowError::UnknownId))
    } else if now >= b.deadline {
        Err(ProcessError::Escrow(EscrowError::TooLate))
    } else if !derives_to(box_seeds(b.sender, b.id), program_id, box_address) {
        Err(ProcessError::InvalidSeeds)
    } else if same(recipient, box_address) {
        Err(ProcessError::RecipientIsBox)
    } else {
        Ok(ReleasePlan { box_address, to: recipient, amount: b.amount, record: b.closed() })
    }
}

pub open spec fn sweep_box_result(
    program_id: Address,
    state: Address,
    state_owner: Address,
    st: ProgramState,
    box_address: Address,
    box_owner: Address,
    b: Box,
    authority: Address,
    now: i64,
) -> Result<ReleasePlan, ProcessError> {
    if !same(state_owner, program_id) || !same(box_owner, program_id) {
        Err(ProcessError::InvalidAccountOwner)
    } else if !same(authority, st.authority) {
        Err(ProcessError::Escrow(EscrowError::Unauthorized))
    } else if b.deadline == 0 {
        Err(ProcessError::Escrow(EscrowError::UnknownId))
    } else if now < b.deadline {
        Err(ProcessError::Escrow(EscrowError::NotExpired))
    } else if !derives_to(program_state_seeds(), program_id, state) {
        Err(ProcessError::InvalidSeeds)
    } else if !derives_to(box_seeds(b.sender, b.id), program_id, box_address) {
        Err(ProcessError::InvalidSeeds)
    } else if same(authority, box_address) {
        Err(ProcessError::RecipientIsBox)
    } else {
        Ok(ReleasePlan { box_address, to: authority, amount: b.amount, record: b.closed() })
    }
}

pub open spec fn create_box_token_result(
    program_id: Address,
    sender: Address,
    sender_signs: bool,
    sender_token_account: Address,
    token_box: Address,
    token_box_in_use: bool,
    vault: Address,
    mint: Address,
    vault_authority: Address,
    vault_data: Seq<u8>,
    id: Address,
    days: u16,
    amount: u64,
    now: i64,
) -> Result<CreateTokenPlan, ProcessError> {
    if !sender_signs {
        Err(ProcessError::MissingRequiredSignature)
    } else if !valid_days(days) {
        Err(ProcessError::Escrow(EscrowError::BadDeadline))
    } else if amount == 0 {
        Err(ProcessError::Escrow(EscrowError::NoSol))
    } else if !derives_to(token_box_seeds(sender, id), program_id, token_box) {
        Err(ProcessError::InvalidSeeds)
    } else if token_box_in_use {
        Err(ProcessError::AccountAlreadyInitialized)
    } else if !derives_to(vault_seeds(token_box), program_id, vault_authority) {
        Err(ProcessError::InvalidSeeds)
    } else if !is_associated_account(vault_authority, mint, vault) {
        Err(ProcessError::Escrow(EscrowError::InvalidTokenAccount))
    } else if vault_data.len() > 0 && token_account_amount(vault_data) != Some(0u64) {
        Err(ProcessError::Escrow(EscrowError::InvalidTokenAccount))
    } else if deadline_after(now, days).is_none() {
        Err(ProcessError::ArithmeticOverflow)
    } else {
        Ok(
            CreateTokenPlan {
                sender,
                sender_token_account,
                token_box,
                bump: bump_of(token_box_seeds(sender, id), program_id),
                vault,
                vault_authority,
                create_vault: vault_data.len() == 0,
                record: TokenBox {
                    sender,
                    id,
                    deadline: deadline_after(now, days).unwrap(),
                    amount,
                    mint,
                },
            },
        )
    }
}

/// The checks on the vault shared by release and sweep of a token box, and
/// the plan that follows them.
pub open spec fn token_release(
    program_id: Address,
    token_box: Address,
    b: TokenBox,
    vault: Address,
    destination: Address,
    rent_to: Address,
    vault_authority: Address,
) -> Result<TokenReleasePlan, ProcessError> {
    if !derives_to(vault_seeds(token_box), program_id, vault_authority) {
        Err(ProcessError::InvalidSeeds)
    } else if !is_associated_account(vault_authority, b.mint, vault) {
        Err(ProcessError::Escrow(EscrowError::InvalidTokenAccount))
    } else {
        Ok(
            TokenReleasePlan {
                token_box,
                vault,
                destination,
                rent_to,
                vault_authority,
                vault_bump: bump_of(vault_seeds(token_box), program_id),
                amount: b.amount,
                record: b.closed(),
            },
        )
    }
}

pub open spec fn open_box_token_result(
    program_id: Address,
    token_box: Address,
    box_owner: Address,
    b: TokenBox,
    vault: Address,
    recipient_token_account: Address,
    rent_to: Address,
    vault_authority: Address,
    now: i64,
) -> Result<TokenReleasePlan, ProcessError> {
    if !same(box_owner, program_id) {
        Err(ProcessError::InvalidAccountOwner)
    } else if b.deadline == 0 {
        Err(ProcessError::Escrow(EscrowError::UnknownId))
    } else if now >= b.deadline {
        Err(ProcessError::Escrow(EscrowError::TooLate))
    } else if !derives_to(token_box_seeds(b.sender, b.id), program_id, token_box) {
        Err(ProcessError::InvalidSeeds)
    } else {
        token_release(
            program_id,
            token_box,
            b,
            vault,
            recipient_token_account,
            rent_to,
            vault_authority,
        )
    }
}

pub open spec fn sweep_box_token_result(
    program_id: Address,
    state: Address,
    state_owner: Address,
    st: ProgramState,
    token_box: Address,
    box_owner: Address,
    b: TokenBox,
    vault: Address,
    authority_token_account: Address,
    authority: Address,
    authority_signs: bool,
    vault_authority: Address,
    now: i64,
) -> Result<TokenReleasePlan, ProcessError> {
    if !same(state_owner, program_id) || !same(box_owner, program_id) {
        Err(ProcessError::InvalidAccountOwner)
    } else if !same(authority, st.authority) {
        Err(ProcessError::Escrow(EscrowError::Unauthorized))
    } else if !authority_signs {
        Err(ProcessError::MissingRequiredSignature)
    } else if b.deadline == 0 {
        Err(ProcessError::Escrow(EscrowError::UnknownId))
    } else if now < b.deadline {
        Err(ProcessError::Escrow(EscrowError::NotExpired))
    } else if !derives_to(program_state_seeds(), program_id, state) {
        Err(ProcessError::InvalidSeeds)
    } else if !derives_to(token_box_seeds(b.sender, b.id), program_id, token_box) {
        Err(ProcessError::InvalidSeeds)
    } else {
        token_release(
            program_id,
            token_box,
            b,
            vault,
            authority_token_account,
            authority,
            vault_authority,
        )
    }
}

/// The deadline `days` days after `now`, or `None` where it would not be a
/// positive instant within the clock's range.
pub fn compute_deadline(now: i64, days: u16) -> (r: Option<i64>)
    ensures
        r == deadline_after(now, days),
{
    let delta: i64 = (days as i64) * SECONDS_PER_DAY;
    if now > i64::MAX - delta || now + delta <= 0 {
        None
    } else {
        Some(now + delta)
    }
}

/// Whether `days` is an accepted lock length.
pub fn check_days(days: u16) -> (r: bool)
    ensures
        r == valid_days(days),
{
    1 <= days && days <= MAX_DEADLINE_DAYS
}

/// The program's entry points.
pub struct Processor;

impl Processor {
    /// Decodes the request `instruction_data`, picks its accounts from
    /// `accounts` in the documented order, decodes the records they hold,
    /// and runs the operation at time `now`.
    pub fn process(program_id: &Address, accounts: &Vec<AccountInfo>, instruction_data: &Vec<u8>, now: i64) -> (r:
        Result<Action, ProcessError>)
        ensures
            !valid_request(instruction_data@) ==> r == Err::<Action, ProcessError>(
                ProcessError::InvalidInstructionData,
            ),
            valid_request(instruction_data@) && accounts@.len() < accounts_needed(
                instruction_data@[0],
            ) ==> r == Err::<Action, ProcessError>(ProcessError::NotEnoughAccountKeys),
            valid_request(instruction_data@) && accounts@.len() >= accounts_needed(
                instruction_data@[0],
            ) ==> dispatch_result(*program_id, accounts@, instruction_data@, now, r),
    {
        let instruction = match EscrowInstruction::unpack(instruction_data) {
            Ok(i) => i,
            Err(e) => {
                return Err(e);
            },
        };
        let n = accounts.len();
        match instruction {
            EscrowInstruction::Initialize => {
                if n < 3 {
                    return Err(ProcessError::NotEnoughAccountKeys);
                }
                match Self::process_initialize(program_id, &accounts[0], &accounts[1]) {
                    Ok(p) => Ok(Action::Initialize(p)),
                    Err(e) => Err(e),
                }
            },
            EscrowInstruction::CreateBox { id, deadline_days, amount } => {
                if n < 3 {
                    return Err(ProcessError::NotEnoughAccountKeys);
                }
                let r = match Self::process_create_box(
                    program_id,
                    &accounts[0],
                    &accounts[1],
                    &id,
                    deadline_days,
                    amount,
                    now,
                ) {
                    Ok(p) => Ok(Action::CreateBox(p)),
                    Err(e) => Err(e),
                };
                assert(request_of(instruction_data@, instruction));
                r
            },
            EscrowInstruction::OpenBox => {
                if n < 2 {
                    return Err(ProcessError::NotEnoughAccountKeys);
                }
                if !accounts[0].owner.same(program_id) {
                    return Err(ProcessError::InvalidAccountOwner);
                }
                let b = match Box::unpack(&accounts[0].data) {
                    Some(b) => b,
                    None => {
                        return Err(ProcessError::InvalidAccountData);
                    },
                };
                match Self::process_open_box(program_id, &accounts[0], &b, &accounts[1], now) {
                    Ok(p) => Ok(Action::Release(p)),
                    Err(e) => Err(e),
                }
            },
            EscrowInstruction::SweepBox => {
                if n < 3 {
                    return Err(ProcessError::NotEnoughAccountKeys);
                }
                if !accounts[0].owner.same(program_id) || !accounts[1].owner.same(program_id) {
                    return Err(ProcessError::InvalidAccountOwner);
                }
                let st = match ProgramState::unpack(&accounts[0].data) {
                    Some(s) => s,
                    None => {
                        return Err(ProcessError::InvalidAccountData);
                    },
                };
                let b = match Box::unpack(&accounts[1].data) {
                    Some(b) => b,
                    None => {
                        return Err(ProcessError::InvalidAccountData);
                    },
                };
                match Self::process_sweep_box(
                    program_id,
                    &accounts[0],
                    &st,
                    &accounts[1],
                    &b,
                    &accounts[2],
                    now,
                ) {
                    Ok(p) => Ok(Action::Release(p)),
                    Err(e) => Err(e),
                }
            },
            EscrowInstruction::CreateBoxToken { id, deadline_days, amount } => {
                if n < 9 {
                    return Err(ProcessError::NotEnoughAccountKeys);
                }
                let r = match Self::process_create_box_token(
                    program_id,
                    &accounts[0],
                    &accounts[1],
                    &accounts[2],
                    &accounts[3],
                    &accounts[4],
                    &accounts[5],
                    &id,
                    deadline_days,
                    amount,
                    now,
                ) {
                    Ok(p) => Ok(Action::CreateTokenBox(p)),
                    Err(e) => Err(e),
                };
                assert(request_of(instruction_data@, instruction));
                r
            },
            EscrowInstruction::OpenBoxToken => {
                if n < 6 {
                    return Err(ProcessError::NotEnoughAccountKeys);
                }
                if !accounts[0].owner.same(program_id) {
                    return Err(ProcessError::InvalidAccountOwner);
                }
                let b = match TokenBox::unpack(&accounts[0].data) {
                    Some(b) => b,
                    None => {
                        return Err(ProcessError::InvalidAccountData);
                    },
                };
                match Self::process_open_box_token(
                    program_id,
                    &accounts[0],
                    &b,
                    &accounts[1],
                    &accounts[2],
                    &accounts[3],
                    &accounts[4],
                    now,
                ) {
                    Ok(p) => Ok(Action::ReleaseToken(p)),
                    Err(e) => Err(e),
                }
            },
            EscrowInstruction::SweepBoxToken => {
                if n < 7 {
                    return Err(ProcessError::NotEnoughAccountKeys);
                }
                if !accounts[0].owner.same(program_id) || !accounts[1].owner.same(program_id) {
                    return Err(ProcessError::InvalidAccountOwner);
                }
                let st = match ProgramState::unpack(&accounts[0].data) {
                    Some(s) => s,
                    None => {
                        return Err(ProcessError::InvalidAccountData);
                    },
                };
                let b = match TokenBox::unpack(&accounts[1].data) {
                    Some(b) => b,
                    None => {
                        return Err(ProcessError::InvalidAccountData);
                    },
                };
                match Self::process_sweep_box_token(
                    program_id,
                    &accounts[0],
                    &st,
                    &accounts[1],
                    &b,
                    &accounts[2],
                    &accounts[3],
                    &accounts[4],
                    &accounts[5],
                    now,
                ) {
                    Ok(p) => Ok(Action::ReleaseToken(p)),
                    Err(e) => Err(e),
                }
            },
        }
    }
    /// Records `authority` as the administrator in the authority record at
    /// `state`, which must be the derived address and not yet in use.
    pub fn process_initialize(program_id: &Address, authority: &AccountInfo, state: &AccountInfo) -> (r:
        Result<InitPlan, ProcessError>)
        ensures
            r == initialize_result(
                *program_id,
                authority.key,
                authority.is_signer,
                state.key,
                same(state.owner, *program_id) || state.data@.len() > 0,
            ),
    {
        if !authority.is_signer {
            return Err(ProcessError::MissingRequiredSignature);
        }
        let bump = match check_derived(&program_state_seed_list(), program_id, &state.key) {
            Some(b) => b,
            None => {
                return Err(ProcessError::InvalidSeeds);
            },
        };
        if state.owner.same(program_id) || state.data.len() > 0 {
            return Err(ProcessError::AccountAlreadyInitialized);
        }
        Ok(
            InitPlan {
                authority: authority.key,
                state: state.key,
                bump,
                record: ProgramState { authority: authority.key },
            },
        )
    }

    /// Opens a currency box of `amount` for `deadline_days` days at the
    /// address derived from the sender and `id`.
    pub fn process_create_box(
        program_id: &Address,
        sender: &AccountInfo,
        box_account: &AccountInfo,
        id: &Address,
        deadline_days: u16,
        amount: u64,
        now: i64,
    ) -> (r: Result<CreatePlan, ProcessError>)
        ensures
            r == create_box_result(
                *program_id,
                sender.key,
                sender.is_signer,
                box_account.key,
                same(box_account.owner, *program_id) || box_account.data@.len() > 0,
                *id,
                deadline_days,
                amount,
                now,
            ),
    {
        if !sender.is_signer {
            return Err(ProcessError::MissingRequiredSignature);
        }
        if !check_days(deadline_days) {
            return Err(ProcessError::Escrow(EscrowError::BadDeadline));
        }
        if amount == 0 {
            return Err(ProcessError::Escrow(EscrowError::NoSol));
        }
        let bump = match check_derived(&box_seed_list(&sender.key, id), program_id, &box_account.key) {
            Some(b) => b,
            None => {
                return Err(ProcessError::InvalidSeeds);
            },
        };
        if box_account.owner.same(program_id) || box_account.data.len() > 0 {
            return Err(ProcessError::AccountAlreadyInitialized);
        }
        let deadline = match compute_deadline(now, deadline_days) {
            Some(d) => d,
            None => {
                return Err(ProcessError::ArithmeticOverflow);
            },
        };
        Ok(
            CreatePlan {
                sender: sender.key,
                box_address: box_account.key,
                bump,
                record: Box { sender: sender.key, id: *id, deadline, amount },
            },
        )
    }

    /// Releases the currency box `record`, held at `box_account`, to
    /// `recipient`, if its deadline has not come.
    pub fn process_open_box(
        program_id: &Address,
        box_account: &AccountInfo,
        record: &Box,
        recipient: &AccountInfo,
        now: i64,
    ) -> (r: Result<ReleasePlan, ProcessError>)
        ensures
            r == open_box_result(
                *program_id,
                box_account.key,
                box_account.owner,
                *record,
                recipient.key,
                now,
            ),
    {
        if !box_account.owner.same(program_id) {
            return Err(ProcessError::InvalidAccountOwner);
        }
        if record.deadline == 0 {
            return Err(ProcessError::Escrow(EscrowError::UnknownId));
        }
        if now >= record.deadline {
            return Err(ProcessError::Escrow(EscrowError::TooLate));
        }
        if check_derived(&box_seed_list(&record.sender, &record.id), program_id, &box_account.key).is_none() {
            return Err(ProcessError::InvalidSeeds);
        }
        if recipient.key.same(&box_account.key) {
            return Err(ProcessError::RecipientIsBox);
        }
        Ok(
            ReleasePlan {
                box_address: box_account.key,
                to: recipient.key,
                amount: record.amount,
                record: Box { deadline: 0, amount: 0, ..*record },
            },
        )
    }

    /// Hands the expired currency box `record`, held at `box_account`, to
    /// the authority of the record `st` held at `state`.
    pub fn process_sweep_box(
        program_id: &Address,
        state: &AccountInfo,
        st: &ProgramState,
        box_account: &AccountInfo,
        record: &Box,
        authority: &AccountInfo,
        now: i64,
    ) -> (r: Result<ReleasePlan, ProcessError>)
        ensures
            r == sweep_box_result(
                *program_id,
                state.key,
                state.owner,
                *st,
                box_account.key,
                box_account.owner,
                *record,
                authority.key,
                now,
            ),
    {
        if !state.owner.same(program_id) || !box_account.owner.same(program_id) {
            return Err(ProcessError::InvalidAccountOwner);
        }
        if !authority.key.same(&st.authority) {
            return Err(ProcessError::Escrow(EscrowError::Unauthorized));
        }
        if record.deadline == 0 {
            return Err(ProcessError::Escrow(EscrowError::UnknownId));
        }
        if now < record.deadline {
            return Err(ProcessError::Escrow(EscrowError::NotExpired));
        }
        if check_derived(&program_state_seed_list(), program_id, &state.key).is_none() {
            return Err(ProcessError::InvalidSeeds);
        }
        if check_derived(&box_seed_list(&record.sender, &record.id), program_id, &box_account.key).is_none() {
            return Err(ProcessError::InvalidSeeds);
        }
        if authority.key.same(&box_account.key) {
            return Err(ProcessError::RecipientIsBox);
        }
        Ok(
            ReleasePlan {
                box_address: box_account.key,
                to: authority.key,
                amount: record.amount,
                record: Box { deadline: 0, amount: 0, ..*record },
            },
        )
    }

    /// Opens a token box of `amount` tokens of `mint` for `deadline_days`
    /// days, at the address derived from the sender and `id`, its tokens in
    /// the vault of the derived vault authority.
    pub fn process_create_box_token(
        program_id: &Address,
        sender: &AccountInfo,
        sender_token_account: &AccountInfo,
        token_box: &AccountInfo,
        vault: &AccountInfo,
        mint: &AccountInfo,
        vault_authority: &AccountInfo,
        id: &Address,
        deadline_days: u16,
        amount: u64,
        now: i64,
    ) -> (r: Result<CreateTokenPlan, ProcessError>)
        ensures
            r == create_box_token_result(
                *program_id,
                sender.key,
                sender.is_signer,
                sender_token_account.key,
                token_box.key,
                same(token_box.owner, *program_id) || token_box.data@.len() > 0,
                vault.key,
                mint.key,
                vault_authority.key,
                vault.data@,
                *id,
                deadline_days,
                amount,
                now,
            ),
    {
        if !sender.is_signer {
            return Err(ProcessError::MissingRequiredSignature);
        }
        if !check_days(deadline_days) {
            return Err(ProcessError::Escrow(EscrowError::BadDeadline));
        }
        if amount == 0 {
            return Err(ProcessError::Escrow(EscrowError::NoSol));
        }
        let bump = match check_derived(&token_box_seed_list(&sender.key, id), program_id, &token_box.key) {
            Some(b) => b,
            None => {
                return Err(ProcessError::InvalidSeeds);
            },
        };
        if token_box.owner.same(program_id) || token_box.data.len() > 0 {
            return Err(ProcessError::AccountAlreadyInitialized);
        }
        if check_derived(&vault_seed_list(&token_box.key), program_id, &vault_authority.key).is_none() {
            return Err(ProcessError::InvalidSeeds);
        }
        if !check_associated_account(&vault_authority.key, &mint.key, &vault.key) {
            return Err(ProcessError::Escrow(EscrowError::InvalidTokenAccount));
        }
        if vault.data.len() > 0 && !holds_no_tokens(&vault.data) {
            return Err(ProcessError::Escrow(EscrowError::InvalidTokenAccount));
        }
        let deadline = match compute_deadline(now, deadline_days) {
            Some(d) => d,
            None => {
                return Err(ProcessError::ArithmeticOverflow);
            },
        };
        Ok(
            CreateTokenPlan {
                sender: sender.key,
                sender_token_account: sender_token_account.key,
                token_box: token_box.key,
                bump,
                vault: vault.key,
                vault_authority: vault_authority.key,
                create_vault: vault.data.len() == 0,
                record: TokenBox { sender: sender.key, id: *id, deadline, amount, mint: mint.key },
            },
        )
    }

    fn release_token(
        program_id: &Address,
        token_box: &AccountInfo,
        record: &TokenBox,
        vault: &AccountInfo,
        destination: &AccountInfo,
        rent_to: &AccountInfo,
        vault_authority: &AccountInfo,
    ) -> (r: Result<TokenReleasePlan, ProcessError>)
        ensures
            r == token_release(
                *program_id,
                token_box.key,
                *record,
                vault.key,
                destination.key,
                rent_to.key,
                vault_authority.key,
            ),
    {
        let vault_bump = match check_derived(&vault_seed_list(&token_box.key), program_id, &vault_authority.key) {
            Some(b) => b,
            None => {
                return Err(ProcessError::InvalidSeeds);
            },
        };
        if !check_associated_account(&vault_authority.key, &record.mint, &vault.key) {
            return Err(ProcessError::Escrow(EscrowError::InvalidTokenAccount));
        }
        Ok(
            TokenReleasePlan {
                token_box: token_box.key,
                vault: vault.key,
                destination: destination.key,
                rent_to: rent_to.key,
                vault_authority: vault_authority.key,
                vault_bump,
                amount: record.amount,
                record: TokenBox { deadline: 0, amount: 0, ..*record },
            },
        )
    }

    /// Releases the token box `record`, held at `token_box`, to
    /// `recipient_token_account` if its deadline has not come, closing the
    /// vault with its deposit refunded to `sender`.
    pub fn process_open_box_token(
        program_id: &Address,
        token_box: &AccountInfo,
        record: &TokenBox,
        vault: &AccountInfo,
        recipient_token_account: &AccountInfo,
        sender: &AccountInfo,
        vault_authority: &AccountInfo,
        now: i64,
    ) -> (r: Result<TokenReleasePlan, ProcessError>)
        ensures
            r == open_box_token_result(
                *program_id,
                token_box.key,
                token_box.owner,
                *record,
                vault.key,
                recipient_token_account.key,
                sender.key,
                vault_authority.key,
                now,
            ),
    {
        if !token_box.owner.same(program_id) {
            return Err(ProcessError::InvalidAccountOwner);
        }
        if record.deadline == 0 {
            return Err(ProcessError::Escrow(EscrowError::UnknownId));
        }
        if now >= record.deadline {
            return Err(ProcessError::Escrow(EscrowError::TooLate));
        }
        if check_derived(&token_box_seed_list(&record.sender, &record.id), program_id, &token_box.key).is_none() {
            return Err(ProcessError::InvalidSeeds);
        }
        Self::release_token(program_id, token_box, record, vault, recipient_token_account, sender, vault_authority)
    }

    /// Hands the expired token box `record`, held at `token_box`, to the
    /// signing authority of the record `st` held at `state`, closing the
    /// vault with its deposit refunded to the authority.
    pub fn process_sweep_box_token(
        program_id: &Address,
        state: &AccountInfo,
        st: &ProgramState,
        token_box: &AccountInfo,
        record: &TokenBox,
        vault: &AccountInfo,
        authority_token_account: &AccountInfo,
        authority: &AccountInfo,
        vault_authority: &AccountInfo,
        now: i64,
    ) -> (r: Result<TokenReleasePlan, ProcessError>)
        ensures
            r == sweep_box_token_result(
                *program_id,
                state.key,
                state.owner,
                *st,
                token_box.key,
                token_box.owner,
                *record,
                vault.key,
                authority_token_account.key,
                authority.key,
                authority.is_signer,
                vault_authority.key,
                now,
            ),
    {
        if !state.owner.same(program_id) || !token_box.owner.same(program_id) {
            return Err(ProcessError::InvalidAccountOwner);
        }
        if !authority.key.same(&st.authority) {
            return Err(ProcessError::Escrow(EscrowError::Unauthorized));
        }
        if !authority.is_signer {
            return Err(ProcessError::MissingRequiredSignature);
        }
        if record.deadline == 0 {
            return Err(ProcessError::Escrow(EscrowError::UnknownId));
        }
        if now < record.deadline {
            return Err(ProcessError::Escrow(EscrowError::NotExpired));
        }
        if check_derived(&program_state_seed_list(), program_id, &state.key).is_none() {
            return Err(ProcessError::InvalidSeeds);
        }
        if check_derived(&token_box_seed_list(&record.sender, &record.id), program_id, &token_box.key).is_none() {
            return Err(ProcessError::InvalidSeeds);
        }
        Self::release_token(program_id, token_box, record, vault, authority_token_account, authority, vault_authority)
    }
}

} // verus!
