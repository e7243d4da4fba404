//! What holds of every box across operations.
use vstd::prelude::*;
use crate::address::{
    is_associated_account, box_seeds, derives_to, program_state_seeds, token_box_seeds,
    vault_seeds, Address,
};
use crate::error::{EscrowError, ProcessError};
use crate::token::token_account_amount;
use crate::processor::{
    dispatch_result, lift_release, AccountInfo, Action, create_box_result, create_box_token_result, initialize_result, open_box_result,
    open_box_token_result, same, sweep_box_result, sweep_box_token_result, ReleasePlan,
    TokenReleasePlan,
};
use crate::state::{
    encodes_box, encodes_program_state, lemma_box_layout_unique, Box, ProgramState, TokenBox,
    PROGRAM_STATE_LEN,
};

verus! {

/// A currency box is released at most once: after a release was accepted,
/// a second release of the record it left is refused as unknown, and every
/// sweep of it is refused.
pub proof fn lemma_box_opened_once(
    program_id: Address,
    box_address: Address,
    box_owner: Address,
    b: Box,
    recipient: Address,
    now: i64,
    recipient2: Address,
    now2: i64,
    state: Address,
    state_owner: Address,
    st: ProgramState,
    authority: Address,
)
    requires
        open_box_result(program_id, box_address, box_owner, b, recipient, now) is Ok,
    ensures
        ({
            let c = open_box_result(program_id, box_address, box_owner, b, recipient, now)->Ok_0.record;
            &&& open_box_result(program_id, box_address, box_owner, c, recipient2, now2) == Err::<
                ReleasePlan,
                ProcessError,
            >(ProcessError::Escrow(EscrowError::UnknownId))
            &&& sweep_box_result(
                program_id,
                state,
                state_owner,
                st,
                box_address,
                box_owner,
                c,
                authority,
                now2,
            ) is Err
        }),
{
}

/// A currency box is swept at most once: after a sweep was accepted, every
/// release of the record it left is refused as unknown, and every sweep of
/// it is refused.
pub proof fn lemma_box_swept_once(
    program_id: Address,
    state: Address,
    state_owner: Address,
    st: ProgramState,
    box_address: Address,
    box_owner: Address,
    b: Box,
    authority: Address,
    now: i64,
    recipient2: Address,
    authority2: Address,
    now2: i64,
)
    requires
        sweep_box_result(program_id, state, state_owner, st, box_address, box_owner, b, authority, now) is Ok,
    ensures
        ({
            let c = sweep_box_result(
                program_id,
                state,
                state_owner,
                st,
                box_address,
                box_owner,
                b,
                authority,
                now,
            )->Ok_0.record;
            &&& open_box_result(program_id, box_address, box_owner, c, recipient2, now2) == Err::<
                ReleasePlan,
                ProcessError,
            >(ProcessError::Escrow(EscrowError::UnknownId))
            &&& sweep_box_result(
                program_id,
                state,
                state_owner,
                st,
                box_address,
                box_owner,
                c,
                authority2,
                now2,
            ) is Err
        }),
{
}

/// A token box is released at most once: after a release was accepted, a
/// second release of the record it left is refused as unknown, and every
/// sweep of it is refused.
pub proof fn lemma_token_box_opened_once(
    program_id: Address,
    token_box: Address,
    box_owner: Address,
    b: TokenBox,
    vault: Address,
    recipient: Address,
    rent_to: Address,
    vault_authority: Address,
    now: i64,
    recipient2: Address,
    rent_to2: Address,
    now2: i64,
    state: Address,
    state_owner: Address,
    st: ProgramState,
    authority: Address,
    authority_signs: bool,
)
    requires
        open_box_token_result(
            program_id,
            token_box,
            box_owner,
            b,
            vault,
            recipient,
            rent_to,
            vault_authority,
            now,
        ) is Ok,
    ensures
        ({
            let c = open_box_token_result(
                program_id,
                token_box,
                box_owner,
                b,
                vault,
                recipient,
                rent_to,
                vault_authority,
                now,
            )->Ok_0.record;
            &&& open_box_token_result(
                program_id,
                token_box,
                box_owner,
                c,
                vault,
                recipient2,
                rent_to2,
                vault_authority,
                now2,
            ) == Err::<TokenReleasePlan, ProcessError>(ProcessError::Escrow(EscrowError::UnknownId))
            &&& sweep_box_token_result(
                program_id,
                state,
                state_owner,
                st,
                token_box,
                box_owner,
                c,
                vault,
                recipient2,
                authority,
                authority_signs,
                vault_authority,
                now2,
            ) is Err
        }),
{
}

/// A token box is swept at most once: after a sweep was accepted, every
/// release of the record it left is refused as unknown, and every sweep of
/// it is refused.
pub proof fn lemma_token_box_swept_once(
    program_id: Address,
    state: Address,
    state_owner: Address,
    st: ProgramState,
    token_box: Address,
    box_owner: Address,
    b: TokenBox,
    vault: Address,
    authority_token_account: Address,
    authority: Address,
    authority_signs: bool,
    vault_authority: Address,
    now: i64,
    recipient2: Address,
    rent_to2: Address,
    now2: i64,
)
    requires
        sweep_box_token_result(
            program_id,
            state,
            state_owner,
            st,
            token_box,
            box_owner,
            b,
            vault,
            authority_token_account,
            authority,
            authority_signs,
            vault_authority,
            now,
        ) is Ok,
    ensures
        ({
            let c = sweep_box_token_result(
                program_id,
                state,
                state_owner,
                st,
                token_box,
                box_owner,
                b,
                vault,
                authority_token_account,
                authority,
                authority_signs,
                vault_authority,
                now,
            )->Ok_0.record;
            &&& open_box_token_result(
                program_id,
                token_box,
                box_owner,
                c,
                vault,
                recipient2,
                rent_to2,
                vault_authority,
                now2,
            ) == Err::<TokenReleasePlan, ProcessError>(ProcessError::Escrow(EscrowError::UnknownId))
            &&& sweep_box_token_result(
                program_id,
                state,
                state_owner,
                st,
                token_box,
                box_owner,
                c,
                vault,
                authority_token_account,
                authority,
                authority_signs,
                vault_authority,
                now2,
            ) is Err
        }),
{
}

/// A closed currency box is refused as unknown: a release once its owner
/// check passes, a sweep once its owner and authority checks pass, whatever
/// the addresses and the time.
pub proof fn lemma_closed_box_refused(
    program_id: Address,
    box_address: Address,
    box_owner: Address,
    b: Box,
    recipient: Address,
    state: Address,
    state_owner: Address,
    st: ProgramState,
    now: i64,
)
    requires
        b.deadline == 0,
        same(box_owner, program_id),
    ensures
        open_box_result(program_id, box_address, box_owner, b, recipient, now) == Err::<
            ReleasePlan,
            ProcessError,
        >(ProcessError::Escrow(EscrowError::UnknownId)),
        same(state_owner, program_id) ==> sweep_box_result(
            program_id,
            state,
            state_owner,
            st,
            box_address,
            box_owner,
            b,
            st.authority,
            now,
        ) == Err::<ReleasePlan, ProcessError>(ProcessError::Escrow(EscrowError::UnknownId)),
{
}

/// A closed token box is refused as unknown: a release once its owner
/// check passes, a sweep once its owner, authority and signer checks pass.
pub proof fn lemma_closed_token_box_refused(
    program_id: Address,
    token_box: Address,
    box_owner: Address,
    b: TokenBox,
    vault: Address,
    recipient: Address,
    rent_to: Address,
    vault_authority: Address,
    state: Address,
    state_owner: Address,
    st: ProgramState,
    now: i64,
)
    requires
        b.deadline == 0,
        same(box_owner, program_id),
    ensures
        open_box_token_result(
            program_id,
            token_box,
            box_owner,
            b,
            vault,
            recipient,
            rent_to,
            vault_authority,
            now,
        ) == Err::<TokenReleasePlan, ProcessError>(ProcessError::Escrow(EscrowError::UnknownId)),
        same(state_owner, program_id) ==> sweep_box_token_result(
            program_id,
            state,
            state_owner,
            st,
            token_box,
            box_owner,
            b,
            vault,
            recipient,
            st.authority,
            true,
            vault_authority,
            now,
        ) == Err::<TokenReleasePlan, ProcessError>(ProcessError::Escrow(EscrowError::UnknownId)),
{
}

/// Deadline gating of an open currency box whose owner checks pass: at or
/// after the deadline a release is refused as too late, before it a sweep
/// by the authority is refused as not expired; where the addresses derive
/// and the funds go to an account other than the box, a release is accepted exactly before the deadline and a sweep exactly
/// from it on, so the deadline itself belongs to the sweep.
pub proof fn lemma_box_deadline_gating(
    program_id: Address,
    box_address: Address,
    box_owner: Address,
    b: Box,
    recipient: Address,
    state: Address,
    state_owner: Address,
    st: ProgramState,
    now: i64,
)
    requires
        same(box_owner, program_id),
        same(state_owner, program_id),
        b.deadline != 0,
    ensures
        now >= b.deadline ==> open_box_result(program_id, box_address, box_owner, b, recipient, now)
            == Err::<ReleasePlan, ProcessError>(ProcessError::Escrow(EscrowError::TooLate)),
        now < b.deadline ==> sweep_box_result(
            program_id,
            state,
            state_owner,
            st,
            box_address,
            box_owner,
            b,
            st.authority,
            now,
        ) == Err::<ReleasePlan, ProcessError>(ProcessError::Escrow(EscrowError::NotExpired)),
        derives_to(box_seeds(b.sender, b.id), program_id, box_address) && !same(recipient, box_address)
            ==> (open_box_result(
            program_id,
            box_address,
            box_owner,
            b,
            recipient,
            now,
        ) is Ok <==> now < b.deadline),
        derives_to(box_seeds(b.sender, b.id), program_id, box_address) && derives_to(
            program_state_seeds(),
            program_id,
            state,
        ) && !same(st.authority, box_address) ==> (sweep_box_result(
            program_id,
            state,
            state_owner,
            st,
            box_address,
            box_owner,
            b,
            st.authority,
            now,
        ) is Ok <==> now >= b.deadline),
{
}

/// Deadline gating of an open token box whose owner checks pass: at or
/// after the deadline a release is refused as too late, before it a sweep
/// by the signing authority is refused as not expired; where the addresses
/// derive and the vault is the vault authority's account for the mint, a
/// release is accepted exactly before the deadline and a sweep exactly from
/// it on.
pub proof fn lemma_token_box_deadline_gating(
    program_id: Address,
    token_box: Address,
    box_owner: Address,
    b: TokenBox,
    vault: Address,
    recipient: Address,
    rent_to: Address,
    vault_authority: Address,
    state: Address,
    state_owner: Address,
    st: ProgramState,
    now: i64,
)
    requires
        same(box_owner, program_id),
        same(state_owner, program_id),
        b.deadline != 0,
    ensures
        now >= b.deadline ==> open_box_token_result(
            program_id,
            token_box,
            box_owner,
            b,
            vault,
            recipient,
            rent_to,
            vault_authority,
            now,
        ) == Err::<TokenReleasePlan, ProcessError>(ProcessError::Escrow(EscrowError::TooLate)),
        now < b.deadline ==> sweep_box_token_result(
            program_id,
            state,
            state_owner,
            st,
            token_box,
            box_owner,
            b,
            vault,
            recipient,
            st.authority,
            true,
            vault_authority,
            now,
        ) == Err::<TokenReleasePlan, ProcessError>(ProcessError::Escrow(EscrowError::NotExpired)),
        ({
            &&& derives_to(token_box_seeds(b.sender, b.id), program_id, token_box)
            &&& derives_to(vault_seeds(token_box), program_id, vault_authority)
            &&& is_associated_account(vault_authority, b.mint, vault)
        }) ==> (open_box_token_result(
            program_id,
            token_box,
            box_owner,
            b,
            vault,
            recipient,
            rent_to,
            vault_authority,
            now,
        ) is Ok <==> now < b.deadline),
        ({
            &&& derives_to(token_box_seeds(b.sender, b.id), program_id, token_box)
            &&& derives_to(vault_seeds(token_box), program_id, vault_authority)
            &&& is_associated_account(vault_authority, b.mint, vault)
            &&& derives_to(program_state_seeds(), program_id, state)
        }) ==> (sweep_box_token_result(
            program_id,
            state,
            state_owner,
            st,
            token_box,
            box_owner,
            b,
            vault,
            recipient,
            st.authority,
            true,
            vault_authority,
            now,
        ) is Ok <==> now >= b.deadline),
{
}

/// Conservation for a currency box: the record that creation writes holds
/// the deposited amount; whichever release or sweep of it is accepted moves
/// exactly that amount out of the box to another account and leaves zero
/// behind.
pub proof fn lemma_box_conservation(
    program_id: Address,
    sender: Address,
    sender_signs: bool,
    box_address: Address,
    box_in_use: bool,
    id: Address,
    days: u16,
    amount: u64,
    now: i64,
    box_owner: Address,
    recipient: Address,
    state: Address,
    state_owner: Address,
    st: ProgramState,
    authority: Address,
    now2: i64,
)
    requires
        create_box_result(
            program_id,
            sender,
            sender_signs,
            box_address,
            box_in_use,
            id,
            days,
            amount,
            now,
        ) is Ok,
    ensures
        ({
            let p = create_box_result(
                program_id,
                sender,
                sender_signs,
                box_address,
                box_in_use,
                id,
                days,
                amount,
                now,
            )->Ok_0;
            let o = open_box_result(program_id, box_address, box_owner, p.record, recipient, now2);
            let s = sweep_box_result(
                program_id,
                state,
                state_owner,
                st,
                box_address,
                box_owner,
                p.record,
                authority,
                now2,
            );
            &&& p.record.amount == amount
            &&& p.record.deadline > 0
            &&& o is Ok ==> o->Ok_0.amount == amount && o->Ok_0.record.amount == 0 && !same(
                o->Ok_0.to,
                box_address,
            )
            &&& s is Ok ==> s->Ok_0.amount == amount && s->Ok_0.record.amount == 0 && !same(
                s->Ok_0.to,
                box_address,
            )
        }),
{
}

/// Conservation for a token box: the record that creation writes holds the
/// deposited amount, and the vault it deposits into is new or holds no
/// tokens; whichever release or sweep of it is accepted moves exactly that
/// amount out of the vault and leaves zero behind.
pub proof fn lemma_token_box_conservation(
    program_id: Address,
    sender: Address,
    sender_signs: bool,
    sender_token_account: Address,
    token_box: Address,
    token_box_in_use: bool,
    vault: Address,
    mint: Address,
    vault_authority: Address,
    vault_data: Seq<u8>,
    id: Address,
    days: u16,
    amount: u64,
    now: i64,
    box_owner: Address,
    recipient: Address,
    rent_to: Address,
    state: Address,
    state_owner: Address,
    st: ProgramState,
    authority: Address,
    authority_signs: bool,
    now2: i64,
)
    requires
        create_box_token_result(
            program_id,
            sender,
            sender_signs,
            sender_token_account,
            token_box,
            token_box_in_use,
            vault,
            mint,
            vault_authority,
            vault_data,
            id,
            days,
            amount,
            now,
        ) is Ok,
    ensures
        ({
            let p = create_box_token_result(
                program_id,
                sender,
                sender_signs,
                sender_token_account,
                token_box,
                token_box_in_use,
                vault,
                mint,
                vault_authority,
                vault_data,
                id,
                days,
                amount,
                now,
            )->Ok_0;
            let o = open_box_token_result(
                program_id,
                token_box,
                box_owner,
                p.record,
                vault,
                recipient,
                rent_to,
                vault_authority,
                now2,
            );
            let s = sweep_box_token_result(
                program_id,
                state,
                state_owner,
                st,
                token_box,
                box_owner,
                p.record,
                vault,
                recipient,
                authority,
                authority_signs,
                vault_authority,
                now2,
            );
            &&& p.record.amount == amount
            &&& p.record.deadline > 0
            &&& p.create_vault || token_account_amount(vault_data) == Some(0u64)
            &&& o is Ok ==> o->Ok_0.amount == amount && o->Ok_0.record.amount == 0
            &&& s is Ok ==> s->Ok_0.amount == amount && s->Ok_0.record.amount == 0
        }),
{
}

/// Address binding for currency boxes: an accepted creation, release or
/// sweep was given exactly the derived addresses of the box and of the
/// authority record.
pub proof fn lemma_box_address_binding(
    program_id: Address,
    sender: Address,
    sender_signs: bool,
    box_address: Address,
    box_in_use: bool,
    id: Address,
    days: u16,
    amount: u64,
    box_owner: Address,
    b: Box,
    recipient: Address,
    state: Address,
    state_owner: Address,
    st: ProgramState,
    authority: Address,
    now: i64,
)
    ensures
        create_box_result(
            program_id,
            sender,
            sender_signs,
            box_address,
            box_in_use,
            id,
            days,
            amount,
            now,
        ) is Ok
            ==> derives_to(box_seeds(sender, id), program_id, box_address),
        open_box_result(program_id, box_address, box_owner, b, recipient, now) is Ok
            ==> derives_to(box_seeds(b.sender, b.id), program_id, box_address),
        sweep_box_result(
            program_id,
            state,
            state_owner,
            st,
            box_address,
            box_owner,
            b,
            authority,
            now,
        ) is Ok ==> derives_to(box_seeds(b.sender, b.id), program_id, box_address) && derives_to(
            program_state_seeds(),
            program_id,
            state,
        ),
{
}

/// Address binding for token boxes: an accepted creation, release or sweep
/// was given exactly the derived token box, vault authority and vault
/// addresses, and, for a sweep, the authority record's.
pub proof fn lemma_token_box_address_binding(
    program_id: Address,
    sender: Address,
    sender_signs: bool,
    sender_token_account: Address,
    token_box: Address,
    token_box_in_use: bool,
    vault: Address,
    mint: Address,
    vault_authority: Address,
    vault_data: Seq<u8>,
    id: Address,
    days: u16,
    amount: u64,
    box_owner: Address,
    b: TokenBox,
    recipient: Address,
    rent_to: Address,
    state: Address,
    state_owner: Address,
    st: ProgramState,
    authority: Address,
    authority_signs: bool,
    now: i64,
)
    ensures
        create_box_token_result(
            program_id,
            sender,
            sender_signs,
            sender_token_account,
            token_box,
            token_box_in_use,
            vault,
            mint,
            vault_authority,
            vault_data,
            id,
            days,
            amount,
            now,
        ) is Ok ==> {
            &&& derives_to(token_box_seeds(sender, id), program_id, token_box)
            &&& derives_to(vault_seeds(token_box), program_id, vault_authority)
            &&& is_associated_account(vault_authority, mint, vault)
        },
        open_box_token_result(
            program_id,
            token_box,
            box_owner,
            b,
            vault,
            recipient,
            rent_to,
            vault_authority,
            now,
        ) is Ok ==> {
            &&& derives_to(token_box_seeds(b.sender, b.id), program_id, token_box)
            &&& derives_to(vault_seeds(token_box), program_id, vault_authority)
            &&& is_associated_account(vault_authority, b.mint, vault)
        },
        sweep_box_token_result(
            program_id,
            state,
            state_owner,
            st,
            token_box,
            box_owner,
            b,
            vault,
            recipient,
            authority,
            authority_signs,
            vault_authority,
            now,
        ) is Ok ==> {
            &&& derives_to(program_state_seeds(), program_id, state)
            &&& derives_to(token_box_seeds(b.sender, b.id), program_id, token_box)
            &&& derives_to(vault_seeds(token_box), program_id, vault_authority)
            &&& is_associated_account(vault_authority, b.mint, vault)
        },
{
}

/// The authority is fixed at initialization: once the record is written,
/// initializing again is refused whoever asks, and a sweep of any box,
/// currency or token, is accepted only for the authority first recorded.
pub proof fn lemma_authority_fixed(
    program_id: Address,
    authority: Address,
    authority_signs: bool,
    state: Address,
    state_in_use: bool,
    other: Address,
    other_signs: bool,
    state_owner: Address,
    box_address: Address,
    box_owner: Address,
    b: Box,
    tb: TokenBox,
    vault: Address,
    destination: Address,
    vault_authority: Address,
    caller: Address,
    caller_signs: bool,
    now: i64,
)
    requires
        initialize_result(program_id, authority, authority_signs, state, state_in_use) is Ok,
    ensures
        ({
            let st = initialize_result(
                program_id,
                authority,
                authority_signs,
                state,
                state_in_use,
            )->Ok_0.record;
            &&& st == ProgramState { authority }
            &&& initialize_result(program_id, other, other_signs, state, true) is Err
            &&& sweep_box_result(
                program_id,
                state,
                state_owner,
                st,
                box_address,
                box_owner,
                b,
                caller,
                now,
            ) is Ok ==> same(caller, authority)
            &&& sweep_box_token_result(
                program_id,
                state,
                state_owner,
                st,
                box_address,
                box_owner,
                tb,
                vault,
                destination,
                caller,
                caller_signs,
                vault_authority,
                now,
            ) is Ok ==> same(caller, authority)
        }),
{
}

/// No double release, request by request: once a release request on a
/// currency box was accepted, a later release request on the account that
/// holds the record it wrote is refused as unknown, and so is a later sweep
/// request whose state account is the program's and whose caller is the
/// recorded authority.
pub proof fn lemma_request_released_once(
    program_id: Address,
    accounts: Seq<AccountInfo>,
    now: i64,
    r: Result<Action, ProcessError>,
    later: Seq<AccountInfo>,
    now2: i64,
    r2: Result<Action, ProcessError>,
    sweeps: Seq<AccountInfo>,
    r3: Result<Action, ProcessError>,
)
    requires
        accounts.len() >= 2,
        dispatch_result(program_id, accounts, seq![2u8], now, r),
        r matches Ok(Action::Release(_)),
        later.len() >= 2,
        later[0].key == accounts[0].key,
        later[0].owner == accounts[0].owner,
        encodes_box(r->Ok_0->Release_0.record, later[0].data@),
        dispatch_result(program_id, later, seq![2u8], now2, r2),
        sweeps.len() >= 3,
        sweeps[1].key == accounts[0].key,
        sweeps[1].owner == accounts[0].owner,
        encodes_box(r->Ok_0->Release_0.record, sweeps[1].data@),
        sweeps[0].data@.len() == PROGRAM_STATE_LEN,
        same(sweeps[0].owner, program_id),
        forall|st: ProgramState|
            encodes_program_state(st, sweeps[0].data@) ==> same(sweeps[2].key, st.authority),
        dispatch_result(program_id, sweeps, seq![3u8], now2, r3),
    ensures
        r2 == Err::<Action, ProcessError>(ProcessError::Escrow(EscrowError::UnknownId)),
        r3 == Err::<Action, ProcessError>(ProcessError::Escrow(EscrowError::UnknownId)),
{
    let c = r->Ok_0->Release_0.record;
    assert(seq![2u8][0] == 2u8);
    assert(seq![3u8][0] == 3u8);
    let b = choose|b: Box|
        encodes_box(b, accounts[0].data@) && r == lift_release(
            open_box_result(program_id, accounts[0].key, accounts[0].owner, b, accounts[1].key, now),
        );
    let b2 = choose|b2: Box|
        encodes_box(b2, later[0].data@) && r2 == lift_release(
            open_box_result(program_id, later[0].key, later[0].owner, b2, later[1].key, now2),
        );
    lemma_box_layout_unique(b2, c, later[0].data@);
    let (st3, b3) = choose|st3: ProgramState, b3: Box|
        encodes_program_state(st3, sweeps[0].data@) && encodes_box(b3, sweeps[1].data@) && r3
            == lift_release(
            sweep_box_result(
                program_id,
                sweeps[0].key,
                sweeps[0].owner,
                st3,
                sweeps[1].key,
                sweeps[1].owner,
                b3,
                sweeps[2].key,
                now2,
            ),
        );
    lemma_box_layout_unique(b3, c, sweeps[1].data@);
}

} // verus!
