//! What the program reads of an account of the token subsystem.
use vstd::prelude::*;

verus! {

/// The balance held by the token account whose bytes are `data`; `None`
/// where the bytes are not an initialized token account.
pub uninterp spec fn token_account_amount(data: Seq<u8>) -> Option<u64>;

/// Relies on spl_token's `Pack::unpack` for `spl_token::state::Account`: it
/// refuses bytes of the wrong length, with an unknown state or option tag,
/// or of an uninitialized account, and otherwise reads the balance; the
/// result depends on the bytes alone.
#[verifier::external_body]
fn unpack_token_amount(data: &Vec<u8>) -> (r: Option<u64>)
    ensures
        r == token_account_amount(data@),
{
    <spl_token::state::Account as solana_program::program_pack::Pack>::unpack(data)
        .ok()
        .map(|a| a.amount)
}

/// Whether the bytes `data` are an initialized token account holding no
/// tokens.
pub fn holds_no_tokens(data: &Vec<u8>) -> (r: bool)
    ensures
        r == (token_account_amount(data@) == Some(0u64)),
{
    match unpack_token_amount(data) {
        Some(n) => n == 0,
        None => false,
    }
}

} // verus!
