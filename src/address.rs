//! Account addresses and their deterministic, key-less derivation.
use vstd::prelude::*;

verus! {

/// A 32-byte account address.
#[derive(Clone, Copy, Debug)]
pub struct Address {
    pub bytes: [u8; 32],
}

impl PartialEq for Address {
    fn eq(&self, o: &Address) -> (r: bool) {
        let mut i: usize = 0;
        while i < 32
            invariant
                0 <= i <= 32,
                forall|j: int| 0 <= j < i ==> self.bytes@[j] == o.bytes@[j],
            decreases 32 - i,
        {
            if self.bytes[i] != o.bytes[i] {
                return false;
            }
            i = i + 1;
        }
        assert(self.bytes@ =~= o.bytes@);
        true
    }
}

impl vstd::std_specs::cmp::PartialEqSpecImpl for Address {
    open spec fn obeys_eq_spec() -> bool {
        true
    }

    open spec fn eq_spec(&self, o: &Address) -> bool {
        self.bytes@ == o.bytes@
    }
}

impl Eq for Address {
}

impl Address {
    /// Two addresses are equal exactly when their bytes are.
    pub fn same(&self, o: &Address) -> (r: bool)
        ensures
            r == (self.bytes@ == o.bytes@),
    {
        self.eq(o)
    }

    /// The bytes of the address, as a seed.
    pub fn to_seed(&self) -> (r: Vec<u8>)
        ensures
            r@ == self.bytes@,
    {
        let mut v: Vec<u8> = Vec::new();
        let mut i: usize = 0;
        while i < 32
            invariant
                0 <= i <= 32,
                v@ == self.bytes@.subrange(0, i as int),
            decreases 32 - i,
        {
            v.push(self.bytes[i]);
            assert(v@ =~= self.bytes@.subrange(0, i + 1));
            i = i + 1;
        }
        assert(v@ =~= self.bytes@);
        v
    }
}

/// The program-derived address of `seeds` under `program_id`, with the bump
/// seed that was appended to reach it; `None` where no bump seed gives an
/// address off the curve, or the seeds are too many or too long.
pub uninterp spec fn program_address(seeds: Seq<Seq<u8>>, program_id: Seq<u8>) -> Option<(Seq<u8>, u8)>;

/// The canonical token account of `wallet` for `mint` under the associated
/// token account program and the token program; `None` where no bump seed
/// gives an address off the curve.
pub uninterp spec fn associated_token_address(wallet: Seq<u8>, mint: Seq<u8>) -> Option<Seq<u8>>;

pub open spec fn address_view(r: Option<Address>) -> Option<Seq<u8>> {
    match r {
        Some(a) => Some(a.bytes@),
        None => None,
    }
}

/// `vault` is the canonical token account of `wallet` for `mint`.
pub open spec fn is_associated_account(wallet: Address, mint: Address, vault: Address) -> bool {
    associated_token_address(wallet.bytes@, mint.bytes@) == Some(vault.bytes@)
}

pub open spec fn derived_view(r: Option<(Address, u8)>) -> Option<(Seq<u8>, u8)> {
    match r {
        Some((a, b)) => Some((a.bytes@, b)),
        None => None,
    }
}

/// Relies on solana_pubkey's `Pubkey::try_find_program_address`: it hashes
/// the seeds, a bump seed and the program id, and its result depends on
/// these arguments alone.
#[verifier::external_body]
fn try_find_program_address(seeds: &Vec<Vec<u8>>, program_id: &Address) -> (r: Option<(Address, u8)>)
    ensures
        derived_view(r) == program_address(seeds.deep_view(), program_id.bytes@),
{
    let s: Vec<&[u8]> = seeds.iter().map(|v| v.as_slice()).collect();
    let pid = solana_program::pubkey::Pubkey::new_from_array(program_id.bytes);
    solana_program::pubkey::Pubkey::try_find_program_address(&s, &pid)
        .map(|(k, b)| (Address { bytes: k.to_bytes() }, b))
}

/// Relies on solana_pubkey's `Pubkey::try_find_program_address`, given the
/// seeds of an associated token account (the wallet, the token program's id
/// spl_token::id(), the mint) under spl_associated_token_account::id(), as
/// that crate's `get_associated_token_address` derives it: the result
/// depends on the wallet and the mint alone.
#[verifier::external_body]
fn try_find_associated_token_address(wallet: &Address, mint: &Address) -> (r: Option<Address>)
    ensures
        address_view(r) == associated_token_address(wallet.bytes@, mint.bytes@),
{
    let token_program = spl_token::id().to_bytes();
    let seeds: [&[u8]; 3] = [&wallet.bytes, &token_program, &mint.bytes];
    solana_program::pubkey::Pubkey::try_find_program_address(&seeds, &spl_associated_token_account::id())
        .map(|(k, _)| Address { bytes: k.to_bytes() })
}

/// `program_state`
pub open spec fn program_state_tag() -> Seq<u8> {
    seq![112u8, 114, 111, 103, 114, 97, 109, 95, 115, 116, 97, 116, 101]
}

/// `box`
pub open spec fn box_tag() -> Seq<u8> {
    seq![98u8, 111, 120]
}

/// `token_box`
pub open spec fn token_box_tag() -> Seq<u8> {
    seq![116u8, 111, 107, 101, 110, 95, 98, 111, 120]
}

/// `vault`
pub open spec fn vault_tag() -> Seq<u8> {
    seq![118u8, 97, 117, 108, 116]
}

pub open spec fn program_state_seeds() -> Seq<Seq<u8>> {
    seq![program_state_tag()]
}

pub open spec fn box_seeds(sender: Address, id: Address) -> Seq<Seq<u8>> {
    seq![box_tag(), sender.bytes@, id.bytes@]
}

pub open spec fn token_box_seeds(sender: Address, id: Address) -> Seq<Seq<u8>> {
    seq![token_box_tag(), sender.bytes@, id.bytes@]
}

pub open spec fn vault_seeds(token_box: Address) -> Seq<Seq<u8>> {
    seq![vault_tag(), token_box.bytes@]
}

/// The seeds followed by the bump seed, as a signer presents them.
pub open spec fn with_bump(seeds: Seq<Seq<u8>>, bump: u8) -> Seq<Seq<u8>> {
    seeds.push(seq![bump])
}

/// The address derived from `seeds` for `program_id`, if any.
pub open spec fn derive(seeds: Seq<Seq<u8>>, program_id: Address) -> Option<(Seq<u8>, u8)> {
    program_address(seeds, program_id.bytes@)
}

/// Whether `key` is the address derived from `seeds` for `program_id`.
pub open spec fn derives_to(seeds: Seq<Seq<u8>>, program_id: Address, key: Address) -> bool {
    match derive(seeds, program_id) {
        Some((a, _)) => a == key.bytes@,
        None => false,
    }
}

/// The bump seed of a derivation that succeeded.
pub open spec fn bump_of(seeds: Seq<Seq<u8>>, program_id: Address) -> u8 {
    derive(seeds, program_id).unwrap().1
}

fn program_state_tag_bytes() -> (r: Vec<u8>)
    ensures
        r@ == program_state_tag(),
{
    let r = vec![112u8, 114, 111, 103, 114, 97, 109, 95, 115, 116, 97, 116, 101];
    assert(r@ =~= program_state_tag());
    r
}

fn box_tag_bytes() -> (r: Vec<u8>)
    ensures
        r@ == box_tag(),
{
    let r = vec![98u8, 111, 120];
    assert(r@ =~= box_tag());
    r
}

fn token_box_tag_bytes() -> (r: Vec<u8>)
    ensures
        r@ == token_box_tag(),
{
    let r = vec![116u8, 111, 107, 101, 110, 95, 98, 111, 120];
    assert(r@ =~= token_box_tag());
    r
}

fn vault_tag_bytes() -> (r: Vec<u8>)
    ensures
        r@ == vault_tag(),
{
    let r = vec![118u8, 97, 117, 108, 116];
    assert(r@ =~= vault_tag());
    r
}

/// The seeds of the authority record.
pub fn program_state_seed_list() -> (r: Vec<Vec<u8>>)
    ensures
        r.deep_view() == program_state_seeds(),
{
    let mut r: Vec<Vec<u8>> = Vec::new();
    let a = program_state_tag_bytes();
    assert(a.deep_view() =~= a@);
    r.push(a);
    assert(r.deep_view() =~= program_state_seeds());
    r
}

/// The seeds of the currency box of `sender` with identifier `id`.
pub fn box_seed_list(sender: &Address, id: &Address) -> (r: Vec<Vec<u8>>)
    ensures
        r.deep_view() == box_seeds(*sender, *id),
{
    let mut r: Vec<Vec<u8>> = Vec::new();
    let (a, b, c) = (box_tag_bytes(), sender.to_seed(), id.to_seed());
    assert(a.deep_view() =~= a@ && b.deep_view() =~= b@ && c.deep_view() =~= c@);
    r.push(a);
    r.push(b);
    r.push(c);
    assert(r.deep_view() =~= box_seeds(*sender, *id));
    r
}

/// The seeds of the token box of `sender` with identifier `id`.
pub fn token_box_seed_list(sender: &Address, id: &Address) -> (r: Vec<Vec<u8>>)
    ensures
        r.deep_view() == token_box_seeds(*sender, *id),
{
    let mut r: Vec<Vec<u8>> = Vec::new();
    let (a, b, c) = (token_box_tag_bytes(), sender.to_seed(), id.to_seed());
    assert(a.deep_view() =~= a@ && b.deep_view() =~= b@ && c.deep_view() =~= c@);
    r.push(a);
    r.push(b);
    r.push(c);
    assert(r.deep_view() =~= token_box_seeds(*sender, *id));
    r
}

/// The seeds of the vault authority of the token box at `token_box`.
pub fn vault_seed_list(token_box: &Address) -> (r: Vec<Vec<u8>>)
    ensures
        r.deep_view() == vault_seeds(*token_box),
{
    let mut r: Vec<Vec<u8>> = Vec::new();
    let (a, b) = (vault_tag_bytes(), token_box.to_seed());
    assert(a.deep_view() =~= a@ && b.deep_view() =~= b@);
    r.push(a);
    r.push(b);
    assert(r.deep_view() =~= vault_seeds(*token_box));
    r
}

/// Appends the bump seed to `seeds`, giving the seeds a signer presents.
pub fn signer_seeds(seeds: Vec<Vec<u8>>, bump: u8) -> (r: Vec<Vec<u8>>)
    ensures
        r.deep_view() == with_bump(seeds.deep_view(), bump),
{
    let mut r = seeds;
    let b = vec![bump];
    assert(b.deep_view() =~= seq![bump]);
    r.push(b);
    assert(r.deep_view() =~= with_bump(seeds.deep_view(), bump));
    r
}

/// Derives the address for `seeds` under `program_id` and tells whether it is
/// `key`; returns the bump seed where it is.
pub fn check_derived(seeds: &Vec<Vec<u8>>, program_id: &Address, key: &Address) -> (r: Option<u8>)
    ensures
        r.is_some() == derives_to(seeds.deep_view(), *program_id, *key),
        r.is_some() ==> r.unwrap() == bump_of(seeds.deep_view(), *program_id),
{
    match try_find_program_address(seeds, program_id) {
        Some((a, b)) => {
            if a.same(key) {
                Some(b)
            } else {
                None
            }
        },
        None => None,
    }
}

/// Whether `vault` is the canonical token account of `wallet` for `mint`.
pub fn check_associated_account(wallet: &Address, mint: &Address, vault: &Address) -> (r: bool)
    ensures
        r == is_associated_account(*wallet, *mint, *vault),
{
    match try_find_associated_token_address(wallet, mint) {
        Some(a) => a.same(vault),
        None => false,
    }
}

} // verus!
