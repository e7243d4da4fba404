//! The records kept in the program's accounts, and their byte layouts.
use vstd::prelude::*;
use crate::address::Address;
use crate::layout::{i64_bits, le_value, read_i64, read_u64, write_i64, write_u64};

verus! {

/// The singleton record naming the administrator.
#[derive(Clone, Copy, Debug)]
pub struct ProgramState {
    pub authority: Address,
}

/// One escrow of native currency. A deadline and an amount of zero mark it
/// closed.
#[derive(Clone, Copy, Debug)]
pub struct Box {
    pub sender: Address,
    pub id: Address,
    pub deadline: i64,
    pub amount: u64,
}

/// One escrow of tokens of `mint`, held in a vault account.
#[derive(Clone, Copy, Debug)]
pub struct TokenBox {
    pub sender: Address,
    pub id: Address,
    pub deadline: i64,
    pub amount: u64,
    pub mint: Address,
}

pub const PROGRAM_STATE_LEN: usize = 32;

pub const BOX_LEN: usize = 80;

pub const TOKEN_BOX_LEN: usize = 112;

pub open spec fn field(d: Seq<u8>, at: int, n: int) -> Seq<u8> {
    d.subrange(at, at + n)
}

/// `d` is the layout of `s`: the authority's 32 bytes.
pub open spec fn encodes_program_state(s: ProgramState, d: Seq<u8>) -> bool {
    &&& d.len() == PROGRAM_STATE_LEN
    &&& field(d, 0, 32) == s.authority.bytes@
}

/// `d` is the layout of `b`: sender, id, deadline and amount, the numbers
/// little-endian, the deadline in two's complement.
pub open spec fn encodes_box(b: Box, d: Seq<u8>) -> bool {
    &&& d.len() == BOX_LEN
    &&& field(d, 0, 32) == b.sender.bytes@
    &&& field(d, 32, 32) == b.id.bytes@
    &&& le_value(field(d, 64, 8)) == i64_bits(b.deadline)
    &&& le_value(field(d, 72, 8)) == b.amount
}

/// `d` is the layout of `b`: the fields of a currency box, then the mint.
pub open spec fn encodes_token_box(b: TokenBox, d: Seq<u8>) -> bool {
    &&& d.len() == TOKEN_BOX_LEN
    &&& field(d, 0, 32) == b.sender.bytes@
    &&& field(d, 32, 32) == b.id.bytes@
    &&& le_value(field(d, 64, 8)) == i64_bits(b.deadline)
    &&& le_value(field(d, 72, 8)) == b.amount
    &&& field(d, 80, 32) == b.mint.bytes@
}

/// Reads the 32 bytes of an address at `at`.
pub fn read_address(data: &Vec<u8>, at: usize) -> (r: Address)
    requires
        at + 32 <= data@.len(),
    ensures
        r.bytes@ == data@.subrange(at as int, at + 32),
{
    let len = data.len();
    let mut a: [u8; 32] = [0u8; 32];
    let mut i: usize = 0;
    while i < 32
        invariant
            0 <= i <= 32,
            at + 32 <= data@.len(),
            len == data@.len(),
            forall|j: int| 0 <= j < i ==> a@[j] == data@[at + j],
        decreases 32 - i,
    {
        a[i] = data[at + i];
        i = i + 1;
    }
    assert(a@ =~= data@.subrange(at as int, at + 32));
    Address { bytes: a }
}

/// Appends the 32 bytes of `a`.
pub fn write_address(out: &mut Vec<u8>, a: &Address)
    ensures
        final(out)@ == old(out)@ + a.bytes@,
{
    let mut i: usize = 0;
    while i < 32
        invariant
            0 <= i <= 32,
            out@ == old(out)@ + a.bytes@.subrange(0, i as int),
        decreases 32 - i,
    {
        out.push(a.bytes[i]);
        assert(out@ =~= old(out)@ + a.bytes@.subrange(0, i + 1));
        i = i + 1;
    }
    assert(a.bytes@.subrange(0, 32) =~= a.bytes@);
}

impl ProgramState {
    /// The record's bytes.
    pub fn pack(&self) -> (r: Vec<u8>)
        ensures
            encodes_program_state(*self, r@),
    {
        let mut out: Vec<u8> = Vec::new();
        write_address(&mut out, &self.authority);
        assert(field(out@, 0, 32) =~= self.authority.bytes@);
        out
    }

    /// The record held in `data`, if `data` has the record's length.
    pub fn unpack(data: &Vec<u8>) -> (r: Option<ProgramState>)
        ensures
            r.is_some() == (data@.len() == PROGRAM_STATE_LEN),
            r.is_some() ==> encodes_program_state(r.unwrap(), data@),
    {
        if data.len() != PROGRAM_STATE_LEN {
            return None;
        }
        Some(ProgramState { authority: read_address(data, 0) })
    }
}

impl Box {
    /// The record's bytes.
    pub fn pack(&self) -> (r: Vec<u8>)
        ensures
            encodes_box(*self, r@),
    {
        let mut out: Vec<u8> = Vec::new();
        write_address(&mut out, &self.sender);
        let ghost o1 = out@;
        write_address(&mut out, &self.id);
        let ghost o2 = out@;
        write_i64(&mut out, self.deadline);
        let ghost o3 = out@;
        write_u64(&mut out, self.amount);
        assert(o3.subrange(0, 32) =~= o1);
        assert(field(out@, 0, 32) =~= o1);
        assert(o2.subrange(32, 64) =~= self.id.bytes@);
        assert(o3.subrange(32, 64) =~= self.id.bytes@);
        assert(field(out@, 32, 32) =~= self.id.bytes@);
        assert(field(out@, 64, 8) =~= o3.subrange(64, 72));
        out
    }

    /// The record held in `data`, if `data` has the record's length.
    pub fn unpack(data: &Vec<u8>) -> (r: Option<Box>)
        ensures
            r.is_some() == (data@.len() == BOX_LEN),
            r.is_some() ==> encodes_box(r.unwrap(), data@),
    {
        if data.len() != BOX_LEN {
            return None;
        }
        Some(
            Box {
                sender: read_address(data, 0),
                id: read_address(data, 32),
                deadline: read_i64(data, 64),
                amount: read_u64(data, 72),
            },
        )
    }

    /// The same box, closed: deadline and amount zero.
    pub open spec fn closed(self) -> Box {
        Box { deadline: 0, amount: 0, ..self }
    }
}

impl TokenBox {
    /// The record's bytes.
    pub fn pack(&self) -> (r: Vec<u8>)
        ensures
            encodes_token_box(*self, r@),
    {
        let mut out: Vec<u8> = Vec::new();
        write_address(&mut out, &self.sender);
        let ghost o1 = out@;
        write_address(&mut out, &self.id);
        let ghost o2 = out@;
        write_i64(&mut out, self.deadline);
        let ghost o3 = out@;
        write_u64(&mut out, self.amount);
        let ghost o4 = out@;
        write_address(&mut out, &self.mint);
        assert(o3.subrange(0, 32) =~= o1);
        assert(o4.subrange(0, 32) =~= o1);
        assert(field(out@, 0, 32) =~= o1);
        assert(o2.subrange(32, 64) =~= self.id.bytes@);
        assert(o3.subrange(32, 64) =~= self.id.bytes@);
        assert(o4.subrange(32, 64) =~= self.id.bytes@);
        assert(field(out@, 32, 32) =~= self.id.bytes@);
        assert(o4.subrange(64, 72) =~= o3.subrange(64, 72));
        assert(field(out@, 64, 8) =~= o3.subrange(64, 72));
        assert(field(out@, 72, 8) =~= o4.subrange(72, 80));
        assert(field(out@, 80, 32) =~= self.mint.bytes@);
        out
    }

    /// The record held in `data`, if `data` has the record's length.
    pub fn unpack(data: &Vec<u8>) -> (r: Option<TokenBox>)
        ensures
            r.is_some() == (data@.len() == TOKEN_BOX_LEN),
            r.is_some() ==> encodes_token_box(r.unwrap(), data@),
    {
        if data.len() != TOKEN_BOX_LEN {
            return None;
        }
        Some(
            TokenBox {
                sender: read_address(data, 0),
                id: read_address(data, 32),
                deadline: read_i64(data, 64),
                amount: read_u64(data, 72),
                mint: read_address(data, 80),
            },
        )
    }

    /// The same box, closed: deadline and amount zero.
    pub open spec fn closed(self) -> TokenBox {
        TokenBox { deadline: 0, amount: 0, ..self }
    }
}

proof fn lemma_i64_bits_injective(a: i64, b: i64)
    requires
        i64_bits(a) == i64_bits(b),
    ensures
        a == b,
{
}

proof fn lemma_address_from_view(a: Address, b: Address)
    requires
        a.bytes@ == b.bytes@,
    ensures
        a == b,
{
    assert forall|i: int| 0 <= i < 32 implies a.bytes[i] == b.bytes[i] by {
        assert(a.bytes@[i] == b.bytes@[i]);
    }
    assert(a.bytes =~= b.bytes);
}

/// The layout determines a currency box: two boxes with the same bytes are
/// the same box.
pub proof fn lemma_box_layout_unique(b1: Box, b2: Box, d: Seq<u8>)
    requires
        encodes_box(b1, d),
        encodes_box(b2, d),
    ensures
        b1 == b2,
{
    lemma_address_from_view(b1.sender, b2.sender);
    lemma_address_from_view(b1.id, b2.id);
    lemma_i64_bits_injective(b1.deadline, b2.deadline);
}

/// The layout determines a token box: two token boxes with the same bytes
/// are the same box.
pub proof fn lemma_token_box_layout_unique(b1: TokenBox, b2: TokenBox, d: Seq<u8>)
    requires
        encodes_token_box(b1, d),
        encodes_token_box(b2, d),
    ensures
        b1 == b2,
{
    lemma_address_from_view(b1.sender, b2.sender);
    lemma_address_from_view(b1.id, b2.id);
    lemma_address_from_view(b1.mint, b2.mint);
    lemma_i64_bits_injective(b1.deadline, b2.deadline);
}

/// The layout determines the authority record.
pub proof fn lemma_program_state_layout_unique(s1: ProgramState, s2: ProgramState, d: Seq<u8>)
    requires
        encodes_program_state(s1, d),
        encodes_program_state(s2, d),
    ensures
        s1 == s2,
{
    lemma_address_from_view(s1.authority, s2.authority);
}

} // verus!
