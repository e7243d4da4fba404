//! Little-endian fixed-width fields, the building blocks of the record and
//! request layouts.
use vstd::prelude::*;

verus! {

pub open spec fn pow256(n: nat) -> nat
    decreases n,
{
    if n == 0 {
        1
    } else {
        256 * pow256((n - 1) as nat)
    }
}

/// The number whose little-endian bytes are `s`.
pub open spec fn le_value(s: Seq<u8>) -> nat
    decreases s.len(),
{
    if s.len() == 0 {
        0
    } else {
        le_value(s.drop_last()) + pow256((s.len() - 1) as nat) * (s.last() as nat)
    }
}

/// The two's-complement bits of `d`, as an unsigned number.
pub open spec fn i64_bits(d: i64) -> nat {
    if d >= 0 {
        d as nat
    } else {
        (d + 0x1_0000_0000_0000_0000) as nat
    }
}

proof fn lemma_pow256_8()
    ensures
        pow256(8) == 0x1_0000_0000_0000_0000,
        pow256(2) == 0x1_0000,
{
    reveal_with_fuel(pow256, 9);
}

proof fn lemma_pow256_pos(n: nat)
    ensures
        pow256(n) > 0,
    decreases n,
{
    if n > 0 {
        lemma_pow256_pos((n - 1) as nat);
    }
}

proof fn lemma_le_value_bound(s: Seq<u8>)
    ensures
        le_value(s) < pow256(s.len()),
    decreases s.len(),
{
    if s.len() > 0 {
        let t = s.drop_last();
        lemma_le_value_bound(t);
        let p = pow256(t.len());
        assert(pow256(s.len()) == 256 * p);
        let b = s.last() as nat;
        assert(le_value(t) + p * b < 256 * p) by (nonlinear_arith)
            requires
                le_value(t) < p,
                b < 256,
        ;
    }
}

/// Appends the `n` little-endian bytes of `x` to `out`.
fn write_le(out: &mut Vec<u8>, x: u64, n: usize)
    requires
        n <= 8,
        (x as nat) < pow256(n as nat),
    ensures
        final(out)@.len() == old(out)@.len() + n,
        final(out)@.subrange(0, old(out)@.len() as int) == old(out)@,
        le_value(final(out)@.subrange(old(out)@.len() as int, final(out)@.len() as int)) == x,
{
    let ghost start = out@.len();
    let mut y: u64 = x;
    let mut i: usize = 0;
    assert(out@.subrange(start as int, start as int) =~= Seq::<u8>::empty());
    assert(pow256(0) == 1);
    while i < n
        invariant
            0 <= i <= n,
            n <= 8,
            (x as nat) < pow256(n as nat),
            out@.len() == start + i,
            out@.subrange(0, start as int) == old(out)@,
            le_value(out@.subrange(start as int, out@.len() as int)) + pow256(i as nat) * y == x,
        decreases n - i,
    {
        let ghost before = out@;
        let b: u8 = (y % 256) as u8;
        out.push(b);
        let ghost s = out@.subrange(start as int, out@.len() as int);
        assert(s.drop_last() =~= before.subrange(start as int, before.len() as int));
        assert(out@.subrange(0, start as int) =~= before.subrange(0, start as int));
        let ghost p = pow256(i as nat);
        let ghost v = le_value(s.drop_last());
        assert(le_value(s) == v + p * b);
        assert(pow256((i + 1) as nat) == 256 * p);
        assert(v + p * b + (256 * p) * (y / 256) == v + p * y) by (nonlinear_arith)
            requires
                b == y % 256,
        ;
        y = y / 256;
        i = i + 1;
    }
    proof {
        lemma_pow256_pos(n as nat);
        let s = out@.subrange(start as int, out@.len() as int);
        if y > 0 {
            assert(pow256(n as nat) * y >= pow256(n as nat)) by (nonlinear_arith)
                requires
                    y > 0,
            ;
        }
    }
}

/// Reads the `n` little-endian bytes of `data` that start at `at`.
fn read_le(data: &Vec<u8>, at: usize, n: usize) -> (r: u64)
    requires
        n <= 8,
        at + n <= data@.len(),
    ensures
        r == le_value(data@.subrange(at as int, at + n)),
{
    let len = data.len();
    let mut acc: u128 = 0;
    let mut p: u128 = 1;
    let mut i: usize = 0;
    proof {
        lemma_pow256_8();
    }
    while i < n
        invariant
            0 <= i <= n,
            n <= 8,
            at + n <= data@.len(),
            len == data@.len(),
            pow256(8) == 0x1_0000_0000_0000_0000,
            p == pow256(i as nat),
            acc == le_value(data@.subrange(at as int, at + i)),
            acc < p,
            pow256(i as nat) * pow256((8 - i) as nat) == pow256(8),
        decreases n - i,
    {
        assert(at + i < data@.len());
        let b: u8 = data[at + i];
        let ghost s = data@.subrange(at as int, at + i + 1);
        assert(s.drop_last() =~= data@.subrange(at as int, at + i));
        assert(pow256((8 - i) as nat) == 256 * pow256((8 - i - 1) as nat));
        proof {
            lemma_pow256_pos((8 - i - 1) as nat);
        }
        assert(p * 256 <= 0x1_0000_0000_0000_0000) by (nonlinear_arith)
            requires
                p * (256 * pow256((8 - i - 1) as nat)) == 0x1_0000_0000_0000_0000,
                pow256((8 - i - 1) as nat) > 0,
        ;
        assert(acc + p * b < p * 256) by (nonlinear_arith)
            requires
                acc < p,
                b < 256,
        ;
        acc = acc + p * (b as u128);
        p = p * 256;
        i = i + 1;
        assert(pow256(i as nat) * pow256((8 - i) as nat) == pow256(8)) by (nonlinear_arith)
            requires
                pow256((i - 1) as nat) * (256 * pow256((8 - i) as nat)) == pow256(8),
                pow256(i as nat) == 256 * pow256((i - 1) as nat),
        ;
    }
    proof {
        lemma_pow256_pos((8 - n) as nat);
    }
    assert(acc < 0x1_0000_0000_0000_0000) by (nonlinear_arith)
        requires
            acc < p,
            p * pow256((8 - n) as nat) == 0x1_0000_0000_0000_0000,
            pow256((8 - n) as nat) > 0,
    {
    }
    acc as u64
}

/// Appends the eight little-endian bytes of `x`.
pub fn write_u64(out: &mut Vec<u8>, x: u64)
    ensures
        final(out)@.len() == old(out)@.len() + 8,
        final(out)@.subrange(0, old(out)@.len() as int) == old(out)@,
        le_value(final(out)@.subrange(old(out)@.len() as int, final(out)@.len() as int)) == x,
{
    proof {
        lemma_pow256_8();
    }
    write_le(out, x, 8);
}

/// Reads the eight little-endian bytes at `at`.
pub fn read_u64(data: &Vec<u8>, at: usize) -> (r: u64)
    requires
        at + 8 <= data@.len(),
    ensures
        r == le_value(data@.subrange(at as int, at + 8)),
{
    read_le(data, at, 8)
}

/// Reads the two little-endian bytes at `at`.
pub fn read_u16(data: &Vec<u8>, at: usize) -> (r: u16)
    requires
        at + 2 <= data@.len(),
    ensures
        r == le_value(data@.subrange(at as int, at + 2)),
{
    proof {
        lemma_pow256_8();
    }
    let v = read_le(data, at, 2);
    proof {
        lemma_le_value_bound(data@.subrange(at as int, at + 2));
    }
    v as u16
}

/// Appends the eight bytes of `d` in two's complement, little-endian.
pub fn write_i64(out: &mut Vec<u8>, d: i64)
    ensures
        final(out)@.len() == old(out)@.len() + 8,
        final(out)@.subrange(0, old(out)@.len() as int) == old(out)@,
        le_value(final(out)@.subrange(old(out)@.len() as int, final(out)@.len() as int)) == i64_bits(d),
{
    let bits: u64 = if d >= 0 {
        d as u64
    } else {
        (((d + 1) + 0x7fff_ffff_ffff_ffff) as u64) + 0x8000_0000_0000_0000
    };
    write_u64(out, bits);
}

/// Reads eight little-endian bytes at `at` as a two's-complement number.
pub fn read_i64(data: &Vec<u8>, at: usize) -> (r: i64)
    requires
        at + 8 <= data@.len(),
    ensures
        i64_bits(r) == le_value(data@.subrange(at as int, at + 8)),
{
    let v = read_u64(data, at);
    if v < 0x8000_0000_0000_0000 {
        v as i64
    } else {
        ((v - 0x8000_0000_0000_0000) as i64) - 0x7fff_ffff_ffff_ffff - 1
    }
}

} // verus!
