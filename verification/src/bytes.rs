//! Big-endian byte packing.
//!
//! Every integer on the GDSII wire is stored big-endian.  `be_val` gives
//! the unbounded integer value of a byte string, `be_bytes` the fixed-width
//! encoding of an integer; the lemmas here show the two are inverse, and
//! the executable readers and writers are proved against them.

use vstd::prelude::*;
use vstd::arithmetic::div_mod::lemma_fundamental_div_mod;

verus! {

/// The value of a big-endian byte string, as an unbounded integer.
pub open spec fn be_val(b: Seq<u8>) -> int
    decreases b.len(),
{
    if b.len() == 0 {
        0
    } else {
        be_val(b.drop_last()) * 256 + b.last()
    }
}

/// The `n`-byte big-endian encoding of `x` (keeping only the low bytes
/// when `x` does not fit).
pub open spec fn be_bytes(x: int, n: nat) -> Seq<u8>
    decreases n,
{
    if n == 0 {
        Seq::empty()
    } else {
        be_bytes(x / 256, (n - 1) as nat).push((x % 256) as u8)
    }
}

/// 256 to the power `n`: the number of values an `n`-byte string can hold.
pub open spec fn pow256(n: nat) -> int
    decreases n,
{
    if n == 0 {
        1
    } else {
        256 * pow256((n - 1) as nat)
    }
}

pub proof fn lemma_pow256_pos(n: nat)
    ensures
        pow256(n) >= 1,
    decreases n,
{
    if n > 0 {
        lemma_pow256_pos((n - 1) as nat);
    }
}

pub proof fn lemma_pow256_mul(m: nat, n: nat)
    ensures
        pow256(m + n) == pow256(m) * pow256(n),
    decreases m,
{
    if m == 0 {
    } else {
        lemma_pow256_mul((m - 1) as nat, n);
        assert(256 * (pow256((m - 1) as nat) * pow256(n)) == (256 * pow256((m - 1) as nat))
            * pow256(n)) by (nonlinear_arith);
        assert((m + n - 1) as nat == (m - 1) as nat + n);
    }
}

pub proof fn lemma_be_val_bound(b: Seq<u8>)
    ensures
        0 <= be_val(b) < pow256(b.len()),
    decreases b.len(),
{
    if b.len() > 0 {
        lemma_be_val_bound(b.drop_last());
    }
}

pub broadcast proof fn lemma_be_bytes_len(x: int, n: nat)
    ensures
        (#[trigger] be_bytes(x, n)).len() == n,
    decreases n,
{
    if n > 0 {
        lemma_be_bytes_len(x / 256, (n - 1) as nat);
    }
}

/// Encoding then decoding gives the value back, when the value fits.
pub proof fn lemma_be_bytes_val(x: int, n: nat)
    requires
        0 <= x < pow256(n),
    ensures
        be_val(be_bytes(x, n)) == x,
    decreases n,
{
    if n == 0 {
    } else {
        lemma_fundamental_div_mod(x, 256);
        assert(x / 256 < pow256((n - 1) as nat));
        lemma_be_bytes_val(x / 256, (n - 1) as nat);
        let bs = be_bytes(x / 256, (n - 1) as nat);
        let whole = bs.push((x % 256) as u8);
        assert(whole.drop_last() =~= bs);
        assert(be_val(whole) == be_val(bs) * 256 + (x % 256));
    }
}

/// Decoding then encoding gives the byte string back.
pub proof fn lemma_be_val_bytes(b: Seq<u8>)
    ensures
        be_bytes(be_val(b), b.len()) =~= b,
    decreases b.len(),
{
    if b.len() > 0 {
        lemma_be_val_bytes(b.drop_last());
        lemma_be_val_bound(b.drop_last());
        let v = be_val(b.drop_last());
        let x = be_val(b);
        lemma_fundamental_div_mod(x, 256);
        assert(x == v * 256 + b.last());
        assert(x / 256 == v && x % 256 == b.last()) by {
            vstd::arithmetic::div_mod::lemma_fundamental_div_mod_converse(
                x, 256, v, b.last() as int);
        }
        assert(be_bytes(x, b.len()) == be_bytes(v, (b.len() - 1) as nat).push(b.last()));
        assert(be_bytes(v, (b.len() - 1) as nat) =~= b.drop_last());
        assert(b.drop_last().push(b.last()) =~= b);
    }
}

/// The value of a concatenation: the left part is shifted past the right.
pub proof fn lemma_be_val_concat(a: Seq<u8>, b: Seq<u8>)
    ensures
        be_val(a + b) == be_val(a) * pow256(b.len()) + be_val(b),
    decreases b.len(),
{
    if b.len() == 0 {
        assert(a + b =~= a);
    } else {
        lemma_be_val_concat(a, b.drop_last());
        assert((a + b).drop_last() =~= a + b.drop_last());
        assert((a + b).last() == b.last());
        let va = be_val(a);
        let p1 = pow256((b.len() - 1) as nat);
        assert((va * p1) * 256 == va * (p1 * 256)) by (nonlinear_arith);
        assert(pow256(b.len()) == 256 * p1);
        assert(p1 * 256 == 256 * p1) by (nonlinear_arith);
    }
}

/// A wide encoding splits into the encodings of quotient and remainder.
pub proof fn lemma_be_bytes_split(x: int, m: nat, n: nat)
    requires
        0 <= x < pow256(m + n),
    ensures
        be_bytes(x, m + n) =~= be_bytes(x / pow256(n), m) + be_bytes(x % pow256(n), n),
{
    let p = pow256(n);
    lemma_pow256_pos(n);
    lemma_pow256_pos(m);
    lemma_pow256_mul(m, n);
    lemma_fundamental_div_mod(x, p);
    vstd::arithmetic::div_mod::lemma_mod_bound(x, p);
    assert(x / p < pow256(m)) by (nonlinear_arith)
        requires
            p >= 1,
            0 <= x < pow256(m) * p,
            x == p * (x / p) + x % p,
            0 <= x % p < p,
    ;
    assert(0 <= x / p) by (nonlinear_arith)
        requires
            p >= 1,
            0 <= x,
            x == p * (x / p) + x % p,
            0 <= x % p < p,
    ;
    let a = be_bytes(x / p, m);
    let b = be_bytes(x % p, n);
    lemma_be_bytes_len(x / p, m);
    lemma_be_bytes_len(x % p, n);
    lemma_be_bytes_val(x / p, m);
    lemma_be_bytes_val(x % p, n);
    lemma_be_val_concat(a, b);
    assert((x / p) * p == p * (x / p)) by (nonlinear_arith);
    assert(be_val(a + b) == x);
    lemma_be_val_bytes(a + b);
    assert((a + b).len() == m + n);
}

/// Reads the big-endian `u16` at `pos`.
pub fn read_u16_at(s: &[u8], pos: usize) -> (r: u16)
    requires
        pos + 2 <= s@.len(),
    ensures
        r == be_val(s@.subrange(pos as int, pos as int + 2)),
{
    let b0 = s[pos];
    let b1 = s[pos + 1];
    proof {
        reveal_with_fuel(be_val, 3);
        let sub = s@.subrange(pos as int, pos as int + 2);
        assert(sub.drop_last() =~= seq![b0]);
        assert(seq![b0].drop_last() =~= Seq::<u8>::empty());
        assert(be_val(sub) == b0 * 256 + b1);
    }
    (b0 as u16) * 256 + (b1 as u16)
}

/// Reads the big-endian `u32` at `pos`.
pub fn read_u32_at(s: &[u8], pos: usize) -> (r: u32)
    requires
        pos + 4 <= s@.len(),
    ensures
        r == be_val(s@.subrange(pos as int, pos as int + 4)),
{
    // bind the length so the verifier sees the whole slice fits a usize
    let _n = s.len();
    let hi = read_u16_at(s, pos);
    let lo = read_u16_at(s, pos + 2);
    proof {
        let a = s@.subrange(pos as int, pos as int + 2);
        let b = s@.subrange(pos as int + 2, pos as int + 4);
        assert(s@.subrange(pos as int, pos as int + 4) =~= a + b);
        lemma_be_val_concat(a, b);
        assert(pow256(2) == 65536) by {
            reveal_with_fuel(pow256, 3);
        }
        lemma_be_val_bound(a);
        lemma_be_val_bound(b);
    }
    (hi as u32) * 65536 + (lo as u32)
}

/// Reads the big-endian `u64` at `pos`.
pub fn read_u64_at(s: &[u8], pos: usize) -> (r: u64)
    requires
        pos + 8 <= s@.len(),
    ensures
        r == be_val(s@.subrange(pos as int, pos as int + 8)),
{
    // bind the length so the verifier sees the whole slice fits a usize
    let _n = s.len();
    let hi = read_u32_at(s, pos);
    let lo = read_u32_at(s, pos + 4);
    proof {
        let a = s@.subrange(pos as int, pos as int + 4);
        let b = s@.subrange(pos as int + 4, pos as int + 8);
        assert(s@.subrange(pos as int, pos as int + 8) =~= a + b);
        lemma_be_val_concat(a, b);
        assert(pow256(4) == 0x1_0000_0000) by {
            reveal_with_fuel(pow256, 5);
        }
        lemma_be_val_bound(a);
        lemma_be_val_bound(b);
    }
    (hi as u64) * 0x1_0000_0000 + (lo as u64)
}

/// Appends the 2-byte big-endian encoding of `x`.
pub fn push_be16(out: &mut Vec<u8>, x: u16)
    ensures
        final(out)@ == old(out)@ + be_bytes(x as int, 2),
{
    let b0 = (x / 256) as u8;
    let b1 = (x % 256) as u8;
    out.push(b0);
    out.push(b1);
    proof {
        assert(be_bytes(x as int, 2) =~= seq![b0, b1]) by {
            reveal_with_fuel(be_bytes, 3);
            assert((x as int / 256) % 256 == x as int / 256);
        }
        assert(out@ =~= old(out)@ + seq![b0, b1]);
    }
}

/// Appends the 4-byte big-endian encoding of `x`.
pub fn push_be32(out: &mut Vec<u8>, x: u32)
    ensures
        final(out)@ == old(out)@ + be_bytes(x as int, 4),
{
    push_be16(out, (x / 65536) as u16);
    push_be16(out, (x % 65536) as u16);
    proof {
        assert(pow256(2) == 65536 && pow256(4) == 0x1_0000_0000) by {
            reveal_with_fuel(pow256, 5);
        }
        lemma_be_bytes_split(x as int, 2, 2);
        assert(out@ =~= old(out)@ + be_bytes(x as int, 4));
    }
}

/// Appends the 8-byte big-endian encoding of `x`.
pub fn push_be64(out: &mut Vec<u8>, x: u64)
    ensures
        final(out)@ == old(out)@ + be_bytes(x as int, 8),
{
    push_be32(out, (x / 0x1_0000_0000) as u32);
    push_be32(out, (x % 0x1_0000_0000) as u32);
    proof {
        assert(pow256(4) == 0x1_0000_0000 && pow256(8) == 0x1_0000_0000_0000_0000) by {
            reveal_with_fuel(pow256, 9);
        }
        lemma_be_bytes_split(x as int, 4, 4);
        assert(out@ =~= old(out)@ + be_bytes(x as int, 8));
    }
}

} // verus!
