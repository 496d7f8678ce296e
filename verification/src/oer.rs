//! Big-endian octet encoding primitives: fixed-width and minimal-width
//! unsigned integers, in the style of canonical OER. These are the building
//! blocks of the packet codec.

use vstd::prelude::*;
use vstd::arithmetic::div_mod::lemma_mod_breakdown;
use vstd::arithmetic::div_mod::lemma_small_mod;

verus! {

/// 256 raised to `k`: the number of values that `k` octets can carry.
pub open spec fn pow256(k: nat) -> nat
    decreases k,
{
    if k == 0 {
        1
    } else {
        256 * pow256((k - 1) as nat)
    }
}

/// The big-endian digits of `n % 256^k`, exactly `k` octets long.
pub open spec fn be_digits(n: nat, k: nat) -> Seq<u8>
    decreases k,
{
    if k == 0 {
        Seq::empty()
    } else {
        be_digits(n / 256, (k - 1) as nat).push((n % 256) as u8)
    }
}

/// The value of a big-endian octet string.
pub open spec fn be_val(s: Seq<u8>) -> nat
    decreases s.len(),
{
    if s.len() == 0 {
        0
    } else {
        be_val(s.drop_last()) * 256 + s.last() as nat
    }
}

pub proof fn lemma_pow256_pos(k: nat)
    ensures
        pow256(k) >= 1,
    decreases k,
{
    if k > 0 {
        lemma_pow256_pos((k - 1) as nat);
    }
}

pub proof fn lemma_pow256_monotone(a: nat, b: nat)
    requires
        a <= b,
    ensures
        pow256(a) <= pow256(b),
    decreases b,
{
    if a < b {
        lemma_pow256_monotone(a, (b - 1) as nat);
        lemma_pow256_pos((b - 1) as nat);
        assert(256 * pow256((b - 1) as nat) >= pow256((b - 1) as nat)) by (nonlinear_arith)
            requires
                pow256((b - 1) as nat) >= 1,
        ;
    }
}

pub proof fn lemma_pow256_values()
    ensures
        pow256(0) == 1,
        pow256(1) == 0x100,
        pow256(2) == 0x10000,
        pow256(3) == 0x1000000,
        pow256(4) == 0x100000000,
        pow256(5) == 0x10000000000,
        pow256(6) == 0x1000000000000,
        pow256(7) == 0x100000000000000,
        pow256(8) == 0x10000000000000000,
{
    reveal_with_fuel(pow256, 9);
}

pub proof fn lemma_be_digits_len(n: nat, k: nat)
    ensures
        be_digits(n, k).len() == k,
    decreases k,
{
    if k > 0 {
        lemma_be_digits_len(n / 256, (k - 1) as nat);
    }
}

pub proof fn lemma_be_val_digits(n: nat, k: nat)
    ensures
        be_val(be_digits(n, k)) == n % pow256(k),
    decreases k,
{
    if k == 0 {
        assert(n % 1 == 0) by (nonlinear_arith);
    } else {
        let rest = be_digits(n / 256, (k - 1) as nat);
        lemma_be_digits_len(n / 256, (k - 1) as nat);
        let s = rest.push((n % 256) as u8);
        assert(s.drop_last() =~= rest);
        lemma_be_val_digits(n / 256, (k - 1) as nat);
        lemma_pow256_pos((k - 1) as nat);
        lemma_mod_breakdown(n as int, 256, pow256((k - 1) as nat) as int);
    }
}

/// A value below `256^k` is reproduced exactly by its `k` digits.
pub proof fn lemma_be_val_digits_small(n: nat, k: nat)
    requires
        n < pow256(k),
    ensures
        be_val(be_digits(n, k)) == n,
{
    lemma_be_val_digits(n, k);
    lemma_small_mod(n, pow256(k));
}

/// The value of `s` is below `256^|s|`.
pub proof fn lemma_be_val_bound(s: Seq<u8>)
    ensures
        be_val(s) < pow256(s.len()),
    decreases s.len(),
{
    if s.len() > 0 {
        lemma_be_val_bound(s.drop_last());
        assert(be_val(s.drop_last()) * 256 <= (pow256((s.len() - 1) as nat) - 1) * 256)
            by (nonlinear_arith)
            requires
                be_val(s.drop_last()) <= pow256((s.len() - 1) as nat) - 1,
        ;
    }
}

/// Appends the `k` big-endian digits of `n` to `out`.
pub fn push_be_digits(out: &mut Vec<u8>, n: u64, k: usize)
    ensures
        final(out)@ == old(out)@ + be_digits(n as nat, k as nat),
    decreases k,
{
    if k == 0 {
        assert(out@ =~= old(out)@ + be_digits(n as nat, 0));
    } else {
        push_be_digits(out, n / 256, k - 1);
        let digit: u8 = (n % 256) as u8;
        out.push(digit);
        assert(out@ =~= old(out)@ + be_digits(n as nat, k as nat));
    }
}

/// Reads `k` big-endian octets starting at `pos`; the result is below `256^k`.
pub fn read_be(buf: &[u8], pos: usize, k: usize) -> (r: u64)
    requires
        pos + k <= buf@.len(),
        k <= 8,
    ensures
        r as nat == be_val(buf@.subrange(pos as int, pos + k)),
{
    let blen: usize = buf.len();
    let mut acc: u64 = 0;
    let mut i: usize = 0;
    proof {
        assert(buf@.subrange(pos as int, pos as int) =~= Seq::<u8>::empty());
    }
    while i < k
        invariant
            i <= k,
            k <= 8,
            pos + k <= buf@.len(),
            buf@.len() == blen,
            acc as nat == be_val(buf@.subrange(pos as int, pos + i)),
            (acc as nat) < pow256(i as nat),
        decreases k - i,
    {
        let b = buf[pos + i];
        proof {
            let before = buf@.subrange(pos as int, pos + i);
            let after = buf@.subrange(pos as int, pos + i + 1);
            assert(after.drop_last() =~= before);
            assert(after.last() == b);
            assert((acc as nat) * 256 + b < pow256((i + 1) as nat)) by (nonlinear_arith)
                requires
                    (acc as nat) < pow256(i as nat),
                    b < 256,
                    pow256((i + 1) as nat) == 256 * pow256(i as nat),
            ;
            lemma_pow256_monotone((i + 1) as nat, 8);
            lemma_pow256_values();
        }
        acc = acc * 256 + (b as u64);
        i = i + 1;
    }
    acc
}

/// The least number of octets (at least one) that can carry `n`.
pub open spec fn byte_len(n: nat) -> nat {
    if n < 0x100 {
        1
    } else if n < 0x10000 {
        2
    } else if n < 0x1000000 {
        3
    } else if n < 0x100000000 {
        4
    } else if n < 0x10000000000 {
        5
    } else if n < 0x1000000000000 {
        6
    } else if n < 0x100000000000000 {
        7
    } else {
        8
    }
}

pub proof fn lemma_byte_len_bounds(n: nat)
    requires
        n <= u64::MAX,
    ensures
        1 <= byte_len(n) <= 8,
        n < pow256(byte_len(n)),
{
    lemma_pow256_values();
}

/// A length prefix: one octet for values below 128, otherwise a count octet
/// followed by the value in as few octets as possible.
pub open spec fn spec_varlen(n: nat) -> Seq<u8> {
    if n < 128 {
        seq![n as u8]
    } else {
        seq![(128 + byte_len(n)) as u8] + be_digits(n, byte_len(n))
    }
}

/// Reads a length prefix at `pos`: the value and the position after it.
pub open spec fn parse_varlen(s: Seq<u8>, pos: int) -> Option<(nat, int)> {
    if 0 <= pos < s.len() {
        let b = s[pos];
        if b < 128 {
            Some((b as nat, pos + 1))
        } else {
            let k = (b - 128) as nat;
            if 1 <= k <= 8 && pos + 1 + k <= s.len() {
                Some((be_val(s.subrange(pos + 1, pos + 1 + k)), pos + 1 + k))
            } else {
                None
            }
        }
    } else {
        None
    }
}

pub proof fn lemma_varlen_len(n: nat)
    requires
        n <= u64::MAX,
    ensures
        1 <= spec_varlen(n).len() <= 9,
        spec_varlen(n).len() == if n < 128 { 1nat } else { 1 + byte_len(n) },
{
    lemma_byte_len_bounds(n);
    if n >= 128 {
        lemma_be_digits_len(n, byte_len(n));
    }
}

/// A length prefix written by `spec_varlen` reads back as the same value.
pub proof fn lemma_parse_varlen_encoding(s: Seq<u8>, pos: int, n: nat)
    requires
        n <= u64::MAX,
        0 <= pos,
        pos + spec_varlen(n).len() <= s.len(),
        s.subrange(pos, pos + spec_varlen(n).len()) == spec_varlen(n),
    ensures
        parse_varlen(s, pos) == Some((n, pos + spec_varlen(n).len())),
{
    let v = spec_varlen(n);
    let l = v.len() as int;
    lemma_varlen_len(n);
    assert(s[pos] == s.subrange(pos, pos + l)[0]);
    if n < 128 {
        assert(s[pos] == n as u8);
    } else {
        let k = byte_len(n);
        lemma_byte_len_bounds(n);
        lemma_be_digits_len(n, k);
        assert(s[pos] == (128 + k) as u8);
        assert((s[pos] - 128) as nat == k);
        assert forall|j: int| 0 <= j < k implies s.subrange(pos + 1, pos + 1 + k)[j]
            == be_digits(n, k)[j] by {
            assert(s.subrange(pos, pos + l)[1 + j] == v[1 + j]);
        }
        assert(s.subrange(pos + 1, pos + 1 + k as int) =~= be_digits(n, k));
        lemma_be_val_digits_small(n, k);
    }
}

/// Appends the length prefix for `n` to `out`.
pub fn push_varlen(out: &mut Vec<u8>, n: u64)
    ensures
        final(out)@ == old(out)@ + spec_varlen(n as nat),
{
    if n < 128 {
        out.push(n as u8);
        assert(out@ =~= old(out)@ + spec_varlen(n as nat));
    } else {
        let k = byte_len_of(n);
        proof {
            lemma_byte_len_bounds(n as nat);
        }
        out.push(128 + (k as u8));
        push_be_digits(out, n, k);
        assert(out@ =~= old(out)@ + spec_varlen(n as nat));
    }
}

/// The least number of octets that can carry `n`.
pub fn byte_len_of(n: u64) -> (k: usize)
    ensures
        k == byte_len(n as nat),
        1 <= k <= 8,
{
    if n < 0x100 {
        1
    } else if n < 0x10000 {
        2
    } else if n < 0x1000000 {
        3
    } else if n < 0x100000000 {
        4
    } else if n < 0x10000000000 {
        5
    } else if n < 0x1000000000000 {
        6
    } else if n < 0x100000000000000 {
        7
    } else {
        8
    }
}

/// Reads a length prefix at `pos`, as `parse_varlen` describes.
pub fn read_varlen(buf: &[u8], pos: usize) -> (r: Option<(u64, usize)>)
    ensures
        match r {
            Some((v, p)) => {
                &&& parse_varlen(buf@, pos as int) == Some((v as nat, p as int))
                &&& pos < p <= buf@.len()
            },
            None => parse_varlen(buf@, pos as int) is None,
        },
{
    let blen: usize = buf.len();
    if pos >= blen {
        return None;
    }
    let b = buf[pos];
    if b < 128 {
        Some((b as u64, pos + 1))
    } else {
        let k: usize = (b - 128) as usize;
        if 1 <= k && k <= 8 && k <= blen - pos - 1 {
            let v = read_be(buf, pos + 1, k);
            proof {
                lemma_be_val_bound(buf@.subrange(pos + 1, pos + 1 + k));
            }
            Some((v, pos + 1 + k))
        } else {
            None
        }
    }
}

} // verus!
