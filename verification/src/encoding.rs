//! Value-transfer encoding: packing a value into one machine word so that it
//! can cross a context switch through a single register, with no allocation.
//!
//! A value whose size is at most the word size travels directly: its bytes are
//! laid into the word, first byte least significant.  A larger value travels
//! as a pointer into memory owned by the suspended side; that path carries no
//! byte-level logic of its own and lives with the rest of the unverified glue.
//! This module states and proves the direct path: packing is exact and
//! decoding recovers precisely the bytes that were packed.

use vstd::prelude::*;
use vstd::arithmetic::div_mod::lemma_fundamental_div_mod_converse;

verus! {

/// Number of bytes in the machine word that carries a transferred value.
pub const WORD_BYTES: usize = 8;

/// The word-sized token that carries an encoded value across a switch: the
/// 64-bit machine word of the supported targets.
pub type EncodedValue = u64;

/// The numeric value of a byte sequence read little-endian: the first byte is
/// the least significant.
pub open spec fn le_value(s: Seq<u8>) -> nat
    decreases s.len(),
{
    if s.len() == 0 {
        0
    } else {
        s[0] as nat + 256 * le_value(s.drop_first())
    }
}

/// 256 to the n-th power: the number of distinct byte sequences of length n.
pub open spec fn pow256(n: nat) -> nat
    decreases n,
{
    if n == 0 {
        1
    } else {
        256 * pow256((n - 1) as nat)
    }
}

/// The n low-order bytes of v, little-endian.
pub open spec fn le_bytes(v: nat, n: nat) -> Seq<u8>
    decreases n,
{
    if n == 0 {
        Seq::empty()
    } else {
        seq![(v % 256) as u8] + le_bytes(v / 256, (n - 1) as nat)
    }
}

/// Decides how a value of the given size travels across a switch: directly
/// in the word when it fits, otherwise as a pointer to memory owned by the
/// suspended side.
pub fn fits_in_word(size: usize) -> (r: bool)
    ensures r == (size <= WORD_BYTES),
{
    size <= WORD_BYTES
}

/// Powers of 256 are positive.
pub proof fn lemma_pow256_pos(n: nat)
    ensures pow256(n) >= 1,
    decreases n,
{
    if n > 0 {
        lemma_pow256_pos((n - 1) as nat);
    }
}

/// Powers of 256 grow with the exponent.
pub proof fn lemma_pow256_le(m: nat, k: nat)
    requires m <= k,
    ensures pow256(m) <= pow256(k),
    decreases k,
{
    if m < k {
        lemma_pow256_le(m, (k - 1) as nat);
        lemma_pow256_pos((k - 1) as nat);
    }
}

proof fn lemma_pow256_word()
    ensures
        pow256(7) == 0x100000000000000,
        pow256(8) == 0x10000000000000000,
{
    reveal_with_fuel(pow256, 9);
}

/// A byte sequence of length n encodes a value below 256^n.
pub proof fn lemma_le_value_bound(s: Seq<u8>)
    ensures le_value(s) < pow256(s.len()),
    decreases s.len(),
{
    if s.len() > 0 {
        lemma_le_value_bound(s.drop_first());
    }
}

/// Encodes the bytes of a small value in a word-sized token, first byte least
/// significant: the direct path of the value-transfer encoding.
pub fn encode_val(bytes: &Vec<u8>) -> (token: EncodedValue)
    requires
        bytes@.len() <= WORD_BYTES,
    ensures
        token as nat == le_value(bytes@),
{
    let n = bytes.len();
    let mut acc: u64 = 0;
    let mut i: usize = n;
    proof {
        assert(bytes@.subrange(n as int, n as int) =~= Seq::<u8>::empty());
    }
    while i > 0
        invariant
            i <= n,
            n == bytes@.len(),
            n <= WORD_BYTES,
            acc as nat == le_value(bytes@.subrange(i as int, n as int)),
        decreases i,
    {
        i = i - 1;
        let b = bytes[i];
        proof {
            let rest = bytes@.subrange(i as int + 1, n as int);
            assert(bytes@.subrange(i as int, n as int).drop_first() =~= rest);
            lemma_le_value_bound(rest);
            lemma_pow256_le(rest.len(), 7);
            lemma_pow256_word();
        }
        acc = (b as u64) + 256 * acc;
    }
    proof {
        assert(bytes@.subrange(0, n as int) =~= bytes@);
    }
    acc
}

/// Decodes a word-sized token back into the given number of bytes, first byte
/// least significant: the inverse of the direct encoding path.
pub fn decode_val(token: EncodedValue, len: usize) -> (bytes: Vec<u8>)
    requires
        len <= WORD_BYTES,
    ensures
        bytes@ == le_bytes(token as nat, len as nat),
{
    let mut out: Vec<u8> = Vec::new();
    let mut v: u64 = token;
    let mut i: usize = 0;
    while i < len
        invariant
            i <= len,
            out@.len() == i,
            le_bytes(token as nat, len as nat) =~= out@ + le_bytes(v as nat, (len - i) as nat),
        decreases len - i,
    {
        let b = (v % 256) as u8;
        proof {
            assert(out@.push(b) + le_bytes(v as nat / 256, (len - i - 1) as nat)
                =~= out@ + le_bytes(v as nat, (len - i) as nat));
        }
        out.push(b);
        v = v / 256;
        i = i + 1;
    }
    proof {
        assert(out@ + le_bytes(v as nat, 0) =~= out@);
    }
    out
}

/// Round trip, small-value path: for every byte sequence no longer than the
/// machine word, decoding the word that encodes it yields exactly that
/// sequence -- no byte lost, changed, or reordered.
pub proof fn lemma_round_trip(s: Seq<u8>)
    requires s.len() <= WORD_BYTES,
    ensures le_bytes(le_value(s), s.len()) == s,
    decreases s.len(),
{
    if s.len() == 0 {
        assert(le_bytes(0, 0) =~= s);
    } else {
        let a = s[0] as nat;
        let b = le_value(s.drop_first());
        lemma_fundamental_div_mod_converse((a + 256 * b) as int, 256, b as int, a as int);
        lemma_round_trip(s.drop_first());
        assert(le_bytes(le_value(s), s.len()) =~= s);
    }
}

/// The converse round trip: a token below 256^n re-encodes from its decoded
/// bytes to exactly itself, so a token and its byte sequence determine each
/// other.
pub proof fn lemma_token_round_trip(v: nat, n: nat)
    requires v < pow256(n),
    ensures le_value(le_bytes(v, n)) == v,
    decreases n,
{
    if n == 0 {
        assert(v == 0);
    } else {
        let q = v / 256;
        let r = v % 256;
        vstd::arithmetic::div_mod::lemma_fundamental_div_mod(v as int, 256);
        assert(q < pow256((n - 1) as nat)) by {
            if q >= pow256((n - 1) as nat) {
                assert(v >= 256 * pow256((n - 1) as nat)) by (nonlinear_arith)
                    requires v / 256 >= pow256((n - 1) as nat), v >= 0;
            }
        }
        lemma_token_round_trip(q, (n - 1) as nat);
        assert(le_bytes(v, n).drop_first() =~= le_bytes(q, (n - 1) as nat));
        assert(le_value(le_bytes(v, n)) == r + 256 * q);
    }
}

} // verus!
