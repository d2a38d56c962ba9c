//! Decoding the byte stream of the child process into runes.

use vstd::prelude::*;
use crate::input::tputc;
use crate::term::Term;

verus! {

/// The rune that stands for bytes that are no UTF-8.
pub const UTF_INVALID: u32 = 0xfffd;

/// Most bytes that one rune takes.
pub const UTF_SIZ: usize = 4;

/// The number of bytes of the sequence that byte `b` leads: 1 to 4; 0 for
/// a continuation byte and 5 for a byte that leads nothing.
pub open spec fn lead_len(b: u8) -> int {
    if b < 0x80 {
        1
    } else if b < 0xc0 {
        0
    } else if b < 0xe0 {
        2
    } else if b < 0xf0 {
        3
    } else if b < 0xf8 {
        4
    } else {
        5
    }
}

/// The bits of the rune that a leading byte carries.
pub open spec fn lead_bits(b: u8) -> int {
    if b < 0x80 {
        b as int
    } else if b < 0xc0 {
        b - 0x80
    } else if b < 0xe0 {
        b - 0xc0
    } else if b < 0xf0 {
        b - 0xe0
    } else if b < 0xf8 {
        b - 0xf0
    } else {
        0
    }
}

pub open spec fn is_cont(b: u8) -> bool {
    0x80 <= b < 0xc0
}

/// The least rune that a sequence of `n` bytes may encode.
pub open spec fn utf_min(n: int) -> int {
    if n == 2 {
        0x80
    } else if n == 3 {
        0x800
    } else if n == 4 {
        0x10000
    } else {
        0
    }
}

/// The greatest rune that a sequence of `n` bytes may encode.
pub open spec fn utf_max(n: int) -> int {
    if n == 1 {
        0x7f
    } else if n == 2 {
        0x7ff
    } else if n == 3 {
        0xffff
    } else {
        0x10ffff
    }
}

/// The rune `u` as decoded from `n` bytes, or the replacement where `u`
/// is a surrogate or could have been encoded in fewer bytes or is too large.
pub open spec fn validated(u: int, n: int) -> u32 {
    if !(utf_min(n) <= u <= utf_max(n)) || (0xd800 <= u <= 0xdfff) {
        UTF_INVALID
    } else {
        u as u32
    }
}

/// The rune at position `p` of `bytes` and the number of bytes it takes,
/// given its first `j` bytes carry `acc` and its leading byte asks for `n`
/// bytes. A byte that is no continuation ends the rune as invalid after
/// `j` bytes; the end of the bytes before the rune is complete gives 0 bytes.
pub open spec fn decode_rest(bytes: Seq<u8>, p: int, j: int, n: int, acc: int) -> (u32, int)
    decreases n - j,
{
    if j >= n {
        (validated(acc, n), n)
    } else if p + j >= bytes.len() {
        (UTF_INVALID, 0)
    } else if !is_cont(bytes[p + j]) {
        (UTF_INVALID, j)
    } else {
        decode_rest(bytes, p, j + 1, n, acc * 64 + (bytes[p + j] - 0x80))
    }
}

/// The rune at position `p` of `bytes` and the number of bytes it takes:
/// 0 where the bytes end before the rune is complete. A byte that cannot
/// lead a rune is one invalid rune.
pub open spec fn decode_at(bytes: Seq<u8>, p: int) -> (u32, int) {
    if p < 0 || p >= bytes.len() {
        (UTF_INVALID, 0)
    } else {
        let n = lead_len(bytes[p]);
        if n < 1 || n > 4 {
            (UTF_INVALID, 1)
        } else {
            decode_rest(bytes, p, 1, n, lead_bits(bytes[p]))
        }
    }
}

/// The runes of `bytes` from position `p` on, up to an incomplete rune at
/// the end.
pub open spec fn decoded(bytes: Seq<u8>, p: int) -> Seq<u32>
    decreases bytes.len() - p,
{
    let (u, n) = decode_at(bytes, p);
    if n <= 0 || p < 0 || p + n > bytes.len() {
        Seq::empty()
    } else {
        seq![u] + decoded(bytes, p + n)
    }
}

/// The number of bytes from position `p` on that `decoded` takes.
pub open spec fn decoded_len(bytes: Seq<u8>, p: int) -> int
    decreases bytes.len() - p,
{
    let (u, n) = decode_at(bytes, p);
    if n <= 0 || p < 0 || p + n > bytes.len() {
        0
    } else {
        n + decoded_len(bytes, p + n)
    }
}

/// Decodes the rune at position `p`: the rune and the number of bytes it
/// takes, 0 where the bytes end before the rune is complete.
pub fn utf8decode(bytes: &Vec<u8>, p: usize) -> (r: (u32, usize))
    ensures
        (r.0, r.1 as int) == decode_at(bytes@, p as int),
        r.1 <= UTF_SIZ,
        p + r.1 <= bytes.len() || r.1 == 0,
{
    if p >= bytes.len() {
        return (UTF_INVALID, 0);
    }
    let b = bytes[p];
    let n: usize;
    let mut acc: u32;
    if b < 0x80 {
        n = 1;
        acc = b as u32;
    } else if b < 0xc0 {
        return (UTF_INVALID, 1);
    } else if b < 0xe0 {
        n = 2;
        acc = (b - 0xc0) as u32;
    } else if b < 0xf0 {
        n = 3;
        acc = (b - 0xe0) as u32;
    } else if b < 0xf8 {
        n = 4;
        acc = (b - 0xf0) as u32;
    } else {
        return (UTF_INVALID, 1);
    }
    let mut j: usize = 1;
    while j < n
        invariant
            1 <= j <= n <= 4,
            p < bytes.len(),
            p + j <= bytes.len(),
            0 <= acc < 0x80 * pow64(j as int - 1),
            decode_rest(bytes@, p as int, j as int, n as int, acc as int) == decode_at(
                bytes@,
                p as int,
            ),
        decreases n - j,
    {
        if p + j >= bytes.len() {
            return (UTF_INVALID, 0);
        }
        let c = bytes[p + j];
        if !(0x80 <= c && c < 0xc0) {
            return (UTF_INVALID, j);
        }
        proof {
            lemma_pow64(j as int);
        }
        acc = acc * 64 + (c - 0x80) as u32;
        j += 1;
    }
    let lo: u32 = if n == 2 { 0x80 } else if n == 3 { 0x800 } else if n == 4 { 0x10000 } else { 0 };
    let hi: u32 = if n == 1 {
        0x7f
    } else if n == 2 {
        0x7ff
    } else if n == 3 {
        0xffff
    } else {
        0x10ffff
    };
    if !(lo <= acc && acc <= hi) || (0xd800 <= acc && acc <= 0xdfff) {
        (UTF_INVALID, n)
    } else {
        (acc, n)
    }
}

/// 64 to the power `k`, for the few `k` that a rune needs.
pub open spec fn pow64(k: int) -> int {
    if k <= 0 {
        1
    } else if k == 1 {
        64
    } else if k == 2 {
        4096
    } else {
        262144
    }
}

proof fn lemma_pow64(k: int)
    requires
        1 <= k <= 3,
    ensures
        pow64(k) == 64 * pow64(k - 1),
{
}

/// Interprets the runes that `bytes` encode, one after the other, and
/// says how many bytes they took; the bytes of an incomplete rune at the
/// end are left for the next call.
#[verifier::rlimit(50)]
pub fn twrite(term: &mut Term, bytes: &Vec<u8>) -> (n: usize)
    requires
        old(term).wf(),
    ensures
        final(term).wf(),
        final(term)@ == old(term)@.fed(decoded(bytes@, 0), 0),
        n == decoded_len(bytes@, 0),
        n <= bytes.len(),
{
    let mut p: usize = 0;
    let ghost s = term@;
    let ghost all = decoded(bytes@, 0);
    let ghost mut k: int = 0;
    loop
        invariant
            term.wf(),
            s == old(term)@,
            0 <= p <= bytes.len(),
            0 <= k <= all.len(),
            all == decoded(bytes@, 0),
            all.subrange(k, all.len() as int) == decoded(bytes@, p as int),
            p + decoded_len(bytes@, p as int) == decoded_len(bytes@, 0),
            term@.fed(all, k) == s.fed(all, 0),
        decreases bytes.len() - p,
    {
        let (u, used) = utf8decode(bytes, p);
        if used == 0 {
            proof {
                assert(decoded(bytes@, p as int) =~= Seq::empty());
                assert(all.subrange(k, all.len() as int).len() == 0);
                assert(k == all.len());
                assert(term@.fed(all, k) == term@);
                assert(decoded_len(bytes@, p as int) == 0);
            }
            return p;
        }
        proof {
            let rest = decoded(bytes@, p as int);
            assert(rest == seq![u] + decoded(bytes@, p + used));
            assert(rest.len() >= 1 && rest[0] == u);
            let tail = all.subrange(k, all.len() as int);
            assert(tail.len() == rest.len());
            assert(k < all.len());
            assert(all[k] == tail[0]);
            assert(all.subrange(k + 1, all.len() as int) =~= tail.subrange(1, tail.len() as int));
            assert(rest.subrange(1, rest.len() as int) =~= decoded(bytes@, p + used));
        }
        tputc(term, u);
        p += used;
        proof {
            k = k + 1;
        }
    }
}

} // verus!
