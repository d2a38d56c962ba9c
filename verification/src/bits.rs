//! Facts about the flag words that the default solver does not know.

use vstd::prelude::*;
use crate::glyph::{CURSOR_ORIGIN, CURSOR_WRAPNEXT};

verus! {

/// Clearing or setting the wrap flag leaves the origin flag alone.
pub proof fn lemma_wrapnext_keeps_origin(s: u8)
    ensures
        (s & !CURSOR_WRAPNEXT) & CURSOR_ORIGIN == s & CURSOR_ORIGIN,
        (s | CURSOR_WRAPNEXT) & CURSOR_ORIGIN == s & CURSOR_ORIGIN,
        (s & !CURSOR_WRAPNEXT) & CURSOR_WRAPNEXT == 0,
        (s | CURSOR_WRAPNEXT) & CURSOR_WRAPNEXT != 0,
        (s & !CURSOR_WRAPNEXT) & !CURSOR_WRAPNEXT == s & !CURSOR_WRAPNEXT,
{
    assert((s & !1u8) & 2u8 == s & 2u8) by (bit_vector);
    assert((s | 1u8) & 2u8 == s & 2u8) by (bit_vector);
    assert((s & !1u8) & 1u8 == 0) by (bit_vector);
    assert((s | 1u8) & 1u8 != 0) by (bit_vector);
    assert((s & !1u8) & !1u8 == s & !1u8) by (bit_vector);
}

/// Setting and clearing the origin flag.
pub proof fn lemma_origin_bit(s: u8)
    ensures
        (s | CURSOR_ORIGIN) & CURSOR_ORIGIN != 0,
        (s & !CURSOR_ORIGIN) & CURSOR_ORIGIN == 0,
        0u8 & CURSOR_ORIGIN == 0,
        0u8 & CURSOR_WRAPNEXT == 0,
{
    assert((s | 2u8) & 2u8 != 0) by (bit_vector);
    assert((s & !2u8) & 2u8 == 0) by (bit_vector);
    assert(0u8 & 2u8 == 0) by (bit_vector);
    assert(0u8 & 1u8 == 0) by (bit_vector);
}

/// The origin flag after it was set or cleared and the wrap flag dropped.
pub proof fn lemma_origin_then_unwrap(s: u8)
    ensures
        ((s | CURSOR_ORIGIN) & !CURSOR_WRAPNEXT) & CURSOR_ORIGIN != 0,
        ((s & !CURSOR_ORIGIN) & !CURSOR_WRAPNEXT) & CURSOR_ORIGIN == 0,
{
    assert(((s | 2u8) & !1u8) & 2u8 != 0) by (bit_vector);
    assert(((s & !2u8) & !1u8) & 2u8 == 0) by (bit_vector);
}

} // verus!
