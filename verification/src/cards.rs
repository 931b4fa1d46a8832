//! Screening of FITS header cards.
//!
//! The header of a FITS stream is a run of 80-byte cards ending at the END
//! card. The outside parser this crate relies on can abort on two shapes of
//! header, so ingestion walks the cards first, with the verified screen of
//! this module, and rejects any stream that carries either shape.
//!
//! First, the parser slices a card's value text after checking only its
//! first and last characters, so a value field whose text is a lone single
//! quote — an unterminated string — makes it panic instead of failing. The
//! screen rejects such a value wherever the parser would read one: in the
//! value field of an ordinary or continuation card, or after an equals sign
//! of a hierarchical keyword card.
//!
//! Second, the parser sizes the data block as the plain product of all the
//! advertised axis extents times the sample width, with no overflow guard.
//! The screen therefore requires every axis-extent card (`NAXIS` followed by
//! digits) to carry a plain unsigned-integer value, and bounds the digit
//! counts of all such values to [`EXTENT_DIGIT_BUDGET`] in total: the product
//! of the extents — and every partial product along the way, whichever cards
//! the parser ends up using — then stays below ten to that power, which the
//! width times it cannot carry past the 64-bit range. The axis-count card
//! (`NAXIS` alone) is bounded to the format's three digits, and hierarchical
//! keyword cards that could shadow an axis keyword are turned away outright.
//!
//! The screen is a little stricter than the abort set — it does not track
//! which keywords skip value parsing, nor which extent cards the parser
//! really uses — so everything it passes the parser handles without
//! aborting, and a few safe but ill-formed headers are turned away with the
//! bad ones.

use vstd::prelude::*;
use vstd::slice::slice_index_get;

verus! {

/// Most digits, summed over the values of all axis-extent cards, that a
/// screened header may advertise: ten to this power times the widest sample
/// still fits the parser's 64-bit size arithmetic.
pub const EXTENT_DIGIT_BUDGET: u64 = 18;

/// The whitespace bytes the header grammar trims around a value field.
pub open spec fn fits_ws(b: u8) -> bool {
    b == 32 || b == 9 || b == 10 || b == 12 || b == 13
}

/// An ASCII decimal digit.
pub open spec fn is_digit(b: u8) -> bool {
    48 <= b <= 57
}

/// Whether `s[lo..hi]` trims to a lone single quote: exactly one byte is not
/// whitespace, and it is the quote.
pub open spec fn lone_quote_in(s: Seq<u8>, lo: int, hi: int) -> bool {
    &&& exists|i: int| lo <= i < hi && s[i] == 39
    &&& forall|i: int| lo <= i < hi ==> s[i] == 39 || fits_ws(s[i])
    &&& forall|i: int, j: int| lo <= i < j < hi && s[i] == 39 ==> s[j] != 39
}

/// Whether the eight-byte keyword field of the card at `pos` reads
/// `HIERARCH`: such a card's value starts after an equals sign anywhere in
/// the card, not in the fixed value field.
pub open spec fn hierarch_kw_at(s: Seq<u8>, pos: int) -> bool {
    &&& s[pos] == 72
    &&& s[pos + 1] == 73
    &&& s[pos + 2] == 69
    &&& s[pos + 3] == 82
    &&& s[pos + 4] == 65
    &&& s[pos + 5] == 82
    &&& s[pos + 6] == 67
    &&& s[pos + 7] == 72
}

/// Whether the card at `pos` is the END card: the three bytes `END` anywhere
/// in the eight-byte keyword field, every other byte of the field blank.
pub open spec fn end_card_at(s: Seq<u8>, pos: int) -> bool {
    ||| (s[pos] == 69 && s[pos + 1] == 78 && s[pos + 2] == 68 && fits_ws(s[pos + 3])
        && fits_ws(s[pos + 4]) && fits_ws(s[pos + 5]) && fits_ws(s[pos + 6]) && fits_ws(s[pos + 7]))
    ||| (fits_ws(s[pos]) && s[pos + 1] == 69 && s[pos + 2] == 78 && s[pos + 3] == 68
        && fits_ws(s[pos + 4]) && fits_ws(s[pos + 5]) && fits_ws(s[pos + 6]) && fits_ws(s[pos + 7]))
    ||| (fits_ws(s[pos]) && fits_ws(s[pos + 1]) && s[pos + 2] == 69 && s[pos + 3] == 78
        && s[pos + 4] == 68 && fits_ws(s[pos + 5]) && fits_ws(s[pos + 6]) && fits_ws(s[pos + 7]))
    ||| (fits_ws(s[pos]) && fits_ws(s[pos + 1]) && fits_ws(s[pos + 2]) && s[pos + 3] == 69
        && s[pos + 4] == 78 && s[pos + 5] == 68 && fits_ws(s[pos + 6]) && fits_ws(s[pos + 7]))
    ||| (fits_ws(s[pos]) && fits_ws(s[pos + 1]) && fits_ws(s[pos + 2]) && fits_ws(s[pos + 3])
        && s[pos + 4] == 69 && s[pos + 5] == 78 && s[pos + 6] == 68 && fits_ws(s[pos + 7]))
    ||| (fits_ws(s[pos]) && fits_ws(s[pos + 1]) && fits_ws(s[pos + 2]) && fits_ws(s[pos + 3])
        && fits_ws(s[pos + 4]) && s[pos + 5] == 69 && s[pos + 6] == 78 && s[pos + 7] == 68)
}

/// Whether the eight-byte keyword field of the card at `pos` trims to
/// `NAXIS` followed by one, two or three digits: an axis-extent keyword.
pub open spec fn extent_kw_at(s: Seq<u8>, pos: int) -> bool {
    ||| (s[pos] == 78 && s[pos + 1] == 65 && s[pos + 2] == 88 && s[pos + 3] == 73
        && s[pos + 4] == 83 && is_digit(s[pos + 5]) && fits_ws(s[pos + 6]) && fits_ws(s[pos + 7]))
    ||| (s[pos] == 78 && s[pos + 1] == 65 && s[pos + 2] == 88 && s[pos + 3] == 73
        && s[pos + 4] == 83 && is_digit(s[pos + 5]) && is_digit(s[pos + 6]) && fits_ws(s[pos + 7]))
    ||| (s[pos] == 78 && s[pos + 1] == 65 && s[pos + 2] == 88 && s[pos + 3] == 73
        && s[pos + 4] == 83 && is_digit(s[pos + 5]) && is_digit(s[pos + 6]) && is_digit(s[pos + 7]))
    ||| (fits_ws(s[pos]) && s[pos + 1] == 78 && s[pos + 2] == 65 && s[pos + 3] == 88
        && s[pos + 4] == 73 && s[pos + 5] == 83 && is_digit(s[pos + 6]) && fits_ws(s[pos + 7]))
    ||| (fits_ws(s[pos]) && s[pos + 1] == 78 && s[pos + 2] == 65 && s[pos + 3] == 88
        && s[pos + 4] == 73 && s[pos + 5] == 83 && is_digit(s[pos + 6]) && is_digit(s[pos + 7]))
    ||| (fits_ws(s[pos]) && fits_ws(s[pos + 1]) && s[pos + 2] == 78 && s[pos + 3] == 65
        && s[pos + 4] == 88 && s[pos + 5] == 73 && s[pos + 6] == 83 && is_digit(s[pos + 7]))
}

/// Whether the eight-byte keyword field of the card at `pos` trims to
/// exactly `NAXIS`: the axis-count keyword.
pub open spec fn count_kw_at(s: Seq<u8>, pos: int) -> bool {
    ||| (s[pos] == 78 && s[pos + 1] == 65 && s[pos + 2] == 88 && s[pos + 3] == 73
        && s[pos + 4] == 83 && fits_ws(s[pos + 5]) && fits_ws(s[pos + 6]) && fits_ws(s[pos + 7]))
    ||| (fits_ws(s[pos]) && s[pos + 1] == 78 && s[pos + 2] == 65 && s[pos + 3] == 88
        && s[pos + 4] == 73 && s[pos + 5] == 83 && fits_ws(s[pos + 6]) && fits_ws(s[pos + 7]))
    ||| (fits_ws(s[pos]) && fits_ws(s[pos + 1]) && s[pos + 2] == 78 && s[pos + 3] == 65
        && s[pos + 4] == 88 && s[pos + 5] == 73 && s[pos + 6] == 83 && fits_ws(s[pos + 7]))
    ||| (fits_ws(s[pos]) && fits_ws(s[pos + 1]) && fits_ws(s[pos + 2]) && s[pos + 3] == 78
        && s[pos + 4] == 65 && s[pos + 5] == 88 && s[pos + 6] == 73 && s[pos + 7] == 83)
}

/// Whether the card at `pos` carries the value separator: an equals sign and
/// a blank at bytes 8 and 9, which is what makes the parser read bytes 10 on
/// as the value of the keyword.
pub open spec fn value_sep_at(s: Seq<u8>, pos: int) -> bool {
    s[pos + 8] == 61 && s[pos + 9] == 32
}

/// Whether the five bytes at `j` spell `NAXIS`.
pub open spec fn spells_naxis_at(s: Seq<u8>, j: int) -> bool {
    s[j] == 78 && s[j + 1] == 65 && s[j + 2] == 88 && s[j + 3] == 73 && s[j + 4] == 83
}

/// The index of the first byte of `s[lo..hi]` that is not whitespace, `hi`
/// when there is none.
pub open spec fn skip_ws(s: Seq<u8>, lo: int, hi: int) -> int
    decreases hi - lo,
{
    if lo >= hi {
        hi
    } else if fits_ws(s[lo]) {
        skip_ws(s, lo + 1, hi)
    } else {
        lo
    }
}

/// The length of the digit run starting at `lo`.
pub open spec fn digit_run(s: Seq<u8>, lo: int, hi: int) -> int
    decreases hi - lo,
{
    if lo >= hi {
        0
    } else if is_digit(s[lo]) {
        1 + digit_run(s, lo + 1, hi)
    } else {
        0
    }
}

/// Whether `s[lo..hi]` is whitespace to the end or up to a comment slash.
pub open spec fn ws_to_comment(s: Seq<u8>, lo: int, hi: int) -> bool
    decreases hi - lo,
{
    if lo >= hi {
        true
    } else if fits_ws(s[lo]) {
        ws_to_comment(s, lo + 1, hi)
    } else {
        s[lo] == 47
    }
}

/// The digit count of the value field `s[lo..hi]` when it is a plain
/// unsigned integer — whitespace, an optional plus sign, digits, then
/// whitespace or a comment — and `None` for every other shape.
pub open spec fn uint_field_digits(s: Seq<u8>, lo: int, hi: int) -> Option<int> {
    let v = skip_ws(s, lo, hi);
    let d = if v < hi && s[v] == 43 {
        v + 1
    } else {
        v
    };
    let n = digit_run(s, d, hi);
    if n >= 1 && ws_to_comment(s, d + n, hi) {
        Some(n)
    } else {
        None
    }
}

/// Whether the card at `pos` is one the parser must not see: a lone-quote
/// value wherever the parser would slice one — the value field from byte 10,
/// from byte 8 for a continuation card, or after any equals sign of a
/// hierarchical keyword card — or a hierarchical keyword card that could
/// shadow an axis keyword outside the fixed keyword field.
pub open spec fn card_risky_at(s: Seq<u8>, pos: int) -> bool {
    ||| lone_quote_in(s, pos + 8, pos + 80)
    ||| lone_quote_in(s, pos + 10, pos + 80)
    ||| (hierarch_kw_at(s, pos) && exists|q: int|
        pos + 9 <= q < pos + 80 && s[q] == 61 && lone_quote_in(s, q + 1, pos + 80))
    ||| (hierarch_kw_at(s, pos) && exists|j: int|
        pos + 9 <= j <= pos + 75 && spells_naxis_at(s, j))
}

/// Whether every card from `pos` on, up to the END card (or up to where the
/// stream runs out of a whole card, where the parser stops with an error), is
/// free of risky value fields, and the extent cards' digit counts stay within
/// the remaining `budget`.
pub open spec fn cards_safe_from(s: Seq<u8>, pos: int, budget: int) -> bool
    decreases s.len() - pos,
{
    if pos + 80 > s.len() {
        true
    } else if card_risky_at(s, pos) {
        false
    } else if end_card_at(s, pos) {
        true
    } else if extent_kw_at(s, pos) && value_sep_at(s, pos) {
        match uint_field_digits(s, pos + 10, pos + 80) {
            Option::Some(n) => n <= budget && cards_safe_from(s, pos + 80, budget - n),
            Option::None => false,
        }
    } else if count_kw_at(s, pos) && value_sep_at(s, pos) {
        match uint_field_digits(s, pos + 10, pos + 80) {
            Option::Some(n) => n <= 3 && cards_safe_from(s, pos + 80, budget),
            Option::None => false,
        }
    } else {
        cards_safe_from(s, pos + 80, budget)
    }
}

/// Whether the header cards of the stream are safe to hand to the parser.
pub open spec fn header_screen_ok(s: Seq<u8>) -> bool {
    cards_safe_from(s, 0, EXTENT_DIGIT_BUDGET as int)
}

/// Decide whether `bytes[lo..hi]` trims to a lone single quote.
fn lone_quote_span(bytes: &[u8], lo: usize, hi: usize) -> (r: bool)
    requires
        lo <= hi <= bytes@.len(),
    ensures
        r == lone_quote_in(bytes@, lo as int, hi as int),
{
    let ghost s = bytes@;
    let mut i: usize = lo;
    let mut quote: Option<usize> = None;
    while i < hi
        invariant
            lo <= i <= hi <= s.len(),
            s == bytes@,
            quote is None ==> forall|m: int| lo <= m < i ==> fits_ws(s[m]),
            quote matches Some(q) ==> lo <= q < i && s[q as int] == 39 && (forall|m: int|
                lo <= m < i && m != q ==> fits_ws(s[m])),
        decreases hi - i,
    {
        let b = *slice_index_get(bytes, i);
        if b == 39 {
            match quote {
                None => {
                    quote = Some(i);
                },
                Some(q) => {
                    proof {
                        assert(!lone_quote_in(s, lo as int, hi as int)) by {
                            if lone_quote_in(s, lo as int, hi as int) {
                                assert(s[q as int] == 39 && s[i as int] == 39 && q < i);
                            }
                        }
                    }
                    return false;
                },
            }
        } else if !(b == 32 || b == 9 || b == 10 || b == 12 || b == 13) {
            proof {
                assert(!lone_quote_in(s, lo as int, hi as int)) by {
                    if lone_quote_in(s, lo as int, hi as int) {
                        assert(s[i as int] == 39 || fits_ws(s[i as int]));
                    }
                }
            }
            return false;
        }
        i = i + 1;
    }
    match quote {
        Some(q) => {
            proof {
                assert forall|m: int| lo <= m < hi implies (s[m] == 39 || fits_ws(s[m])) by {
                    if m != q {
                        assert(fits_ws(s[m]));
                    }
                }
                assert forall|a: int, b: int|
                    lo <= a < b < hi && s[a] == 39 implies s[b] != 39 by {
                    if a != q {
                        assert(fits_ws(s[a]));
                    } else {
                        assert(fits_ws(s[b]));
                    }
                }
                assert(lone_quote_in(s, lo as int, hi as int));
            }
            true
        },
        None => {
            proof {
                assert(!lone_quote_in(s, lo as int, hi as int)) by {
                    if lone_quote_in(s, lo as int, hi as int) {
                        let w = choose|w: int| lo <= w < hi && s[w] == 39;
                        assert(fits_ws(s[w]));
                    }
                }
            }
            false
        },
    }
}

/// Decide whether the card at `pos` carries the `HIERARCH` keyword.
fn kw_is_hierarch(bytes: &[u8], pos: usize) -> (r: bool)
    requires
        pos + 80 <= bytes@.len(),
        pos + 80 <= usize::MAX,
    ensures
        r == hierarch_kw_at(bytes@, pos as int),
{
    *slice_index_get(bytes, pos) == 72 && *slice_index_get(bytes, pos + 1) == 73
        && *slice_index_get(bytes, pos + 2) == 69 && *slice_index_get(bytes, pos + 3) == 82
        && *slice_index_get(bytes, pos + 4) == 65 && *slice_index_get(bytes, pos + 5) == 82
        && *slice_index_get(bytes, pos + 6) == 67 && *slice_index_get(bytes, pos + 7) == 72
}

/// Decide whether a byte is header whitespace.
fn is_fits_ws(b: u8) -> (r: bool)
    ensures
        r == fits_ws(b),
{
    b == 32 || b == 9 || b == 10 || b == 12 || b == 13
}

/// Find the first byte of `bytes[lo..hi]` that is not whitespace.
fn skip_ws_from(bytes: &[u8], lo: usize, hi: usize) -> (r: usize)
    requires
        lo <= hi <= bytes@.len(),
    ensures
        r == skip_ws(bytes@, lo as int, hi as int),
        lo <= r <= hi,
    decreases hi - lo,
{
    if lo >= hi {
        hi
    } else if is_fits_ws(*slice_index_get(bytes, lo)) {
        skip_ws_from(bytes, lo + 1, hi)
    } else {
        lo
    }
}

/// Measure the digit run of `bytes[lo..hi]` starting at `lo`.
fn digit_run_from(bytes: &[u8], lo: usize, hi: usize) -> (r: usize)
    requires
        lo <= hi <= bytes@.len(),
    ensures
        r == digit_run(bytes@, lo as int, hi as int),
        r <= hi - lo,
    decreases hi - lo,
{
    if lo >= hi {
        0
    } else {
        let b = *slice_index_get(bytes, lo);
        if 48 <= b && b <= 57 {
            1 + digit_run_from(bytes, lo + 1, hi)
        } else {
            0
        }
    }
}

/// Decide whether `bytes[lo..hi]` is whitespace to the end or to a comment.
fn ws_to_comment_from(bytes: &[u8], lo: usize, hi: usize) -> (r: bool)
    requires
        lo <= hi <= bytes@.len(),
    ensures
        r == ws_to_comment(bytes@, lo as int, hi as int),
    decreases hi - lo,
{
    if lo >= hi {
        true
    } else {
        let b = *slice_index_get(bytes, lo);
        if is_fits_ws(b) {
            ws_to_comment_from(bytes, lo + 1, hi)
        } else {
            b == 47
        }
    }
}

/// Measure the digit count of the value field `bytes[lo..hi]` when it is a
/// plain unsigned integer, `None` for every other shape.
fn uint_field_digit_count(bytes: &[u8], lo: usize, hi: usize) -> (r: Option<usize>)
    requires
        lo <= hi <= bytes@.len(),
    ensures
        (match r {
            Option::Some(n) => uint_field_digits(bytes@, lo as int, hi as int) == Some(n as int),
            Option::None => uint_field_digits(bytes@, lo as int, hi as int) is None,
        }),
{
    let v = skip_ws_from(bytes, lo, hi);
    let d = if v < hi && *slice_index_get(bytes, v) == 43 {
        v + 1
    } else {
        v
    };
    let n = digit_run_from(bytes, d, hi);
    if n >= 1 && ws_to_comment_from(bytes, d + n, hi) {
        Some(n)
    } else {
        None
    }
}

/// Decide whether the card at `pos` carries an axis-extent keyword.
fn kw_is_extent(bytes: &[u8], pos: usize) -> (r: bool)
    requires
        pos + 80 <= bytes@.len(),
        pos + 80 <= usize::MAX,
    ensures
        r == extent_kw_at(bytes@, pos as int),
{
    let k0 = *slice_index_get(bytes, pos);
    let k1 = *slice_index_get(bytes, pos + 1);
    let k2 = *slice_index_get(bytes, pos + 2);
    let k3 = *slice_index_get(bytes, pos + 3);
    let k4 = *slice_index_get(bytes, pos + 4);
    let k5 = *slice_index_get(bytes, pos + 5);
    let k6 = *slice_index_get(bytes, pos + 6);
    let k7 = *slice_index_get(bytes, pos + 7);
    let n0 = k0 == 78 && k1 == 65 && k2 == 88 && k3 == 73 && k4 == 83;
    let n1 = k1 == 78 && k2 == 65 && k3 == 88 && k4 == 73 && k5 == 83;
    let n2 = k2 == 78 && k3 == 65 && k4 == 88 && k5 == 73 && k6 == 83;
    let d5 = 48 <= k5 && k5 <= 57;
    let d6 = 48 <= k6 && k6 <= 57;
    let d7 = 48 <= k7 && k7 <= 57;
    let w0 = is_fits_ws(k0);
    let w1 = is_fits_ws(k1);
    let w6 = is_fits_ws(k6);
    let w7 = is_fits_ws(k7);
    (n0 && d5 && w6 && w7) || (n0 && d5 && d6 && w7) || (n0 && d5 && d6 && d7)
        || (w0 && n1 && d6 && w7) || (w0 && n1 && d6 && d7) || (w0 && w1 && n2 && d7)
}

/// Decide whether the card at `pos` carries the axis-count keyword.
fn kw_is_count(bytes: &[u8], pos: usize) -> (r: bool)
    requires
        pos + 80 <= bytes@.len(),
        pos + 80 <= usize::MAX,
    ensures
        r == count_kw_at(bytes@, pos as int),
{
    let k0 = *slice_index_get(bytes, pos);
    let k1 = *slice_index_get(bytes, pos + 1);
    let k2 = *slice_index_get(bytes, pos + 2);
    let k3 = *slice_index_get(bytes, pos + 3);
    let k4 = *slice_index_get(bytes, pos + 4);
    let k5 = *slice_index_get(bytes, pos + 5);
    let k6 = *slice_index_get(bytes, pos + 6);
    let k7 = *slice_index_get(bytes, pos + 7);
    let n0 = k0 == 78 && k1 == 65 && k2 == 88 && k3 == 73 && k4 == 83;
    let n1 = k1 == 78 && k2 == 65 && k3 == 88 && k4 == 73 && k5 == 83;
    let n2 = k2 == 78 && k3 == 65 && k4 == 88 && k5 == 73 && k6 == 83;
    let n3 = k3 == 78 && k4 == 65 && k5 == 88 && k6 == 73 && k7 == 83;
    let w0 = is_fits_ws(k0);
    let w1 = is_fits_ws(k1);
    let w2 = is_fits_ws(k2);
    let w5 = is_fits_ws(k5);
    let w6 = is_fits_ws(k6);
    let w7 = is_fits_ws(k7);
    (n0 && w5 && w6 && w7) || (w0 && n1 && w6 && w7) || (w0 && w1 && n2 && w7)
        || (w0 && w1 && w2 && n3)
}

/// Decide whether the card at `pos` carries the value separator.
fn card_has_value_sep(bytes: &[u8], pos: usize) -> (r: bool)
    requires
        pos + 80 <= bytes@.len(),
        pos + 80 <= usize::MAX,
    ensures
        r == value_sep_at(bytes@, pos as int),
{
    *slice_index_get(bytes, pos + 8) == 61 && *slice_index_get(bytes, pos + 9) == 32
}

/// Decide whether the card at `pos` is the END card.
fn card_is_end(bytes: &[u8], pos: usize) -> (r: bool)
    requires
        pos + 80 <= bytes@.len(),
        pos + 80 <= usize::MAX,
    ensures
        r == end_card_at(bytes@, pos as int),
{
    let k0 = *slice_index_get(bytes, pos);
    let k1 = *slice_index_get(bytes, pos + 1);
    let k2 = *slice_index_get(bytes, pos + 2);
    let k3 = *slice_index_get(bytes, pos + 3);
    let k4 = *slice_index_get(bytes, pos + 4);
    let k5 = *slice_index_get(bytes, pos + 5);
    let k6 = *slice_index_get(bytes, pos + 6);
    let k7 = *slice_index_get(bytes, pos + 7);
    let w0 = is_fits_ws(k0);
    let w1 = is_fits_ws(k1);
    let w2 = is_fits_ws(k2);
    let w3 = is_fits_ws(k3);
    let w4 = is_fits_ws(k4);
    let w5 = is_fits_ws(k5);
    let w6 = is_fits_ws(k6);
    let w7 = is_fits_ws(k7);
    (k0 == 69 && k1 == 78 && k2 == 68 && w3 && w4 && w5 && w6 && w7)
        || (w0 && k1 == 69 && k2 == 78 && k3 == 68 && w4 && w5 && w6 && w7)
        || (w0 && w1 && k2 == 69 && k3 == 78 && k4 == 68 && w5 && w6 && w7)
        || (w0 && w1 && w2 && k3 == 69 && k4 == 78 && k5 == 68 && w6 && w7)
        || (w0 && w1 && w2 && w3 && k4 == 69 && k5 == 78 && k6 == 68 && w7)
        || (w0 && w1 && w2 && w3 && w4 && k5 == 69 && k6 == 78 && k7 == 68)
}

/// Decide whether the card at `pos` is one the parser must not see.
fn card_is_risky(bytes: &[u8], pos: usize) -> (r: bool)
    requires
        pos + 80 <= bytes@.len(),
        pos + 80 <= usize::MAX,
    ensures
        r == card_risky_at(bytes@, pos as int),
{
    if lone_quote_span(bytes, pos + 8, pos + 80) {
        return true;
    }
    if lone_quote_span(bytes, pos + 10, pos + 80) {
        return true;
    }
    if !kw_is_hierarch(bytes, pos) {
        return false;
    }
    let mut q: usize = 9;
    while q < 80
        invariant
            9 <= q <= 80,
            pos + 80 <= bytes@.len(),
            pos + 80 <= usize::MAX,
            hierarch_kw_at(bytes@, pos as int),
            forall|m: int|
                pos + 9 <= m < pos + q ==> !(bytes@[m] == 61 && lone_quote_in(
                    bytes@,
                    m + 1,
                    pos as int + 80,
                )),
        decreases 80 - q,
    {
        if *slice_index_get(bytes, pos + q) == 61 {
            if lone_quote_span(bytes, pos + q + 1, pos + 80) {
                proof {
                    let qq = pos as int + q as int;
                    assert(bytes@[qq] == 61 && lone_quote_in(bytes@, qq + 1, pos as int + 80));
                    assert(card_risky_at(bytes@, pos as int));
                }
                return true;
            }
        }
        q = q + 1;
    }
    let mut j: usize = 9;
    while j <= 75
        invariant
            9 <= j <= 76,
            pos + 80 <= bytes@.len(),
            pos + 80 <= usize::MAX,
            hierarch_kw_at(bytes@, pos as int),
            forall|m: int| pos + 9 <= m < pos + j ==> !spells_naxis_at(bytes@, m),
        decreases 76 - j,
    {
        if *slice_index_get(bytes, pos + j) == 78 && *slice_index_get(bytes, pos + j + 1) == 65
            && *slice_index_get(bytes, pos + j + 2) == 88
            && *slice_index_get(bytes, pos + j + 3) == 73
            && *slice_index_get(bytes, pos + j + 4) == 83 {
            proof {
                assert(spells_naxis_at(bytes@, pos as int + j as int));
                assert(card_risky_at(bytes@, pos as int));
            }
            return true;
        }
        j = j + 1;
    }
    false
}

/// Walk the header cards of a stream and decide whether it is safe to hand to
/// the parser: no card up to the END card has a risky value field, and the
/// advertised axis extents stay within the digit budget.
pub fn screen_header(bytes: &[u8]) -> (ok: bool)
    ensures
        ok == header_screen_ok(bytes@),
{
    let n = bytes.len();
    let mut pos: usize = 0;
    let mut budget: u64 = EXTENT_DIGIT_BUDGET;
    loop
        invariant
            pos <= n,
            n == bytes@.len(),
            budget <= EXTENT_DIGIT_BUDGET,
            header_screen_ok(bytes@) == cards_safe_from(bytes@, pos as int, budget as int),
        decreases n - pos,
    {
        if n - pos < 80 {
            return true;
        }
        if card_is_risky(bytes, pos) {
            return false;
        }
        if card_is_end(bytes, pos) {
            return true;
        }
        if kw_is_extent(bytes, pos) && card_has_value_sep(bytes, pos) {
            match uint_field_digit_count(bytes, pos + 10, pos + 80) {
                Some(digits) => {
                    if digits as u64 > budget {
                        return false;
                    }
                    budget = budget - digits as u64;
                },
                None => {
                    return false;
                },
            }
        } else if kw_is_count(bytes, pos) && card_has_value_sep(bytes, pos) {
            match uint_field_digit_count(bytes, pos + 10, pos + 80) {
                Some(digits) => {
                    if digits > 3 {
                        return false;
                    }
                },
                None => {
                    return false;
                },
            }
        }
        pos = pos + 80;
    }
}

} // verus!
