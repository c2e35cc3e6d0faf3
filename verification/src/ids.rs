//! Identifiers. A `uuid::Uuid` is held as the `u128` that `Uuid::as_u128`
//! gives (its sixteen bytes read big-endian).

use vstd::prelude::*;
use crate::hex::{hex_digit, hex_encode, hex_text, is_lower_hex_char, lemma_hex_text_shape};
use crate::text::push_char;

verus! {

/// The `j`-th of the sixteen bytes of `u`, most significant first.
pub open spec fn uuid_byte(u: u128, j: int) -> u8 {
    ((u >> ((120 - 8 * j) as u32)) & 0xffu128) as u8
}

pub open spec fn uuid_bytes(u: u128) -> Seq<u8> {
    Seq::new(16, |j: int| uuid_byte(u, j))
}

/// Thirty-two hexadecimal digits grouped 8-4-4-4-12 by hyphens.
pub open spec fn hyphenated(h: Seq<char>) -> Seq<char> {
    h.subrange(0, 8) + seq!['-'] + h.subrange(8, 12) + seq!['-'] + h.subrange(12, 16) + seq!['-']
        + h.subrange(16, 20) + seq!['-'] + h.subrange(20, 32)
}

/// The text that `Uuid::to_string` gives: the hyphenated, lower-case form.
pub open spec fn uuid_text(u: u128) -> Seq<char> {
    hyphenated(hex_text(uuid_bytes(u)))
}

/// What `uuid::Uuid::parse_str` makes of a text, as a `u128`.
pub uninterp spec fn uuid_parsed(s: Seq<char>) -> Option<u128>;

/// The value of a lower-case hexadecimal digit.
pub open spec fn hex_digit_value(c: char) -> int {
    if '0' <= c && c <= '9' {
        (c as int) - ('0' as int)
    } else {
        (c as int) - ('a' as int) + 10
    }
}

/// The number that lower-case hexadecimal digits denote.
pub open spec fn hex_digits_value(h: Seq<char>) -> int
    decreases h.len(),
{
    if h.len() == 0 {
        0
    } else {
        16 * hex_digits_value(h.drop_last()) + hex_digit_value(h.last())
    }
}

/// The number that bytes denote, most significant first.
pub open spec fn bytes_value(b: Seq<u8>) -> int
    decreases b.len(),
{
    if b.len() == 0 {
        0
    } else {
        256 * bytes_value(b.drop_last()) + b.last()
    }
}

/// Hyphenated lower-case text: 36 characters, hyphens at positions 8, 13,
/// 18 and 23, lower-case hexadecimal digits everywhere else.
pub open spec fn is_lower_hyphenated(s: Seq<char>) -> bool {
    &&& s.len() == 36
    &&& forall|i: int|
        0 <= i < 36 ==> if i == 8 || i == 13 || i == 18 || i == 23 {
            s[i] == '-'
        } else {
            #[trigger] is_lower_hex_char(s[i])
        }
}

/// The thirty-two digits of hyphenated text, hyphens left out.
pub open spec fn unhyphenated(s: Seq<char>) -> Seq<char> {
    s.subrange(0, 8) + s.subrange(9, 13) + s.subrange(14, 18) + s.subrange(19, 23) + s.subrange(24, 36)
}

/// The value hyphenated text denotes.
pub open spec fn hyphenated_value(s: Seq<char>) -> int {
    hex_digits_value(unhyphenated(s))
}

proof fn lemma_hex_digits_of_bytes(b: Seq<u8>)
    ensures
        hex_digits_value(hex_text(b)) == bytes_value(b),
    decreases b.len(),
{
    if b.len() > 0 {
        lemma_hex_digits_of_bytes(b.drop_last());
        let prev = hex_text(b.drop_last());
        let x = b.last();
        let hi = hex_digit((x / 16) as int);
        let lo = hex_digit((x % 16) as int);
        let all = hex_text(b);
        assert(all =~= prev + seq![hi, lo]);
        assert(all.drop_last() =~= prev.push(hi));
        assert(all.drop_last().drop_last() =~= prev);
        assert(hex_digit_value(hi) == x / 16);
        assert(hex_digit_value(lo) == x % 16);
        assert(all.last() == lo);
        assert(all.drop_last().last() == hi);
        assert(hex_digits_value(all) == 16 * hex_digits_value(all.drop_last()) + hex_digit_value(lo));
        assert(hex_digits_value(all.drop_last()) == 16 * hex_digits_value(prev) + hex_digit_value(hi));
        assert(bytes_value(b) == 256 * bytes_value(b.drop_last()) + x);
        assert(x == 16 * (x / 16) + x % 16);
    }
}

proof fn lemma_low_byte(x: u128)
    ensures
        (x & 0xffu128) < 256,
        ((x & 0xffu128) as u8) as int == (x & 0xffu128) as int,
{
    assert((x & 0xffu128) < 256) by (bit_vector);
}

proof fn lemma_byte_step(u: u128, s: u32)
    requires
        s <= 112,
    ensures
        (u >> ((s + 8) as u32)) * 256 + ((u >> s) & 0xffu128) == (u >> s),
{
    assert((u >> ((s + 8) as u32)) * 256 + ((u >> s) & 0xffu128) == (u >> s)) by (bit_vector)
        requires
            s <= 112,
    ;
}

proof fn lemma_bytes_value_prefix(u: u128, k: int)
    requires
        1 <= k <= 16,
    ensures
        bytes_value(uuid_bytes(u).take(k)) == (u >> ((128 - 8 * k) as u32)),
    decreases k,
{
    let t = uuid_bytes(u).take(k);
    lemma_low_byte(u >> ((120 - 8 * (k - 1)) as u32));
    assert(t.last() == uuid_byte(u, k - 1));
    if k == 1 {
        assert(t.drop_last() =~= Seq::<u8>::empty());
        assert(((u >> 120u32) & 0xffu128) == (u >> 120u32)) by (bit_vector);
        assert(bytes_value(t) == 256 * bytes_value(t.drop_last()) + t.last());
        assert(bytes_value(Seq::<u8>::empty()) == 0);
    } else {
        lemma_bytes_value_prefix(u, k - 1);
        assert(t.drop_last() =~= uuid_bytes(u).take(k - 1));
        let sh: u32 = (128 - 8 * k) as u32;
        lemma_byte_step(u, sh);
        assert((sh + 8) as u32 == (128 - 8 * (k - 1)) as u32);
        assert(bytes_value(t) == 256 * bytes_value(t.drop_last()) + t.last());
    }
}

/// Law: the hyphenated text of an identifier is well formed, and reading
/// it back gives the identifier.
pub proof fn lemma_uuid_text_reads_back(u: u128)
    ensures
        is_lower_hyphenated(uuid_text(u)),
        hyphenated_value(uuid_text(u)) == u,
{
    let h = hex_text(uuid_bytes(u));
    lemma_hex_text_shape(uuid_bytes(u));
    let t = uuid_text(u);
    assert(unhyphenated(t) =~= h);
    assert forall|i: int| 0 <= i < 36 implies if i == 8 || i == 13 || i == 18 || i == 23 {
        t[i] == '-'
    } else {
        #[trigger] is_lower_hex_char(t[i])
    } by {
        if i < 8 {
            assert(t[i] == h[i]);
        } else if 8 < i < 13 {
            assert(t[i] == h[i - 1]);
        } else if 13 < i < 18 {
            assert(t[i] == h[i - 2]);
        } else if 18 < i < 23 {
            assert(t[i] == h[i - 3]);
        } else if 23 < i {
            assert(t[i] == h[i - 4]);
        }
    }
    lemma_hex_digits_of_bytes(uuid_bytes(u));
    lemma_bytes_value_prefix(u, 16);
    assert(uuid_bytes(u).take(16) =~= uuid_bytes(u));
    assert((u >> 0u32) == u) by (bit_vector);
}

fn push_range(out: &mut String, cs: &Vec<char>, from: usize, to: usize)
    requires
        from <= to <= cs@.len(),
    ensures
        final(out)@ == old(out)@ + cs@.subrange(from as int, to as int),
{
    let mut i: usize = from;
    while i < to
        invariant
            from <= i <= to,
            to <= cs@.len(),
            out@ == old(out)@ + cs@.subrange(from as int, i as int),
        decreases to - i,
    {
        push_char(out, cs[i]);
        i = i + 1;
        assert(out@ =~= old(out)@ + cs@.subrange(from as int, i as int));
    }
}

/// The hyphenated lower-case text of an identifier (`Uuid::to_string`).
pub fn uuid_to_text(u: u128) -> (res: String)
    ensures
        res@ == uuid_text(u),
        res@.len() == 36,
{
    let mut bytes: Vec<u8> = Vec::new();
    let mut j: usize = 0;
    while j < 16
        invariant
            j <= 16,
            bytes@ =~= uuid_bytes(u).take(j as int),
        decreases 16 - j,
    {
        let shift: u32 = (120 - 8 * j) as u32;
        let b: u8 = ((u >> shift) & 0xffu128) as u8;
        bytes.push(b);
        j = j + 1;
    }
    assert(bytes@ =~= uuid_bytes(u));
    let h = hex_encode(bytes.as_slice());
    let cs = crate::text::chars_of(h.as_str());
    let mut out = String::new();
    push_range(&mut out, &cs, 0, 8);
    push_char(&mut out, '-');
    push_range(&mut out, &cs, 8, 12);
    push_char(&mut out, '-');
    push_range(&mut out, &cs, 12, 16);
    push_char(&mut out, '-');
    push_range(&mut out, &cs, 16, 20);
    push_char(&mut out, '-');
    push_range(&mut out, &cs, 20, 32);
    assert(out@ =~= hyphenated(h@));
    out
}

/// `uuid::Uuid::parse_str`, read through `Uuid::as_u128`. The result is
/// named by `uuid_parsed`; the one fact stated beside it is what the crate's
/// parser does with hyphenated lower-case text (`parse_hyphenated`, then
/// `decode_hex32` and `u128::from_be_bytes`): it yields the number the
/// thirty-two digits denote. Which other texts it accepts (simple, braced,
/// URN, upper-case forms) is not stated.
#[verifier::external_body]
pub(crate) fn parse_uuid(s: &str) -> (res: Option<u128>)
    ensures
        res == uuid_parsed(s@),
        is_lower_hyphenated(s@) ==> res == Some(hyphenated_value(s@) as u128),
{
    match uuid::Uuid::parse_str(s) {
        Ok(id) => Some(id.as_u128()),
        Err(_) => None,
    }
}

/// `uuid::Uuid::new_v4`, read through `Uuid::as_u128`. The value is random;
/// what holds of every outcome is that the crate sets the version nibble
/// (bits 76..80) to 4 and the variant bits (bits 62..64) to `10`.
#[verifier::external_body]
pub(crate) fn new_uuid_v4() -> (res: u128)
    ensures
        (res >> 76u32) & 0xfu128 == 4,
        (res >> 62u32) & 0x3u128 == 2,
{
    uuid::Uuid::new_v4().as_u128()
}

} // verus!
