//! The bytes of SGR escape sequences.
//!
//! A sequence is `ESC '[' <params> 'm'`, where `<params>` is one decimal code or
//! several joined by `';'`. The spec functions here say exactly which bytes each
//! operation of the writer emits; the executable builders produce them.

use vstd::prelude::*;
use vstd::utf8::encode_utf8;

use crate::registry::{
    cancel_code,
    cancel_of,
    is_basic_background,
    is_basic_foreground,
    BC_DEFAULT,
    BC_RICH_COLORS,
    FC_DEFAULT,
    FC_RICH_COLORS,
};

verus! {

/// ASCII escape.
pub const ESC: u8 = 0x1b;

/// `'['`, which follows the escape in a control sequence introducer.
pub const CSI_BRACKET: u8 = 0x5b;

/// `';'`, the parameter delimiter.
pub const DELIMITER: u8 = 0x3b;

/// `'m'`, which ends an SGR sequence.
pub const SGR_END: u8 = 0x6d;

/// `'0'`.
pub const DIGIT_ZERO: u8 = 0x30;

/// The decimal digits of `n`, most significant first, without leading zeros.
pub open spec fn decimal(n: nat) -> Seq<u8>
    decreases n,
{
    if n < 10 {
        seq![(DIGIT_ZERO + n) as u8]
    } else {
        decimal(n / 10).push((DIGIT_ZERO + n % 10) as u8)
    }
}

/// The codes in decimal, joined by `';'`.
pub open spec fn params(codes: Seq<u16>) -> Seq<u8>
    decreases codes.len(),
{
    if codes.len() == 0 {
        Seq::empty()
    } else if codes.len() == 1 {
        decimal(codes[0] as nat)
    } else {
        params(codes.drop_last()) + seq![DELIMITER] + decimal(codes.last() as nat)
    }
}

/// The escape sequence that carries `codes` as its parameters.
pub open spec fn sgr(codes: Seq<u16>) -> Seq<u8> {
    seq![ESC, CSI_BRACKET] + params(codes) + seq![SGR_END]
}

/// The escape sequence of a single attribute code.
pub open spec fn attribute_bytes(code: u16) -> Seq<u8> {
    sgr(seq![code])
}

/// The escape sequence that cancels the attribute `code` switches on.
pub open spec fn reset_bytes(code: u16) -> Seq<u8>
    recommends
        cancel_of(code) is Some,
{
    attribute_bytes(cancel_of(code)->0)
}

/// The sequence of a basic color code is the escape, `'['`, the code's two or
/// three decimal digits and `'m'`, with nothing else.
pub proof fn lemma_color_attribute_bytes(code: u16)
    requires
        is_basic_foreground(code) || is_basic_background(code),
    ensures
        code < 100 ==> attribute_bytes(code) == seq![
            ESC,
            CSI_BRACKET,
            (DIGIT_ZERO + code / 10) as u8,
            (DIGIT_ZERO + code % 10) as u8,
            SGR_END,
        ],
        code >= 100 ==> attribute_bytes(code) == seq![
            ESC,
            CSI_BRACKET,
            (DIGIT_ZERO + 1) as u8,
            DIGIT_ZERO,
            (DIGIT_ZERO + code % 10) as u8,
            SGR_END,
        ],
{
    reveal_with_fuel(decimal, 3);
    assert(params(seq![code]) == decimal(code as nat));
    if code < 100 {
        assert(decimal(code as nat) =~= seq![
            (DIGIT_ZERO + code / 10) as u8,
            (DIGIT_ZERO + code % 10) as u8,
        ]);
    } else {
        assert(decimal(code as nat / 10) =~= seq![(DIGIT_ZERO + 1) as u8, DIGIT_ZERO]);
    }
    assert(attribute_bytes(code) =~= seq![ESC, CSI_BRACKET] + decimal(code as nat) + seq![SGR_END]);
}

/// Resetting any foreground color, basic or rich, writes the sequence of the
/// default foreground; resetting any background color writes the sequence of the
/// default background.
pub proof fn lemma_color_reset_sequences(code: u16)
    ensures
        is_basic_foreground(code) || code == FC_RICH_COLORS ==> reset_bytes(code)
            == attribute_bytes(FC_DEFAULT),
        is_basic_background(code) || code == BC_RICH_COLORS ==> reset_bytes(code)
            == attribute_bytes(BC_DEFAULT),
{
}

/// An opening sequence, the text in UTF-8, then the closing bytes. The closing
/// bytes are left out when the text is empty, unless `always_close` holds.
pub open spec fn styled(
    open: Seq<u8>,
    text: Seq<char>,
    close: Seq<u8>,
    always_close: bool,
) -> Seq<u8> {
    open + encode_utf8(text) + if always_close || text.len() > 0 {
        close
    } else {
        Seq::empty()
    }
}

/// Appends the decimal digits of `n`.
pub fn push_decimal(out: &mut Vec<u8>, n: u16)
    ensures
        final(out)@ == old(out)@ + decimal(n as nat),
    decreases n,
{
    if n >= 10 {
        push_decimal(out, n / 10);
    }
    out.push(DIGIT_ZERO + (n % 10) as u8);
    assert(final(out)@ =~= old(out)@ + decimal(n as nat));
}

/// Appends the sequence that carries `codes` as its parameters.
pub fn push_sgr(out: &mut Vec<u8>, codes: &[u16])
    ensures
        final(out)@ == old(out)@ + sgr(codes@),
{
    out.push(ESC);
    out.push(CSI_BRACKET);
    let ghost start = old(out)@ + seq![ESC, CSI_BRACKET];
    assert(out@ =~= start + params(codes@.subrange(0, 0)));
    let mut i: usize = 0;
    while i < codes.len()
        invariant
            i <= codes@.len(),
            out@ == start + params(codes@.subrange(0, i as int)),
        decreases codes@.len() - i,
    {
        if i > 0 {
            out.push(DELIMITER);
        }
        push_decimal(out, codes[i]);
        assert(codes@.subrange(0, i + 1).drop_last() =~= codes@.subrange(0, i as int));
        assert(out@ =~= start + params(codes@.subrange(0, i + 1)));
        i = i + 1;
    }
    assert(codes@.subrange(0, codes@.len() as int) =~= codes@);
    out.push(SGR_END);
    assert(final(out)@ =~= old(out)@ + sgr(codes@));
}

/// The sequence that carries `codes` as its parameters, in a new vector.
pub fn sgr_vec(codes: &[u16]) -> (r: Vec<u8>)
    ensures
        r@ == sgr(codes@),
{
    let mut r: Vec<u8> = Vec::new();
    push_sgr(&mut r, codes);
    assert(r@ =~= sgr(codes@));
    r
}

/// The sequence of a single attribute code, in a new vector.
pub fn attribute_vec(code: u16) -> (r: Vec<u8>)
    ensures
        r@ == attribute_bytes(code),
{
    let codes = [code];
    assert(codes@ =~= seq![code]);
    sgr_vec(&codes)
}

/// The sequence that cancels the attribute `code` switches on, in a new vector.
pub fn reset_vec(code: u16) -> (r: Vec<u8>)
    requires
        cancel_of(code) is Some,
    ensures
        r@ == reset_bytes(code),
{
    attribute_vec(cancel_code(code).unwrap())
}

/// Appends the UTF-8 bytes of `text`.
pub fn push_text(out: &mut Vec<u8>, text: &str)
    ensures
        final(out)@ == old(out)@ + encode_utf8(text@),
{
    let bytes = text.as_bytes();
    let mut i: usize = 0;
    while i < bytes.len()
        invariant
            i <= bytes@.len(),
            bytes@ == encode_utf8(text@),
            out@ == old(out)@ + bytes@.subrange(0, i as int),
        decreases bytes@.len() - i,
    {
        out.push(bytes[i]);
        assert(out@ =~= old(out)@ + bytes@.subrange(0, i + 1));
        i = i + 1;
    }
    assert(bytes@.subrange(0, bytes@.len() as int) =~= bytes@);
}

} // verus!
