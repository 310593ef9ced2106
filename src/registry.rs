//! Attribute codes and their classification.
//!
//! Every SGR parameter is a `u16`. The codes fall into bands: text styles and
//! their "off" codes, basic foreground and background colors, the rich-color
//! introducers (which need sub-parameters), and the two default-color codes.

use vstd::prelude::*;

verus! {

/// Reset every attribute.
pub const TS_RESET_ALL: u16 = 0;
pub const TS_BOLD: u16 = 1;
pub const TS_DIM: u16 = 2;
pub const TS_ITALIC: u16 = 3;
pub const TS_UNDERLINE: u16 = 4;
pub const TS_BLINK: u16 = 5;
pub const TS_OVERLINE: u16 = 6;
pub const TS_INVERT: u16 = 7;
pub const TS_HIDDEN: u16 = 8;
pub const TS_STRIKE: u16 = 9;
pub const TS_DEFAULT: u16 = 20;
pub const TS_NO_BOLD: u16 = 21;
pub const TS_NO_DIM: u16 = 22;
/// Terminals do not reliably honor code 23, so italic is turned off by the
/// universal reset instead.
pub const TS_NO_ITALIC: u16 = 0;
pub const TS_NO_UNDERLINE: u16 = 24;
pub const TS_NO_BLINK: u16 = 25;
pub const TS_NO_OVERLINE: u16 = 26;
pub const TS_NO_INVERT: u16 = 27;
pub const TS_NO_HIDDEN: u16 = 28;
pub const TS_NO_STRIKE: u16 = 29;

pub const FC_BLACK: u16 = 30;
pub const FC_RED: u16 = 31;
pub const FC_GREEN: u16 = 32;
pub const FC_BROWN: u16 = 33;
pub const FC_BLUE: u16 = 34;
pub const FC_MAGENTA: u16 = 35;
pub const FC_CYAN: u16 = 36;
pub const FC_LIGHT_GRAY: u16 = 37;
/// Introduces a 256-color or RGB foreground; needs sub-parameters.
pub const FC_RICH_COLORS: u16 = 38;
pub const FC_DEFAULT: u16 = 39;
pub const FC_DARK_GRAY: u16 = 90;
pub const FC_LIGHT_RED: u16 = 91;
pub const FC_LIGHT_GREEN: u16 = 92;
pub const FC_YELLOW: u16 = 93;
pub const FC_LIGHT_BLUE: u16 = 94;
pub const FC_LIGHT_MAGENTA: u16 = 95;
pub const FC_LIGHT_CYAN: u16 = 96;
pub const FC_WHITE: u16 = 97;

pub const BC_BLACK: u16 = 40;
pub const BC_RED: u16 = 41;
pub const BC_GREEN: u16 = 42;
pub const BC_BROWN: u16 = 43;
pub const BC_BLUE: u16 = 44;
pub const BC_MAGENTA: u16 = 45;
pub const BC_CYAN: u16 = 46;
pub const BC_LIGHT_GRAY: u16 = 47;
/// Introduces a 256-color or RGB background; needs sub-parameters.
pub const BC_RICH_COLORS: u16 = 48;
pub const BC_DEFAULT: u16 = 49;
pub const BC_DARK_GRAY: u16 = 100;
pub const BC_LIGHT_RED: u16 = 101;
pub const BC_LIGHT_GREEN: u16 = 102;
pub const BC_YELLOW: u16 = 103;
pub const BC_LIGHT_BLUE: u16 = 104;
pub const BC_LIGHT_MAGENTA: u16 = 105;
pub const BC_LIGHT_CYAN: u16 = 106;
pub const BC_WHITE: u16 = 107;

/// The band an attribute code belongs to.
#[derive(Clone, Copy, Debug, PartialEq, Eq, Structural)]
pub enum AttributeKind {
    /// A text style that is switched on (1 to 9).
    Style,
    /// The universal reset (0), or a code that switches a style off (20 to 29).
    StyleOff,
    /// A basic foreground color (30 to 37, 90 to 97).
    ForegroundBasic,
    /// A basic background color (40 to 47, 100 to 107).
    BackgroundBasic,
    /// The rich foreground introducer (38).
    ForegroundRich,
    /// The rich background introducer (48).
    BackgroundRich,
    /// The default foreground color (39).
    ForegroundDefault,
    /// The default background color (49).
    BackgroundDefault,
}

pub open spec fn is_basic_foreground(code: u16) -> bool {
    (30 <= code <= 37) || (90 <= code <= 97)
}

pub open spec fn is_basic_background(code: u16) -> bool {
    (40 <= code <= 47) || (100 <= code <= 107)
}

/// The band of `code`, or `None` for a code outside every band.
pub open spec fn kind_of(code: u16) -> Option<AttributeKind> {
    if 1 <= code <= 9 {
        Some(AttributeKind::Style)
    } else if code == 0 || (20 <= code <= 29) {
        Some(AttributeKind::StyleOff)
    } else if is_basic_foreground(code) {
        Some(AttributeKind::ForegroundBasic)
    } else if is_basic_background(code) {
        Some(AttributeKind::BackgroundBasic)
    } else if code == 38 {
        Some(AttributeKind::ForegroundRich)
    } else if code == 48 {
        Some(AttributeKind::BackgroundRich)
    } else if code == 39 {
        Some(AttributeKind::ForegroundDefault)
    } else if code == 49 {
        Some(AttributeKind::BackgroundDefault)
    } else {
        None
    }
}

/// The code that cancels an attribute that is switched on: a style turns off
/// through its own "off" code (italic through the universal reset), a color of
/// either depth goes back to the default color of its ground. Codes that switch
/// nothing on, and unknown codes, have no cancelling code.
pub open spec fn cancel_of(code: u16) -> Option<u16> {
    match kind_of(code) {
        Some(AttributeKind::Style) => if code == 3 {
            Some(0u16)
        } else {
            Some((code + 20) as u16)
        },
        Some(AttributeKind::ForegroundBasic) => Some(39u16),
        Some(AttributeKind::ForegroundRich) => Some(39u16),
        Some(AttributeKind::BackgroundBasic) => Some(49u16),
        Some(AttributeKind::BackgroundRich) => Some(49u16),
        _ => None,
    }
}

/// A background color shifted into its foreground counterpart; any other code
/// is left as it is.
pub open spec fn foreground_of(code: u16) -> u16 {
    if is_basic_background(code) {
        (code - 10) as u16
    } else {
        code
    }
}

/// A foreground color shifted into its background counterpart; any other code
/// is left as it is.
pub open spec fn background_of(code: u16) -> u16 {
    if is_basic_foreground(code) {
        (code + 10) as u16
    } else {
        code
    }
}

/// The band shift maps the basic background colors one to one onto the basic
/// foreground colors, and back.
pub proof fn lemma_band_shift(code: u16)
    ensures
        is_basic_background(code) ==> is_basic_foreground(foreground_of(code)) && foreground_of(
            code,
        ) == code - 10 && background_of(foreground_of(code)) == code,
        is_basic_foreground(code) ==> is_basic_background(background_of(code)) && background_of(
            code,
        ) == code + 10 && foreground_of(background_of(code)) == code,
        !is_basic_background(code) ==> foreground_of(code) == code,
        !is_basic_foreground(code) ==> background_of(code) == code,
{
}

/// Classifies `code` into its band.
pub fn classify(code: u16) -> (r: Option<AttributeKind>)
    ensures
        r == kind_of(code),
{
    if 1 <= code && code <= 9 {
        Some(AttributeKind::Style)
    } else if code == 0 || (20 <= code && code <= 29) {
        Some(AttributeKind::StyleOff)
    } else if (30 <= code && code <= 37) || (90 <= code && code <= 97) {
        Some(AttributeKind::ForegroundBasic)
    } else if (40 <= code && code <= 47) || (100 <= code && code <= 107) {
        Some(AttributeKind::BackgroundBasic)
    } else if code == FC_RICH_COLORS {
        Some(AttributeKind::ForegroundRich)
    } else if code == BC_RICH_COLORS {
        Some(AttributeKind::BackgroundRich)
    } else if code == FC_DEFAULT {
        Some(AttributeKind::ForegroundDefault)
    } else if code == BC_DEFAULT {
        Some(AttributeKind::BackgroundDefault)
    } else {
        None
    }
}

/// The code that cancels `code`, if it switches an attribute on.
pub fn cancel_code(code: u16) -> (r: Option<u16>)
    ensures
        r == cancel_of(code),
{
    match classify(code) {
        Some(AttributeKind::Style) => {
            if code == TS_ITALIC {
                Some(TS_NO_ITALIC)
            } else {
                Some(code + 20)
            }
        },
        Some(AttributeKind::ForegroundBasic) | Some(AttributeKind::ForegroundRich) => Some(
            FC_DEFAULT,
        ),
        Some(AttributeKind::BackgroundBasic) | Some(AttributeKind::BackgroundRich) => Some(
            BC_DEFAULT,
        ),
        _ => None,
    }
}

/// Shifts a background color into the foreground band.
pub fn coerce_to_foreground(code: u16) -> (r: u16)
    ensures
        r == foreground_of(code),
{
    if (40 <= code && code <= 47) || (100 <= code && code <= 107) {
        code - 10
    } else {
        code
    }
}

/// Shifts a foreground color into the background band.
pub fn coerce_to_background(code: u16) -> (r: u16)
    ensures
        r == background_of(code),
{
    if (30 <= code && code <= 37) || (90 <= code && code <= 97) {
        code + 10
    } else {
        code
    }
}

} // verus!
