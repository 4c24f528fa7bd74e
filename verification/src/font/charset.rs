//! The character sets of fonts, as the number of a `FontCharset`.

use vstd::prelude::*;

verus! {

/// The character set that the system chooses.
pub const DEFAULT: u8 = 1;

pub const ANSI: u8 = 0;

pub const OEM: u8 = 255;

pub const MAC: u8 = 77;

pub const SYMBOL: u8 = 2;

pub const SHIFT_JIS: u8 = 128;

pub const HANGUL: u8 = 129;

pub const GB2312: u8 = 134;

pub const CHINESE_BIG5: u8 = 136;

pub const JOHAB: u8 = 130;

pub const HEBREW: u8 = 177;

pub const ARABIC: u8 = 178;

pub const GREEK: u8 = 161;

pub const TURKISH: u8 = 162;

pub const VIETNAMESE: u8 = 163;

pub const THAI: u8 = 222;

pub const EAST_EUROPE: u8 = 238;

pub const RUSSIAN: u8 = 204;

pub const BALTIC: u8 = 186;

} // verus!
