//! What static controls show, as the number of a
//! `StaticControlContentType`.

use vstd::prelude::*;

verus! {

pub const LEFT: u32 = 0x00000000;

pub const CENTER: u32 = 0x00000001;

pub const RIGHT: u32 = 0x00000002;

pub const ICON: u32 = 0x00000003;

pub const BLACK_RECT: u32 = 0x00000004;

pub const GRAY_RECT: u32 = 0x00000005;

pub const WHITE_RECT: u32 = 0x00000006;

pub const BLACK_FRAME: u32 = 0x00000007;

pub const GRAY_FRAME: u32 = 0x00000008;

pub const WHITE_FRAME: u32 = 0x00000009;

pub const USER_ITEM: u32 = 0x0000000A;

pub const SIMPLE: u32 = 0x0000000B;

pub const LEFT_NO_WORD_WRAP: u32 = 0x0000000C;

pub const OWNER_DRAW: u32 = 0x0000000D;

pub const BITMAP: u32 = 0x0000000E;

pub const ENH_META_FILE: u32 = 0x0000000F;

pub const ETCHED_HORZ: u32 = 0x00000010;

pub const ETCHED_VERT: u32 = 0x00000011;

pub const ETCHED_FRAME: u32 = 0x00000012;

} // verus!
