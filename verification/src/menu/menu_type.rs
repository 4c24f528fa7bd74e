//! The type flags of menu items, as the bits of a `MenuType`.

use vstd::prelude::*;

verus! {

pub const BITMAP: u32 = 0x00000004;

pub const MENUBAR_BREAK: u32 = 0x00000020;

pub const MENU_BREAK: u32 = 0x00000040;

pub const OWNER_DRAW: u32 = 0x00000100;

pub const RADIO_CHECK: u32 = 0x00000200;

pub const SEPARATOR: u32 = 0x00000800;

pub const RIGHT_ORDER: u32 = 0x00002000;

pub const RIGHT_JUSTIFY: u32 = 0x00004000;

} // verus!
