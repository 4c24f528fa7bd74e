//! The state flags of menu items, as the bits of a `MenuState`.

use vstd::prelude::*;

verus! {

pub const DISABLED: u32 = 0x00000003;

pub const CHECKED: u32 = 0x00000008;

pub const HIGHLIGHTED: u32 = 0x00000080;

pub const DEFAULT_ITEM: u32 = 0x00001000;

} // verus!
