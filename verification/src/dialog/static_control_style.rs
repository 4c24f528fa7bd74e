//! The style bits of static controls: basic style bits of a
//! `StaticControlStyle`.

use vstd::prelude::*;

verus! {

pub const REAL_SIZE_CONTROL: u32 = 0x00000040;

pub const NO_PREFIX: u32 = 0x00000080;

pub const NOTIFY: u32 = 0x00000100;

pub const CENTER_IMAGE: u32 = 0x00000200;

pub const RIGHT_JUST: u32 = 0x00000400;

pub const REAL_SIZE_IMAGE: u32 = 0x00000800;

pub const SUNKEN: u32 = 0x00001000;

pub const EDIT_CONTROL: u32 = 0x00002000;

pub const END_ELLIPSIS: u32 = 0x00004000;

pub const PATH_ELLIPSIS: u32 = 0x00008000;

pub const WORD_ELLIPSIS: u32 = 0x0000C000;

} // verus!
