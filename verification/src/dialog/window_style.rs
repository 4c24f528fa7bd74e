//! The basic style bits of windows: the first number of a `WindowStyle`.

use vstd::prelude::*;

verus! {

pub const OVERLAPPED: u32 = 0x00000000;

pub const POPUP: u32 = 0x80000000;

pub const CHILD: u32 = 0x40000000;

pub const MINIMIZE: u32 = 0x20000000;

pub const VISIBLE: u32 = 0x10000000;

pub const DISABLED: u32 = 0x08000000;

pub const CLIP_SIBLINGS: u32 = 0x04000000;

pub const CLIP_CHILDREN: u32 = 0x02000000;

pub const MAXIMIZE: u32 = 0x01000000;

pub const CAPTION: u32 = 0x00C00000;

pub const BORDER: u32 = 0x00800000;

pub const DIALOG_FRAME: u32 = 0x00400000;

pub const VERTICAL_SCROLLBAR: u32 = 0x00200000;

pub const HORIZONTAL_SCROLLBAR: u32 = 0x00100000;

pub const SYSTEM_MENU: u32 = 0x00080000;

pub const THICK_FRAME: u32 = 0x00040000;

pub const GROUP: u32 = 0x00020000;

pub const TAB_STOP: u32 = 0x00010000;

pub const MINIMIZE_BOX: u32 = 0x00020000;

pub const MAXIMIZE_BOX: u32 = 0x00010000;

pub const OVERLAPPED_WINDOW: u32 = 0x00CF0000;

pub const POPUP_WINDOW: u32 = 0x80880000;

pub const CHILD_WINDOW: u32 = 0x40000000;

} // verus!
