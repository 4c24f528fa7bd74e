//! The extended style bits of windows: the second number of a
//! `WindowStyle`.

use vstd::prelude::*;

verus! {

pub const DIALOG_MODAL_FRAME: u32 = 0x00000001;

pub const NO_PARENT_NOTIFY: u32 = 0x00000004;

pub const TOP_MOST: u32 = 0x00000008;

pub const ACCEPT_FILES: u32 = 0x00000010;

pub const TRANSPARENT: u32 = 0x00000020;

pub const MDI_CHILD: u32 = 0x00000040;

pub const TOOL_WINDOW: u32 = 0x00000080;

pub const WINDOW_EDGE: u32 = 0x00000100;

pub const CLIENT_EDGE: u32 = 0x00000200;

pub const CONTEXT_HELP: u32 = 0x00000400;

pub const RIGHT: u32 = 0x00001000;

pub const LEFT: u32 = 0x00000000;

pub const RTL_READING: u32 = 0x00002000;

pub const LTR_READING: u32 = 0x00000000;

pub const LEFT_SCROLLBAR: u32 = 0x00004000;

pub const RIGHT_SCROLLBAR: u32 = 0x00000000;

pub const CONTROL_PARENT: u32 = 0x00010000;

pub const STATIC_EDGE: u32 = 0x00020000;

pub const APP_WINDOW: u32 = 0x00040000;

pub const LAYERED: u32 = 0x00080000;

pub const NO_INHERIT_LAYOUT: u32 = 0x00100000;

pub const NO_REDIRECTION_BITMAP: u32 = 0x00200000;

pub const LAYOUT_RTL: u32 = 0x00400000;

pub const COMPOSITED: u32 = 0x02000000;

pub const NO_ACTIVATE: u32 = 0x08000000;

pub const OVERLAPPED_WINDOW: u32 = 0x00000300;

pub const PALETTE_WINDOW: u32 = 0x00000188;

} // verus!
