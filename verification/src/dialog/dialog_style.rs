//! The style bits of dialogs: basic style bits of a `DialogStyle`.

use vstd::prelude::*;

verus! {

pub const ABSOLUTE_ALIGN: u32 = 0x00000001;

pub const SET_FONT: u32 = 0x00000040;

pub const MODAL_FRAME: u32 = 0x00000080;

pub const NO_IDLE_MSG: u32 = 0x00000100;

pub const SET_FOREGROUND: u32 = 0x00000200;

pub const FIXED_SYS: u32 = 0x00000008;

pub const NO_FAIL_CREATE: u32 = 0x00000010;

pub const CONTROL: u32 = 0x00000400;

pub const CENTER: u32 = 0x00000800;

pub const CENTER_MOUSE: u32 = 0x00001000;

pub const CONTEXT_HELP: u32 = 0x00002000;

pub const SHELL_FONT: u32 = 0x00000048;

pub const USE_PIXELS: u32 = 0x00008000;

/// Of no use any more.
pub const SYSTEM_MODAL: u32 = 0x00000002;

/// Of no use any more.
pub const LOCALEDIT: u32 = 0x00000020;

/// Of no use any more.
pub const THREE_DIM_LOOK: u32 = 0x00000004;

} // verus!
