//! The identifiers that every program knows, as the number of an `Id`.

use vstd::prelude::*;

verus! {

/// The reserved identifier, which stands for no identifier.
pub const DEFAULT: u16 = 0xFFFF;

pub const OK: u16 = 1;

pub const CANCEL: u16 = 2;

pub const ABORT: u16 = 3;

pub const RETRY: u16 = 4;

pub const IGNORE: u16 = 5;

pub const YES: u16 = 6;

pub const NO: u16 = 7;

pub const CLOSE: u16 = 8;

pub const HELP: u16 = 9;

pub const TRY_AGAIN: u16 = 10;

pub const CONTINUE: u16 = 11;

pub const TIMEOUT: u16 = 32000;

} // verus!
