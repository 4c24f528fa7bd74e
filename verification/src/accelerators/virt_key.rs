//! The codes of the virtual keys. A key is made from its code: the key
//! `F1` is `VirtKey(virt_key::F1)`.

use vstd::prelude::*;

verus! {

pub const NUM_0: i32 = 0x30;

pub const NUM_1: i32 = 0x31;

pub const NUM_2: i32 = 0x32;

pub const NUM_3: i32 = 0x33;

pub const NUM_4: i32 = 0x34;

pub const NUM_5: i32 = 0x35;

pub const NUM_6: i32 = 0x36;

pub const NUM_7: i32 = 0x37;

pub const NUM_8: i32 = 0x38;

pub const NUM_9: i32 = 0x39;

pub const LETTER_A: i32 = 0x41;

pub const LETTER_B: i32 = 0x42;

pub const LETTER_C: i32 = 0x43;

pub const LETTER_D: i32 = 0x44;

pub const LETTER_E: i32 = 0x45;

pub const LETTER_F: i32 = 0x46;

pub const LETTER_G: i32 = 0x47;

pub const LETTER_H: i32 = 0x48;

pub const LETTER_I: i32 = 0x49;

pub const LETTER_J: i32 = 0x4A;

pub const LETTER_K: i32 = 0x4B;

pub const LETTER_L: i32 = 0x4C;

pub const LETTER_M: i32 = 0x4D;

pub const LETTER_N: i32 = 0x4E;

pub const LETTER_O: i32 = 0x4F;

pub const LETTER_P: i32 = 0x50;

pub const LETTER_Q: i32 = 0x51;

pub const LETTER_R: i32 = 0x52;

pub const LETTER_S: i32 = 0x53;

pub const LETTER_T: i32 = 0x54;

pub const LETTER_U: i32 = 0x55;

pub const LETTER_V: i32 = 0x56;

pub const LETTER_W: i32 = 0x57;

pub const LETTER_X: i32 = 0x58;

pub const LETTER_Y: i32 = 0x59;

pub const LETTER_Z: i32 = 0x5A;

pub const LBUTTON: i32 = 0x01;

pub const RBUTTON: i32 = 0x02;

pub const CANCEL: i32 = 0x03;

pub const MBUTTON: i32 = 0x04;

pub const XBUTTON1: i32 = 0x05;

pub const XBUTTON2: i32 = 0x06;

pub const BACK: i32 = 0x08;

pub const TAB: i32 = 0x09;

pub const CLEAR: i32 = 0x0C;

pub const RETURN: i32 = 0x0D;

pub const SHIFT: i32 = 0x10;

pub const CONTROL: i32 = 0x11;

pub const MENU: i32 = 0x12;

pub const PAUSE: i32 = 0x13;

pub const CAPITAL: i32 = 0x14;

pub const KANA: i32 = 0x15;

pub const HANGEUL: i32 = 0x15;

pub const HANGUL: i32 = 0x15;

pub const JUNJA: i32 = 0x17;

pub const FINAL: i32 = 0x18;

pub const HANJA: i32 = 0x19;

pub const KANJI: i32 = 0x19;

pub const ESCAPE: i32 = 0x1B;

pub const CONVERT: i32 = 0x1C;

pub const NONCONVERT: i32 = 0x1D;

pub const ACCEPT: i32 = 0x1E;

pub const MODECHANGE: i32 = 0x1F;

pub const SPACE: i32 = 0x20;

pub const PRIOR: i32 = 0x21;

pub const NEXT: i32 = 0x22;

pub const END: i32 = 0x23;

pub const HOME: i32 = 0x24;

pub const LEFT: i32 = 0x25;

pub const UP: i32 = 0x26;

pub const RIGHT: i32 = 0x27;

pub const DOWN: i32 = 0x28;

pub const SELECT: i32 = 0x29;

pub const PRINT: i32 = 0x2A;

pub const EXECUTE: i32 = 0x2B;

pub const SNAPSHOT: i32 = 0x2C;

pub const INSERT: i32 = 0x2D;

pub const DELETE: i32 = 0x2E;

pub const HELP: i32 = 0x2F;

pub const LWIN: i32 = 0x5B;

pub const RWIN: i32 = 0x5C;

pub const APPS: i32 = 0x5D;

pub const SLEEP: i32 = 0x5F;

pub const NUMPAD0: i32 = 0x60;

pub const NUMPAD1: i32 = 0x61;

pub const NUMPAD2: i32 = 0x62;

pub const NUMPAD3: i32 = 0x63;

pub const NUMPAD4: i32 = 0x64;

pub const NUMPAD5: i32 = 0x65;

pub const NUMPAD6: i32 = 0x66;

pub const NUMPAD7: i32 = 0x67;

pub const NUMPAD8: i32 = 0x68;

pub const NUMPAD9: i32 = 0x69;

pub const MULTIPLY: i32 = 0x6A;

pub const ADD: i32 = 0x6B;

pub const SEPARATOR: i32 = 0x6C;

pub const SUBTRACT: i32 = 0x6D;

pub const DECIMAL: i32 = 0x6E;

pub const DIVIDE: i32 = 0x6F;

pub const F1: i32 = 0x70;

pub const F2: i32 = 0x71;

pub const F3: i32 = 0x72;

pub const F4: i32 = 0x73;

pub const F5: i32 = 0x74;

pub const F6: i32 = 0x75;

pub const F7: i32 = 0x76;

pub const F8: i32 = 0x77;

pub const F9: i32 = 0x78;

pub const F10: i32 = 0x79;

pub const F11: i32 = 0x7A;

pub const F12: i32 = 0x7B;

pub const F13: i32 = 0x7C;

pub const F14: i32 = 0x7D;

pub const F15: i32 = 0x7E;

pub const F16: i32 = 0x7F;

pub const F17: i32 = 0x80;

pub const F18: i32 = 0x81;

pub const F19: i32 = 0x82;

pub const F20: i32 = 0x83;

pub const F21: i32 = 0x84;

pub const F22: i32 = 0x85;

pub const F23: i32 = 0x86;

pub const F24: i32 = 0x87;

pub const NUMLOCK: i32 = 0x90;

pub const SCROLL: i32 = 0x91;

pub const OEM_NEC_EQUAL: i32 = 0x92;

pub const OEM_FJ_JISHO: i32 = 0x92;

pub const OEM_FJ_MASSHOU: i32 = 0x93;

pub const OEM_FJ_TOUROKU: i32 = 0x94;

pub const OEM_FJ_LOYA: i32 = 0x95;

pub const OEM_FJ_ROYA: i32 = 0x96;

pub const LSHIFT: i32 = 0xA0;

pub const RSHIFT: i32 = 0xA1;

pub const LCONTROL: i32 = 0xA2;

pub const RCONTROL: i32 = 0xA3;

pub const LMENU: i32 = 0xA4;

pub const RMENU: i32 = 0xA5;

pub const BROWSER_BACK: i32 = 0xA6;

pub const BROWSER_FORWARD: i32 = 0xA7;

pub const BROWSER_REFRESH: i32 = 0xA8;

pub const BROWSER_STOP: i32 = 0xA9;

pub const BROWSER_SEARCH: i32 = 0xAA;

pub const BROWSER_FAVORITES: i32 = 0xAB;

pub const BROWSER_HOME: i32 = 0xAC;

pub const VOLUME_MUTE: i32 = 0xAD;

pub const VOLUME_DOWN: i32 = 0xAE;

pub const VOLUME_UP: i32 = 0xAF;

pub const MEDIA_NEXT_TRACK: i32 = 0xB0;

pub const MEDIA_PREV_TRACK: i32 = 0xB1;

pub const MEDIA_STOP: i32 = 0xB2;

pub const MEDIA_PLAY_PAUSE: i32 = 0xB3;

pub const LAUNCH_MAIL: i32 = 0xB4;

pub const LAUNCH_MEDIA_SELECT: i32 = 0xB5;

pub const LAUNCH_APP1: i32 = 0xB6;

pub const LAUNCH_APP2: i32 = 0xB7;

pub const OEM_1: i32 = 0xBA;

pub const OEM_PLUS: i32 = 0xBB;

pub const OEM_COMMA: i32 = 0xBC;

pub const OEM_MINUS: i32 = 0xBD;

pub const OEM_PERIOD: i32 = 0xBE;

pub const OEM_2: i32 = 0xBF;

pub const OEM_3: i32 = 0xC0;

pub const OEM_4: i32 = 0xDB;

pub const OEM_5: i32 = 0xDC;

pub const OEM_6: i32 = 0xDD;

pub const OEM_7: i32 = 0xDE;

pub const OEM_8: i32 = 0xDF;

pub const OEM_AX: i32 = 0xE1;

pub const OEM_102: i32 = 0xE2;

pub const ICO_HELP: i32 = 0xE3;

pub const ICO_00: i32 = 0xE4;

pub const PROCESSKEY: i32 = 0xE5;

pub const ICO_CLEAR: i32 = 0xE6;

pub const PACKET: i32 = 0xE7;

pub const OEM_RESET: i32 = 0xE9;

pub const OEM_JUMP: i32 = 0xEA;

pub const OEM_PA1: i32 = 0xEB;

pub const OEM_PA2: i32 = 0xEC;

pub const OEM_PA3: i32 = 0xED;

pub const OEM_WSCTRL: i32 = 0xEE;

pub const OEM_CUSEL: i32 = 0xEF;

pub const OEM_ATTN: i32 = 0xF0;

pub const OEM_FINISH: i32 = 0xF1;

pub const OEM_COPY: i32 = 0xF2;

pub const OEM_AUTO: i32 = 0xF3;

pub const OEM_ENLW: i32 = 0xF4;

pub const OEM_BACKTAB: i32 = 0xF5;

pub const ATTN: i32 = 0xF6;

pub const CRSEL: i32 = 0xF7;

pub const EXSEL: i32 = 0xF8;

pub const EREOF: i32 = 0xF9;

pub const PLAY: i32 = 0xFA;

pub const ZOOM: i32 = 0xFB;

pub const NONAME: i32 = 0xFC;

pub const PA1: i32 = 0xFD;

pub const OEM_CLEAR: i32 = 0xFE;

} // verus!
