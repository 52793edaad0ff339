//! The decisions of macro playback: which event comes next and after what
//! delay, how the delay scales with the speed, and which device actions an
//! event is replayed as.
use vstd::prelude::*;

use crate::models::{EventKind, EventKindView, InputEvent, InputEventView, MouseButton};
use crate::scheduler::{LoopMode, after_pass, next_loop, passes_after_current, total_passes};
use crate::text::same_text;

verus! {

/// The flag the input backend sets on a scan code to mark an extended key
/// (the keys that share a code with a numeric-keypad key).
pub const EXTENDED_SCANCODE_FLAG: u16 = 0xFF00;

/// The extended form of the scan code `code`.
pub open spec fn extended_scancode(code: u16) -> u16 {
    code | EXTENDED_SCANCODE_FLAG
}

/// The scan code the player sends for a key name, `None` for a key it cannot replay.
pub open spec fn spec_scancode(key: Seq<char>) -> Option<u16> {
    if key == "Escape"@ || key == "Esc"@ {
        Some(0x01)
    } else if key == "Num1"@ {
        Some(0x02)
    } else if key == "Num2"@ {
        Some(0x03)
    } else if key == "Num3"@ {
        Some(0x04)
    } else if key == "Num4"@ {
        Some(0x05)
    } else if key == "Num5"@ {
        Some(0x06)
    } else if key == "Num6"@ {
        Some(0x07)
    } else if key == "Num7"@ {
        Some(0x08)
    } else if key == "Num8"@ {
        Some(0x09)
    } else if key == "Num9"@ {
        Some(0x0A)
    } else if key == "Num0"@ {
        Some(0x0B)
    } else if key == "Minus"@ {
        Some(0x0C)
    } else if key == "Equal"@ {
        Some(0x0D)
    } else if key == "Backspace"@ {
        Some(0x0E)
    } else if key == "Tab"@ {
        Some(0x0F)
    } else if key == "KeyQ"@ {
        Some(0x10)
    } else if key == "KeyW"@ {
        Some(0x11)
    } else if key == "KeyE"@ {
        Some(0x12)
    } else if key == "KeyR"@ {
        Some(0x13)
    } else if key == "KeyT"@ {
        Some(0x14)
    } else if key == "KeyY"@ {
        Some(0x15)
    } else if key == "KeyU"@ {
        Some(0x16)
    } else if key == "KeyI"@ {
        Some(0x17)
    } else if key == "KeyO"@ {
        Some(0x18)
    } else if key == "KeyP"@ {
        Some(0x19)
    } else if key == "LeftBracket"@ {
        Some(0x1A)
    } else if key == "RightBracket"@ {
        Some(0x1B)
    } else if key == "Return"@ || key == "Enter"@ {
        Some(0x1C)
    } else if key == "ControlLeft"@ || key == "Control"@ {
        Some(0x1D)
    } else if key == "KeyA"@ {
        Some(0x1E)
    } else if key == "KeyS"@ {
        Some(0x1F)
    } else if key == "KeyD"@ {
        Some(0x20)
    } else if key == "KeyF"@ {
        Some(0x21)
    } else if key == "KeyG"@ {
        Some(0x22)
    } else if key == "KeyH"@ {
        Some(0x23)
    } else if key == "KeyJ"@ {
        Some(0x24)
    } else if key == "KeyK"@ {
        Some(0x25)
    } else if key == "KeyL"@ {
        Some(0x26)
    } else if key == "SemiColon"@ || key == "Semicolon"@ {
        Some(0x27)
    } else if key == "Quote"@ {
        Some(0x28)
    } else if key == "Grave"@ || key == "BackQuote"@ {
        Some(0x29)
    } else if key == "ShiftLeft"@ || key == "Shift"@ {
        Some(0x2A)
    } else if key == "BackSlash"@ || key == "Backslash"@ {
        Some(0x2B)
    } else if key == "KeyZ"@ {
        Some(0x2C)
    } else if key == "KeyX"@ {
        Some(0x2D)
    } else if key == "KeyC"@ {
        Some(0x2E)
    } else if key == "KeyV"@ {
        Some(0x2F)
    } else if key == "KeyB"@ {
        Some(0x30)
    } else if key == "KeyN"@ {
        Some(0x31)
    } else if key == "KeyM"@ {
        Some(0x32)
    } else if key == "Comma"@ {
        Some(0x33)
    } else if key == "Dot"@ || key == "Period"@ {
        Some(0x34)
    } else if key == "Slash"@ {
        Some(0x35)
    } else if key == "ShiftRight"@ {
        Some(0x36)
    } else if key == "KpMultiply"@ {
        Some(0x37)
    } else if key == "Alt"@ {
        Some(0x38)
    } else if key == "Space"@ {
        Some(0x39)
    } else if key == "CapsLock"@ {
        Some(0x3A)
    } else if key == "F1"@ {
        Some(0x3B)
    } else if key == "F2"@ {
        Some(0x3C)
    } else if key == "F3"@ {
        Some(0x3D)
    } else if key == "F4"@ {
        Some(0x3E)
    } else if key == "F5"@ {
        Some(0x3F)
    } else if key == "F6"@ {
        Some(0x40)
    } else if key == "F7"@ {
        Some(0x41)
    } else if key == "F8"@ {
        Some(0x42)
    } else if key == "F9"@ {
        Some(0x43)
    } else if key == "F10"@ {
        Some(0x44)
    } else if key == "NumLock"@ {
        Some(0x45)
    } else if key == "ScrollLock"@ {
        Some(0x46)
    } else if key == "Kp7"@ {
        Some(0x47)
    } else if key == "Kp8"@ {
        Some(0x48)
    } else if key == "Kp9"@ {
        Some(0x49)
    } else if key == "KpMinus"@ {
        Some(0x4A)
    } else if key == "Kp4"@ {
        Some(0x4B)
    } else if key == "Kp5"@ {
        Some(0x4C)
    } else if key == "Kp6"@ {
        Some(0x4D)
    } else if key == "KpPlus"@ {
        Some(0x4E)
    } else if key == "Kp1"@ {
        Some(0x4F)
    } else if key == "Kp2"@ {
        Some(0x50)
    } else if key == "Kp3"@ {
        Some(0x51)
    } else if key == "Kp0"@ {
        Some(0x52)
    } else if key == "KpDelete"@ {
        Some(0x53)
    } else if key == "IntlBackslash"@ {
        Some(0x56)
    } else if key == "F11"@ {
        Some(0x57)
    } else if key == "F12"@ {
        Some(0x58)
    } else if key == "KpReturn"@ {
        Some(extended_scancode(0x1C))
    } else if key == "ControlRight"@ {
        Some(extended_scancode(0x1D))
    } else if key == "KpDivide"@ {
        Some(extended_scancode(0x35))
    } else if key == "PrintScreen"@ {
        Some(extended_scancode(0x37))
    } else if key == "AltGr"@ {
        Some(extended_scancode(0x38))
    } else if key == "Home"@ {
        Some(extended_scancode(0x47))
    } else if key == "UpArrow"@ || key == "ArrowUp"@ {
        Some(extended_scancode(0x48))
    } else if key == "PageUp"@ {
        Some(extended_scancode(0x49))
    } else if key == "LeftArrow"@ || key == "ArrowLeft"@ {
        Some(extended_scancode(0x4B))
    } else if key == "RightArrow"@ || key == "ArrowRight"@ {
        Some(extended_scancode(0x4D))
    } else if key == "End"@ {
        Some(extended_scancode(0x4F))
    } else if key == "DownArrow"@ || key == "ArrowDown"@ {
        Some(extended_scancode(0x50))
    } else if key == "PageDown"@ {
        Some(extended_scancode(0x51))
    } else if key == "Insert"@ {
        Some(extended_scancode(0x52))
    } else if key == "Delete"@ {
        Some(extended_scancode(0x53))
    } else if key == "MetaLeft"@ || key == "Meta"@ {
        Some(extended_scancode(0x5B))
    } else if key == "MetaRight"@ {
        Some(extended_scancode(0x5C))
    } else if key == "Pause"@ {
        Some(extended_scancode(0x45))
    } else {
        None
    }
}

/// The names the recorder gives the keys it names one by one; any other key
/// is recorded under its backend name.
pub open spec fn is_recorded_key_name(key: Seq<char>) -> bool {
    key == "F1"@
        || key == "F2"@
        || key == "F3"@
        || key == "F4"@
        || key == "F5"@
        || key == "F6"@
        || key == "F7"@
        || key == "F8"@
        || key == "F9"@
        || key == "F10"@
        || key == "F11"@
        || key == "F12"@
        || key == "Return"@
        || key == "Escape"@
        || key == "Backspace"@
        || key == "Tab"@
        || key == "Space"@
        || key == "Delete"@
        || key == "Insert"@
        || key == "Home"@
        || key == "End"@
        || key == "PageUp"@
        || key == "PageDown"@
        || key == "UpArrow"@
        || key == "DownArrow"@
        || key == "LeftArrow"@
        || key == "RightArrow"@
        || key == "CapsLock"@
        || key == "ShiftLeft"@
        || key == "ShiftRight"@
        || key == "ControlLeft"@
        || key == "ControlRight"@
        || key == "Alt"@
        || key == "AltGr"@
        || key == "MetaLeft"@
        || key == "MetaRight"@
        || key == "PrintScreen"@
        || key == "ScrollLock"@
        || key == "Pause"@
        || key == "NumLock"@
        || key == "KeyA"@
        || key == "KeyB"@
        || key == "KeyC"@
        || key == "KeyD"@
        || key == "KeyE"@
        || key == "KeyF"@
        || key == "KeyG"@
        || key == "KeyH"@
        || key == "KeyI"@
        || key == "KeyJ"@
        || key == "KeyK"@
        || key == "KeyL"@
        || key == "KeyM"@
        || key == "KeyN"@
        || key == "KeyO"@
        || key == "KeyP"@
        || key == "KeyQ"@
        || key == "KeyR"@
        || key == "KeyS"@
        || key == "KeyT"@
        || key == "KeyU"@
        || key == "KeyV"@
        || key == "KeyW"@
        || key == "KeyX"@
        || key == "KeyY"@
        || key == "KeyZ"@
        || key == "Num0"@
        || key == "Num1"@
        || key == "Num2"@
        || key == "Num3"@
        || key == "Num4"@
        || key == "Num5"@
        || key == "Num6"@
        || key == "Num7"@
        || key == "Num8"@
        || key == "Num9"@
        || key == "Minus"@
        || key == "Equal"@
        || key == "LeftBracket"@
        || key == "RightBracket"@
        || key == "BackSlash"@
        || key == "SemiColon"@
        || key == "Quote"@
        || key == "Comma"@
        || key == "Dot"@
        || key == "Slash"@
        || key == "Grave"@
}

/// The recorded key name that replays as the scan code `code`.
spec fn recorded_key_name_of(code: u16) -> Seq<char> {
    if code == 0x0001 {
        "Escape"@
    } else if code == 0x0002 {
        "Num1"@
    } else if code == 0x0003 {
        "Num2"@
    } else if code == 0x0004 {
        "Num3"@
    } else if code == 0x0005 {
        "Num4"@
    } else if code == 0x0006 {
        "Num5"@
    } else if code == 0x0007 {
        "Num6"@
    } else if code == 0x0008 {
        "Num7"@
    } else if code == 0x0009 {
        "Num8"@
    } else if code == 0x000A {
        "Num9"@
    } else if code == 0x000B {
        "Num0"@
    } else if code == 0x000C {
        "Minus"@
    } else if code == 0x000D {
        "Equal"@
    } else if code == 0x000E {
        "Backspace"@
    } else if code == 0x000F {
        "Tab"@
    } else if code == 0x0010 {
        "KeyQ"@
    } else if code == 0x0011 {
        "KeyW"@
    } else if code == 0x0012 {
        "KeyE"@
    } else if code == 0x0013 {
        "KeyR"@
    } else if code == 0x0014 {
        "KeyT"@
    } else if code == 0x0015 {
        "KeyY"@
    } else if code == 0x0016 {
        "KeyU"@
    } else if code == 0x0017 {
        "KeyI"@
    } else if code == 0x0018 {
        "KeyO"@
    } else if code == 0x0019 {
        "KeyP"@
    } else if code == 0x001A {
        "LeftBracket"@
    } else if code == 0x001B {
        "RightBracket"@
    } else if code == 0x001C {
        "Return"@
    } else if code == 0x001D {
        "ControlLeft"@
    } else if code == 0x001E {
        "KeyA"@
    } else if code == 0x001F {
        "KeyS"@
    } else if code == 0x0020 {
        "KeyD"@
    } else if code == 0x0021 {
        "KeyF"@
    } else if code == 0x0022 {
        "KeyG"@
    } else if code == 0x0023 {
        "KeyH"@
    } else if code == 0x0024 {
        "KeyJ"@
    } else if code == 0x0025 {
        "KeyK"@
    } else if code == 0x0026 {
        "KeyL"@
    } else if code == 0x0027 {
        "SemiColon"@
    } else if code == 0x0028 {
        "Quote"@
    } else if code == 0x0029 {
        "Grave"@
    } else if code == 0x002A {
        "ShiftLeft"@
    } else if code == 0x002B {
        "BackSlash"@
    } else if code == 0x002C {
        "KeyZ"@
    } else if code == 0x002D {
        "KeyX"@
    } else if code == 0x002E {
        "KeyC"@
    } else if code == 0x002F {
        "KeyV"@
    } else if code == 0x0030 {
        "KeyB"@
    } else if code == 0x0031 {
        "KeyN"@
    } else if code == 0x0032 {
        "KeyM"@
    } else if code == 0x0033 {
        "Comma"@
    } else if code == 0x0034 {
        "Dot"@
    } else if code == 0x0035 {
        "Slash"@
    } else if code == 0x0036 {
        "ShiftRight"@
    } else if code == 0x0038 {
        "Alt"@
    } else if code == 0x0039 {
        "Space"@
    } else if code == 0x003A {
        "CapsLock"@
    } else if code == 0x003B {
        "F1"@
    } else if code == 0x003C {
        "F2"@
    } else if code == 0x003D {
        "F3"@
    } else if code == 0x003E {
        "F4"@
    } else if code == 0x003F {
        "F5"@
    } else if code == 0x0040 {
        "F6"@
    } else if code == 0x0041 {
        "F7"@
    } else if code == 0x0042 {
        "F8"@
    } else if code == 0x0043 {
        "F9"@
    } else if code == 0x0044 {
        "F10"@
    } else if code == 0x0045 {
        "NumLock"@
    } else if code == 0x0046 {
        "ScrollLock"@
    } else if code == 0x0057 {
        "F11"@
    } else if code == 0x0058 {
        "F12"@
    } else if code == 0xFF1D {
        "ControlRight"@
    } else if code == 0xFF37 {
        "PrintScreen"@
    } else if code == 0xFF38 {
        "AltGr"@
    } else if code == 0xFF45 {
        "Pause"@
    } else if code == 0xFF47 {
        "Home"@
    } else if code == 0xFF48 {
        "UpArrow"@
    } else if code == 0xFF49 {
        "PageUp"@
    } else if code == 0xFF4B {
        "LeftArrow"@
    } else if code == 0xFF4D {
        "RightArrow"@
    } else if code == 0xFF4F {
        "End"@
    } else if code == 0xFF50 {
        "DownArrow"@
    } else if code == 0xFF51 {
        "PageDown"@
    } else if code == 0xFF52 {
        "Insert"@
    } else if code == 0xFF53 {
        "Delete"@
    } else if code == 0xFF5B {
        "MetaLeft"@
    } else if code == 0xFF5C {
        "MetaRight"@
    } else {
        Seq::empty()
    }
}

/// The names in the scan-code table that the recorder never gives.
spec fn is_other_table_name(key: Seq<char>) -> bool {
    key == "Esc"@
        || key == "Enter"@
        || key == "Control"@
        || key == "Semicolon"@
        || key == "BackQuote"@
        || key == "Shift"@
        || key == "Backslash"@
        || key == "Period"@
        || key == "KpMultiply"@
        || key == "Kp7"@
        || key == "Kp8"@
        || key == "Kp9"@
        || key == "KpMinus"@
        || key == "Kp4"@
        || key == "Kp5"@
        || key == "Kp6"@
        || key == "KpPlus"@
        || key == "Kp1"@
        || key == "Kp2"@
        || key == "Kp3"@
        || key == "Kp0"@
        || key == "KpDelete"@
        || key == "IntlBackslash"@
        || key == "KpReturn"@
        || key == "KpDivide"@
        || key == "ArrowUp"@
        || key == "ArrowLeft"@
        || key == "ArrowRight"@
        || key == "ArrowDown"@
        || key == "Meta"@
}

/// No recorded name is one of the table's other names. Each pair differs in
/// its length or, where the lengths agree, at the first position shown.
proof fn lemma_recorded_name_is_no_other_table_name(key: Seq<char>)
    requires
        is_recorded_key_name(key),
    ensures
        !is_other_table_name(key),
{
    reveal_strlit("F1");
    reveal_strlit("F2");
    reveal_strlit("F3");
    reveal_strlit("F4");
    reveal_strlit("F5");
    reveal_strlit("F6");
    reveal_strlit("F7");
    reveal_strlit("F8");
    reveal_strlit("F9");
    reveal_strlit("F10");
    reveal_strlit("F11");
    reveal_strlit("F12");
    reveal_strlit("Return");
    reveal_strlit("Escape");
    reveal_strlit("Backspace");
    reveal_strlit("Tab");
    reveal_strlit("Space");
    reveal_strlit("Delete");
    reveal_strlit("Insert");
    reveal_strlit("Home");
    reveal_strlit("End");
    reveal_strlit("PageUp");
    reveal_strlit("PageDown");
    reveal_strlit("UpArrow");
    reveal_strlit("DownArrow");
    reveal_strlit("LeftArrow");
    reveal_strlit("RightArrow");
    reveal_strlit("CapsLock");
    reveal_strlit("ShiftLeft");
    reveal_strlit("ShiftRight");
    reveal_strlit("ControlLeft");
    reveal_strlit("ControlRight");
    reveal_strlit("Alt");
    reveal_strlit("AltGr");
    reveal_strlit("MetaLeft");
    reveal_strlit("MetaRight");
    reveal_strlit("PrintScreen");
    reveal_strlit("ScrollLock");
    reveal_strlit("Pause");
    reveal_strlit("NumLock");
    reveal_strlit("KeyA");
    reveal_strlit("KeyB");
    reveal_strlit("KeyC");
    reveal_strlit("KeyD");
    reveal_strlit("KeyE");
    reveal_strlit("KeyF");
    reveal_strlit("KeyG");
    reveal_strlit("KeyH");
    reveal_strlit("KeyI");
    reveal_strlit("KeyJ");
    reveal_strlit("KeyK");
    reveal_strlit("KeyL");
    reveal_strlit("KeyM");
    reveal_strlit("KeyN");
    reveal_strlit("KeyO");
    reveal_strlit("KeyP");
    reveal_strlit("KeyQ");
    reveal_strlit("KeyR");
    reveal_strlit("KeyS");
    reveal_strlit("KeyT");
    reveal_strlit("KeyU");
    reveal_strlit("KeyV");
    reveal_strlit("KeyW");
    reveal_strlit("KeyX");
    reveal_strlit("KeyY");
    reveal_strlit("KeyZ");
    reveal_strlit("Num0");
    reveal_strlit("Num1");
    reveal_strlit("Num2");
    reveal_strlit("Num3");
    reveal_strlit("Num4");
    reveal_strlit("Num5");
    reveal_strlit("Num6");
    reveal_strlit("Num7");
    reveal_strlit("Num8");
    reveal_strlit("Num9");
    reveal_strlit("Minus");
    reveal_strlit("Equal");
    reveal_strlit("LeftBracket");
    reveal_strlit("RightBracket");
    reveal_strlit("BackSlash");
    reveal_strlit("SemiColon");
    reveal_strlit("Quote");
    reveal_strlit("Comma");
    reveal_strlit("Dot");
    reveal_strlit("Slash");
    reveal_strlit("Grave");
    reveal_strlit("Esc");
    reveal_strlit("Enter");
    reveal_strlit("Control");
    reveal_strlit("Semicolon");
    reveal_strlit("BackQuote");
    reveal_strlit("Shift");
    reveal_strlit("Backslash");
    reveal_strlit("Period");
    reveal_strlit("KpMultiply");
    reveal_strlit("Kp7");
    reveal_strlit("Kp8");
    reveal_strlit("Kp9");
    reveal_strlit("KpMinus");
    reveal_strlit("Kp4");
    reveal_strlit("Kp5");
    reveal_strlit("Kp6");
    reveal_strlit("KpPlus");
    reveal_strlit("Kp1");
    reveal_strlit("Kp2");
    reveal_strlit("Kp3");
    reveal_strlit("Kp0");
    reveal_strlit("KpDelete");
    reveal_strlit("IntlBackslash");
    reveal_strlit("KpReturn");
    reveal_strlit("KpDivide");
    reveal_strlit("ArrowUp");
    reveal_strlit("ArrowLeft");
    reveal_strlit("ArrowRight");
    reveal_strlit("ArrowDown");
    reveal_strlit("Meta");
    assert("F1"@.len() == 2);
    assert("F2"@.len() == 2);
    assert("F3"@.len() == 2);
    assert("F4"@.len() == 2);
    assert("F5"@.len() == 2);
    assert("F6"@.len() == 2);
    assert("F7"@.len() == 2);
    assert("F8"@.len() == 2);
    assert("F9"@.len() == 2);
    assert("F10"@.len() == 3);
    assert("F11"@.len() == 3);
    assert("F12"@.len() == 3);
    assert("Return"@.len() == 6);
    assert("Escape"@.len() == 6);
    assert("Backspace"@.len() == 9);
    assert("Tab"@.len() == 3);
    assert("Space"@.len() == 5);
    assert("Delete"@.len() == 6);
    assert("Insert"@.len() == 6);
    assert("Home"@.len() == 4);
    assert("End"@.len() == 3);
    assert("PageUp"@.len() == 6);
    assert("PageDown"@.len() == 8);
    assert("UpArrow"@.len() == 7);
    assert("DownArrow"@.len() == 9);
    assert("LeftArrow"@.len() == 9);
    assert("RightArrow"@.len() == 10);
    assert("CapsLock"@.len() == 8);
    assert("ShiftLeft"@.len() == 9);
    assert("ShiftRight"@.len() == 10);
    assert("ControlLeft"@.len() == 11);
    assert("ControlRight"@.len() == 12);
    assert("Alt"@.len() == 3);
    assert("AltGr"@.len() == 5);
    assert("MetaLeft"@.len() == 8);
    assert("MetaRight"@.len() == 9);
    assert("PrintScreen"@.len() == 11);
    assert("ScrollLock"@.len() == 10);
    assert("Pause"@.len() == 5);
    assert("NumLock"@.len() == 7);
    assert("KeyA"@.len() == 4);
    assert("KeyB"@.len() == 4);
    assert("KeyC"@.len() == 4);
    assert("KeyD"@.len() == 4);
    assert("KeyE"@.len() == 4);
    assert("KeyF"@.len() == 4);
    assert("KeyG"@.len() == 4);
    assert("KeyH"@.len() == 4);
    assert("KeyI"@.len() == 4);
    assert("KeyJ"@.len() == 4);
    assert("KeyK"@.len() == 4);
    assert("KeyL"@.len() == 4);
    assert("KeyM"@.len() == 4);
    assert("KeyN"@.len() == 4);
    assert("KeyO"@.len() == 4);
    assert("KeyP"@.len() == 4);
    assert("KeyQ"@.len() == 4);
    assert("KeyR"@.len() == 4);
    assert("KeyS"@.len() == 4);
    assert("KeyT"@.len() == 4);
    assert("KeyU"@.len() == 4);
    assert("KeyV"@.len() == 4);
    assert("KeyW"@.len() == 4);
    assert("KeyX"@.len() == 4);
    assert("KeyY"@.len() == 4);
    assert("KeyZ"@.len() == 4);
    assert("Num0"@.len() == 4);
    assert("Num1"@.len() == 4);
    assert("Num2"@.len() == 4);
    assert("Num3"@.len() == 4);
    assert("Num4"@.len() == 4);
    assert("Num5"@.len() == 4);
    assert("Num6"@.len() == 4);
    assert("Num7"@.len() == 4);
    assert("Num8"@.len() == 4);
    assert("Num9"@.len() == 4);
    assert("Minus"@.len() == 5);
    assert("Equal"@.len() == 5);
    assert("LeftBracket"@.len() == 11);
    assert("RightBracket"@.len() == 12);
    assert("BackSlash"@.len() == 9);
    assert("SemiColon"@.len() == 9);
    assert("Quote"@.len() == 5);
    assert("Comma"@.len() == 5);
    assert("Dot"@.len() == 3);
    assert("Slash"@.len() == 5);
    assert("Grave"@.len() == 5);
    assert("Esc"@.len() == 3);
    assert("Enter"@.len() == 5);
    assert("Control"@.len() == 7);
    assert("Semicolon"@.len() == 9);
    assert("BackQuote"@.len() == 9);
    assert("Shift"@.len() == 5);
    assert("Backslash"@.len() == 9);
    assert("Period"@.len() == 6);
    assert("KpMultiply"@.len() == 10);
    assert("Kp7"@.len() == 3);
    assert("Kp8"@.len() == 3);
    assert("Kp9"@.len() == 3);
    assert("KpMinus"@.len() == 7);
    assert("Kp4"@.len() == 3);
    assert("Kp5"@.len() == 3);
    assert("Kp6"@.len() == 3);
    assert("KpPlus"@.len() == 6);
    assert("Kp1"@.len() == 3);
    assert("Kp2"@.len() == 3);
    assert("Kp3"@.len() == 3);
    assert("Kp0"@.len() == 3);
    assert("KpDelete"@.len() == 8);
    assert("IntlBackslash"@.len() == 13);
    assert("KpReturn"@.len() == 8);
    assert("KpDivide"@.len() == 8);
    assert("ArrowUp"@.len() == 7);
    assert("ArrowLeft"@.len() == 9);
    assert("ArrowRight"@.len() == 10);
    assert("ArrowDown"@.len() == 9);
    assert("Meta"@.len() == 4);
    assert("F10"@[0] != "Esc"@[0]);
    assert("F10"@[0] != "Kp7"@[0]);
    assert("F10"@[0] != "Kp8"@[0]);
    assert("F10"@[0] != "Kp9"@[0]);
    assert("F10"@[0] != "Kp4"@[0]);
    assert("F10"@[0] != "Kp5"@[0]);
    assert("F10"@[0] != "Kp6"@[0]);
    assert("F10"@[0] != "Kp1"@[0]);
    assert("F10"@[0] != "Kp2"@[0]);
    assert("F10"@[0] != "Kp3"@[0]);
    assert("F10"@[0] != "Kp0"@[0]);
    assert("F11"@[0] != "Esc"@[0]);
    assert("F11"@[0] != "Kp7"@[0]);
    assert("F11"@[0] != "Kp8"@[0]);
    assert("F11"@[0] != "Kp9"@[0]);
    assert("F11"@[0] != "Kp4"@[0]);
    assert("F11"@[0] != "Kp5"@[0]);
    assert("F11"@[0] != "Kp6"@[0]);
    assert("F11"@[0] != "Kp1"@[0]);
    assert("F11"@[0] != "Kp2"@[0]);
    assert("F11"@[0] != "Kp3"@[0]);
    assert("F11"@[0] != "Kp0"@[0]);
    assert("F12"@[0] != "Esc"@[0]);
    assert("F12"@[0] != "Kp7"@[0]);
    assert("F12"@[0] != "Kp8"@[0]);
    assert("F12"@[0] != "Kp9"@[0]);
    assert("F12"@[0] != "Kp4"@[0]);
    assert("F12"@[0] != "Kp5"@[0]);
    assert("F12"@[0] != "Kp6"@[0]);
    assert("F12"@[0] != "Kp1"@[0]);
    assert("F12"@[0] != "Kp2"@[0]);
    assert("F12"@[0] != "Kp3"@[0]);
    assert("F12"@[0] != "Kp0"@[0]);
    assert("Return"@[0] != "Period"@[0]);
    assert("Return"@[0] != "KpPlus"@[0]);
    assert("Escape"@[0] != "Period"@[0]);
    assert("Escape"@[0] != "KpPlus"@[0]);
    assert("Backspace"@[0] != "Semicolon"@[0]);
    assert("Backspace"@[4] != "BackQuote"@[4]);
    assert("Backspace"@[5] != "Backslash"@[5]);
    assert("Backspace"@[0] != "ArrowLeft"@[0]);
    assert("Backspace"@[0] != "ArrowDown"@[0]);
    assert("Tab"@[0] != "Esc"@[0]);
    assert("Tab"@[0] != "Kp7"@[0]);
    assert("Tab"@[0] != "Kp8"@[0]);
    assert("Tab"@[0] != "Kp9"@[0]);
    assert("Tab"@[0] != "Kp4"@[0]);
    assert("Tab"@[0] != "Kp5"@[0]);
    assert("Tab"@[0] != "Kp6"@[0]);
    assert("Tab"@[0] != "Kp1"@[0]);
    assert("Tab"@[0] != "Kp2"@[0]);
    assert("Tab"@[0] != "Kp3"@[0]);
    assert("Tab"@[0] != "Kp0"@[0]);
    assert("Space"@[0] != "Enter"@[0]);
    assert("Space"@[1] != "Shift"@[1]);
    assert("Delete"@[0] != "Period"@[0]);
    assert("Delete"@[0] != "KpPlus"@[0]);
    assert("Insert"@[0] != "Period"@[0]);
    assert("Insert"@[0] != "KpPlus"@[0]);
    assert("Home"@[0] != "Meta"@[0]);
    assert("End"@[1] != "Esc"@[1]);
    assert("End"@[0] != "Kp7"@[0]);
    assert("End"@[0] != "Kp8"@[0]);
    assert("End"@[0] != "Kp9"@[0]);
    assert("End"@[0] != "Kp4"@[0]);
    assert("End"@[0] != "Kp5"@[0]);
    assert("End"@[0] != "Kp6"@[0]);
    assert("End"@[0] != "Kp1"@[0]);
    assert("End"@[0] != "Kp2"@[0]);
    assert("End"@[0] != "Kp3"@[0]);
    assert("End"@[0] != "Kp0"@[0]);
    assert("PageUp"@[1] != "Period"@[1]);
    assert("PageUp"@[0] != "KpPlus"@[0]);
    assert("PageDown"@[0] != "KpDelete"@[0]);
    assert("PageDown"@[0] != "KpReturn"@[0]);
    assert("PageDown"@[0] != "KpDivide"@[0]);
    assert("UpArrow"@[0] != "Control"@[0]);
    assert("UpArrow"@[0] != "KpMinus"@[0]);
    assert("UpArrow"@[0] != "ArrowUp"@[0]);
    assert("DownArrow"@[0] != "Semicolon"@[0]);
    assert("DownArrow"@[0] != "BackQuote"@[0]);
    assert("DownArrow"@[0] != "Backslash"@[0]);
    assert("DownArrow"@[0] != "ArrowLeft"@[0]);
    assert("DownArrow"@[0] != "ArrowDown"@[0]);
    assert("LeftArrow"@[0] != "Semicolon"@[0]);
    assert("LeftArrow"@[0] != "BackQuote"@[0]);
    assert("LeftArrow"@[0] != "Backslash"@[0]);
    assert("LeftArrow"@[0] != "ArrowLeft"@[0]);
    assert("LeftArrow"@[0] != "ArrowDown"@[0]);
    assert("RightArrow"@[0] != "KpMultiply"@[0]);
    assert("RightArrow"@[0] != "ArrowRight"@[0]);
    assert("CapsLock"@[0] != "KpDelete"@[0]);
    assert("CapsLock"@[0] != "KpReturn"@[0]);
    assert("CapsLock"@[0] != "KpDivide"@[0]);
    assert("ShiftLeft"@[1] != "Semicolon"@[1]);
    assert("ShiftLeft"@[0] != "BackQuote"@[0]);
    assert("ShiftLeft"@[0] != "Backslash"@[0]);
    assert("ShiftLeft"@[0] != "ArrowLeft"@[0]);
    assert("ShiftLeft"@[0] != "ArrowDown"@[0]);
    assert("ShiftRight"@[0] != "KpMultiply"@[0]);
    assert("ShiftRight"@[0] != "ArrowRight"@[0]);
    assert("Alt"@[0] != "Esc"@[0]);
    assert("Alt"@[0] != "Kp7"@[0]);
    assert("Alt"@[0] != "Kp8"@[0]);
    assert("Alt"@[0] != "Kp9"@[0]);
    assert("Alt"@[0] != "Kp4"@[0]);
    assert("Alt"@[0] != "Kp5"@[0]);
    assert("Alt"@[0] != "Kp6"@[0]);
    assert("Alt"@[0] != "Kp1"@[0]);
    assert("Alt"@[0] != "Kp2"@[0]);
    assert("Alt"@[0] != "Kp3"@[0]);
    assert("Alt"@[0] != "Kp0"@[0]);
    assert("AltGr"@[0] != "Enter"@[0]);
    assert("AltGr"@[0] != "Shift"@[0]);
    assert("MetaLeft"@[0] != "KpDelete"@[0]);
    assert("MetaLeft"@[0] != "KpReturn"@[0]);
    assert("MetaLeft"@[0] != "KpDivide"@[0]);
    assert("MetaRight"@[0] != "Semicolon"@[0]);
    assert("MetaRight"@[0] != "BackQuote"@[0]);
    assert("MetaRight"@[0] != "Backslash"@[0]);
    assert("MetaRight"@[0] != "ArrowLeft"@[0]);
    assert("MetaRight"@[0] != "ArrowDown"@[0]);
    assert("ScrollLock"@[0] != "KpMultiply"@[0]);
    assert("ScrollLock"@[0] != "ArrowRight"@[0]);
    assert("Pause"@[0] != "Enter"@[0]);
    assert("Pause"@[0] != "Shift"@[0]);
    assert("NumLock"@[0] != "Control"@[0]);
    assert("NumLock"@[0] != "KpMinus"@[0]);
    assert("NumLock"@[0] != "ArrowUp"@[0]);
    assert("KeyA"@[0] != "Meta"@[0]);
    assert("KeyB"@[0] != "Meta"@[0]);
    assert("KeyC"@[0] != "Meta"@[0]);
    assert("KeyD"@[0] != "Meta"@[0]);
    assert("KeyE"@[0] != "Meta"@[0]);
    assert("KeyF"@[0] != "Meta"@[0]);
    assert("KeyG"@[0] != "Meta"@[0]);
    assert("KeyH"@[0] != "Meta"@[0]);
    assert("KeyI"@[0] != "Meta"@[0]);
    assert("KeyJ"@[0] != "Meta"@[0]);
    assert("KeyK"@[0] != "Meta"@[0]);
    assert("KeyL"@[0] != "Meta"@[0]);
    assert("KeyM"@[0] != "Meta"@[0]);
    assert("KeyN"@[0] != "Meta"@[0]);
    assert("KeyO"@[0] != "Meta"@[0]);
    assert("KeyP"@[0] != "Meta"@[0]);
    assert("KeyQ"@[0] != "Meta"@[0]);
    assert("KeyR"@[0] != "Meta"@[0]);
    assert("KeyS"@[0] != "Meta"@[0]);
    assert("KeyT"@[0] != "Meta"@[0]);
    assert("KeyU"@[0] != "Meta"@[0]);
    assert("KeyV"@[0] != "Meta"@[0]);
    assert("KeyW"@[0] != "Meta"@[0]);
    assert("KeyX"@[0] != "Meta"@[0]);
    assert("KeyY"@[0] != "Meta"@[0]);
    assert("KeyZ"@[0] != "Meta"@[0]);
    assert("Num0"@[0] != "Meta"@[0]);
    assert("Num1"@[0] != "Meta"@[0]);
    assert("Num2"@[0] != "Meta"@[0]);
    assert("Num3"@[0] != "Meta"@[0]);
    assert("Num4"@[0] != "Meta"@[0]);
    assert("Num5"@[0] != "Meta"@[0]);
    assert("Num6"@[0] != "Meta"@[0]);
    assert("Num7"@[0] != "Meta"@[0]);
    assert("Num8"@[0] != "Meta"@[0]);
    assert("Num9"@[0] != "Meta"@[0]);
    assert("Minus"@[0] != "Enter"@[0]);
    assert("Minus"@[0] != "Shift"@[0]);
    assert("Equal"@[1] != "Enter"@[1]);
    assert("Equal"@[0] != "Shift"@[0]);
    assert("BackSlash"@[0] != "Semicolon"@[0]);
    assert("BackSlash"@[4] != "BackQuote"@[4]);
    assert("BackSlash"@[4] != "Backslash"@[4]);
    assert("BackSlash"@[0] != "ArrowLeft"@[0]);
    assert("BackSlash"@[0] != "ArrowDown"@[0]);
    assert("SemiColon"@[4] != "Semicolon"@[4]);
    assert("SemiColon"@[0] != "BackQuote"@[0]);
    assert("SemiColon"@[0] != "Backslash"@[0]);
    assert("SemiColon"@[0] != "ArrowLeft"@[0]);
    assert("SemiColon"@[0] != "ArrowDown"@[0]);
    assert("Quote"@[0] != "Enter"@[0]);
    assert("Quote"@[0] != "Shift"@[0]);
    assert("Comma"@[0] != "Enter"@[0]);
    assert("Comma"@[0] != "Shift"@[0]);
    assert("Dot"@[0] != "Esc"@[0]);
    assert("Dot"@[0] != "Kp7"@[0]);
    assert("Dot"@[0] != "Kp8"@[0]);
    assert("Dot"@[0] != "Kp9"@[0]);
    assert("Dot"@[0] != "Kp4"@[0]);
    assert("Dot"@[0] != "Kp5"@[0]);
    assert("Dot"@[0] != "Kp6"@[0]);
    assert("Dot"@[0] != "Kp1"@[0]);
    assert("Dot"@[0] != "Kp2"@[0]);
    assert("Dot"@[0] != "Kp3"@[0]);
    assert("Dot"@[0] != "Kp0"@[0]);
    assert("Slash"@[0] != "Enter"@[0]);
    assert("Slash"@[1] != "Shift"@[1]);
    assert("Grave"@[0] != "Enter"@[0]);
    assert("Grave"@[0] != "Shift"@[0]);
}

proof fn lemma_extended_scancode_value(code: u16)
    by (bit_vector)
    requires
        code < 0x100,
    ensures
        extended_scancode(code) == code + 0xFF00,
{
}

/// Each recorded key name replays as a scan code that names it back.
proof fn lemma_recorded_name_round_trip(key: Seq<char>)
    requires
        is_recorded_key_name(key),
    ensures
        spec_scancode(key) is Some,
        recorded_key_name_of(spec_scancode(key)->0) == key,
{
    lemma_recorded_name_is_no_other_table_name(key);
    lemma_extended_scancode_value(0x1D);
    lemma_extended_scancode_value(0x37);
    lemma_extended_scancode_value(0x38);
    lemma_extended_scancode_value(0x47);
    lemma_extended_scancode_value(0x48);
    lemma_extended_scancode_value(0x49);
    lemma_extended_scancode_value(0x4B);
    lemma_extended_scancode_value(0x4D);
    lemma_extended_scancode_value(0x4F);
    lemma_extended_scancode_value(0x50);
    lemma_extended_scancode_value(0x51);
    lemma_extended_scancode_value(0x52);
    lemma_extended_scancode_value(0x53);
    lemma_extended_scancode_value(0x5B);
    lemma_extended_scancode_value(0x5C);
    lemma_extended_scancode_value(0x45);
}

/// Two different key names that the recorder gives replay as two different
/// scan codes: a key that shares its code with a keypad key carries the
/// extended flag, so no two recorded keys are confused on playback.
pub proof fn lemma_recorded_keys_have_distinct_scancodes(a: Seq<char>, b: Seq<char>)
    requires
        is_recorded_key_name(a),
        is_recorded_key_name(b),
        a != b,
    ensures
        spec_scancode(a) is Some,
        spec_scancode(b) is Some,
        spec_scancode(a) != spec_scancode(b),
{
    lemma_recorded_name_round_trip(a);
    lemma_recorded_name_round_trip(b);
}

/// The scan code the player sends for a key name, `None` for a key it cannot replay.
pub fn key_to_scancode(key: &str) -> (code: Option<u16>)
    ensures
        code == spec_scancode(key@),
{
    if same_text(key, "Escape") || same_text(key, "Esc") {
        Some(0x01)
    } else if same_text(key, "Num1") {
        Some(0x02)
    } else if same_text(key, "Num2") {
        Some(0x03)
    } else if same_text(key, "Num3") {
        Some(0x04)
    } else if same_text(key, "Num4") {
        Some(0x05)
    } else if same_text(key, "Num5") {
        Some(0x06)
    } else if same_text(key, "Num6") {
        Some(0x07)
    } else if same_text(key, "Num7") {
        Some(0x08)
    } else if same_text(key, "Num8") {
        Some(0x09)
    } else if same_text(key, "Num9") {
        Some(0x0A)
    } else if same_text(key, "Num0") {
        Some(0x0B)
    } else if same_text(key, "Minus") {
        Some(0x0C)
    } else if same_text(key, "Equal") {
        Some(0x0D)
    } else if same_text(key, "Backspace") {
        Some(0x0E)
    } else if same_text(key, "Tab") {
        Some(0x0F)
    } else if same_text(key, "KeyQ") {
        Some(0x10)
    } else if same_text(key, "KeyW") {
        Some(0x11)
    } else if same_text(key, "KeyE") {
        Some(0x12)
    } else if same_text(key, "KeyR") {
        Some(0x13)
    } else if same_text(key, "KeyT") {
        Some(0x14)
    } else if same_text(key, "KeyY") {
        Some(0x15)
    } else if same_text(key, "KeyU") {
        Some(0x16)
    } else if same_text(key, "KeyI") {
        Some(0x17)
    } else if same_text(key, "KeyO") {
        Some(0x18)
    } else if same_text(key, "KeyP") {
        Some(0x19)
    } else if same_text(key, "LeftBracket") {
        Some(0x1A)
    } else if same_text(key, "RightBracket") {
        Some(0x1B)
    } else if same_text(key, "Return") || same_text(key, "Enter") {
        Some(0x1C)
    } else if same_text(key, "ControlLeft") || same_text(key, "Control") {
        Some(0x1D)
    } else if same_text(key, "KeyA") {
        Some(0x1E)
    } else if same_text(key, "KeyS") {
        Some(0x1F)
    } else if same_text(key, "KeyD") {
        Some(0x20)
    } else if same_text(key, "KeyF") {
        Some(0x21)
    } else if same_text(key, "KeyG") {
        Some(0x22)
    } else if same_text(key, "KeyH") {
        Some(0x23)
    } else if same_text(key, "KeyJ") {
        Some(0x24)
    } else if same_text(key, "KeyK") {
        Some(0x25)
    } else if same_text(key, "KeyL") {
        Some(0x26)
    } else if same_text(key, "SemiColon") || same_text(key, "Semicolon") {
        Some(0x27)
    } else if same_text(key, "Quote") {
        Some(0x28)
    } else if same_text(key, "Grave") || same_text(key, "BackQuote") {
        Some(0x29)
    } else if same_text(key, "ShiftLeft") || same_text(key, "Shift") {
        Some(0x2A)
    } else if same_text(key, "BackSlash") || same_text(key, "Backslash") {
        Some(0x2B)
    } else if same_text(key, "KeyZ") {
        Some(0x2C)
    } else if same_text(key, "KeyX") {
        Some(0x2D)
    } else if same_text(key, "KeyC") {
        Some(0x2E)
    } else if same_text(key, "KeyV") {
        Some(0x2F)
    } else if same_text(key, "KeyB") {
        Some(0x30)
    } else if same_text(key, "KeyN") {
        Some(0x31)
    } else if same_text(key, "KeyM") {
        Some(0x32)
    } else if same_text(key, "Comma") {
        Some(0x33)
    } else if same_text(key, "Dot") || same_text(key, "Period") {
        Some(0x34)
    } else if same_text(key, "Slash") {
        Some(0x35)
    } else if same_text(key, "ShiftRight") {
        Some(0x36)
    } else if same_text(key, "KpMultiply") {
        Some(0x37)
    } else if same_text(key, "Alt") {
        Some(0x38)
    } else if same_text(key, "Space") {
        Some(0x39)
    } else if same_text(key, "CapsLock") {
        Some(0x3A)
    } else if same_text(key, "F1") {
        Some(0x3B)
    } else if same_text(key, "F2") {
        Some(0x3C)
    } else if same_text(key, "F3") {
        Some(0x3D)
    } else if same_text(key, "F4") {
        Some(0x3E)
    } else if same_text(key, "F5") {
        Some(0x3F)
    } else if same_text(key, "F6") {
        Some(0x40)
    } else if same_text(key, "F7") {
        Some(0x41)
    } else if same_text(key, "F8") {
        Some(0x42)
    } else if same_text(key, "F9") {
        Some(0x43)
    } else if same_text(key, "F10") {
        Some(0x44)
    } else if same_text(key, "NumLock") {
        Some(0x45)
    } else if same_text(key, "ScrollLock") {
        Some(0x46)
    } else if same_text(key, "Kp7") {
        Some(0x47)
    } else if same_text(key, "Kp8") {
        Some(0x48)
    } else if same_text(key, "Kp9") {
        Some(0x49)
    } else if same_text(key, "KpMinus") {
        Some(0x4A)
    } else if same_text(key, "Kp4") {
        Some(0x4B)
    } else if same_text(key, "Kp5") {
        Some(0x4C)
    } else if same_text(key, "Kp6") {
        Some(0x4D)
    } else if same_text(key, "KpPlus") {
        Some(0x4E)
    } else if same_text(key, "Kp1") {
        Some(0x4F)
    } else if same_text(key, "Kp2") {
        Some(0x50)
    } else if same_text(key, "Kp3") {
        Some(0x51)
    } else if same_text(key, "Kp0") {
        Some(0x52)
    } else if same_text(key, "KpDelete") {
        Some(0x53)
    } else if same_text(key, "IntlBackslash") {
        Some(0x56)
    } else if same_text(key, "F11") {
        Some(0x57)
    } else if same_text(key, "F12") {
        Some(0x58)
    } else if same_text(key, "KpReturn") {
        Some(0x1C | EXTENDED_SCANCODE_FLAG)
    } else if same_text(key, "ControlRight") {
        Some(0x1D | EXTENDED_SCANCODE_FLAG)
    } else if same_text(key, "KpDivide") {
        Some(0x35 | EXTENDED_SCANCODE_FLAG)
    } else if same_text(key, "PrintScreen") {
        Some(0x37 | EXTENDED_SCANCODE_FLAG)
    } else if same_text(key, "AltGr") {
        Some(0x38 | EXTENDED_SCANCODE_FLAG)
    } else if same_text(key, "Home") {
        Some(0x47 | EXTENDED_SCANCODE_FLAG)
    } else if same_text(key, "UpArrow") || same_text(key, "ArrowUp") {
        Some(0x48 | EXTENDED_SCANCODE_FLAG)
    } else if same_text(key, "PageUp") {
        Some(0x49 | EXTENDED_SCANCODE_FLAG)
    } else if same_text(key, "LeftArrow") || same_text(key, "ArrowLeft") {
        Some(0x4B | EXTENDED_SCANCODE_FLAG)
    } else if same_text(key, "RightArrow") || same_text(key, "ArrowRight") {
        Some(0x4D | EXTENDED_SCANCODE_FLAG)
    } else if same_text(key, "End") {
        Some(0x4F | EXTENDED_SCANCODE_FLAG)
    } else if same_text(key, "DownArrow") || same_text(key, "ArrowDown") {
        Some(0x50 | EXTENDED_SCANCODE_FLAG)
    } else if same_text(key, "PageDown") {
        Some(0x51 | EXTENDED_SCANCODE_FLAG)
    } else if same_text(key, "Insert") {
        Some(0x52 | EXTENDED_SCANCODE_FLAG)
    } else if same_text(key, "Delete") {
        Some(0x53 | EXTENDED_SCANCODE_FLAG)
    } else if same_text(key, "MetaLeft") || same_text(key, "Meta") {
        Some(0x5B | EXTENDED_SCANCODE_FLAG)
    } else if same_text(key, "MetaRight") {
        Some(0x5C | EXTENDED_SCANCODE_FLAG)
    } else if same_text(key, "Pause") {
        Some(0x45 | EXTENDED_SCANCODE_FLAG)
    } else {
        None
    }
}

/// One thing the player does to the mouse or keyboard.
#[derive(Clone, Copy, Debug, PartialEq, Eq, Structural)]
pub enum DeviceAction {
    /// Move the pointer to absolute screen coordinates.
    MoveMouse { x: i32, y: i32 },
    /// Press (`press`) or release a mouse button.
    Button { button: MouseButton, press: bool },
    /// Turn the wheel by `amount` on the horizontal or the vertical axis.
    Scroll { amount: i32, horizontal: bool },
    /// Press or release the key with the given scan code.
    Key { scancode: u16, press: bool },
}

/// The device actions that replay an event: a move, a button press or
/// release, a scroll on each axis with a non-zero delta, or a key press or
/// release when the key has a scan code (other keys are skipped).
pub open spec fn spec_device_actions(kind: EventKindView) -> Seq<DeviceAction> {
    match kind {
        EventKindView::MouseMove { x, y } => seq![DeviceAction::MoveMouse { x, y }],
        EventKindView::MouseDown { button } => seq![DeviceAction::Button { button, press: true }],
        EventKindView::MouseUp { button } => seq![DeviceAction::Button { button, press: false }],
        EventKindView::Scroll { delta_x, delta_y } => (if delta_x != 0 {
            seq![DeviceAction::Scroll { amount: delta_x, horizontal: true }]
        } else {
            Seq::empty()
        }) + (if delta_y != 0 {
            seq![DeviceAction::Scroll { amount: delta_y, horizontal: false }]
        } else {
            Seq::empty()
        }),
        EventKindView::KeyDown { key } => match spec_scancode(key) {
            Some(scancode) => seq![DeviceAction::Key { scancode, press: true }],
            None => Seq::empty(),
        },
        EventKindView::KeyUp { key } => match spec_scancode(key) {
            Some(scancode) => seq![DeviceAction::Key { scancode, press: false }],
            None => Seq::empty(),
        },
    }
}

/// Law: a key event replays as exactly one action on the key's scan code,
/// pressing it on a key-down and releasing it on a key-up, so a replayed
/// key-down and key-up of the same key press and then release the same key;
/// a key without a scan code replays as nothing. A mouse button event
/// likewise presses the button on a button-down and releases it on a
/// button-up, and a move goes to the recorded point.
pub proof fn lemma_replay_presses_then_releases(key: Seq<char>, button: MouseButton, x: i32, y: i32)
    ensures
        match spec_scancode(key) {
            Some(code) => {
                let down = spec_device_actions(EventKindView::KeyDown { key });
                let up = spec_device_actions(EventKindView::KeyUp { key });
                &&& down.len() == 1
                &&& up.len() == 1
                &&& down[0] == DeviceAction::Key { scancode: code, press: true }
                &&& up[0] == DeviceAction::Key { scancode: code, press: false }
                &&& down + up == seq![
                    DeviceAction::Key { scancode: code, press: true },
                    DeviceAction::Key { scancode: code, press: false },
                ]
            },
            None => {
                &&& spec_device_actions(EventKindView::KeyDown { key }).len() == 0
                &&& spec_device_actions(EventKindView::KeyUp { key }).len() == 0
            },
        },
        spec_device_actions(EventKindView::MouseDown { button }) == seq![
            DeviceAction::Button { button, press: true },
        ],
        spec_device_actions(EventKindView::MouseUp { button }) == seq![
            DeviceAction::Button { button, press: false },
        ],
        spec_device_actions(EventKindView::MouseMove { x, y }) == seq![
            DeviceAction::MoveMouse { x, y },
        ],
{
    match spec_scancode(key) {
        Some(code) => {
            assert(spec_device_actions(EventKindView::KeyDown { key }) + spec_device_actions(
                EventKindView::KeyUp { key },
            ) =~= seq![
                DeviceAction::Key { scancode: code, press: true },
                DeviceAction::Key { scancode: code, press: false },
            ]);
        },
        None => {},
    }
}

/// The device actions that replay `event`.
pub fn dispatch_actions(event: &InputEvent) -> (actions: Vec<DeviceAction>)
    ensures
        actions@ == spec_device_actions(event.kind@),
{
    let mut actions: Vec<DeviceAction> = Vec::new();
    match &event.kind {
        EventKind::MouseMove { x, y } => {
            actions.push(DeviceAction::MoveMouse { x: *x, y: *y });
        },
        EventKind::MouseDown { button } => {
            actions.push(DeviceAction::Button { button: *button, press: true });
        },
        EventKind::MouseUp { button } => {
            actions.push(DeviceAction::Button { button: *button, press: false });
        },
        EventKind::Scroll { delta_x, delta_y } => {
            if *delta_x != 0 {
                actions.push(DeviceAction::Scroll { amount: *delta_x, horizontal: true });
            }
            if *delta_y != 0 {
                actions.push(DeviceAction::Scroll { amount: *delta_y, horizontal: false });
            }
        },
        EventKind::KeyDown { key } => {
            match key_to_scancode(key.as_str()) {
                Some(scancode) => actions.push(DeviceAction::Key { scancode, press: true }),
                None => {},
            }
        },
        EventKind::KeyUp { key } => {
            match key_to_scancode(key.as_str()) {
                Some(scancode) => actions.push(DeviceAction::Key { scancode, press: false }),
                None => {},
            }
        },
    }
    proof {
        assert(actions@ =~= spec_device_actions(event.kind@));
    }
    actions
}

/// The real-time delay, in nanoseconds, for a recorded gap of `delta_ms`
/// milliseconds at `speed_percent` percent of the recorded speed (a speed of
/// 0 counts as 1 percent): the gap divided by the speed, rounded down to the
/// nanosecond.
pub open spec fn spec_scaled_delay_ns(delta_ms: u64, speed_percent: u32) -> u128 {
    let speed: int = if speed_percent == 0 { 1 } else { speed_percent as int };
    ((delta_ms as int * 100_000_000) / speed) as u128
}

/// The real-time delay, in nanoseconds, for a recorded gap at the given speed.
pub fn scaled_delay_ns(delta_ms: u64, speed_percent: u32) -> (delay_ns: u128)
    ensures
        delay_ns == spec_scaled_delay_ns(delta_ms, speed_percent),
{
    let speed: u128 = if speed_percent == 0 { 1 } else { speed_percent as u128 };
    (delta_ms as u128) * 100_000_000 / speed
}

/// What the next step of a playback is.
#[derive(Debug)]
pub enum PlaybackStep {
    /// Wait `delta_ms` recorded milliseconds, then replay `event`.
    Dispatch { event: InputEvent, delta_ms: u64 },
    /// The playback is over.
    Finished,
}

/// The view of a [`PlaybackStep`]: the event and the gap, or `None` at the end.
pub open spec fn step_view(step: PlaybackStep) -> Option<(InputEventView, u64)> {
    match step {
        PlaybackStep::Dispatch { event, delta_ms } => Some((event@, delta_ms)),
        PlaybackStep::Finished => None,
    }
}

/// Where a playback stands: the events, the loop mode (counted down pass by
/// pass), the position in the current pass, the time stamp of the event
/// replayed last in this pass, and whether it is over.
pub struct Playback {
    events: Vec<InputEvent>,
    loop_mode: LoopMode,
    position: usize,
    previous_timestamp_ms: u64,
    finished: bool,
}

/// The view of a [`Playback`].
pub struct PlaybackView {
    pub events: Seq<InputEventView>,
    pub loop_mode: LoopMode,
    pub position: nat,
    pub previous_timestamp_ms: u64,
    pub finished: bool,
}

impl View for Playback {
    type V = PlaybackView;

    closed spec fn view(&self) -> PlaybackView {
        PlaybackView {
            events: crate::models::events_view(self.events@),
            loop_mode: self.loop_mode,
            position: self.position as nat,
            previous_timestamp_ms: self.previous_timestamp_ms,
            finished: self.finished,
        }
    }
}

/// Whether a playback view is consistent: the position lies within the
/// events, and a playback that is not over has events.
pub open spec fn playback_wf(p: PlaybackView) -> bool {
    &&& p.position <= p.events.len()
    &&& !p.finished ==> p.events.len() > 0
}

/// `a - b`, stopping at 0.
pub open spec fn gap(a: u64, b: u64) -> u64 {
    if a >= b { (a - b) as u64 } else { 0 }
}

/// One step of a playback: the next event of the pass with its gap to the
/// previous one (the first event of a pass counts from 0); at the end of a
/// pass either the next pass begins or the playback is over.
pub open spec fn spec_advance(p: PlaybackView) -> (PlaybackView, Option<(InputEventView, u64)>) {
    if p.finished {
        (p, None)
    } else if p.position < p.events.len() {
        let e = p.events[p.position as int];
        (
            PlaybackView { position: p.position + 1, previous_timestamp_ms: e.timestamp_ms, ..p },
            Some((e, gap(e.timestamp_ms, p.previous_timestamp_ms))),
        )
    } else {
        let (again, mode) = after_pass(p.loop_mode);
        if again {
            let e = p.events[0];
            (
                PlaybackView {
                    loop_mode: mode,
                    position: 1,
                    previous_timestamp_ms: e.timestamp_ms,
                    ..p
                },
                Some((e, e.timestamp_ms)),
            )
        } else {
            (PlaybackView { loop_mode: mode, finished: true, ..p }, None)
        }
    }
}

/// The number of events a playback still replays, `None` when it never ends.
pub open spec fn steps_remaining(p: PlaybackView) -> Option<nat> {
    if p.finished {
        Some(0)
    } else {
        match passes_after_current(p.loop_mode) {
            Some(k) => Some((p.events.len() - p.position) as nat + k * p.events.len()),
            None => None,
        }
    }
}

impl Playback {
    #[verifier::type_invariant]
    closed spec fn inv(self) -> bool {
        &&& self.position <= self.events.len()
        &&& !self.finished ==> self.events.len() > 0
    }

    /// A playback of `events` under `loop_mode`, at the start of its first pass.
    pub fn new(events: Vec<InputEvent>, loop_mode: LoopMode) -> (playback: Self)
        ensures
            playback@ == (PlaybackView {
                events: crate::models::events_view(events@),
                loop_mode,
                position: 0,
                previous_timestamp_ms: 0,
                finished: events@.len() == 0,
            }),
            playback_wf(playback@),
    {
        let finished = events.len() == 0;
        Playback { events, loop_mode, position: 0, previous_timestamp_ms: 0, finished }
    }

    /// Moves the playback on by one step.
    pub fn advance(&mut self) -> (step: PlaybackStep)
        ensures
            (final(self)@, step_view(step)) == spec_advance(old(self)@),
            playback_wf(final(self)@),
    {
        proof {
            use_type_invariant(&*self);
        }
        if self.finished {
            return PlaybackStep::Finished;
        }
        if self.position >= self.events.len() {
            let mut mode = self.loop_mode;
            let again = next_loop(&mut mode);
            self.loop_mode = mode;
            if !again {
                self.finished = true;
                return PlaybackStep::Finished;
            }
            self.position = 0;
            self.previous_timestamp_ms = 0;
        }
        let event = self.events[self.position].clone();
        let delta_ms = event.timestamp_ms.saturating_sub(self.previous_timestamp_ms);
        self.previous_timestamp_ms = event.timestamp_ms;
        self.position = self.position + 1;
        PlaybackStep::Dispatch { event, delta_ms }
    }

    /// Stops the playback where it stands: it replays nothing more.
    pub fn stop(&mut self)
        ensures
            final(self)@ == (PlaybackView { finished: true, ..old(self)@ }),
            playback_wf(final(self)@),
    {
        proof {
            use_type_invariant(&*self);
        }
        self.finished = true;
    }
}

/// Law: a stopped playback replays nothing more, however often it is moved
/// on, and it keeps its events and where it stood.
pub proof fn lemma_stopped_playback_replays_nothing(p: PlaybackView)
    requires
        playback_wf(p),
    ensures
        ({
            let stopped = PlaybackView { finished: true, ..p };
            &&& spec_advance(stopped) == (stopped, None::<(InputEventView, u64)>)
            &&& steps_remaining(stopped) == Some(0nat)
        }),
{
}

/// Law: each step replays one of the remaining events, the playback ends
/// exactly when none remain, and an endless playback never ends.
pub proof fn lemma_advance_counts_down(p: PlaybackView)
    requires
        playback_wf(p),
    ensures
        playback_wf(spec_advance(p).0),
        match steps_remaining(p) {
            Some(n) => {
                &&& (n == 0 <==> spec_advance(p).1 is None)
                &&& n > 0 ==> steps_remaining(spec_advance(p).0) == Some((n - 1) as nat)
                &&& n == 0 ==> steps_remaining(spec_advance(p).0) == Some(0nat)
            },
            None => {
                &&& spec_advance(p).1 is Some
                &&& steps_remaining(spec_advance(p).0) is None
            },
        },
{
    let len = p.events.len();
    if !p.finished && p.position >= len {
        match passes_after_current(p.loop_mode) {
            Some(k) => {
                if k > 0 {
                    assert(k * len == len + (k - 1) * len) by (nonlinear_arith)
                        requires
                            k > 0,
                    ;
                }
            },
            None => {},
        }
    }
}

/// Law: a new playback replays its events once per pass that its loop mode
/// asks for, and an endless one with events never ends.
pub proof fn lemma_playback_length(events: Seq<InputEventView>, loop_mode: LoopMode)
    ensures
        steps_remaining(
            PlaybackView {
                events,
                loop_mode,
                position: 0,
                previous_timestamp_ms: 0,
                finished: events.len() == 0,
            },
        ) == if events.len() == 0 {
            Some(0nat)
        } else {
            match total_passes(loop_mode) {
                Some(t) => Some(t * events.len()),
                None => None,
            }
        },
{
    let len = events.len();
    match passes_after_current(loop_mode) {
        Some(k) => {
            assert(len + k * len == (k + 1) * len) by (nonlinear_arith);
        },
        None => {},
    }
}

} // verus!
