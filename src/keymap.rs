use vstd::prelude::*;

verus! {

/// The USB HID usage that a Linux input key code stands for, where the table
/// has one. Media and other exotic keys have none and are ignored.
pub open spec fn usage_for_key(code: u16) -> Option<u8> {
    match code {
        1 => Some(0x29u8),  // KEY_ESC: KeyboardEscape
        2 => Some(0x1Eu8),  // KEY_1: Keyboard1Exclamation
        3 => Some(0x1Fu8),  // KEY_2: Keyboard2At
        4 => Some(0x20u8),  // KEY_3: Keyboard3Hash
        5 => Some(0x21u8),  // KEY_4: Keyboard4Dollar
        6 => Some(0x22u8),  // KEY_5: Keyboard5Percent
        7 => Some(0x23u8),  // KEY_6: Keyboard6Caret
        8 => Some(0x24u8),  // KEY_7: Keyboard7Ampersand
        9 => Some(0x25u8),  // KEY_8: Keyboard8Asterisk
        10 => Some(0x26u8),  // KEY_9: Keyboard9OpenParens
        11 => Some(0x27u8),  // KEY_0: Keyboard0CloseParens
        12 => Some(0x2Du8),  // KEY_MINUS: KeyboardDashUnderscore
        13 => Some(0x2Eu8),  // KEY_EQUAL: KeyboardEqualPlus
        14 => Some(0x2Au8),  // KEY_BACKSPACE: KeyboardBackspace
        15 => Some(0x2Bu8),  // KEY_TAB: KeyboardTab
        16 => Some(0x14u8),  // KEY_Q: KeyboardQq
        17 => Some(0x1Au8),  // KEY_W: KeyboardWw
        18 => Some(0x08u8),  // KEY_E: KeyboardEe
        19 => Some(0x15u8),  // KEY_R: KeyboardRr
        20 => Some(0x17u8),  // KEY_T: KeyboardTt
        21 => Some(0x1Cu8),  // KEY_Y: KeyboardYy
        22 => Some(0x18u8),  // KEY_U: KeyboardUu
        23 => Some(0x0Cu8),  // KEY_I: KeyboardIi
        24 => Some(0x12u8),  // KEY_O: KeyboardOo
        25 => Some(0x13u8),  // KEY_P: KeyboardPp
        26 => Some(0x2Fu8),  // KEY_LEFTBRACE: KeyboardOpenBracketBrace
        27 => Some(0x30u8),  // KEY_RIGHTBRACE: KeyboardCloseBracketBrace
        28 => Some(0x28u8),  // KEY_ENTER: KeyboardEnter
        29 => Some(0xE0u8),  // KEY_LEFTCTRL: KeyboardLeftControl
        30 => Some(0x04u8),  // KEY_A: KeyboardAa
        31 => Some(0x16u8),  // KEY_S: KeyboardSs
        32 => Some(0x07u8),  // KEY_D: KeyboardDd
        33 => Some(0x09u8),  // KEY_F: KeyboardFf
        34 => Some(0x0Au8),  // KEY_G: KeyboardGg
        35 => Some(0x0Bu8),  // KEY_H: KeyboardHh
        36 => Some(0x0Du8),  // KEY_J: KeyboardJj
        37 => Some(0x0Eu8),  // KEY_K: KeyboardKk
        38 => Some(0x0Fu8),  // KEY_L: KeyboardLl
        39 => Some(0x33u8),  // KEY_SEMICOLON: KeyboardSemiColon
        40 => Some(0x34u8),  // KEY_APOSTROPHE: KeyboardSingleDoubleQuote
        41 => Some(0x35u8),  // KEY_GRAVE: KeyboardBacktickTilde
        42 => Some(0xC5u8),  // KEY_LEFTSHIFT: KeypadLeftShift
        43 => Some(0x32u8),  // KEY_BACKSLASH: KeyboardNonUSHash
        44 => Some(0x1Du8),  // KEY_Z: KeyboardZz
        45 => Some(0x1Bu8),  // KEY_X: KeyboardXx
        46 => Some(0x06u8),  // KEY_C: KeyboardCc
        47 => Some(0x19u8),  // KEY_V: KeyboardVv
        48 => Some(0x05u8),  // KEY_B: KeyboardBb
        49 => Some(0x11u8),  // KEY_N: KeyboardNn
        50 => Some(0x10u8),  // KEY_M: KeyboardMm
        51 => Some(0x36u8),  // KEY_COMMA: KeyboardCommaLess
        52 => Some(0x37u8),  // KEY_DOT: KeyboardPeriodGreater
        53 => Some(0x38u8),  // KEY_SLASH: KeyboardSlashQuestion
        54 => Some(0xE5u8),  // KEY_RIGHTSHIFT: KeyboardRightShift
        55 => Some(0x55u8),  // KEY_KPASTERISK: KeypadMultiply
        56 => Some(0xE2u8),  // KEY_LEFTALT: KeyboardLeftAlt
        57 => Some(0x2Cu8),  // KEY_SPACE: KeyboardSpacebar
        58 => Some(0x39u8),  // KEY_CAPSLOCK: KeyboardCapsLock
        59 => Some(0x3Au8),  // KEY_F1: KeyboardF1
        60 => Some(0x3Bu8),  // KEY_F2: KeyboardF2
        61 => Some(0x3Cu8),  // KEY_F3: KeyboardF3
        62 => Some(0x3Du8),  // KEY_F4: KeyboardF4
        63 => Some(0x3Eu8),  // KEY_F5: KeyboardF5
        64 => Some(0x3Fu8),  // KEY_F6: KeyboardF6
        65 => Some(0x40u8),  // KEY_F7: KeyboardF7
        66 => Some(0x41u8),  // KEY_F8: KeyboardF8
        67 => Some(0x42u8),  // KEY_F9: KeyboardF9
        68 => Some(0x43u8),  // KEY_F10: KeyboardF10
        69 => Some(0x53u8),  // KEY_NUMLOCK: KeypadNumLock
        70 => Some(0x47u8),  // KEY_SCROLLLOCK: KeyboardScrollLock
        71 => Some(0x5Fu8),  // KEY_KP7: Keypad7Home
        72 => Some(0x60u8),  // KEY_KP8: Keypad8UpArrow
        73 => Some(0x61u8),  // KEY_KP9: Keypad9PageUp
        74 => Some(0x56u8),  // KEY_KPMINUS: KeypadMinus
        75 => Some(0x5Cu8),  // KEY_KP4: Keypad4LeftArrow
        76 => Some(0x5Du8),  // KEY_KP5: Keypad5
        77 => Some(0x5Eu8),  // KEY_KP6: Keypad6RightArrow
        78 => Some(0x57u8),  // KEY_KPPLUS: KeypadPlus
        79 => Some(0x59u8),  // KEY_KP1: Keypad1End
        80 => Some(0x5Au8),  // KEY_KP2: Keypad2DownArrow
        81 => Some(0x5Bu8),  // KEY_KP3: Keypad3PageDown
        82 => Some(0x62u8),  // KEY_KP0: Keypad0Insert
        83 => Some(0x63u8),  // KEY_KPDOT: KeypadPeriodDelete
        85 => Some(0x94u8),  // KEY_ZENKAKUHANKAKU: KeyboardLANG5
        86 => Some(0x64u8),  // KEY_102ND: KeyboardNonUSSlash
        87 => Some(0x44u8),  // KEY_F11: KeyboardF11
        88 => Some(0x45u8),  // KEY_F12: KeyboardF12
        89 => Some(0x87u8),  // KEY_RO: KeyboardInternational1
        90 => Some(0x92u8),  // KEY_KATAKANA: KeyboardLANG3
        91 => Some(0x93u8),  // KEY_HIRAGANA: KeyboardLANG4
        92 => Some(0x8Au8),  // KEY_HENKAN: KeyboardInternational4
        93 => Some(0x88u8),  // KEY_KATAKANAHIRAGANA: KeyboardInternational2
        94 => Some(0x8Bu8),  // KEY_MUHENKAN: KeyboardInternational5
        95 => Some(0x8Cu8),  // KEY_KPJPCOMMA: KeyboardInternational6
        96 => Some(0x58u8),  // KEY_KPENTER: KeypadEnter
        97 => Some(0xE4u8),  // KEY_RIGHTCTRL: KeyboardRightControl
        98 => Some(0x54u8),  // KEY_KPSLASH: KeypadDivide
        99 => Some(0x46u8),  // KEY_SYSRQ: KeyboardPrintScreen
        100 => Some(0xE6u8),  // KEY_RIGHTALT: KeyboardRightAlt
        102 => Some(0x4Au8),  // KEY_HOME: KeyboardHome
        103 => Some(0x52u8),  // KEY_UP: KeyboardUpArrow
        104 => Some(0x4Bu8),  // KEY_PAGEUP: KeyboardPageUp
        105 => Some(0x50u8),  // KEY_LEFT: KeyboardLeftArrow
        106 => Some(0x4Fu8),  // KEY_RIGHT: KeyboardRightArrow
        107 => Some(0x4Du8),  // KEY_END: KeyboardEnd
        108 => Some(0x51u8),  // KEY_DOWN: KeyboardDownArrow
        109 => Some(0x4Eu8),  // KEY_PAGEDOWN: KeyboardPageDown
        110 => Some(0x49u8),  // KEY_INSERT: KeyboardInsert
        111 => Some(0x4Cu8),  // KEY_DELETE: KeyboardDelete
        113 => Some(0x7Fu8),  // KEY_MUTE: KeyboardMute
        114 => Some(0x81u8),  // KEY_VOLUMEDOWN: KeyboardVolumeDown
        115 => Some(0x80u8),  // KEY_VOLUMEUP: KeyboardVolumeUp
        116 => Some(0x66u8),  // KEY_POWER: KeyboardPower
        117 => Some(0x67u8),  // KEY_KPEQUAL: KeypadEqual
        119 => Some(0x48u8),  // KEY_PAUSE: KeyboardPause
        121 => Some(0x85u8),  // KEY_KPCOMMA: KeypadComma
        122 => Some(0x90u8),  // KEY_HANGEUL: KeyboardLANG1
        123 => Some(0x91u8),  // KEY_HANJA: KeyboardLANG2
        124 => Some(0x89u8),  // KEY_YEN: KeyboardInternational3
        125 => Some(0xE3u8),  // KEY_LEFTMETA: KeyboardLeftGUI
        126 => Some(0xE7u8),  // KEY_RIGHTMETA: KeyboardRightGUI
        127 => Some(0x65u8),  // KEY_COMPOSE: KeyboardApplication
        129 => Some(0x79u8),  // KEY_AGAIN: KeyboardAgain
        132 => Some(0x77u8),  // KEY_FRONT: KeyboardSelect
        183 => Some(0x68u8),  // KEY_F13: KeyboardF13
        184 => Some(0x69u8),  // KEY_F14: KeyboardF14
        185 => Some(0x6Au8),  // KEY_F15: KeyboardF15
        186 => Some(0x6Bu8),  // KEY_F16: KeyboardF16
        187 => Some(0x6Cu8),  // KEY_F17: KeyboardF17
        188 => Some(0x6Du8),  // KEY_F18: KeyboardF18
        189 => Some(0x6Eu8),  // KEY_F19: KeyboardF19
        190 => Some(0x6Fu8),  // KEY_F20: KeyboardF20
        191 => Some(0x70u8),  // KEY_F21: KeyboardF21
        192 => Some(0x71u8),  // KEY_F22: KeyboardF22
        193 => Some(0x72u8),  // KEY_F23: KeyboardF23
        194 => Some(0x73u8),  // KEY_F24: KeyboardF24
        222 => Some(0x99u8),  // KEY_ALTERASE: KeyboardAlternateErase
        _ => None,
    }
}

/// Looks a Linux input key code up in the key table.
pub fn key_to_hid_usage_id(code: u16) -> (r: Option<u8>)
    ensures
        r == usage_for_key(code),
{
    match code {
        1 => Some(0x29u8),  // KEY_ESC: KeyboardEscape
        2 => Some(0x1Eu8),  // KEY_1: Keyboard1Exclamation
        3 => Some(0x1Fu8),  // KEY_2: Keyboard2At
        4 => Some(0x20u8),  // KEY_3: Keyboard3Hash
        5 => Some(0x21u8),  // KEY_4: Keyboard4Dollar
        6 => Some(0x22u8),  // KEY_5: Keyboard5Percent
        7 => Some(0x23u8),  // KEY_6: Keyboard6Caret
        8 => Some(0x24u8),  // KEY_7: Keyboard7Ampersand
        9 => Some(0x25u8),  // KEY_8: Keyboard8Asterisk
        10 => Some(0x26u8),  // KEY_9: Keyboard9OpenParens
        11 => Some(0x27u8),  // KEY_0: Keyboard0CloseParens
        12 => Some(0x2Du8),  // KEY_MINUS: KeyboardDashUnderscore
        13 => Some(0x2Eu8),  // KEY_EQUAL: KeyboardEqualPlus
        14 => Some(0x2Au8),  // KEY_BACKSPACE: KeyboardBackspace
        15 => Some(0x2Bu8),  // KEY_TAB: KeyboardTab
        16 => Some(0x14u8),  // KEY_Q: KeyboardQq
        17 => Some(0x1Au8),  // KEY_W: KeyboardWw
        18 => Some(0x08u8),  // KEY_E: KeyboardEe
        19 => Some(0x15u8),  // KEY_R: KeyboardRr
        20 => Some(0x17u8),  // KEY_T: KeyboardTt
        21 => Some(0x1Cu8),  // KEY_Y: KeyboardYy
        22 => Some(0x18u8),  // KEY_U: KeyboardUu
        23 => Some(0x0Cu8),  // KEY_I: KeyboardIi
        24 => Some(0x12u8),  // KEY_O: KeyboardOo
        25 => Some(0x13u8),  // KEY_P: KeyboardPp
        26 => Some(0x2Fu8),  // KEY_LEFTBRACE: KeyboardOpenBracketBrace
        27 => Some(0x30u8),  // KEY_RIGHTBRACE: KeyboardCloseBracketBrace
        28 => Some(0x28u8),  // KEY_ENTER: KeyboardEnter
        29 => Some(0xE0u8),  // KEY_LEFTCTRL: KeyboardLeftControl
        30 => Some(0x04u8),  // KEY_A: KeyboardAa
        31 => Some(0x16u8),  // KEY_S: KeyboardSs
        32 => Some(0x07u8),  // KEY_D: KeyboardDd
        33 => Some(0x09u8),  // KEY_F: KeyboardFf
        34 => Some(0x0Au8),  // KEY_G: KeyboardGg
        35 => Some(0x0Bu8),  // KEY_H: KeyboardHh
        36 => Some(0x0Du8),  // KEY_J: KeyboardJj
        37 => Some(0x0Eu8),  // KEY_K: KeyboardKk
        38 => Some(0x0Fu8),  // KEY_L: KeyboardLl
        39 => Some(0x33u8),  // KEY_SEMICOLON: KeyboardSemiColon
        40 => Some(0x34u8),  // KEY_APOSTROPHE: KeyboardSingleDoubleQuote
        41 => Some(0x35u8),  // KEY_GRAVE: KeyboardBacktickTilde
        42 => Some(0xC5u8),  // KEY_LEFTSHIFT: KeypadLeftShift
        43 => Some(0x32u8),  // KEY_BACKSLASH: KeyboardNonUSHash
        44 => Some(0x1Du8),  // KEY_Z: KeyboardZz
        45 => Some(0x1Bu8),  // KEY_X: KeyboardXx
        46 => Some(0x06u8),  // KEY_C: KeyboardCc
        47 => Some(0x19u8),  // KEY_V: KeyboardVv
        48 => Some(0x05u8),  // KEY_B: KeyboardBb
        49 => Some(0x11u8),  // KEY_N: KeyboardNn
        50 => Some(0x10u8),  // KEY_M: KeyboardMm
        51 => Some(0x36u8),  // KEY_COMMA: KeyboardCommaLess
        52 => Some(0x37u8),  // KEY_DOT: KeyboardPeriodGreater
        53 => Some(0x38u8),  // KEY_SLASH: KeyboardSlashQuestion
        54 => Some(0xE5u8),  // KEY_RIGHTSHIFT: KeyboardRightShift
        55 => Some(0x55u8),  // KEY_KPASTERISK: KeypadMultiply
        56 => Some(0xE2u8),  // KEY_LEFTALT: KeyboardLeftAlt
        57 => Some(0x2Cu8),  // KEY_SPACE: KeyboardSpacebar
        58 => Some(0x39u8),  // KEY_CAPSLOCK: KeyboardCapsLock
        59 => Some(0x3Au8),  // KEY_F1: KeyboardF1
        60 => Some(0x3Bu8),  // KEY_F2: KeyboardF2
        61 => Some(0x3Cu8),  // KEY_F3: KeyboardF3
        62 => Some(0x3Du8),  // KEY_F4: KeyboardF4
        63 => Some(0x3Eu8),  // KEY_F5: KeyboardF5
        64 => Some(0x3Fu8),  // KEY_F6: KeyboardF6
        65 => Some(0x40u8),  // KEY_F7: KeyboardF7
        66 => Some(0x41u8),  // KEY_F8: KeyboardF8
        67 => Some(0x42u8),  // KEY_F9: KeyboardF9
        68 => Some(0x43u8),  // KEY_F10: KeyboardF10
        69 => Some(0x53u8),  // KEY_NUMLOCK: KeypadNumLock
        70 => Some(0x47u8),  // KEY_SCROLLLOCK: KeyboardScrollLock
        71 => Some(0x5Fu8),  // KEY_KP7: Keypad7Home
        72 => Some(0x60u8),  // KEY_KP8: Keypad8UpArrow
        73 => Some(0x61u8),  // KEY_KP9: Keypad9PageUp
        74 => Some(0x56u8),  // KEY_KPMINUS: KeypadMinus
        75 => Some(0x5Cu8),  // KEY_KP4: Keypad4LeftArrow
        76 => Some(0x5Du8),  // KEY_KP5: Keypad5
        77 => Some(0x5Eu8),  // KEY_KP6: Keypad6RightArrow
        78 => Some(0x57u8),  // KEY_KPPLUS: KeypadPlus
        79 => Some(0x59u8),  // KEY_KP1: Keypad1End
        80 => Some(0x5Au8),  // KEY_KP2: Keypad2DownArrow
        81 => Some(0x5Bu8),  // KEY_KP3: Keypad3PageDown
        82 => Some(0x62u8),  // KEY_KP0: Keypad0Insert
        83 => Some(0x63u8),  // KEY_KPDOT: KeypadPeriodDelete
        85 => Some(0x94u8),  // KEY_ZENKAKUHANKAKU: KeyboardLANG5
        86 => Some(0x64u8),  // KEY_102ND: KeyboardNonUSSlash
        87 => Some(0x44u8),  // KEY_F11: KeyboardF11
        88 => Some(0x45u8),  // KEY_F12: KeyboardF12
        89 => Some(0x87u8),  // KEY_RO: KeyboardInternational1
        90 => Some(0x92u8),  // KEY_KATAKANA: KeyboardLANG3
        91 => Some(0x93u8),  // KEY_HIRAGANA: KeyboardLANG4
        92 => Some(0x8Au8),  // KEY_HENKAN: KeyboardInternational4
        93 => Some(0x88u8),  // KEY_KATAKANAHIRAGANA: KeyboardInternational2
        94 => Some(0x8Bu8),  // KEY_MUHENKAN: KeyboardInternational5
        95 => Some(0x8Cu8),  // KEY_KPJPCOMMA: KeyboardInternational6
        96 => Some(0x58u8),  // KEY_KPENTER: KeypadEnter
        97 => Some(0xE4u8),  // KEY_RIGHTCTRL: KeyboardRightControl
        98 => Some(0x54u8),  // KEY_KPSLASH: KeypadDivide
        99 => Some(0x46u8),  // KEY_SYSRQ: KeyboardPrintScreen
        100 => Some(0xE6u8),  // KEY_RIGHTALT: KeyboardRightAlt
        102 => Some(0x4Au8),  // KEY_HOME: KeyboardHome
        103 => Some(0x52u8),  // KEY_UP: KeyboardUpArrow
        104 => Some(0x4Bu8),  // KEY_PAGEUP: KeyboardPageUp
        105 => Some(0x50u8),  // KEY_LEFT: KeyboardLeftArrow
        106 => Some(0x4Fu8),  // KEY_RIGHT: KeyboardRightArrow
        107 => Some(0x4Du8),  // KEY_END: KeyboardEnd
        108 => Some(0x51u8),  // KEY_DOWN: KeyboardDownArrow
        109 => Some(0x4Eu8),  // KEY_PAGEDOWN: KeyboardPageDown
        110 => Some(0x49u8),  // KEY_INSERT: KeyboardInsert
        111 => Some(0x4Cu8),  // KEY_DELETE: KeyboardDelete
        113 => Some(0x7Fu8),  // KEY_MUTE: KeyboardMute
        114 => Some(0x81u8),  // KEY_VOLUMEDOWN: KeyboardVolumeDown
        115 => Some(0x80u8),  // KEY_VOLUMEUP: KeyboardVolumeUp
        116 => Some(0x66u8),  // KEY_POWER: KeyboardPower
        117 => Some(0x67u8),  // KEY_KPEQUAL: KeypadEqual
        119 => Some(0x48u8),  // KEY_PAUSE: KeyboardPause
        121 => Some(0x85u8),  // KEY_KPCOMMA: KeypadComma
        122 => Some(0x90u8),  // KEY_HANGEUL: KeyboardLANG1
        123 => Some(0x91u8),  // KEY_HANJA: KeyboardLANG2
        124 => Some(0x89u8),  // KEY_YEN: KeyboardInternational3
        125 => Some(0xE3u8),  // KEY_LEFTMETA: KeyboardLeftGUI
        126 => Some(0xE7u8),  // KEY_RIGHTMETA: KeyboardRightGUI
        127 => Some(0x65u8),  // KEY_COMPOSE: KeyboardApplication
        129 => Some(0x79u8),  // KEY_AGAIN: KeyboardAgain
        132 => Some(0x77u8),  // KEY_FRONT: KeyboardSelect
        183 => Some(0x68u8),  // KEY_F13: KeyboardF13
        184 => Some(0x69u8),  // KEY_F14: KeyboardF14
        185 => Some(0x6Au8),  // KEY_F15: KeyboardF15
        186 => Some(0x6Bu8),  // KEY_F16: KeyboardF16
        187 => Some(0x6Cu8),  // KEY_F17: KeyboardF17
        188 => Some(0x6Du8),  // KEY_F18: KeyboardF18
        189 => Some(0x6Eu8),  // KEY_F19: KeyboardF19
        190 => Some(0x6Fu8),  // KEY_F20: KeyboardF20
        191 => Some(0x70u8),  // KEY_F21: KeyboardF21
        192 => Some(0x71u8),  // KEY_F22: KeyboardF22
        193 => Some(0x72u8),  // KEY_F23: KeyboardF23
        194 => Some(0x73u8),  // KEY_F24: KeyboardF24
        222 => Some(0x99u8),  // KEY_ALTERASE: KeyboardAlternateErase
        _ => None,
    }
}

} // verus!
