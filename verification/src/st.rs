//! The key codes that applications see in input events, and the
//! characters that the keys type.

use vstd::prelude::*;

verus! {

/// Number of entries in the event ring of the input snapshot.
pub const HISTORY_SIZE: usize = 64;

/// The keys and buttons of the input devices.
#[derive(Clone, Copy, Debug, PartialEq, Eq, Structural)]
pub enum Key {
    Reserved,
    Esc,
    Key1,
    Key2,
    Key3,
    Key4,
    Key5,
    Key6,
    Key7,
    Key8,
    Key9,
    Key0,
    KeyMinus,
    KeyEqual,
    KeyBackspace,
    KeyTab,
    KeyQ,
    KeyW,
    KeyE,
    KeyR,
    KeyT,
    KeyY,
    KeyU,
    KeyI,
    KeyO,
    KeyP,
    KeyLeftBrace,
    KeyRightBrace,
    KeyEnter,
    KeyLeftCtrl,
    KeyA,
    KeyS,
    KeyD,
    KeyF,
    KeyG,
    KeyH,
    KeyJ,
    KeyK,
    KeyL,
    KeySemicolon,
    KeyApostrophe,
    KeyGrave,
    KeyLeftShift,
    KeyBackslash,
    KeyZ,
    KeyX,
    KeyC,
    KeyV,
    KeyB,
    KeyN,
    KeyM,
    KeyComma,
    KeyDot,
    KeySlash,
    KeyRightShift,
    KeyKpAsterisk,
    KeyLeftAlt,
    KeySpace,
    KeyCapsLock,
    KeyF1,
    KeyF2,
    KeyF3,
    KeyF4,
    KeyF5,
    KeyF6,
    KeyF7,
    KeyF8,
    KeyF9,
    KeyF10,
    KeyNumLock,
    KeyScrollLock,
    KeyKp7,
    KeyKp8,
    KeyKp9,
    KeyKpMinus,
    KeyKp4,
    KeyKp5,
    KeyKp6,
    KeyKpPlus,
    KeyKp1,
    KeyKp2,
    KeyKp3,
    KeyKp0,
    KeyKpDot,
    KeyZenkakuHankaku,
    Key102nd,
    KeyF11,
    KeyF12,
    KeyRo,
    KeyKatakana,
    KeyHiragana,
    KeyHenkan,
    KeyKatakanaHiragana,
    KeyMuhenkan,
    KeyKpJpComma,
    KeyKpEnter,
    KeyRightCtrl,
    KeyKpSlash,
    KeySysRq,
    KeyRightAlt,
    KeyLineFeed,
    KeyHome,
    KeyUp,
    KeyPageUp,
    KeyLeft,
    KeyRight,
    KeyEnd,
    KeyDown,
    KeyPageDown,
    KeyInsert,
    KeyDelete,
    KeyMacro,
    KeyMute,
    KeyVolumeDown,
    KeyVolumeUp,
    KeyPower,
    KeyKpEqual,
    KeyKpPlusMinus,
    KeyPause,
    KeyScale,
    KeyKpComma,
    KeyHangeul,
    KeyHanja,
    KeyYen,
    KeyLeftMeta,
    KeyRightMeta,
    KeyCompose,
    KeyStop,
    KeyAgain,
    KeyProps,
    KeyUndo,
    KeyFront,
    KeyCopy,
    KeyOpen,
    KeyPaste,
    KeyFind,
    KeyCut,
    KeyHelp,
    KeyMenu,
    KeyCalc,
    KeySetup,
    KeySleep,
    KeyWakeup,
    KeyFile,
    KeySend,
    KeyDeleteFile,
    KeyXfer,
    KeyProg1,
    KeyProg2,
    KeyWww,
    KeyMsDos,
    KeyScreenLock,
    KeyDirection,
    KeyCycleWindows,
    KeyMail,
    KeyBookmarks,
    KeyComputer,
    KeyBack,
    KeyForward,
    KeyCloseCd,
    KeyEjectCd,
    KeyEjectCloseCd,
    KeyNextSong,
    KeyPlayPause,
    KeyPreviousSong,
    KeyStopCd,
    KeyRecord,
    KeyRewind,
    KeyPhone,
    KeyIso,
    KeyConfig,
    KeyHomePage,
    KeyRefresh,
    KeyExit,
    KeyMove,
    KeyEdit,
    KeyScrollUp,
    KeyScrollDown,
    KeyKpLeftParenthesis,
    KeyKpRightParenthesis,
    KeyNew,
    KeyRedo,
    KeyF13,
    KeyF14,
    KeyF15,
    KeyF16,
    KeyF17,
    KeyF18,
    KeyF19,
    KeyF20,
    KeyF21,
    KeyF22,
    KeyF23,
    KeyF24,
    KeyMax,
    BtnLeft,
    BtnRight,
    BtnMiddle,
    BtnSide,
}

impl Key {
    /// The code that stands for the key in an input event.
    pub open spec fn spec_code(self) -> usize {
        match self {
            Key::Reserved => 0,
            Key::Esc => 1,
            Key::Key1 => 2,
            Key::Key2 => 3,
            Key::Key3 => 4,
            Key::Key4 => 5,
            Key::Key5 => 6,
            Key::Key6 => 7,
            Key::Key7 => 8,
            Key::Key8 => 9,
            Key::Key9 => 10,
            Key::Key0 => 11,
            Key::KeyMinus => 12,
            Key::KeyEqual => 13,
            Key::KeyBackspace => 14,
            Key::KeyTab => 15,
            Key::KeyQ => 16,
            Key::KeyW => 17,
            Key::KeyE => 18,
            Key::KeyR => 19,
            Key::KeyT => 20,
            Key::KeyY => 21,
            Key::KeyU => 22,
            Key::KeyI => 23,
            Key::KeyO => 24,
            Key::KeyP => 25,
            Key::KeyLeftBrace => 26,
            Key::KeyRightBrace => 27,
            Key::KeyEnter => 28,
            Key::KeyLeftCtrl => 29,
            Key::KeyA => 30,
            Key::KeyS => 31,
            Key::KeyD => 32,
            Key::KeyF => 33,
            Key::KeyG => 34,
            Key::KeyH => 35,
            Key::KeyJ => 36,
            Key::KeyK => 37,
            Key::KeyL => 38,
            Key::KeySemicolon => 39,
            Key::KeyApostrophe => 40,
            Key::KeyGrave => 41,
            Key::KeyLeftShift => 42,
            Key::KeyBackslash => 43,
            Key::KeyZ => 44,
            Key::KeyX => 45,
            Key::KeyC => 46,
            Key::KeyV => 47,
            Key::KeyB => 48,
            Key::KeyN => 49,
            Key::KeyM => 50,
            Key::KeyComma => 51,
            Key::KeyDot => 52,
            Key::KeySlash => 53,
            Key::KeyRightShift => 54,
            Key::KeyKpAsterisk => 55,
            Key::KeyLeftAlt => 56,
            Key::KeySpace => 57,
            Key::KeyCapsLock => 58,
            Key::KeyF1 => 59,
            Key::KeyF2 => 60,
            Key::KeyF3 => 61,
            Key::KeyF4 => 62,
            Key::KeyF5 => 63,
            Key::KeyF6 => 64,
            Key::KeyF7 => 65,
            Key::KeyF8 => 66,
            Key::KeyF9 => 67,
            Key::KeyF10 => 68,
            Key::KeyNumLock => 69,
            Key::KeyScrollLock => 70,
            Key::KeyKp7 => 71,
            Key::KeyKp8 => 72,
            Key::KeyKp9 => 73,
            Key::KeyKpMinus => 74,
            Key::KeyKp4 => 75,
            Key::KeyKp5 => 76,
            Key::KeyKp6 => 77,
            Key::KeyKpPlus => 78,
            Key::KeyKp1 => 79,
            Key::KeyKp2 => 80,
            Key::KeyKp3 => 81,
            Key::KeyKp0 => 82,
            Key::KeyKpDot => 83,
            Key::KeyZenkakuHankaku => 85,
            Key::Key102nd => 86,
            Key::KeyF11 => 87,
            Key::KeyF12 => 88,
            Key::KeyRo => 89,
            Key::KeyKatakana => 90,
            Key::KeyHiragana => 91,
            Key::KeyHenkan => 92,
            Key::KeyKatakanaHiragana => 93,
            Key::KeyMuhenkan => 94,
            Key::KeyKpJpComma => 95,
            Key::KeyKpEnter => 96,
            Key::KeyRightCtrl => 97,
            Key::KeyKpSlash => 98,
            Key::KeySysRq => 99,
            Key::KeyRightAlt => 100,
            Key::KeyLineFeed => 101,
            Key::KeyHome => 102,
            Key::KeyUp => 103,
            Key::KeyPageUp => 104,
            Key::KeyLeft => 105,
            Key::KeyRight => 106,
            Key::KeyEnd => 107,
            Key::KeyDown => 108,
            Key::KeyPageDown => 109,
            Key::KeyInsert => 110,
            Key::KeyDelete => 111,
            Key::KeyMacro => 112,
            Key::KeyMute => 113,
            Key::KeyVolumeDown => 114,
            Key::KeyVolumeUp => 115,
            Key::KeyPower => 116,
            Key::KeyKpEqual => 117,
            Key::KeyKpPlusMinus => 118,
            Key::KeyPause => 119,
            Key::KeyScale => 120,
            Key::KeyKpComma => 121,
            Key::KeyHangeul => 122,
            Key::KeyHanja => 123,
            Key::KeyYen => 124,
            Key::KeyLeftMeta => 125,
            Key::KeyRightMeta => 126,
            Key::KeyCompose => 127,
            Key::KeyStop => 128,
            Key::KeyAgain => 129,
            Key::KeyProps => 130,
            Key::KeyUndo => 131,
            Key::KeyFront => 132,
            Key::KeyCopy => 133,
            Key::KeyOpen => 134,
            Key::KeyPaste => 135,
            Key::KeyFind => 136,
            Key::KeyCut => 137,
            Key::KeyHelp => 138,
            Key::KeyMenu => 139,
            Key::KeyCalc => 140,
            Key::KeySetup => 141,
            Key::KeySleep => 142,
            Key::KeyWakeup => 143,
            Key::KeyFile => 144,
            Key::KeySend => 145,
            Key::KeyDeleteFile => 146,
            Key::KeyXfer => 147,
            Key::KeyProg1 => 148,
            Key::KeyProg2 => 149,
            Key::KeyWww => 150,
            Key::KeyMsDos => 151,
            Key::KeyScreenLock => 152,
            Key::KeyDirection => 153,
            Key::KeyCycleWindows => 154,
            Key::KeyMail => 155,
            Key::KeyBookmarks => 156,
            Key::KeyComputer => 157,
            Key::KeyBack => 158,
            Key::KeyForward => 159,
            Key::KeyCloseCd => 160,
            Key::KeyEjectCd => 161,
            Key::KeyEjectCloseCd => 162,
            Key::KeyNextSong => 163,
            Key::KeyPlayPause => 164,
            Key::KeyPreviousSong => 165,
            Key::KeyStopCd => 166,
            Key::KeyRecord => 167,
            Key::KeyRewind => 168,
            Key::KeyPhone => 169,
            Key::KeyIso => 170,
            Key::KeyConfig => 171,
            Key::KeyHomePage => 172,
            Key::KeyRefresh => 173,
            Key::KeyExit => 174,
            Key::KeyMove => 175,
            Key::KeyEdit => 176,
            Key::KeyScrollUp => 177,
            Key::KeyScrollDown => 178,
            Key::KeyKpLeftParenthesis => 179,
            Key::KeyKpRightParenthesis => 180,
            Key::KeyNew => 181,
            Key::KeyRedo => 182,
            Key::KeyF13 => 183,
            Key::KeyF14 => 184,
            Key::KeyF15 => 185,
            Key::KeyF16 => 186,
            Key::KeyF17 => 187,
            Key::KeyF18 => 188,
            Key::KeyF19 => 189,
            Key::KeyF20 => 190,
            Key::KeyF21 => 191,
            Key::KeyF22 => 192,
            Key::KeyF23 => 193,
            Key::KeyF24 => 194,
            Key::KeyMax => 195,
            Key::BtnLeft => 0x110,
            Key::BtnRight => 0x111,
            Key::BtnMiddle => 0x112,
            Key::BtnSide => 0x113,
        }
    }

    /// The code that stands for the key in an input event.
    #[verifier::when_used_as_spec(spec_code)]
    pub fn code(self) -> (r: usize)
        ensures
            r == self.spec_code(),
    {
        match self {
            Key::Reserved => 0,
            Key::Esc => 1,
            Key::Key1 => 2,
            Key::Key2 => 3,
            Key::Key3 => 4,
            Key::Key4 => 5,
            Key::Key5 => 6,
            Key::Key6 => 7,
            Key::Key7 => 8,
            Key::Key8 => 9,
            Key::Key9 => 10,
            Key::Key0 => 11,
            Key::KeyMinus => 12,
            Key::KeyEqual => 13,
            Key::KeyBackspace => 14,
            Key::KeyTab => 15,
            Key::KeyQ => 16,
            Key::KeyW => 17,
            Key::KeyE => 18,
            Key::KeyR => 19,
            Key::KeyT => 20,
            Key::KeyY => 21,
            Key::KeyU => 22,
            Key::KeyI => 23,
            Key::KeyO => 24,
            Key::KeyP => 25,
            Key::KeyLeftBrace => 26,
            Key::KeyRightBrace => 27,
            Key::KeyEnter => 28,
            Key::KeyLeftCtrl => 29,
            Key::KeyA => 30,
            Key::KeyS => 31,
            Key::KeyD => 32,
            Key::KeyF => 33,
            Key::KeyG => 34,
            Key::KeyH => 35,
            Key::KeyJ => 36,
            Key::KeyK => 37,
            Key::KeyL => 38,
            Key::KeySemicolon => 39,
            Key::KeyApostrophe => 40,
            Key::KeyGrave => 41,
            Key::KeyLeftShift => 42,
            Key::KeyBackslash => 43,
            Key::KeyZ => 44,
            Key::KeyX => 45,
            Key::KeyC => 46,
            Key::KeyV => 47,
            Key::KeyB => 48,
            Key::KeyN => 49,
            Key::KeyM => 50,
            Key::KeyComma => 51,
            Key::KeyDot => 52,
            Key::KeySlash => 53,
            Key::KeyRightShift => 54,
            Key::KeyKpAsterisk => 55,
            Key::KeyLeftAlt => 56,
            Key::KeySpace => 57,
            Key::KeyCapsLock => 58,
            Key::KeyF1 => 59,
            Key::KeyF2 => 60,
            Key::KeyF3 => 61,
            Key::KeyF4 => 62,
            Key::KeyF5 => 63,
            Key::KeyF6 => 64,
            Key::KeyF7 => 65,
            Key::KeyF8 => 66,
            Key::KeyF9 => 67,
            Key::KeyF10 => 68,
            Key::KeyNumLock => 69,
            Key::KeyScrollLock => 70,
            Key::KeyKp7 => 71,
            Key::KeyKp8 => 72,
            Key::KeyKp9 => 73,
            Key::KeyKpMinus => 74,
            Key::KeyKp4 => 75,
            Key::KeyKp5 => 76,
            Key::KeyKp6 => 77,
            Key::KeyKpPlus => 78,
            Key::KeyKp1 => 79,
            Key::KeyKp2 => 80,
            Key::KeyKp3 => 81,
            Key::KeyKp0 => 82,
            Key::KeyKpDot => 83,
            Key::KeyZenkakuHankaku => 85,
            Key::Key102nd => 86,
            Key::KeyF11 => 87,
            Key::KeyF12 => 88,
            Key::KeyRo => 89,
            Key::KeyKatakana => 90,
            Key::KeyHiragana => 91,
            Key::KeyHenkan => 92,
            Key::KeyKatakanaHiragana => 93,
            Key::KeyMuhenkan => 94,
            Key::KeyKpJpComma => 95,
            Key::KeyKpEnter => 96,
            Key::KeyRightCtrl => 97,
            Key::KeyKpSlash => 98,
            Key::KeySysRq => 99,
            Key::KeyRightAlt => 100,
            Key::KeyLineFeed => 101,
            Key::KeyHome => 102,
            Key::KeyUp => 103,
            Key::KeyPageUp => 104,
            Key::KeyLeft => 105,
            Key::KeyRight => 106,
            Key::KeyEnd => 107,
            Key::KeyDown => 108,
            Key::KeyPageDown => 109,
            Key::KeyInsert => 110,
            Key::KeyDelete => 111,
            Key::KeyMacro => 112,
            Key::KeyMute => 113,
            Key::KeyVolumeDown => 114,
            Key::KeyVolumeUp => 115,
            Key::KeyPower => 116,
            Key::KeyKpEqual => 117,
            Key::KeyKpPlusMinus => 118,
            Key::KeyPause => 119,
            Key::KeyScale => 120,
            Key::KeyKpComma => 121,
            Key::KeyHangeul => 122,
            Key::KeyHanja => 123,
            Key::KeyYen => 124,
            Key::KeyLeftMeta => 125,
            Key::KeyRightMeta => 126,
            Key::KeyCompose => 127,
            Key::KeyStop => 128,
            Key::KeyAgain => 129,
            Key::KeyProps => 130,
            Key::KeyUndo => 131,
            Key::KeyFront => 132,
            Key::KeyCopy => 133,
            Key::KeyOpen => 134,
            Key::KeyPaste => 135,
            Key::KeyFind => 136,
            Key::KeyCut => 137,
            Key::KeyHelp => 138,
            Key::KeyMenu => 139,
            Key::KeyCalc => 140,
            Key::KeySetup => 141,
            Key::KeySleep => 142,
            Key::KeyWakeup => 143,
            Key::KeyFile => 144,
            Key::KeySend => 145,
            Key::KeyDeleteFile => 146,
            Key::KeyXfer => 147,
            Key::KeyProg1 => 148,
            Key::KeyProg2 => 149,
            Key::KeyWww => 150,
            Key::KeyMsDos => 151,
            Key::KeyScreenLock => 152,
            Key::KeyDirection => 153,
            Key::KeyCycleWindows => 154,
            Key::KeyMail => 155,
            Key::KeyBookmarks => 156,
            Key::KeyComputer => 157,
            Key::KeyBack => 158,
            Key::KeyForward => 159,
            Key::KeyCloseCd => 160,
            Key::KeyEjectCd => 161,
            Key::KeyEjectCloseCd => 162,
            Key::KeyNextSong => 163,
            Key::KeyPlayPause => 164,
            Key::KeyPreviousSong => 165,
            Key::KeyStopCd => 166,
            Key::KeyRecord => 167,
            Key::KeyRewind => 168,
            Key::KeyPhone => 169,
            Key::KeyIso => 170,
            Key::KeyConfig => 171,
            Key::KeyHomePage => 172,
            Key::KeyRefresh => 173,
            Key::KeyExit => 174,
            Key::KeyMove => 175,
            Key::KeyEdit => 176,
            Key::KeyScrollUp => 177,
            Key::KeyScrollDown => 178,
            Key::KeyKpLeftParenthesis => 179,
            Key::KeyKpRightParenthesis => 180,
            Key::KeyNew => 181,
            Key::KeyRedo => 182,
            Key::KeyF13 => 183,
            Key::KeyF14 => 184,
            Key::KeyF15 => 185,
            Key::KeyF16 => 186,
            Key::KeyF17 => 187,
            Key::KeyF18 => 188,
            Key::KeyF19 => 189,
            Key::KeyF20 => 190,
            Key::KeyF21 => 191,
            Key::KeyF22 => 192,
            Key::KeyF23 => 193,
            Key::KeyF24 => 194,
            Key::KeyMax => 195,
            Key::BtnLeft => 0x110,
            Key::BtnRight => 0x111,
            Key::BtnMiddle => 0x112,
            Key::BtnSide => 0x113,
        }
    }

    /// The key that a code stands for, if it stands for one.
    pub fn from_code(code: usize) -> (r: Option<Key>)
        ensures
            match r {
                Some(key) => key.spec_code() == code,
                None => forall|key: Key| key.spec_code() != code,
            },
    {
        match code {
            0 => Some(Key::Reserved),
            1 => Some(Key::Esc),
            2 => Some(Key::Key1),
            3 => Some(Key::Key2),
            4 => Some(Key::Key3),
            5 => Some(Key::Key4),
            6 => Some(Key::Key5),
            7 => Some(Key::Key6),
            8 => Some(Key::Key7),
            9 => Some(Key::Key8),
            10 => Some(Key::Key9),
            11 => Some(Key::Key0),
            12 => Some(Key::KeyMinus),
            13 => Some(Key::KeyEqual),
            14 => Some(Key::KeyBackspace),
            15 => Some(Key::KeyTab),
            16 => Some(Key::KeyQ),
            17 => Some(Key::KeyW),
            18 => Some(Key::KeyE),
            19 => Some(Key::KeyR),
            20 => Some(Key::KeyT),
            21 => Some(Key::KeyY),
            22 => Some(Key::KeyU),
            23 => Some(Key::KeyI),
            24 => Some(Key::KeyO),
            25 => Some(Key::KeyP),
            26 => Some(Key::KeyLeftBrace),
            27 => Some(Key::KeyRightBrace),
            28 => Some(Key::KeyEnter),
            29 => Some(Key::KeyLeftCtrl),
            30 => Some(Key::KeyA),
            31 => Some(Key::KeyS),
            32 => Some(Key::KeyD),
            33 => Some(Key::KeyF),
            34 => Some(Key::KeyG),
            35 => Some(Key::KeyH),
            36 => Some(Key::KeyJ),
            37 => Some(Key::KeyK),
            38 => Some(Key::KeyL),
            39 => Some(Key::KeySemicolon),
            40 => Some(Key::KeyApostrophe),
            41 => Some(Key::KeyGrave),
            42 => Some(Key::KeyLeftShift),
            43 => Some(Key::KeyBackslash),
            44 => Some(Key::KeyZ),
            45 => Some(Key::KeyX),
            46 => Some(Key::KeyC),
            47 => Some(Key::KeyV),
            48 => Some(Key::KeyB),
            49 => Some(Key::KeyN),
            50 => Some(Key::KeyM),
            51 => Some(Key::KeyComma),
            52 => Some(Key::KeyDot),
            53 => Some(Key::KeySlash),
            54 => Some(Key::KeyRightShift),
            55 => Some(Key::KeyKpAsterisk),
            56 => Some(Key::KeyLeftAlt),
            57 => Some(Key::KeySpace),
            58 => Some(Key::KeyCapsLock),
            59 => Some(Key::KeyF1),
            60 => Some(Key::KeyF2),
            61 => Some(Key::KeyF3),
            62 => Some(Key::KeyF4),
            63 => Some(Key::KeyF5),
            64 => Some(Key::KeyF6),
            65 => Some(Key::KeyF7),
            66 => Some(Key::KeyF8),
            67 => Some(Key::KeyF9),
            68 => Some(Key::KeyF10),
            69 => Some(Key::KeyNumLock),
            70 => Some(Key::KeyScrollLock),
            71 => Some(Key::KeyKp7),
            72 => Some(Key::KeyKp8),
            73 => Some(Key::KeyKp9),
            74 => Some(Key::KeyKpMinus),
            75 => Some(Key::KeyKp4),
            76 => Some(Key::KeyKp5),
            77 => Some(Key::KeyKp6),
            78 => Some(Key::KeyKpPlus),
            79 => Some(Key::KeyKp1),
            80 => Some(Key::KeyKp2),
            81 => Some(Key::KeyKp3),
            82 => Some(Key::KeyKp0),
            83 => Some(Key::KeyKpDot),
            85 => Some(Key::KeyZenkakuHankaku),
            86 => Some(Key::Key102nd),
            87 => Some(Key::KeyF11),
            88 => Some(Key::KeyF12),
            89 => Some(Key::KeyRo),
            90 => Some(Key::KeyKatakana),
            91 => Some(Key::KeyHiragana),
            92 => Some(Key::KeyHenkan),
            93 => Some(Key::KeyKatakanaHiragana),
            94 => Some(Key::KeyMuhenkan),
            95 => Some(Key::KeyKpJpComma),
            96 => Some(Key::KeyKpEnter),
            97 => Some(Key::KeyRightCtrl),
            98 => Some(Key::KeyKpSlash),
            99 => Some(Key::KeySysRq),
            100 => Some(Key::KeyRightAlt),
            101 => Some(Key::KeyLineFeed),
            102 => Some(Key::KeyHome),
            103 => Some(Key::KeyUp),
            104 => Some(Key::KeyPageUp),
            105 => Some(Key::KeyLeft),
            106 => Some(Key::KeyRight),
            107 => Some(Key::KeyEnd),
            108 => Some(Key::KeyDown),
            109 => Some(Key::KeyPageDown),
            110 => Some(Key::KeyInsert),
            111 => Some(Key::KeyDelete),
            112 => Some(Key::KeyMacro),
            113 => Some(Key::KeyMute),
            114 => Some(Key::KeyVolumeDown),
            115 => Some(Key::KeyVolumeUp),
            116 => Some(Key::KeyPower),
            117 => Some(Key::KeyKpEqual),
            118 => Some(Key::KeyKpPlusMinus),
            119 => Some(Key::KeyPause),
            120 => Some(Key::KeyScale),
            121 => Some(Key::KeyKpComma),
            122 => Some(Key::KeyHangeul),
            123 => Some(Key::KeyHanja),
            124 => Some(Key::KeyYen),
            125 => Some(Key::KeyLeftMeta),
            126 => Some(Key::KeyRightMeta),
            127 => Some(Key::KeyCompose),
            128 => Some(Key::KeyStop),
            129 => Some(Key::KeyAgain),
            130 => Some(Key::KeyProps),
            131 => Some(Key::KeyUndo),
            132 => Some(Key::KeyFront),
            133 => Some(Key::KeyCopy),
            134 => Some(Key::KeyOpen),
            135 => Some(Key::KeyPaste),
            136 => Some(Key::KeyFind),
            137 => Some(Key::KeyCut),
            138 => Some(Key::KeyHelp),
            139 => Some(Key::KeyMenu),
            140 => Some(Key::KeyCalc),
            141 => Some(Key::KeySetup),
            142 => Some(Key::KeySleep),
            143 => Some(Key::KeyWakeup),
            144 => Some(Key::KeyFile),
            145 => Some(Key::KeySend),
            146 => Some(Key::KeyDeleteFile),
            147 => Some(Key::KeyXfer),
            148 => Some(Key::KeyProg1),
            149 => Some(Key::KeyProg2),
            150 => Some(Key::KeyWww),
            151 => Some(Key::KeyMsDos),
            152 => Some(Key::KeyScreenLock),
            153 => Some(Key::KeyDirection),
            154 => Some(Key::KeyCycleWindows),
            155 => Some(Key::KeyMail),
            156 => Some(Key::KeyBookmarks),
            157 => Some(Key::KeyComputer),
            158 => Some(Key::KeyBack),
            159 => Some(Key::KeyForward),
            160 => Some(Key::KeyCloseCd),
            161 => Some(Key::KeyEjectCd),
            162 => Some(Key::KeyEjectCloseCd),
            163 => Some(Key::KeyNextSong),
            164 => Some(Key::KeyPlayPause),
            165 => Some(Key::KeyPreviousSong),
            166 => Some(Key::KeyStopCd),
            167 => Some(Key::KeyRecord),
            168 => Some(Key::KeyRewind),
            169 => Some(Key::KeyPhone),
            170 => Some(Key::KeyIso),
            171 => Some(Key::KeyConfig),
            172 => Some(Key::KeyHomePage),
            173 => Some(Key::KeyRefresh),
            174 => Some(Key::KeyExit),
            175 => Some(Key::KeyMove),
            176 => Some(Key::KeyEdit),
            177 => Some(Key::KeyScrollUp),
            178 => Some(Key::KeyScrollDown),
            179 => Some(Key::KeyKpLeftParenthesis),
            180 => Some(Key::KeyKpRightParenthesis),
            181 => Some(Key::KeyNew),
            182 => Some(Key::KeyRedo),
            183 => Some(Key::KeyF13),
            184 => Some(Key::KeyF14),
            185 => Some(Key::KeyF15),
            186 => Some(Key::KeyF16),
            187 => Some(Key::KeyF17),
            188 => Some(Key::KeyF18),
            189 => Some(Key::KeyF19),
            190 => Some(Key::KeyF20),
            191 => Some(Key::KeyF21),
            192 => Some(Key::KeyF22),
            193 => Some(Key::KeyF23),
            194 => Some(Key::KeyF24),
            195 => Some(Key::KeyMax),
            0x110 => Some(Key::BtnLeft),
            0x111 => Some(Key::BtnRight),
            0x112 => Some(Key::BtnMiddle),
            0x113 => Some(Key::BtnSide),
            _ => None,
        }
    }

    /// The character that the key types, for the keys that type one.
    pub open spec fn spec_char(self) -> Option<char> {
        match self {
            Key::KeyA => Some('a'),
            Key::KeyB => Some('b'),
            Key::KeyC => Some('c'),
            Key::KeyD => Some('d'),
            Key::KeyE => Some('e'),
            Key::KeyF => Some('f'),
            Key::KeyG => Some('g'),
            Key::KeyH => Some('h'),
            Key::KeyI => Some('i'),
            Key::KeyJ => Some('j'),
            Key::KeyK => Some('k'),
            Key::KeyL => Some('l'),
            Key::KeyM => Some('m'),
            Key::KeyN => Some('n'),
            Key::KeyO => Some('o'),
            Key::KeyP => Some('p'),
            Key::KeyQ => Some('q'),
            Key::KeyR => Some('r'),
            Key::KeyS => Some('s'),
            Key::KeyT => Some('t'),
            Key::KeyU => Some('u'),
            Key::KeyV => Some('v'),
            Key::KeyW => Some('w'),
            Key::KeyX => Some('x'),
            Key::KeyY => Some('y'),
            Key::KeyZ => Some('z'),
            Key::Key0 => Some('0'),
            Key::Key1 => Some('1'),
            Key::Key2 => Some('2'),
            Key::Key3 => Some('3'),
            Key::Key4 => Some('4'),
            Key::Key5 => Some('5'),
            Key::Key6 => Some('6'),
            Key::Key7 => Some('7'),
            Key::Key8 => Some('8'),
            Key::Key9 => Some('9'),
            Key::KeyMinus => Some('-'),
            Key::KeyLeftBrace => Some('{'),
            Key::KeyRightBrace => Some('}'),
            Key::KeySemicolon => Some(';'),
            Key::KeyComma => Some(','),
            Key::KeySlash => Some('/'),
            Key::KeyBackslash => Some('\\'),
            Key::KeyEnter => Some('\n'),
            Key::KeySpace => Some(' '),
            _ => None,
        }
    }

    /// The character that the key types: a lower-case letter, a digit,
    /// one of a few punctuation marks, a line feed for the enter key, a
    /// space for the space bar. Other keys type nothing.
    pub fn char(&self) -> (r: Option<char>)
        ensures
            r == self.spec_char(),
    {
        match self {
            Key::KeyA => Some('a'),
            Key::KeyB => Some('b'),
            Key::KeyC => Some('c'),
            Key::KeyD => Some('d'),
            Key::KeyE => Some('e'),
            Key::KeyF => Some('f'),
            Key::KeyG => Some('g'),
            Key::KeyH => Some('h'),
            Key::KeyI => Some('i'),
            Key::KeyJ => Some('j'),
            Key::KeyK => Some('k'),
            Key::KeyL => Some('l'),
            Key::KeyM => Some('m'),
            Key::KeyN => Some('n'),
            Key::KeyO => Some('o'),
            Key::KeyP => Some('p'),
            Key::KeyQ => Some('q'),
            Key::KeyR => Some('r'),
            Key::KeyS => Some('s'),
            Key::KeyT => Some('t'),
            Key::KeyU => Some('u'),
            Key::KeyV => Some('v'),
            Key::KeyW => Some('w'),
            Key::KeyX => Some('x'),
            Key::KeyY => Some('y'),
            Key::KeyZ => Some('z'),
            Key::Key0 => Some('0'),
            Key::Key1 => Some('1'),
            Key::Key2 => Some('2'),
            Key::Key3 => Some('3'),
            Key::Key4 => Some('4'),
            Key::Key5 => Some('5'),
            Key::Key6 => Some('6'),
            Key::Key7 => Some('7'),
            Key::Key8 => Some('8'),
            Key::Key9 => Some('9'),
            Key::KeyMinus => Some('-'),
            Key::KeyLeftBrace => Some('{'),
            Key::KeyRightBrace => Some('}'),
            Key::KeySemicolon => Some(';'),
            Key::KeyComma => Some(','),
            Key::KeySlash => Some('/'),
            Key::KeyBackslash => Some('\\'),
            Key::KeyEnter => Some('\n'),
            Key::KeySpace => Some(' '),
            _ => None,
        }
    }
}

} // verus!
