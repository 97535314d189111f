//! Keys as the keymap sees them, and the order in which they are listed.
use vstd::prelude::*;

use crate::text::{chars_lt, decimal, digit_char, decimal_string, lemma_chars_lt_order, push_char, str_lt};

verus! {

/// A media key.
#[derive(Debug, Clone, Copy, PartialEq, Eq, Hash, Structural)]
pub enum MediaKeyCode {
    Play,
    Pause,
    PlayPause,
    Reverse,
    Stop,
    FastForward,
    Rewind,
    TrackNext,
    TrackPrevious,
    Record,
    LowerVolume,
    RaiseVolume,
    MuteVolume,
}

/// A modifier key pressed on its own.
#[derive(Debug, Clone, Copy, PartialEq, Eq, Hash, Structural)]
pub enum ModifierKeyCode {
    LeftShift,
    LeftControl,
    LeftAlt,
    LeftSuper,
    LeftHyper,
    LeftMeta,
    RightShift,
    RightControl,
    RightAlt,
    RightSuper,
    RightHyper,
    RightMeta,
    IsoLevel3Shift,
    IsoLevel5Shift,
}

/// A key of the keyboard.
#[derive(Debug, Clone, Copy, PartialEq, Eq, Hash, Structural)]
pub enum KeyCode {
    Backspace,
    Enter,
    Left,
    Right,
    Up,
    Down,
    Home,
    End,
    PageUp,
    PageDown,
    Tab,
    BackTab,
    Delete,
    Insert,
    F(u8),
    Char(char),
    Null,
    Esc,
    CapsLock,
    ScrollLock,
    NumLock,
    PrintScreen,
    Pause,
    Menu,
    KeypadBegin,
    Media(MediaKeyCode),
    Modifier(ModifierKeyCode),
}

/// The name of a media key, as its `Debug` output writes it.
pub open spec fn media_name(m: MediaKeyCode) -> Seq<char> {
    match m {
        MediaKeyCode::Play => "Play"@,
        MediaKeyCode::Pause => "Pause"@,
        MediaKeyCode::PlayPause => "PlayPause"@,
        MediaKeyCode::Reverse => "Reverse"@,
        MediaKeyCode::Stop => "Stop"@,
        MediaKeyCode::FastForward => "FastForward"@,
        MediaKeyCode::Rewind => "Rewind"@,
        MediaKeyCode::TrackNext => "TrackNext"@,
        MediaKeyCode::TrackPrevious => "TrackPrevious"@,
        MediaKeyCode::Record => "Record"@,
        MediaKeyCode::LowerVolume => "LowerVolume"@,
        MediaKeyCode::RaiseVolume => "RaiseVolume"@,
        MediaKeyCode::MuteVolume => "MuteVolume"@,
    }
}

fn media_name_str(m: MediaKeyCode) -> (s: &'static str)
    ensures
        s@ == media_name(m),
{
    match m {
        MediaKeyCode::Play => "Play",
        MediaKeyCode::Pause => "Pause",
        MediaKeyCode::PlayPause => "PlayPause",
        MediaKeyCode::Reverse => "Reverse",
        MediaKeyCode::Stop => "Stop",
        MediaKeyCode::FastForward => "FastForward",
        MediaKeyCode::Rewind => "Rewind",
        MediaKeyCode::TrackNext => "TrackNext",
        MediaKeyCode::TrackPrevious => "TrackPrevious",
        MediaKeyCode::Record => "Record",
        MediaKeyCode::LowerVolume => "LowerVolume",
        MediaKeyCode::RaiseVolume => "RaiseVolume",
        MediaKeyCode::MuteVolume => "MuteVolume",
    }
}

/// The name of a modifier key, as its `Debug` output writes it.
pub open spec fn modifier_name(m: ModifierKeyCode) -> Seq<char> {
    match m {
        ModifierKeyCode::LeftShift => "LeftShift"@,
        ModifierKeyCode::LeftControl => "LeftControl"@,
        ModifierKeyCode::LeftAlt => "LeftAlt"@,
        ModifierKeyCode::LeftSuper => "LeftSuper"@,
        ModifierKeyCode::LeftHyper => "LeftHyper"@,
        ModifierKeyCode::LeftMeta => "LeftMeta"@,
        ModifierKeyCode::RightShift => "RightShift"@,
        ModifierKeyCode::RightControl => "RightControl"@,
        ModifierKeyCode::RightAlt => "RightAlt"@,
        ModifierKeyCode::RightSuper => "RightSuper"@,
        ModifierKeyCode::RightHyper => "RightHyper"@,
        ModifierKeyCode::RightMeta => "RightMeta"@,
        ModifierKeyCode::IsoLevel3Shift => "IsoLevel3Shift"@,
        ModifierKeyCode::IsoLevel5Shift => "IsoLevel5Shift"@,
    }
}

fn modifier_name_str(m: ModifierKeyCode) -> (s: &'static str)
    ensures
        s@ == modifier_name(m),
{
    match m {
        ModifierKeyCode::LeftShift => "LeftShift",
        ModifierKeyCode::LeftControl => "LeftControl",
        ModifierKeyCode::LeftAlt => "LeftAlt",
        ModifierKeyCode::LeftSuper => "LeftSuper",
        ModifierKeyCode::LeftHyper => "LeftHyper",
        ModifierKeyCode::LeftMeta => "LeftMeta",
        ModifierKeyCode::RightShift => "RightShift",
        ModifierKeyCode::RightControl => "RightControl",
        ModifierKeyCode::RightAlt => "RightAlt",
        ModifierKeyCode::RightSuper => "RightSuper",
        ModifierKeyCode::RightHyper => "RightHyper",
        ModifierKeyCode::RightMeta => "RightMeta",
        ModifierKeyCode::IsoLevel3Shift => "IsoLevel3Shift",
        ModifierKeyCode::IsoLevel5Shift => "IsoLevel5Shift",
    }
}

/// The `Debug` text of a key that has no place of its own in the listing
/// order (every key but a character, an arrow, Enter and Esc). Those keys are
/// listed last, by this text.
pub open spec fn fallback_text(k: KeyCode) -> Seq<char> {
    match k {
        KeyCode::Backspace => "Backspace"@,
        KeyCode::Home => "Home"@,
        KeyCode::End => "End"@,
        KeyCode::PageUp => "PageUp"@,
        KeyCode::PageDown => "PageDown"@,
        KeyCode::Tab => "Tab"@,
        KeyCode::BackTab => "BackTab"@,
        KeyCode::Delete => "Delete"@,
        KeyCode::Insert => "Insert"@,
        KeyCode::Null => "Null"@,
        KeyCode::CapsLock => "CapsLock"@,
        KeyCode::ScrollLock => "ScrollLock"@,
        KeyCode::NumLock => "NumLock"@,
        KeyCode::PrintScreen => "PrintScreen"@,
        KeyCode::Pause => "Pause"@,
        KeyCode::Menu => "Menu"@,
        KeyCode::KeypadBegin => "KeypadBegin"@,
        KeyCode::F(n) => "F("@ + decimal(n as nat) + ")"@,
        KeyCode::Media(m) => "Media("@ + media_name(m) + ")"@,
        KeyCode::Modifier(m) => "Modifier("@ + modifier_name(m) + ")"@,
        _ => Seq::empty(),
    }
}

fn fallback_text_string(k: KeyCode) -> (s: String)
    ensures
        s@ == fallback_text(k),
{
    match k {
        KeyCode::Backspace => String::from_str("Backspace"),
        KeyCode::Home => String::from_str("Home"),
        KeyCode::End => String::from_str("End"),
        KeyCode::PageUp => String::from_str("PageUp"),
        KeyCode::PageDown => String::from_str("PageDown"),
        KeyCode::Tab => String::from_str("Tab"),
        KeyCode::BackTab => String::from_str("BackTab"),
        KeyCode::Delete => String::from_str("Delete"),
        KeyCode::Insert => String::from_str("Insert"),
        KeyCode::Null => String::from_str("Null"),
        KeyCode::CapsLock => String::from_str("CapsLock"),
        KeyCode::ScrollLock => String::from_str("ScrollLock"),
        KeyCode::NumLock => String::from_str("NumLock"),
        KeyCode::PrintScreen => String::from_str("PrintScreen"),
        KeyCode::Pause => String::from_str("Pause"),
        KeyCode::Menu => String::from_str("Menu"),
        KeyCode::KeypadBegin => String::from_str("KeypadBegin"),
        KeyCode::F(n) => {
            let digits = decimal_string(n as u32);
            let mut s = String::from_str("F(");
            s.append(digits.as_str());
            s.append(")");
            s
        },
        KeyCode::Media(m) => {
            let mut s = String::from_str("Media(");
            s.append(media_name_str(m));
            s.append(")");
            s
        },
        KeyCode::Modifier(m) => {
            let mut s = String::from_str("Modifier(");
            s.append(modifier_name_str(m));
            s.append(")");
            s
        },
        _ => String::new(),
    }
}

/// Where a key is listed among the keys of one action: characters first
/// (by character), then the arrows (up, down, left, right), then Enter and
/// Esc, then every other key by its `Debug` text.
pub open spec fn sort_rank(k: KeyCode) -> (u8, Seq<char>) {
    match k {
        KeyCode::Char(c) => (0u8, seq![c]),
        KeyCode::Up => (1u8, seq!['1']),
        KeyCode::Down => (1u8, seq!['2']),
        KeyCode::Left => (1u8, seq!['3']),
        KeyCode::Right => (1u8, seq!['4']),
        KeyCode::Enter => (2u8, seq!['1']),
        KeyCode::Esc => (2u8, seq!['2']),
        _ => (3u8, fallback_text(k)),
    }
}

/// The order of ranks: by the number, then by the text.
pub open spec fn rank_lt(a: (u8, Seq<char>), b: (u8, Seq<char>)) -> bool {
    a.0 < b.0 || (a.0 == b.0 && chars_lt(a.1, b.1))
}

/// `a` is listed before `b`.
pub open spec fn key_lt(a: KeyCode, b: KeyCode) -> bool {
    rank_lt(sort_rank(a), sort_rank(b))
}

/// `a` is listed no later than `b`.
pub open spec fn key_le(a: KeyCode, b: KeyCode) -> bool {
    !key_lt(b, a)
}

/// The order of ranks is a strict total order.
pub proof fn lemma_rank_order(a: (u8, Seq<char>), b: (u8, Seq<char>), c: (u8, Seq<char>))
    ensures
        !rank_lt(a, a),
        rank_lt(a, b) && rank_lt(b, c) ==> rank_lt(a, c),
        rank_lt(a, b) || rank_lt(b, a) || a == b,
{
    lemma_chars_lt_order(a.1, b.1, c.1);
    lemma_chars_lt_order(a.1, a.1, a.1);
    lemma_chars_lt_order(b.1, c.1, a.1);
    if a.0 == b.0 && a.1 == b.1 {
        assert(a == b);
    }
}

/// Listing order on keys is a total preorder.
pub proof fn lemma_key_order(a: KeyCode, b: KeyCode, c: KeyCode)
    ensures
        key_le(a, a),
        key_le(a, b) || key_le(b, a),
        key_le(a, b) && key_le(b, c) ==> key_le(a, c),
        key_lt(a, b) ==> key_le(a, b),
{
    lemma_rank_order(sort_rank(a), sort_rank(b), sort_rank(c));
    lemma_rank_order(sort_rank(c), sort_rank(a), sort_rank(b));
    lemma_rank_order(sort_rank(b), sort_rank(c), sort_rank(a));
    lemma_rank_order(sort_rank(a), sort_rank(b), sort_rank(a));
}

/// Distinct numbers have distinct decimal representations.
pub proof fn lemma_decimal_injective(n: nat, m: nat)
    requires
        decimal(n) == decimal(m),
    ensures
        n == m,
    decreases n,
{
    lemma_decimal_len(n);
    lemma_decimal_len(m);
    if n >= 10 && m >= 10 {
        assert(decimal(n).drop_last() == decimal(m).drop_last());
        assert(decimal(n / 10).push(digit_char(n % 10)).drop_last() =~= decimal(n / 10));
        assert(decimal(m / 10).push(digit_char(m % 10)).drop_last() =~= decimal(m / 10));
        lemma_decimal_injective(n / 10, m / 10);
        assert(decimal(n).last() == digit_char(n % 10));
        assert(decimal(m).last() == digit_char(m % 10));
    } else if n < 10 && m < 10 {
        assert(decimal(n)[0] == digit_char(n));
        assert(decimal(m)[0] == digit_char(m));
    }
}

/// A decimal representation has one digit for a number below ten and more
/// otherwise.
pub proof fn lemma_decimal_len(n: nat)
    ensures
        decimal(n).len() >= 1,
        n < 10 <==> decimal(n).len() == 1,
    decreases n,
{
    if n >= 10 {
        lemma_decimal_len(n / 10);
    }
}

/// Recovers a media key from its name.
spec fn decode_media(t: Seq<char>) -> MediaKeyCode {
    if t.len() == 4 && t[0] == 'P' {
        MediaKeyCode::Play
    } else if t.len() == 5 && t[0] == 'P' {
        MediaKeyCode::Pause
    } else if t.len() == 9 && t[0] == 'P' {
        MediaKeyCode::PlayPause
    } else if t.len() == 7 && t[0] == 'R' {
        MediaKeyCode::Reverse
    } else if t.len() == 4 && t[0] == 'S' {
        MediaKeyCode::Stop
    } else if t.len() == 11 && t[0] == 'F' {
        MediaKeyCode::FastForward
    } else if t.len() == 6 && t[2] == 'w' {
        MediaKeyCode::Rewind
    } else if t.len() == 9 && t[0] == 'T' {
        MediaKeyCode::TrackNext
    } else if t.len() == 13 && t[0] == 'T' {
        MediaKeyCode::TrackPrevious
    } else if t.len() == 6 && t[2] == 'c' {
        MediaKeyCode::Record
    } else if t.len() == 11 && t[0] == 'L' {
        MediaKeyCode::LowerVolume
    } else if t.len() == 11 && t[0] == 'R' {
        MediaKeyCode::RaiseVolume
    } else {
        MediaKeyCode::MuteVolume
    }
}

proof fn lemma_decode_media(m: MediaKeyCode)
    ensures
        decode_media(media_name(m)) == m,
        media_name(m).len() >= 4,
{
    reveal_strlit("Play");
    reveal_strlit("Pause");
    reveal_strlit("PlayPause");
    reveal_strlit("Reverse");
    reveal_strlit("Stop");
    reveal_strlit("FastForward");
    reveal_strlit("Rewind");
    reveal_strlit("TrackNext");
    reveal_strlit("TrackPrevious");
    reveal_strlit("Record");
    reveal_strlit("LowerVolume");
    reveal_strlit("RaiseVolume");
    reveal_strlit("MuteVolume");
}

/// Recovers a modifier key from its name.
spec fn decode_modifier(t: Seq<char>) -> ModifierKeyCode {
    if t.len() == 9 && t[5] == 'h' {
        ModifierKeyCode::LeftShift
    } else if t.len() == 11 && t[0] == 'L' {
        ModifierKeyCode::LeftControl
    } else if t.len() == 7 && t[0] == 'L' {
        ModifierKeyCode::LeftAlt
    } else if t.len() == 9 && t[5] == 'u' {
        ModifierKeyCode::LeftSuper
    } else if t.len() == 9 && t[4] == 'H' {
        ModifierKeyCode::LeftHyper
    } else if t.len() == 8 && t[0] == 'L' {
        ModifierKeyCode::LeftMeta
    } else if t.len() == 10 && t[6] == 'h' {
        ModifierKeyCode::RightShift
    } else if t.len() == 12 && t[0] == 'R' {
        ModifierKeyCode::RightControl
    } else if t.len() == 8 && t[0] == 'R' {
        ModifierKeyCode::RightAlt
    } else if t.len() == 10 && t[6] == 'u' {
        ModifierKeyCode::RightSuper
    } else if t.len() == 10 && t[5] == 'H' {
        ModifierKeyCode::RightHyper
    } else if t.len() == 9 && t[0] == 'R' {
        ModifierKeyCode::RightMeta
    } else if t.len() == 14 && t[8] == '3' {
        ModifierKeyCode::IsoLevel3Shift
    } else {
        ModifierKeyCode::IsoLevel5Shift
    }
}

proof fn lemma_decode_modifier(m: ModifierKeyCode)
    ensures
        decode_modifier(modifier_name(m)) == m,
        modifier_name(m).len() >= 7,
{
    reveal_strlit("LeftShift");
    reveal_strlit("LeftControl");
    reveal_strlit("LeftAlt");
    reveal_strlit("LeftSuper");
    reveal_strlit("LeftHyper");
    reveal_strlit("LeftMeta");
    reveal_strlit("RightShift");
    reveal_strlit("RightControl");
    reveal_strlit("RightAlt");
    reveal_strlit("RightSuper");
    reveal_strlit("RightHyper");
    reveal_strlit("RightMeta");
    reveal_strlit("IsoLevel3Shift");
    reveal_strlit("IsoLevel5Shift");
}

/// Recovers a key from its `Debug` text (for the keys listed last).
spec fn decode_fallback(t: Seq<char>) -> KeyCode {
    if t.len() >= 3 && t[0] == 'F' {
        KeyCode::F(choose|n: u8| decimal(n as nat) == t.subrange(2, t.len() - 1))
    } else if t.len() >= 10 && t[0] == 'M' && t[1] == 'o' {
        KeyCode::Modifier(decode_modifier(t.subrange(9, t.len() - 1)))
    } else if t.len() >= 8 && t[0] == 'M' && t[1] == 'e' {
        KeyCode::Media(decode_media(t.subrange(6, t.len() - 1)))
    } else if t.len() == 9 && t[0] == 'B' {
        KeyCode::Backspace
    } else if t.len() == 4 && t[0] == 'H' {
        KeyCode::Home
    } else if t.len() == 3 && t[0] == 'E' {
        KeyCode::End
    } else if t.len() == 6 && t[0] == 'P' {
        KeyCode::PageUp
    } else if t.len() == 8 && t[0] == 'P' {
        KeyCode::PageDown
    } else if t.len() == 3 && t[0] == 'T' {
        KeyCode::Tab
    } else if t.len() == 7 && t[0] == 'B' {
        KeyCode::BackTab
    } else if t.len() == 6 && t[0] == 'D' {
        KeyCode::Delete
    } else if t.len() == 6 && t[0] == 'I' {
        KeyCode::Insert
    } else if t.len() == 4 && t[0] == 'N' {
        KeyCode::Null
    } else if t.len() == 8 && t[0] == 'C' {
        KeyCode::CapsLock
    } else if t.len() == 10 && t[0] == 'S' {
        KeyCode::ScrollLock
    } else if t.len() == 7 && t[0] == 'N' {
        KeyCode::NumLock
    } else if t.len() == 11 && t[0] == 'P' {
        KeyCode::PrintScreen
    } else if t.len() == 5 && t[0] == 'P' {
        KeyCode::Pause
    } else if t.len() == 4 && t[0] == 'M' {
        KeyCode::Menu
    } else {
        KeyCode::KeypadBegin
    }
}

proof fn lemma_decode_fallback(k: KeyCode)
    requires
        sort_rank(k).0 == 3,
    ensures
        decode_fallback(fallback_text(k)) == k,
{
    reveal_strlit("Backspace");
    reveal_strlit("Home");
    reveal_strlit("End");
    reveal_strlit("PageUp");
    reveal_strlit("PageDown");
    reveal_strlit("Tab");
    reveal_strlit("BackTab");
    reveal_strlit("Delete");
    reveal_strlit("Insert");
    reveal_strlit("Null");
    reveal_strlit("CapsLock");
    reveal_strlit("ScrollLock");
    reveal_strlit("NumLock");
    reveal_strlit("PrintScreen");
    reveal_strlit("Pause");
    reveal_strlit("Menu");
    reveal_strlit("KeypadBegin");
    reveal_strlit("F(");
    reveal_strlit(")");
    reveal_strlit("Media(");
    reveal_strlit("Modifier(");
    let t = fallback_text(k);
    match k {
        KeyCode::F(n) => {
            lemma_decimal_len(n as nat);
            assert(t.subrange(2, t.len() - 1) =~= decimal(n as nat));
            assert(t[0] == 'F');
            assert(t.len() >= 3);
            assert(exists|c: u8| decimal(c as nat) == t.subrange(2, t.len() - 1));
            let c = choose|c: u8| decimal(c as nat) == t.subrange(2, t.len() - 1);
            lemma_decimal_injective(c as nat, n as nat);
        },
        KeyCode::Media(m) => {
            assert(t.subrange(6, t.len() - 1) =~= media_name(m));
            lemma_decode_media(m);
            assert(t[0] == 'M' && t[1] == 'e');
            assert(t.len() >= 8);
        },
        KeyCode::Modifier(m) => {
            assert(t.subrange(9, t.len() - 1) =~= modifier_name(m));
            lemma_decode_modifier(m);
            assert(t[0] == 'M' && t[1] == 'o');
            assert(t.len() >= 10);
        },
        _ => {},
    }
}

/// Distinct keys get distinct ranks, so no two keys tie in the listing
/// order.
pub proof fn lemma_sort_rank_injective(a: KeyCode, b: KeyCode)
    requires
        sort_rank(a) == sort_rank(b),
    ensures
        a == b,
{
    if sort_rank(a).0 == 3 {
        lemma_decode_fallback(a);
        lemma_decode_fallback(b);
        assert(fallback_text(a) == fallback_text(b));
    } else {
        let ra = sort_rank(a).1;
        let rb = sort_rank(b).1;
        assert(ra[0] == rb[0]);
        match a {
            KeyCode::Char(c) => {
                assert(b is Char);
            },
            _ => {},
        }
    }
}
/// The listing rank of a key.
pub fn sort_rank_of(key: &KeyCode) -> (r: (u8, String))
    ensures
        r.0 == sort_rank(*key).0,
        r.1@ == sort_rank(*key).1,
{
    let mut s = String::new();
    match *key {
        KeyCode::Char(c) => {
            push_char(&mut s, c);
            (0, s)
        },
        KeyCode::Up => {
            push_char(&mut s, '1');
            (1, s)
        },
        KeyCode::Down => {
            push_char(&mut s, '2');
            (1, s)
        },
        KeyCode::Left => {
            push_char(&mut s, '3');
            (1, s)
        },
        KeyCode::Right => {
            push_char(&mut s, '4');
            (1, s)
        },
        KeyCode::Enter => {
            push_char(&mut s, '1');
            (2, s)
        },
        KeyCode::Esc => {
            push_char(&mut s, '2');
            (2, s)
        },
        _ => (3, fallback_text_string(*key)),
    }
}

/// Compares two ranks.
pub fn rank_before(a: &(u8, String), b: &(u8, String)) -> (r: bool)
    ensures
        r == rank_lt((a.0, a.1@), (b.0, b.1@)),
{
    a.0 < b.0 || (a.0 == b.0 && str_lt(a.1.as_str(), b.1.as_str()))
}

/// `a` is listed before `b`.
pub fn key_before(a: &KeyCode, b: &KeyCode) -> (r: bool)
    ensures
        r == key_lt(*a, *b),
{
    let ra = sort_rank_of(a);
    let rb = sort_rank_of(b);
    rank_before(&ra, &rb)
}

} // verus!
