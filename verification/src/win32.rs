//! The Win32-style backend.
//!
//! A window procedure receives `(message, wparam, lparam)` triples;
//! [`decode_message`] is that translation table as a pure function: it turns
//! one native message into the uniform events of [`crate::events::Event`],
//! states which ones need a follow-up query against the operating system,
//! and says what the window procedure must return. The message pump itself
//! (registering the window class, `PeekMessageW`, `GetMessageW`) lives
//! outside the library and hands messages in as plain values.

use vstd::prelude::*;

use crate::error::WindowError;
use crate::events::{Event, Key, MouseButton};

verus! {

pub const WM_ERASEBKGND: u32 = 0x0014;
pub const WM_PAINT: u32 = 0x000F;
pub const WM_INPUT: u32 = 0x00FF;
pub const WM_CLOSE: u32 = 0x0010;
pub const WM_DESTROY: u32 = 0x0002;
pub const WM_KEYDOWN: u32 = 0x0100;
pub const WM_KEYUP: u32 = 0x0101;
pub const WM_CHAR: u32 = 0x0102;
pub const WM_SYSCHAR: u32 = 0x0106;
pub const WM_MOUSEMOVE: u32 = 0x0200;
pub const WM_MOUSEWHEEL: u32 = 0x020A;
pub const WM_MOUSEHWHEEL: u32 = 0x020E;
pub const WM_SETFOCUS: u32 = 0x0007;
pub const WM_KILLFOCUS: u32 = 0x0008;
pub const WM_SIZE: u32 = 0x0005;
pub const WM_SETCURSOR: u32 = 0x0020;
pub const WM_LBUTTONDOWN: u32 = 0x0201;
pub const WM_LBUTTONUP: u32 = 0x0202;
pub const WM_RBUTTONDOWN: u32 = 0x0204;
pub const WM_RBUTTONUP: u32 = 0x0205;
pub const WM_MBUTTONDOWN: u32 = 0x0207;
pub const WM_MBUTTONUP: u32 = 0x0208;
pub const WM_XBUTTONDOWN: u32 = 0x020B;
pub const WM_XBUTTONUP: u32 = 0x020C;
pub const WM_WINDOWPOSCHANGED: u32 = 0x0047;
pub const WM_DROPFILES: u32 = 0x0233;

/// The extended-key bit of a key message's flag word.
pub const KF_EXTENDED: u32 = 0x0100;
/// Virtual-key codes whose left/right variant must be asked of the layout.
pub const VK_SHIFT: u16 = 0x10;
pub const VK_CONTROL: u16 = 0x11;
pub const VK_MENU: u16 = 0x12;
/// The `SetWindowPos` flag that marks a message as carrying no move.
pub const SWP_NOMOVE: u32 = 0x0002;

pub open spec fn spec_loword(x: u32) -> u16 {
    (x & 0xFFFF) as u16
}

pub open spec fn spec_hiword(x: u32) -> u16 {
    ((x >> 16) & 0xFFFF) as u16
}

pub open spec fn spec_lobyte(x: u32) -> u8 {
    (x & 0xFF) as u8
}

pub open spec fn spec_make_word(a: u8, b: u8) -> u16 {
    (a as u16) | ((b as u16) << 8)
}

/// The low word of a 32-bit value.
pub fn loword(x: u32) -> (r: u16)
    ensures r == spec_loword(x),
{
    proof {
        assert(x & 0xFFFF <= 0xFFFF) by (bit_vector);
    }
    (x & 0xFFFF) as u16
}

/// The high word of a 32-bit value.
pub fn hiword(x: u32) -> (r: u16)
    ensures r == spec_hiword(x),
{
    proof {
        assert((x >> 16) & 0xFFFF <= 0xFFFF) by (bit_vector);
    }
    ((x >> 16) & 0xFFFF) as u16
}

/// The low byte of a 32-bit value.
pub fn lobyte(x: u32) -> (r: u8)
    ensures r == spec_lobyte(x),
{
    proof {
        assert(x & 0xFF <= 0xFF) by (bit_vector);
    }
    (x & 0xFF) as u8
}

/// A 16-bit word from a low and a high byte.
pub fn make_word(a: u8, b: u8) -> (r: u16)
    ensures r == spec_make_word(a, b),
{
    let a16: u16 = a as u16;
    let b16: u16 = (b as u16) << 8;
    a16 | b16
}

/// The signed x coordinate packed into the low word of an `lparam`.
pub fn get_x_lparam(x: u32) -> (r: i16)
    ensures r == spec_loword(x) as i16,
{
    #[verifier::truncate] (loword(x) as i16)
}

/// The signed y coordinate packed into the high word of an `lparam`.
pub fn get_y_lparam(x: u32) -> (r: i16)
    ensures r == spec_hiword(x) as i16,
{
    #[verifier::truncate] (hiword(x) as i16)
}

/// A UTF-16 encoding of a string, one or two code units per character.
pub open spec fn spec_utf16_encode_char(c: char) -> Seq<u16> {
    if (c as u32) < 0x10000 {
        seq![(c as u32) as u16]
    } else {
        seq![
            (0xD800 + (((c as u32) - 0x10000) / 0x400)) as u16,
            (0xDC00 + (((c as u32) - 0x10000) % 0x400)) as u16,
        ]
    }
}

pub open spec fn spec_utf16_encode(s: Seq<char>) -> Seq<u16>
    decreases s.len(),
{
    if s.len() == 0 {
        Seq::empty()
    } else {
        spec_utf16_encode_char(s[0]) + spec_utf16_encode(s.skip(1))
    }
}

proof fn lemma_utf16_encode_push(s: Seq<char>, c: char)
    ensures spec_utf16_encode(s.push(c)) == spec_utf16_encode(s) + spec_utf16_encode_char(c),
    decreases s.len(),
{
    if s.len() == 0 {
        assert(s.push(c)[0] == c);
        assert(s.push(c).skip(1) =~= Seq::<char>::empty());
        assert(spec_utf16_encode(s.push(c))
            == spec_utf16_encode_char(c) + spec_utf16_encode(Seq::<char>::empty()));
        assert(spec_utf16_encode(s.push(c)) =~= spec_utf16_encode_char(c));
        assert(spec_utf16_encode(s) + spec_utf16_encode_char(c) =~= spec_utf16_encode_char(c));
    } else {
        assert(s.push(c)[0] == s[0]);
        assert(s.push(c).skip(1) =~= s.skip(1).push(c));
        lemma_utf16_encode_push(s.skip(1), c);
        assert(spec_utf16_encode(s.push(c))
            == spec_utf16_encode_char(s[0]) + spec_utf16_encode(s.skip(1).push(c)));
        assert(spec_utf16_encode(s.push(c)) =~= spec_utf16_encode(s) + spec_utf16_encode_char(c));
    }
}

/// Encodes text as UTF-16 code units with a terminating zero unit, the
/// form Win32 text functions take.
pub fn utf8_to_utf16_null(text: &str) -> (r: Vec<u16>)
    ensures r@ == spec_utf16_encode(text@).push(0u16),
{
    let mut out: Vec<u16> = Vec::new();
    let n: usize = text.unicode_len();
    let mut i: usize = 0;
    while i < n
        invariant
            n == text@.len(),
            0 <= i <= n,
            out@ == spec_utf16_encode(text@.take(i as int)),
        decreases n - i,
    {
        let c = text.get_char(i);
        proof {
            lemma_utf16_encode_push(text@.take(i as int), c);
            assert(text@.take(i as int).push(c) =~= text@.take(i + 1int));
        }
        let code: u32 = c as u32;
        if code < 0x10000 {
            out.push(#[verifier::truncate] (code as u16));
        } else {
            let high: u32 = 0xD800 + ((code - 0x10000) / 0x400);
            let low: u32 = 0xDC00 + ((code - 0x10000) % 0x400);
            proof {
                lemma_char_bound(c);
                assert(high <= 0xFFFF && low <= 0xFFFF) by (nonlinear_arith)
                    requires
                        0x10000 <= code <= 0x10FFFF,
                        high == 0xD800 + ((code - 0x10000) / 0x400),
                        low == 0xDC00 + ((code - 0x10000) % 0x400),
                ;
            }
            out.push(high as u16);
            out.push(low as u16);
        }
        proof {
            assert(out@ =~= spec_utf16_encode(text@.take(i + 1int)));
        }
        i = i + 1;
    }
    proof {
        assert(text@.take(n as int) =~= text@);
    }
    out.push(0u16);
    out
}

/// Every `char` is a Unicode scalar value, so it stays at or below 0x10FFFF.
pub proof fn lemma_char_bound(c: char)
    ensures c as u32 <= 0x10FFFF,
{
    vstd::utf8::char_is_scalar(c);
}

/// What the window procedure must return for a message.
#[derive(Clone, Copy, Debug, PartialEq, Eq, Structural)]
pub enum LresultAction {
    /// Return this value directly.
    Value(i64),
    /// Hand the message to the default window procedure.
    Forward,
}

/// A follow-up the decoder asks of the operating system before the message
/// is fully handled. The answers go back in through the `finish_*` and
/// `*_event` functions of this module.
#[derive(Clone, Copy, Debug, PartialEq, Eq, Structural)]
pub enum OsQuery {
    /// Nothing further is needed.
    Nothing,
    /// Ask the keyboard layout which left/right modifier this scan code is,
    /// then build the key event with [`finish_modifier_key`].
    RemapModifierKey { scancode: u16, down: bool },
    /// Read the raw-input record behind the message, then build the event
    /// with [`raw_mouse_motion_event`].
    RawInput,
    /// Read the window-position record behind the message, then build the
    /// event with [`window_pos_event`].
    WindowPos,
    /// Query the dropped files behind the message, then build one event per
    /// file with [`file_received_event`].
    DropFiles,
}

/// One native message, as the window procedure receives it.
#[derive(Clone, Copy, Debug)]
pub struct Win32Msg {
    pub hwnd: u64,
    pub message: u32,
    pub wparam: u64,
    pub lparam: i64,
}

/// The decoder's verdict on one message.
#[derive(Clone, Debug)]
pub struct Win32Decoded {
    /// The uniform events the message carries, in order.
    pub events: Vec<Event>,
    /// A follow-up query the caller must run against the operating system.
    pub query: OsQuery,
    /// What the window procedure returns for this message.
    pub action: LresultAction,
}

/// The messages the translation table handles; all others are forwarded
/// untouched to the default window procedure.
pub open spec fn handled_message(m: u32) -> bool {
    ||| m == WM_ERASEBKGND
    ||| m == WM_PAINT
    ||| m == WM_INPUT
    ||| m == WM_CLOSE
    ||| m == WM_DESTROY
    ||| m == WM_KEYDOWN
    ||| m == WM_KEYUP
    ||| m == WM_CHAR
    ||| m == WM_SYSCHAR
    ||| m == WM_MOUSEMOVE
    ||| m == WM_MOUSEWHEEL
    ||| m == WM_MOUSEHWHEEL
    ||| m == WM_SETFOCUS
    ||| m == WM_KILLFOCUS
    ||| m == WM_SIZE
    ||| m == WM_SETCURSOR
    ||| m == WM_LBUTTONDOWN
    ||| m == WM_LBUTTONUP
    ||| m == WM_RBUTTONDOWN
    ||| m == WM_RBUTTONUP
    ||| m == WM_MBUTTONDOWN
    ||| m == WM_MBUTTONUP
    ||| m == WM_XBUTTONDOWN
    ||| m == WM_XBUTTONUP
    ||| m == WM_WINDOWPOSCHANGED
    ||| m == WM_DROPFILES
}

pub open spec fn is_high_surrogate(c: u16) -> bool {
    0xD800 <= c <= 0xDBFF
}

pub open spec fn is_low_surrogate(c: u16) -> bool {
    0xDC00 <= c <= 0xDFFF
}

/// The scalar value of a UTF-16 surrogate pair.
pub open spec fn spec_combine_surrogates(hi: u16, lo: u16) -> u32 {
    (0x10000 + (((hi - 0xD800) * 0x400) + (lo - 0xDC00))) as u32
}

/// The signed wheel value packed into the high word of a `wparam`.
pub open spec fn spec_wheel_value(wparam: u64) -> int {
    ((wparam >> 16) as u16) as i16 as int
}

/// Relies on `core::char::from_u32`: it returns the character of a valid
/// Unicode scalar value, and `None` exactly for surrogates and values above
/// the Unicode maximum.
pub assume_specification[ char::from_u32 ](i: u32) -> (r: Option<char>)
    ensures
        r is None <==> (0xD800 <= i <= 0xDFFF || i > 0x10FFFF),
        r matches Some(c) ==> c as u32 == i,
;

/// The key event of a modifier key, once the keyboard layout answered a
/// [`OsQuery::RemapModifierKey`] query with `mapped`.
pub fn finish_modifier_key(mapped: u32, scancode: u16, down: bool) -> (e: Event)
    ensures
        down ==> e == (Event::KeyDown {
            key: Key(spec_loword(mapped) as u64),
            scancode: scancode as u32,
        }),
        !down ==> e == (Event::KeyUp {
            key: Key(spec_loword(mapped) as u64),
            scancode: scancode as u32,
        }),
{
    let vk = loword(mapped);
    if down {
        Event::KeyDown { key: Key(vk as u64), scancode: scancode as u32 }
    } else {
        Event::KeyUp { key: Key(vk as u64), scancode: scancode as u32 }
    }
}

/// The event of a relative raw-mouse report, once the record behind a
/// [`OsQuery::RawInput`] query was read.
pub fn raw_mouse_motion_event(delta_x: i32, delta_y: i32) -> (e: Event)
    ensures e == (Event::RawMouseMotion { delta_x, delta_y }),
{
    Event::RawMouseMotion { delta_x, delta_y }
}

/// The event of a window-position record, once it was read behind a
/// [`OsQuery::WindowPos`] query: a move event unless the record is flagged
/// as carrying no move.
pub fn window_pos_event(flags: u32, x: i32, y: i32) -> (e: Option<Event>)
    ensures
        flags & SWP_NOMOVE != SWP_NOMOVE ==> e == Some(Event::Moved { x, y }),
        flags & SWP_NOMOVE == SWP_NOMOVE ==> e is None,
{
    if flags & SWP_NOMOVE != SWP_NOMOVE {
        Some(Event::Moved { x, y })
    } else {
        None
    }
}

/// The event of one dropped file, once its path was queried behind a
/// [`OsQuery::DropFiles`] query.
pub fn file_received_event(path: String) -> (e: Event)
    ensures e == (Event::FileReceived { path }),
{
    Event::FileReceived { path }
}

/// Everything [`decode_message`] promises of the decoding of one message:
/// `lc0` and `lc1` are the pending-surrogate state before and after.
pub open spec fn decode_post(msg: Win32Msg, lc0: u16, lc1: u16, d: Win32Decoded) -> bool {
    &&& (// Messages other than character input leave the surrogate state alone.
        msg.message != WM_CHAR && msg.message != WM_SYSCHAR
            ==> lc1 == lc0)
    &&& (msg.message == WM_ERASEBKGND ==> d.events@ =~= Seq::<Event>::empty()
            && d.query == OsQuery::Nothing && d.action == LresultAction::Value(1))
    &&& (msg.message == WM_PAINT ==> d.events@ =~= seq![Event::Render]
            && d.query == OsQuery::Nothing && d.action == LresultAction::Value(0))
    &&& (msg.message == WM_INPUT ==> d.events@ =~= Seq::<Event>::empty()
            && d.query == OsQuery::RawInput && d.action == LresultAction::Forward)
    &&& (msg.message == WM_CLOSE ==> d.events@ =~= seq![Event::CloseRequested]
            && d.query == OsQuery::Nothing && d.action == LresultAction::Value(0))
    &&& (msg.message == WM_DESTROY ==> d.events@ =~= seq![Event::Destroyed]
            && d.query == OsQuery::Nothing && d.action == LresultAction::Value(0))
    &&& (msg.message == WM_KEYDOWN || msg.message == WM_KEYUP ==> {
            let vk = spec_loword(msg.wparam as u32);
            let key_flag = spec_hiword(msg.lparam as u32);
            let scan = if key_flag as u32 & KF_EXTENDED == KF_EXTENDED {
                spec_make_word(spec_lobyte(key_flag as u32), 0xE0)
            } else {
                spec_lobyte(key_flag as u32) as u16
            };
            &&& d.action == LresultAction::Value(0)
            &&& if vk == VK_SHIFT || vk == VK_CONTROL || vk == VK_MENU {
                d.events@ =~= Seq::<Event>::empty() && d.query == (OsQuery::RemapModifierKey {
                    scancode: scan,
                    down: msg.message == WM_KEYDOWN,
                })
            } else {
                d.query == OsQuery::Nothing && if msg.message == WM_KEYDOWN {
                    d.events@ =~= seq![Event::KeyDown { key: Key(vk as u64), scancode: scan as u32 }]
                } else {
                    d.events@ =~= seq![Event::KeyUp { key: Key(vk as u64), scancode: scan as u32 }]
                }
            }
        })
    &&& (msg.message == WM_MOUSEMOVE ==> d.events@ =~= seq![Event::CursorMoved {
            x: spec_loword(msg.lparam as u32) as i16 as i32,
            y: spec_hiword(msg.lparam as u32) as i16 as i32,
        }] && d.query == OsQuery::Nothing && d.action == LresultAction::Value(0))
    &&& (msg.message == WM_MOUSEWHEEL ==> d.events@ =~= seq![Event::MouseWheel {
            delta_x: 0,
            delta_y: spec_wheel_value(msg.wparam) as i32,
        }] && d.query == OsQuery::Nothing && d.action == LresultAction::Value(0))
    &&& (msg.message == WM_MOUSEHWHEEL ==> d.events@ =~= seq![Event::MouseWheel {
            delta_x: (0 - spec_wheel_value(msg.wparam)) as i32,
            delta_y: 0,
        }] && d.query == OsQuery::Nothing && d.action == LresultAction::Value(0))
    &&& (msg.message == WM_SETFOCUS ==> d.events@ =~= seq![Event::Focused { focused: true }]
            && d.query == OsQuery::Nothing && d.action == LresultAction::Value(0))
    &&& (msg.message == WM_KILLFOCUS ==> d.events@ =~= seq![Event::Focused { focused: false }]
            && d.query == OsQuery::Nothing && d.action == LresultAction::Value(0))
    &&& (msg.message == WM_SIZE ==> d.events@ =~= seq![Event::Resized {
            width: spec_loword(msg.lparam as u32) as i32,
            height: spec_hiword(msg.lparam as u32) as i32,
        }] && d.query == OsQuery::Nothing && d.action == LresultAction::Value(0))
    &&& (msg.message == WM_SETCURSOR ==> d.events@ =~= Seq::<Event>::empty()
            && d.query == OsQuery::Nothing && d.action == LresultAction::Forward)
    &&& (msg.message == WM_LBUTTONDOWN ==> d.events@ =~= seq![Event::MouseButtonDown {
            button: MouseButton(1),
        }] && d.query == OsQuery::Nothing && d.action == LresultAction::Value(0))
    &&& (msg.message == WM_LBUTTONUP ==> d.events@ =~= seq![Event::MouseButtonRelease {
            button: MouseButton(1),
        }] && d.query == OsQuery::Nothing && d.action == LresultAction::Value(0))
    &&& (msg.message == WM_RBUTTONDOWN ==> d.events@ =~= seq![Event::MouseButtonDown {
            button: MouseButton(3),
        }] && d.query == OsQuery::Nothing && d.action == LresultAction::Value(0))
    &&& (msg.message == WM_RBUTTONUP ==> d.events@ =~= seq![Event::MouseButtonRelease {
            button: MouseButton(3),
        }] && d.query == OsQuery::Nothing && d.action == LresultAction::Value(0))
    &&& (msg.message == WM_MBUTTONDOWN ==> d.events@ =~= seq![Event::MouseButtonDown {
            button: MouseButton(2),
        }] && d.query == OsQuery::Nothing && d.action == LresultAction::Value(0))
    &&& (msg.message == WM_MBUTTONUP ==> d.events@ =~= seq![Event::MouseButtonRelease {
            button: MouseButton(2),
        }] && d.query == OsQuery::Nothing && d.action == LresultAction::Value(0))
    &&& (msg.message == WM_XBUTTONDOWN ==> d.events@ =~= seq![Event::MouseButtonDown {
            button: MouseButton((10 + spec_hiword(msg.wparam as u32)) as u32),
        }] && d.query == OsQuery::Nothing && d.action == LresultAction::Value(0))
    &&& (msg.message == WM_XBUTTONUP ==> d.events@ =~= seq![Event::MouseButtonRelease {
            button: MouseButton((10 + spec_hiword(msg.wparam as u32)) as u32),
        }] && d.query == OsQuery::Nothing && d.action == LresultAction::Value(0))
    &&& (msg.message == WM_CHAR || msg.message == WM_SYSCHAR ==> {
            let c = msg.wparam as u16;
            &&& d.query == OsQuery::Nothing
            &&& d.action == if msg.message == WM_SYSCHAR {
                LresultAction::Forward
            } else {
                LresultAction::Value(0)
            }
            &&& if is_high_surrogate(c) {
                d.events@ =~= Seq::<Event>::empty() && lc1 == c
            } else if is_low_surrogate(c) {
                &&& lc1 == 0
                &&& if is_high_surrogate(lc0) {
                    exists|ch: char| ch as u32 == spec_combine_surrogates(lc0, c)
                        && d.events@ =~= seq![Event::ReceivedCharacter { character: ch }]
                } else {
                    d.events@ =~= Seq::<Event>::empty()
                }
            } else {
                lc1 == lc0
                    && exists|ch: char| ch as u32 == c as u32
                        && d.events@ =~= seq![Event::ReceivedCharacter { character: ch }]
            }
        })
    &&& (msg.message == WM_WINDOWPOSCHANGED ==> d.events@ =~= Seq::<Event>::empty()
            && d.query == OsQuery::WindowPos && d.action == LresultAction::Forward)
    &&& (msg.message == WM_DROPFILES ==> d.events@ =~= Seq::<Event>::empty()
            && d.query == OsQuery::DropFiles && d.action == LresultAction::Value(0))
    &&& (!handled_message(msg.message) ==> d.events@ =~= Seq::<Event>::empty()
            && d.query == OsQuery::Nothing && d.action == LresultAction::Forward)
}

/// Decodes one native message into uniform events.
///
/// This is the window procedure's translation table. `last_char` is the
/// pending high surrogate of a split UTF-16 character, kept across
/// messages; a malformed pair is dropped rather than decoded. A close
/// request decodes to exactly one `CloseRequested` event and nothing else;
/// the whole table is stated by [`decode_post`].
#[verifier::rlimit(30)]
pub fn decode_message(msg: &Win32Msg, last_char: &mut u16) -> (d: Win32Decoded)
    ensures decode_post(*msg, *old(last_char), *final(last_char), d),
{
    let mut events: Vec<Event> = Vec::new();
    let mut query = OsQuery::Nothing;
    let mut action = LresultAction::Value(0);

    if msg.message == WM_ERASEBKGND {
        action = LresultAction::Value(1);
    } else if msg.message == WM_PAINT {
        events.push(Event::Render);
    } else if msg.message == WM_INPUT {
        query = OsQuery::RawInput;
        action = LresultAction::Forward;
    } else if msg.message == WM_CLOSE {
        events.push(Event::CloseRequested);
    } else if msg.message == WM_DESTROY {
        events.push(Event::Destroyed);
    } else if msg.message == WM_KEYDOWN || msg.message == WM_KEYUP {
        let vk: u16 = loword(#[verifier::truncate] (msg.wparam as u32));
        let key_flag: u16 = hiword(#[verifier::truncate] (msg.lparam as u32));
        let mut scan: u16 = lobyte(key_flag as u32) as u16;
        if key_flag as u32 & KF_EXTENDED == KF_EXTENDED {
            scan = make_word(#[verifier::truncate] (scan as u8), 0xE0);
        }
        let down = msg.message == WM_KEYDOWN;
        if vk == VK_SHIFT || vk == VK_CONTROL || vk == VK_MENU {
            query = OsQuery::RemapModifierKey { scancode: scan, down };
        } else if down {
            events.push(Event::KeyDown { key: Key(vk as u64), scancode: scan as u32 });
        } else {
            events.push(Event::KeyUp { key: Key(vk as u64), scancode: scan as u32 });
        }
    } else if msg.message == WM_MOUSEMOVE {
        let x = get_x_lparam(#[verifier::truncate] (msg.lparam as u32)) as i32;
        let y = get_y_lparam(#[verifier::truncate] (msg.lparam as u32)) as i32;
        events.push(Event::CursorMoved { x, y });
    } else if msg.message == WM_MOUSEWHEEL {
        let wp: u64 = msg.wparam;
        let value: i16 = #[verifier::truncate] ((wp >> 16) as i16);
        proof {
            assert((wp >> 16) as i16 == ((wp >> 16) as u16) as i16) by (bit_vector);
        }
        events.push(Event::MouseWheel { delta_x: 0, delta_y: value as i32 });
    } else if msg.message == WM_MOUSEHWHEEL {
        let wp: u64 = msg.wparam;
        let value: i16 = #[verifier::truncate] ((wp >> 16) as i16);
        proof {
            assert((wp >> 16) as i16 == ((wp >> 16) as u16) as i16) by (bit_vector);
        }
        events.push(Event::MouseWheel { delta_x: 0i32 - value as i32, delta_y: 0 });
    } else if msg.message == WM_SETFOCUS {
        events.push(Event::Focused { focused: true });
    } else if msg.message == WM_KILLFOCUS {
        events.push(Event::Focused { focused: false });
    } else if msg.message == WM_SIZE {
        let w = loword(#[verifier::truncate] (msg.lparam as u32)) as i32;
        let h = hiword(#[verifier::truncate] (msg.lparam as u32)) as i32;
        events.push(Event::Resized { width: w, height: h });
    } else if msg.message == WM_SETCURSOR {
        action = LresultAction::Forward;
    } else if msg.message == WM_LBUTTONDOWN {
        events.push(Event::MouseButtonDown { button: MouseButton(1) });
    } else if msg.message == WM_LBUTTONUP {
        events.push(Event::MouseButtonRelease { button: MouseButton(1) });
    } else if msg.message == WM_RBUTTONDOWN {
        events.push(Event::MouseButtonDown { button: MouseButton(3) });
    } else if msg.message == WM_RBUTTONUP {
        events.push(Event::MouseButtonRelease { button: MouseButton(3) });
    } else if msg.message == WM_MBUTTONDOWN {
        events.push(Event::MouseButtonDown { button: MouseButton(2) });
    } else if msg.message == WM_MBUTTONUP {
        events.push(Event::MouseButtonRelease { button: MouseButton(2) });
    } else if msg.message == WM_XBUTTONDOWN {
        let b = hiword(#[verifier::truncate] (msg.wparam as u32));
        events.push(Event::MouseButtonDown { button: MouseButton(10 + b as u32) });
    } else if msg.message == WM_XBUTTONUP {
        let b = hiword(#[verifier::truncate] (msg.wparam as u32));
        events.push(Event::MouseButtonRelease { button: MouseButton(10 + b as u32) });
    } else if msg.message == WM_CHAR || msg.message == WM_SYSCHAR {
        let c: u16 = #[verifier::truncate] (msg.wparam as u16);
        if 0xD800 <= c && c <= 0xDBFF {
            *last_char = c;
        } else if 0xDC00 <= c && c <= 0xDFFF {
            let hi: u16 = *last_char;
            if 0xD800 <= hi && hi <= 0xDBFF {
                let scalar: u32 = 0x10000 + (((hi - 0xD800) as u32) * 0x400) + ((c - 0xDC00) as u32);
                proof {
                    assert(scalar == spec_combine_surrogates(hi, c));
                    assert(0x10000 <= scalar <= 0x10FFFF);
                }
                match char::from_u32(scalar) {
                    Some(ch) => {
                        events.push(Event::ReceivedCharacter { character: ch });
                    },
                    None => {},
                }
            }
            *last_char = 0;
        } else {
            match char::from_u32(c as u32) {
                Some(ch) => {
                    events.push(Event::ReceivedCharacter { character: ch });
                },
                None => {},
            }
        }
        if msg.message == WM_SYSCHAR {
            action = LresultAction::Forward;
        }
    } else if msg.message == WM_WINDOWPOSCHANGED {
        query = OsQuery::WindowPos;
        action = LresultAction::Forward;
    } else if msg.message == WM_DROPFILES {
        query = OsQuery::DropFiles;
    } else {
        action = LresultAction::Forward;
    }

    Win32Decoded { events, query, action }
}


/// Window-class styles of the default event-handler builder.
pub const CS_VREDRAW: u32 = 0x0001;
pub const CS_HREDRAW: u32 = 0x0002;
pub const CS_OWNDC: u32 = 0x0020;

/// Lets the system pick a default position or size for a new window.
pub const CW_USEDEFAULT: i32 = -2147483648;

pub const WS_OVERLAPPEDWINDOW: u32 = 0x00CF0000;
pub const WS_EX_OVERLAPPEDWINDOW: u32 = 0x00000300;
pub const WS_EX_ACCEPTFILES: u32 = 0x00000010;

/// The per-thread platform session of the Win32 backend: the explicit form
/// of what the thread-local window-class slot and user-data pointer held.
/// At most one event handler, and one live window, exist per session.
pub struct Win32Session {
    /// Whether this session's window class is registered.
    pub class_registered: bool,
    /// Whether an application callback target is bound to this session.
    pub app_bound: bool,
    /// The pending high surrogate of a split UTF-16 character.
    pub last_char: u16,
    /// The window handed out by the window builder, if any.
    pub window: Option<u64>,
    /// The identifier the next window will get.
    pub next_window_id: u64,
}

impl Win32Session {
    /// A fresh session with nothing registered.
    pub fn new() -> (s: Self)
        ensures
            !s.class_registered,
            !s.app_bound,
            s.last_char == 0,
            s.window is None,
            s.next_window_id == 1,
    {
        Win32Session {
            class_registered: false,
            app_bound: false,
            last_char: 0,
            window: None,
            next_window_id: 1,
        }
    }
}

/// A handle to one Win32-style window, a copyable reference to the native
/// window object. It does not own the object: the window outlives or
/// predeceases the handle as the operating system decides.
#[derive(Clone, Copy, Debug, Default, PartialEq, Eq, Structural)]
pub struct WindowHandle {
    pub hwnd: u64,
}

/// Configuration for one Win32-style window.
#[derive(Clone, Debug)]
pub struct WindowBuilder {
    pub x: i32,
    pub y: i32,
    pub width: i32,
    pub height: i32,
    pub style: u32,
    pub ex_style: u32,
    pub title: String,
}

impl WindowBuilder {
    /// The default configuration: an overlapped window that accepts
    /// dropped files, with system-chosen position and size.
    pub fn new() -> (b: Self)
        ensures
            b.x == CW_USEDEFAULT && b.y == CW_USEDEFAULT,
            b.width == CW_USEDEFAULT && b.height == CW_USEDEFAULT,
            b.style == WS_OVERLAPPEDWINDOW,
            b.ex_style == WS_EX_ACCEPTFILES | WS_EX_OVERLAPPEDWINDOW,
            b.title@ == Seq::<char>::empty(),
    {
        WindowBuilder {
            x: CW_USEDEFAULT,
            y: CW_USEDEFAULT,
            width: CW_USEDEFAULT,
            height: CW_USEDEFAULT,
            style: WS_OVERLAPPEDWINDOW,
            ex_style: WS_EX_ACCEPTFILES | WS_EX_OVERLAPPEDWINDOW,
            title: String::new(),
        }
    }

    /// The same configuration with another title.
    pub fn with_title(self, title: &str) -> (b: Self)
        ensures
            b.title@ == title@,
            b == (WindowBuilder { title: b.title, ..self }),
    {
        WindowBuilder { title: title.to_owned(), ..self }
    }

    /// The same configuration with another client size.
    pub fn with_size(self, width: i32, height: i32) -> (b: Self)
        ensures b == (WindowBuilder { width, height, ..self }),
    {
        WindowBuilder { width, height, ..self }
    }

    /// The same configuration with another position.
    pub fn with_position(self, x: i32, y: i32) -> (b: Self)
        ensures b == (WindowBuilder { x, y, ..self }),
    {
        WindowBuilder { x, y, ..self }
    }

    /// Hands out the session's one window.
    ///
    /// A second window on the same session is refused and the session is
    /// left untouched: the per-thread callback slot can route events to
    /// only one live window.
    pub fn build(&self, session: &mut Win32Session) -> (r: Result<WindowHandle, WindowError>)
        requires
            old(session).class_registered,
            old(session).next_window_id < u64::MAX,
        ensures
            old(session).window is Some ==> r == Err::<WindowHandle, WindowError>(
                WindowError::WindowExists,
            ) && *final(session) == *old(session),
            old(session).window is None ==> r == Ok::<WindowHandle, WindowError>(WindowHandle {
                hwnd: old(session).next_window_id,
            }) && *final(session) == (Win32Session {
                window: Some(old(session).next_window_id),
                next_window_id: (old(session).next_window_id + 1) as u64,
                ..*old(session)
            }),
    {
        if session.window.is_some() {
            return Err(WindowError::WindowExists);
        }
        let id = session.next_window_id;
        session.window = Some(id);
        session.next_window_id = id + 1;
        Ok(WindowHandle { hwnd: id })
    }
}

/// The Win32-style event handler: the message pump state. Native messages
/// are posted in as plain values; `poll` and `wait` move one of them into
/// the current slot, and `dispatch` decodes it.
pub struct EventHandler {
    /// Messages received from the operating system and not yet decoded.
    pub queue: Vec<Win32Msg>,
    /// The message the next dispatch will decode.
    pub current: Option<Win32Msg>,
}

impl EventHandler {
    /// Receives one native message into the queue.
    pub fn post(&mut self, msg: Win32Msg)
        ensures
            final(self).queue@ == old(self).queue@.push(msg),
            final(self).current == old(self).current,
    {
        self.queue.push(msg);
    }

    /// Non-blocking check for a queued message. Returns 1 and holds the
    /// message for dispatch when one is present, 0 otherwise.
    pub fn poll(&mut self) -> (r: i32)
        ensures
            old(self).queue@.len() == 0 ==> r == 0 && *final(self) == *old(self),
            old(self).queue@.len() > 0 ==> r == 1
                && final(self).current == Some(old(self).queue@[0])
                && final(self).queue@ == old(self).queue@.drop_first(),
    {
        if self.queue.len() == 0 {
            0
        } else {
            let msg = self.queue.remove(0);
            self.current = Some(msg);
            1
        }
    }

    /// Receives exactly one message. The real pump blocks until one
    /// arrives; here a message must already have been posted.
    pub fn wait(&mut self) -> (r: i32)
        requires old(self).queue@.len() > 0,
        ensures
            r == 1,
            final(self).current == Some(old(self).queue@[0]),
            final(self).queue@ == old(self).queue@.drop_first(),
    {
        let msg = self.queue.remove(0);
        self.current = Some(msg);
        1
    }

    /// Decodes the currently held message, exactly one per call.
    ///
    /// A session with no bound application swallows the message and
    /// forwards it, as the window procedure does before the callback
    /// target exists.
    pub fn dispatch(&mut self, session: &mut Win32Session) -> (d: Win32Decoded)
        requires old(self).current is Some,
        ensures
            *final(self) == *old(self),
            !old(session).app_bound ==> *final(session) == *old(session)
                && d.events@ =~= Seq::<Event>::empty() && d.query == OsQuery::Nothing
                && d.action == LresultAction::Forward,
            old(session).app_bound ==> final(session).app_bound
                && final(session).class_registered == old(session).class_registered
                && final(session).window == old(session).window
                && final(session).next_window_id == old(session).next_window_id
                && decode_post(
                old(self).current->0,
                old(session).last_char,
                final(session).last_char,
                d,
            ),
    {
        if !session.app_bound {
            return Win32Decoded {
                events: Vec::new(),
                query: OsQuery::Nothing,
                action: LresultAction::Forward,
            };
        }
        let msg = match &self.current {
            Some(m) => *m,
            None => {
                proof {
                    assert(false);
                }
                Win32Msg { hwnd: 0, message: 0, wparam: 0, lparam: 0 }
            },
        };
        let mut lc = session.last_char;
        let d = decode_message(&msg, &mut lc);
        session.last_char = lc;
        d
    }
}

/// Configuration of the Win32-style event handler: the window-class style
/// it registers.
#[derive(Clone, Copy, Debug)]
pub struct EventHandlerBuilder {
    pub class_style: u32,
}

impl EventHandlerBuilder {
    /// The default class style: one device context per window, redraw on
    /// horizontal and vertical size changes.
    pub fn new() -> (b: Self)
        ensures b.class_style == CS_OWNDC | CS_HREDRAW | CS_VREDRAW,
    {
        EventHandlerBuilder { class_style: CS_OWNDC | CS_HREDRAW | CS_VREDRAW }
    }

    /// Registers this session's window class and binds the application.
    ///
    /// A thread allows one event handler: a session that already holds a
    /// registered class refuses a second build and is left untouched.
    /// `create_ok` is what the application's create step reported; on
    /// failure the class registration is rolled back, as the teardown of
    /// the half-built handler would do.
    pub fn build(&self, session: &mut Win32Session, create_ok: bool) -> (r: Result<
        EventHandler,
        WindowError,
    >)
        ensures
            old(session).class_registered ==> (r matches Err(e)
                && e == WindowError::HandlerExists) && *final(session) == *old(session),
            !old(session).class_registered && !create_ok ==> (r matches Err(e)
                && e == WindowError::CreateFailed) && *final(session) == *old(session),
            !old(session).class_registered && create_ok ==> (r matches Ok(h)
                && h.queue@ =~= Seq::<Win32Msg>::empty() && h.current is None)
                && *final(session) == (Win32Session {
                    class_registered: true,
                    app_bound: true,
                    ..*old(session)
                }),
    {
        if session.class_registered {
            return Err(WindowError::HandlerExists);
        }
        if !create_ok {
            return Err(WindowError::CreateFailed);
        }
        session.class_registered = true;
        session.app_bound = true;
        Ok(EventHandler { queue: Vec::new(), current: None })
    }
}


impl WindowHandle {
    /// Destroys the window object: the session's one window slot opens
    /// up again, and the operating system will deliver the destroyed
    /// notification through the message pump.
    pub fn destroy(&mut self, session: &mut Win32Session) -> (r: Result<(), WindowError>)
        ensures
            r == Ok::<(), WindowError>(()),
            final(session).window == (if old(session).window == Some(old(self).hwnd) {
                Option::<u64>::None
            } else {
                old(session).window
            }),
            final(session).class_registered == old(session).class_registered,
            final(session).app_bound == old(session).app_bound,
            final(session).last_char == old(session).last_char,
            final(session).next_window_id == old(session).next_window_id,
    {
        match session.window {
            Some(w) => {
                if w == self.hwnd {
                    session.window = None;
                }
            },
            None => {},
        }
        Ok(())
    }
}

impl EventHandler {
    /// Tears the handler down: the window class is unregistered and the
    /// application unbound, so a new event handler can be built on this
    /// session.
    pub fn destroy(&mut self, session: &mut Win32Session) -> (r: Result<(), WindowError>)
        ensures
            r == Ok::<(), WindowError>(()),
            *final(session) == (Win32Session {
                class_registered: false,
                app_bound: false,
                ..*old(session)
            }),
            *final(self) == *old(self),
    {
        session.class_registered = false;
        session.app_bound = false;
        Ok(())
    }
}
} // verus!
