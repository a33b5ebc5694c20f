use vstd::prelude::*;

verus! {

/// `ISMEX_NOSEND`: the message was not sent.
pub const ISMEX_NOSEND: u32 = 0;

/// `ISMEX_SEND`: the message was sent with `SendMessage` or `SendMessageTimeout`.
pub const ISMEX_SEND: u32 = 1;

/// `ISMEX_NOTIFY`: the message was sent with `SendNotifyMessage`.
pub const ISMEX_NOTIFY: u32 = 2;

/// `ISMEX_CALLBACK`: the message was sent with `SendMessageCallback`.
pub const ISMEX_CALLBACK: u32 = 4;

/// `ISMEX_REPLIED`: the window procedure has processed the message.
pub const ISMEX_REPLIED: u32 = 8;

/// A point in window coordinates.
#[derive(Debug, Default, Copy, Clone, PartialEq, Eq, Structural)]
pub struct Point {
    pub x: i32,
    pub y: i32,
}

/// The signed value of the 16-bit word `word` (`0 <= word < 65536`), read in two's complement.
pub open spec fn signed_word(word: int) -> int {
    if word < 32768 {
        word
    } else {
        word - 65536
    }
}

/// The cursor position held in a value of `GetMessagePos`: the x-coordinate in the
/// low-order word and the y-coordinate in the high-order word, each a signed 16-bit value.
pub fn cursor_position(position: u32) -> (point: Point)
    ensures
        point.x == signed_word(position as int % 65536),
        point.y == signed_word(position as int / 65536),
{
    let low: i32 = (position % 65536) as i32;
    let high: i32 = (position / 65536) as i32;
    let x: i32 = if low < 32768 {
        low
    } else {
        low - 65536
    };
    let y: i32 = if high < 32768 {
        high
    } else {
        high - 65536
    };
    Point { x, y }
}

/// Decides whether the sender of the message being processed is blocked: the message was
/// sent (`ISMEX_SEND`) and has not been replied to (`ISMEX_REPLIED`).
pub fn is_sender_blocked_by(in_send_flags: u32) -> (blocked: bool)
    ensures
        blocked == (in_send_flags & (ISMEX_REPLIED | ISMEX_SEND) == ISMEX_SEND),
        blocked == (in_send_flags & ISMEX_SEND != 0 && in_send_flags & ISMEX_REPLIED == 0),
{
    let blocked = in_send_flags & (ISMEX_REPLIED | ISMEX_SEND) == ISMEX_SEND;
    assert(((in_send_flags & (8u32 | 1u32)) == 1u32) == (in_send_flags & 1u32 != 0
        && in_send_flags & 8u32 == 0)) by (bit_vector);
    blocked
}

} // verus!
