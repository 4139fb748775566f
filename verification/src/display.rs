//! What the display shows: the poll schedule and the text of a rate.
//!
//! A rate is shown in megabits per second with two decimals, followed by
//! the unit and an arrow for its direction. The caller converts and rounds
//! the number (bytes per second times [`BITS_PER_BYTE`], divided by
//! [`BITS_PER_MEGABIT`]), since floating point is its side; the text
//! around the number is put together here.

use vstd::prelude::*;
use vstd::string::*;
use crate::sample::TelemetrySample;
use crate::store::SampleStore;

verus! {

/// The time between two polls of the store, in milliseconds.
pub const POLL_INTERVAL_MS: u64 = 200;

/// Bits in a byte.
pub const BITS_PER_BYTE: u64 = 8;

/// Bits per second in a megabit per second.
pub const BITS_PER_MEGABIT: u64 = 1_000_000;

/// Decimals shown of a rate.
pub const RATE_DECIMALS: usize = 2;

/// The direction of a rate.
#[derive(Clone, Copy, Debug, PartialEq, Eq, Structural)]
pub enum Direction {
    Receive,
    Transmit,
}

/// The arrow that marks a direction: down for receive, up for transmit.
pub open spec fn arrow(direction: Direction) -> char {
    match direction {
        Direction::Receive => '↓',
        Direction::Transmit => '↑',
    }
}

/// The unit that follows the number, with the blanks around it.
pub open spec fn unit() -> Seq<char> {
    seq![' ', 'M', 'b', 'p', 's', ' ']
}

/// The text shown for a rate whose number is written `value`.
pub open spec fn label_text(value: Seq<char>, direction: Direction) -> Seq<char> {
    value + unit() + seq![arrow(direction)]
}

/// Puts the unit and the arrow behind a number.
pub fn label(value: &str, direction: Direction) -> (text: String)
    ensures
        text@ == label_text(value@, direction),
{
    let mut text = String::from_str(value);
    text.push(' ');
    text.push('M');
    text.push('b');
    text.push('p');
    text.push('s');
    text.push(' ');
    match direction {
        Direction::Receive => text.push('↓'),
        Direction::Transmit => text.push('↑'),
    }
    assert(text@ =~= label_text(value@, direction));
    text
}

/// One poll: the sample to show, or `None` where the window is gone, in
/// which case the poll does nothing. What is shown is finite: no infinity
/// and no NaN reaches the display.
pub fn tick(window_open: bool, store: &SampleStore) -> (shown: Option<TelemetrySample>)
    ensures
        window_open ==> shown == Some(store@),
        !window_open ==> shown is None,
        shown matches Some(sample) ==> sample.finite(),
{
    if window_open {
        Some(store.read())
    } else {
        None
    }
}

} // verus!
