//! The controllers: eight buttons each, latched into one byte.

use vstd::prelude::*;
use crate::util::lemma_set_then_get;
use crate::util::set_bitflag;
use crate::util::spec_bitflag;

verus! {

/// A button of a controller.
#[derive(Clone, Copy, Debug, PartialEq, Eq, Structural)]
pub enum Button {
    Up,
    Down,
    Left,
    Right,
    Select,
    Start,
    A,
    B,
}

impl Button {
    /// The bit of the latch that says whether the button is down.
    pub open spec fn spec_bit(self) -> u8 {
        match self {
            Button::Up => 0,
            Button::Down => 1,
            Button::Left => 2,
            Button::Right => 3,
            Button::Select => 4,
            Button::Start => 5,
            Button::A => 6,
            Button::B => 7,
        }
    }

    pub fn bit(self) -> (r: u8)
        ensures
            r == self.spec_bit(),
            r < 8,
    {
        match self {
            Button::Up => 0,
            Button::Down => 1,
            Button::Left => 2,
            Button::Right => 3,
            Button::Select => 4,
            Button::Start => 5,
            Button::A => 6,
            Button::B => 7,
        }
    }
}

/// The byte to latch for a controller: bit `i` says whether the button
/// whose bit it is is down.
pub fn latch(down: &[bool; 8]) -> (byte: u8)
    ensures
        forall|i: u8| i < 8 ==> #[trigger] spec_bitflag(byte, i) == down@[i as int],
{
    let mut byte: u8 = 0;
    let mut n: u8 = 0;
    assert forall|i: u8| i < 8 implies !#[trigger] spec_bitflag(0, i) by {}
    while n < 8
        invariant
            n <= 8,
            forall|i: u8| i < n ==> #[trigger] spec_bitflag(byte, i) == down@[i as int],
            forall|i: u8| n <= i < 8 ==> !#[trigger] spec_bitflag(byte, i),
        decreases 8 - n,
    {
        let ghost before = byte;
        set_bitflag(&mut byte, n, down[n as usize]);
        proof {
            assert forall|i: u8| i < 8 implies #[trigger] spec_bitflag(byte, i) == (if i == n {
                down@[n as int]
            } else {
                spec_bitflag(before, i)
            }) by {
                lemma_set_then_get(before, n, down@[n as int], i);
            }
        }
        n += 1;
    }
    byte
}

} // verus!
