use vstd::prelude::*;

use crate::capability::DigitalOutput;

verus! {

/// An 8-way multiplexer addressed by three select lines; `s0` carries the
/// lowest bit of the channel number.
pub struct Mux<S0, S1, S2> where S0: DigitalOutput, S1: DigitalOutput, S2: DigitalOutput {
    s0: S0,
    s1: S1,
    s2: S2,
}

/// The number that one select line contributes when it is high.
pub open spec fn line_weight(high: bool, weight: int) -> int {
    if high {
        weight
    } else {
        0
    }
}

/// The channel that three select levels address.
pub open spec fn channel_of(levels: (bool, bool, bool)) -> int {
    line_weight(levels.0, 1) + line_weight(levels.1, 2) + line_weight(levels.2, 4)
}

/// The commands a select line receives when its bit is `bit`: driven low,
/// then driven high if the bit is set.
pub open spec fn select_commands(before: Seq<bool>, bit: bool) -> Seq<bool> {
    if bit {
        before.push(false).push(true)
    } else {
        before.push(false)
    }
}

impl<S0, S1, S2> Mux<S0, S1, S2> where S0: DigitalOutput, S1: DigitalOutput, S2: DigitalOutput {
    pub closed spec fn s0(&self) -> S0 {
        self.s0
    }

    pub closed spec fn s1(&self) -> S1 {
        self.s1
    }

    pub closed spec fn s2(&self) -> S2 {
        self.s2
    }

    /// The levels of `s0`, `s1`, `s2`.
    pub open spec fn levels(&self) -> (Option<bool>, Option<bool>, Option<bool>) {
        (self.s0().level(), self.s1().level(), self.s2().level())
    }

    /// Takes the three select lines as they are; nothing is driven.
    pub fn new(s0: S0, s1: S1, s2: S2) -> (m: Self)
        ensures
            m.s0() == s0,
            m.s1() == s1,
            m.s2() == s2,
    {
        Self { s0, s1, s2 }
    }

    /// Addresses `channel`: each line is driven low once, then driven high
    /// once if its bit of the channel number is set; bits above the third
    /// are ignored.
    pub fn select(&mut self, channel: u8)
        ensures
            final(self).s0().level() == Some(channel & 1 != 0),
            final(self).s1().level() == Some(channel & 2 != 0),
            final(self).s2().level() == Some(channel & 4 != 0),
            final(self).s0().commands() == select_commands(old(self).s0().commands(), channel & 1 != 0),
            final(self).s1().commands() == select_commands(old(self).s1().commands(), channel & 2 != 0),
            final(self).s2().commands() == select_commands(old(self).s2().commands(), channel & 4 != 0),
            channel_of((channel & 1 != 0, channel & 2 != 0, channel & 4 != 0)) == channel % 8,
    {
        // All three lines go low before any goes high.
        self.s0.set_low();
        self.s1.set_low();
        self.s2.set_low();

        if channel & 0b001 != 0 {
            self.s0.set_high();
        }
        if channel & 0b010 != 0 {
            self.s1.set_high();
        }
        if channel & 0b100 != 0 {
            self.s2.set_high();
        }
        proof {
            lemma_low_bits(channel);
        }
    }
}

/// The three low bits of a byte add up to its value modulo 8: selecting
/// channels `c` and `c + 8` drives the same lines.
pub proof fn lemma_low_bits(c: u8)
    ensures
        channel_of((c & 1 != 0, c & 2 != 0, c & 4 != 0)) == c % 8,
{
    assert((c & 1 != 0) == (c % 2 == 1)) by (bit_vector);
    assert((c & 2 != 0) == ((c / 2) % 2 == 1)) by (bit_vector);
    assert((c & 4 != 0) == ((c / 4) % 2 == 1)) by (bit_vector);
}

/// Select commands depend only on the channel's three low bits:
/// selecting `c` and `c & 7` gives every line the same commands.
pub proof fn lemma_select_ignores_high_bits(c: u8)
    ensures
        (c & 1 != 0) == (c & 7 & 1 != 0),
        (c & 2 != 0) == (c & 7 & 2 != 0),
        (c & 4 != 0) == (c & 7 & 4 != 0),
{
    assert((c & 1 != 0) == (c & 7 & 1 != 0)) by (bit_vector);
    assert((c & 2 != 0) == (c & 7 & 2 != 0)) by (bit_vector);
    assert((c & 4 != 0) == (c & 7 & 4 != 0)) by (bit_vector);
}

} // verus!
