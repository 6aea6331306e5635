//! Musical notes and the PWM frequency that plays them.

use vstd::arithmetic::power2::{lemma2_to64, pow2};
use vstd::bits::lemma_u32_shl_is_mul;
use vstd::prelude::*;

verus! {

/// A pitch of the twelve-tone scale, or silence.
///
/// Each pitch stands for its frequency in the eighth octave, in hertz
/// (`C` is 4186 Hz); lower octaves halve it once per octave.
#[derive(Clone, Copy, Debug, PartialEq, Eq, Structural)]
#[allow(non_camel_case_types)]
pub enum Note {
    C,
    Cs,
    D,
    Eb,
    E,
    F,
    Fs,
    G,
    Gs,
    A,
    Bb,
    B,
    NONE,
}

/// The frequency of a note in the eighth octave.
pub open spec fn base_frequency(note: Note) -> u32 {
    match note {
        Note::C => 4186,
        Note::Cs => 4435,
        Note::D => 4699,
        Note::Eb => 4978,
        Note::E => 5274,
        Note::F => 5588,
        Note::Fs => 5920,
        Note::G => 6272,
        Note::Gs => 6645,
        Note::A => 7040,
        Note::Bb => 7459,
        Note::B => 7902,
        Note::NONE => 0,
    }
}

/// The frequency of a note played `octave` octaves up from the lowest one:
/// the eighth-octave frequency halved once for each octave below eight,
/// rounding down.
pub open spec fn frequency(note: Note, octave: u8) -> int {
    base_frequency(note) as int / pow2((8 - octave) as nat) as int
}

impl Note {
    /// The frequency of this note in the eighth octave.
    pub fn base_frequency(self) -> (r: u32)
        ensures
            r == base_frequency(self),
    {
        match self {
            Note::C => 4186,
            Note::Cs => 4435,
            Note::D => 4699,
            Note::Eb => 4978,
            Note::E => 5274,
            Note::F => 5588,
            Note::Fs => 5920,
            Note::G => 6272,
            Note::Gs => 6645,
            Note::A => 7040,
            Note::Bb => 7459,
            Note::B => 7902,
            Note::NONE => 0,
        }
    }

    /// The frequency of this note in the given octave, for octaves up to eight.
    pub fn octave(self, octave: u8) -> (r: u32)
        requires
            octave <= 8,
        ensures
            r == frequency(self, octave),
    {
        let shift: u32 = (8 - octave) as u32;
        let divisor: u32 = 1u32 << shift;
        proof {
            lemma2_to64();
            lemma_u32_shl_is_mul(1u32, shift);
        }
        self.base_frequency() / divisor
    }
}

/// In the eighth octave a note sounds at its base frequency.
pub proof fn lemma_top_octave_is_base(note: Note)
    ensures
        frequency(note, 8) == base_frequency(note),
{
    lemma2_to64();
    assert(base_frequency(note) as int / 1 == base_frequency(note));
}

} // verus!
