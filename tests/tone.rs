use m5_go::Note;

const PITCHES: [(Note, u32); 12] = [
    (Note::C, 4186),
    (Note::Cs, 4435),
    (Note::D, 4699),
    (Note::Eb, 4978),
    (Note::E, 5274),
    (Note::F, 5588),
    (Note::Fs, 5920),
    (Note::G, 6272),
    (Note::Gs, 6645),
    (Note::A, 7040),
    (Note::Bb, 7459),
    (Note::B, 7902),
];

#[test]
fn octave_eight_gives_base_frequency() {
    for (note, base) in PITCHES {
        assert_eq!(note.base_frequency(), base);
        assert_eq!(note.octave(8), base);
    }
}

#[test]
fn each_octave_down_halves_the_frequency() {
    for (note, base) in PITCHES {
        for octave in 1u8..=8 {
            assert_eq!(note.octave(octave), base / (1u32 << (8 - octave)));
        }
    }
}

#[test]
fn concert_pitch_and_middle_c() {
    assert_eq!(Note::A.octave(4), 440);
    assert_eq!(Note::C.octave(4), 261);
    assert_eq!(Note::C.octave(1), 32);
    assert_eq!(Note::B.octave(0), 30);
}

#[test]
fn silence_has_no_frequency() {
    for octave in 0u8..=8 {
        assert_eq!(Note::NONE.octave(octave), 0);
    }
}
