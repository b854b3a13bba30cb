use fretboard::Note;
use fretboard::Pitch;
use fretboard::TuningError;

const ALL_NOTES: [Note; 12] = [
    Note::A,
    Note::Bb,
    Note::B,
    Note::C,
    Note::Db,
    Note::D,
    Note::Eb,
    Note::E,
    Note::F,
    Note::Gb,
    Note::G,
    Note::Ab,
];

#[test]
fn note_successor_cycle_closes_after_twelve_steps() {
    for &n in ALL_NOTES.iter() {
        let mut cur = n;
        for _ in 0..12 {
            cur = cur.next();
        }
        assert_eq!(cur, n);
    }
}

#[test]
fn note_successor_single_steps() {
    assert_eq!(Note::A.next(), Note::Bb);
    assert_eq!(Note::B.next(), Note::C);
    assert_eq!(Note::E.next(), Note::F);
    assert_eq!(Note::Ab.next(), Note::A);
}

#[test]
fn pitch_successor_octave_rises_only_across_b_to_c() {
    for &n in ALL_NOTES.iter() {
        for octave in [-3i8, 0, 4] {
            let p = Pitch::new(n, octave);
            let next = p.next();
            let expected = if n == Note::B { octave + 1 } else { octave };
            assert_eq!(next.octave, expected);
            assert_eq!(next.note, n.next());
        }
    }
}

#[test]
fn pitch_iter_walks_up_the_scale() {
    let mut iter = Pitch::new(Note::A, 3).into_iter();
    assert_eq!(iter.next(), Some(Pitch::new(Note::A, 3)));
    assert_eq!(iter.next(), Some(Pitch::new(Note::Bb, 3)));
    assert_eq!(iter.next(), Some(Pitch::new(Note::B, 3)));
    assert_eq!(iter.next(), Some(Pitch::new(Note::C, 4)));
}

#[test]
fn parse_plain_pitch() {
    assert_eq!(Pitch::parse("E2"), Ok(Pitch::new(Note::E, 2)));
}

#[test]
fn parse_sharp_pitch() {
    assert_eq!(Pitch::parse("C#3"), Ok(Pitch::new(Note::Db, 3)));
}

#[test]
fn parse_flat_pitch_with_negative_octave() {
    assert_eq!(Pitch::parse("Bb-1"), Ok(Pitch::new(Note::Bb, -1)));
}

#[test]
fn parse_unknown_letter_fails_with_original_text() {
    assert_eq!(
        Pitch::parse("H4"),
        Err(TuningError::ParsePitch(String::from("H4")))
    );
}

#[test]
fn parse_rejects_malformed_text() {
    assert!(Pitch::parse("").is_err());
    assert!(Pitch::parse("E").is_err());
    assert!(Pitch::parse("4").is_err());
    assert!(Pitch::parse("-4").is_err());
    assert!(Pitch::parse("#4").is_err());
    assert!(Pitch::parse("E-").is_err());
    assert!(Pitch::parse("Eb#2").is_err());
}

#[test]
fn parse_enharmonic_spellings_resolve_to_one_slot() {
    assert_eq!(Pitch::parse("A#1"), Pitch::parse("Bb1"));
    assert_eq!(Pitch::parse("C#0"), Pitch::parse("Db0"));
    assert_eq!(Pitch::parse("D#5"), Pitch::parse("Eb5"));
    assert_eq!(Pitch::parse("F#2"), Pitch::parse("Gb2"));
    assert_eq!(Pitch::parse("G#9"), Pitch::parse("Ab9"));
}

#[test]
fn parse_ignores_unscanned_prefix() {
    // The right-to-left scan stops after the note letter; anything before it
    // is never inspected.
    assert_eq!(Pitch::parse("XE2"), Ok(Pitch::new(Note::E, 2)));
}

#[test]
fn format_sharp_always_prefers_sharps() {
    assert_eq!(Pitch::new(Note::Db, 3).format_sharp(), "C#3");
    assert_eq!(Pitch::new(Note::Bb, -1).format_sharp(), "A#-1");
    assert_eq!(Pitch::new(Note::E, 2).format_sharp(), "E2");
    assert_eq!(Pitch::new(Note::G, 12).format_sharp(), "G12");
}

#[test]
fn note_format_spellings() {
    assert_eq!(Note::Bb.format_sharp(), "A#");
    assert_eq!(Note::Bb.format_flat(), "Bb");
    assert_eq!(Note::E.format_sharp(), "E");
    assert_eq!(Note::E.format_flat(), "E");
    assert_eq!(Note::Ab.format_sharp(), "G#");
    assert_eq!(Note::Ab.format_flat(), "Ab");
}

#[test]
fn round_trip_through_sharp_format() {
    for &n in ALL_NOTES.iter() {
        for octave in -9i8..=9 {
            let p = Pitch::new(n, octave);
            assert_eq!(Pitch::parse(&p.format_sharp()), Ok(p));
        }
    }
}

#[test]
fn pitch_cycle_raises_the_octave_by_one() {
    for &n in ALL_NOTES.iter() {
        let mut p = Pitch::new(n, 3);
        for _ in 0..12 {
            p = p.next();
        }
        assert_eq!(p, Pitch::new(n, 4));
    }
}
