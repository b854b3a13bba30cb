//! The music-theory domain model: chromatic notes, pitches with successor
//! arithmetic, textual parsing and formatting, tunings, and a tuning
//! collection with a validated selection index.

use vstd::prelude::*;
use vstd::string::StrSliceExecFns;
use vstd::string::StringExecFns;

use crate::theme::ColorSlot;

verus! {

/// One of the twelve chromatic pitch classes. The cycle runs
/// A, A#/Bb, B, C, ..., G#/Ab and wraps back to A.
#[derive(Clone, Copy, Debug, PartialEq, Eq, Structural)]
pub enum Note {
    A,
    Bb,
    B,
    C,
    Db,
    D,
    Eb,
    E,
    F,
    Gb,
    G,
    Ab,
}

/// The chromatic successor of a note, wrapping from G#/Ab back to A.
pub open spec fn note_next(n: Note) -> Note {
    match n {
        Note::A => Note::Bb,
        Note::Bb => Note::B,
        Note::B => Note::C,
        Note::C => Note::Db,
        Note::Db => Note::D,
        Note::D => Note::Eb,
        Note::Eb => Note::E,
        Note::E => Note::F,
        Note::F => Note::Gb,
        Note::Gb => Note::G,
        Note::G => Note::Ab,
        Note::Ab => Note::A,
    }
}

/// `note_next` applied `k` times.
pub open spec fn note_next_n(n: Note, k: nat) -> Note
    decreases k,
{
    if k == 0 {
        n
    } else {
        note_next(note_next_n(n, (k - 1) as nat))
    }
}

/// Sharp-preferred spelling of a note.
pub open spec fn spec_note_sharp(n: Note) -> Seq<char> {
    match n {
        Note::A => seq!['A'],
        Note::Bb => seq!['A', '#'],
        Note::B => seq!['B'],
        Note::C => seq!['C'],
        Note::Db => seq!['C', '#'],
        Note::D => seq!['D'],
        Note::Eb => seq!['D', '#'],
        Note::E => seq!['E'],
        Note::F => seq!['F'],
        Note::Gb => seq!['F', '#'],
        Note::G => seq!['G'],
        Note::Ab => seq!['G', '#'],
    }
}

/// Flat-preferred spelling of a note.
pub open spec fn spec_note_flat(n: Note) -> Seq<char> {
    match n {
        Note::A => seq!['A'],
        Note::Bb => seq!['B', 'b'],
        Note::B => seq!['B'],
        Note::C => seq!['C'],
        Note::Db => seq!['D', 'b'],
        Note::D => seq!['D'],
        Note::Eb => seq!['E', 'b'],
        Note::E => seq!['E'],
        Note::F => seq!['F'],
        Note::Gb => seq!['G', 'b'],
        Note::G => seq!['G'],
        Note::Ab => seq!['A', 'b'],
    }
}

/// The fixed note-to-color lookup: each pitch class owns one palette slot.
pub open spec fn spec_note_color(n: Note) -> ColorSlot {
    match n {
        Note::A => ColorSlot::Sapphire,
        Note::Bb => ColorSlot::Sky,
        Note::B => ColorSlot::Teal,
        Note::C => ColorSlot::Green,
        Note::Db => ColorSlot::Yellow,
        Note::D => ColorSlot::Peach,
        Note::Eb => ColorSlot::Maroon,
        Note::E => ColorSlot::Red,
        Note::F => ColorSlot::Mauve,
        Note::Gb => ColorSlot::Pink,
        Note::G => ColorSlot::Lavender,
        Note::Ab => ColorSlot::Blue,
    }
}

impl Note {
    /// The next note in the chromatic cycle.
    pub fn next(self) -> (r: Self)
        ensures
            r == note_next(self),
    {
        match self {
            Self::A => Self::Bb,
            Self::Bb => Self::B,
            Self::B => Self::C,
            Self::C => Self::Db,
            Self::Db => Self::D,
            Self::D => Self::Eb,
            Self::Eb => Self::E,
            Self::E => Self::F,
            Self::F => Self::Gb,
            Self::Gb => Self::G,
            Self::G => Self::Ab,
            Self::Ab => Self::A,
        }
    }

    /// The palette slot that labels for this note are filled with.
    pub fn color_slot(self) -> (r: ColorSlot)
        ensures
            r == spec_note_color(self),
    {
        match self {
            Self::A => ColorSlot::Sapphire,
            Self::Bb => ColorSlot::Sky,
            Self::B => ColorSlot::Teal,
            Self::C => ColorSlot::Green,
            Self::Db => ColorSlot::Yellow,
            Self::D => ColorSlot::Peach,
            Self::Eb => ColorSlot::Maroon,
            Self::E => ColorSlot::Red,
            Self::F => ColorSlot::Mauve,
            Self::Gb => ColorSlot::Pink,
            Self::G => ColorSlot::Lavender,
            Self::Ab => ColorSlot::Blue,
        }
    }

    /// Flat-preferred spelling, e.g. `"Bb"`. This formatter exists for
    /// display preferences, but the drawn fretboard labels always use the
    /// sharp-preferred form.
    pub fn format_flat(self) -> (r: &'static str)
        ensures
            r@ == spec_note_flat(self),
    {
        match self {
            Self::A => {
                proof {
                    reveal_strlit("A");
                    assert("A"@ =~= seq!['A']);
                }
                "A"
            },
            Self::Bb => {
                proof {
                    reveal_strlit("Bb");
                    assert("Bb"@ =~= seq!['B', 'b']);
                }
                "Bb"
            },
            Self::B => {
                proof {
                    reveal_strlit("B");
                    assert("B"@ =~= seq!['B']);
                }
                "B"
            },
            Self::C => {
                proof {
                    reveal_strlit("C");
                    assert("C"@ =~= seq!['C']);
                }
                "C"
            },
            Self::Db => {
                proof {
                    reveal_strlit("Db");
                    assert("Db"@ =~= seq!['D', 'b']);
                }
                "Db"
            },
            Self::D => {
                proof {
                    reveal_strlit("D");
                    assert("D"@ =~= seq!['D']);
                }
                "D"
            },
            Self::Eb => {
                proof {
                    reveal_strlit("Eb");
                    assert("Eb"@ =~= seq!['E', 'b']);
                }
                "Eb"
            },
            Self::E => {
                proof {
                    reveal_strlit("E");
                    assert("E"@ =~= seq!['E']);
                }
                "E"
            },
            Self::F => {
                proof {
                    reveal_strlit("F");
                    assert("F"@ =~= seq!['F']);
                }
                "F"
            },
            Self::Gb => {
                proof {
                    reveal_strlit("Gb");
                    assert("Gb"@ =~= seq!['G', 'b']);
                }
                "Gb"
            },
            Self::G => {
                proof {
                    reveal_strlit("G");
                    assert("G"@ =~= seq!['G']);
                }
                "G"
            },
            Self::Ab => {
                proof {
                    reveal_strlit("Ab");
                    assert("Ab"@ =~= seq!['A', 'b']);
                }
                "Ab"
            },
        }
    }

    /// Sharp-preferred spelling, e.g. `"A#"`; this is the spelling drawn on
    /// the fretboard labels.
    pub fn format_sharp(self) -> (r: &'static str)
        ensures
            r@ == spec_note_sharp(self),
    {
        match self {
            Self::A => {
                proof {
                    reveal_strlit("A");
                    assert("A"@ =~= seq!['A']);
                }
                "A"
            },
            Self::Bb => {
                proof {
                    reveal_strlit("A#");
                    assert("A#"@ =~= seq!['A', '#']);
                }
                "A#"
            },
            Self::B => {
                proof {
                    reveal_strlit("B");
                    assert("B"@ =~= seq!['B']);
                }
                "B"
            },
            Self::C => {
                proof {
                    reveal_strlit("C");
                    assert("C"@ =~= seq!['C']);
                }
                "C"
            },
            Self::Db => {
                proof {
                    reveal_strlit("C#");
                    assert("C#"@ =~= seq!['C', '#']);
                }
                "C#"
            },
            Self::D => {
                proof {
                    reveal_strlit("D");
                    assert("D"@ =~= seq!['D']);
                }
                "D"
            },
            Self::Eb => {
                proof {
                    reveal_strlit("D#");
                    assert("D#"@ =~= seq!['D', '#']);
                }
                "D#"
            },
            Self::E => {
                proof {
                    reveal_strlit("E");
                    assert("E"@ =~= seq!['E']);
                }
                "E"
            },
            Self::F => {
                proof {
                    reveal_strlit("F");
                    assert("F"@ =~= seq!['F']);
                }
                "F"
            },
            Self::Gb => {
                proof {
                    reveal_strlit("F#");
                    assert("F#"@ =~= seq!['F', '#']);
                }
                "F#"
            },
            Self::G => {
                proof {
                    reveal_strlit("G");
                    assert("G"@ =~= seq!['G']);
                }
                "G"
            },
            Self::Ab => {
                proof {
                    reveal_strlit("G#");
                    assert("G#"@ =~= seq!['G', '#']);
                }
                "G#"
            },
        }
    }
}

/// The chromatic cycle closes after twelve steps: applying the successor
/// twelve times to any note returns that note.
pub proof fn lemma_note_cycle(n: Note)
    ensures
        note_next_n(n, 12) == n,
{
    reveal_with_fuel(note_next_n, 13);
}

/// A pitch as the specifications see it: a pitch class and a mathematical
/// octave number, free of machine-integer bounds.
pub ghost struct PitchModel {
    pub note: Note,
    pub octave: int,
}

/// The successor of a pitch: the next note, and one octave up exactly when
/// the step crosses from B to C.
pub open spec fn spec_pitch_next(m: PitchModel) -> PitchModel {
    PitchModel {
        note: note_next(m.note),
        octave: m.octave + if m.note == Note::B { 1int } else { 0int },
    }
}

/// The pitch `k` successor steps above `m`.
pub open spec fn spec_pitch_at(m: PitchModel, k: nat) -> PitchModel
    decreases k,
{
    if k == 0 {
        m
    } else {
        spec_pitch_next(spec_pitch_at(m, (k - 1) as nat))
    }
}

/// A full twelve-step cycle of successors returns to the same note, one
/// octave higher.
pub proof fn lemma_pitch_cycle(m: PitchModel)
    ensures
        spec_pitch_at(m, 12) == (PitchModel { note: m.note, octave: m.octave + 1 }),
{
    reveal_with_fuel(spec_pitch_at, 13);
}

/// A chromatic note together with its octave number.
#[derive(Clone, Copy, Debug, PartialEq, Eq, Structural)]
pub struct Pitch {
    pub note: Note,
    pub octave: i8,
}

impl View for Pitch {
    type V = PitchModel;

    open spec fn view(&self) -> PitchModel {
        PitchModel { note: self.note, octave: self.octave as int }
    }
}

impl Pitch {
    /// Pack a note and an octave into a pitch.
    pub fn new(note: Note, octave: i8) -> (r: Self)
        ensures
            r == (Pitch { note, octave }),
    {
        Self { note, octave }
    }

    /// The next pitch up: the successor note, and the octave rises by one
    /// exactly when the note crosses from B to C.
    pub fn next(self) -> (r: Self)
        requires
            self.note == Note::B ==> self.octave < i8::MAX,
        ensures
            r@ == spec_pitch_next(self@),
            r.note == note_next(self.note),
            r.octave as int == self.octave as int + if self.note == Note::B { 1int } else { 0int },
    {
        let next_note = self.note.next();
        Self::new(
            next_note,
            match (self.note, next_note) {
                (Note::B, Note::C) => self.octave + 1,
                _ => self.octave,
            },
        )
    }

    /// Render the pitch in canonical sharp-preferred form, e.g. `"C#3"`.
    pub fn format_sharp(&self) -> (r: String)
        ensures
            r@ == spec_pitch_sharp(self@),
    {
        format_note_octave(self.note, self.octave as i32)
    }

    /// An endless forward walk over ascending pitches, starting here.
    pub fn into_iter(self) -> (r: PitchIter)
        ensures
            r.pitch == self,
    {
        PitchIter { pitch: self }
    }
}

/// An unbounded, restartable walk up the chromatic scale.
pub struct PitchIter {
    pub pitch: Pitch,
}

impl PitchIter {
    /// Hand out the current pitch and step to its successor.
    pub fn next(&mut self) -> (r: Option<Pitch>)
        requires
            old(self).pitch.note == Note::B ==> old(self).pitch.octave < i8::MAX,
        ensures
            r == Some(old(self).pitch),
            final(self).pitch@ == spec_pitch_next(old(self).pitch@),
    {
        let result = Some(self.pitch);
        self.pitch = self.pitch.next();
        result
    }
}

/// The canonical sharp-preferred rendering of a pitch: note spelling
/// followed by the decimal octave.
pub open spec fn spec_pitch_sharp(m: PitchModel) -> Seq<char> {
    spec_note_sharp(m.note) + spec_int_rep(m.octave)
}

/// The decimal digit character for `d` in 0..=9.
pub open spec fn spec_digit_char(d: int) -> char {
    if d == 0 {
        '0'
    } else if d == 1 {
        '1'
    } else if d == 2 {
        '2'
    } else if d == 3 {
        '3'
    } else if d == 4 {
        '4'
    } else if d == 5 {
        '5'
    } else if d == 6 {
        '6'
    } else if d == 7 {
        '7'
    } else if d == 8 {
        '8'
    } else {
        '9'
    }
}

/// Decimal digits of a natural number, most significant first.
pub open spec fn spec_dec_rep(n: nat) -> Seq<char>
    decreases n,
{
    if n < 10 {
        seq![spec_digit_char(n as int)]
    } else {
        spec_dec_rep(n / 10) + seq![spec_digit_char((n % 10) as int)]
    }
}

/// Decimal rendering of an integer, with a leading minus sign when negative.
pub open spec fn spec_int_rep(i: int) -> Seq<char> {
    if i < 0 {
        seq!['-'] + spec_dec_rep((-i) as nat)
    } else {
        spec_dec_rep(i as nat)
    }
}

/// The one-character string for a decimal digit.
fn digit_str(d: u32) -> (r: &'static str)
    requires
        d < 10,
    ensures
        r@ == seq![spec_digit_char(d as int)],
{
    match d {
        0 => {
            proof {
                reveal_strlit("0");
                assert("0"@ =~= seq!['0']);
            }
            "0"
        },
        1 => {
            proof {
                reveal_strlit("1");
                assert("1"@ =~= seq!['1']);
            }
            "1"
        },
        2 => {
            proof {
                reveal_strlit("2");
                assert("2"@ =~= seq!['2']);
            }
            "2"
        },
        3 => {
            proof {
                reveal_strlit("3");
                assert("3"@ =~= seq!['3']);
            }
            "3"
        },
        4 => {
            proof {
                reveal_strlit("4");
                assert("4"@ =~= seq!['4']);
            }
            "4"
        },
        5 => {
            proof {
                reveal_strlit("5");
                assert("5"@ =~= seq!['5']);
            }
            "5"
        },
        6 => {
            proof {
                reveal_strlit("6");
                assert("6"@ =~= seq!['6']);
            }
            "6"
        },
        7 => {
            proof {
                reveal_strlit("7");
                assert("7"@ =~= seq!['7']);
            }
            "7"
        },
        8 => {
            proof {
                reveal_strlit("8");
                assert("8"@ =~= seq!['8']);
            }
            "8"
        },
        _ => {
            proof {
                reveal_strlit("9");
                assert("9"@ =~= seq!['9']);
            }
            "9"
        },
    }
}

/// Decimal rendering of a natural number.
fn fmt_u32(v: u32) -> (r: String)
    ensures
        r@ == spec_dec_rep(v as nat),
    decreases v,
{
    if v < 10 {
        digit_str(v).to_owned()
    } else {
        let mut s = fmt_u32(v / 10);
        s.append(digit_str(v % 10));
        s
    }
}

/// Decimal rendering of an integer.
fn fmt_i32(v: i32) -> (r: String)
    requires
        v > i32::MIN,
    ensures
        r@ == spec_int_rep(v as int),
{
    if v < 0 {
        proof {
            reveal_strlit("-");
            assert("-"@ =~= seq!['-']);
        }
        let mut s = "-".to_owned();
        let digits = fmt_u32((-v) as u32);
        s.append(digits.as_str());
        s
    } else {
        fmt_u32(v as u32)
    }
}

/// Render a note with an octave number in sharp-preferred form. The octave
/// is taken as a wide integer so that pitches far above the starting octave
/// of a string can still be labelled.
pub fn format_note_octave(note: Note, octave: i32) -> (r: String)
    requires
        octave > i32::MIN,
    ensures
        r@ == spec_note_sharp(note) + spec_int_rep(octave as int),
{
    let mut s = note.format_sharp().to_owned();
    let digits = fmt_i32(octave);
    s.append(digits.as_str());
    s
}

/// Whether a character is a decimal digit.
pub open spec fn spec_is_digit(c: char) -> bool {
    48 <= c as int && c as int <= 57
}

/// The value of a decimal digit character.
pub open spec fn spec_digit_val(c: char) -> int {
    c as int - 48
}

/// The note a letter with an accidental offset resolves to, through the
/// fixed enharmonic table: sharp and flat spellings of the same slot give
/// the same note.
pub open spec fn spec_note_of(letter: char, acc: int) -> Option<Note> {
    if letter == 'A' && acc == 0 {
        Some(Note::A)
    } else if (letter == 'A' && acc == 1) || (letter == 'B' && acc == -1) {
        Some(Note::Bb)
    } else if letter == 'B' && acc == 0 {
        Some(Note::B)
    } else if letter == 'C' && acc == 0 {
        Some(Note::C)
    } else if (letter == 'C' && acc == 1) || (letter == 'D' && acc == -1) {
        Some(Note::Db)
    } else if letter == 'D' && acc == 0 {
        Some(Note::D)
    } else if (letter == 'D' && acc == 1) || (letter == 'E' && acc == -1) {
        Some(Note::Eb)
    } else if letter == 'E' && acc == 0 {
        Some(Note::E)
    } else if letter == 'F' && acc == 0 {
        Some(Note::F)
    } else if (letter == 'F' && acc == 1) || (letter == 'G' && acc == -1) {
        Some(Note::Gb)
    } else if letter == 'G' && acc == 0 {
        Some(Note::G)
    } else if (letter == 'G' && acc == 1) || (letter == 'A' && acc == -1) {
        Some(Note::Ab)
    } else {
        None
    }
}

/// The pitch a compact string denotes, scanned from the right: a single
/// octave digit, an optional minus sign before it, an optional accidental
/// (`#` or `b`), and the note letter. Characters left of the recognized
/// suffix are ignored, as the scan never looks at them.
pub open spec fn spec_parse_pitch(s: Seq<char>) -> Option<Pitch> {
    let n = s.len() as int;
    if n < 1 || !spec_is_digit(s[n - 1]) {
        None
    } else {
        let d = spec_digit_val(s[n - 1]);
        if n < 2 {
            None
        } else {
            let neg = s[n - 2] == '-';
            let oct: int = if neg {
                -d
            } else {
                d
            };
            let ci = if neg {
                n - 3
            } else {
                n - 2
            };
            if ci < 0 {
                None
            } else {
                let c = s[ci];
                let acc: int = if c == '#' {
                    1
                } else if c == 'b' {
                    -1
                } else {
                    0
                };
                let li = if acc != 0 {
                    ci - 1
                } else {
                    ci
                };
                if li < 0 {
                    None
                } else {
                    match spec_note_of(s[li], acc) {
                        Some(note) => Some(Pitch { note, octave: oct as i8 }),
                        None => None,
                    }
                }
            }
        }
    }
}

impl Pitch {
    /// Parse a pitch from its compact text form, e.g. `"E2"`, `"C#3"` or
    /// `"Bb-1"`. Fails with `ParsePitch` carrying the original text when no
    /// valid suffix is found.
    pub fn parse(value: &str) -> (r: Result<Pitch, TuningError>)
        ensures
            match r {
                Ok(p) => spec_parse_pitch(value@) == Some(p),
                Err(e) => {
                    &&& spec_parse_pitch(value@) is None
                    &&& e matches TuningError::ParsePitch(v) && v@ == value@
                },
            },
    {
        let n = value.unicode_len();
        if n < 1 {
            return Err(TuningError::parse_pitch(value));
        }
        let last = value.get_char(n - 1);
        let lu = last as u32;
        if !(48 <= lu && lu <= 57) {
            return Err(TuningError::parse_pitch(value));
        }
        let d = (lu - 48) as i8;
        if n < 2 {
            return Err(TuningError::parse_pitch(value));
        }
        let c1 = value.get_char(n - 2);
        let (octave, c, ci): (i8, char, usize) = if c1 == '-' {
            if n < 3 {
                return Err(TuningError::parse_pitch(value));
            }
            (-d, value.get_char(n - 3), n - 3)
        } else {
            (d, c1, n - 2)
        };
        let acc: i8 = match c {
            '#' => 1,
            'b' => -1,
            _ => 0,
        };
        let letter = if acc != 0 {
            if ci < 1 {
                return Err(TuningError::parse_pitch(value));
            }
            value.get_char(ci - 1)
        } else {
            c
        };
        let note = match (letter, acc) {
            ('A', 0) => Note::A,
            ('A', 1) | ('B', -1) => Note::Bb,
            ('B', 0) => Note::B,
            ('C', 0) => Note::C,
            ('C', 1) | ('D', -1) => Note::Db,
            ('D', 0) => Note::D,
            ('D', 1) | ('E', -1) => Note::Eb,
            ('E', 0) => Note::E,
            ('F', 0) => Note::F,
            ('F', 1) | ('G', -1) => Note::Gb,
            ('G', 0) => Note::G,
            ('G', 1) | ('A', -1) => Note::Ab,
            _ => {
                return Err(TuningError::parse_pitch(value));
            },
        };
        Ok(Pitch { note, octave })
    }
}

/// Round trip: any pitch whose octave fits the single-digit text form comes
/// back unchanged when its canonical sharp-preferred rendering is parsed.
pub proof fn lemma_pitch_round_trip(p: Pitch)
    requires
        -9 <= p.octave <= 9,
    ensures
        spec_parse_pitch(spec_pitch_sharp(p@)) == Some(p),
{
    let s = spec_pitch_sharp(p@);
    assert(spec_parse_pitch(s) == Some(p)) by {
        reveal_with_fuel(spec_dec_rep, 2);
    }
}

/// A tuning as the specifications see it.
pub ghost struct TuningModel {
    pub pitches: Seq<Pitch>,
    pub total_frets: u8,
    pub name: Seq<char>,
}

/// An ordered sequence of starting pitches — one per string, the
/// lowest-indexed being a fixed physical string — with a fret count and a
/// display name.
#[derive(Clone, Debug)]
pub struct Tuning {
    pub pitches: Vec<Pitch>,
    pub total_frets: u8,
    pub name: String,
}

impl View for Tuning {
    type V = TuningModel;

    open spec fn view(&self) -> TuningModel {
        TuningModel {
            pitches: self.pitches@,
            total_frets: self.total_frets,
            name: self.name@,
        }
    }
}

/// The pitches of the built-in default tuning: E2, A2, D3, G3, B3, E4.
pub open spec fn spec_default_pitches() -> Seq<Pitch> {
    seq![
        Pitch { note: Note::E, octave: 2 },
        Pitch { note: Note::A, octave: 2 },
        Pitch { note: Note::D, octave: 3 },
        Pitch { note: Note::G, octave: 3 },
        Pitch { note: Note::B, octave: 3 },
        Pitch { note: Note::E, octave: 4 },
    ]
}

impl Default for Tuning {
    /// The built-in fallback: standard six-string tuning with 24 frets.
    fn default() -> (r: Self)
        ensures
            r@.pitches == spec_default_pitches(),
            r@.total_frets == 24,
            r@.name == "Default"@,
    {
        let pitches = vec![
            Pitch::new(Note::E, 2),
            Pitch::new(Note::A, 2),
            Pitch::new(Note::D, 3),
            Pitch::new(Note::G, 3),
            Pitch::new(Note::B, 3),
            Pitch::new(Note::E, 4),
        ];
        proof {
            assert(pitches@ =~= spec_default_pitches());
        }
        Self {
            pitches,
            total_frets: 24,
            name: "Default".to_owned(),
        }
    }
}

/// A non-empty ordered set of tunings with a validated selection index.
#[derive(Clone, Debug)]
pub struct TuningCollection {
    pub items: Vec<Tuning>,
    pub selected_idx: usize,
}

impl TuningCollection {
    /// The selected index, as the specifications see it.
    pub open spec fn selected(&self) -> int {
        self.selected_idx as int
    }

    /// Well-formed: at least one tuning, and the selection in bounds.
    pub open spec fn wf(&self) -> bool {
        self.items@.len() > 0 && 0 <= self.selected() < self.items@.len()
    }

    /// Assemble a collection, validating the selection: fails with
    /// `CollectionSelectEmpty` on an empty list, and with
    /// `CollectionSelectIdx` on an out-of-bounds index.
    pub fn new(items: Vec<Tuning>, selected_idx: usize) -> (r: Result<Self, TuningError>)
        ensures
            match r {
                Ok(c) => {
                    &&& items@.len() > 0
                    &&& selected_idx < items@.len()
                    &&& c.items@ == items@
                    &&& c.selected() == selected_idx
                    &&& c.wf()
                },
                Err(e) => match e {
                    TuningError::CollectionSelectEmpty => items@.len() == 0,
                    TuningError::CollectionSelectIdx(i) => {
                        &&& items@.len() > 0
                        &&& i == selected_idx
                        &&& selected_idx >= items@.len()
                    },
                    _ => false,
                },
            },
    {
        let mut result = Self { items, selected_idx };
        match result.select(selected_idx) {
            Ok(()) => Ok(result),
            Err(e) => Err(e),
        }
    }

    /// Commit a new selection after re-validating it; on failure the
    /// collection is left unchanged.
    pub fn select(&mut self, idx: usize) -> (r: Result<(), TuningError>)
        ensures
            final(self).items@ == old(self).items@,
            match r {
                Ok(()) => {
                    &&& old(self).items@.len() > 0
                    &&& idx < old(self).items@.len()
                    &&& final(self).selected() == idx
                    &&& final(self).wf()
                },
                Err(e) => {
                    &&& final(self).selected() == old(self).selected()
                    &&& match e {
                        TuningError::CollectionSelectEmpty => old(self).items@.len() == 0,
                        TuningError::CollectionSelectIdx(i) => {
                            &&& i == idx
                            &&& old(self).items@.len() > 0
                            &&& idx >= old(self).items@.len()
                        },
                        _ => false,
                    }
                },
            },
    {
        if self.items.len() == 0 {
            Err(TuningError::CollectionSelectEmpty)
        } else if idx >= self.items.len() {
            Err(TuningError::CollectionSelectIdx(idx))
        } else {
            self.selected_idx = idx;
            Ok(())
        }
    }

    /// The currently selected tuning; never fails while the selection
    /// invariant holds.
    pub fn get_selected(&self) -> (r: &Tuning)
        requires
            self.wf(),
        ensures
            *r == self.items@[self.selected()],
    {
        &self.items[self.selected_idx]
    }
}

impl Default for TuningCollection {
    /// A collection holding only the built-in default tuning.
    fn default() -> (r: Self)
        ensures
            r.items@.len() == 1,
            r.items@[0]@.pitches == spec_default_pitches(),
            r.items@[0]@.total_frets == 24,
            r.items@[0]@.name == "Default"@,
            r.selected() == 0,
            r.wf(),
    {
        Self {
            items: vec![Tuning::default()],
            selected_idx: 0,
        }
    }
}

/// A domain error as the specifications see it.
pub ghost enum TuningErrorModel {
    Empty,
    Idx(int),
    Parse(Seq<char>),
}

/// Failures of the domain model: pitch text that does not parse, and invalid
/// selections on a tuning collection.
#[derive(Clone, Debug, PartialEq, Eq)]
pub enum TuningError {
    CollectionSelectEmpty,
    CollectionSelectIdx(usize),
    ParsePitch(String),
}

impl View for TuningError {
    type V = TuningErrorModel;

    open spec fn view(&self) -> TuningErrorModel {
        match self {
            TuningError::CollectionSelectEmpty => TuningErrorModel::Empty,
            TuningError::CollectionSelectIdx(i) => TuningErrorModel::Idx(*i as int),
            TuningError::ParsePitch(s) => TuningErrorModel::Parse(s@),
        }
    }
}

impl TuningError {
    /// The parse error that carries the offending text.
    pub fn parse_pitch(value: &str) -> (r: Self)
        ensures
            r matches TuningError::ParsePitch(v) && v@ == value@,
    {
        Self::ParsePitch(value.to_owned())
    }
}

} // verus!
