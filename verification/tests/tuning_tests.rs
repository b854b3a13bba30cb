use fretboard::Note;
use fretboard::Pitch;
use fretboard::Tuning;
use fretboard::TuningCollection;
use fretboard::TuningError;

fn one_tuning() -> Tuning {
    Tuning {
        pitches: vec![Pitch::new(Note::E, 2)],
        total_frets: 12,
        name: String::from("one"),
    }
}

#[test]
fn new_on_empty_list_fails_with_collection_select_empty() {
    let r = TuningCollection::new(vec![], 0);
    assert!(matches!(r, Err(TuningError::CollectionSelectEmpty)));
}

#[test]
fn new_with_out_of_bounds_index_fails_with_collection_select_idx() {
    let r = TuningCollection::new(vec![one_tuning()], 5);
    assert!(matches!(r, Err(TuningError::CollectionSelectIdx(5))));
}

#[test]
fn new_with_valid_index_selects_that_tuning() {
    let c = TuningCollection::new(vec![one_tuning()], 0).unwrap();
    let selected = c.get_selected();
    assert_eq!(selected.name, "one");
    assert_eq!(selected.total_frets, 12);
    assert_eq!(selected.pitches, vec![Pitch::new(Note::E, 2)]);
}

#[test]
fn select_revalidates_and_commits() {
    let second = Tuning {
        pitches: vec![Pitch::new(Note::A, 2)],
        total_frets: 22,
        name: String::from("two"),
    };
    let mut c = TuningCollection::new(vec![one_tuning(), second], 0).unwrap();
    assert_eq!(c.get_selected().name, "one");
    c.select(1).unwrap();
    assert_eq!(c.get_selected().name, "two");
    assert!(matches!(c.select(2), Err(TuningError::CollectionSelectIdx(2))));
    // A failed selection leaves the previous one in place.
    assert_eq!(c.get_selected().name, "two");
}

#[test]
fn default_tuning_is_standard_six_string() {
    let t = Tuning::default();
    assert_eq!(t.name, "Default");
    assert_eq!(t.total_frets, 24);
    assert_eq!(
        t.pitches,
        vec![
            Pitch::new(Note::E, 2),
            Pitch::new(Note::A, 2),
            Pitch::new(Note::D, 3),
            Pitch::new(Note::G, 3),
            Pitch::new(Note::B, 3),
            Pitch::new(Note::E, 4),
        ]
    );
}

#[test]
fn default_collection_holds_the_default_tuning() {
    let c = TuningCollection::default();
    assert_eq!(c.items.len(), 1);
    assert_eq!(c.get_selected().name, "Default");
}
