use fretboard::ColorSlot;
use fretboard::FretMarkerType;
use fretboard::Fretboard;
use fretboard::Note;
use fretboard::Orientation;
use fretboard::Pitch;
use fretboard::Primitive;
use fretboard::Rect;
use fretboard::Size;
use fretboard::Tuning;

fn six_string_24_fret() -> Tuning {
    Tuning::default()
}

fn rect(x: i64, y: i64, width: i64, height: i64) -> Rect {
    Rect { x, y, width, height }
}

#[test]
fn marker_table_first_twelve_frets() {
    let expected = [
        None,
        None,
        Some(FretMarkerType::Single),
        None,
        Some(FretMarkerType::Single),
        None,
        Some(FretMarkerType::Single),
        None,
        Some(FretMarkerType::Single),
        None,
        None,
        Some(FretMarkerType::Double),
    ];
    for fret in 1u8..=12 {
        assert_eq!(FretMarkerType::for_fret(fret), expected[(fret - 1) as usize]);
    }
}

#[test]
fn marker_table_is_cyclic() {
    assert_eq!(FretMarkerType::for_fret(15), Some(FretMarkerType::Single));
    assert_eq!(FretMarkerType::for_fret(24), Some(FretMarkerType::Double));
    for fret in 1u8..=12 {
        assert_eq!(FretMarkerType::for_fret(fret + 12), FretMarkerType::for_fret(fret));
    }
}

#[test]
fn orientation_follows_the_longer_dimension() {
    assert_eq!(
        Orientation::of_size(Size { width: 100, height: 50 }),
        Orientation::Horizontal
    );
    assert_eq!(
        Orientation::of_size(Size { width: 50, height: 100 }),
        Orientation::Vertical
    );
}

#[test]
fn orientation_tie_resolves_to_horizontal() {
    assert_eq!(
        Orientation::of_size(Size { width: 80, height: 80 }),
        Orientation::Horizontal
    );
}

#[test]
fn degenerate_zero_frets_draws_nothing() {
    let mut tuning = six_string_24_fret();
    tuning.total_frets = 0;
    let out = Fretboard::new(tuning).draw(rect(0, 0, 100_000, 50_000));
    assert!(out.is_empty());
}

#[test]
fn degenerate_zero_strings_draws_nothing() {
    let mut tuning = six_string_24_fret();
    tuning.pitches = vec![];
    let out = Fretboard::new(tuning).draw(rect(0, 0, 100_000, 50_000));
    assert!(out.is_empty());
}

#[test]
fn degenerate_zero_area_draws_nothing() {
    let board = Fretboard::new(six_string_24_fret());
    assert!(board.draw(rect(0, 0, 0, 0)).is_empty());
    assert!(board.draw(rect(0, 0, 100_000, 0)).is_empty());
    assert!(board.draw(rect(0, 0, 0, 50_000)).is_empty());
}

fn rect_color(p: &Primitive) -> Option<ColorSlot> {
    match p {
        Primitive::Rect(b) => Some(b.color),
        Primitive::Text(_) => None,
    }
}

#[test]
fn layering_groups_in_order_for_six_strings_24_frets() {
    let out = Fretboard::new(six_string_24_fret()).draw(rect(0, 0, 100_000, 50_000));

    // background, nut, 24 frets, 12 marker dots (8 single + 2 double),
    // 6 strings, then 6 * 25 labels of two primitives each.
    assert_eq!(out.len(), 1 + 1 + 24 + 12 + 6 + 300);

    assert_eq!(rect_color(&out[0]), Some(ColorSlot::Mantle));
    assert_eq!(rect_color(&out[1]), Some(ColorSlot::Peach));
    for i in 2..26 {
        assert_eq!(rect_color(&out[i]), Some(ColorSlot::Overlay0));
    }
    for i in 26..38 {
        assert_eq!(rect_color(&out[i]), Some(ColorSlot::Text));
    }
    for i in 38..44 {
        assert_eq!(rect_color(&out[i]), Some(ColorSlot::Lavender));
    }
    for pair in 0..150 {
        let rect_prim = &out[44 + 2 * pair];
        let text_prim = &out[44 + 2 * pair + 1];
        assert!(matches!(rect_prim, Primitive::Rect(b) if b.border.is_some()));
        match text_prim {
            Primitive::Text(t) => assert_eq!(t.color, ColorSlot::Crust),
            Primitive::Rect(_) => panic!("expected label text"),
        }
    }
}

#[test]
fn horizontal_labels_start_from_the_highest_string() {
    // Horizontal orientation renders strings in reversed pitch order: the
    // first label row belongs to the last pitch of the tuning (E4), fret 0.
    let out = Fretboard::new(six_string_24_fret()).draw(rect(0, 0, 100_000, 50_000));
    let first_label_text = out
        .iter()
        .find_map(|p| match p {
            Primitive::Text(t) => Some(t.content.clone()),
            Primitive::Rect(_) => None,
        })
        .unwrap();
    assert_eq!(first_label_text, "E4");
}

#[test]
fn vertical_labels_start_from_the_lowest_string() {
    let out = Fretboard::new(six_string_24_fret()).draw(rect(0, 0, 50_000, 100_000));
    let first_label_text = out
        .iter()
        .find_map(|p| match p {
            Primitive::Text(t) => Some(t.content.clone()),
            Primitive::Rect(_) => None,
        })
        .unwrap();
    assert_eq!(first_label_text, "E2");
}

#[test]
fn label_contents_walk_up_each_string() {
    let tuning = Tuning {
        pitches: vec![Pitch::new(Note::B, 3)],
        total_frets: 2,
        name: String::from("solo"),
    };
    let out = Fretboard::new(tuning).draw(rect(0, 0, 100_000, 50_000));
    let texts: Vec<String> = out
        .iter()
        .filter_map(|p| match p {
            Primitive::Text(t) => Some(t.content.clone()),
            Primitive::Rect(_) => None,
        })
        .collect();
    // Fret 0 is the open string; each fret up is one successor step.
    assert_eq!(texts, vec![String::from("B3"), String::from("C4"), String::from("C#4")]);
}

#[test]
fn label_color_matches_the_note() {
    let tuning = Tuning {
        pitches: vec![Pitch::new(Note::E, 2)],
        total_frets: 1,
        name: String::from("solo"),
    };
    let out = Fretboard::new(tuning).draw(rect(0, 0, 100_000, 50_000));
    let label_colors: Vec<ColorSlot> = out
        .iter()
        .filter_map(|p| match p {
            Primitive::Rect(b) if b.border.is_some() => Some(b.color),
            _ => None,
        })
        .collect();
    // E is red, F (one fret up) is mauve.
    assert_eq!(label_colors, vec![ColorSlot::Red, ColorSlot::Mauve]);
}

#[test]
fn draw_is_deterministic() {
    let board = Fretboard::new(six_string_24_fret());
    let bounds = rect(10_000, 20_000, 90_000, 40_000);
    let a = board.draw(bounds);
    let b = board.draw(bounds);
    assert_eq!(a.len(), b.len());
    for (x, y) in a.iter().zip(b.iter()) {
        match (x, y) {
            (Primitive::Rect(p), Primitive::Rect(q)) => assert_eq!(p, q),
            (Primitive::Text(p), Primitive::Text(q)) => {
                assert_eq!(p.content, q.content);
                assert_eq!(p.location, q.location);
                assert_eq!(p.bounds, q.bounds);
                assert_eq!(p.font_size, q.font_size);
                assert_eq!(p.color, q.color);
                assert_eq!(p.clip, q.clip);
            },
            _ => panic!("primitive kinds diverge"),
        }
    }
}

#[test]
fn spacing_reserves_margins_on_both_ends() {
    // For a simple flat rectangle the derived numbers are exact: check a few
    // against the documented derivation.
    let tuning = Tuning {
        pitches: vec![
            Pitch::new(Note::E, 2),
            Pitch::new(Note::A, 2),
            Pitch::new(Note::D, 3),
        ],
        total_frets: 11,
        name: String::from("trio"),
    };
    let out = Fretboard::new(tuning).draw(rect(0, 0, 120_000, 60_000));
    // length_frets = 120000; font = 120000 * 9 / 1000 = 1080;
    // label box = 1080 * 5 / 2 = 2700; origin_nut = 2700 * 5 / 4 = 3375;
    // nut width = 120000 * 2 / 1000 = 240.
    match &out[1] {
        Primitive::Rect(nut) => {
            assert_eq!(nut.bounds.x, 3375);
            assert_eq!(nut.bounds.width, 240);
        },
        Primitive::Text(_) => panic!("expected the nut rectangle"),
    }
    // origin_fret = 3375 + 240 = 3615; spacing = (120000 - 3615) / 12 = 9698;
    // fret 1 sits one full spacing after the fret origin.
    match &out[2] {
        Primitive::Rect(fret) => {
            assert_eq!(fret.bounds.x, 3615 + 9698);
        },
        Primitive::Text(_) => panic!("expected a fret rectangle"),
    }
}

#[test]
fn vertical_orientation_swaps_point_and_size_axes() {
    let tuning = Tuning {
        pitches: vec![
            Pitch::new(Note::E, 2),
            Pitch::new(Note::A, 2),
            Pitch::new(Note::D, 3),
        ],
        total_frets: 11,
        name: String::from("trio"),
    };
    // The same diagram as the horizontal spacing test, rotated: the neck now
    // runs along the 120000-unit height.
    let out = Fretboard::new(tuning).draw(rect(0, 0, 60_000, 120_000));
    match &out[1] {
        Primitive::Rect(nut) => {
            // Logical nut origin (3375, 13636) and size (240, 32727), both
            // swapped by the vertical transform.
            assert_eq!(nut.bounds.x, 13636);
            assert_eq!(nut.bounds.y, 3375);
            assert_eq!(nut.bounds.width, 32727);
            assert_eq!(nut.bounds.height, 240);
        },
        Primitive::Text(_) => panic!("expected the nut rectangle"),
    }
}

#[test]
fn marker_geometry_exact_values() {
    let tuning = Tuning {
        pitches: vec![
            Pitch::new(Note::E, 2),
            Pitch::new(Note::A, 2),
            Pitch::new(Note::D, 3),
        ],
        total_frets: 11,
        name: String::from("trio"),
    };
    let out = Fretboard::new(tuning).draw(rect(0, 0, 120_000, 60_000));
    // Layout: background, nut, 11 frets, then the markers at frets 3, 5, 7
    // and 9. spacing_fret = 9698, fret 3 x = 3615 + 3 * 9698 = 32709; the
    // marker sits half a cell earlier at 32709 - 4849 = 27860. Marker width
    // is 9698 * 7 / 100 = 678; its vertical center line derives from
    // length_pitches 32727: 13636 + 16363 - 339 = 29660.
    match &out[13] {
        Primitive::Rect(marker) => {
            assert_eq!(marker.color, ColorSlot::Text);
            assert_eq!(marker.bounds.x, 27860);
            assert_eq!(marker.bounds.y, 29660);
            assert_eq!(marker.bounds.width, 678);
            assert_eq!(marker.bounds.height, 678);
        },
        Primitive::Text(_) => panic!("expected a marker rectangle"),
    }
}

#[test]
fn labels_render_two_digit_octaves() {
    let tuning = Tuning {
        pitches: vec![Pitch::new(Note::B, 9)],
        total_frets: 2,
        name: String::from("high"),
    };
    let out = Fretboard::new(tuning).draw(rect(0, 0, 100_000, 50_000));
    let texts: Vec<String> = out
        .iter()
        .filter_map(|p| match p {
            Primitive::Text(t) => Some(t.content.clone()),
            Primitive::Rect(_) => None,
        })
        .collect();
    assert_eq!(texts, vec![String::from("B9"), String::from("C10"), String::from("C#10")]);
}
