//! The layout engine: derives all proportional spacing from the fret count,
//! string count and bounding rectangle, and resolves every visual element of
//! the diagram — background, nut, frets, fret markers, strings and note
//! labels — into an ordered sequence of colored drawing primitives.

use vstd::prelude::*;

use crate::geometry::div_t;
use crate::geometry::div_trunc;
use crate::geometry::spec_orientation;
use crate::geometry::Orientation;
use crate::geometry::Point;
use crate::geometry::Rect;
use crate::geometry::Size;
use crate::geometry::SUBPIXEL;
use crate::theme::ColorSlot;
use crate::tuning::format_note_octave;
use crate::tuning::spec_note_color;
use crate::tuning::spec_pitch_sharp;
use crate::tuning::Note;
use crate::tuning::spec_pitch_at;
use crate::tuning::Pitch;
use crate::tuning::PitchModel;
use crate::tuning::Tuning;

verus! {

/// Largest coordinate magnitude (and width/height) the layout accepts, in
/// fixed-point units; keeps every intermediate product inside `i64`.
pub const MAX_COORD: i64 = 0x100_0000;

/// Largest string count the layout accepts; keeps position products inside
/// `i64`.
pub const MAX_STRINGS: usize = 65536;

/// A bounding rectangle the layout accepts: bounded coordinates and
/// nonnegative size.
pub open spec fn rect_wf(r: Rect) -> bool {
    &&& -MAX_COORD <= r.x <= MAX_COORD
    &&& -MAX_COORD <= r.y <= MAX_COORD
    &&& 0 <= r.width <= MAX_COORD
    &&& 0 <= r.height <= MAX_COORD
}

/// A point as the specifications see it.
pub ghost struct PointModel {
    pub x: int,
    pub y: int,
}

/// A size as the specifications see it.
pub ghost struct SizeModel {
    pub width: int,
    pub height: int,
}

/// A rectangle as the specifications see it.
pub ghost struct RectModel {
    pub x: int,
    pub y: int,
    pub width: int,
    pub height: int,
}

/// The model of a concrete rectangle.
pub open spec fn rect_model(r: Rect) -> RectModel {
    RectModel { x: r.x as int, y: r.y as int, width: r.width as int, height: r.height as int }
}

/// Orientation transform on model points.
pub open spec fn spec_tp(o: Orientation, x: int, y: int) -> PointModel {
    match o {
        Orientation::Horizontal => PointModel { x, y },
        Orientation::Vertical => PointModel { x: y, y: x },
    }
}

/// Orientation transform on model sizes.
pub open spec fn spec_ts(o: Orientation, s: SizeModel) -> SizeModel {
    match o {
        Orientation::Horizontal => s,
        Orientation::Vertical => SizeModel { width: s.height, height: s.width },
    }
}

/// A border drawn around a filled rectangle.
#[derive(Clone, Copy, Debug, PartialEq, Eq, Structural)]
pub struct Border {
    pub color: ColorSlot,
    pub width: i64,
    pub radius: i64,
}

/// A border as the specifications see it.
pub ghost struct BorderModel {
    pub color: ColorSlot,
    pub width: int,
    pub radius: int,
}

impl View for Border {
    type V = BorderModel;

    open spec fn view(&self) -> BorderModel {
        BorderModel { color: self.color, width: self.width as int, radius: self.radius as int }
    }
}

/// A filled rectangle: the diagram's universal building block.
#[derive(Clone, Copy, Debug, PartialEq, Eq, Structural)]
pub struct Bounds {
    pub bounds: Rect,
    pub color: ColorSlot,
    pub border: Option<Border>,
}

/// A filled rectangle as the specifications see it.
pub ghost struct BoundsModel {
    pub bounds: RectModel,
    pub color: ColorSlot,
    pub border: Option<BorderModel>,
}

impl View for Bounds {
    type V = BoundsModel;

    open spec fn view(&self) -> BoundsModel {
        BoundsModel {
            bounds: rect_model(self.bounds),
            color: self.color,
            border: match self.border {
                Some(b) => Some(b@),
                None => None,
            },
        }
    }
}

impl Bounds {
    /// A borderless filled rectangle.
    pub fn new(bounds: Rect, color: ColorSlot) -> (r: Self)
        ensures
            r == (Bounds { bounds, color, border: None }),
    {
        Self { bounds, color, border: None }
    }

    /// The same rectangle with a border.
    pub fn with_border(self, value: Border) -> (r: Self)
        ensures
            r == (Bounds { border: Some(value), ..self }),
    {
        Self { border: Some(value), ..self }
    }

    /// Emit this rectangle onto the primitive list.
    pub fn render(self, out: &mut Vec<Primitive>)
        ensures
            final(out)@ == old(out)@.push(Primitive::Rect(self)),
    {
        out.push(Primitive::Rect(self));
    }
}

/// A positioned piece of monospaced, center-aligned text, clipped to its own
/// rounded-rectangle background.
#[derive(Clone, Debug)]
pub struct TextPrimitive {
    pub content: String,
    pub location: Point,
    pub bounds: Size,
    pub font_size: i64,
    pub color: ColorSlot,
    pub clip: Rect,
}

/// A text primitive as the specifications see it.
pub ghost struct TextModel {
    pub content: Seq<char>,
    pub location: PointModel,
    pub width: int,
    pub height: int,
    pub font_size: int,
    pub color: ColorSlot,
    pub clip: RectModel,
}

impl View for TextPrimitive {
    type V = TextModel;

    open spec fn view(&self) -> TextModel {
        TextModel {
            content: self.content@,
            location: PointModel { x: self.location.x as int, y: self.location.y as int },
            width: self.bounds.width as int,
            height: self.bounds.height as int,
            font_size: self.font_size as int,
            color: self.color,
            clip: rect_model(self.clip),
        }
    }
}

/// One resolved drawing command, consumed in order by the drawing surface.
#[derive(Clone, Debug)]
pub enum Primitive {
    Rect(Bounds),
    Text(TextPrimitive),
}

/// A drawing command as the specifications see it.
pub ghost enum PrimModel {
    Rect(BoundsModel),
    Text(TextModel),
}

impl View for Primitive {
    type V = PrimModel;

    open spec fn view(&self) -> PrimModel {
        match self {
            Primitive::Rect(b) => PrimModel::Rect(b@),
            Primitive::Text(t) => PrimModel::Text(t@),
        }
    }
}

/// The models of a primitive list, in order.
pub open spec fn prims_view(s: Seq<Primitive>) -> Seq<PrimModel> {
    s.map_values(|p: Primitive| p@)
}

/// The kinds of fret-position markers.
#[derive(Clone, Copy, Debug, PartialEq, Eq, Structural)]
pub enum FretMarkerType {
    Double,
    Single,
}

/// The fixed cyclic marker pattern, indexed by `(fret - 1) % 12`: frets 3,
/// 5, 7, 9 of each cycle carry a single dot and fret 12 a double dot.
pub open spec fn spec_marker_type(fret_number: int) -> Option<FretMarkerType> {
    let i = (fret_number - 1) % 12;
    if i == 2 || i == 4 || i == 6 || i == 8 {
        Some(FretMarkerType::Single)
    } else if i == 11 {
        Some(FretMarkerType::Double)
    } else {
        None
    }
}

impl FretMarkerType {
    /// Look up the marker for a fret number.
    pub fn for_fret(fret_number: u8) -> (r: Option<FretMarkerType>)
        requires
            fret_number >= 1,
        ensures
            r == spec_marker_type(fret_number as int),
    {
        let i = (fret_number - 1) % 12;
        match i {
            2 | 4 | 6 | 8 => Some(FretMarkerType::Single),
            11 => Some(FretMarkerType::Double),
            _ => None,
        }
    }
}

/// The marker pattern repeats every twelve frets.
pub proof fn lemma_marker_cycle(fret_number: int)
    requires
        fret_number >= 1,
    ensures
        spec_marker_type(fret_number + 12) == spec_marker_type(fret_number),
{
    assert((fret_number - 1 + 12) % 12 == (fret_number - 1) % 12) by (nonlinear_arith);
}

/// The derived spacing context as the specifications see it.
pub ghost struct CxSpec {
    pub note_label_bounds_width: int,
    pub note_label_font_size: int,
    pub orientation: Orientation,
    pub origin: PointModel,
    pub origin_fret: int,
    pub origin_fret_marker_double_a: int,
    pub origin_fret_marker_double_b: int,
    pub origin_fret_marker_single: int,
    pub origin_nut: int,
    pub size_fret: SizeModel,
    pub size_fret_marker: SizeModel,
    pub size_nut: SizeModel,
    pub size_string: SizeModel,
    pub spacing_fret: int,
    pub spacing_string: int,
}

/// The spacing derivation, in logical coordinates: the neck runs along the
/// long axis of the bounding rectangle; the string span is proportional to
/// the string/fret ratio; both axes are centered; glyph box, nut width and
/// marker width are fixed fractions; and the `+ 1` in each spacing divisor
/// reserves half-cells of margin at both ends.
pub open spec fn spec_cx(frets: int, strings: int, bounds: Rect) -> CxSpec {
    let orientation = spec_orientation(Size { width: bounds.width, height: bounds.height });
    let width_frets: int = if orientation == Orientation::Horizontal {
        bounds.width as int
    } else {
        bounds.height as int
    };
    let width_pitches: int = if orientation == Orientation::Horizontal {
        bounds.height as int
    } else {
        bounds.width as int
    };
    let length_frets = width_frets;
    let length_pitches = div_trunc(length_frets * strings, frets);
    let origin_x = bounds.x as int + div_trunc(width_frets - length_frets, 2);
    let origin_y = bounds.y as int + div_trunc(width_pitches - length_pitches, 2);
    let nut_width = div_trunc(length_frets * 2, 1000);
    let note_label_font_size = div_trunc(length_frets * 9, 1000);
    let note_label_bounds_width = div_trunc(note_label_font_size * 5, 2);
    let origin_nut = origin_x + div_trunc(note_label_bounds_width * 5, 4);
    let origin_fret = origin_nut + nut_width;
    let spacing_fret = div_trunc(length_frets - origin_fret, frets + 1);
    let spacing_string = div_trunc(length_pitches, strings + 1);
    let fret_marker_width = div_trunc(spacing_fret * 7, 100);
    let origin_fret_marker_single = origin_y + (div_trunc(length_pitches, 2) - div_trunc(
        fret_marker_width,
        2,
    ));
    CxSpec {
        note_label_bounds_width,
        note_label_font_size,
        orientation,
        origin: PointModel { x: origin_x, y: origin_y },
        origin_fret,
        origin_fret_marker_double_a: origin_fret_marker_single - fret_marker_width,
        origin_fret_marker_double_b: origin_fret_marker_single + fret_marker_width,
        origin_fret_marker_single,
        origin_nut,
        size_fret: spec_ts(
            orientation,
            SizeModel { width: div_trunc(length_frets * 2, 1000), height: length_pitches },
        ),
        size_fret_marker: SizeModel { width: fret_marker_width, height: fret_marker_width },
        size_nut: spec_ts(orientation, SizeModel { width: nut_width, height: length_pitches }),
        size_string: spec_ts(
            orientation,
            SizeModel {
                width: length_frets - origin_nut,
                height: div_trunc(length_pitches * 5, 1000),
            },
        ),
        spacing_fret,
        spacing_string,
    }
}

/// Field bounds that every spacing context derived from accepted inputs
/// satisfies; they keep the position arithmetic inside `i64`.
pub open spec fn cx_wf(cx: CxSpec) -> bool {
    &&& -0x8000000 <= cx.origin.x <= 0x8000000
    &&& -0x40000000000 <= cx.origin.y <= 0x40000000000
    &&& 0 <= cx.note_label_font_size <= 0x10000000
    &&& 0 <= cx.note_label_bounds_width <= 0x40000000
    &&& -0x400000000 <= cx.origin_nut <= 0x400000000
    &&& -0x800000000 <= cx.origin_fret <= 0x800000000
    &&& -0x1000000000 <= cx.spacing_fret <= 0x1000000000
    &&& 0 <= cx.spacing_string <= 0x10000000000
    &&& -0x8000000000 <= cx.size_fret_marker.width <= 0x8000000000
    &&& cx.size_fret_marker.height == cx.size_fret_marker.width
    &&& -0x80000000000 <= cx.origin_fret_marker_single <= 0x80000000000
    &&& -0x100000000000 <= cx.origin_fret_marker_double_a <= 0x100000000000
    &&& -0x100000000000 <= cx.origin_fret_marker_double_b <= 0x100000000000
    &&& -0x80000000000 <= cx.size_fret.width <= 0x80000000000
    &&& -0x80000000000 <= cx.size_fret.height <= 0x80000000000
    &&& -0x80000000000 <= cx.size_nut.width <= 0x80000000000
    &&& -0x80000000000 <= cx.size_nut.height <= 0x80000000000
    &&& -0x80000000000 <= cx.size_string.width <= 0x80000000000
    &&& -0x80000000000 <= cx.size_string.height <= 0x80000000000
}

/// The derived spacing context: every proportional distance the diagram
/// needs, recomputed per draw pass from the fret count, string count and
/// bounding rectangle.
#[derive(Clone, Copy, Debug)]
pub struct Cx {
    pub note_label_bounds_width: i64,
    pub note_label_font_size: i64,
    pub orientation: Orientation,
    pub origin: Point,
    pub origin_fret: i64,
    pub origin_fret_marker_double_a: i64,
    pub origin_fret_marker_double_b: i64,
    pub origin_fret_marker_single: i64,
    pub origin_nut: i64,
    pub size_fret: Size,
    pub size_fret_marker: Size,
    pub size_nut: Size,
    pub size_string: Size,
    pub spacing_fret: i64,
    pub spacing_string: i64,
}

impl View for Cx {
    type V = CxSpec;

    open spec fn view(&self) -> CxSpec {
        CxSpec {
            note_label_bounds_width: self.note_label_bounds_width as int,
            note_label_font_size: self.note_label_font_size as int,
            orientation: self.orientation,
            origin: PointModel { x: self.origin.x as int, y: self.origin.y as int },
            origin_fret: self.origin_fret as int,
            origin_fret_marker_double_a: self.origin_fret_marker_double_a as int,
            origin_fret_marker_double_b: self.origin_fret_marker_double_b as int,
            origin_fret_marker_single: self.origin_fret_marker_single as int,
            origin_nut: self.origin_nut as int,
            size_fret: SizeModel {
                width: self.size_fret.width as int,
                height: self.size_fret.height as int,
            },
            size_fret_marker: SizeModel {
                width: self.size_fret_marker.width as int,
                height: self.size_fret_marker.height as int,
            },
            size_nut: SizeModel {
                width: self.size_nut.width as int,
                height: self.size_nut.height as int,
            },
            size_string: SizeModel {
                width: self.size_string.width as int,
                height: self.size_string.height as int,
            },
            spacing_fret: self.spacing_fret as int,
            spacing_string: self.spacing_string as int,
        }
    }
}

impl Cx {
    /// Derive the spacing context. The fret and string counts must be
    /// positive: degenerate diagrams are rejected before layout begins.
    pub fn new(frets_count: u8, strings_count: usize, bounds: Rect) -> (r: Cx)
        requires
            frets_count >= 1,
            1 <= strings_count <= MAX_STRINGS,
            rect_wf(bounds),
        ensures
            r@ == spec_cx(frets_count as int, strings_count as int, bounds),
            cx_wf(r@),
    {
        let fi: i64 = frets_count as i64;
        let si: i64 = strings_count as i64;
        let orientation = Orientation::of_size(Size { width: bounds.width, height: bounds.height });
        let (width_frets, width_pitches): (i64, i64) = match orientation {
            Orientation::Horizontal => (bounds.width, bounds.height),
            Orientation::Vertical => (bounds.height, bounds.width),
        };
        let length_frets = width_frets;
        proof {
            assert(0 <= length_frets * si <= 0x1000000 * 65536) by (nonlinear_arith)
                requires
                    0 <= length_frets <= 0x1000000,
                    0 <= si <= 65536,
            ;
        }
        let length_pitches = div_t(length_frets * si, fi);
        let origin = Point {
            x: bounds.x + div_t(width_frets - length_frets, 2),
            y: bounds.y + div_t(width_pitches - length_pitches, 2),
        };
        let nut_width = div_t(length_frets * 2, 1000);
        let note_label_font_size = div_t(length_frets * 9, 1000);
        let note_label_bounds_width = div_t(note_label_font_size * 5, 2);
        let origin_nut = origin.x + div_t(note_label_bounds_width * 5, 4);
        let origin_fret = origin_nut + nut_width;
        let spacing_fret = div_t(length_frets - origin_fret, fi + 1);
        let spacing_string = div_t(length_pitches, si + 1);
        let fret_marker_width = div_t(spacing_fret * 7, 100);
        let origin_fret_marker_single = origin.y + (div_t(length_pitches, 2) - div_t(
            fret_marker_width,
            2,
        ));
        Cx {
            note_label_bounds_width,
            note_label_font_size,
            orientation,
            origin,
            origin_fret,
            origin_fret_marker_double_a: origin_fret_marker_single - fret_marker_width,
            origin_fret_marker_double_b: origin_fret_marker_single + fret_marker_width,
            origin_fret_marker_single,
            origin_nut,
            size_fret: orientation.transform_size(
                Size { width: div_t(length_frets * 2, 1000), height: length_pitches },
            ),
            size_fret_marker: Size { width: fret_marker_width, height: fret_marker_width },
            size_nut: orientation.transform_size(
                Size { width: nut_width, height: length_pitches },
            ),
            size_string: orientation.transform_size(
                Size {
                    width: length_frets - origin_nut,
                    height: div_t(length_pitches * 5, 1000),
                },
            ),
            spacing_fret,
            spacing_string,
        }
    }
}

/// The neck-axis position of a fret line.
pub open spec fn spec_fret_x(cx: CxSpec, number: int) -> int {
    cx.spacing_fret * number + cx.origin_fret
}

/// The neck-axis position of a fret marker: half a cell before its fret.
pub open spec fn spec_marker_x(cx: CxSpec, fret_number: int) -> int {
    spec_fret_x(cx, fret_number) - div_trunc(cx.spacing_fret, 2)
}

/// The string-axis position of a string line.
pub open spec fn spec_string_y(cx: CxSpec, number: int) -> int {
    cx.spacing_string * number + cx.origin.y
}

impl Cx {
    /// Neck-axis position of a fret line.
    pub fn calculate_fret_position_x(&self, number: u8) -> (r: i64)
        requires
            cx_wf(self@),
        ensures
            r as int == spec_fret_x(self@, number as int),
            -0x200000000000 <= r <= 0x200000000000,
    {
        proof {
            assert(-0x1000000000 * 255 <= self.spacing_fret * number
                <= 0x1000000000 * 255) by (nonlinear_arith)
                requires
                    -0x1000000000 <= self.spacing_fret <= 0x1000000000,
                    0 <= number <= 255,
            ;
        }
        self.spacing_fret * (number as i64) + self.origin_fret
    }

    /// Neck-axis position of a fret marker.
    pub fn calculate_fret_marker_position_x(&self, fret_number: u8) -> (r: i64)
        requires
            cx_wf(self@),
        ensures
            r as int == spec_marker_x(self@, fret_number as int),
    {
        self.calculate_fret_position_x(fret_number) - div_t(self.spacing_fret, 2)
    }

    /// String-axis position of a string line.
    pub fn calculate_string_position_y(&self, number: usize) -> (r: i64)
        requires
            cx_wf(self@),
            number <= MAX_STRINGS,
        ensures
            r as int == spec_string_y(self@, number as int),
    {
        proof {
            assert(0 <= self.spacing_string * number <= 0x10000000000 * 65536) by (nonlinear_arith)
                requires
                    0 <= self.spacing_string <= 0x10000000000,
                    0 <= number <= 65536,
            ;
        }
        self.spacing_string * (number as i64) + self.origin.y
    }
}

/// The nut rectangle: a band at the nut position spanning the string axis.
pub open spec fn spec_nut_prim(cx: CxSpec) -> BoundsModel {
    let point = spec_tp(cx.orientation, cx.origin_nut, cx.origin.y);
    BoundsModel {
        bounds: RectModel {
            x: point.x,
            y: point.y,
            width: cx.size_nut.width,
            height: cx.size_nut.height,
        },
        color: ColorSlot::Peach,
        border: None,
    }
}

/// One fret line.
pub open spec fn spec_fret_prim(cx: CxSpec, fret_number: int) -> BoundsModel {
    let point = spec_tp(cx.orientation, spec_fret_x(cx, fret_number), cx.origin.y);
    BoundsModel {
        bounds: RectModel {
            x: point.x,
            y: point.y,
            width: cx.size_fret.width,
            height: cx.size_fret.height,
        },
        color: ColorSlot::Overlay0,
        border: None,
    }
}

/// One marker dot for a fret, at the given string-axis position.
pub open spec fn spec_marker_prim(cx: CxSpec, fret_number: int, y: int) -> BoundsModel {
    let point = spec_tp(cx.orientation, spec_marker_x(cx, fret_number), y);
    BoundsModel {
        bounds: RectModel {
            x: point.x,
            y: point.y,
            width: cx.size_fret_marker.width,
            height: cx.size_fret_marker.height,
        },
        color: ColorSlot::Text,
        border: None,
    }
}

/// One string line.
pub open spec fn spec_string_prim(cx: CxSpec, string_number: int) -> BoundsModel {
    let point = spec_tp(cx.orientation, cx.origin_nut, spec_string_y(cx, string_number));
    BoundsModel {
        bounds: RectModel {
            x: point.x,
            y: point.y,
            width: cx.size_string.width,
            height: cx.size_string.height,
        },
        color: ColorSlot::Lavender,
        border: None,
    }
}

/// The padding that offsets a note label from its fret line.
pub open spec fn spec_padding(cx: CxSpec) -> int {
    div_trunc(cx.note_label_font_size * 5, 4)
}

/// The border every note-label background carries.
pub open spec fn spec_label_border(cx: CxSpec) -> BorderModel {
    BorderModel {
        color: ColorSlot::Base,
        width: SUBPIXEL as int,
        radius: div_trunc(cx.note_label_bounds_width, 2),
    }
}

/// The clip rectangle of a note label.
pub open spec fn spec_label_clip(cx: CxSpec, fret_number: int, string_number: int) -> RectModel {
    let x = spec_fret_x(cx, fret_number) - spec_padding(cx);
    let y = spec_string_y(cx, string_number);
    let loc = spec_tp(cx.orientation, x, y);
    RectModel {
        x: loc.x - spec_padding(cx),
        y: loc.y - spec_padding(cx),
        width: cx.note_label_bounds_width,
        height: cx.note_label_bounds_width,
    }
}

/// The background rectangle of a note label, filled with the note's color.
pub open spec fn spec_label_rect_prim(
    cx: CxSpec,
    fret_number: int,
    string_number: int,
    note: Note,
) -> BoundsModel {
    BoundsModel {
        bounds: spec_label_clip(cx, fret_number, string_number),
        color: spec_note_color(note),
        border: Some(spec_label_border(cx)),
    }
}

/// The text of a note label: the sharp-preferred pitch rendering, centered
/// at the label location and clipped to the label rectangle.
pub open spec fn spec_label_text_prim(
    cx: CxSpec,
    fret_number: int,
    string_number: int,
    note: Note,
    octave: int,
) -> TextModel {
    let x = spec_fret_x(cx, fret_number) - spec_padding(cx);
    let y = spec_string_y(cx, string_number);
    let loc = spec_tp(cx.orientation, x, y);
    TextModel {
        content: spec_pitch_sharp(PitchModel { note, octave }),
        location: loc,
        width: cx.note_label_bounds_width,
        height: cx.note_label_bounds_width,
        font_size: cx.note_label_font_size,
        color: ColorSlot::Crust,
        clip: spec_label_clip(cx, fret_number, string_number),
    }
}

/// Layout of the note labels: glyph box, border and padding derived once
/// from the spacing context.
#[derive(Clone, Copy, Debug)]
pub struct LayoutNoteLabel {
    pub bounds_size: Size,
    pub clip_border: Border,
    pub cx: Cx,
    pub font_size: i64,
    pub padding: i64,
}

impl LayoutNoteLabel {
    /// Consistency with the spacing context the label layout was built from.
    pub open spec fn wf(&self) -> bool {
        &&& cx_wf(self.cx@)
        &&& self.bounds_size.width as int == self.cx@.note_label_bounds_width
        &&& self.bounds_size.height as int == self.cx@.note_label_bounds_width
        &&& self.clip_border@ == spec_label_border(self.cx@)
        &&& self.font_size == self.cx.note_label_font_size
        &&& self.padding as int == spec_padding(self.cx@)
    }

    /// Derive the label layout from a spacing context.
    pub fn new(cx: Cx) -> (r: Self)
        requires
            cx_wf(cx@),
        ensures
            r.wf(),
            r.cx == cx,
    {
        let bounds_width = cx.note_label_bounds_width;
        let clip_border = Border {
            color: ColorSlot::Base,
            width: SUBPIXEL,
            radius: div_t(bounds_width, 2),
        };
        Self {
            bounds_size: Size { width: bounds_width, height: bounds_width },
            clip_border,
            cx,
            font_size: cx.note_label_font_size,
            padding: div_t(cx.note_label_font_size * 5, 4),
        }
    }

    /// Resolve one note label: its colored, bordered background rectangle
    /// and its text primitive.
    pub fn calculate(&self, fret_number: u8, string_number: usize, note: Note, octave: i32) -> (r:
        NoteLabel)
        requires
            self.wf(),
            string_number <= MAX_STRINGS,
            octave > i32::MIN,
        ensures
            r.clip_bounds@ == spec_label_rect_prim(
                self.cx@,
                fret_number as int,
                string_number as int,
                note,
            ),
            r.text@ == spec_label_text_prim(
                self.cx@,
                fret_number as int,
                string_number as int,
                note,
                octave as int,
            ),
    {
        proof {
            crate::geometry::lemma_div_trunc_bound(self.cx@.note_label_font_size * 5, 4);
        }
        let x = self.cx.calculate_fret_position_x(fret_number) - self.padding;
        let y = self.cx.calculate_string_position_y(string_number);
        let location = self.cx.orientation.transform_point(Point { x, y });
        let clip = Rect {
            x: location.x - self.padding,
            y: location.y - self.padding,
            width: self.bounds_size.width,
            height: self.bounds_size.height,
        };
        let clip_bounds = Bounds::new(clip, note.color_slot()).with_border(self.clip_border);
        let content = format_note_octave(note, octave);
        NoteLabel {
            clip_bounds,
            text: TextPrimitive {
                content,
                location,
                bounds: self.bounds_size,
                font_size: self.font_size,
                color: ColorSlot::Crust,
                clip,
            },
        }
    }
}

/// One resolved note label: its background and its text.
#[derive(Clone, Debug)]
pub struct NoteLabel {
    pub clip_bounds: Bounds,
    pub text: TextPrimitive,
}

impl NoteLabel {
    /// Emit the label: background first, text on top.
    pub fn render(self, out: &mut Vec<Primitive>)
        ensures
            final(out)@ == old(out)@.push(Primitive::Rect(self.clip_bounds)).push(
                Primitive::Text(self.text),
            ),
    {
        out.push(Primitive::Rect(self.clip_bounds));
        out.push(Primitive::Text(self.text));
    }
}

/// One resolved fret marker: a single dot, or the doubled octave dot.
#[derive(Clone, Copy, Debug)]
pub enum FretMarker {
    Single(Bounds),
    Double(Bounds, Bounds),
}

impl FretMarker {
    /// Emit the marker dots.
    pub fn render(self, out: &mut Vec<Primitive>)
        ensures
            final(out)@ == match self {
                FretMarker::Single(b) => old(out)@.push(Primitive::Rect(b)),
                FretMarker::Double(a, b) => old(out)@.push(Primitive::Rect(a)).push(
                    Primitive::Rect(b),
                ),
            },
    {
        match self {
            FretMarker::Single(bounds) => bounds.render(out),
            FretMarker::Double(bounds_a, bounds_b) => {
                bounds_a.render(out);
                bounds_b.render(out);
            },
        }
    }
}

/// The per-pass layout: the spacing context and the note-label layout
/// derived from it.
#[derive(Clone, Copy, Debug)]
pub struct Layout {
    pub cx: Cx,
    pub note_label: LayoutNoteLabel,
}

impl Layout {
    /// Consistency of the two parts.
    pub open spec fn wf(&self) -> bool {
        &&& cx_wf(self.cx@)
        &&& self.note_label.wf()
        &&& self.note_label.cx == self.cx
    }

    /// Derive the layout for one draw pass.
    pub fn new(frets_count: u8, strings_count: usize, bounds: Rect) -> (r: Layout)
        requires
            frets_count >= 1,
            1 <= strings_count <= MAX_STRINGS,
            rect_wf(bounds),
        ensures
            r.cx@ == spec_cx(frets_count as int, strings_count as int, bounds),
            r.wf(),
    {
        let cx = Cx::new(frets_count, strings_count, bounds);
        Self { cx, note_label: LayoutNoteLabel::new(cx) }
    }

    /// Resolve the nut band.
    pub fn calculate_nut(&self) -> (r: Bounds)
        requires
            self.wf(),
        ensures
            r@ == spec_nut_prim(self.cx@),
    {
        let origin = self.cx.orientation.transform_point(
            Point { x: self.cx.origin_nut, y: self.cx.origin.y },
        );
        Bounds::new(
            Rect {
                x: origin.x,
                y: origin.y,
                width: self.cx.size_nut.width,
                height: self.cx.size_nut.height,
            },
            ColorSlot::Peach,
        )
    }

    /// Resolve one fret line.
    pub fn calculate_fret(&self, fret_number: u8) -> (r: Bounds)
        requires
            self.wf(),
        ensures
            r@ == spec_fret_prim(self.cx@, fret_number as int),
    {
        let x = self.cx.calculate_fret_position_x(fret_number);
        let point = self.cx.orientation.transform_point(Point { x, y: self.cx.origin.y });
        Bounds::new(
            Rect {
                x: point.x,
                y: point.y,
                width: self.cx.size_fret.width,
                height: self.cx.size_fret.height,
            },
            ColorSlot::Overlay0,
        )
    }

    /// Resolve the marker dots for one marked fret.
    pub fn calculate_fret_marker(&self, fret_number: u8, marker_type: FretMarkerType) -> (r:
        FretMarker)
        requires
            self.wf(),
        ensures
            match marker_type {
                FretMarkerType::Single => r matches FretMarker::Single(b) && b@
                    == spec_marker_prim(
                    self.cx@,
                    fret_number as int,
                    self.cx@.origin_fret_marker_single,
                ),
                FretMarkerType::Double => r matches FretMarker::Double(a, b) && a@
                    == spec_marker_prim(
                    self.cx@,
                    fret_number as int,
                    self.cx@.origin_fret_marker_double_a,
                ) && b@ == spec_marker_prim(
                    self.cx@,
                    fret_number as int,
                    self.cx@.origin_fret_marker_double_b,
                ),
            },
    {
        let x = self.cx.calculate_fret_marker_position_x(fret_number);
        let orientation = self.cx.orientation;
        match marker_type {
            FretMarkerType::Single => {
                let pos = orientation.transform_point(
                    Point { x, y: self.cx.origin_fret_marker_single },
                );
                FretMarker::Single(
                    Bounds::new(
                        Rect {
                            x: pos.x,
                            y: pos.y,
                            width: self.cx.size_fret_marker.width,
                            height: self.cx.size_fret_marker.height,
                        },
                        ColorSlot::Text,
                    ),
                )
            },
            FretMarkerType::Double => {
                let pos_a = orientation.transform_point(
                    Point { x, y: self.cx.origin_fret_marker_double_a },
                );
                let pos_b = orientation.transform_point(
                    Point { x, y: self.cx.origin_fret_marker_double_b },
                );
                FretMarker::Double(
                    Bounds::new(
                        Rect {
                            x: pos_a.x,
                            y: pos_a.y,
                            width: self.cx.size_fret_marker.width,
                            height: self.cx.size_fret_marker.height,
                        },
                        ColorSlot::Text,
                    ),
                    Bounds::new(
                        Rect {
                            x: pos_b.x,
                            y: pos_b.y,
                            width: self.cx.size_fret_marker.width,
                            height: self.cx.size_fret_marker.height,
                        },
                        ColorSlot::Text,
                    ),
                )
            },
        }
    }

    /// Resolve one string line.
    pub fn calculate_string(&self, string_number: usize) -> (r: Bounds)
        requires
            self.wf(),
            string_number <= MAX_STRINGS,
        ensures
            r@ == spec_string_prim(self.cx@, string_number as int),
    {
        let y = self.cx.calculate_string_position_y(string_number);
        let point = self.cx.orientation.transform_point(Point { x: self.cx.origin_nut, y });
        Bounds::new(
            Rect {
                x: point.x,
                y: point.y,
                width: self.cx.size_string.width,
                height: self.cx.size_string.height,
            },
            ColorSlot::Lavender,
        )
    }
}


/// The background rectangle filling the whole bounding rectangle.
pub open spec fn spec_background_prim(bounds: Rect) -> PrimModel {
    PrimModel::Rect(
        BoundsModel { bounds: rect_model(bounds), color: ColorSlot::Mantle, border: None },
    )
}

/// The fret lines for fret numbers 1..=count, in order.
pub open spec fn spec_frets_group(cx: CxSpec, count: int) -> Seq<PrimModel>
    decreases count,
{
    if count <= 0 {
        Seq::empty()
    } else {
        spec_frets_group(cx, count - 1).push(PrimModel::Rect(spec_fret_prim(cx, count)))
    }
}

/// The marker dots one fret contributes: none, one, or two.
pub open spec fn spec_marker_contrib(cx: CxSpec, fret_number: int) -> Seq<PrimModel> {
    match spec_marker_type(fret_number) {
        None => Seq::empty(),
        Some(FretMarkerType::Single) => seq![
            PrimModel::Rect(spec_marker_prim(cx, fret_number, cx.origin_fret_marker_single)),
        ],
        Some(FretMarkerType::Double) => seq![
            PrimModel::Rect(spec_marker_prim(cx, fret_number, cx.origin_fret_marker_double_a)),
            PrimModel::Rect(spec_marker_prim(cx, fret_number, cx.origin_fret_marker_double_b)),
        ],
    }
}

/// The marker dots for fret numbers 1..=count, in fret order.
pub open spec fn spec_markers_group(cx: CxSpec, count: int) -> Seq<PrimModel>
    decreases count,
{
    if count <= 0 {
        Seq::empty()
    } else {
        spec_markers_group(cx, count - 1) + spec_marker_contrib(cx, count)
    }
}

/// The string lines for string numbers 1..=count, in order.
pub open spec fn spec_strings_group(cx: CxSpec, count: int) -> Seq<PrimModel>
    decreases count,
{
    if count <= 0 {
        Seq::empty()
    } else {
        spec_strings_group(cx, count - 1).push(PrimModel::Rect(spec_string_prim(cx, count)))
    }
}

/// One note label: its background rectangle, then its text.
pub open spec fn spec_label_pair(
    cx: CxSpec,
    fret_number: int,
    string_number: int,
    p: PitchModel,
) -> Seq<PrimModel> {
    seq![
        PrimModel::Rect(spec_label_rect_prim(cx, fret_number, string_number, p.note)),
        PrimModel::Text(
            spec_label_text_prim(cx, fret_number, string_number, p.note, p.octave),
        ),
    ]
}

/// The labels of one string: fret positions 0..count, each labelled with the
/// pitch that many successor steps above the string's starting pitch.
pub open spec fn spec_label_row(
    cx: CxSpec,
    start: PitchModel,
    string_number: int,
    count: int,
) -> Seq<PrimModel>
    decreases count,
{
    if count <= 0 {
        Seq::empty()
    } else {
        spec_label_row(cx, start, string_number, count - 1) + spec_label_pair(
            cx,
            count - 1,
            string_number,
            spec_pitch_at(start, (count - 1) as nat),
        )
    }
}

/// The starting pitch of a label row: horizontal diagrams draw the strings
/// in reversed pitch order so that the highest-pitched string is nearest the
/// same reference edge in both orientations.
pub open spec fn spec_row_start(o: Orientation, pitches: Seq<Pitch>, row: int) -> PitchModel {
    if o == Orientation::Horizontal {
        pitches[pitches.len() - 1 - row]@
    } else {
        pitches[row]@
    }
}

/// The label rows for rows 0..rows, in order; row `r` is drawn as string
/// number `r + 1`.
pub open spec fn spec_labels_group(
    cx: CxSpec,
    pitches: Seq<Pitch>,
    frets: int,
    rows: int,
) -> Seq<PrimModel>
    decreases rows,
{
    if rows <= 0 {
        Seq::empty()
    } else {
        spec_labels_group(cx, pitches, frets, rows - 1) + spec_label_row(
            cx,
            spec_row_start(cx.orientation, pitches, rows - 1),
            rows,
            frets + 1,
        )
    }
}

/// A diagram with nothing to draw: no frets, no strings, or a zero-area
/// bounding rectangle.
pub open spec fn spec_degenerate(pitches: Seq<Pitch>, frets: u8, bounds: Rect) -> bool {
    frets == 0 || pitches.len() == 0 || bounds.width == 0 || bounds.height == 0
}

/// Everything one draw pass emits, in order: background, nut, frets,
/// markers, strings, labels — or nothing at all for a degenerate diagram.
pub open spec fn spec_draw(pitches: Seq<Pitch>, frets: u8, bounds: Rect) -> Seq<PrimModel> {
    if spec_degenerate(pitches, frets, bounds) {
        Seq::empty()
    } else {
        let cx = spec_cx(frets as int, pitches.len() as int, bounds);
        seq![spec_background_prim(bounds), PrimModel::Rect(spec_nut_prim(cx))]
            + spec_frets_group(cx, frets as int) + spec_markers_group(cx, frets as int)
            + spec_strings_group(cx, pitches.len() as int) + spec_labels_group(
            cx,
            pitches,
            frets as int,
            pitches.len() as int,
        )
    }
}

proof fn lemma_prims_view_push(s: Seq<Primitive>, p: Primitive)
    ensures
        prims_view(s.push(p)) == prims_view(s).push(p@),
{
    assert(forall|j: int| 0 <= j < s.len() ==> prims_view(s)[j] == s[j]@);
    assert(forall|j: int|
        0 <= j < s.push(p).len() ==> prims_view(s.push(p))[j] == s.push(p)[j]@);
    assert(prims_view(s.push(p)) =~= prims_view(s).push(p@));
}

proof fn lemma_append_push(a: Seq<PrimModel>, b: Seq<PrimModel>, x: PrimModel)
    ensures
        (a + b).push(x) == a + b.push(x),
{
    assert((a + b).push(x) =~= a + b.push(x));
}

/// The widget: a tuning, resolved on each draw pass into primitives for the
/// current bounding rectangle.
#[derive(Clone, Debug)]
pub struct Fretboard {
    pub tuning: Tuning,
}

impl Fretboard {
    /// Wrap a tuning for drawing.
    pub fn new(tuning: Tuning) -> (r: Self)
        ensures
            r.tuning == tuning,
    {
        Self { tuning }
    }

    /// Resolve the diagram into an ordered list of primitives: background,
    /// nut, fret lines, fret markers, string lines, and one label per
    /// (string, fret) pair. Degenerate diagrams yield an empty list.
    #[verifier::loop_isolation(false)]
    pub fn draw(&self, bounds: Rect) -> (out: Vec<Primitive>)
        requires
            rect_wf(bounds),
            self.tuning.pitches@.len() <= MAX_STRINGS,
        ensures
            prims_view(out@) == spec_draw(self.tuning.pitches@, self.tuning.total_frets, bounds),
    {
        let ghost pitches = self.tuning.pitches@;
        let mut out: Vec<Primitive> = Vec::new();
        proof {
            assert(prims_view(out@) =~= Seq::<PrimModel>::empty());
        }
        let frets_count = self.tuning.total_frets;
        if frets_count == 0 {
            return out;
        }
        let strings_count = self.tuning.pitches.len();
        if strings_count == 0 {
            return out;
        }
        if bounds.width == 0 || bounds.height == 0 {
            return out;
        }
        let ghost cx_s = spec_cx(frets_count as int, strings_count as int, bounds);

        let ghost before_bg = out@;
        let background = Bounds::new(bounds, ColorSlot::Mantle);
        background.render(&mut out);
        let widget_layout = Layout::new(frets_count, strings_count, bounds);
        let ghost before_nut = out@;
        let nut = widget_layout.calculate_nut();
        nut.render(&mut out);
        let ghost head = seq![spec_background_prim(bounds), PrimModel::Rect(spec_nut_prim(cx_s))];
        proof {
            lemma_prims_view_push(before_bg, Primitive::Rect(background));
            lemma_prims_view_push(before_nut, Primitive::Rect(nut));
            assert(prims_view(out@) =~= head);
        }

        let ghost frets_prefix = head;
        let mut n: usize = 1;
        while n <= frets_count as usize
            invariant
                1 <= n <= frets_count as usize + 1,
                prims_view(out@) == frets_prefix + spec_frets_group(cx_s, n - 1),
            decreases frets_count as usize + 1 - n,
        {
            let ghost before = out@;
            let fret = widget_layout.calculate_fret(n as u8);
            fret.render(&mut out);
            proof {
                lemma_prims_view_push(before, Primitive::Rect(fret));
                lemma_append_push(
                    frets_prefix,
                    spec_frets_group(cx_s, n - 1),
                    PrimModel::Rect(spec_fret_prim(cx_s, n as int)),
                );
            }
            n += 1;
        }
        proof {
            assert(prims_view(out@) == head + spec_frets_group(cx_s, frets_count as int));
        }

        let ghost markers_prefix = head + spec_frets_group(cx_s, frets_count as int);
        let mut n: usize = 1;
        while n <= frets_count as usize
            invariant
                1 <= n <= frets_count as usize + 1,
                prims_view(out@) == markers_prefix + spec_markers_group(cx_s, n - 1),
            decreases frets_count as usize + 1 - n,
        {
            let ghost before_group = spec_markers_group(cx_s, n - 1);
            match FretMarkerType::for_fret(n as u8) {
                None => {
                    proof {
                        assert(spec_markers_group(cx_s, n as int) =~= before_group);
                    }
                },
                Some(marker_type) => {
                    let marker = widget_layout.calculate_fret_marker(n as u8, marker_type);
                    let ghost before = out@;
                    marker.render(&mut out);
                    proof {
                        match marker {
                            FretMarker::Single(b) => {
                                lemma_prims_view_push(before, Primitive::Rect(b));
                                assert(spec_markers_group(cx_s, n as int) =~= before_group.push(
                                    PrimModel::Rect(b@),
                                ));
                                lemma_append_push(
                                    markers_prefix,
                                    before_group,
                                    PrimModel::Rect(b@),
                                );
                            },
                            FretMarker::Double(a, b) => {
                                lemma_prims_view_push(before, Primitive::Rect(a));
                                lemma_prims_view_push(
                                    before.push(Primitive::Rect(a)),
                                    Primitive::Rect(b),
                                );
                                assert(spec_markers_group(cx_s, n as int) =~= before_group.push(
                                    PrimModel::Rect(a@),
                                ).push(PrimModel::Rect(b@)));
                                lemma_append_push(
                                    markers_prefix,
                                    before_group,
                                    PrimModel::Rect(a@),
                                );
                                lemma_append_push(
                                    markers_prefix,
                                    before_group.push(PrimModel::Rect(a@)),
                                    PrimModel::Rect(b@),
                                );
                            },
                        }
                    }
                },
            }
            n += 1;
        }
        proof {
            assert(prims_view(out@) == markers_prefix + spec_markers_group(
                cx_s,
                frets_count as int,
            ));
        }

        let ghost strings_prefix = markers_prefix + spec_markers_group(cx_s, frets_count as int);
        let mut n: usize = 1;
        while n <= strings_count
            invariant
                1 <= n <= strings_count + 1,
                prims_view(out@) == strings_prefix + spec_strings_group(cx_s, n - 1),
            decreases strings_count + 1 - n,
        {
            let ghost before = out@;
            let string_line = widget_layout.calculate_string(n);
            string_line.render(&mut out);
            proof {
                lemma_prims_view_push(before, Primitive::Rect(string_line));
                lemma_append_push(
                    strings_prefix,
                    spec_strings_group(cx_s, n - 1),
                    PrimModel::Rect(spec_string_prim(cx_s, n as int)),
                );
            }
            n += 1;
        }

        let ghost labels_prefix = strings_prefix + spec_strings_group(cx_s, strings_count as int);
        let mut i: usize = 0;
        while i < strings_count
            invariant
                0 <= i <= strings_count,
                prims_view(out@) == labels_prefix + spec_labels_group(
                    cx_s,
                    pitches,
                    frets_count as int,
                    i as int,
                ),
            decreases strings_count - i,
        {
            let start: Pitch = match widget_layout.cx.orientation {
                Orientation::Horizontal => self.tuning.pitches[strings_count - 1 - i],
                Orientation::Vertical => self.tuning.pitches[i],
            };
            let ghost start_m = spec_row_start(cx_s.orientation, pitches, i as int);
            proof {
                assert(start@ == start_m);
            }
            let string_number = i + 1;
            let mut note_cur = start.note;
            let mut octave_cur: i32 = start.octave as i32;
            let ghost row_prefix = labels_prefix + spec_labels_group(
                cx_s,
                pitches,
                frets_count as int,
                i as int,
            );
            let mut f: usize = 0;
            while f <= frets_count as usize
                invariant
                    0 <= f <= frets_count as usize + 1,
                    note_cur == spec_pitch_at(start_m, f as nat).note,
                    octave_cur as int == spec_pitch_at(start_m, f as nat).octave,
                    -128 <= octave_cur <= 127 + f,
                    string_number == i + 1,
                    prims_view(out@) == row_prefix + spec_label_row(
                        cx_s,
                        start_m,
                        string_number as int,
                        f as int,
                    ),
                decreases frets_count as usize + 1 - f,
            {
                let label = widget_layout.note_label.calculate(
                    f as u8,
                    string_number,
                    note_cur,
                    octave_cur,
                );
                let ghost before = out@;
                label.render(&mut out);
                proof {
                    lemma_prims_view_push(before, Primitive::Rect(label.clip_bounds));
                    lemma_prims_view_push(
                        before.push(Primitive::Rect(label.clip_bounds)),
                        Primitive::Text(label.text),
                    );
                    let row = spec_label_row(cx_s, start_m, string_number as int, f as int);
                    let pair = spec_label_pair(
                        cx_s,
                        f as int,
                        string_number as int,
                        spec_pitch_at(start_m, f as nat),
                    );
                    assert(spec_label_row(cx_s, start_m, string_number as int, f + 1) =~= row
                        + pair);
                    assert(row.push(pair[0]).push(pair[1]) =~= row + pair);
                    lemma_append_push(row_prefix, row, pair[0]);
                    lemma_append_push(row_prefix, row.push(pair[0]), pair[1]);
                }
                let bump: i32 = match note_cur {
                    Note::B => 1,
                    _ => 0,
                };
                note_cur = note_cur.next();
                octave_cur = octave_cur + bump;
                f += 1;
            }
            proof {
                assert(spec_labels_group(cx_s, pitches, frets_count as int, i + 1)
                    =~= spec_labels_group(cx_s, pitches, frets_count as int, i as int)
                    + spec_label_row(cx_s, start_m, (i + 1) as int, frets_count as int + 1));
                assert(prims_view(out@) =~= labels_prefix + spec_labels_group(
                    cx_s,
                    pitches,
                    frets_count as int,
                    i + 1,
                ));
            }
            i += 1;
        }
        proof {
            assert(prims_view(out@) =~= spec_draw(pitches, self.tuning.total_frets, bounds));
        }
        out
    }
}


/// Degenerate layout: a fret count of zero, an empty tuning, or a zero-area
/// bounding rectangle draws nothing at all — no error, no partial diagram.
pub proof fn lemma_degenerate_layout(pitches: Seq<Pitch>, frets: u8, bounds: Rect)
    requires
        frets == 0 || pitches.len() == 0 || bounds.width == 0 || bounds.height == 0,
    ensures
        spec_draw(pitches, frets, bounds) == Seq::<PrimModel>::empty(),
{
}

/// How many marker dots the frets 1..=count contribute in total.
pub open spec fn spec_marker_count(count: int) -> int
    decreases count,
{
    if count <= 0 {
        0
    } else {
        spec_marker_count(count - 1) + match spec_marker_type(count) {
            None => 0int,
            Some(FretMarkerType::Single) => 1int,
            Some(FretMarkerType::Double) => 2int,
        }
    }
}

/// The fret group holds exactly one line per fret, in fret order.
pub proof fn lemma_frets_group_properties(cx: CxSpec, count: int)
    requires
        count >= 0,
    ensures
        spec_frets_group(cx, count).len() == count,
        forall|i: int|
            0 <= i < count ==> spec_frets_group(cx, count)[i] == PrimModel::Rect(
                spec_fret_prim(cx, i + 1),
            ),
    decreases count,
{
    if count > 0 {
        lemma_frets_group_properties(cx, count - 1);
    }
}

/// The marker group holds `spec_marker_count` dots, all filled rectangles in
/// the text color.
pub proof fn lemma_markers_group_properties(cx: CxSpec, count: int)
    requires
        count >= 0,
    ensures
        spec_markers_group(cx, count).len() == spec_marker_count(count),
        forall|i: int|
            0 <= i < spec_markers_group(cx, count).len() ==> (#[trigger] spec_markers_group(
                cx,
                count,
            )[i] matches PrimModel::Rect(b) && b.color == ColorSlot::Text),
    decreases count,
{
    if count > 0 {
        lemma_markers_group_properties(cx, count - 1);
    }
}

/// The string group holds exactly one line per string, in string order.
pub proof fn lemma_strings_group_properties(cx: CxSpec, count: int)
    requires
        count >= 0,
    ensures
        spec_strings_group(cx, count).len() == count,
        forall|i: int|
            0 <= i < count ==> spec_strings_group(cx, count)[i] == PrimModel::Rect(
                spec_string_prim(cx, i + 1),
            ),
    decreases count,
{
    if count > 0 {
        lemma_strings_group_properties(cx, count - 1);
    }
}

/// One label row holds a background/text pair per fret position, in order,
/// labelled with successive pitches above the row's starting pitch.
pub proof fn lemma_label_row_properties(cx: CxSpec, start: PitchModel, string_number: int, count: int)
    requires
        count >= 0,
    ensures
        spec_label_row(cx, start, string_number, count).len() == 2 * count,
        forall|f: int|
            0 <= f < count ==> spec_label_row(cx, start, string_number, count)[2 * f]
                == PrimModel::Rect(
                spec_label_rect_prim(
                    cx,
                    f,
                    string_number,
                    (#[trigger] spec_pitch_at(start, f as nat)).note,
                ),
            ),
        forall|f: int|
            0 <= f < count ==> spec_label_row(cx, start, string_number, count)[2 * f + 1]
                == PrimModel::Text(
                spec_label_text_prim(
                    cx,
                    f,
                    string_number,
                    (#[trigger] spec_pitch_at(start, f as nat)).note,
                    spec_pitch_at(start, f as nat).octave,
                ),
            ),
    decreases count,
{
    if count > 0 {
        lemma_label_row_properties(cx, start, string_number, count - 1);
    }
}

/// The label group holds one full row per string.
pub proof fn lemma_labels_group_len(cx: CxSpec, pitches: Seq<Pitch>, frets: int, rows: int)
    requires
        frets >= 0,
        rows >= 0,
    ensures
        spec_labels_group(cx, pitches, frets, rows).len() == rows * (2 * (frets + 1)),
    decreases rows,
{
    let l = 2 * (frets + 1);
    if rows > 0 {
        lemma_labels_group_len(cx, pitches, frets, rows - 1);
        lemma_label_row_properties(
            cx,
            spec_row_start(cx.orientation, pitches, rows - 1),
            rows,
            frets + 1,
        );
        assert(spec_label_row(
            cx,
            spec_row_start(cx.orientation, pitches, rows - 1),
            rows,
            frets + 1,
        ).len() == l);
        assert(spec_labels_group(cx, pitches, frets, rows).len() == (rows - 1) * l + l);
        assert((rows - 1) * l + l == rows * l) by (nonlinear_arith);
    } else {
        assert(rows * l == 0) by (nonlinear_arith)
            requires rows == 0;
    }
}

/// Layering: a non-degenerate draw pass emits exactly the background, the
/// nut, the fret lines in order, the marker dots in fret order, the string
/// lines in order, and one label pair per (string, fret) position — in that
/// relative order, so later groups paint over earlier ones.
pub proof fn lemma_layering(pitches: Seq<Pitch>, frets: u8, bounds: Rect)
    requires
        frets >= 1,
        pitches.len() >= 1,
        bounds.width != 0,
        bounds.height != 0,
    ensures
        ({
            let cx = spec_cx(frets as int, pitches.len() as int, bounds);
            let nf = frets as int;
            let ns = pitches.len() as int;
            &&& spec_draw(pitches, frets, bounds) == seq![
                spec_background_prim(bounds),
                PrimModel::Rect(spec_nut_prim(cx)),
            ] + spec_frets_group(cx, nf) + spec_markers_group(cx, nf) + spec_strings_group(cx, ns)
                + spec_labels_group(cx, pitches, nf, ns)
            &&& spec_frets_group(cx, nf).len() == nf
            &&& forall|i: int|
                0 <= i < nf ==> spec_frets_group(cx, nf)[i] == PrimModel::Rect(
                    spec_fret_prim(cx, i + 1),
                )
            &&& spec_markers_group(cx, nf).len() == spec_marker_count(nf)
            &&& forall|i: int|
                0 <= i < spec_markers_group(cx, nf).len() ==> (#[trigger] spec_markers_group(
                    cx,
                    nf,
                )[i] matches PrimModel::Rect(b) && b.color == ColorSlot::Text)
            &&& spec_strings_group(cx, ns).len() == ns
            &&& forall|i: int|
                0 <= i < ns ==> spec_strings_group(cx, ns)[i] == PrimModel::Rect(
                    spec_string_prim(cx, i + 1),
                )
            &&& spec_labels_group(cx, pitches, nf, ns).len() == ns * (2 * (nf + 1))
        }),
{
    let cx = spec_cx(frets as int, pitches.len() as int, bounds);
    let nf = frets as int;
    let ns = pitches.len() as int;
    lemma_frets_group_properties(cx, nf);
    lemma_markers_group_properties(cx, nf);
    lemma_strings_group_properties(cx, ns);
    lemma_labels_group_len(cx, pitches, nf, ns);
}


} // verus!
