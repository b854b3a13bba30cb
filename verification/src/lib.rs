//! A stringed-instrument fretboard model: chromatic pitches, tunings with a
//! validated selection, and a layout engine that turns a tuning and a bounding
//! rectangle into an ordered list of drawing primitives.

mod config;
mod fretboard;
mod geometry;
mod theme;
mod tuning;

pub use config::Config;
pub use config::SchemaConfig;
pub use config::SchemaTuning;
pub use fretboard::Border;
pub use fretboard::Bounds;
pub use fretboard::Cx;
pub use fretboard::FretMarker;
pub use fretboard::FretMarkerType;
pub use fretboard::Fretboard;
pub use fretboard::Layout;
pub use fretboard::LayoutNoteLabel;
pub use fretboard::NoteLabel;
pub use fretboard::Primitive;
pub use fretboard::TextPrimitive;
pub use geometry::Orientation;
pub use geometry::Point;
pub use geometry::Rect;
pub use geometry::Size;
pub use theme::ColorSlot;
pub use theme::ThemeError;
pub use theme::ThemeName;
pub use tuning::Note;
pub use tuning::Tuning;
pub use tuning::TuningCollection;
pub use tuning::Pitch;
pub use tuning::PitchIter;
pub use tuning::TuningError;
