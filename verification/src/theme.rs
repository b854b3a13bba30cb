//! Theme names and the palette slots the layout engine colors primitives
//! with. The palette itself — actual RGB values per slot — is supplied by an
//! outside collaborator; the core only ever names slots.

use vstd::prelude::*;
use vstd::string::StrSliceExecFns;

verus! {

/// The named color slots of the palette: one per chromatic note, plus the
/// structural colors used for the diagram itself.
#[derive(Clone, Copy, Debug, PartialEq, Eq, Structural)]
pub enum ColorSlot {
    Rosewater,
    Flamingo,
    Pink,
    Mauve,
    Red,
    Maroon,
    Peach,
    Yellow,
    Green,
    Teal,
    Sky,
    Sapphire,
    Blue,
    Lavender,
    Text,
    Subtext1,
    Subtext0,
    Overlay2,
    Overlay1,
    Overlay0,
    Surface2,
    Surface1,
    Surface0,
    Base,
    Mantle,
    Crust,
}

/// The selectable color themes.
#[derive(Clone, Copy, Debug, PartialEq, Eq, Structural)]
pub enum ThemeName {
    Frappe,
    Latte,
    Macchiato,
    Mocha,
}

/// The theme a configuration string names, if any.
pub open spec fn spec_theme_name(s: Seq<char>) -> Option<ThemeName> {
    if s == "catppuccin-frappe"@ {
        Some(ThemeName::Frappe)
    } else if s == "catppuccin-latte"@ {
        Some(ThemeName::Latte)
    } else if s == "catppuccin-macchiato"@ {
        Some(ThemeName::Macchiato)
    } else if s == "catppuccin-mocha"@ {
        Some(ThemeName::Mocha)
    } else {
        None
    }
}

impl ThemeName {
    /// Resolve a configuration string to a theme name.
    pub fn from_str(value: &str) -> (r: Result<Self, ThemeError>)
        ensures
            match r {
                Ok(t) => spec_theme_name(value@) == Some(t),
                Err(e) => {
                    &&& spec_theme_name(value@) is None
                    &&& e matches ThemeError::Unknown(v) && v@ == value@
                },
            },
    {
        if str_eq(value, "catppuccin-frappe") {
            Ok(Self::Frappe)
        } else if str_eq(value, "catppuccin-latte") {
            Ok(Self::Latte)
        } else if str_eq(value, "catppuccin-macchiato") {
            Ok(Self::Macchiato)
        } else if str_eq(value, "catppuccin-mocha") {
            Ok(Self::Mocha)
        } else {
            Err(ThemeError::Unknown(value.to_owned()))
        }
    }
}

impl Default for ThemeName {
    /// The theme used when the configuration names none.
    fn default() -> (r: Self)
        ensures
            r == ThemeName::Mocha,
    {
        Self::Mocha
    }
}

/// Failure to resolve a theme name, carrying the unknown text.
#[derive(Clone, Debug, PartialEq, Eq)]
pub enum ThemeError {
    Unknown(String),
}

/// Character-for-character string comparison.
fn str_eq(a: &str, b: &str) -> (r: bool)
    ensures
        r == (a@ == b@),
{
    let an = a.unicode_len();
    let bn = b.unicode_len();
    if an != bn {
        return false;
    }
    let mut i: usize = 0;
    while i < an
        invariant
            0 <= i <= an,
            an == a@.len(),
            bn == b@.len(),
            an == bn,
            forall|j: int| 0 <= j < i ==> a@[j] == b@[j],
        decreases an - i,
    {
        if a.get_char(i) != b.get_char(i) {
            return false;
        }
        i += 1;
    }
    proof {
        assert(a@ =~= b@);
    }
    true
}

} // verus!
