//! Font weight, stretch and style, and the descriptor that names a font
//! variant apart from any live native object.
//!
//! Each property is read from the native layer as a numeric code. The mapping
//! from codes to variants is total: a code outside the known set is kept in an
//! `Unknown` variant, so converting back gives the same code.

use vstd::prelude::*;

verus! {

/// The weight of a font.
#[derive(Clone, Copy, Debug, PartialEq, Eq, Structural)]
pub enum FontWeight {
    Thin,
    ExtraLight,
    Light,
    SemiLight,
    Regular,
    Medium,
    SemiBold,
    Bold,
    ExtraBold,
    Black,
    ExtraBlack,
    Unknown(u32),
}

/// The native code of a weight.
pub open spec fn weight_code(w: FontWeight) -> u32 {
    match w {
        FontWeight::Thin => 100,
        FontWeight::ExtraLight => 200,
        FontWeight::Light => 300,
        FontWeight::SemiLight => 350,
        FontWeight::Regular => 400,
        FontWeight::Medium => 500,
        FontWeight::SemiBold => 600,
        FontWeight::Bold => 700,
        FontWeight::ExtraBold => 800,
        FontWeight::Black => 900,
        FontWeight::ExtraBlack => 950,
        FontWeight::Unknown(v) => v,
    }
}

/// The weight that a native code stands for.
pub open spec fn weight_of_code(v: u32) -> FontWeight {
    if v == 100 {
        FontWeight::Thin
    } else if v == 200 {
        FontWeight::ExtraLight
    } else if v == 300 {
        FontWeight::Light
    } else if v == 350 {
        FontWeight::SemiLight
    } else if v == 400 {
        FontWeight::Regular
    } else if v == 500 {
        FontWeight::Medium
    } else if v == 600 {
        FontWeight::SemiBold
    } else if v == 700 {
        FontWeight::Bold
    } else if v == 800 {
        FontWeight::ExtraBold
    } else if v == 900 {
        FontWeight::Black
    } else if v == 950 {
        FontWeight::ExtraBlack
    } else {
        FontWeight::Unknown(v)
    }
}

/// A weight as `from_code` produces it: `Unknown` holds only codes that no
/// named weight has.
pub open spec fn weight_canonical(w: FontWeight) -> bool {
    weight_of_code(weight_code(w)) == w
}

impl FontWeight {
    /// The weight for a native code.
    pub fn from_code(v: u32) -> (r: FontWeight)
        ensures
            r == weight_of_code(v),
    {
        match v {
            100 => FontWeight::Thin,
            200 => FontWeight::ExtraLight,
            300 => FontWeight::Light,
            350 => FontWeight::SemiLight,
            400 => FontWeight::Regular,
            500 => FontWeight::Medium,
            600 => FontWeight::SemiBold,
            700 => FontWeight::Bold,
            800 => FontWeight::ExtraBold,
            900 => FontWeight::Black,
            950 => FontWeight::ExtraBlack,
            _ => FontWeight::Unknown(v),
        }
    }

    /// The native code of this weight.
    pub fn code(&self) -> (r: u32)
        ensures
            r == weight_code(*self),
    {
        match self {
            FontWeight::Thin => 100,
            FontWeight::ExtraLight => 200,
            FontWeight::Light => 300,
            FontWeight::SemiLight => 350,
            FontWeight::Regular => 400,
            FontWeight::Medium => 500,
            FontWeight::SemiBold => 600,
            FontWeight::Bold => 700,
            FontWeight::ExtraBold => 800,
            FontWeight::Black => 900,
            FontWeight::ExtraBlack => 950,
            FontWeight::Unknown(v) => *v,
        }
    }
}

/// The stretch (width) of a font.
#[derive(Clone, Copy, Debug, PartialEq, Eq, Structural)]
pub enum FontStretch {
    Undefined,
    UltraCondensed,
    ExtraCondensed,
    Condensed,
    SemiCondensed,
    Normal,
    SemiExpanded,
    Expanded,
    ExtraExpanded,
    UltraExpanded,
    Unknown(u32),
}

/// The native code of a stretch.
pub open spec fn stretch_code(s: FontStretch) -> u32 {
    match s {
        FontStretch::Undefined => 0,
        FontStretch::UltraCondensed => 1,
        FontStretch::ExtraCondensed => 2,
        FontStretch::Condensed => 3,
        FontStretch::SemiCondensed => 4,
        FontStretch::Normal => 5,
        FontStretch::SemiExpanded => 6,
        FontStretch::Expanded => 7,
        FontStretch::ExtraExpanded => 8,
        FontStretch::UltraExpanded => 9,
        FontStretch::Unknown(v) => v,
    }
}

/// The stretch that a native code stands for.
pub open spec fn stretch_of_code(v: u32) -> FontStretch {
    if v == 0 {
        FontStretch::Undefined
    } else if v == 1 {
        FontStretch::UltraCondensed
    } else if v == 2 {
        FontStretch::ExtraCondensed
    } else if v == 3 {
        FontStretch::Condensed
    } else if v == 4 {
        FontStretch::SemiCondensed
    } else if v == 5 {
        FontStretch::Normal
    } else if v == 6 {
        FontStretch::SemiExpanded
    } else if v == 7 {
        FontStretch::Expanded
    } else if v == 8 {
        FontStretch::ExtraExpanded
    } else if v == 9 {
        FontStretch::UltraExpanded
    } else {
        FontStretch::Unknown(v)
    }
}

/// A stretch as `from_code` produces it.
pub open spec fn stretch_canonical(s: FontStretch) -> bool {
    stretch_of_code(stretch_code(s)) == s
}

impl FontStretch {
    /// The stretch for a native code.
    pub fn from_code(v: u32) -> (r: FontStretch)
        ensures
            r == stretch_of_code(v),
    {
        match v {
            0 => FontStretch::Undefined,
            1 => FontStretch::UltraCondensed,
            2 => FontStretch::ExtraCondensed,
            3 => FontStretch::Condensed,
            4 => FontStretch::SemiCondensed,
            5 => FontStretch::Normal,
            6 => FontStretch::SemiExpanded,
            7 => FontStretch::Expanded,
            8 => FontStretch::ExtraExpanded,
            9 => FontStretch::UltraExpanded,
            _ => FontStretch::Unknown(v),
        }
    }

    /// The native code of this stretch.
    pub fn code(&self) -> (r: u32)
        ensures
            r == stretch_code(*self),
    {
        match self {
            FontStretch::Undefined => 0,
            FontStretch::UltraCondensed => 1,
            FontStretch::ExtraCondensed => 2,
            FontStretch::Condensed => 3,
            FontStretch::SemiCondensed => 4,
            FontStretch::Normal => 5,
            FontStretch::SemiExpanded => 6,
            FontStretch::Expanded => 7,
            FontStretch::ExtraExpanded => 8,
            FontStretch::UltraExpanded => 9,
            FontStretch::Unknown(v) => *v,
        }
    }
}

/// The slant of a font.
#[derive(Clone, Copy, Debug, PartialEq, Eq, Structural)]
pub enum FontStyle {
    Normal,
    Oblique,
    Italic,
    Unknown(u32),
}

/// The native code of a style.
pub open spec fn style_code(s: FontStyle) -> u32 {
    match s {
        FontStyle::Normal => 0,
        FontStyle::Oblique => 1,
        FontStyle::Italic => 2,
        FontStyle::Unknown(v) => v,
    }
}

/// The style that a native code stands for.
pub open spec fn style_of_code(v: u32) -> FontStyle {
    if v == 0 {
        FontStyle::Normal
    } else if v == 1 {
        FontStyle::Oblique
    } else if v == 2 {
        FontStyle::Italic
    } else {
        FontStyle::Unknown(v)
    }
}

/// A style as `from_code` produces it.
pub open spec fn style_canonical(s: FontStyle) -> bool {
    style_of_code(style_code(s)) == s
}

impl FontStyle {
    /// The style for a native code.
    pub fn from_code(v: u32) -> (r: FontStyle)
        ensures
            r == style_of_code(v),
    {
        match v {
            0 => FontStyle::Normal,
            1 => FontStyle::Oblique,
            2 => FontStyle::Italic,
            _ => FontStyle::Unknown(v),
        }
    }

    /// The native code of this style.
    pub fn code(&self) -> (r: u32)
        ensures
            r == style_code(*self),
    {
        match self {
            FontStyle::Normal => 0,
            FontStyle::Oblique => 1,
            FontStyle::Italic => 2,
            FontStyle::Unknown(v) => *v,
        }
    }
}

/// Every native code survives the trip through its variant and back, for
/// weight, stretch and style alike.
pub proof fn codes_round_trip(v: u32)
    ensures
        weight_code(weight_of_code(v)) == v,
        stretch_code(stretch_of_code(v)) == v,
        style_code(style_of_code(v)) == v,
        weight_canonical(weight_of_code(v)),
        stretch_canonical(stretch_of_code(v)),
        style_canonical(style_of_code(v)),
{
}

/// A font variant named by family, weight, stretch and style.
#[derive(Clone, Debug)]
pub struct FontDescriptor {
    pub family_name: String,
    pub weight: FontWeight,
    pub stretch: FontStretch,
    pub style: FontStyle,
}

/// The descriptor, as a value, for a family name and the three native codes.
pub open spec fn descriptor_of(family_name: Seq<char>, weight: u32, stretch: u32, style: u32) -> (
    Seq<char>,
    FontWeight,
    FontStretch,
    FontStyle,
) {
    (family_name, weight_of_code(weight), stretch_of_code(stretch), style_of_code(style))
}

impl View for FontDescriptor {
    type V = (Seq<char>, FontWeight, FontStretch, FontStyle);

    open spec fn view(&self) -> (Seq<char>, FontWeight, FontStretch, FontStyle) {
        (self.family_name@, self.weight, self.stretch, self.style)
    }
}

impl FontDescriptor {
    /// The descriptor of a font whose family name and native weight, stretch
    /// and style codes were read from the native layer.
    pub fn from_codes(family_name: String, weight: u32, stretch: u32, style: u32) -> (r:
        FontDescriptor)
        ensures
            r@ == descriptor_of(family_name@, weight, stretch, style),
    {
        FontDescriptor {
            family_name,
            weight: FontWeight::from_code(weight),
            stretch: FontStretch::from_code(stretch),
            style: FontStyle::from_code(style),
        }
    }

    /// The native weight, stretch and style codes with which a matching font
    /// is looked up.
    pub fn codes(&self) -> (r: (u32, u32, u32))
        ensures
            r == (weight_code(self.weight), stretch_code(self.stretch), style_code(self.style)),
    {
        (self.weight.code(), self.stretch.code(), self.style.code())
    }
}

impl PartialEq for FontDescriptor {
    fn eq(&self, o: &FontDescriptor) -> (r: bool)
        ensures
            r == (self@ == o@),
    {
        self.family_name == o.family_name && self.weight == o.weight && self.stretch == o.stretch
            && self.style == o.style
    }
}

impl vstd::std_specs::cmp::PartialEqSpecImpl for FontDescriptor {
    open spec fn obeys_eq_spec() -> bool {
        true
    }

    open spec fn eq_spec(&self, o: &FontDescriptor) -> bool {
        self@ == o@
    }
}

/// A descriptor derived from native codes, looked up again by its own codes
/// and derived from those, is the same descriptor: the lookup codes are
/// exactly the codes it was derived from.
pub proof fn descriptor_round_trip(family_name: Seq<char>, weight: u32, stretch: u32, style: u32)
    ensures
        ({
            let d = descriptor_of(family_name, weight, stretch, style);
            &&& weight_code(d.1) == weight
            &&& stretch_code(d.2) == stretch
            &&& style_code(d.3) == style
            &&& descriptor_of(d.0, weight_code(d.1), stretch_code(d.2), style_code(d.3)) == d
        }),
{
}

} // verus!
