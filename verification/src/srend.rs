//! Colors, palettes and the gradient lookup table.
//!
//! A color scheme is a closed enumeration of named palettes; each palette
//! is a fixed, non-empty list of stop colors. A gradient is the
//! 256-entry lookup table derived from those stops. Interpolating the
//! interior entries works in HSL space and is performed by the caller;
//! this module fixes the stop tables, the degenerate single-stop
//! gradient, and the table lookup itself.

use vstd::prelude::*;

verus! {

/// One RGB color.
#[derive(Copy, Clone, PartialEq, Eq, Structural, Debug)]
pub struct Color {
    pub r: u8,
    pub g: u8,
    pub b: u8,
}

/// The color encoded by a packed `0xRRGGBB` word.
pub open spec fn spec_color_of_rgb(rgb: u32) -> Color {
    Color { r: ((rgb >> 16) & 0xFF) as u8, g: ((rgb >> 8) & 0xFF) as u8, b: (rgb & 0xFF) as u8 }
}

impl Color {
    /// Color from its three channels.
    pub fn new(r: u8, g: u8, b: u8) -> (c: Color)
        ensures
            c == (Color { r, g, b }),
    {
        Color { r, g, b }
    }

    /// Color from a packed `0xRRGGBB` word; the top byte is ignored.
    pub fn new_rgb(rgb: u32) -> (c: Color)
        ensures
            c == spec_color_of_rgb(rgb),
    {
        let r = ((rgb >> 16) & 0xFF) as u8;
        let g = ((rgb >> 8) & 0xFF) as u8;
        let b = (rgb & 0xFF) as u8;
        Color { r, g, b }
    }
}

/// Supported color schemes for spectrogram rendering.
#[derive(Copy, Clone, PartialEq, Eq, PartialOrd, Ord, Structural, Debug)]
pub enum ColorScheme {
    Oceanic,
    Grayscale,
    Inferno,
    Viridis,
    Synthwave,
    Sunset,
}

/// The stop colors of each palette, left to right.
pub open spec fn spec_color_stops(scheme: ColorScheme) -> Seq<Color> {
    match scheme {
        ColorScheme::Oceanic => seq![
            spec_color_of_rgb(0x01041B),
            spec_color_of_rgb(0x072e69),
            spec_color_of_rgb(0x4da4d5),
            spec_color_of_rgb(0xdcf3ff),
        ],
        ColorScheme::Grayscale => seq![
            spec_color_of_rgb(0x000000),
            spec_color_of_rgb(0x888888),
            spec_color_of_rgb(0xffffff),
        ],
        ColorScheme::Inferno => seq![
            spec_color_of_rgb(0x000004),
            spec_color_of_rgb(0x3b0f70),
            spec_color_of_rgb(0xac255e),
            spec_color_of_rgb(0xf98e09),
            spec_color_of_rgb(0xfcfd21),
        ],
        ColorScheme::Viridis => seq![
            spec_color_of_rgb(0x440154),
            spec_color_of_rgb(0x3b528b),
            spec_color_of_rgb(0x21918c),
            spec_color_of_rgb(0x5ec962),
            spec_color_of_rgb(0xfde725),
        ],
        ColorScheme::Synthwave => seq![
            spec_color_of_rgb(0x0d0221),
            spec_color_of_rgb(0x2d134b),
            spec_color_of_rgb(0xa537fd),
            spec_color_of_rgb(0x00f6ff),
        ],
        ColorScheme::Sunset => seq![
            spec_color_of_rgb(0x3c031c),
            spec_color_of_rgb(0x9c1521),
            spec_color_of_rgb(0xfd6a02),
            spec_color_of_rgb(0xfec812),
        ],
    }
}

/// Stop colors of a palette. Every palette has at least two stops, so
/// gradient construction never sees an empty or degenerate stop list
/// through a scheme.
pub fn get_color_stops(scheme: ColorScheme) -> (stops: Vec<Color>)
    ensures
        stops@ == spec_color_stops(scheme),
        stops@.len() >= 2,
{
    let stops = match scheme {
        ColorScheme::Oceanic => vec![
            Color::new_rgb(0x01041B),
            Color::new_rgb(0x072e69),
            Color::new_rgb(0x4da4d5),
            Color::new_rgb(0xdcf3ff),
        ],
        ColorScheme::Grayscale => vec![
            Color::new_rgb(0x000000),
            Color::new_rgb(0x888888),
            Color::new_rgb(0xffffff),
        ],
        ColorScheme::Inferno => vec![
            Color::new_rgb(0x000004),
            Color::new_rgb(0x3b0f70),
            Color::new_rgb(0xac255e),
            Color::new_rgb(0xf98e09),
            Color::new_rgb(0xfcfd21),
        ],
        ColorScheme::Viridis => vec![
            Color::new_rgb(0x440154),
            Color::new_rgb(0x3b528b),
            Color::new_rgb(0x21918c),
            Color::new_rgb(0x5ec962),
            Color::new_rgb(0xfde725),
        ],
        ColorScheme::Synthwave => vec![
            Color::new_rgb(0x0d0221),
            Color::new_rgb(0x2d134b),
            Color::new_rgb(0xa537fd),
            Color::new_rgb(0x00f6ff),
        ],
        ColorScheme::Sunset => vec![
            Color::new_rgb(0x3c031c),
            Color::new_rgb(0x9c1521),
            Color::new_rgb(0xfd6a02),
            Color::new_rgb(0xfec812),
        ],
    };
    proof {
        assert(stops@ =~= spec_color_stops(scheme));
    }
    stops
}

/// Number of entries of a gradient lookup table.
pub const GRADIENT_SIZE: usize = 256;

/// A 256-entry color lookup table, indexed by a normalized magnitude.
pub struct Gradient {
    colors: Vec<Color>,
}

impl Gradient {
    /// The table as a sequence of exactly 256 colors.
    pub closed spec fn view(self) -> Seq<Color> {
        self.colors@
    }

    /// A gradient always holds exactly 256 entries.
    pub proof fn lemma_len(self)
        requires
            self.wf(),
        ensures
            self.view().len() == 256,
    {
    }

    /// Well-formedness: the table holds exactly 256 entries.
    pub closed spec fn wf(self) -> bool {
        self.colors@.len() == 256
    }

    /// The degenerate gradient of a single stop color: all 256 entries
    /// equal that stop.
    pub fn single(stop: Color) -> (g: Gradient)
        ensures
            g.wf(),
            g.view().len() == 256,
            forall|i: int| 0 <= i < 256 ==> g.view()[i] == stop,
    {
        let mut colors: Vec<Color> = Vec::new();
        let mut i: usize = 0;
        while i < 256
            invariant
                i <= 256,
                colors@.len() == i,
                forall|j: int| 0 <= j < i ==> colors@[j] == stop,
            decreases 256 - i,
        {
            colors.push(stop);
            i = i + 1;
        }
        Gradient { colors }
    }

    /// Wraps a fully interpolated table. Returns `None` unless the
    /// table holds exactly 256 entries.
    pub fn from_colors(colors: Vec<Color>) -> (g: Option<Gradient>)
        ensures
            g is Some <==> colors@.len() == 256,
            g is Some ==> g->0.wf() && g->0.view() == colors@,
    {
        if colors.len() == 256 {
            Some(Gradient { colors })
        } else {
            None
        }
    }

    /// Number of entries of the table.
    pub fn len(&self) -> (n: usize)
        ensures
            n == self.view().len(),
    {
        self.colors.len()
    }

    /// Table lookup; a byte index can never miss the table.
    pub fn get(&self, idx: u8) -> (c: Color)
        requires
            self.wf(),
        ensures
            c == self.view()[idx as int],
    {
        self.colors[idx as usize]
    }
}

} // verus!
