use vstd::prelude::*;
use crate::color::Color;

verus! {

/// The colour wave quantised at one palette index, once for each of its three
/// phase shifts: none, a third of a turn, and two thirds of a turn.
#[derive(Clone, Copy, Debug, PartialEq, Eq, Structural)]
pub struct WaveSample {
    pub at_zero: u8,
    pub at_third: u8,
    pub at_two_thirds: u8,
}

impl WaveSample {
    /// The palette entry made of these samples. Red takes the unshifted wave,
    /// green the wave shifted by two thirds of a turn and blue the one shifted
    /// by one third; the entry is opaque.
    pub open spec fn color(self) -> Color {
        Color { r: self.at_zero, g: self.at_two_thirds, b: self.at_third, a: 255 }
    }

    /// The palette entry made of these samples.
    pub fn to_color(&self) -> (c: Color)
        ensures
            c == self.color(),
    {
        Color::rgba(self.at_zero, self.at_two_thirds, self.at_third, 255)
    }
}

/// What a pixel with the given iteration count is painted with: the palette
/// entry at that count while the count is below the cap, opaque black from
/// the cap on, and also where the palette is too short to have that entry.
pub open spec fn pixel_color(palette: Seq<Color>, max_iterations: int, count: int) -> Color {
    if 0 <= count < max_iterations && count < palette.len() {
        palette[count]
    } else {
        Color::spec_black()
    }
}

/// The cyclic colour ramp, indexed by iteration count. Every entry is opaque.
pub struct Palette {
    colors: Vec<Color>,
}

impl View for Palette {
    type V = Seq<Color>;

    closed spec fn view(&self) -> Seq<Color> {
        self.colors@
    }
}

impl Palette {
    #[verifier::type_invariant]
    spec fn all_opaque(self) -> bool {
        forall|i: int| 0 <= i < self.colors@.len() ==> (#[trigger] self.colors@[i]).a == 255
    }

    /// The empty palette.
    pub fn new() -> (p: Palette)
        ensures
            p@.len() == 0,
    {
        Palette { colors: Vec::new() }
    }

    /// Replaces the palette by the ramp built from `waves`: as many entries as
    /// there are samples, entry `i` made of sample `i`.
    pub fn rainbow_colors(&mut self, waves: &Vec<WaveSample>)
        ensures
            final(self)@.len() == waves@.len(),
            forall|i: int| 0 <= i < waves@.len() ==> (#[trigger] final(self)@[i]) == waves@[i].color(),
            forall|i: int| 0 <= i < waves@.len() ==> (#[trigger] final(self)@[i]).a == 255,
    {
        let mut colors: Vec<Color> = Vec::with_capacity(waves.len());
        let mut i: usize = 0;
        while i < waves.len()
            invariant
                i <= waves@.len(),
                colors@.len() == i,
                forall|k: int| 0 <= k < i ==> (#[trigger] colors@[k]) == waves@[k].color(),
            decreases waves@.len() - i,
        {
            colors.push(waves[i].to_color());
            i += 1;
        }
        self.colors = colors;
    }

    /// The number of entries.
    pub fn len(&self) -> (n: usize)
        ensures
            n == self@.len(),
    {
        self.colors.len()
    }

    /// The colour of a pixel whose orbit took `count` iterations under the
    /// cap `max_iterations`.
    pub fn color_for(&self, count: usize, max_iterations: usize) -> (c: Color)
        ensures
            c == pixel_color(self@, max_iterations as int, count as int),
            c.a == 255,
    {
        proof {
            use_type_invariant(self);
        }
        if count < max_iterations && count < self.colors.len() {
            self.colors[count]
        } else {
            Color::black()
        }
    }
}

} // verus!
