use vstd::prelude::*;

verus! {

/// Number of steps between 0.0 and 1.0 in one channel of [`Rgba`].
pub const CHANNEL_UNIT: u16 = 1000;

/// A colour in linear space, each channel in thousandths of full intensity.
#[derive(Clone, Copy, Debug, PartialEq, Eq, Structural)]
pub struct Rgba {
    pub red: u16,
    pub green: u16,
    pub blue: u16,
    pub alpha: u16,
}

impl Rgba {
    /// Every channel lies between zero and full intensity.
    pub open spec fn is_normalized(self) -> bool {
        &&& self.red <= CHANNEL_UNIT
        &&& self.green <= CHANNEL_UNIT
        &&& self.blue <= CHANNEL_UNIT
        &&& self.alpha <= CHANNEL_UNIT
    }

    /// Builds a colour from four channels given in thousandths.
    pub fn new(red: u16, green: u16, blue: u16, alpha: u16) -> (c: Rgba)
        ensures
            c.red == red,
            c.green == green,
            c.blue == blue,
            c.alpha == alpha,
    {
        Rgba { red, green, blue, alpha }
    }

    /// Whether the colour is fully opaque.
    pub fn is_opaque(&self) -> (r: bool)
        ensures
            r == (self.alpha == CHANNEL_UNIT),
    {
        self.alpha == CHANNEL_UNIT
    }
}

/// The colour every frame is cleared to: red 0.1, green 0.2, blue 0.3,
/// alpha 1.0.
pub open spec fn spec_clear_color() -> Rgba {
    Rgba { red: 100, green: 200, blue: 300, alpha: CHANNEL_UNIT }
}

/// The fixed clear colour of the frame.
pub fn clear_color() -> (c: Rgba)
    ensures
        c == spec_clear_color(),
        c.is_normalized(),
{
    Rgba::new(100, 200, 300, CHANNEL_UNIT)
}

} // verus!
