use vstd::prelude::*;

verus! {

/// An RGB colour, one byte per channel.
#[derive(Clone, Copy, Debug, PartialEq, Eq, Structural)]
pub struct Color {
    pub r: u8,
    pub g: u8,
    pub b: u8,
}

/// The colour of a tile that holds no organism: white.
pub open spec fn background() -> Color {
    Color { r: 255, g: 255, b: 255 }
}

/// The colour whose channels are the three lowest bytes of `hash`, the lowest
/// byte being red.
pub open spec fn color_of_hash(hash: u64) -> Color {
    Color {
        r: (hash & 0xff) as u8,
        g: ((hash >> 8) & 0xff) as u8,
        b: ((hash >> 16) & 0xff) as u8,
    }
}

impl Color {
    /// The colour of a tile that holds no organism.
    pub fn background() -> (color: Color)
        ensures
            color == background(),
    {
        Color { r: 255, g: 255, b: 255 }
    }

    /// Builds the colour that [`color_of_hash`] assigns to `hash`.
    pub fn from_hash(hash: u64) -> (color: Color)
        ensures
            color == color_of_hash(hash),
    {
        assert(hash & 0xff < 256 && (hash >> 8) & 0xff < 256 && (hash >> 16) & 0xff < 256)
            by (bit_vector);
        Color {
            r: (hash & 0xff) as u8,
            g: ((hash >> 8) & 0xff) as u8,
            b: ((hash >> 16) & 0xff) as u8,
        }
    }

    /// The three channels in the order red, green, blue.
    pub fn to_bytes(&self) -> (bytes: [u8; 3])
        ensures
            bytes@ == seq![self.r, self.g, self.b],
    {
        [self.r, self.g, self.b]
    }
}

} // verus!
