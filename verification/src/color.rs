//! Colours, and paints that the theme resolves to colours.
use vstd::prelude::*;

verus! {

/// The number by which a participant is known inside a shared project.
pub type ReplicaId = u16;

/// A colour with eight bits for each of red, green, blue and alpha.
#[derive(Clone, Copy, Debug, PartialEq, Eq, Structural)]
pub struct Color {
    pub r: u8,
    pub g: u8,
    pub b: u8,
    pub a: u8,
}

impl Color {
    /// Black, with an alpha of zero.
    #[verifier::allow_in_spec]
    pub fn transparent_black() -> Color
        returns
            (Color { r: 0, g: 0, b: 0, a: 0 }),
    {
        Color { r: 0, g: 0, b: 0, a: 0 }
    }

    /// Fully opaque red.
    #[verifier::allow_in_spec]
    pub fn red() -> Color
        returns
            (Color { r: 255, g: 0, b: 0, a: 255 }),
    {
        Color { r: 255, g: 0, b: 0, a: 255 }
    }
}

impl Default for Color {
    fn default() -> (color: Self)
        ensures
            color == Color::transparent_black(),
    {
        Color::transparent_black()
    }
}

/// A colour that may depend on the selection style which the theme gives a replica.
#[derive(Clone, Copy, Debug, PartialEq, Eq, Structural)]
pub enum Paint {
    /// This very colour.
    Solid(Color),
    /// The colour of the replica's selections.
    ReplicaSelection(ReplicaId),
    /// The colour of the replica's cursor.
    ReplicaCursor(ReplicaId),
    /// The colour of the replica's selections blended over `backdrop`, with the alpha
    /// channel of the blend then replaced by `alpha`.
    BlendedSelection { replica_id: ReplicaId, backdrop: Color, alpha: u8 },
}

} // verus!
