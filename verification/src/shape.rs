//! Player body shapes and the fixed number of effect-carrying edges.

use vstd::prelude::*;

verus! {

/// Number of effect-carrying edges of a player body. The edge order is
/// fixed: 0 is the bottom, 1 the right, 2 the top, 3 the left side.
pub const MAX_SIDES: usize = 4;

/// The outline drawn for a player body. Only the square carries the
/// four effect edges of the core; the collider and mesh built from a
/// shape belong to the rendering and physics layers.
#[derive(Clone, Copy, Debug, Default, PartialEq, Eq, Structural, Hash)]
pub enum PlayerShape {
    /// Four-sided body, the default.
    #[default]
    Square,
    /// Five-sided body.
    Pentagon,
    /// Six-sided body.
    Hexagon,
}

impl PlayerShape {
    /// The number of sides returned by [`Self::number_of_sides`].
    pub open spec fn number_of_sides_spec(self) -> u32 {
        match self {
            PlayerShape::Square => 4,
            PlayerShape::Pentagon => 5,
            PlayerShape::Hexagon => 6,
        }
    }

    /// How many sides the outline has.
    pub fn number_of_sides(&self) -> (r: u32)
        ensures
            r == self.number_of_sides_spec(),
    {
        match *self {
            PlayerShape::Square => 4,
            PlayerShape::Pentagon => 5,
            PlayerShape::Hexagon => 6,
        }
    }

    /// The texture asset drawn over the shape, where one exists; only
    /// the square has one.
    pub fn get_texture_file(&self) -> (r: Option<&'static str>)
        ensures
            self is Square <==> r is Some,
            r matches Some(t) ==> t@ == "images/square.png"@,
    {
        match *self {
            PlayerShape::Square => Some("images/square.png"),
            _ => None,
        }
    }

    /// Every shape, in declaration order.
    pub fn list() -> (r: Vec<PlayerShape>)
        ensures
            r@ == seq![PlayerShape::Square, PlayerShape::Pentagon, PlayerShape::Hexagon],
    {
        let mut v: Vec<PlayerShape> = Vec::new();
        v.push(PlayerShape::Square);
        v.push(PlayerShape::Pentagon);
        v.push(PlayerShape::Hexagon);
        proof {
            assert(v@ =~= seq![PlayerShape::Square, PlayerShape::Pentagon, PlayerShape::Hexagon]);
        }
        v
    }
}

} // verus!
