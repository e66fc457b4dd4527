//! The kinds of tile and their numbering.

use vstd::prelude::*;

verus! {

/// How many kinds of tile there are.
pub const TOTAL_TILE_SPRITES: u32 = 12;

/// The kind of a tile: three passable backgrounds, then the nine pieces
/// of a wall.
#[derive(PartialEq, Eq, Structural, Copy, Clone, Hash, Debug)]
pub enum TileSprite {
    Red,
    Green,
    Blue,
    Center,
    Top,
    TopRight,
    Right,
    BottomRight,
    Bottom,
    BottomLeft,
    Left,
    TopLeft,
}

impl TileSprite {
    /// The number of this kind.
    pub open spec fn id(self) -> nat {
        match self {
            TileSprite::Red => 0,
            TileSprite::Green => 1,
            TileSprite::Blue => 2,
            TileSprite::Center => 3,
            TileSprite::Top => 4,
            TileSprite::TopRight => 5,
            TileSprite::Right => 6,
            TileSprite::BottomRight => 7,
            TileSprite::Bottom => 8,
            TileSprite::BottomLeft => 9,
            TileSprite::Left => 10,
            TileSprite::TopLeft => 11,
        }
    }

    /// The kind with number `v`, if there is one.
    pub open spec fn with_id(v: nat) -> Option<TileSprite> {
        if v == 0 {
            Some(TileSprite::Red)
        } else if v == 1 {
            Some(TileSprite::Green)
        } else if v == 2 {
            Some(TileSprite::Blue)
        } else if v == 3 {
            Some(TileSprite::Center)
        } else if v == 4 {
            Some(TileSprite::Top)
        } else if v == 5 {
            Some(TileSprite::TopRight)
        } else if v == 6 {
            Some(TileSprite::Right)
        } else if v == 7 {
            Some(TileSprite::BottomRight)
        } else if v == 8 {
            Some(TileSprite::Bottom)
        } else if v == 9 {
            Some(TileSprite::BottomLeft)
        } else if v == 10 {
            Some(TileSprite::Left)
        } else if v == 11 {
            Some(TileSprite::TopLeft)
        } else {
            None
        }
    }

    /// Whether this kind is solid: the wall pieces are, the backgrounds
    /// are not.
    pub open spec fn solid(self) -> bool {
        3 <= self.id() <= 11
    }

    /// The kind numbered `v`; none for a number that names no kind.
    pub fn from_u32(v: u32) -> (r: Option<TileSprite>)
        ensures
            r == Self::with_id(v as nat),
            r is None <==> v >= TOTAL_TILE_SPRITES,
            r matches Some(s) ==> s.id() == v,
    {
        match v {
            0 => Some(TileSprite::Red),
            1 => Some(TileSprite::Green),
            2 => Some(TileSprite::Blue),
            3 => Some(TileSprite::Center),
            4 => Some(TileSprite::Top),
            5 => Some(TileSprite::TopRight),
            6 => Some(TileSprite::Right),
            7 => Some(TileSprite::BottomRight),
            8 => Some(TileSprite::Bottom),
            9 => Some(TileSprite::BottomLeft),
            10 => Some(TileSprite::Left),
            11 => Some(TileSprite::TopLeft),
            _ => None,
        }
    }

    /// The number of this kind, between 0 and 11.
    pub fn to_u32(&self) -> (r: u32)
        ensures
            r == self.id(),
            r < TOTAL_TILE_SPRITES,
            Self::with_id(r as nat) == Some(*self),
    {
        match *self {
            TileSprite::Red => 0,
            TileSprite::Green => 1,
            TileSprite::Blue => 2,
            TileSprite::Center => 3,
            TileSprite::Top => 4,
            TileSprite::TopRight => 5,
            TileSprite::Right => 6,
            TileSprite::BottomRight => 7,
            TileSprite::Bottom => 8,
            TileSprite::BottomLeft => 9,
            TileSprite::Left => 10,
            TileSprite::TopLeft => 11,
        }
    }

    /// Whether a tile of this kind blocks movement.
    pub fn is_wall(&self) -> (r: bool)
        ensures
            r == self.solid(),
            r <==> 3 <= self.id() <= 11,
            r <==> !(*self == TileSprite::Red || *self == TileSprite::Green || *self
                == TileSprite::Blue),
    {
        let id: u32 = self.to_u32();
        3 <= id && id <= 11
    }
}

/// Numbering a kind and reading the number back gives the same kind.
pub proof fn lemma_id_round_trip(s: TileSprite)
    ensures
        TileSprite::with_id(s.id()) == Some(s),
        s.id() < 12,
{
}

/// A number names a kind exactly when it is below twelve, and the kind it
/// names carries that number.
pub proof fn lemma_with_id_range(v: nat)
    ensures
        TileSprite::with_id(v) is None <==> v >= 12,
        TileSprite::with_id(v) matches Some(s) ==> s.id() == v,
{
}

/// Two kinds with the same number are the same kind.
pub proof fn lemma_id_injective(s: TileSprite, t: TileSprite)
    requires
        s.id() == t.id(),
    ensures
        s == t,
{
    lemma_id_round_trip(s);
    lemma_id_round_trip(t);
}

} // verus!
