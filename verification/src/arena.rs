//! Arenas: rooms of invisible, immovable walls.
//!
//! An arena is given by two corners. This module says which walls it has: for each wall
//! the collider type, and where it stands, how it is turned and how large it is, in terms
//! of the corners. The shape of a wall is given in the frame of its body: whatever the
//! corners are, the walls of a 2D arena are the four edges of the rectangle between them.
//! The host works out the numbers and makes the bodies.

use vstd::prelude::*;

verus! {

/// One coordinate in terms of the corners of the arena.
#[derive(Clone, Copy, Debug, PartialEq, Eq, Structural)]
pub enum Bound {
    /// That of the minimum corner.
    Min,
    /// Halfway between the two corners.
    Center,
    /// That of the maximum corner.
    Max,
}

/// One extent of the arena: the distance of the two corners along an axis.
#[derive(Clone, Copy, Debug, PartialEq, Eq, Structural)]
pub enum Extent {
    X,
    Y,
    Z,
}

/// How a wall is turned out of the plane of x and y.
#[derive(Clone, Copy, Debug, PartialEq, Eq, Structural)]
pub enum Turn {
    /// Not at all.
    Unturned,
    /// A quarter about the x axis.
    QuarterAboutX,
    /// A quarter about the y axis.
    QuarterAboutY,
}

/// One coordinate of an end of a wall's line, measured from the wall's body.
#[derive(Clone, Copy, Debug, PartialEq, Eq, Structural)]
pub enum Offset {
    /// At the body.
    Zero,
    /// Half the extent before the body.
    MinusHalf(Extent),
    /// Half the extent behind the body.
    PlusHalf(Extent),
}

/// A wall of a 2D arena: a body at a position, and on it a line between two points that
/// are given in the frame of the body.
#[derive(Debug)]
pub struct Wall2<Y> {
    pub collider: Y,
    pub position: (Bound, Bound),
    pub from: (Offset, Offset),
    pub to: (Offset, Offset),
}

impl Bound {
    /// Twice the coordinate that the bound stands for between `min` and `max`.
    pub open spec fn doubled(self, min: int, max: int) -> int {
        match self {
            Bound::Min => 2 * min,
            Bound::Center => min + max,
            Bound::Max => 2 * max,
        }
    }
}

impl Extent {
    /// The extent of a 2D arena between two corners; it has none along z.
    pub open spec fn of_2d(self, min: (int, int), max: (int, int)) -> int {
        match self {
            Extent::X => max.0 - min.0,
            Extent::Y => max.1 - min.1,
            Extent::Z => 0,
        }
    }
}

impl Offset {
    /// Twice the offset in a 2D arena between two corners.
    pub open spec fn doubled_2d(self, min: (int, int), max: (int, int)) -> int {
        match self {
            Offset::Zero => 0,
            Offset::MinusHalf(extent) => -extent.of_2d(min, max),
            Offset::PlusHalf(extent) => extent.of_2d(min, max),
        }
    }
}

impl<Y> Wall2<Y> {
    /// Twice the place in the world of a point of the wall: the place of the body plus the
    /// offset of the point.
    pub open spec fn doubled(self, point: (Offset, Offset), min: (int, int), max: (int, int)) -> (
        int,
        int,
    ) {
        (
            self.position.0.doubled(min.0, max.0) + point.0.doubled_2d(min, max),
            self.position.1.doubled(min.1, max.1) + point.1.doubled_2d(min, max),
        )
    }

    /// Twice the place in the world where the line of the wall starts.
    pub open spec fn from_doubled(self, min: (int, int), max: (int, int)) -> (int, int) {
        self.doubled(self.from, min, max)
    }

    /// Twice the place in the world where the line of the wall ends.
    pub open spec fn to_doubled(self, min: (int, int), max: (int, int)) -> (int, int) {
        self.doubled(self.to, min, max)
    }
}

/// The walls of a 2D arena: left, right, bottom, top. Each body stands in the middle of
/// its edge, and its line runs half the extent of the edge to either side.
pub open spec fn arena_2d<Y>(types: (Y, Y, Y, Y)) -> Seq<Wall2<Y>> {
    seq![
        Wall2 {
            collider: types.0,
            position: (Bound::Min, Bound::Center),
            from: (Offset::Zero, Offset::MinusHalf(Extent::Y)),
            to: (Offset::Zero, Offset::PlusHalf(Extent::Y)),
        },
        Wall2 {
            collider: types.1,
            position: (Bound::Max, Bound::Center),
            from: (Offset::Zero, Offset::MinusHalf(Extent::Y)),
            to: (Offset::Zero, Offset::PlusHalf(Extent::Y)),
        },
        Wall2 {
            collider: types.2,
            position: (Bound::Center, Bound::Min),
            from: (Offset::MinusHalf(Extent::X), Offset::Zero),
            to: (Offset::PlusHalf(Extent::X), Offset::Zero),
        },
        Wall2 {
            collider: types.3,
            position: (Bound::Center, Bound::Max),
            from: (Offset::MinusHalf(Extent::X), Offset::Zero),
            to: (Offset::PlusHalf(Extent::X), Offset::Zero),
        },
    ]
}

/// Whatever the two corners are, the walls of a 2D arena are the four edges of the
/// rectangle between them: the line of each wall, moved to where its body stands, runs
/// from one corner of the rectangle to the next. Places are doubled, so that the middle
/// of an edge is a whole number.
pub proof fn lemma_walls_are_the_edges<Y>(types: (Y, Y, Y, Y), min: (int, int), max: (int, int))
    ensures
        arena_2d(types).len() == 4,
        arena_2d(types)[0].from_doubled(min, max) == (2 * min.0, 2 * min.1),
        arena_2d(types)[0].to_doubled(min, max) == (2 * min.0, 2 * max.1),
        arena_2d(types)[1].from_doubled(min, max) == (2 * max.0, 2 * min.1),
        arena_2d(types)[1].to_doubled(min, max) == (2 * max.0, 2 * max.1),
        arena_2d(types)[2].from_doubled(min, max) == (2 * min.0, 2 * min.1),
        arena_2d(types)[2].to_doubled(min, max) == (2 * max.0, 2 * min.1),
        arena_2d(types)[3].from_doubled(min, max) == (2 * min.0, 2 * max.1),
        arena_2d(types)[3].to_doubled(min, max) == (2 * max.0, 2 * max.1),
{
}

/// A wall of a 3D arena: a quad of a width and a height, turned, on a body at a position.
#[derive(Debug)]
pub struct Wall3<Y> {
    pub collider: Y,
    pub position: (Bound, Bound, Bound),
    pub size: (Extent, Extent),
    pub turn: Turn,
}

/// The walls of a 2D arena. `types` holds the collider type of each wall in the order
/// left, right, bottom, top, which is the order of the walls.
pub fn setup_2d_arena<Y>(types: (Y, Y, Y, Y)) -> (walls: Vec<Wall2<Y>>)
    ensures
        walls@ == arena_2d(types),
{
    let (left, right, bottom, top) = types;
    let mut walls: Vec<Wall2<Y>> = Vec::new();
    walls.push(
        Wall2 {
            collider: left,
            position: (Bound::Min, Bound::Center),
            from: (Offset::Zero, Offset::MinusHalf(Extent::Y)),
            to: (Offset::Zero, Offset::PlusHalf(Extent::Y)),
        },
    );
    walls.push(
        Wall2 {
            collider: right,
            position: (Bound::Max, Bound::Center),
            from: (Offset::Zero, Offset::MinusHalf(Extent::Y)),
            to: (Offset::Zero, Offset::PlusHalf(Extent::Y)),
        },
    );
    walls.push(
        Wall2 {
            collider: bottom,
            position: (Bound::Center, Bound::Min),
            from: (Offset::MinusHalf(Extent::X), Offset::Zero),
            to: (Offset::PlusHalf(Extent::X), Offset::Zero),
        },
    );
    walls.push(
        Wall2 {
            collider: top,
            position: (Bound::Center, Bound::Max),
            from: (Offset::MinusHalf(Extent::X), Offset::Zero),
            to: (Offset::PlusHalf(Extent::X), Offset::Zero),
        },
    );
    assert(walls@ =~= arena_2d(types));
    walls
}

/// One wall of a 3D arena.
fn create_3d_wall<Y>(
    size: (Extent, Extent),
    collider: Y,
    position: (Bound, Bound, Bound),
    turn: Turn,
) -> (wall: Wall3<Y>)
    ensures
        wall == (Wall3 { collider, position, size, turn }),
{
    Wall3 { collider, position, size, turn }
}

/// The walls of a 3D arena. `types` holds the collider type of each wall in the order
/// left, right, bottom, top, front, back, which is the order of the walls.
pub fn setup_3d_arena<Y>(types: (Y, Y, Y, Y, Y, Y)) -> (walls: Vec<Wall3<Y>>)
    ensures
        walls@ == seq![
            (Wall3 {
                collider: types.0,
                position: (Bound::Min, Bound::Center, Bound::Center),
                size: (Extent::Z, Extent::Y),
                turn: Turn::QuarterAboutY,
            }),
            (Wall3 {
                collider: types.1,
                position: (Bound::Max, Bound::Center, Bound::Center),
                size: (Extent::Z, Extent::Y),
                turn: Turn::QuarterAboutY,
            }),
            (Wall3 {
                collider: types.2,
                position: (Bound::Center, Bound::Min, Bound::Center),
                size: (Extent::X, Extent::Z),
                turn: Turn::QuarterAboutX,
            }),
            (Wall3 {
                collider: types.3,
                position: (Bound::Center, Bound::Max, Bound::Center),
                size: (Extent::X, Extent::Z),
                turn: Turn::QuarterAboutX,
            }),
            (Wall3 {
                collider: types.4,
                position: (Bound::Center, Bound::Center, Bound::Max),
                size: (Extent::X, Extent::Y),
                turn: Turn::Unturned,
            }),
            (Wall3 {
                collider: types.5,
                position: (Bound::Center, Bound::Center, Bound::Min),
                size: (Extent::X, Extent::Y),
                turn: Turn::Unturned,
            }),
        ],
{
    let (left, right, bottom, top, front, back) = types;
    let mut walls: Vec<Wall3<Y>> = Vec::new();
    walls.push(
        create_3d_wall(
            (Extent::Z, Extent::Y),
            left,
            (Bound::Min, Bound::Center, Bound::Center),
            Turn::QuarterAboutY,
        ),
    );
    walls.push(
        create_3d_wall(
            (Extent::Z, Extent::Y),
            right,
            (Bound::Max, Bound::Center, Bound::Center),
            Turn::QuarterAboutY,
        ),
    );
    walls.push(
        create_3d_wall(
            (Extent::X, Extent::Z),
            bottom,
            (Bound::Center, Bound::Min, Bound::Center),
            Turn::QuarterAboutX,
        ),
    );
    walls.push(
        create_3d_wall(
            (Extent::X, Extent::Z),
            top,
            (Bound::Center, Bound::Max, Bound::Center),
            Turn::QuarterAboutX,
        ),
    );
    walls.push(
        create_3d_wall(
            (Extent::X, Extent::Y),
            front,
            (Bound::Center, Bound::Center, Bound::Max),
            Turn::Unturned,
        ),
    );
    walls.push(
        create_3d_wall(
            (Extent::X, Extent::Y),
            back,
            (Bound::Center, Bound::Center, Bound::Min),
            Turn::Unturned,
        ),
    );
    walls
}

} // verus!
