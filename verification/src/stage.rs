//! The playfield, and the points on it that things are placed against.

use vstd::prelude::*;

use crate::character::Facing;
use crate::scalar::{Placement, Scalar, Vec2};

verus! {

/// The pattern of 320, the default logical screen width.
pub const DEFAULT_GAME_WIDTH: u32 = 0x43a0_0000;

/// The pattern of 240, the default logical screen height.
pub const DEFAULT_GAME_HEIGHT: u32 = 0x4370_0000;

/// The pattern of -200, the default left edge.
pub const DEFAULT_LEFT: u32 = 0xc348_0000;

/// The pattern of 200, the default right edge.
pub const DEFAULT_RIGHT: u32 = 0x4348_0000;

/// The horizontal extent of the playfield and the logical screen size.
#[derive(Debug, Clone, Copy, PartialEq)]
pub struct StageBounds {
    /// Leftmost X a body may reach.
    pub left: Scalar,
    /// Rightmost X a body may reach.
    pub right: Scalar,
    /// Logical screen width.
    pub game_width: Scalar,
    /// Logical screen height.
    pub game_height: Scalar,
}

/// The stage as a fighter's triggers see it.
#[derive(Debug, Clone, Copy, PartialEq)]
pub struct StageView {
    /// The left edge.
    pub left: Scalar,
    /// The right edge.
    pub right: Scalar,
    /// Logical screen width.
    pub game_width: Scalar,
    /// Logical screen height.
    pub game_height: Scalar,
}

impl StageBounds {
    /// Bounds with the default screen size.
    pub open spec fn new_spec(left: Scalar, right: Scalar) -> StageBounds {
        StageBounds {
            left,
            right,
            game_width: Scalar { bits: DEFAULT_GAME_WIDTH },
            game_height: Scalar { bits: DEFAULT_GAME_HEIGHT },
        }
    }

    /// The stage view of these bounds.
    pub open spec fn seen(self) -> StageView {
        StageView {
            left: self.left,
            right: self.right,
            game_width: self.game_width,
            game_height: self.game_height,
        }
    }

    /// Creates bounds with the default screen size.
    pub fn new(left: Scalar, right: Scalar) -> (r: StageBounds)
        ensures
            r == StageBounds::new_spec(left, right),
    {
        StageBounds {
            left,
            right,
            game_width: Scalar { bits: DEFAULT_GAME_WIDTH },
            game_height: Scalar { bits: DEFAULT_GAME_HEIGHT },
        }
    }

    /// Creates bounds with an explicit screen size.
    pub fn with_dims(
        left: Scalar,
        right: Scalar,
        game_width: Scalar,
        game_height: Scalar,
    ) -> (r: StageBounds)
        ensures
            r == (StageBounds { left, right, game_width, game_height }),
    {
        StageBounds { left, right, game_width, game_height }
    }

    /// The stage as a fighter's triggers see it.
    pub fn view(self) -> (r: StageView)
        ensures
            r == self.seen(),
    {
        StageView {
            left: self.left,
            right: self.right,
            game_width: self.game_width,
            game_height: self.game_height,
        }
    }
}

impl Default for StageBounds {
    fn default() -> (r: StageBounds)
        ensures
            r == StageBounds::new_spec(
                Scalar { bits: DEFAULT_LEFT },
                Scalar { bits: DEFAULT_RIGHT },
            ),
    {
        StageBounds::new(Scalar { bits: DEFAULT_LEFT }, Scalar { bits: DEFAULT_RIGHT })
    }
}

/// What a spawned thing is placed against.
#[derive(Debug, Clone, Copy, PartialEq, Eq, Structural)]
pub enum PosType {
    /// The owner.
    P1,
    /// The owner's opponent.
    P2,
    /// The edge the owner faces.
    Front,
    /// The edge behind the owner.
    Back,
    /// The left edge.
    Left,
    /// The right edge.
    Right,
}

/// The X of the edge a fighter faces.
pub open spec fn front_edge(facing: Facing, stage: StageView) -> Scalar {
    match facing {
        Facing::Right => stage.right,
        Facing::Left => stage.left,
    }
}

/// The X of the edge behind a fighter.
pub open spec fn back_edge(facing: Facing, stage: StageView) -> Scalar {
    match facing {
        Facing::Right => stage.left,
        Facing::Left => stage.right,
    }
}

/// The X of the edge a fighter faces: the right edge when it faces right.
pub fn front_edge_x(facing: Facing, stage: StageView) -> (r: Scalar)
    ensures
        r == front_edge(facing, stage),
{
    match facing {
        Facing::Right => stage.right,
        Facing::Left => stage.left,
    }
}

/// The X of the edge behind a fighter: the left edge when it faces right.
pub fn back_edge_x(facing: Facing, stage: StageView) -> (r: Scalar)
    ensures
        r == back_edge(facing, stage),
{
    match facing {
        Facing::Right => stage.left,
        Facing::Left => stage.right,
    }
}

/// The X that a position type stands for.
pub open spec fn anchor_x(
    pos_type: PosType,
    owner_pos: Vec2,
    facing: Facing,
    opponent_x: Scalar,
    stage: StageView,
) -> Scalar {
    match pos_type {
        PosType::P1 => owner_pos.x,
        PosType::P2 => opponent_x,
        PosType::Front => front_edge(facing, stage),
        PosType::Back => back_edge(facing, stage),
        PosType::Left => stage.left,
        PosType::Right => stage.right,
    }
}

/// Where a thing stands that is placed at `offset` from a position type. The
/// anchor has the owner's height, and the offset points the way the owner faces.
pub open spec fn placed(
    pos_type: PosType,
    offset: Vec2,
    owner_pos: Vec2,
    facing: Facing,
    opponent_x: Scalar,
    stage: StageView,
) -> Placement {
    Placement {
        anchor: Vec2 {
            x: anchor_x(pos_type, owner_pos, facing, opponent_x, stage),
            y: owner_pos.y,
        },
        shift: Vec2 { x: facing.applied(offset.x), y: offset.y },
    }
}

/// Places a thing at `offset` from a position type.
pub fn place(
    pos_type: PosType,
    offset: Vec2,
    owner_pos: Vec2,
    facing: Facing,
    opponent_x: Scalar,
    stage: StageView,
) -> (r: Placement)
    ensures
        r == placed(pos_type, offset, owner_pos, facing, opponent_x, stage),
{
    let x = match pos_type {
        PosType::P1 => owner_pos.x,
        PosType::P2 => opponent_x,
        PosType::Front => front_edge_x(facing, stage),
        PosType::Back => back_edge_x(facing, stage),
        PosType::Left => stage.left,
        PosType::Right => stage.right,
    };
    Placement {
        anchor: Vec2 { x, y: owner_pos.y },
        shift: Vec2 { x: facing.apply(offset.x), y: offset.y },
    }
}

/// Where a thing stands, by what it is placed against: over its owner or its
/// opponent, at an edge of the stage, or at the edge ahead of its owner or behind it.
/// It is always as high as its owner, and its offset points the way the owner faces.
pub proof fn things_stand_where_they_are_placed(
    pos_type: PosType,
    offset: Vec2,
    owner_pos: Vec2,
    facing: Facing,
    opponent_x: Scalar,
    stage: StageView,
)
    ensures
        ({
            let at = placed(pos_type, offset, owner_pos, facing, opponent_x, stage);
            let right = facing == Facing::Right;
            &&& at.anchor.y == owner_pos.y
            &&& at.shift.y == offset.y
            &&& right ==> at.shift.x == offset.x
            &&& !right ==> at.shift.x == offset.x.negated()
            &&& pos_type == PosType::P1 ==> at.anchor.x == owner_pos.x
            &&& pos_type == PosType::P2 ==> at.anchor.x == opponent_x
            &&& pos_type == PosType::Left ==> at.anchor.x == stage.left
            &&& pos_type == PosType::Right ==> at.anchor.x == stage.right
            &&& pos_type == PosType::Front && right ==> at.anchor.x == stage.right
            &&& pos_type == PosType::Front && !right ==> at.anchor.x == stage.left
            &&& pos_type == PosType::Back && right ==> at.anchor.x == stage.left
            &&& pos_type == PosType::Back && !right ==> at.anchor.x == stage.right
        }),
{
}

/// What a fighter sees of the stage is its edges and its size.
pub proof fn the_stage_is_seen_as_it_is(bounds: StageBounds)
    ensures
        bounds.seen().left == bounds.left,
        bounds.seen().right == bounds.right,
        bounds.seen().game_width == bounds.game_width,
        bounds.seen().game_height == bounds.game_height,
{
}

} // verus!
