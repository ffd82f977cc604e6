//! Block states: a block kind together with the values of the properties
//! that kind carries. A standing sign or banner has a wall-mounted
//! counterpart; `wall_block_id` maps a state to it.

use vstd::prelude::*;
use vstd::string::*;

verus! {

/// The kinds of block this table covers.
#[derive(Clone, Copy, PartialEq, Eq, Structural, Debug)]
pub enum BlockKind {
    Stone,
    OakSign,
    OakWallSign,
    GreenBanner,
    GreenWallBanner,
}

/// A property a block kind can carry.
#[derive(Clone, Copy, PartialEq, Eq, Structural, Debug)]
pub enum PropName {
    Rotation,
    Facing,
    Waterlogged,
}

/// A property value.
#[derive(Clone, Copy, PartialEq, Eq, Structural, Debug)]
pub enum PropValue {
    R0,
    R1,
    R2,
    R3,
    North,
    East,
    South,
    West,
    True,
    False,
}

/// Whether `v` is a rotation value.
pub open spec fn is_rotation(v: PropValue) -> bool {
    v is R0 || v is R1 || v is R2 || v is R3
}

/// Whether `v` is a facing value.
pub open spec fn is_facing(v: PropValue) -> bool {
    v is North || v is East || v is South || v is West
}

/// Whether `v` is a boolean value.
pub open spec fn is_bool_value(v: PropValue) -> bool {
    v is True || v is False
}

/// Whether block kind `k` carries property `p`.
pub open spec fn kind_has_prop(k: BlockKind, p: PropName) -> bool {
    match k {
        BlockKind::Stone => false,
        BlockKind::OakSign => p is Rotation || p is Waterlogged,
        BlockKind::OakWallSign => p is Facing || p is Waterlogged,
        BlockKind::GreenBanner => p is Rotation,
        BlockKind::GreenWallBanner => p is Facing,
    }
}

/// A block state: a kind and one value for each property it carries.
/// Properties the kind does not carry sit at their defaults.
#[derive(Clone, Copy, PartialEq, Eq, Structural, Debug)]
pub struct BlockState {
    pub kind: BlockKind,
    pub rotation: PropValue,
    pub facing: PropValue,
    pub waterlogged: PropValue,
}

impl BlockKind {
    /// Every kind of the table, each exactly once.
    pub fn all() -> (r: Vec<BlockKind>)
        ensures
            r@.len() == 5,
            r@[0] is Stone,
            r@[1] is OakSign,
            r@[2] is OakWallSign,
            r@[3] is GreenBanner,
            r@[4] is GreenWallBanner,
    {
        let mut v: Vec<BlockKind> = Vec::new();
        v.push(BlockKind::Stone);
        v.push(BlockKind::OakSign);
        v.push(BlockKind::OakWallSign);
        v.push(BlockKind::GreenBanner);
        v.push(BlockKind::GreenWallBanner);
        v
    }

    /// The properties this kind carries, in their display order.
    pub fn props(&self) -> (r: Vec<PropName>)
        ensures
            match *self {
                BlockKind::Stone => r@.len() == 0,
                BlockKind::OakSign => r@.len() == 2 && r@[0] is Rotation && r@[1] is Waterlogged,
                BlockKind::OakWallSign => r@.len() == 2 && r@[0] is Facing && r@[1] is Waterlogged,
                BlockKind::GreenBanner => r@.len() == 1 && r@[0] is Rotation,
                BlockKind::GreenWallBanner => r@.len() == 1 && r@[0] is Facing,
            },
            forall|i: int| 0 <= i < r@.len() ==> kind_has_prop(*self, #[trigger] r@[i]),
    {
        let mut v: Vec<PropName> = Vec::new();
        match self {
            BlockKind::Stone => {},
            BlockKind::OakSign => {
                v.push(PropName::Rotation);
                v.push(PropName::Waterlogged);
            },
            BlockKind::OakWallSign => {
                v.push(PropName::Facing);
                v.push(PropName::Waterlogged);
            },
            BlockKind::GreenBanner => {
                v.push(PropName::Rotation);
            },
            BlockKind::GreenWallBanner => {
                v.push(PropName::Facing);
            },
        }
        v
    }

    /// This kind's default state: every property at its first value.
    pub fn to_state(&self) -> (r: BlockState)
        ensures
            r == spec_default_state(*self),
    {
        BlockState {
            kind: *self,
            rotation: PropValue::R0,
            facing: PropValue::North,
            waterlogged: PropValue::False,
        }
    }
}

/// The default state of a kind.
pub open spec fn spec_default_state(k: BlockKind) -> BlockState {
    BlockState {
        kind: k,
        rotation: PropValue::R0,
        facing: PropValue::North,
        waterlogged: PropValue::False,
    }
}

/// What reading property `p` of `bs` yields.
pub open spec fn spec_get(bs: BlockState, p: PropName) -> Option<PropValue> {
    if kind_has_prop(bs.kind, p) {
        match p {
            PropName::Rotation => Some(bs.rotation),
            PropName::Facing => Some(bs.facing),
            PropName::Waterlogged => Some(bs.waterlogged),
        }
    } else {
        None
    }
}

/// Whether `v` fits property `p`.
pub open spec fn value_fits(p: PropName, v: PropValue) -> bool {
    match p {
        PropName::Rotation => is_rotation(v),
        PropName::Facing => is_facing(v),
        PropName::Waterlogged => is_bool_value(v),
    }
}

/// What setting property `p` of `bs` to `v` yields: the state with that one
/// property changed, or `bs` unchanged where the kind does not carry `p` or
/// `v` does not fit it.
pub open spec fn spec_set(bs: BlockState, p: PropName, v: PropValue) -> BlockState {
    if kind_has_prop(bs.kind, p) && value_fits(p, v) {
        match p {
            PropName::Rotation => BlockState { rotation: v, ..bs },
            PropName::Facing => BlockState { facing: v, ..bs },
            PropName::Waterlogged => BlockState { waterlogged: v, ..bs },
        }
    } else {
        bs
    }
}

impl BlockState {
    /// The value of property `p`, or `None` where this kind lacks it.
    pub fn get(&self, p: PropName) -> (r: Option<PropValue>)
        ensures
            r == spec_get(*self, p),
    {
        let has = match (self.kind, p) {
            (BlockKind::OakSign, PropName::Rotation) => true,
            (BlockKind::OakSign, PropName::Waterlogged) => true,
            (BlockKind::OakWallSign, PropName::Facing) => true,
            (BlockKind::OakWallSign, PropName::Waterlogged) => true,
            (BlockKind::GreenBanner, PropName::Rotation) => true,
            (BlockKind::GreenWallBanner, PropName::Facing) => true,
            _ => false,
        };
        if has {
            match p {
                PropName::Rotation => Some(self.rotation),
                PropName::Facing => Some(self.facing),
                PropName::Waterlogged => Some(self.waterlogged),
            }
        } else {
            None
        }
    }

    /// The state with property `p` set to `v`; this state unchanged where
    /// the kind lacks `p` or `v` does not fit it.
    pub fn set(&self, p: PropName, v: PropValue) -> (r: BlockState)
        ensures
            r == spec_set(*self, p, v),
    {
        let has = match (self.kind, p) {
            (BlockKind::OakSign, PropName::Rotation) => true,
            (BlockKind::OakSign, PropName::Waterlogged) => true,
            (BlockKind::OakWallSign, PropName::Facing) => true,
            (BlockKind::OakWallSign, PropName::Waterlogged) => true,
            (BlockKind::GreenBanner, PropName::Rotation) => true,
            (BlockKind::GreenWallBanner, PropName::Facing) => true,
            _ => false,
        };
        let fits = match p {
            PropName::Rotation => matches!(v, PropValue::R0 | PropValue::R1 | PropValue::R2 | PropValue::R3),
            PropName::Facing => matches!(
                v,
                PropValue::North | PropValue::East | PropValue::South | PropValue::West
            ),
            PropName::Waterlogged => matches!(v, PropValue::True | PropValue::False),
        };
        if has && fits {
            match p {
                PropName::Rotation => BlockState { rotation: v, ..*self },
                PropName::Facing => BlockState { facing: v, ..*self },
                PropName::Waterlogged => BlockState { waterlogged: v, ..*self },
            }
        } else {
            *self
        }
    }

    /// The wall-mounted counterpart of a standing sign or banner, keeping a
    /// shared waterlogged value; `None` for every other kind.
    pub fn wall_block_id(&self) -> (r: Option<BlockState>)
        ensures
            self.kind is OakSign ==> r == Some(
                BlockState { waterlogged: self.waterlogged, ..spec_default_state(BlockKind::OakWallSign) },
            ),
            self.kind is GreenBanner ==> r == Some(spec_default_state(BlockKind::GreenWallBanner)),
            !(self.kind is OakSign) && !(self.kind is GreenBanner) ==> r is None,
    {
        match self.kind {
            BlockKind::OakSign => Some(
                BlockState { waterlogged: self.waterlogged, ..BlockKind::OakWallSign.to_state() },
            ),
            BlockKind::GreenBanner => Some(BlockKind::GreenWallBanner.to_state()),
            _ => None,
        }
    }
}

/// Reading a property a state carries and writing the same value back
/// leaves the state unchanged.
pub proof fn lemma_get_set_consistency(bs: BlockState, p: PropName)
    requires
        kind_has_prop(bs.kind, p),
        spec_get(bs, p) matches Some(v) && value_fits(p, v),
    ensures
        spec_set(bs, p, spec_get(bs, p).unwrap()) == bs,
{
}

/// The text of one property value.
pub open spec fn spec_prop_value_text(v: PropValue) -> Seq<char> {
    match v {
        PropValue::R0 => "0"@,
        PropValue::R1 => "1"@,
        PropValue::R2 => "2"@,
        PropValue::R3 => "3"@,
        PropValue::North => "north"@,
        PropValue::East => "east"@,
        PropValue::South => "south"@,
        PropValue::West => "west"@,
        PropValue::True => "true"@,
        PropValue::False => "false"@,
    }
}

/// The text a block state formats to: its kind's name, then its property
/// values in the kind's property order, bracketed, where it has any.
pub open spec fn spec_block_state_text(bs: BlockState) -> Seq<char> {
    match bs.kind {
        BlockKind::Stone => "stone"@,
        BlockKind::OakSign => "oak_sign[rotation="@ + spec_prop_value_text(bs.rotation)
            + ", waterlogged="@ + spec_prop_value_text(bs.waterlogged) + "]"@,
        BlockKind::OakWallSign => "oak_wall_sign[facing="@ + spec_prop_value_text(bs.facing)
            + ", waterlogged="@ + spec_prop_value_text(bs.waterlogged) + "]"@,
        BlockKind::GreenBanner => "green_banner[rotation="@ + spec_prop_value_text(bs.rotation)
            + "]"@,
        BlockKind::GreenWallBanner => "green_wall_banner[facing="@ + spec_prop_value_text(
            bs.facing,
        ) + "]"@,
    }
}

fn prop_value_str(v: PropValue) -> (r: &'static str)
    ensures
        r@ == spec_prop_value_text(v),
{
    match v {
        PropValue::R0 => "0",
        PropValue::R1 => "1",
        PropValue::R2 => "2",
        PropValue::R3 => "3",
        PropValue::North => "north",
        PropValue::East => "east",
        PropValue::South => "south",
        PropValue::West => "west",
        PropValue::True => "true",
        PropValue::False => "false",
    }
}

/// Formats a block state as its kind's name followed by its bracketed
/// property list, such as `oak_sign[rotation=0, waterlogged=false]`.
pub fn fmt_block_state(bs: BlockState) -> (r: String)
    ensures
        r@ == spec_block_state_text(bs),
{
    match bs.kind {
        BlockKind::Stone => String::from_str("stone"),
        BlockKind::OakSign => String::from_str("oak_sign[rotation=").concat(
            prop_value_str(bs.rotation),
        ).concat(", waterlogged=").concat(prop_value_str(bs.waterlogged)).concat("]"),
        BlockKind::OakWallSign => String::from_str("oak_wall_sign[facing=").concat(
            prop_value_str(bs.facing),
        ).concat(", waterlogged=").concat(prop_value_str(bs.waterlogged)).concat("]"),
        BlockKind::GreenBanner => String::from_str("green_banner[rotation=").concat(
            prop_value_str(bs.rotation),
        ).concat("]"),
        BlockKind::GreenWallBanner => String::from_str("green_wall_banner[facing=").concat(
            prop_value_str(bs.facing),
        ).concat("]"),
    }
}

} // verus!
