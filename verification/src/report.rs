//! What a fighter's tick hands back to the coordinator.

use vstd::prelude::*;

use crate::character::{HitDef, TargetOp};
use crate::scalar::Vec2;
use crate::stage::PosType;

verus! {

/// A sound, as an attack names it.
#[derive(Debug, Clone, Copy, PartialEq, Eq, Structural)]
pub struct SoundId {
    /// The group.
    pub group: i32,
    /// The sample within the group.
    pub sample: i32,
    /// Whether it is looked up in the common sounds.
    pub common: bool,
}

/// A request to play a sound.
#[derive(Debug, Clone, Copy, PartialEq, Eq, Structural)]
pub struct SoundRequest {
    /// The group.
    pub group: i32,
    /// The sample within the group.
    pub sample: i32,
    /// The channel to play on.
    pub channel: i32,
    /// The volume, in percent.
    pub volume_scale: i32,
    /// Whether the sound loops.
    pub looping: bool,
    /// Whether it is looked up in the common sounds.
    pub common: bool,
}

/// The impact sound of an attack: channel 0, full volume, once.
pub open spec fn impact_sound(s: SoundId) -> SoundRequest {
    SoundRequest {
        group: s.group,
        sample: s.sample,
        channel: 0,
        volume_scale: 100,
        looping: false,
        common: s.common,
    }
}

/// Builds the request for an attack's impact sound. It always plays on channel
/// 0, so that a new hit cuts off the impact before it.
pub fn hit_sound_request(s: SoundId) -> (r: SoundRequest)
    ensures
        r == impact_sound(s),
{
    SoundRequest {
        group: s.group,
        sample: s.sample,
        channel: 0,
        volume_scale: 100,
        looping: false,
        common: s.common,
    }
}

/// The two kinds of freeze.
#[derive(Debug, Clone, Copy, PartialEq, Eq, Structural)]
pub enum FreezeKind {
    /// Everyone is held still.
    Pause,
    /// Everyone but the fighter that asked for it is held still.
    SuperPause,
}

/// A request to freeze the match.
#[derive(Debug, Clone, Copy, PartialEq, Eq, Structural)]
pub struct FreezeRequest {
    /// Who is held still.
    pub kind: FreezeKind,
    /// For how many frames.
    pub time: i32,
}

/// A request for a helper.
#[derive(Debug, Clone, Copy, PartialEq)]
pub struct HelperSpawn {
    /// The id it is addressed by.
    pub helper_id: i32,
    /// The state it starts in.
    pub state_no: i32,
    /// What it is placed against.
    pub pos_type: PosType,
    /// How far from there, along its owner's facing.
    pub pos: Vec2,
    /// -1 to face against its owner, anything else to face as it does.
    pub facing: i32,
    /// Frames it lives, or negative for no limit.
    pub remove_time: i32,
}

/// A request for a projectile.
#[derive(Debug, Clone, Copy, PartialEq)]
pub struct ProjectileSpawn {
    /// Its id.
    pub id: i32,
    /// The action it plays.
    pub anim: i32,
    /// Its offset from its owner, along the owner's facing.
    pub pos: Vec2,
    /// Its velocity, along the owner's facing.
    pub velocity: Vec2,
    /// Frames it lives, or negative for no limit.
    pub remove_time: i32,
    /// The attack it carries.
    pub hitdef: HitDef,
}

/// A request for an explod.
#[derive(Debug, Clone, Copy, PartialEq)]
pub struct ExplodSpawn {
    /// Its id.
    pub id: i32,
    /// The action it plays.
    pub anim: i32,
    /// What it is placed against.
    pub pos_type: PosType,
    /// How far from there, along its owner's facing.
    pub pos: Vec2,
    /// Its drawing priority.
    pub sprpriority: i32,
    /// Frames it stays bound, negative for as long as it lives.
    pub bindtime: i32,
    /// Frames it lives, -1 to play once, any other negative to loop.
    pub removetime: i32,
}

/// A change to the explods a player owns. `None` as an id selects them all.
#[derive(Debug, Clone, Copy, PartialEq)]
pub enum ExplodOp {
    /// Remove the selected explods.
    Remove(Option<i32>),
    /// Change the selected explods in the fields that are given.
    Modify {
        /// Which explods.
        id: Option<i32>,
        /// Another action.
        anim: Option<i32>,
        /// Another offset.
        pos: Option<Vec2>,
        /// Another drawing priority.
        sprpriority: Option<i32>,
        /// Another bind time.
        bindtime: Option<i32>,
        /// Another lifetime.
        removetime: Option<i32>,
    },
}

/// What a fighter's tick asks of the coordinator.
#[derive(Debug, Clone, PartialEq)]
pub struct Orders {
    /// A freeze, if one was asked for.
    pub freeze_request: Option<FreezeRequest>,
    /// What to do to the target.
    pub target_ops: Vec<TargetOp>,
    /// Helpers to spawn.
    pub helper_spawns: Vec<HelperSpawn>,
    /// Projectiles to spawn.
    pub projectile_spawns: Vec<ProjectileSpawn>,
    /// Explods to spawn.
    pub explod_spawns: Vec<ExplodSpawn>,
    /// Changes to live explods.
    pub explod_ops: Vec<ExplodOp>,
}

impl Orders {
    /// Orders that ask for nothing.
    pub fn none() -> (r: Orders)
        ensures
            r.freeze_request is None,
            r.target_ops@.len() == 0,
            r.helper_spawns@.len() == 0,
            r.projectile_spawns@.len() == 0,
            r.explod_spawns@.len() == 0,
            r.explod_ops@.len() == 0,
    {
        Orders {
            freeze_request: None,
            target_ops: Vec::new(),
            helper_spawns: Vec::new(),
            projectile_spawns: Vec::new(),
            explod_spawns: Vec::new(),
            explod_ops: Vec::new(),
        }
    }
}

/// What a fighter's tick hands back: the sounds it plays and its orders.
#[derive(Debug, Clone, PartialEq)]
pub struct TickReport {
    /// Sounds to play, in the order they were fired.
    pub sound_requests: Vec<SoundRequest>,
    /// Everything else it asks for.
    pub orders: Orders,
}

} // verus!
