//! Explods: display entities that play an action of their owner and collide
//! with nothing.

use vstd::prelude::*;

use crate::air::{AirFile, AnimFrame, SpriteId};
use crate::arith::{saturated, saturating_difference, saturating_sum};
use crate::character::{Character, Facing};
use crate::report::{ExplodOp, ExplodSpawn};
use crate::scalar::{Offset, Placement, Scalar, Vec2};
use crate::stage::{place, placed, PosType, StageView};

verus! {

/// Explods a player may own at once.
pub const MAX_EXPLODS_PER_PLAYER: usize = 64;

/// Frames an explod lives at most, whatever it was asked to.
pub const EXPLOD_MAX_LIFETIME: i32 = 300;

/// A live explod.
#[derive(Debug, Clone, Copy, PartialEq)]
pub struct Explod {
    /// Its owner: 1 for player 1, 2 for player 2.
    pub owner: i32,
    /// The id it is addressed by.
    pub id: i32,
    /// The action it plays.
    pub anim: i32,
    /// Where it stands. While bound it follows its anchor.
    pub pos: Placement,
    /// The sprite of its current frame.
    pub sprite: SpriteId,
    /// The offset of its current frame.
    pub offset: Offset,
    /// Its drawing priority.
    pub sprpriority: i32,
    /// What it is placed against.
    pub pos_type: PosType,
    /// How far from there, along its owner's facing.
    pub anchor_offset: Vec2,
    /// Frames it stays bound to its anchor, negative for as long as it lives.
    pub bind_remaining: i32,
    /// Zero-based index of its current frame.
    pub elem: usize,
    /// Frames the current frame has been shown.
    pub elem_time: i32,
    /// Whether it goes once its action has played.
    pub play_once: bool,
    /// Frames it has left to live.
    pub remaining: i32,
}

impl Explod {
    /// The id it is addressed by.
    pub fn id(&self) -> (r: i32)
        ensures
            r == self.id,
    {
        self.id
    }

    /// The action it plays.
    pub fn anim(&self) -> (r: i32)
        ensures
            r == self.anim,
    {
        self.anim
    }

    /// Its owner: 1 for player 1, 2 for player 2.
    pub fn owner(&self) -> (r: i32)
        ensures
            r == self.owner,
    {
        self.owner
    }

    /// Frames it has left to live.
    pub fn remaining(&self) -> (r: i32)
        ensures
            r == self.remaining,
    {
        self.remaining
    }

    /// Whether it goes once its action has played.
    pub fn play_once(&self) -> (r: bool)
        ensures
            r == self.play_once,
    {
        self.play_once
    }

    /// Frames it stays bound to its anchor, negative for as long as it lives.
    pub fn bind_remaining(&self) -> (r: i32)
        ensures
            r == self.bind_remaining,
    {
        self.bind_remaining
    }
}

/// The lifetime a `removetime` stands for, and whether it means "play once". A
/// fixed time is cut at [`EXPLOD_MAX_LIFETIME`], and every other explod gets just
/// that, so that none stays for ever.
pub open spec fn lifetime(removetime: i32) -> (i32, bool) {
    (
        if 0 <= removetime < EXPLOD_MAX_LIFETIME {
            removetime
        } else {
            EXPLOD_MAX_LIFETIME
        },
        removetime == -1,
    )
}

/// Resolves a `removetime` into a lifetime and a "play once" flag.
pub fn explod_lifetime(removetime: i32) -> (r: (i32, bool))
    ensures
        r == lifetime(removetime),
{
    if removetime >= 0 {
        (
            if removetime < EXPLOD_MAX_LIFETIME {
                removetime
            } else {
                EXPLOD_MAX_LIFETIME
            },
            false,
        )
    } else if removetime == -1 {
        (EXPLOD_MAX_LIFETIME, true)
    } else {
        (EXPLOD_MAX_LIFETIME, false)
    }
}

/// Whether a selector picks an explod: `None` picks all.
pub open spec fn selected(explod_id: i32, selector: Option<i32>) -> bool {
    match selector {
        Some(id) => explod_id == id,
        None => true,
    }
}

/// Whether a selector picks the explod with id `explod_id`: `None` picks all.
pub fn explod_id_matches(explod_id: i32, selector: Option<i32>) -> (r: bool)
    ensures
        r == selected(explod_id, selector),
{
    match selector {
        Some(id) => explod_id == id,
        None => true,
    }
}

/// The explod that a request makes, on the first of `frames`.
pub open spec fn new_explod(
    owner: Character,
    frames: Seq<AnimFrame>,
    spawn: ExplodSpawn,
    owner_id: i32,
    opponent_x: Scalar,
    stage: StageView,
) -> Explod {
    Explod {
        owner: owner_id,
        id: spawn.id,
        anim: spawn.anim,
        pos: placed(spawn.pos_type, spawn.pos, owner.pos, owner.facing, opponent_x, stage),
        sprite: frames[0].sprite,
        offset: frames[0].offset,
        sprpriority: spawn.sprpriority,
        pos_type: spawn.pos_type,
        anchor_offset: spawn.pos,
        bind_remaining: spawn.bindtime,
        elem: 0,
        elem_time: 0,
        play_once: lifetime(spawn.removetime).1,
        remaining: lifetime(spawn.removetime).0,
    }
}

/// Where an explod that `owner` asks for stands.
pub fn explod_anchor(
    owner: &Character,
    spawn: &ExplodSpawn,
    opponent_x: Scalar,
    stage: StageView,
) -> (r: Placement)
    ensures
        r == placed(spawn.pos_type, spawn.pos, owner.pos, owner.facing, opponent_x, stage),
{
    place(spawn.pos_type, spawn.pos, owner.pos, owner.facing, opponent_x, stage)
}

/// The explods after the requests `spawns`, taken in order. A request is dropped
/// where the player owns [`MAX_EXPLODS_PER_PLAYER`] already, or where its action
/// is missing or empty.
pub open spec fn explods_spawned(
    explods: Seq<Explod>,
    owner: Character,
    air: AirFile,
    spawns: Seq<ExplodSpawn>,
    owner_id: i32,
    opponent_x: Scalar,
    stage: StageView,
) -> Seq<Explod>
    decreases spawns.len(),
{
    if spawns.len() == 0 {
        explods
    } else {
        let before = explods_spawned(
            explods,
            owner,
            air,
            spawns.drop_last(),
            owner_id,
            opponent_x,
            stage,
        );
        let spawn = spawns.last();
        let frames = air.frames_of(spawn.anim);
        if before.len() >= MAX_EXPLODS_PER_PLAYER || frames.len() == 0 {
            before
        } else {
            before.push(new_explod(owner, frames, spawn, owner_id, opponent_x, stage))
        }
    }
}

/// Adds the explods that `owner` asks for to those it owns.
pub fn spawn_explods(
    explods: &mut Vec<Explod>,
    owner: &Character,
    air: &AirFile,
    spawns: &Vec<ExplodSpawn>,
    owner_id: i32,
    opponent_x: Scalar,
    stage: StageView,
)
    ensures
        final(explods)@ == explods_spawned(
            old(explods)@,
            *owner,
            *air,
            spawns@,
            owner_id,
            opponent_x,
            stage,
        ),
{
    let mut i: usize = 0;
    assert(spawns@.take(0) =~= Seq::empty());
    while i < spawns.len()
        invariant
            i <= spawns@.len(),
            explods@ == explods_spawned(
                old(explods)@,
                *owner,
                *air,
                spawns@.take(i as int),
                owner_id,
                opponent_x,
                stage,
            ),
        decreases spawns.len() - i,
    {
        proof {
            assert(spawns@.take(i + 1).drop_last() =~= spawns@.take(i as int));
        }
        let spawn = spawns[i];
        if explods.len() < MAX_EXPLODS_PER_PLAYER {
            match air.action(spawn.anim) {
                None => {},
                Some(action) => {
                    if action.frames.len() > 0 {
                        let (remaining, play_once) = explod_lifetime(spawn.removetime);
                        explods.push(
                            Explod {
                                owner: owner_id,
                                id: spawn.id,
                                anim: spawn.anim,
                                pos: explod_anchor(owner, &spawn, opponent_x, stage),
                                sprite: action.frames[0].sprite,
                                offset: action.frames[0].offset,
                                sprpriority: spawn.sprpriority,
                                pos_type: spawn.pos_type,
                                anchor_offset: spawn.pos,
                                bind_remaining: spawn.bindtime,
                                elem: 0,
                                elem_time: 0,
                                play_once,
                                remaining,
                            },
                        );
                    }
                },
            }
        }
        i = i + 1;
    }
    assert(spawns@.take(spawns@.len() as int) =~= spawns@);
}

/// The explods that a selector does not pick, in order.
pub open spec fn explods_without(explods: Seq<Explod>, selector: Option<i32>) -> Seq<Explod>
    decreases explods.len(),
{
    if explods.len() == 0 {
        Seq::empty()
    } else {
        let before = explods_without(explods.drop_last(), selector);
        if selected(explods.last().id, selector) {
            before
        } else {
            before.push(explods.last())
        }
    }
}

/// `value`, or `fallback` where there is none.
pub open spec fn or_else(value: Option<i32>, fallback: i32) -> i32 {
    match value {
        Some(v) => v,
        None => fallback,
    }
}

/// An explod after a change. Fields that are not given stay; another action
/// starts from its first frame; another lifetime is resolved as for a new explod.
pub open spec fn modified(
    e: Explod,
    anim: Option<i32>,
    pos: Option<Vec2>,
    sprpriority: Option<i32>,
    bindtime: Option<i32>,
    removetime: Option<i32>,
) -> Explod {
    let restart = or_else(anim, e.anim) != e.anim;
    Explod {
        anim: or_else(anim, e.anim),
        elem: if restart {
            0
        } else {
            e.elem
        },
        elem_time: if restart {
            0
        } else {
            e.elem_time
        },
        anchor_offset: match pos {
            Some(p) => p,
            None => e.anchor_offset,
        },
        sprpriority: or_else(sprpriority, e.sprpriority),
        bind_remaining: or_else(bindtime, e.bind_remaining),
        remaining: match removetime {
            Some(r) => lifetime(r).0,
            None => e.remaining,
        },
        play_once: match removetime {
            Some(r) => lifetime(r).1,
            None => e.play_once,
        },
        ..e
    }
}

/// The explods after one operation.
pub open spec fn after_explod_op(explods: Seq<Explod>, op: ExplodOp) -> Seq<Explod> {
    match op {
        ExplodOp::Remove(id) => explods_without(explods, id),
        ExplodOp::Modify { id, anim, pos, sprpriority, bindtime, removetime } => Seq::new(
            explods.len(),
            |i: int|
                if selected(explods[i].id, id) {
                    modified(explods[i], anim, pos, sprpriority, bindtime, removetime)
                } else {
                    explods[i]
                },
        ),
    }
}

/// The explods after the operations `ops`, in order.
pub open spec fn after_explod_ops(explods: Seq<Explod>, ops: Seq<ExplodOp>) -> Seq<Explod>
    decreases ops.len(),
{
    if ops.len() == 0 {
        explods
    } else {
        after_explod_op(after_explod_ops(explods, ops.drop_last()), ops.last())
    }
}

/// Keeps the explods that a selector does not pick.
fn remove_selected(explods: &Vec<Explod>, selector: Option<i32>) -> (r: Vec<Explod>)
    ensures
        r@ == explods_without(explods@, selector),
{
    let mut kept: Vec<Explod> = Vec::new();
    let mut i: usize = 0;
    assert(kept@ =~= explods_without(explods@.take(0), selector));
    while i < explods.len()
        invariant
            i <= explods@.len(),
            kept@ == explods_without(explods@.take(i as int), selector),
        decreases explods.len() - i,
    {
        proof {
            assert(explods@.take(i + 1).drop_last() =~= explods@.take(i as int));
        }
        if !explod_id_matches(explods[i].id, selector) {
            kept.push(explods[i]);
        }
        i = i + 1;
    }
    assert(explods@.take(explods@.len() as int) =~= explods@);
    kept
}

/// Changes one explod in the fields that are given.
pub fn modify(
    e: &mut Explod,
    anim: Option<i32>,
    pos: Option<Vec2>,
    sprpriority: Option<i32>,
    bindtime: Option<i32>,
    removetime: Option<i32>,
)
    ensures
        *final(e) == modified(*old(e), anim, pos, sprpriority, bindtime, removetime),
{
    if let Some(a) = anim {
        if a != e.anim {
            e.anim = a;
            e.elem = 0;
            e.elem_time = 0;
        }
    }
    if let Some(p) = pos {
        e.anchor_offset = p;
    }
    if let Some(p) = sprpriority {
        e.sprpriority = p;
    }
    if let Some(b) = bindtime {
        e.bind_remaining = b;
    }
    if let Some(r) = removetime {
        let (remaining, play_once) = explod_lifetime(r);
        e.remaining = remaining;
        e.play_once = play_once;
    }
}

/// Applies operations to a player's explods, in order.
pub fn apply_explod_ops(explods: &mut Vec<Explod>, ops: &Vec<ExplodOp>)
    ensures
        final(explods)@ == after_explod_ops(old(explods)@, ops@),
{
    let mut i: usize = 0;
    assert(ops@.take(0) =~= Seq::empty());
    while i < ops.len()
        invariant
            i <= ops@.len(),
            explods@ == after_explod_ops(old(explods)@, ops@.take(i as int)),
        decreases ops.len() - i,
    {
        proof {
            assert(ops@.take(i + 1).drop_last() =~= ops@.take(i as int));
        }
        match ops[i] {
            ExplodOp::Remove(id) => {
                *explods = remove_selected(explods, id);
            },
            ExplodOp::Modify { id, anim, pos, sprpriority, bindtime, removetime } => {
                let ghost start = explods@;
                let mut j: usize = 0;
                while j < explods.len()
                    invariant
                        j <= explods@.len(),
                        explods@.len() == start.len(),
                        forall|k: int|
                            0 <= k < j ==> #[trigger] explods@[k] == if selected(start[k].id, id) {
                                modified(start[k], anim, pos, sprpriority, bindtime, removetime)
                            } else {
                                start[k]
                            },
                        forall|k: int| j <= k < start.len() ==> #[trigger] explods@[k] == start[k],
                    decreases explods.len() - j,
                {
                    let mut e = explods[j];
                    if explod_id_matches(e.id, id) {
                        modify(&mut e, anim, pos, sprpriority, bindtime, removetime);
                        explods.set(j, e);
                    }
                    j = j + 1;
                }
                assert(explods@ =~= after_explod_op(start, ops@[i as int]));
            },
        }
        i = i + 1;
    }
    assert(ops@.take(ops@.len() as int) =~= ops@);
}

/// The cursor of an explod one tick on; `None` where a play-once explod has shown
/// its last frame. A cursor past the end starts over, a frame with no positive
/// duration holds, and the action loops.
pub open spec fn explod_cursor(
    frames: Seq<AnimFrame>,
    elem: usize,
    elem_time: i32,
    play_once: bool,
) -> Option<(usize, i32)> {
    let time = saturated(elem_time + 1);
    if elem >= frames.len() {
        Some((0, 0))
    } else if frames[elem as int].ticks <= 0 || time < frames[elem as int].ticks {
        Some((elem, time))
    } else if elem < frames.len() - 1 {
        Some(((elem + 1) as usize, 0))
    } else if play_once {
        None
    } else {
        Some((0, 0))
    }
}

/// An explod with its animation one tick on; `None` where it goes.
pub open spec fn explod_advanced(e: Explod, frames: Seq<AnimFrame>, play_once: bool) -> Option<
    Explod,
> {
    if frames.len() == 0 {
        None
    } else {
        match explod_cursor(frames, e.elem, e.elem_time, play_once) {
            None => None,
            Some((elem, elem_time)) => Some(
                Explod {
                    elem,
                    elem_time,
                    sprite: frames[elem as int].sprite,
                    offset: frames[elem as int].offset,
                    ..e
                },
            ),
        }
    }
}

/// Moves an explod's animation one tick on and shows its frame. Returns whether
/// to keep the explod: not when its action is missing or empty, which leaves it as
/// it was, and not when it plays once and has shown its last frame, on which it
/// then stands anew.
pub fn advance_explod_frame(e: &mut Explod, air: &AirFile, play_once: bool) -> (r: bool)
    ensures
        (if r {
            Some(*final(e))
        } else {
            None
        }) == explod_advanced(*old(e), air.frames_of(old(e).anim), play_once),
        !r ==> *final(e) == if air.frames_of(old(e).anim).len() == 0 {
            *old(e)
        } else {
            (Explod { elem_time: 0, ..*old(e) })
        },
{
    match air.action(e.anim) {
        None => false,
        Some(action) => {
            if action.frames.len() == 0 {
                return false;
            }
            let last: usize = action.frames.len() - 1;
            e.elem_time = saturating_sum(e.elem_time, 1);
            if e.elem > last {
                e.elem = 0;
                e.elem_time = 0;
            } else {
                let ticks: i32 = action.frames[e.elem].ticks;
                if ticks > 0 && e.elem_time >= ticks {
                    e.elem_time = 0;
                    if e.elem < last {
                        e.elem = e.elem + 1;
                    } else if play_once {
                        return false;
                    } else {
                        e.elem = 0;
                    }
                }
            }
            e.sprite = action.frames[e.elem].sprite;
            e.offset = action.frames[e.elem].offset;
            true
        },
    }
}

/// An explod after its bind and life counters have moved one tick on; `None`
/// where its life has run out. While bound it is placed anew.
pub open spec fn explod_counted(
    e: Explod,
    owner_pos: Vec2,
    owner_facing: Facing,
    opponent_x: Scalar,
    stage: StageView,
) -> Option<Explod> {
    if saturated(e.remaining - 1) < 0 {
        None
    } else {
        Some(
            Explod {
                pos: if e.bind_remaining != 0 {
                    placed(e.pos_type, e.anchor_offset, owner_pos, owner_facing, opponent_x, stage)
                } else {
                    e.pos
                },
                bind_remaining: if e.bind_remaining > 0 {
                    (e.bind_remaining - 1) as i32
                } else {
                    e.bind_remaining
                },
                remaining: (e.remaining - 1) as i32,
                ..e
            },
        )
    }
}

/// An explod one tick on; `None` where it goes.
pub open spec fn explod_ticked(
    e: Explod,
    air: AirFile,
    owner_pos: Vec2,
    owner_facing: Facing,
    opponent_x: Scalar,
    stage: StageView,
) -> Option<Explod> {
    match explod_counted(e, owner_pos, owner_facing, opponent_x, stage) {
        None => None,
        Some(next) => explod_advanced(next, air.frames_of(next.anim), next.play_once),
    }
}

/// The explods that are still there one tick on, in order.
pub open spec fn explods_ticked(
    explods: Seq<Explod>,
    air: AirFile,
    owner_pos: Vec2,
    owner_facing: Facing,
    opponent_x: Scalar,
    stage: StageView,
) -> Seq<Explod>
    decreases explods.len(),
{
    if explods.len() == 0 {
        Seq::empty()
    } else {
        let before = explods_ticked(
            explods.drop_last(),
            air,
            owner_pos,
            owner_facing,
            opponent_x,
            stage,
        );
        match explod_ticked(explods.last(), air, owner_pos, owner_facing, opponent_x, stage) {
            Some(next) => before.push(next),
            None => before,
        }
    }
}

/// Moves every explod one tick on and drops those that go.
pub fn tick_explods(
    explods: &Vec<Explod>,
    air: &AirFile,
    owner_pos: Vec2,
    owner_facing: Facing,
    opponent_x: Scalar,
    stage: StageView,
) -> (r: Vec<Explod>)
    ensures
        r@ == explods_ticked(explods@, *air, owner_pos, owner_facing, opponent_x, stage),
{
    let mut kept: Vec<Explod> = Vec::new();
    let mut i: usize = 0;
    assert(kept@ =~= explods_ticked(
        explods@.take(0),
        *air,
        owner_pos,
        owner_facing,
        opponent_x,
        stage,
    ));
    while i < explods.len()
        invariant
            i <= explods@.len(),
            kept@ == explods_ticked(
                explods@.take(i as int),
                *air,
                owner_pos,
                owner_facing,
                opponent_x,
                stage,
            ),
        decreases explods.len() - i,
    {
        proof {
            assert(explods@.take(i + 1).drop_last() =~= explods@.take(i as int));
        }
        let mut e = explods[i];
        if e.bind_remaining != 0 {
            e.pos = place(
                e.pos_type,
                e.anchor_offset,
                owner_pos,
                owner_facing,
                opponent_x,
                stage,
            );
        }
        if e.bind_remaining > 0 {
            e.bind_remaining = e.bind_remaining - 1;
        }
        e.remaining = saturating_difference(e.remaining, 1);
        if e.remaining >= 0 {
            let play_once = e.play_once;
            if advance_explod_frame(&mut e, air, play_once) {
                kept.push(e);
            }
        }
        i = i + 1;
    }
    assert(explods@.take(explods@.len() as int) =~= explods@);
    kept
}

/// Whether an explod lives within its bounds.
pub open spec fn bounded(e: Explod) -> bool {
    0 <= e.remaining <= EXPLOD_MAX_LIFETIME
}

/// Whether every explod of a list lives within its bounds.
#[verifier::opaque]
pub open spec fn all_bounded(explods: Seq<Explod>) -> bool {
    forall|i: int| 0 <= i < explods.len() ==> bounded(#[trigger] explods[i])
}

/// Spawning keeps to the cap, and every new explod lives within its bounds.
pub proof fn spawning_is_bounded(
    explods: Seq<Explod>,
    owner: Character,
    air: AirFile,
    spawns: Seq<ExplodSpawn>,
    owner_id: i32,
    opponent_x: Scalar,
    stage: StageView,
)
    requires
        explods.len() <= MAX_EXPLODS_PER_PLAYER,
        all_bounded(explods),
    ensures
        explods_spawned(explods, owner, air, spawns, owner_id, opponent_x, stage).len()
            <= MAX_EXPLODS_PER_PLAYER,
        all_bounded(explods_spawned(explods, owner, air, spawns, owner_id, opponent_x, stage)),
    decreases spawns.len(),
{
    reveal(all_bounded);
    if spawns.len() > 0 {
        spawning_is_bounded(
            explods,
            owner,
            air,
            spawns.drop_last(),
            owner_id,
            opponent_x,
            stage,
        );
    }
}

/// Removing leaves only explods that the selector does not pick, and keeps no more
/// than there were.
pub proof fn removing_removes(explods: Seq<Explod>, selector: Option<i32>)
    ensures
        explods_without(explods, selector).len() <= explods.len(),
        forall|i: int|
            0 <= i < explods_without(explods, selector).len() ==> !selected(
                (#[trigger] explods_without(explods, selector)[i]).id,
                selector,
            ),
        all_bounded(explods) ==> all_bounded(explods_without(explods, selector)),
        selector is None ==> explods_without(explods, selector).len() == 0,
    decreases explods.len(),
{
    reveal(all_bounded);
    if explods.len() > 0 {
        removing_removes(explods.drop_last(), selector);
        if all_bounded(explods) {
            assert forall|i: int| 0 <= i < explods.drop_last().len() implies bounded(
                #[trigger] explods.drop_last()[i],
            ) by {
                assert(explods.drop_last()[i] == explods[i]);
            }
            assert(bounded(explods[explods.len() - 1]));
        }
    }
}

/// Changes never make more explods, and keep every life within its bounds.
pub proof fn changing_is_bounded(explods: Seq<Explod>, ops: Seq<ExplodOp>)
    requires
        all_bounded(explods),
    ensures
        after_explod_ops(explods, ops).len() <= explods.len(),
        all_bounded(after_explod_ops(explods, ops)),
    decreases ops.len(),
{
    reveal(all_bounded);
    if ops.len() > 0 {
        changing_is_bounded(explods, ops.drop_last());
        let before = after_explod_ops(explods, ops.drop_last());
        match ops.last() {
            ExplodOp::Remove(id) => {
                removing_removes(before, id);
            },
            ExplodOp::Modify { id, anim, pos, sprpriority, bindtime, removetime } => {
                let after = after_explod_op(before, ops.last());
                assert forall|i: int| 0 <= i < after.len() implies bounded(#[trigger] after[i]) by {
                    assert(bounded(before[i]));
                }
            },
        }
    }
}

/// Whether every explod of a list has at most `n` frames left.
pub open spec fn live_at_most(explods: Seq<Explod>, n: int) -> bool {
    forall|i: int| 0 <= i < explods.len() ==> (#[trigger] explods[i]).remaining <= n
}

/// A tick takes one frame off the life of every explod it keeps, and keeps none
/// whose life has run out.
pub proof fn tick_shortens(
    explods: Seq<Explod>,
    air: AirFile,
    owner_pos: Vec2,
    owner_facing: Facing,
    opponent_x: Scalar,
    stage: StageView,
    n: int,
)
    requires
        live_at_most(explods, n),
    ensures
        ({
            let after = explods_ticked(explods, air, owner_pos, owner_facing, opponent_x, stage);
            &&& after.len() <= explods.len()
            &&& live_at_most(after, n - 1)
            &&& forall|i: int| 0 <= i < after.len() ==> (#[trigger] after[i]).remaining >= 0
        }),
    decreases explods.len(),
{
    if explods.len() > 0 {
        let rest = explods.drop_last();
        assert forall|i: int| 0 <= i < rest.len() implies (#[trigger] rest[i]).remaining <= n by {
            assert(rest[i] == explods[i]);
        }
        assert(explods[explods.len() - 1].remaining <= n);
        tick_shortens(rest, air, owner_pos, owner_facing, opponent_x, stage, n);
    }
}

/// Where an owner and its opponent are on one frame.
pub struct Sighting {
    /// The owner's position.
    pub owner_pos: Vec2,
    /// The owner's facing.
    pub owner_facing: Facing,
    /// The opponent's X.
    pub opponent_x: Scalar,
}

/// The explods after a number of ticks, whatever their owner does meanwhile.
pub open spec fn explods_after(
    explods: Seq<Explod>,
    air: AirFile,
    seen: Seq<Sighting>,
    stage: StageView,
) -> Seq<Explod>
    decreases seen.len(),
{
    if seen.len() == 0 {
        explods
    } else {
        let s = seen.last();
        explods_ticked(
            explods_after(explods, air, seen.drop_last(), stage),
            air,
            s.owner_pos,
            s.owner_facing,
            s.opponent_x,
            stage,
        )
    }
}

/// No explod stays for ever: left alone, every explod that lives within its bounds
/// is gone once more ticks have passed than an explod may live.
pub proof fn explods_expire(
    explods: Seq<Explod>,
    air: AirFile,
    seen: Seq<Sighting>,
    stage: StageView,
)
    requires
        all_bounded(explods),
        seen.len() > EXPLOD_MAX_LIFETIME,
    ensures
        explods_after(explods, air, seen, stage).len() == 0,
{
    shortened_by(explods, air, seen, stage, EXPLOD_MAX_LIFETIME as int);
    shortened_by(explods, air, seen.drop_last(), stage, EXPLOD_MAX_LIFETIME as int);
    let s = seen.last();
    let before = explods_after(explods, air, seen.drop_last(), stage);
    tick_shortens(
        before,
        air,
        s.owner_pos,
        s.owner_facing,
        s.opponent_x,
        stage,
        EXPLOD_MAX_LIFETIME - (seen.len() - 1),
    );
    let end = explods_after(explods, air, seen, stage);
    assert(end == explods_ticked(
        before,
        air,
        s.owner_pos,
        s.owner_facing,
        s.opponent_x,
        stage,
    ));
    if end.len() > 0 {
        assert(end[0].remaining < 0);
    }
}

/// Every tick takes one frame off every explod.
proof fn shortened_by(
    explods: Seq<Explod>,
    air: AirFile,
    seen: Seq<Sighting>,
    stage: StageView,
    bound: int,
)
    requires
        live_at_most(explods, bound) || (all_bounded(explods) && bound == EXPLOD_MAX_LIFETIME),
    ensures
        live_at_most(explods_after(explods, air, seen, stage), bound - seen.len()),
    decreases seen.len(),
{
    reveal(all_bounded);
    assert(live_at_most(explods, bound)) by {
        if all_bounded(explods) && bound == EXPLOD_MAX_LIFETIME {
            assert forall|i: int| 0 <= i < explods.len() implies (
            #[trigger] explods[i]).remaining <= bound by {
                assert(bounded(explods[i]));
            }
        }
    }
    if seen.len() > 0 {
        shortened_by(explods, air, seen.drop_last(), stage, bound);
        let s = seen.last();
        tick_shortens(
            explods_after(explods, air, seen.drop_last(), stage),
            air,
            s.owner_pos,
            s.owner_facing,
            s.opponent_x,
            stage,
            bound - (seen.len() - 1),
        );
    }
}

/// A tick keeps every life within its bounds.
pub proof fn ticking_is_bounded(
    explods: Seq<Explod>,
    air: AirFile,
    owner_pos: Vec2,
    owner_facing: Facing,
    opponent_x: Scalar,
    stage: StageView,
)
    requires
        all_bounded(explods),
    ensures
        explods_ticked(explods, air, owner_pos, owner_facing, opponent_x, stage).len()
            <= explods.len(),
        all_bounded(explods_ticked(explods, air, owner_pos, owner_facing, opponent_x, stage)),
{
    reveal(all_bounded);
    assert forall|i: int| 0 <= i < explods.len() implies (#[trigger] explods[i]).remaining
        <= EXPLOD_MAX_LIFETIME by {
        assert(bounded(explods[i]));
    }
    tick_shortens(
        explods,
        air,
        owner_pos,
        owner_facing,
        opponent_x,
        stage,
        EXPLOD_MAX_LIFETIME as int,
    );
}

/// A bound explod follows its anchor; one that is no longer bound stays where it
/// is.
pub proof fn binding_decides_the_place(
    e: Explod,
    air: AirFile,
    owner_pos: Vec2,
    owner_facing: Facing,
    opponent_x: Scalar,
    stage: StageView,
)
    requires
        explod_ticked(e, air, owner_pos, owner_facing, opponent_x, stage) is Some,
    ensures
        ({
            let next = explod_ticked(e, air, owner_pos, owner_facing, opponent_x, stage)->0;
            if e.bind_remaining == 0 {
                next.pos == e.pos && next.bind_remaining == 0
            } else {
                next.pos == placed(
                    e.pos_type,
                    e.anchor_offset,
                    owner_pos,
                    owner_facing,
                    opponent_x,
                    stage,
                )
            }
        }),
{
}

/// Of one request more, exactly that explod is spawned in addition, behind the
/// others, where there is room and its action has frames: as it was ordered, on its
/// first frame, for the player that ordered it.
pub proof fn explods_are_spawned_to_order(
    explods: Seq<Explod>,
    owner: Character,
    air: AirFile,
    spawns: Seq<ExplodSpawn>,
    owner_id: i32,
    opponent_x: Scalar,
    stage: StageView,
    spawn: ExplodSpawn,
)
    ensures
        ({
            let before = explods_spawned(
                explods,
                owner,
                air,
                spawns,
                owner_id,
                opponent_x,
                stage,
            );
            let after = explods_spawned(
                explods,
                owner,
                air,
                spawns.push(spawn),
                owner_id,
                opponent_x,
                stage,
            );
            let frames = air.frames_of(spawn.anim);
            let e = after.last();
            &&& explods_spawned(
                explods,
                owner,
                air,
                Seq::empty(),
                owner_id,
                opponent_x,
                stage,
            ) == explods
            &&& if before.len() < MAX_EXPLODS_PER_PLAYER && frames.len() > 0 {
                &&& after.len() == before.len() + 1 && after.drop_last() =~= before
                &&& e.id == spawn.id && e.anim == spawn.anim && e.owner == owner_id
                &&& e.sprpriority == spawn.sprpriority
                &&& e.pos_type == spawn.pos_type && e.anchor_offset == spawn.pos
                &&& e.bind_remaining == spawn.bindtime
                &&& e.elem == 0 && e.elem_time == 0
                &&& e.sprite == frames[0].sprite && e.offset == frames[0].offset
                &&& e.pos == placed(
                    spawn.pos_type,
                    spawn.pos,
                    owner.pos,
                    owner.facing,
                    opponent_x,
                    stage,
                )
                &&& lives(e, spawn.removetime)
            } else {
                after == before
            }
        }),
{
    assert(spawns.push(spawn).drop_last() =~= spawns);
}

/// Whether an explod has the life that a `removetime` asks for: that many frames, but
/// no more than an explod may live; and as long as it may where there is no limit,
/// playing once on demand.
pub open spec fn lives(e: Explod, removetime: i32) -> bool {
    &&& e.play_once <==> removetime == -1
    &&& removetime < 0 ==> e.remaining == EXPLOD_MAX_LIFETIME
    &&& 0 <= removetime <= EXPLOD_MAX_LIFETIME ==> e.remaining == removetime
    &&& removetime > EXPLOD_MAX_LIFETIME ==> e.remaining == EXPLOD_MAX_LIFETIME
}

/// Removing takes out exactly the explods that the selector picks: of one explod
/// more, that explod stays unless it is picked by its id, or all are.
pub proof fn only_picked_explods_go(explods: Seq<Explod>, selector: Option<i32>, e: Explod)
    ensures
        ({
            let before = after_explod_op(explods, ExplodOp::Remove(selector));
            let after = after_explod_op(explods.push(e), ExplodOp::Remove(selector));
            let picked = selector is None || selector == Some(e.id);
            &&& after_explod_op(Seq::empty(), ExplodOp::Remove(selector)).len() == 0
            &&& picked ==> after == before
            &&& !picked ==> after == before.push(e)
        }),
{
    assert(explods.push(e).drop_last() =~= explods);
}

/// A change touches exactly the explods that its selector picks, and in them exactly
/// the fields that are given. Another action starts from its first frame.
pub proof fn only_given_fields_change(explods: Seq<Explod>, op: ExplodOp, i: int)
    requires
        op is Modify,
        0 <= i < explods.len(),
    ensures
        ({
            let after = after_explod_op(explods, op);
            let e = explods[i];
            let c = after[i];
            let picked = op->Modify_id is None || op->Modify_id == Some(e.id);
            let restarted = op->Modify_anim is Some && op->Modify_anim->0 != e.anim;
            &&& after.len() == explods.len()
            &&& !picked ==> c == e
            &&& picked ==> {
                &&& op->Modify_anim is Some ==> c.anim == op->Modify_anim->0
                &&& op->Modify_anim is None ==> c.anim == e.anim
                &&& restarted ==> c.elem == 0 && c.elem_time == 0
                &&& !restarted ==> c.elem == e.elem && c.elem_time == e.elem_time
                &&& op->Modify_pos is Some ==> c.anchor_offset == op->Modify_pos->0
                &&& op->Modify_pos is None ==> c.anchor_offset == e.anchor_offset
                &&& op->Modify_sprpriority is Some ==> c.sprpriority == op->Modify_sprpriority->0
                &&& op->Modify_sprpriority is None ==> c.sprpriority == e.sprpriority
                &&& op->Modify_bindtime is Some ==> c.bind_remaining == op->Modify_bindtime->0
                &&& op->Modify_bindtime is None ==> c.bind_remaining == e.bind_remaining
                &&& op->Modify_removetime is Some ==> lives(c, op->Modify_removetime->0)
                &&& op->Modify_removetime is None ==> c.remaining == e.remaining && c.play_once
                    == e.play_once
                &&& c == (Explod {
                    anim: c.anim,
                    elem: c.elem,
                    elem_time: c.elem_time,
                    anchor_offset: c.anchor_offset,
                    sprpriority: c.sprpriority,
                    bind_remaining: c.bind_remaining,
                    remaining: c.remaining,
                    play_once: c.play_once,
                    ..e
                })
            }
        }),
{
}

/// Operations are done in order, each to what the ones before have left.
pub proof fn explod_ops_go_in_order(explods: Seq<Explod>, ops: Seq<ExplodOp>, op: ExplodOp)
    ensures
        after_explod_ops(explods, Seq::empty()) == explods,
        after_explod_ops(explods, ops.push(op)) == after_explod_op(
            after_explod_ops(explods, ops),
            op,
        ),
{
    assert(ops.push(op).drop_last() =~= ops);
}

/// Whether an explod is another one tick on: one frame of its life and one of its
/// bind are gone, it stands at its anchor while it was bound and where it was else,
/// and shows the frame its cursor has come to. A cursor stays on a frame for its
/// duration, and for ever where that is not positive; then it goes to the next, and
/// from the last to the first.
pub open spec fn aged(
    e: Explod,
    after: Explod,
    frames: Seq<AnimFrame>,
    owner_pos: Vec2,
    owner_facing: Facing,
    opponent_x: Scalar,
    stage: StageView,
) -> bool {
    let n = frames.len();
    &&& after.remaining == e.remaining - 1
    &&& e.bind_remaining == 0 ==> after.pos == e.pos
    &&& e.bind_remaining != 0 ==> after.pos == placed(
        e.pos_type,
        e.anchor_offset,
        owner_pos,
        owner_facing,
        opponent_x,
        stage,
    )
    &&& after.bind_remaining == if e.bind_remaining > 0 {
        e.bind_remaining - 1
    } else {
        e.bind_remaining as int
    }
    &&& after.elem < n
    &&& after.sprite == frames[after.elem as int].sprite
    &&& after.offset == frames[after.elem as int].offset
    &&& e.elem >= n ==> after.elem == 0 && after.elem_time == 0
    &&& e.elem < n && e.elem_time < i32::MAX ==> {
        let ticks = frames[e.elem as int].ticks;
        if ticks <= 0 || e.elem_time + 1 < ticks {
            after.elem == e.elem && after.elem_time == e.elem_time + 1
        } else {
            &&& after.elem_time == 0
            &&& after.elem == if e.elem + 1 < n {
                e.elem + 1
            } else {
                0
            }
        }
    }
    &&& after == (Explod {
        remaining: after.remaining,
        pos: after.pos,
        bind_remaining: after.bind_remaining,
        elem: after.elem,
        elem_time: after.elem_time,
        sprite: after.sprite,
        offset: after.offset,
        ..e
    })
}

/// Of one explod more, exactly that explod stays in addition, one tick on, unless its
/// life has run out, its action has no frames, or it plays once and has shown its
/// last frame for as long as that lasts.
pub proof fn explods_age(
    explods: Seq<Explod>,
    air: AirFile,
    owner_pos: Vec2,
    owner_facing: Facing,
    opponent_x: Scalar,
    stage: StageView,
    e: Explod,
)
    requires
        air.frames_of(e.anim).len() <= usize::MAX,
    ensures
        ({
            let before = explods_ticked(explods, air, owner_pos, owner_facing, opponent_x, stage);
            let after = explods_ticked(
                explods.push(e),
                air,
                owner_pos,
                owner_facing,
                opponent_x,
                stage,
            );
            let frames = air.frames_of(e.anim);
            let last = e.elem == frames.len() - 1 && frames[e.elem as int].ticks > 0 && e.elem_time
                + 1 >= frames[e.elem as int].ticks;
            let stays = e.remaining > 0 && frames.len() > 0 && !(e.play_once && last);
            &&& explods_ticked(
                Seq::empty(),
                air,
                owner_pos,
                owner_facing,
                opponent_x,
                stage,
            ).len() == 0
            &&& e.elem_time < i32::MAX && !stays ==> after == before
            &&& e.elem_time < i32::MAX && stays ==> {
                &&& after.len() == before.len() + 1 && after.drop_last() =~= before
                &&& aged(
                    e,
                    after.last(),
                    frames,
                    owner_pos,
                    owner_facing,
                    opponent_x,
                    stage,
                )
            }
        }),
{
    assert(explods.push(e).drop_last() =~= explods);
}

/// Every explod that is there one tick on was there before, with the same id, action,
/// priority and anchor.
pub proof fn ticked_explods_were_there(
    explods: Seq<Explod>,
    air: AirFile,
    owner_pos: Vec2,
    owner_facing: Facing,
    opponent_x: Scalar,
    stage: StageView,
    i: int,
) -> (j: int)
    requires
        0 <= i < explods_ticked(explods, air, owner_pos, owner_facing, opponent_x, stage).len(),
    ensures
        0 <= j < explods.len(),
        ({
            let e = explods_ticked(explods, air, owner_pos, owner_facing, opponent_x, stage)[i];
            &&& e.id == explods[j].id && e.anim == explods[j].anim
            &&& e.sprpriority == explods[j].sprpriority
            &&& e.pos_type == explods[j].pos_type
            &&& e.anchor_offset == explods[j].anchor_offset
            &&& e.owner == explods[j].owner && e.play_once == explods[j].play_once
            &&& e.remaining == explods[j].remaining - 1
        }),
    decreases explods.len(),
{
    let rest = explods.drop_last();
    let before = explods_ticked(rest, air, owner_pos, owner_facing, opponent_x, stage);
    if i < before.len() {
        let j = ticked_explods_were_there(
            rest,
            air,
            owner_pos,
            owner_facing,
            opponent_x,
            stage,
            i,
        );
        assert(rest[j] == explods[j]);
        j
    } else {
        explods.len() - 1
    }
}

} // verus!
