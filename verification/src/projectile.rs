//! Projectiles: moving attacks that run no states.

use vstd::prelude::*;

use crate::air::{AirFile, AnimFrame};
use crate::arith::{saturated, saturating_sum};
use crate::character::{Character, Facing};
use crate::helper::{room_for, fitting, count_lifetime, lifetime_counted};
use crate::report::ProjectileSpawn;
use crate::scalar::{Placement, Scalar, Vec2};

verus! {

/// Projectiles a player may own at once.
pub const MAX_PROJECTILES_PER_PLAYER: usize = 64;

/// The pattern of 80: how far past an edge a projectile may fly.
pub const OFFSCREEN_MARGIN: u32 = 0x42a0_0000;

/// A live projectile.
#[derive(Debug, Clone, Copy, PartialEq)]
pub struct Projectile {
    /// The entity, with the attack it carries.
    pub character: Character,
    /// Its id.
    pub proj_id: i32,
    /// Its velocity.
    pub velocity: Vec2,
    /// Frames it has left to live, negative for no limit.
    pub remaining: i32,
}

impl Projectile {
    /// World position.
    pub fn pos(&self) -> (r: Vec2)
        ensures
            r == self.character.pos,
    {
        self.character.pos
    }

    /// Current action.
    pub fn anim(&self) -> (r: i32)
        ensures
            r == self.character.anim,
    {
        self.character.anim
    }

    /// Its id.
    pub fn proj_id(&self) -> (r: i32)
        ensures
            r == self.proj_id,
    {
        self.proj_id
    }
}

/// A projectile for the host to make: a fresh entity with its owner's constants,
/// at a place. The rest is set by the coordinator.
#[derive(Debug, Clone, Copy, PartialEq)]
pub struct ProjectileBirth {
    /// Where it stands.
    pub at: Placement,
}

/// The projectile that a request stands for: at an offset from its owner, along
/// the owner's facing.
pub open spec fn projectile_birth(owner: Character, spawn: ProjectileSpawn) -> ProjectileBirth {
    ProjectileBirth {
        at: Placement {
            anchor: owner.pos,
            shift: Vec2 { x: owner.facing.applied(spawn.pos.x), y: spawn.pos.y },
        },
    }
}

/// The projectiles to make for `spawns`: as many, from the first on, as fit.
pub open spec fn projectile_births(
    owner: Character,
    owned: nat,
    spawns: Seq<ProjectileSpawn>,
) -> Seq<ProjectileBirth> {
    Seq::new(
        fitting(owned, spawns.len(), MAX_PROJECTILES_PER_PLAYER as nat),
        |i: int| projectile_birth(owner, spawns[i]),
    )
}

/// Works out the projectiles to make for a player that owns `owned` already.
pub fn plan_projectiles(owner: &Character, owned: usize, spawns: &Vec<ProjectileSpawn>) -> (r: Vec<
    ProjectileBirth,
>)
    ensures
        r@ == projectile_births(*owner, owned as nat, spawns@),
{
    let n: usize = room_for(owned, spawns.len(), MAX_PROJECTILES_PER_PLAYER);
    let mut births: Vec<ProjectileBirth> = Vec::new();
    let mut i: usize = 0;
    while i < n
        invariant
            i <= n <= spawns@.len(),
            births@.len() == i,
            forall|k: int|
                0 <= k < i ==> #[trigger] births@[k] == projectile_birth(*owner, spawns@[k]),
        decreases n - i,
    {
        let spawn = spawns[i];
        births.push(
            ProjectileBirth {
                at: Placement {
                    anchor: owner.pos,
                    shift: Vec2 { x: owner.facing.apply(spawn.pos.x), y: spawn.pos.y },
                },
            },
        );
        i = i + 1;
    }
    assert(births@ =~= projectile_births(*owner, owned as nat, spawns@));
    births
}

/// A newly made projectile: it faces as its owner does, starts its action from
/// the first frame, carries its own attack, and flies along its owner's facing.
pub open spec fn projectile_born(
    owner: Character,
    spawn: ProjectileSpawn,
    made: Character,
) -> Projectile {
    Projectile {
        character: Character {
            facing: owner.facing,
            anim: spawn.anim,
            anim_elem: 0,
            anim_elem_time: 0,
            active_hitdef: Some(spawn.hitdef),
            ..made
        },
        proj_id: spawn.id,
        velocity: Vec2 { x: owner.facing.applied(spawn.velocity.x), y: spawn.velocity.y },
        remaining: spawn.remove_time,
    }
}

/// The projectiles with the newly made ones behind them.
pub open spec fn projectiles_spawned(
    projectiles: Seq<Projectile>,
    owner: Character,
    spawns: Seq<ProjectileSpawn>,
    made: Seq<Character>,
) -> Seq<Projectile> {
    projectiles + Seq::new(made.len(), |i: int| projectile_born(owner, spawns[i], made[i]))
}

/// Takes in the projectiles that the host made for `spawns`.
pub fn spawn_projectiles(
    projectiles: &mut Vec<Projectile>,
    owner: &Character,
    spawns: &Vec<ProjectileSpawn>,
    made: &Vec<Character>,
)
    requires
        made@.len() <= spawns@.len(),
    ensures
        final(projectiles)@ == projectiles_spawned(old(projectiles)@, *owner, spawns@, made@),
{
    let mut i: usize = 0;
    assert(projectiles@ =~= projectiles_spawned(old(projectiles)@, *owner, spawns@, made@.take(0)));
    while i < made.len()
        invariant
            i <= made@.len() <= spawns@.len(),
            projectiles@ == projectiles_spawned(
                old(projectiles)@,
                *owner,
                spawns@,
                made@.take(i as int),
            ),
        decreases made.len() - i,
    {
        let spawn = spawns[i];
        let mut character = made[i];
        character.facing = owner.facing;
        character.anim = spawn.anim;
        character.anim_elem = 0;
        character.anim_elem_time = 0;
        character.active_hitdef = Some(spawn.hitdef);
        projectiles.push(
            Projectile {
                character,
                proj_id: spawn.id,
                velocity: Vec2 { x: owner.facing.apply(spawn.velocity.x), y: spawn.velocity.y },
                remaining: spawn.remove_time,
            },
        );
        i = i + 1;
        assert(projectiles@ =~= projectiles_spawned(
            old(projectiles)@,
            *owner,
            spawns@,
            made@.take(i as int),
        ));
    }
    assert(made@.take(made@.len() as int) =~= made@);
}

/// The cursor of a projectile one tick on. A cursor below the first frame shows
/// it, one past the end starts over, a frame with no positive duration holds, and
/// the action loops.
pub open spec fn projectile_cursor(frames: Seq<AnimFrame>, elem: i32, elem_time: i32) -> (
    i32,
    i32,
) {
    let time = saturated(elem_time + 1);
    let shown = if elem < 0 {
        0
    } else {
        elem as int
    };
    if shown >= frames.len() {
        (0, 0)
    } else if frames[shown].ticks <= 0 || time < frames[shown].ticks {
        (elem, time)
    } else if 0 <= elem + 1 < frames.len() && elem < i32::MAX {
        ((elem + 1) as i32, 0)
    } else {
        (0, 0)
    }
}

/// A projectile's entity with its animation one tick on. Where the action is
/// missing or empty nothing changes.
pub open spec fn projectile_advanced(c: Character, frames: Seq<AnimFrame>) -> Character {
    if frames.len() == 0 {
        c
    } else {
        let (anim_elem, anim_elem_time) = projectile_cursor(frames, c.anim_elem, c.anim_elem_time);
        Character { anim_elem, anim_elem_time, ..c }
    }
}

/// Moves a projectile's animation one tick on.
pub fn advance_projectile_frame(proj: &mut Character, air: &AirFile)
    ensures
        *final(proj) == projectile_advanced(*old(proj), air.frames_of(old(proj).anim)),
{
    match air.action(proj.anim) {
        None => {},
        Some(action) => {
            let len: usize = action.frames.len();
            if len == 0 {
                return ;
            }
            proj.anim_elem_time = saturating_sum(proj.anim_elem_time, 1);
            let shown: usize = if proj.anim_elem < 0 {
                0
            } else {
                proj.anim_elem as usize
            };
            if shown >= len {
                proj.anim_elem = 0;
                proj.anim_elem_time = 0;
                return ;
            }
            let ticks: i32 = action.frames[shown].ticks;
            if ticks > 0 && proj.anim_elem_time >= ticks {
                proj.anim_elem_time = 0;
                if proj.anim_elem >= -1 && proj.anim_elem < i32::MAX {
                    let next: i32 = proj.anim_elem + 1;
                    proj.anim_elem = if (next as usize) < len {
                        next
                    } else {
                        0
                    };
                } else {
                    proj.anim_elem = 0;
                }
            }
        },
    }
}

/// The projectiles whose life has not run out, counted down, in order.
pub open spec fn projectiles_due(projectiles: Seq<Projectile>) -> Seq<Projectile>
    decreases projectiles.len(),
{
    if projectiles.len() == 0 {
        Seq::empty()
    } else {
        let before = projectiles_due(projectiles.drop_last());
        match lifetime_counted(projectiles.last().remaining) {
            Some(remaining) => before.push(Projectile { remaining, ..projectiles.last() }),
            None => before,
        }
    }
}

/// The projectiles that move on this frame.
pub fn due_projectiles(projectiles: &Vec<Projectile>) -> (r: Vec<Projectile>)
    ensures
        r@ == projectiles_due(projectiles@),
{
    let mut due: Vec<Projectile> = Vec::new();
    let mut i: usize = 0;
    assert(due@ =~= projectiles_due(projectiles@.take(0)));
    while i < projectiles.len()
        invariant
            i <= projectiles@.len(),
            due@ == projectiles_due(projectiles@.take(i as int)),
        decreases projectiles.len() - i,
    {
        proof {
            assert(projectiles@.take(i + 1).drop_last() =~= projectiles@.take(i as int));
        }
        let mut projectile = projectiles[i];
        if let Some(remaining) = count_lifetime(projectile.remaining) {
            projectile.remaining = remaining;
            due.push(projectile);
        }
        i = i + 1;
    }
    assert(projectiles@.take(projectiles@.len() as int) =~= projectiles@);
    due
}

/// The steps that `due` projectiles take: each from where it is, by its velocity.
pub open spec fn steps_of(due: Seq<Projectile>) -> Seq<Placement> {
    Seq::new(
        due.len(),
        |i: int| Placement { anchor: due[i].character.pos, shift: due[i].velocity },
    )
}

/// Works out the steps of the projectiles that move.
pub fn plan_steps(due: &Vec<Projectile>) -> (r: Vec<Placement>)
    ensures
        r@ == steps_of(due@),
{
    let mut steps: Vec<Placement> = Vec::new();
    let mut i: usize = 0;
    while i < due.len()
        invariant
            i <= due@.len(),
            steps@.len() == i,
            forall|k: int|
                0 <= k < i ==> #[trigger] steps@[k] == (Placement {
                    anchor: due@[k].character.pos,
                    shift: due@[k].velocity,
                }),
        decreases due.len() - i,
    {
        steps.push(Placement { anchor: due[i].character.pos, shift: due[i].velocity });
        i = i + 1;
    }
    assert(steps@ =~= steps_of(due@));
    steps
}

/// A projectile that has arrived at `pos`, with its animation one tick on.
pub open spec fn projectile_moved(p: Projectile, pos: Vec2, air: AirFile) -> Projectile {
    Projectile {
        character: projectile_advanced(
            Character { pos, ..p.character },
            air.frames_of(p.character.anim),
        ),
        ..p
    }
}

/// The projectiles that have arrived at the points `moved` and are still between
/// the bounds, in order.
pub open spec fn projectiles_moved(
    due: Seq<Projectile>,
    moved: Seq<Vec2>,
    air: AirFile,
    left: Scalar,
    right: Scalar,
) -> Seq<Projectile>
    decreases due.len(),
{
    if due.len() == 0 || moved.len() != due.len() {
        Seq::empty()
    } else {
        let before = projectiles_moved(due.drop_last(), moved.drop_last(), air, left, right);
        if left.at_most(moved.last().x) && moved.last().x.at_most(right) {
            before.push(projectile_moved(due.last(), moved.last(), air))
        } else {
            before
        }
    }
}

/// Takes in where the projectiles that were due have arrived, moves their
/// animations on, and drops those that have left the bounds.
pub fn move_projectiles(
    due: &Vec<Projectile>,
    moved: &Vec<Vec2>,
    air: &AirFile,
    left: Scalar,
    right: Scalar,
) -> (r: Vec<Projectile>)
    requires
        moved@.len() == due@.len(),
    ensures
        r@ == projectiles_moved(due@, moved@, *air, left, right),
{
    let mut kept: Vec<Projectile> = Vec::new();
    let mut i: usize = 0;
    assert(kept@ =~= projectiles_moved(due@.take(0), moved@.take(0), *air, left, right));
    while i < due.len()
        invariant
            i <= due@.len() == moved@.len(),
            kept@ == projectiles_moved(
                due@.take(i as int),
                moved@.take(i as int),
                *air,
                left,
                right,
            ),
        decreases due.len() - i,
    {
        proof {
            assert(due@.take(i + 1).drop_last() =~= due@.take(i as int));
            assert(moved@.take(i + 1).drop_last() =~= moved@.take(i as int));
        }
        let mut projectile = due[i];
        projectile.character.pos = moved[i];
        advance_projectile_frame(&mut projectile.character, air);
        if left.le(moved[i].x) && moved[i].x.le(right) {
            kept.push(projectile);
        }
        i = i + 1;
    }
    assert(due@.take(due@.len() as int) =~= due@);
    assert(moved@.take(moved@.len() as int) =~= moved@);
    kept
}

/// Spawning keeps to the cap.
pub proof fn spawning_is_bounded(
    projectiles: Seq<Projectile>,
    owner: Character,
    spawns: Seq<ProjectileSpawn>,
    made: Seq<Character>,
)
    requires
        projectiles.len() <= MAX_PROJECTILES_PER_PLAYER,
        made.len() == projectile_births(owner, projectiles.len(), spawns).len(),
    ensures
        projectiles_spawned(projectiles, owner, spawns, made).len() <= MAX_PROJECTILES_PER_PLAYER,
{
}

/// A tick never makes more projectiles, and keeps only those within the bounds.
pub proof fn moving_is_bounded(
    projectiles: Seq<Projectile>,
    moved: Seq<Vec2>,
    air: AirFile,
    left: Scalar,
    right: Scalar,
)
    ensures
        ({
            let after = projectiles_moved(projectiles_due(projectiles), moved, air, left, right);
            &&& after.len() <= projectiles.len()
            &&& forall|i: int|
                0 <= i < after.len() ==> left.at_most((#[trigger] after[i]).character.pos.x)
                    && after[i].character.pos.x.at_most(right)
        }),
{
    due_is_bounded(projectiles);
    moved_is_bounded(projectiles_due(projectiles), moved, air, left, right);
}

/// No more projectiles are due than there are.
proof fn due_is_bounded(projectiles: Seq<Projectile>)
    ensures
        projectiles_due(projectiles).len() <= projectiles.len(),
    decreases projectiles.len(),
{
    if projectiles.len() > 0 {
        due_is_bounded(projectiles.drop_last());
    }
}

/// No more projectiles are kept than were due, and all of them are within the
/// bounds.
proof fn moved_is_bounded(
    due: Seq<Projectile>,
    moved: Seq<Vec2>,
    air: AirFile,
    left: Scalar,
    right: Scalar,
)
    ensures
        projectiles_moved(due, moved, air, left, right).len() <= due.len(),
        forall|i: int|
            0 <= i < projectiles_moved(due, moved, air, left, right).len() ==> left.at_most(
                (#[trigger] projectiles_moved(due, moved, air, left, right)[i]).character.pos.x,
            ) && projectiles_moved(due, moved, air, left, right)[i].character.pos.x.at_most(right),
    decreases due.len(),
{
    if due.len() > 0 && moved.len() == due.len() {
        moved_is_bounded(due.drop_last(), moved.drop_last(), air, left, right);
    }
}

/// Projectiles are made as they were ordered: as many, from the first on, as there is
/// room for, each off its owner and the way its owner faces.
pub proof fn projectiles_are_made_to_order(
    owner: Character,
    owned: nat,
    spawns: Seq<ProjectileSpawn>,
)
    ensures
        ({
            let births = projectile_births(owner, owned, spawns);
            let room = MAX_PROJECTILES_PER_PLAYER - owned;
            &&& births.len() == if room <= 0 {
                0
            } else if spawns.len() <= room {
                spawns.len() as int
            } else {
                room
            }
            &&& forall|i: int|
                0 <= i < births.len() ==> {
                    &&& (#[trigger] births[i]).at.anchor == owner.pos
                    &&& births[i].at.shift.y == spawns[i].pos.y
                    &&& owner.facing == Facing::Right ==> births[i].at.shift.x == spawns[i].pos.x
                    &&& owner.facing == Facing::Left ==> births[i].at.shift.x
                        == spawns[i].pos.x.negated()
                }
        }),
{
}

/// The projectiles that were made stand behind those before: each with the id, the
/// lifetime, the action and the attack that were ordered, flying and facing the way
/// its owner faces.
pub proof fn made_projectiles_join(
    projectiles: Seq<Projectile>,
    owner: Character,
    spawns: Seq<ProjectileSpawn>,
    made: Seq<Character>,
)
    requires
        made.len() <= spawns.len(),
    ensures
        ({
            let after = projectiles_spawned(projectiles, owner, spawns, made);
            let n = projectiles.len();
            &&& after.len() == n + made.len()
            &&& forall|i: int| 0 <= i < n ==> #[trigger] after[i] == projectiles[i]
            &&& forall|i: int|
                0 <= i < made.len() ==> {
                    let p = #[trigger] after[n + i];
                    &&& p.proj_id == spawns[i].id
                    &&& p.remaining == spawns[i].remove_time
                    &&& p.velocity.y == spawns[i].velocity.y
                    &&& owner.facing == Facing::Right ==> p.velocity.x == spawns[i].velocity.x
                    &&& owner.facing == Facing::Left ==> p.velocity.x
                        == spawns[i].velocity.x.negated()
                    &&& p.character.facing == owner.facing
                    &&& p.character.anim == spawns[i].anim
                    &&& p.character.anim_elem == 0 && p.character.anim_elem_time == 0
                    &&& p.character.active_hitdef == Some(spawns[i].hitdef)
                    &&& p.character == (Character {
                        facing: p.character.facing,
                        anim: p.character.anim,
                        anim_elem: p.character.anim_elem,
                        anim_elem_time: p.character.anim_elem_time,
                        active_hitdef: p.character.active_hitdef,
                        ..made[i]
                    })
                }
        }),
{
}

/// Of one projectile more, exactly that projectile is due in addition, behind the
/// others: with one tick less to live where its life is limited, and not at all where
/// its life has run out.
pub proof fn due_projectiles_age(projectiles: Seq<Projectile>, p: Projectile)
    ensures
        projectiles_due(Seq::empty()).len() == 0,
        p.remaining < 0 ==> projectiles_due(projectiles.push(p)) == projectiles_due(
            projectiles,
        ).push(p),
        p.remaining == 0 ==> projectiles_due(projectiles.push(p)) == projectiles_due(projectiles),
        p.remaining > 0 ==> projectiles_due(projectiles.push(p)) == projectiles_due(
            projectiles,
        ).push(Projectile { remaining: (p.remaining - 1) as i32, ..p }),
{
    assert(projectiles.push(p).drop_last() =~= projectiles);
}

/// Of one projectile more, exactly that projectile flies on in addition, at the place
/// it has arrived at, as long as that lies between the edges. Nothing of it changes
/// but its place and its animation.
pub proof fn moved_projectiles_fly_on(
    due: Seq<Projectile>,
    moved: Seq<Vec2>,
    air: AirFile,
    left: Scalar,
    right: Scalar,
    p: Projectile,
    to: Vec2,
)
    requires
        due.len() == moved.len(),
    ensures
        ({
            let before = projectiles_moved(due, moved, air, left, right);
            let after = projectiles_moved(due.push(p), moved.push(to), air, left, right);
            &&& projectiles_moved(Seq::empty(), Seq::empty(), air, left, right).len() == 0
            &&& if left.at_most(to.x) && to.x.at_most(right) {
                let flown = after.last();
                &&& after.len() == before.len() + 1 && after.drop_last() =~= before
                &&& flown.proj_id == p.proj_id && flown.velocity == p.velocity
                &&& flown.remaining == p.remaining
                &&& flown.character == (Character {
                    pos: to,
                    anim_elem: flown.character.anim_elem,
                    anim_elem_time: flown.character.anim_elem_time,
                    ..p.character
                })
                &&& animates(p.character, flown.character, air.frames_of(p.character.anim))
            } else {
                after == before
            }
        }),
{
    assert(due.push(p).drop_last() =~= due);
    assert(moved.push(to).drop_last() =~= moved);
    cursors_loop(p.character, air.frames_of(p.character.anim));
}

/// Whether an animation cursor has moved one tick on: it stays on a frame for its
/// duration, and for ever where that is not positive; then it goes to the next frame,
/// and from the last to the first.
pub open spec fn animates(before: Character, after: Character, frames: Seq<AnimFrame>) -> bool {
    let n = frames.len() as int;
    let elem = before.anim_elem as int;
    let time = before.anim_elem_time;
    if n == 0 {
        after.anim_elem == before.anim_elem && after.anim_elem_time == before.anim_elem_time
    } else if 0 <= elem < n && elem < i32::MAX && time < i32::MAX {
        let ticks = frames[elem].ticks;
        if ticks <= 0 || time + 1 < ticks {
            after.anim_elem == elem && after.anim_elem_time == time + 1
        } else {
            &&& after.anim_elem_time == 0
            &&& after.anim_elem == if elem + 1 < n {
                elem + 1
            } else {
                0
            }
        }
    } else {
        elem >= n ==> after.anim_elem == 0 && after.anim_elem_time == 0
    }
}

/// A projectile's animation loops.
pub proof fn cursors_loop(c: Character, frames: Seq<AnimFrame>)
    ensures
        animates(c, projectile_advanced(c, frames), frames),
{
}

} // verus!
