//! Helpers: child entities that run their owner's states.

use vstd::prelude::*;

use crate::character::{facing_opposite, Character, Facing};
use crate::report::HelperSpawn;
use crate::scalar::{Placement, Scalar, Vec2};
use crate::stage::{place, placed, StageView};

verus! {

/// Helpers a player may own at once.
pub const MAX_HELPERS_PER_PLAYER: usize = 56;

/// A live helper.
#[derive(Debug, Clone, Copy, PartialEq)]
pub struct Helper {
    /// The entity.
    pub character: Character,
    /// The id it is addressed by.
    pub helper_id: i32,
    /// Frames it has left to live, negative for no limit.
    pub remaining: i32,
}

impl Helper {
    /// World position.
    pub fn pos(&self) -> (r: Vec2)
        ensures
            r == self.character.pos,
    {
        self.character.pos
    }

    /// Current action.
    pub fn anim(&self) -> (r: i32)
        ensures
            r == self.character.anim,
    {
        self.character.anim
    }

    /// The id it is addressed by.
    pub fn helper_id(&self) -> (r: i32)
        ensures
            r == self.helper_id,
    {
        self.helper_id
    }

    /// Frames it has left to live, negative for no limit.
    pub fn remaining(&self) -> (r: i32)
        ensures
            r == self.remaining,
    {
        self.remaining
    }
}

/// A helper for the host to make: a fresh entity with its owner's constants,
/// placed, faced, and sent into its start state.
#[derive(Debug, Clone, Copy, PartialEq)]
pub struct HelperBirth {
    /// Where it stands.
    pub at: Placement,
    /// Which way it faces.
    pub facing: Facing,
    /// The state it enters.
    pub state_no: i32,
}

/// What became of a helper on its tick.
#[derive(Debug, Clone, Copy, PartialEq)]
pub struct HelperTick {
    /// The entity after its tick.
    pub character: Character,
    /// Whether it asked to be removed.
    pub destroy_self: bool,
}

/// The helper that a request stands for. It faces as its owner does, or against
/// it where the request says -1.
pub open spec fn helper_birth(
    owner: Character,
    spawn: HelperSpawn,
    opponent_x: Scalar,
    stage: StageView,
) -> HelperBirth {
    HelperBirth {
        at: placed(spawn.pos_type, spawn.pos, owner.pos, owner.facing, opponent_x, stage),
        facing: if spawn.facing == -1 {
            owner.facing.flipped()
        } else {
            owner.facing
        },
        state_no: spawn.state_no,
    }
}

/// How many of `asked` requests fit beside `owned` entities under `cap`.
pub open spec fn fitting(owned: nat, asked: nat, cap: nat) -> nat {
    if owned >= cap {
        0
    } else if owned + asked <= cap {
        asked
    } else {
        (cap - owned) as nat
    }
}

/// How many requests fit under a cap.
pub fn room_for(owned: usize, asked: usize, cap: usize) -> (r: usize)
    ensures
        r == fitting(owned as nat, asked as nat, cap as nat),
{
    if owned >= cap {
        0
    } else if asked <= cap - owned {
        asked
    } else {
        cap - owned
    }
}

/// The helpers to make for `spawns`: as many, from the first on, as fit.
pub open spec fn helper_births(
    owner: Character,
    owned: nat,
    spawns: Seq<HelperSpawn>,
    opponent_x: Scalar,
    stage: StageView,
) -> Seq<HelperBirth> {
    Seq::new(
        fitting(owned, spawns.len(), MAX_HELPERS_PER_PLAYER as nat),
        |i: int| helper_birth(owner, spawns[i], opponent_x, stage),
    )
}

/// Works out the helpers to make for a player that owns `owned` already.
pub fn plan_helpers(
    owner: &Character,
    owned: usize,
    spawns: &Vec<HelperSpawn>,
    opponent_x: Scalar,
    stage: StageView,
) -> (r: Vec<HelperBirth>)
    ensures
        r@ == helper_births(*owner, owned as nat, spawns@, opponent_x, stage),
{
    let n: usize = room_for(owned, spawns.len(), MAX_HELPERS_PER_PLAYER);
    let mut births: Vec<HelperBirth> = Vec::new();
    let mut i: usize = 0;
    while i < n
        invariant
            i <= n <= spawns@.len(),
            births@.len() == i,
            forall|k: int|
                0 <= k < i ==> #[trigger] births@[k] == helper_birth(
                    *owner,
                    spawns@[k],
                    opponent_x,
                    stage,
                ),
        decreases n - i,
    {
        let spawn = spawns[i];
        let facing = if spawn.facing == -1 {
            facing_opposite(owner.facing)
        } else {
            owner.facing
        };
        births.push(
            HelperBirth {
                at: place(spawn.pos_type, spawn.pos, owner.pos, owner.facing, opponent_x, stage),
                facing,
                state_no: spawn.state_no,
            },
        );
        i = i + 1;
    }
    assert(births@ =~= helper_births(*owner, owned as nat, spawns@, opponent_x, stage));
    births
}

/// The helpers with the newly made ones behind them.
pub open spec fn helpers_spawned(
    helpers: Seq<Helper>,
    spawns: Seq<HelperSpawn>,
    born: Seq<Character>,
) -> Seq<Helper> {
    helpers + Seq::new(
        born.len(),
        |i: int|
            Helper {
                character: born[i],
                helper_id: spawns[i].helper_id,
                remaining: spawns[i].remove_time,
            },
    )
}

/// Takes in the helpers that the host made for `spawns`.
pub fn spawn_helpers(helpers: &mut Vec<Helper>, spawns: &Vec<HelperSpawn>, born: &Vec<Character>)
    requires
        born@.len() <= spawns@.len(),
    ensures
        final(helpers)@ == helpers_spawned(old(helpers)@, spawns@, born@),
{
    let mut i: usize = 0;
    assert(helpers@ =~= helpers_spawned(old(helpers)@, spawns@, born@.take(0)));
    while i < born.len()
        invariant
            i <= born@.len() <= spawns@.len(),
            helpers@ == helpers_spawned(old(helpers)@, spawns@, born@.take(i as int)),
        decreases born.len() - i,
    {
        helpers.push(
            Helper {
                character: born[i],
                helper_id: spawns[i].helper_id,
                remaining: spawns[i].remove_time,
            },
        );
        i = i + 1;
        assert(helpers@ =~= helpers_spawned(old(helpers)@, spawns@, born@.take(i as int)));
    }
    assert(born@.take(born@.len() as int) =~= born@);
}

/// A lifetime one tick on: a limit counts down, and `None` means it has run out.
/// A negative lifetime is no limit.
pub open spec fn lifetime_counted(remaining: i32) -> Option<i32> {
    if remaining < 0 {
        Some(remaining)
    } else if remaining == 0 {
        None
    } else {
        Some((remaining - 1) as i32)
    }
}

/// Counts a lifetime down.
pub fn count_lifetime(remaining: i32) -> (r: Option<i32>)
    ensures
        r == lifetime_counted(remaining),
{
    if remaining < 0 {
        Some(remaining)
    } else if remaining == 0 {
        None
    } else {
        Some(remaining - 1)
    }
}

/// The helpers whose life has not run out, counted down, in order.
pub open spec fn helpers_due(helpers: Seq<Helper>) -> Seq<Helper>
    decreases helpers.len(),
{
    if helpers.len() == 0 {
        Seq::empty()
    } else {
        let before = helpers_due(helpers.drop_last());
        match lifetime_counted(helpers.last().remaining) {
            Some(remaining) => before.push(Helper { remaining, ..helpers.last() }),
            None => before,
        }
    }
}

/// The helpers that tick on this frame.
pub fn due_helpers(helpers: &Vec<Helper>) -> (r: Vec<Helper>)
    ensures
        r@ == helpers_due(helpers@),
{
    let mut due: Vec<Helper> = Vec::new();
    let mut i: usize = 0;
    assert(due@ =~= helpers_due(helpers@.take(0)));
    while i < helpers.len()
        invariant
            i <= helpers@.len(),
            due@ == helpers_due(helpers@.take(i as int)),
        decreases helpers.len() - i,
    {
        proof {
            assert(helpers@.take(i + 1).drop_last() =~= helpers@.take(i as int));
        }
        let mut helper = helpers[i];
        if let Some(remaining) = count_lifetime(helper.remaining) {
            helper.remaining = remaining;
            due.push(helper);
        }
        i = i + 1;
    }
    assert(helpers@.take(helpers@.len() as int) =~= helpers@);
    due
}

/// The helpers after their ticks: those that asked to be removed are gone.
pub open spec fn helpers_kept(due: Seq<Helper>, ticks: Seq<HelperTick>) -> Seq<Helper>
    decreases due.len(),
{
    if due.len() == 0 || ticks.len() != due.len() {
        Seq::empty()
    } else {
        let before = helpers_kept(due.drop_last(), ticks.drop_last());
        if ticks.last().destroy_self {
            before
        } else {
            before.push(Helper { character: ticks.last().character, ..due.last() })
        }
    }
}

/// Takes in what became of the helpers that were due.
pub fn keep_helpers(due: &Vec<Helper>, ticks: &Vec<HelperTick>) -> (r: Vec<Helper>)
    requires
        ticks@.len() == due@.len(),
    ensures
        r@ == helpers_kept(due@, ticks@),
{
    let mut kept: Vec<Helper> = Vec::new();
    let mut i: usize = 0;
    assert(kept@ =~= helpers_kept(due@.take(0), ticks@.take(0)));
    while i < due.len()
        invariant
            i <= due@.len() == ticks@.len(),
            kept@ == helpers_kept(due@.take(i as int), ticks@.take(i as int)),
        decreases due.len() - i,
    {
        proof {
            assert(due@.take(i + 1).drop_last() =~= due@.take(i as int));
            assert(ticks@.take(i + 1).drop_last() =~= ticks@.take(i as int));
        }
        if !ticks[i].destroy_self {
            let mut helper = due[i];
            helper.character = ticks[i].character;
            kept.push(helper);
        }
        i = i + 1;
    }
    assert(due@.take(due@.len() as int) =~= due@);
    assert(ticks@.take(ticks@.len() as int) =~= ticks@);
    kept
}

/// Spawning keeps to the cap.
pub proof fn spawning_is_bounded(
    helpers: Seq<Helper>,
    owner: Character,
    spawns: Seq<HelperSpawn>,
    opponent_x: Scalar,
    stage: StageView,
    born: Seq<Character>,
)
    requires
        helpers.len() <= MAX_HELPERS_PER_PLAYER,
        born.len() == helper_births(owner, helpers.len(), spawns, opponent_x, stage).len(),
    ensures
        helpers_spawned(helpers, spawns, born).len() <= MAX_HELPERS_PER_PLAYER,
{
}

/// A tick never makes more helpers.
pub proof fn ticking_is_bounded(helpers: Seq<Helper>, ticks: Seq<HelperTick>)
    ensures
        helpers_due(helpers).len() <= helpers.len(),
        helpers_kept(helpers_due(helpers), ticks).len() <= helpers.len(),
{
    due_is_bounded(helpers);
    kept_is_bounded(helpers_due(helpers), ticks);
}

/// No more helpers are due than there are.
proof fn due_is_bounded(helpers: Seq<Helper>)
    ensures
        helpers_due(helpers).len() <= helpers.len(),
    decreases helpers.len(),
{
    if helpers.len() > 0 {
        due_is_bounded(helpers.drop_last());
    }
}

/// No more helpers are kept than were due.
proof fn kept_is_bounded(due: Seq<Helper>, ticks: Seq<HelperTick>)
    ensures
        helpers_kept(due, ticks).len() <= due.len(),
    decreases due.len(),
{
    if due.len() > 0 && ticks.len() == due.len() {
        kept_is_bounded(due.drop_last(), ticks.drop_last());
    }
}

/// Helpers that all ask to be removed are all gone.
pub proof fn destroyed_helpers_are_gone(due: Seq<Helper>, ticks: Seq<HelperTick>)
    requires
        forall|i: int| 0 <= i < ticks.len() ==> (#[trigger] ticks[i]).destroy_self,
    ensures
        helpers_kept(due, ticks).len() == 0,
    decreases due.len(),
{
    if due.len() > 0 && ticks.len() == due.len() {
        assert(ticks[ticks.len() - 1].destroy_self);
        assert forall|i: int| 0 <= i < ticks.drop_last().len() implies (
        #[trigger] ticks.drop_last()[i]).destroy_self by {
            assert(ticks.drop_last()[i] == ticks[i]);
        }
        destroyed_helpers_are_gone(due.drop_last(), ticks.drop_last());
    }
}

/// A lifetime `n` ticks on; `None` once it has run out.
pub open spec fn lifetime_after(remaining: i32, n: nat) -> Option<i32>
    decreases n,
{
    if n == 0 {
        Some(remaining)
    } else {
        match lifetime_after(remaining, (n - 1) as nat) {
            Some(left) => lifetime_counted(left),
            None => None,
        }
    }
}

/// A limited lifetime lasts for exactly as many ticks as it says, and one without
/// a limit for ever.
pub proof fn lifetime_lasts(remaining: i32, n: nat)
    ensures
        remaining < 0 ==> lifetime_after(remaining, n) == Some(remaining),
        remaining >= 0 ==> lifetime_after(remaining, n) == if n <= remaining {
            Some((remaining - n) as i32)
        } else {
            None
        },
    decreases n,
{
    if n > 0 {
        lifetime_lasts(remaining, (n - 1) as nat);
    }
}

/// Helpers are made as they were ordered: as many, from the first on, as there is
/// room for; each where it was placed, in the state that was named, and facing as its
/// owner does or, on demand, against it.
pub proof fn helpers_are_made_to_order(
    owner: Character,
    owned: nat,
    spawns: Seq<HelperSpawn>,
    opponent_x: Scalar,
    stage: StageView,
)
    ensures
        ({
            let births = helper_births(owner, owned, spawns, opponent_x, stage);
            let room = MAX_HELPERS_PER_PLAYER - owned;
            &&& births.len() == if room <= 0 {
                0
            } else if spawns.len() <= room {
                spawns.len() as int
            } else {
                room
            }
            &&& forall|i: int|
                0 <= i < births.len() ==> {
                    &&& (#[trigger] births[i]).state_no == spawns[i].state_no
                    &&& births[i].at == placed(
                        spawns[i].pos_type,
                        spawns[i].pos,
                        owner.pos,
                        owner.facing,
                        opponent_x,
                        stage,
                    )
                    &&& births[i].facing == owner.facing <==> spawns[i].facing != -1
                }
        }),
{
}

/// The helpers that were made stand behind those before, under the ids and with the
/// lifetimes that were ordered.
pub proof fn made_helpers_join(
    helpers: Seq<Helper>,
    spawns: Seq<HelperSpawn>,
    born: Seq<Character>,
)
    requires
        born.len() <= spawns.len(),
    ensures
        ({
            let after = helpers_spawned(helpers, spawns, born);
            let n = helpers.len();
            &&& after.len() == n + born.len()
            &&& forall|i: int| 0 <= i < n ==> #[trigger] after[i] == helpers[i]
            &&& forall|i: int|
                0 <= i < born.len() ==> {
                    &&& (#[trigger] after[n + i]).character == born[i]
                    &&& after[n + i].helper_id == spawns[i].helper_id
                    &&& after[n + i].remaining == spawns[i].remove_time
                }
        }),
{
}

/// Of one helper more, exactly that helper is due in addition, behind the others:
/// with one tick less to live where its life is limited, and not at all where its
/// life has run out.
pub proof fn due_helpers_age(helpers: Seq<Helper>, h: Helper)
    ensures
        helpers_due(Seq::empty()).len() == 0,
        h.remaining < 0 ==> helpers_due(helpers.push(h)) == helpers_due(helpers).push(h),
        h.remaining == 0 ==> helpers_due(helpers.push(h)) == helpers_due(helpers),
        h.remaining > 0 ==> helpers_due(helpers.push(h)) == helpers_due(helpers).push(
            Helper { remaining: (h.remaining - 1) as i32, ..h },
        ),
{
    assert(helpers.push(h).drop_last() =~= helpers);
}

/// Of one helper more, exactly that helper stays in addition, as its tick left it,
/// unless it asked to be removed.
pub proof fn ticked_helpers_stay(
    due: Seq<Helper>,
    ticks: Seq<HelperTick>,
    h: Helper,
    tick: HelperTick,
)
    requires
        due.len() == ticks.len(),
    ensures
        helpers_kept(Seq::empty(), Seq::empty()).len() == 0,
        tick.destroy_self ==> helpers_kept(due.push(h), ticks.push(tick)) == helpers_kept(
            due,
            ticks,
        ),
        !tick.destroy_self ==> helpers_kept(due.push(h), ticks.push(tick)) == helpers_kept(
            due,
            ticks,
        ).push(Helper { character: tick.character, ..h }),
{
    assert(due.push(h).drop_last() =~= due);
    assert(ticks.push(tick).drop_last() =~= ticks);
}

} // verus!
