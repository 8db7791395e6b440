//! Hit sparks: short-lived effects at the point of contact.

use vstd::prelude::*;

use crate::air::{effect_lifetime, lifetime_of, AirFile, AnimFrame, SpriteId, EFFECT_MAX_LIFETIME};
use crate::arith::{saturated, saturating_difference, saturating_sum};
use crate::scalar::{Offset, Vec2};

verus! {

/// Whose animations a spark is drawn from.
#[derive(Debug, Clone, Copy, PartialEq, Eq, Hash, Structural)]
pub enum EffectSide {
    /// Player 1's.
    P1,
    /// Player 2's.
    P2,
    /// The common effects'.
    Common,
}

/// A hit spark.
#[derive(Debug, Clone, Copy, PartialEq)]
pub struct Effect {
    /// Whose animations it is drawn from.
    pub side: EffectSide,
    /// The action it plays.
    pub anim: i32,
    /// Where it stands: the point of contact.
    pub pos: Vec2,
    /// The sprite of its current frame.
    pub sprite: SpriteId,
    /// The offset of its current frame.
    pub offset: Offset,
    /// Zero-based index of its current frame.
    pub elem: usize,
    /// Frames the current frame has been shown.
    pub elem_time: i32,
    /// Frames it has left to live.
    pub remaining: i32,
}

impl Effect {
    /// Zero-based index of the spark's current frame.
    pub fn elem(&self) -> (r: usize)
        ensures
            r == self.elem,
    {
        self.elem
    }

    /// Frames the spark has left to live.
    pub fn remaining(&self) -> (r: i32)
        ensures
            r == self.remaining,
    {
        self.remaining
    }
}

/// A spark on the first frame of `frames`.
pub open spec fn new_effect(
    side: EffectSide,
    anim: i32,
    frames: Seq<AnimFrame>,
    pos: Vec2,
) -> Effect {
    Effect {
        side,
        anim,
        pos,
        sprite: frames[0].sprite,
        offset: frames[0].offset,
        elem: 0,
        elem_time: 0,
        remaining: lifetime_of(frames),
    }
}

/// Starts action `anim` of `air` as a spark at `pos`; `None` where the action is
/// missing or empty.
pub fn start_effect(side: EffectSide, anim: i32, air: &AirFile, pos: Vec2) -> (r: Option<Effect>)
    ensures
        r == if air.frames_of(anim).len() == 0 {
            None
        } else {
            Some(new_effect(side, anim, air.frames_of(anim), pos))
        },
{
    match air.action(anim) {
        None => None,
        Some(action) => {
            if action.frames.len() == 0 {
                None
            } else {
                Some(
                    Effect {
                        side,
                        anim,
                        pos,
                        sprite: action.frames[0].sprite,
                        offset: action.frames[0].offset,
                        elem: 0,
                        elem_time: 0,
                        remaining: effect_lifetime(action),
                    },
                )
            }
        },
    }
}

/// The cursor of a spark one tick on. A spark plays once: on the last frame it
/// stays. A frame with no positive duration holds.
pub open spec fn effect_cursor(frames: Seq<AnimFrame>, elem: usize, elem_time: i32) -> (
    usize,
    i32,
) {
    let time = saturated(elem_time + 1);
    if elem >= frames.len() - 1 {
        ((frames.len() - 1) as usize, time)
    } else if frames[elem as int].ticks > 0 && time >= frames[elem as int].ticks {
        ((elem + 1) as usize, 0)
    } else {
        (elem, time)
    }
}

/// A spark with its animation one tick on; `None` where it has no frame to show.
pub open spec fn effect_advanced(fx: Effect, frames: Seq<AnimFrame>) -> Option<Effect> {
    if frames.len() == 0 {
        None
    } else {
        let (elem, elem_time) = effect_cursor(frames, fx.elem, fx.elem_time);
        Some(
            Effect {
                elem,
                elem_time,
                sprite: frames[elem as int].sprite,
                offset: frames[elem as int].offset,
                ..fx
            },
        )
    }
}

/// Moves a spark's animation one tick on and shows its frame. Returns whether to
/// keep the spark: not when its action is missing or empty.
pub fn advance_effect_frame(fx: &mut Effect, air: &AirFile) -> (r: bool)
    ensures
        (if r {
            Some(*final(fx))
        } else {
            None
        }) == effect_advanced(*old(fx), air.frames_of(old(fx).anim)),
        !r ==> *final(fx) == *old(fx),
{
    match air.action(fx.anim) {
        None => false,
        Some(action) => {
            if action.frames.len() == 0 {
                return false;
            }
            let last: usize = action.frames.len() - 1;
            fx.elem_time = saturating_sum(fx.elem_time, 1);
            if fx.elem >= last {
                fx.elem = last;
            } else {
                let ticks: i32 = action.frames[fx.elem].ticks;
                if ticks > 0 && fx.elem_time >= ticks {
                    fx.elem_time = 0;
                    fx.elem = fx.elem + 1;
                }
            }
            fx.sprite = action.frames[fx.elem].sprite;
            fx.offset = action.frames[fx.elem].offset;
            true
        },
    }
}

/// The frames a spark plays.
pub open spec fn effect_frames(
    fx: Effect,
    p1_air: AirFile,
    p2_air: AirFile,
    common: Option<AirFile>,
) -> Seq<AnimFrame> {
    match fx.side {
        EffectSide::P1 => p1_air.frames_of(fx.anim),
        EffectSide::P2 => p2_air.frames_of(fx.anim),
        EffectSide::Common => match common {
            Some(air) => air.frames_of(fx.anim),
            None => Seq::empty(),
        },
    }
}

/// A spark one tick on; `None` where it has expired or has no frame to show.
pub open spec fn effect_ticked(fx: Effect, frames: Seq<AnimFrame>) -> Option<Effect> {
    let left = saturated(fx.remaining - 1);
    if left <= 0 {
        None
    } else {
        effect_advanced(Effect { remaining: left, ..fx }, frames)
    }
}

/// The sparks that are still there one tick on, in order.
pub open spec fn effects_ticked(
    effects: Seq<Effect>,
    p1_air: AirFile,
    p2_air: AirFile,
    common: Option<AirFile>,
) -> Seq<Effect>
    decreases effects.len(),
{
    if effects.len() == 0 {
        Seq::empty()
    } else {
        let before = effects_ticked(effects.drop_last(), p1_air, p2_air, common);
        let fx = effects.last();
        match effect_ticked(fx, effect_frames(fx, p1_air, p2_air, common)) {
            Some(next) => before.push(next),
            None => before,
        }
    }
}

/// Moves every spark one tick on and drops those that have expired.
pub fn tick_effects(
    effects: &Vec<Effect>,
    p1_air: &AirFile,
    p2_air: &AirFile,
    common: &Option<AirFile>,
) -> (r: Vec<Effect>)
    ensures
        r@ == effects_ticked(effects@, *p1_air, *p2_air, *common),
{
    let mut kept: Vec<Effect> = Vec::new();
    let mut i: usize = 0;
    assert(effects@.take(0) =~= Seq::empty());
    assert(kept@ =~= effects_ticked(effects@.take(0), *p1_air, *p2_air, *common));
    while i < effects.len()
        invariant
            i <= effects@.len(),
            kept@ == effects_ticked(effects@.take(i as int), *p1_air, *p2_air, *common),
        decreases effects.len() - i,
    {
        proof {
            assert(effects@.take(i + 1).drop_last() =~= effects@.take(i as int));
        }
        let mut fx = effects[i];
        fx.remaining = saturating_difference(fx.remaining, 1);
        if fx.remaining > 0 {
            let keep = match fx.side {
                EffectSide::P1 => advance_effect_frame(&mut fx, p1_air),
                EffectSide::P2 => advance_effect_frame(&mut fx, p2_air),
                EffectSide::Common => match common {
                    Some(air) => advance_effect_frame(&mut fx, air),
                    None => false,
                },
            };
            if keep {
                kept.push(fx);
            }
        }
        i = i + 1;
    }
    assert(effects@.take(effects@.len() as int) =~= effects@);
    kept
}

/// The sparks `n` ticks on.
pub open spec fn effects_after(
    effects: Seq<Effect>,
    p1_air: AirFile,
    p2_air: AirFile,
    common: Option<AirFile>,
    n: nat,
) -> Seq<Effect>
    decreases n,
{
    if n == 0 {
        effects
    } else {
        effects_ticked(
            effects_after(effects, p1_air, p2_air, common, (n - 1) as nat),
            p1_air,
            p2_air,
            common,
        )
    }
}

/// Whether every spark of a list has at most `n` frames left.
#[verifier::opaque]
pub open spec fn live_at_most(effects: Seq<Effect>, n: int) -> bool {
    forall|i: int| 0 <= i < effects.len() ==> (#[trigger] effects[i]).remaining <= n
}

/// A tick takes one frame off the life of every spark it keeps.
pub proof fn tick_shortens(
    effects: Seq<Effect>,
    p1_air: AirFile,
    p2_air: AirFile,
    common: Option<AirFile>,
    n: int,
)
    requires
        live_at_most(effects, n),
    ensures
        live_at_most(effects_ticked(effects, p1_air, p2_air, common), n - 1),
        forall|i: int|
            0 <= i < effects_ticked(effects, p1_air, p2_air, common).len() ==> (
            #[trigger] effects_ticked(effects, p1_air, p2_air, common)[i]).remaining > 0,
        effects_ticked(effects, p1_air, p2_air, common).len() <= effects.len(),
    decreases effects.len(),
{
    reveal(live_at_most);
    if effects.len() > 0 {
        let rest = effects.drop_last();
        assert forall|i: int| 0 <= i < rest.len() implies (#[trigger] rest[i]).remaining <= n by {
            assert(rest[i] == effects[i]);
        }
        assert(effects.last() == effects[effects.len() - 1]);
        tick_shortens(rest, p1_air, p2_air, common, n);
    }
}

/// Sparks do not outlive their bound: those with at most `n` frames left are all
/// gone `n` ticks on. No spark starts with more than [`EFFECT_MAX_LIFETIME`].
pub proof fn sparks_expire(
    effects: Seq<Effect>,
    p1_air: AirFile,
    p2_air: AirFile,
    common: Option<AirFile>,
    n: nat,
)
    requires
        live_at_most(effects, n as int),
        n > 0,
    ensures
        effects_after(effects, p1_air, p2_air, common, n).len() == 0,
{
    reveal(live_at_most);
    shortened_by(effects, p1_air, p2_air, common, n as int, n);
    let before = effects_after(effects, p1_air, p2_air, common, (n - 1) as nat);
    shortened_by(effects, p1_air, p2_air, common, n as int, (n - 1) as nat);
    tick_shortens(before, p1_air, p2_air, common, 1);
    let end = effects_after(effects, p1_air, p2_air, common, n);
    assert(end == effects_ticked(before, p1_air, p2_air, common));
    if end.len() > 0 {
        assert(end[0].remaining <= 0);
        assert(effects_ticked(before, p1_air, p2_air, common)[0].remaining > 0);
    }
}

/// Every tick takes one frame off every spark.
proof fn shortened_by(
    effects: Seq<Effect>,
    p1_air: AirFile,
    p2_air: AirFile,
    common: Option<AirFile>,
    bound: int,
    n: nat,
)
    requires
        live_at_most(effects, bound),
    ensures
        live_at_most(effects_after(effects, p1_air, p2_air, common, n), bound - n),
    decreases n,
{
    if n > 0 {
        shortened_by(effects, p1_air, p2_air, common, bound, (n - 1) as nat);
        tick_shortens(
            effects_after(effects, p1_air, p2_air, common, (n - 1) as nat),
            p1_air,
            p2_air,
            common,
            bound - (n - 1),
        );
    }
}

/// A new spark shows its first frame, and lives between one frame and
/// [`EFFECT_MAX_LIFETIME`].
pub proof fn new_spark_is_bounded(
    side: EffectSide,
    anim: i32,
    frames: Seq<AnimFrame>,
    pos: Vec2,
)
    ensures
        1 <= new_effect(side, anim, frames, pos).remaining <= EFFECT_MAX_LIFETIME,
        new_effect(side, anim, frames, pos).elem == 0,
{
}

/// A spark plays once: its frame never goes back, and stays within its action.
pub proof fn spark_never_rewinds(fx: Effect, frames: Seq<AnimFrame>)
    requires
        fx.elem < frames.len(),
        frames.len() <= usize::MAX,
    ensures
        effect_advanced(fx, frames) is Some,
        fx.elem <= effect_advanced(fx, frames)->0.elem < frames.len(),
{
}

/// Of one spark more, exactly that spark stays in addition, one tick on, unless this
/// is its last frame or its action has no frames. It plays an action of the side that
/// made it, or of the common effects: it stays on a frame for its duration, then goes
/// to the next, and on the last it stays.
pub proof fn sparks_age(
    effects: Seq<Effect>,
    p1_air: AirFile,
    p2_air: AirFile,
    common: Option<AirFile>,
    fx: Effect,
)
    ensures
        ({
            let before = effects_ticked(effects, p1_air, p2_air, common);
            let after = effects_ticked(effects.push(fx), p1_air, p2_air, common);
            let frames = match fx.side {
                EffectSide::P1 => p1_air.frames_of(fx.anim),
                EffectSide::P2 => p2_air.frames_of(fx.anim),
                EffectSide::Common => if common is Some {
                    common->0.frames_of(fx.anim)
                } else {
                    Seq::empty()
                },
            };
            let n = frames.len() as int;
            let shown = after.last();
            &&& effects_ticked(Seq::empty(), p1_air, p2_air, common).len() == 0
            &&& fx.remaining <= 1 || n == 0 ==> after == before
            &&& fx.remaining > 1 && 0 < n <= usize::MAX ==> {
                &&& after.len() == before.len() + 1 && after.drop_last() =~= before
                &&& shown.remaining == fx.remaining - 1
                &&& shown.elem < n
                &&& shown.sprite == frames[shown.elem as int].sprite
                &&& shown.offset == frames[shown.elem as int].offset
                &&& fx.elem >= n - 1 ==> shown.elem == n - 1
                &&& fx.elem < n - 1 && fx.elem_time < i32::MAX ==> {
                    let ticks = frames[fx.elem as int].ticks;
                    if ticks <= 0 || fx.elem_time + 1 < ticks {
                        shown.elem == fx.elem && shown.elem_time == fx.elem_time + 1
                    } else {
                        shown.elem == fx.elem + 1 && shown.elem_time == 0
                    }
                }
                &&& shown == (Effect {
                    remaining: shown.remaining,
                    elem: shown.elem,
                    elem_time: shown.elem_time,
                    sprite: shown.sprite,
                    offset: shown.offset,
                    ..fx
                })
            }
        }),
{
    assert(effects.push(fx).drop_last() =~= effects);
}

} // verus!
