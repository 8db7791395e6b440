//! Animations: the actions a fighter, a spark or an explod plays.

use std::collections::HashMap;

use vstd::prelude::*;

use crate::arith::{clamped, saturating_sum, saturated};
use crate::scalar::{Offset, Scalar};

verus! {

/// Frames a hit spark lives at most, however long its action is.
pub const EFFECT_MAX_LIFETIME: i32 = 60;

/// A sprite, by group and image number.
#[derive(Debug, Clone, Copy, PartialEq, Eq, Structural)]
pub struct SpriteId {
    /// The group.
    pub group: u16,
    /// The image within the group.
    pub image: u16,
}

/// A collision box about an axis: top-left corner and size.
#[derive(Debug, Clone, Copy, PartialEq)]
pub struct Rect {
    /// Left edge.
    pub x: Scalar,
    /// Top edge.
    pub y: Scalar,
    /// Width.
    pub w: Scalar,
    /// Height.
    pub h: Scalar,
}

/// One frame of an action.
#[derive(Debug, Clone, PartialEq)]
pub struct AnimFrame {
    /// The sprite to draw.
    pub sprite: SpriteId,
    /// How far from its position to draw it.
    pub offset: Offset,
    /// How long it is shown; a frame with no positive duration holds for ever.
    pub ticks: i32,
    /// The attack boxes.
    pub clsn1: Vec<Rect>,
    /// The hurt boxes.
    pub clsn2: Vec<Rect>,
}

/// A numbered animation.
#[derive(Debug, Clone, PartialEq)]
pub struct AnimAction {
    /// The action's number.
    pub action_number: i32,
    /// Its frames.
    pub frames: Vec<AnimFrame>,
    /// Where a looping animation starts over.
    pub loopstart: usize,
}

/// A set of actions by number.
#[derive(Debug, Clone)]
pub struct AirFile {
    /// The actions.
    pub actions: HashMap<i32, AnimAction>,
}

impl View for AirFile {
    type V = Map<i32, AnimAction>;

    open spec fn view(&self) -> Map<i32, AnimAction> {
        self.actions@
    }
}

impl AirFile {
    /// The frames of action `anim`; none where the action does not exist.
    pub open spec fn frames_of(self, anim: i32) -> Seq<AnimFrame> {
        if self@.dom().contains(anim) {
            self@[anim].frames@
        } else {
            Seq::empty()
        }
    }

    /// The action with the given number.
    pub fn action(&self, anim: i32) -> (r: Option<&AnimAction>)
        ensures
            r is Some == self@.dom().contains(anim),
            r matches Some(a) ==> *a == self@[anim],
    {
        broadcast use vstd::std_specs::hash::group_hash_axioms;

        self.actions.get(&anim)
    }
}

/// The summed positive durations of `frames`.
pub open spec fn positive_ticks(frames: Seq<AnimFrame>) -> int
    decreases frames.len(),
{
    if frames.len() == 0 {
        0
    } else {
        positive_ticks(frames.drop_last()) + positive(frames.last().ticks)
    }
}

/// `ticks`, or zero where it is negative.
pub open spec fn positive(ticks: i32) -> int {
    if ticks > 0 {
        ticks as int
    } else {
        0
    }
}

/// The summed durations of the first `upto` frames, stopping at the end of the range.
fn sum_ticks(frames: &Vec<AnimFrame>, upto: usize) -> (r: i32)
    requires
        upto <= frames@.len(),
    ensures
        r == saturated(positive_ticks(frames@.take(upto as int))),
        positive_ticks(frames@.take(upto as int)) >= 0,
{
    let mut total: i32 = 0;
    let mut i: usize = 0;
    assert(frames@.take(0) =~= Seq::empty());
    while i < upto
        invariant
            i <= upto <= frames@.len(),
            total == saturated(positive_ticks(frames@.take(i as int))),
            positive_ticks(frames@.take(i as int)) >= 0,
        decreases upto - i,
    {
        let ticks: i32 = if frames[i].ticks > 0 {
            frames[i].ticks
        } else {
            0
        };
        proof {
            assert(frames@.take(i + 1).drop_last() =~= frames@.take(i as int));
        }
        total = saturating_sum(total, ticks);
        i = i + 1;
    }
    total
}

/// Frames a spark that plays `action` lives: its summed positive durations, at
/// least 1 and at most [`EFFECT_MAX_LIFETIME`]. A frame that holds for ever
/// counts for nothing.
pub fn effect_lifetime(action: &AnimAction) -> (r: i32)
    ensures
        r == lifetime_of(action.frames@),
{
    let total: i32 = sum_ticks(&action.frames, action.frames.len());
    assert(action.frames@.take(action.frames@.len() as int) =~= action.frames@);
    if total < 1 {
        1
    } else if total > EFFECT_MAX_LIFETIME {
        EFFECT_MAX_LIFETIME
    } else {
        total
    }
}

/// Frames a spark with these frames lives.
pub open spec fn lifetime_of(frames: Seq<AnimFrame>) -> i32 {
    clamped(positive_ticks(frames), 1, EFFECT_MAX_LIFETIME as int) as i32
}

/// How many frames of `frames` lie before the cursor `elem`.
pub open spec fn frames_before(frames: Seq<AnimFrame>, elem: i32) -> int {
    clamped(elem as int, 0, frames.len() as int)
}

/// The time an action has taken when its cursor reaches `elem`.
pub open spec fn elapsed_before(frames: Seq<AnimFrame>, elem: i32) -> i32 {
    saturated(positive_ticks(frames.take(frames_before(frames, elem))))
}

/// The summed durations of the frames before the cursor `elem`. A cursor below
/// the first frame counts as at it, one past the last as past all of them.
pub fn elapsed_in_action(action: &AnimAction, elem: i32) -> (r: i32)
    ensures
        r == elapsed_before(action.frames@, elem),
        r >= 0,
{
    let upto: usize = if elem < 0 {
        0
    } else if (elem as usize) < action.frames.len() {
        elem as usize
    } else {
        action.frames.len()
    };
    sum_ticks(&action.frames, upto)
}

/// The index of the frame that a cursor shows: it is held within the action.
pub open spec fn shown_frame(frames: Seq<AnimFrame>, elem: i32) -> int {
    clamped(elem as int, 0, frames.len() - 1)
}

/// The attack or hurt boxes that a cursor shows; none where there is no frame.
pub open spec fn boxes_of(frames: Seq<AnimFrame>, elem: i32, attack: bool) -> Seq<Rect> {
    if frames.len() == 0 {
        Seq::empty()
    } else if attack {
        frames[shown_frame(frames, elem)].clsn1@
    } else {
        frames[shown_frame(frames, elem)].clsn2@
    }
}

/// The attack boxes (`attack`) or the hurt boxes that an animation cursor shows.
/// A missing action or an empty one has none; a cursor outside the action shows
/// its nearest frame.
pub fn current_frame_clsn(air: &AirFile, anim: i32, elem: i32, attack: bool) -> (r: Vec<Rect>)
    ensures
        r@ == boxes_of(air.frames_of(anim), elem, attack),
{
    match air.action(anim) {
        None => {
            let none: Vec<Rect> = Vec::new();
            assert(none@ =~= Seq::empty());
            none
        },
        Some(action) => {
            if action.frames.len() == 0 {
                let none: Vec<Rect> = Vec::new();
                assert(none@ =~= Seq::empty());
                return none;
            }
            let max: usize = action.frames.len() - 1;
            let idx: usize = if elem < 0 {
                0
            } else if (elem as usize) < max {
                elem as usize
            } else {
                max
            };
            if attack {
                copy_boxes(&action.frames[idx].clsn1)
            } else {
                copy_boxes(&action.frames[idx].clsn2)
            }
        },
    }
}

/// A copy of `boxes`.
fn copy_boxes(boxes: &Vec<Rect>) -> (r: Vec<Rect>)
    ensures
        r@ == boxes@,
{
    let mut out: Vec<Rect> = Vec::new();
    let mut i: usize = 0;
    while i < boxes.len()
        invariant
            i <= boxes@.len(),
            out@ =~= boxes@.take(i as int),
        decreases boxes.len() - i,
    {
        out.push(boxes[i]);
        i = i + 1;
    }
    assert(boxes@.take(boxes@.len() as int) =~= boxes@);
    out
}

/// A spark lives at least one frame and at most [`EFFECT_MAX_LIFETIME`].
pub proof fn lifetime_bounds(frames: Seq<AnimFrame>)
    ensures
        1 <= lifetime_of(frames) <= EFFECT_MAX_LIFETIME,
{
}

/// Durations add up: one frame more adds its duration, where that is positive, and
/// nothing else.
pub proof fn durations_add_up(frames: Seq<AnimFrame>, frame: AnimFrame)
    ensures
        positive_ticks(Seq::empty()) == 0,
        frame.ticks > 0 ==> positive_ticks(frames.push(frame)) == positive_ticks(frames)
            + frame.ticks,
        frame.ticks <= 0 ==> positive_ticks(frames.push(frame)) == positive_ticks(frames),
{
    assert(frames.push(frame).drop_last() =~= frames);
}

/// Durations are never negative.
proof fn durations_are_positive(frames: Seq<AnimFrame>)
    ensures
        positive_ticks(frames) >= 0,
    decreases frames.len(),
{
    if frames.len() > 0 {
        durations_are_positive(frames.drop_last());
    }
}

/// A spark lives for as long as its action lasts, within its bounds.
pub proof fn sparks_live_as_long_as_they_last(frames: Seq<AnimFrame>)
    ensures
        1 <= positive_ticks(frames) <= EFFECT_MAX_LIFETIME ==> lifetime_of(frames)
            == positive_ticks(frames),
        positive_ticks(frames) > EFFECT_MAX_LIFETIME ==> lifetime_of(frames)
            == EFFECT_MAX_LIFETIME,
        positive_ticks(frames) < 1 ==> lifetime_of(frames) == 1,
{
}

/// The time that an action has taken: none as it begins, and with every frame that
/// the cursor has come past the duration of that frame more. Past the end it is the
/// duration of the whole.
pub proof fn time_passes_with_frames(frames: Seq<AnimFrame>, elem: i32)
    ensures
        elem <= 0 ==> elapsed_before(frames, elem) == 0,
        0 <= elem < frames.len() && elem < i32::MAX && positive_ticks(frames) <= i32::MAX
            ==> elapsed_before(frames, (elem + 1) as i32) == elapsed_before(frames, elem)
            + positive(frames[elem as int].ticks),
        elem >= frames.len() && positive_ticks(frames) <= i32::MAX ==> elapsed_before(
            frames,
            elem,
        ) == positive_ticks(frames),
        elapsed_before(frames, elem) >= 0,
{
    durations_are_positive(frames);
    durations_are_positive(frames.take(frames_before(frames, elem)));
    if elem <= 0 {
        assert(frames.take(0) =~= Seq::empty());
    } else if elem >= frames.len() {
        assert(frames.take(frames.len() as int) =~= frames);
    }
    if 0 <= elem < frames.len() {
        let a = frames.take(elem as int);
        let b = frames.take(elem + 1);
        assert(b.drop_last() =~= a);
        durations_are_positive(a);
        durations_are_positive(b);
        parts_are_shorter(frames, elem + 1);
        parts_are_shorter(frames, elem as int);
    }
}

/// A part of an action takes no longer than the whole.
proof fn parts_are_shorter(frames: Seq<AnimFrame>, n: int)
    requires
        0 <= n <= frames.len(),
    ensures
        positive_ticks(frames.take(n)) <= positive_ticks(frames),
    decreases frames.len(),
{
    if n < frames.len() {
        parts_are_shorter(frames.drop_last(), n);
        assert(frames.drop_last().take(n) =~= frames.take(n));
    } else {
        assert(frames.take(n) =~= frames);
    }
}

/// The frames of an action are those that the set holds under its number, and there
/// are none under any other number.
pub proof fn actions_are_found_by_number(air: AirFile, anim: i32)
    ensures
        air@.dom().contains(anim) ==> air.frames_of(anim) == air@[anim].frames@,
        !air@.dom().contains(anim) ==> air.frames_of(anim).len() == 0,
{
}

} // verus!
