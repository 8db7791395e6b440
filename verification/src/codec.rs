//! The binary codec, on plain values.
//!
//! Everything that is saved is laid out as nested tuples of integers, flags and
//! byte strings, in the order of the fields that they stand for. Each layout has
//! two functions that call `bincode`; no other code of the library does.

use vstd::prelude::*;

verus! {

/// An input: left, right, up, down, a, b, c, x, y, z.
pub type InputWire = (bool, bool, bool, bool, bool, bool, bool, bool, bool, bool);

/// Stage bounds: the patterns of left, right, width and height.
pub type BoundsWire = (u32, u32, u32, u32);

/// What a codec hands over: the parts that it read, or a message where it read
/// none.
pub open spec fn handed<P>(parts: Option<P>, message: Seq<char>) -> Result<P, Seq<char>> {
    match parts {
        Some(p) => Ok(p),
        None => Err(message),
    }
}

/// A replay log: version, seed, bounds, target, seconds, the two stamps, inputs.
pub type ReplayWire = (
    u32,
    i32,
    BoundsWire,
    i32,
    i32,
    u64,
    u64,
    Vec<(InputWire, InputWire)>,
);

/// A replay log, with its inputs as a sequence.
pub type ReplayParts = (
    u32,
    i32,
    BoundsWire,
    i32,
    i32,
    u64,
    u64,
    Seq<(InputWire, InputWire)>,
);

/// What the codec hands over for a replay log: its parts, or a message.
pub type ReplayRead = Result<ReplayParts, Seq<char>>;

/// The parts of a laid-out replay log.
pub open spec fn replay_parts(w: ReplayWire) -> ReplayParts {
    (w.0, w.1, w.2, w.3, w.4, w.5, w.6, w.7@)
}

/// The bytes that `bincode::serialize` makes of a replay log.
pub uninterp spec fn replay_encoded(parts: ReplayParts) -> Seq<u8>;

/// What `bincode::deserialize` reads from bytes as a replay log; `None` where it
/// refuses them.
pub uninterp spec fn replay_decoded(bytes: Seq<u8>) -> Option<ReplayParts>;

/// Calls `bincode::serialize`. It does not fail on plain values in memory, its
/// bytes depend on the value alone, reading them gives the value back, and none of
/// them can be cut off at the end: the reader takes them one after the other and
/// refuses to go on without the last.
#[verifier::external_body]
pub(crate) fn serialize_replay(w: &ReplayWire) -> (r: Result<Vec<u8>, String>)
    ensures
        r is Ok,
        r->Ok_0@ == replay_encoded(replay_parts(*w)),
        replay_decoded(r->Ok_0@) == Some(replay_parts(*w)),
        forall|n: int|
            0 <= n < r->Ok_0@.len() ==> replay_decoded(#[trigger] r->Ok_0@.take(n)) is None,
{
    bincode::serialize(w).map_err(|e| e.to_string())
}

/// Calls `bincode::deserialize`. What it reads, and whether it refuses bytes, depends
/// on the bytes alone. Nothing is said of the message that it refuses them with.
#[verifier::external_body]
pub(crate) fn deserialize_replay(bytes: &[u8]) -> (r: Result<ReplayWire, String>)
    ensures
        replay_decoded(bytes@) == match r {
            Ok(w) => Some(replay_parts(w)),
            Err(_) => None,
        },
{
    bincode::deserialize(bytes).map_err(|e| e.to_string())
}

/// A training recording: version, the dummy's side, the start state, inputs.
pub type RecordingWire = (u32, u32, Vec<u8>, Vec<InputWire>);

/// A training recording, with its lists as sequences.
pub type RecordingParts = (u32, u32, Seq<u8>, Seq<InputWire>);

/// What the codec hands over for a training recording: its parts, or a message.
pub type RecordingRead = Result<RecordingParts, Seq<char>>;

/// The parts of a laid-out training recording.
pub open spec fn recording_parts(w: RecordingWire) -> RecordingParts {
    (w.0, w.1, w.2@, w.3@)
}

/// The bytes that `bincode::serialize` makes of a training recording.
pub uninterp spec fn recording_encoded(parts: RecordingParts) -> Seq<u8>;

/// What `bincode::deserialize` reads from bytes as a training recording; `None` where it
/// refuses them.
pub uninterp spec fn recording_decoded(bytes: Seq<u8>) -> Option<RecordingParts>;

/// Calls `bincode::serialize`. It does not fail on plain values in memory, its
/// bytes depend on the value alone, reading them gives the value back, and none of
/// them can be cut off at the end: the reader takes them one after the other and
/// refuses to go on without the last.
#[verifier::external_body]
pub(crate) fn serialize_recording(w: &RecordingWire) -> (r: Result<Vec<u8>, String>)
    ensures
        r is Ok,
        r->Ok_0@ == recording_encoded(recording_parts(*w)),
        recording_decoded(r->Ok_0@) == Some(recording_parts(*w)),
        forall|n: int|
            0 <= n < r->Ok_0@.len() ==> recording_decoded(#[trigger] r->Ok_0@.take(n)) is None,
{
    bincode::serialize(w).map_err(|e| e.to_string())
}

/// Calls `bincode::deserialize`. What it reads, and whether it refuses bytes, depends
/// on the bytes alone. Nothing is said of the message that it refuses them with.
#[verifier::external_body]
pub(crate) fn deserialize_recording(bytes: &[u8]) -> (r: Result<RecordingWire, String>)
    ensures
        recording_decoded(bytes@) == match r {
            Ok(w) => Some(recording_parts(w)),
            Err(_) => None,
        },
{
    bincode::deserialize(bytes).map_err(|e| e.to_string())
}

/// Position, velocity and facing: the patterns of x and y of either, then a tag.
pub type MotionWire = (u32, u32, u32, u32, u32);

/// State number, previous number, time, posture and move tags, control, holding
/// back, target.
pub type StateWire = (i32, i32, i32, u32, u32, bool, bool, bool);

/// An attack: handle, priority value and tag, spark tag and action.
pub type HitDefWire = (u64, i32, u32, u32, i32);

/// Attack, contact, hit pause, hit shake.
pub type CombatWire = (Option<HitDefWire>, bool, i32, i32);

/// No automatic turning, width override (active, front, back), level, seed,
/// command source tag.
pub type ExtraWire = (bool, bool, u32, u32, u8, i32, u32);

/// A fighter: motion, life and power with their maxima, state, animation cursor,
/// combat, the rest, the clock it reads.
pub type CharacterWire = (
    MotionWire,
    (i32, i32, i32, i32),
    StateWire,
    (i32, i32, i32, i32),
    CombatWire,
    ExtraWire,
    (i32, i32, bool, i32, i32),
);

/// Phase tag, clock, phase clock, winner tag, target, wins of either side, round
/// number, match tag, match winner tag, round length, game clock.
pub type FlowWire = (
    u32,
    i32,
    i32,
    Option<u32>,
    i32,
    i32,
    i32,
    i32,
    u32,
    Option<u32>,
    i32,
    i32,
);

/// What a fighter is restored to: the patterns of x and y, facing tag, life.
pub type ResetWire = (u32, u32, u32, i32);

/// A spark: side tag, action, the patterns of x and y, sprite, offset, cursor,
/// time, life.
pub type EffectWire = (u32, i32, u32, u32, u16, u16, i16, i16, u64, i32, i32);

/// A match snapshot: stamps, either fighter with its host bytes, bounds, flow,
/// resets, freeze, sparks.
pub type SnapshotWire = (
    (u64, u64),
    (CharacterWire, Vec<u8>),
    (CharacterWire, Vec<u8>),
    BoundsWire,
    FlowWire,
    (ResetWire, ResetWire),
    (i32, u32),
    Vec<EffectWire>,
);

/// A match snapshot, with its lists as sequences.
pub type SnapshotParts = (
    (u64, u64),
    (CharacterWire, Seq<u8>),
    (CharacterWire, Seq<u8>),
    BoundsWire,
    FlowWire,
    (ResetWire, ResetWire),
    (i32, u32),
    Seq<EffectWire>,
);

/// What the codec hands over for a match snapshot: its parts, or a message.
pub type SnapshotRead = Result<SnapshotParts, Seq<char>>;

/// The parts of a laid-out match snapshot.
pub open spec fn snapshot_parts(w: SnapshotWire) -> SnapshotParts {
    (w.0, (w.1.0, w.1.1@), (w.2.0, w.2.1@), w.3, w.4, w.5, w.6, w.7@)
}

/// The bytes that `bincode::serialize` makes of a match snapshot.
pub uninterp spec fn snapshot_encoded(parts: SnapshotParts) -> Seq<u8>;

/// What `bincode::deserialize` reads from bytes as a match snapshot; `None` where it
/// refuses them.
pub uninterp spec fn snapshot_decoded(bytes: Seq<u8>) -> Option<SnapshotParts>;

/// Calls `bincode::serialize`. It does not fail on plain values in memory, its
/// bytes depend on the value alone, reading them gives the value back, and none of
/// them can be cut off at the end: the reader takes them one after the other and
/// refuses to go on without the last.
#[verifier::external_body]
pub(crate) fn serialize_snapshot(w: &SnapshotWire) -> (r: Result<Vec<u8>, String>)
    ensures
        r is Ok,
        r->Ok_0@ == snapshot_encoded(snapshot_parts(*w)),
        snapshot_decoded(r->Ok_0@) == Some(snapshot_parts(*w)),
        forall|n: int|
            0 <= n < r->Ok_0@.len() ==> snapshot_decoded(#[trigger] r->Ok_0@.take(n)) is None,
{
    bincode::serialize(w).map_err(|e| e.to_string())
}

/// Calls `bincode::deserialize`. What it reads, and whether it refuses bytes, depends
/// on the bytes alone. Nothing is said of the message that it refuses them with.
#[verifier::external_body]
pub(crate) fn deserialize_snapshot(bytes: &[u8]) -> (r: Result<SnapshotWire, String>)
    ensures
        snapshot_decoded(bytes@) == match r {
            Ok(w) => Some(snapshot_parts(w)),
            Err(_) => None,
        },
{
    bincode::deserialize(bytes).map_err(|e| e.to_string())
}

} // verus!
