//! Recording a match input by input, and playing it back.
//!
//! A match is reproduced by its seed, its inputs, and a host that answers the
//! same. A log holds the first two, with stamps of the characters it belongs to.

use vstd::prelude::*;

use crate::codec::{
    deserialize_replay, handed, replay_decoded, replay_encoded, replay_parts, serialize_replay,
    BoundsWire, InputWire, ReplayParts, ReplayRead, ReplayWire,
};
use crate::frame::{just_opened, opened, stepped, Frame, Reply, Request};
use crate::frame_laws::{plays, same_inputs_same_match};
use crate::game::{Match, MatchModel};
use crate::input::MatchInput;
use crate::player::CharacterFingerprint;
use crate::round::{DEFAULT_MATCH_SEED, DEFAULT_ROUNDS_TO_WIN, DEFAULT_ROUND_SECONDS};
use crate::scalar::Scalar;
use crate::stage::{StageBounds, DEFAULT_LEFT, DEFAULT_RIGHT};
use crate::tick::asks;

verus! {

/// The version that every log of this build carries.
pub const REPLAY_FORMAT_VERSION: u32 = 1;

/// The stamp of a log that belongs to no known character.
pub const UNSTAMPED: u64 = 0;

/// Why a log was refused.
#[derive(Debug, PartialEq, Eq)]
pub enum ReplayError {
    /// The bytes could not be read, with the codec's message.
    Codec(String),
    /// The log has a version that this build does not know.
    Version {
        /// The version of the log.
        found: u32,
        /// The version of this build.
        expected: u32,
    },
    /// The log was recorded with another character.
    CharacterMismatch {
        /// On which side: `"P1"` or `"P2"`.
        side: &'static str,
        /// The log's stamp.
        logged: u64,
        /// The match's stamp.
        actual: u64,
    },
}

/// A recorded match.
#[derive(Debug, Clone, PartialEq)]
pub struct ReplayLog {
    /// The version of the log.
    pub format_version: u32,
    /// The seed of the match.
    pub match_seed: i32,
    /// The playfield.
    pub bounds: StageBounds,
    /// Round wins that win the match.
    pub rounds_to_win: i32,
    /// The length of a round in seconds.
    pub round_seconds: i32,
    /// The stamp of player 1's character.
    pub p1_fingerprint: CharacterFingerprint,
    /// The stamp of player 2's character.
    pub p2_fingerprint: CharacterFingerprint,
    /// The inputs of either side, frame by frame.
    pub inputs: Vec<(MatchInput, MatchInput)>,
}

/// A recorded match, with its inputs as a sequence.
pub struct ReplayModel {
    /// The version of the log.
    pub format_version: u32,
    /// The seed of the match.
    pub match_seed: i32,
    /// The playfield.
    pub bounds: StageBounds,
    /// Round wins that win the match.
    pub rounds_to_win: i32,
    /// The length of a round in seconds.
    pub round_seconds: i32,
    /// The stamp of player 1's character.
    pub p1_fingerprint: CharacterFingerprint,
    /// The stamp of player 2's character.
    pub p2_fingerprint: CharacterFingerprint,
    /// The inputs of either side, frame by frame.
    pub inputs: Seq<(MatchInput, MatchInput)>,
}

impl View for ReplayLog {
    type V = ReplayModel;

    open spec fn view(&self) -> ReplayModel {
        ReplayModel {
            format_version: self.format_version,
            match_seed: self.match_seed,
            bounds: self.bounds,
            rounds_to_win: self.rounds_to_win,
            round_seconds: self.round_seconds,
            p1_fingerprint: self.p1_fingerprint,
            p2_fingerprint: self.p2_fingerprint,
            inputs: self.inputs@,
        }
    }
}

/// An input, laid out.
pub open spec fn input_wire(i: MatchInput) -> InputWire {
    (i.left, i.right, i.up, i.down, i.a, i.b, i.c, i.x, i.y, i.z)
}

/// A laid-out input.
pub open spec fn wire_input(w: InputWire) -> MatchInput {
    MatchInput {
        left: w.0,
        right: w.1,
        up: w.2,
        down: w.3,
        a: w.4,
        b: w.5,
        c: w.6,
        x: w.7,
        y: w.8,
        z: w.9,
    }
}

/// Lays an input out.
pub fn input_to_wire(i: &MatchInput) -> (r: InputWire)
    ensures
        r == input_wire(*i),
{
    (i.left, i.right, i.up, i.down, i.a, i.b, i.c, i.x, i.y, i.z)
}

/// Reads a laid-out input.
pub fn input_from_wire(w: &InputWire) -> (r: MatchInput)
    ensures
        r == wire_input(*w),
{
    MatchInput {
        left: w.0,
        right: w.1,
        up: w.2,
        down: w.3,
        a: w.4,
        b: w.5,
        c: w.6,
        x: w.7,
        y: w.8,
        z: w.9,
    }
}

/// Bounds, laid out.
pub open spec fn bounds_wire(b: StageBounds) -> BoundsWire {
    (b.left.bits, b.right.bits, b.game_width.bits, b.game_height.bits)
}

/// Laid-out bounds.
pub open spec fn wire_bounds(w: BoundsWire) -> StageBounds {
    StageBounds {
        left: Scalar { bits: w.0 },
        right: Scalar { bits: w.1 },
        game_width: Scalar { bits: w.2 },
        game_height: Scalar { bits: w.3 },
    }
}

/// Lays bounds out.
pub fn bounds_to_wire(b: &StageBounds) -> (r: BoundsWire)
    ensures
        r == bounds_wire(*b),
{
    (b.left.bits, b.right.bits, b.game_width.bits, b.game_height.bits)
}

/// Reads laid-out bounds.
pub fn bounds_from_wire(w: BoundsWire) -> (r: StageBounds)
    ensures
        r == wire_bounds(w),
{
    StageBounds {
        left: Scalar { bits: w.0 },
        right: Scalar { bits: w.1 },
        game_width: Scalar { bits: w.2 },
        game_height: Scalar { bits: w.3 },
    }
}

/// A log, laid out.
pub open spec fn log_parts(m: ReplayModel) -> ReplayParts {
    (
        m.format_version,
        m.match_seed,
        bounds_wire(m.bounds),
        m.rounds_to_win,
        m.round_seconds,
        m.p1_fingerprint.0,
        m.p2_fingerprint.0,
        Seq::new(
            m.inputs.len(),
            |i: int| (input_wire(m.inputs[i].0), input_wire(m.inputs[i].1)),
        ),
    )
}

/// A laid-out log.
pub open spec fn parts_log(p: ReplayParts) -> ReplayModel {
    ReplayModel {
        format_version: p.0,
        match_seed: p.1,
        bounds: wire_bounds(p.2),
        rounds_to_win: p.3,
        round_seconds: p.4,
        p1_fingerprint: CharacterFingerprint(p.5),
        p2_fingerprint: CharacterFingerprint(p.6),
        inputs: Seq::new(p.7.len(), |i: int| (wire_input(p.7[i].0), wire_input(p.7[i].1))),
    }
}

/// Whether `r` is what comes of reading a log with the codec's result `read`: the
/// log where its version is known, else the reason.
pub open spec fn log_read(
    read: ReplayRead,
    r: Result<ReplayLog, ReplayError>,
) -> bool {
    match read {
        Err(message) => r matches Err(ReplayError::Codec(text)) && text@ == message,
        Ok(parts) => if parts.0 == REPLAY_FORMAT_VERSION {
            r matches Ok(log) && log@ == parts_log(parts)
        } else {
            r matches Err(ReplayError::Version { found, expected }) && found == parts.0 && expected
                == REPLAY_FORMAT_VERSION
        },
    }
}

/// Whether `r` is what comes of decoding `bytes`. The codec's message, where it
/// refuses them, may be any.
pub open spec fn log_decoded(bytes: Seq<u8>, r: Result<ReplayLog, ReplayError>) -> bool {
    exists|message: Seq<char>| log_read(#[trigger] handed(replay_decoded(bytes), message), r)
}

/// A log with nothing recorded yet.
pub open spec fn empty_log(
    match_seed: i32,
    bounds: StageBounds,
    rounds_to_win: i32,
    round_seconds: i32,
    p1_fingerprint: CharacterFingerprint,
    p2_fingerprint: CharacterFingerprint,
) -> ReplayModel {
    ReplayModel {
        format_version: REPLAY_FORMAT_VERSION,
        match_seed,
        bounds,
        rounds_to_win,
        round_seconds,
        p1_fingerprint,
        p2_fingerprint,
        inputs: Seq::empty(),
    }
}

impl ReplayModel {
    /// The log with one more frame.
    pub open spec fn pushed(self, p1: MatchInput, p2: MatchInput) -> ReplayModel {
        ReplayModel { inputs: self.inputs.push((p1, p2)), ..self }
    }
}

impl ReplayLog {
    /// An empty log that belongs to no known character.
    pub fn new(
        match_seed: i32,
        bounds: StageBounds,
        rounds_to_win: i32,
        round_seconds: i32,
    ) -> (r: ReplayLog)
        ensures
            r@ == empty_log(
                match_seed,
                bounds,
                rounds_to_win,
                round_seconds,
                CharacterFingerprint(UNSTAMPED),
                CharacterFingerprint(UNSTAMPED),
            ),
    {
        ReplayLog::with_fingerprints(
            match_seed,
            bounds,
            rounds_to_win,
            round_seconds,
            CharacterFingerprint(UNSTAMPED),
            CharacterFingerprint(UNSTAMPED),
        )
    }

    /// An empty log that belongs to the characters with the given stamps.
    pub fn with_fingerprints(
        match_seed: i32,
        bounds: StageBounds,
        rounds_to_win: i32,
        round_seconds: i32,
        p1_fingerprint: CharacterFingerprint,
        p2_fingerprint: CharacterFingerprint,
    ) -> (r: ReplayLog)
        ensures
            r@ == empty_log(
                match_seed,
                bounds,
                rounds_to_win,
                round_seconds,
                p1_fingerprint,
                p2_fingerprint,
            ),
    {
        let log = ReplayLog {
            format_version: REPLAY_FORMAT_VERSION,
            match_seed,
            bounds,
            rounds_to_win,
            round_seconds,
            p1_fingerprint,
            p2_fingerprint,
            inputs: Vec::new(),
        };
        assert(log.inputs@ =~= Seq::empty());
        log
    }

    /// Frames recorded.
    pub fn len(&self) -> (r: usize)
        ensures
            r == self@.inputs.len(),
    {
        self.inputs.len()
    }

    /// Whether nothing is recorded.
    pub fn is_empty(&self) -> (r: bool)
        ensures
            r == (self@.inputs.len() == 0),
    {
        self.inputs.len() == 0
    }

    /// Records one frame.
    pub fn push(&mut self, p1: MatchInput, p2: MatchInput)
        ensures
            final(self)@ == old(self)@.pushed(p1, p2),
    {
        self.inputs.push((p1, p2));
    }

    /// Lays the log out for the codec.
    fn to_wire(&self) -> (r: ReplayWire)
        ensures
            replay_parts(r) == log_parts(self@),
    {
        let mut inputs: Vec<(InputWire, InputWire)> = Vec::new();
        let mut i: usize = 0;
        while i < self.inputs.len()
            invariant
                i <= self.inputs@.len(),
                inputs@.len() == i,
                forall|k: int|
                    0 <= k < i ==> #[trigger] inputs@[k] == (
                        input_wire(self.inputs@[k].0),
                        input_wire(self.inputs@[k].1),
                    ),
            decreases self.inputs.len() - i,
        {
            inputs.push((input_to_wire(&self.inputs[i].0), input_to_wire(&self.inputs[i].1)));
            i = i + 1;
        }
        assert(inputs@ =~= log_parts(self@).7);
        (
            self.format_version,
            self.match_seed,
            bounds_to_wire(&self.bounds),
            self.rounds_to_win,
            self.round_seconds,
            self.p1_fingerprint.0,
            self.p2_fingerprint.0,
            inputs,
        )
    }

    /// Encodes the log. The bytes depend on the log alone, reading them gives it
    /// back, and the codec refuses them where any are cut off.
    pub fn encode(&self) -> (r: Result<Vec<u8>, ReplayError>)
        ensures
            r is Ok,
            r->Ok_0@ == replay_encoded(log_parts(self@)),
            replay_decoded(r->Ok_0@) == Some(log_parts(self@)),
            forall|n: int|
                0 <= n < r->Ok_0@.len() ==> replay_decoded(#[trigger] r->Ok_0@.take(n)) is None,
    {
        match serialize_replay(&self.to_wire()) {
            Ok(bytes) => Ok(bytes),
            Err(e) => Err(ReplayError::Codec(e)),
        }
    }

    /// Decodes a log, and refuses one with another version.
    pub fn decode(bytes: &[u8]) -> (r: Result<ReplayLog, ReplayError>)
        ensures
            log_decoded(bytes@, r),
    {
        let read = deserialize_replay(bytes);
        let ghost message = read->Err_0@;
        let r = ReplayLog::from_read(read);
        assert(log_read(handed(replay_decoded(bytes@), message), r));
        r
    }

    /// Makes a log of what the codec read.
    pub fn from_read(read: Result<ReplayWire, String>) -> (r: Result<ReplayLog, ReplayError>)
        ensures
            log_read(
                match read {
                    Ok(w) => ReplayRead::Ok(replay_parts(w)),
                    Err(e) => ReplayRead::Err(e@),
                },
                r,
            ),
    {
        let w = match read {
            Ok(w) => w,
            Err(e) => {
                return Err(ReplayError::Codec(e));
            },
        };
        if w.0 != REPLAY_FORMAT_VERSION {
            return Err(ReplayError::Version { found: w.0, expected: REPLAY_FORMAT_VERSION });
        }
        let mut inputs: Vec<(MatchInput, MatchInput)> = Vec::new();
        let mut i: usize = 0;
        while i < w.7.len()
            invariant
                i <= w.7@.len(),
                inputs@.len() == i,
                forall|k: int|
                    0 <= k < i ==> #[trigger] inputs@[k] == (
                        wire_input(w.7@[k].0),
                        wire_input(w.7@[k].1),
                    ),
            decreases w.7.len() - i,
        {
            inputs.push((input_from_wire(&w.7[i].0), input_from_wire(&w.7[i].1)));
            i = i + 1;
        }
        assert(inputs@ =~= parts_log(replay_parts(w)).inputs);
        Ok(
            ReplayLog {
                format_version: w.0,
                match_seed: w.1,
                bounds: bounds_from_wire(w.2),
                rounds_to_win: w.3,
                round_seconds: w.4,
                p1_fingerprint: CharacterFingerprint(w.5),
                p2_fingerprint: CharacterFingerprint(w.6),
                inputs,
            },
        )
    }
}

impl Default for ReplayLog {
    fn default() -> (r: ReplayLog)
        ensures
            r@ == empty_log(
                DEFAULT_MATCH_SEED,
                StageBounds::new_spec(
                    Scalar { bits: DEFAULT_LEFT },
                    Scalar { bits: DEFAULT_RIGHT },
                ),
                DEFAULT_ROUNDS_TO_WIN,
                DEFAULT_ROUND_SECONDS,
                CharacterFingerprint(UNSTAMPED),
                CharacterFingerprint(UNSTAMPED),
            ),
    {
        ReplayLog::new(
            DEFAULT_MATCH_SEED,
            StageBounds::default(),
            DEFAULT_ROUNDS_TO_WIN,
            DEFAULT_ROUND_SECONDS,
        )
    }
}

/// Records a match frame by frame.
pub struct MatchRecorder<'m> {
    /// The match being recorded.
    pub game: &'m mut Match,
    /// What has been recorded so far.
    pub log: ReplayLog,
}

impl<'m> MatchRecorder<'m> {
    /// Begins to record a match that was seeded with `match_seed`. The log is
    /// stamped with the match's characters.
    pub fn new(game: &'m mut Match, match_seed: i32, round_seconds: i32) -> (r: MatchRecorder<'m>)
        ensures
            r.game@ == old(game)@,
            *final(game) == *final(r.game),
            r.log@ == recording_begun(old(game)@, match_seed, round_seconds),
    {
        let bounds = game.bounds();
        let rounds_to_win: i32 = game.rounds_to_win();
        let (p1, p2) = game.character_fingerprints();
        MatchRecorder {
            game,
            log: ReplayLog::with_fingerprints(
                match_seed,
                bounds,
                rounds_to_win,
                round_seconds,
                p1,
                p2,
            ),
        }
    }

    /// Opens a frame of the match and records its inputs.
    pub fn tick(&mut self, p1: MatchInput, p2: MatchInput) -> (r: Frame)
        ensures
            final(self).log@ == old(self).log@.pushed(p1, p2),
            final(self).game@ == opened(old(self).game@, p1, p2),
            just_opened(r, old(self).game@, p1, p2, None, None),
            *final(final(self).game) == *final(old(self).game),
    {
        self.log.push(p1, p2);
        self.game.tick(p1, p2)
    }

    /// What the frame asks for next.
    pub fn request(&self, f: &Frame) -> (r: Request)
        ensures
            asks(old(self.game)@, *f, r),
    {
        self.game.request(f)
    }

    /// Takes in the host's reply to what the frame asked for.
    pub fn step(&mut self, f: &mut Frame, reply: Reply)
        ensures
            (final(self).game@, *final(f)) == stepped(old(self).game@, *old(f), reply),
            final(self).log == old(self).log,
            *final(final(self).game) == *final(old(self).game),
    {
        self.game.step(f, reply);
    }

    /// The match being recorded.
    pub fn match_ref(&self) -> (r: &Match)
        ensures
            r@ == old(self.game)@,
    {
        &*self.game
    }

    /// What has been recorded so far.
    pub fn log(&self) -> (r: &ReplayLog)
        ensures
            *r == self.log,
    {
        &self.log
    }

    /// Stops recording.
    pub fn into_log(self) -> (r: ReplayLog)
        ensures
            r == self.log,
    {
        self.log
    }
}

/// The log of a match as recording begins.
pub open spec fn recording_begun(
    m: MatchModel,
    match_seed: i32,
    round_seconds: i32,
) -> ReplayModel {
    empty_log(
        match_seed,
        m.flow.bounds,
        m.flow.rounds_to_win,
        round_seconds,
        m.p1.loaded.fingerprint,
        m.p2.loaded.fingerprint,
    )
}

/// Whether a stamp belongs to another character. A log without a stamp belongs to
/// any.
pub open spec fn foreign(logged: CharacterFingerprint, actual: CharacterFingerprint) -> bool {
    logged.0 != UNSTAMPED && logged != actual
}

/// Whether `e` says that a log belongs to another character, and on which side;
/// player 1 is looked at first.
pub open spec fn names_foreign(e: ReplayError, log: ReplayModel, m: MatchModel) -> bool {
    e matches ReplayError::CharacterMismatch { side, logged, actual } && if foreign(
        log.p1_fingerprint,
        m.p1.loaded.fingerprint,
    ) {
        side@ == "P1"@ && logged == log.p1_fingerprint.0 && actual == m.p1.loaded.fingerprint.0
    } else {
        side@ == "P2"@ && logged == log.p2_fingerprint.0 && actual == m.p2.loaded.fingerprint.0
    }
}

/// Whether a log may be played into a match: on neither side does it belong to
/// another character.
pub open spec fn playable(log: ReplayModel, m: MatchModel) -> bool {
    !foreign(log.p1_fingerprint, m.p1.loaded.fingerprint) && !foreign(
        log.p2_fingerprint,
        m.p2.loaded.fingerprint,
    )
}

/// A log being played into a match.
#[derive(Debug, Clone, Copy, PartialEq, Eq, Structural)]
pub struct Replay {
    /// The next frame to play.
    pub at: usize,
}

/// Begins to play a log into a match, which is seeded from the log. A log of
/// other characters is refused, and the match stays as it is.
pub fn replay_match(game: &mut Match, log: &ReplayLog) -> (r: Result<Replay, ReplayError>)
    ensures
        r is Ok == playable(log@, old(game)@),
        r matches Ok(replay) ==> replay.at == 0 && final(game)@ == old(game)@.seeded(
            log@.match_seed,
        ),
        r matches Err(e) ==> names_foreign(e, log@, old(game)@) && *final(game) == *old(game),
{
    let (p1, p2) = game.character_fingerprints();
    if log.p1_fingerprint.0 != UNSTAMPED && log.p1_fingerprint != p1 {
        return Err(
            ReplayError::CharacterMismatch {
                side: "P1",
                logged: log.p1_fingerprint.0,
                actual: p1.0,
            },
        );
    }
    if log.p2_fingerprint.0 != UNSTAMPED && log.p2_fingerprint != p2 {
        return Err(
            ReplayError::CharacterMismatch {
                side: "P2",
                logged: log.p2_fingerprint.0,
                actual: p2.0,
            },
        );
    }
    game.seed_players(log.match_seed);
    Ok(Replay { at: 0 })
}

impl Replay {
    /// Opens the next frame of the log; `None` where all have been played.
    pub fn tick(&mut self, game: &mut Match, log: &ReplayLog) -> (r: Option<Frame>)
        ensures
            r is Some == (old(self).at < log@.inputs.len()),
            r matches Some(f) ==> {
                let (p1, p2) = log@.inputs[old(self).at as int];
                &&& final(self).at == old(self).at + 1
                &&& final(game)@ == opened(old(game)@, p1, p2)
                &&& just_opened(f, old(game)@, p1, p2, None, None)
            },
            r is None ==> *final(self) == *old(self) && *final(game) == *old(game),
    {
        if self.at < log.inputs.len() {
            let (p1, p2) = log.inputs[self.at];
            self.at = self.at + 1;
            Some(game.tick(p1, p2))
        } else {
            None
        }
    }
}

/// What is read from the bytes of a log is the log: encoding and decoding give
/// every log of this build's version back.
pub proof fn log_round_trip(
    log: ReplayModel,
    bytes: Seq<u8>,
    r: Result<ReplayLog, ReplayError>,
)
    requires
        log.format_version == REPLAY_FORMAT_VERSION,
        replay_decoded(bytes) == Some(log_parts(log)),
        log_decoded(bytes, r),
    ensures
        r matches Ok(read) && read@ == log,
{
    parts_round_trip(log);
}

/// A log of another version is refused, with both versions.
pub proof fn foreign_version_is_refused(
    log: ReplayModel,
    bytes: Seq<u8>,
    r: Result<ReplayLog, ReplayError>,
)
    requires
        log.format_version != REPLAY_FORMAT_VERSION,
        replay_decoded(bytes) == Some(log_parts(log)),
        log_decoded(bytes, r),
    ensures
        r matches Err(ReplayError::Version { found, expected }) && found == log.format_version
            && expected == REPLAY_FORMAT_VERSION,
{
}

/// Bytes that the codec refuses, such as those of a log with some cut off, hold no
/// log.
pub proof fn unreadable_log_is_refused(bytes: Seq<u8>, r: Result<ReplayLog, ReplayError>)
    requires
        replay_decoded(bytes) is None,
        log_decoded(bytes, r),
    ensures
        r matches Err(ReplayError::Codec(_)),
{
}

/// A log survives being laid out and read.
proof fn parts_round_trip(log: ReplayModel)
    ensures
        parts_log(log_parts(log)) == log,
{
    assert(parts_log(log_parts(log)).inputs =~= log.inputs);
}

/// The log of a recording: what was fed to the match, in order.
pub open spec fn recorded(log: ReplayModel, inputs: Seq<(MatchInput, MatchInput)>) -> ReplayModel
    decreases inputs.len(),
{
    if inputs.len() == 0 {
        log
    } else {
        recorded(log, inputs.drop_last()).pushed(inputs.last().0, inputs.last().1)
    }
}

/// A recording holds exactly the inputs that were fed, in order, and keeps the
/// rest of its log.
pub proof fn recording_holds_the_inputs(
    log: ReplayModel,
    inputs: Seq<(MatchInput, MatchInput)>,
)
    ensures
        recorded(log, inputs) == (ReplayModel { inputs: log.inputs + inputs, ..log }),
    decreases inputs.len(),
{
    if inputs.len() == 0 {
        assert(log.inputs + inputs =~= log.inputs);
    } else {
        recording_holds_the_inputs(log, inputs.drop_last());
        assert((log.inputs + inputs.drop_last()).push(inputs.last()) =~= log.inputs + inputs);
    }
}

/// Recording a match and playing the log back ends the same: a match `m`, seeded
/// with `seed` and recorded while it is fed `inputs`, makes a log that may be
/// played into `m`, and playing it with the same answers ends where the recording
/// ended.
pub proof fn replay_reproduces(
    m: MatchModel,
    seed: i32,
    round_seconds: i32,
    inputs: Seq<(MatchInput, MatchInput)>,
    answers: Seq<Seq<Reply>>,
    recorded_end: MatchModel,
    replayed_end: MatchModel,
)
    requires
        plays(m.seeded(seed), inputs, answers, recorded_end),
        ({
            let log = recorded(recording_begun(m.seeded(seed), seed, round_seconds), inputs);
            plays(m.seeded(log.match_seed), log.inputs, answers, replayed_end)
        }),
    ensures
        playable(recorded(recording_begun(m.seeded(seed), seed, round_seconds), inputs), m),
        recorded_end == replayed_end,
{
    let begun = recording_begun(m.seeded(seed), seed, round_seconds);
    recording_holds_the_inputs(begun, inputs);
    assert(begun.inputs + inputs =~= inputs);
    same_inputs_same_match(m.seeded(seed), inputs, answers, recorded_end, replayed_end);
}

/// A recording begins with what the match is: its stage and its target, the seed and
/// the round length that it is told, the stamps of both characters, each on its own
/// side, this build's version, and no inputs.
pub proof fn recordings_begin_with_the_match(m: MatchModel, match_seed: i32, round_seconds: i32)
    ensures
        ({
            let log = recording_begun(m, match_seed, round_seconds);
            &&& log.format_version == REPLAY_FORMAT_VERSION
            &&& log.match_seed == match_seed
            &&& log.bounds == m.flow.bounds
            &&& log.rounds_to_win == m.flow.rounds_to_win
            &&& log.round_seconds == round_seconds
            &&& log.p1_fingerprint == m.p1.loaded.fingerprint
            &&& log.p2_fingerprint == m.p2.loaded.fingerprint
            &&& log.inputs.len() == 0
        }),
{
}

/// A log may be played exactly into a match of the characters that it is stamped
/// with, each on its own side; a side without a stamp takes any.
pub proof fn logs_play_with_their_characters(log: ReplayModel, m: MatchModel)
    ensures
        playable(log, m) <==> {
            &&& log.p1_fingerprint.0 == 0 || log.p1_fingerprint == m.p1.loaded.fingerprint
            &&& log.p2_fingerprint.0 == 0 || log.p2_fingerprint == m.p2.loaded.fingerprint
        },
{
}

/// Seeding gives player 1 the seed itself and player 2 one of its own, and touches
/// nothing else.
pub proof fn seeding_touches_the_streams(m: MatchModel, seed: i32)
    ensures
        ({
            let next = m.seeded(seed);
            &&& next.p1.character.rng_seed == seed
            &&& next.p2.character.rng_seed == crate::round::player_seed(seed, 1)
            &&& next == (MatchModel {
                p1: m.p1.with_character(
                    crate::character::Character {
                        rng_seed: next.p1.character.rng_seed,
                        ..m.p1.character
                    },
                ),
                p2: m.p2.with_character(
                    crate::character::Character {
                        rng_seed: next.p2.character.rng_seed,
                        ..m.p2.character
                    },
                ),
                ..m
            })
        }),
{
}

/// A log that may not be played is refused with the first side that belongs to
/// another character, the stamp of the log there and the stamp of the match.
pub proof fn foreign_logs_name_the_side(
    log: ReplayModel,
    m: MatchModel,
    side: &'static str,
    logged: u64,
    actual: u64,
)
    requires
        !playable(log, m),
        names_foreign(ReplayError::CharacterMismatch { side, logged, actual }, log, m),
    ensures
        ({
            let p1 = log.p1_fingerprint.0 != 0 && log.p1_fingerprint != m.p1.loaded.fingerprint;
            &&& p1 ==> side@ == "P1"@ && logged == log.p1_fingerprint.0 && actual
                == m.p1.loaded.fingerprint.0
            &&& !p1 ==> side@ == "P2"@ && logged == log.p2_fingerprint.0 && actual
                == m.p2.loaded.fingerprint.0 && log.p2_fingerprint != m.p2.loaded.fingerprint
            &&& logged != actual
        }),
{
}

} // verus!
