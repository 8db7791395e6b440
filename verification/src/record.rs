//! Training setups: recording a dummy's inputs and playing them back in a loop.
//!
//! A recording is a start state and the dummy's input on every frame from there.
//! The other side is never recorded: it is the player, who rehearses against the
//! dummy. Playing back puts the start state in place again on every loop.

use vstd::prelude::*;

use crate::codec::{
    deserialize_recording, handed, recording_decoded, recording_encoded, recording_parts,
    serialize_recording, snapshot_decoded, snapshot_encoded, InputWire, RecordingParts,
    RecordingRead, RecordingWire,
};
use crate::error::{explain, FpError, Mismatch};
use crate::frame::{just_opened, opened, stepped, Frame, Reply, Request};
use crate::game::{Match, MatchModel};
use crate::input::MatchInput;
use crate::replay::{input_from_wire, input_to_wire, input_wire, wire_input};
use crate::round::Side;
use crate::snapshot::{restored_from, SnapshotModel};
use crate::tick::asks;
use crate::wire::{side_from_tag, side_of, side_tag, side_to_tag, snapshot_wire, wire_snapshot};

verus! {

/// The version that every recording of this build carries.
pub const RECORDING_FORMAT_VERSION: u32 = 1;

/// A recorded training setup.
#[derive(Debug, Clone, PartialEq)]
pub struct TrainingRecording {
    /// The version of the recording.
    pub format_version: u32,
    /// The side whose inputs are recorded.
    pub dummy_side: Side,
    /// The start state, as the bytes of a match snapshot.
    pub start: Vec<u8>,
    /// The dummy's inputs, frame by frame.
    pub dummy_inputs: Vec<MatchInput>,
}

/// A recorded training setup, with its lists as sequences.
pub struct RecordingModel {
    /// The version of the recording.
    pub format_version: u32,
    /// The side whose inputs are recorded.
    pub dummy_side: Side,
    /// The start state.
    pub start: Seq<u8>,
    /// The dummy's inputs, frame by frame.
    pub dummy_inputs: Seq<MatchInput>,
}

impl View for TrainingRecording {
    type V = RecordingModel;

    open spec fn view(&self) -> RecordingModel {
        RecordingModel {
            format_version: self.format_version,
            dummy_side: self.dummy_side,
            start: self.start@,
            dummy_inputs: self.dummy_inputs@,
        }
    }
}

/// A recording, laid out.
pub open spec fn recording_wire(m: RecordingModel) -> RecordingParts {
    (
        m.format_version,
        side_tag(m.dummy_side),
        m.start,
        Seq::new(m.dummy_inputs.len(), |i: int| input_wire(m.dummy_inputs[i])),
    )
}

/// A laid-out recording; `None` where the side stands for nothing.
pub open spec fn wire_recording(p: RecordingParts) -> Option<RecordingModel> {
    match side_of(p.1) {
        Some(dummy_side) => Some(
            RecordingModel {
                format_version: p.0,
                dummy_side,
                start: p.2,
                dummy_inputs: Seq::new(p.3.len(), |i: int| wire_input(p.3[i])),
            },
        ),
        None => None,
    }
}

/// Whether `r` is what comes of reading a recording with the codec's result
/// `read`: the recording where its version is known, else the reason.
pub open spec fn recording_read(
    read: RecordingRead,
    r: Result<TrainingRecording, FpError>,
) -> bool {
    match read {
        Err(message) => r matches Err(FpError::Other(text)) && text@
            == "training recording deserialize failed: "@ + message,
        Ok(parts) => match wire_recording(parts) {
            None => r matches Err(FpError::Other(text)) && text@
                == "training recording deserialize failed: "@ + "tag for enum is not valid"@,
            Some(m) => if m.format_version == RECORDING_FORMAT_VERSION {
                r matches Ok(recording) && recording@ == m
            } else {
                r matches Err(e) && e == FpError::Mismatch(
                    Mismatch::Version {
                        found: m.format_version,
                        expected: RECORDING_FORMAT_VERSION,
                    },
                )
            },
        },
    }
}

/// Whether `r` is what comes of decoding `bytes`. The codec's message, where it
/// refuses them, may be any.
pub open spec fn recording_decodes(bytes: Seq<u8>, r: Result<TrainingRecording, FpError>) -> bool {
    exists|message: Seq<char>|
        recording_read(#[trigger] handed(recording_decoded(bytes), message), r)
}

impl TrainingRecording {
    /// Frames recorded.
    pub fn len(&self) -> (r: usize)
        ensures
            r == self@.dummy_inputs.len(),
    {
        self.dummy_inputs.len()
    }

    /// Whether nothing is recorded.
    pub fn is_empty(&self) -> (r: bool)
        ensures
            r == (self@.dummy_inputs.len() == 0),
    {
        self.dummy_inputs.len() == 0
    }

    /// Lays the recording out for the codec.
    fn to_wire(&self) -> (r: RecordingWire)
        ensures
            recording_parts(r) == recording_wire(self@),
    {
        let mut inputs: Vec<InputWire> = Vec::new();
        let mut i: usize = 0;
        while i < self.dummy_inputs.len()
            invariant
                i <= self.dummy_inputs@.len(),
                inputs@.len() == i,
                forall|k: int|
                    0 <= k < i ==> #[trigger] inputs@[k] == input_wire(self.dummy_inputs@[k]),
            decreases self.dummy_inputs.len() - i,
        {
            inputs.push(input_to_wire(&self.dummy_inputs[i]));
            i = i + 1;
        }
        let mut start: Vec<u8> = Vec::new();
        let mut j: usize = 0;
        while j < self.start.len()
            invariant
                j <= self.start@.len(),
                start@ =~= self.start@.take(j as int),
            decreases self.start.len() - j,
        {
            start.push(self.start[j]);
            j = j + 1;
        }
        assert(start@ =~= self.start@);
        assert(inputs@ =~= recording_wire(self@).3);
        (self.format_version, side_to_tag(self.dummy_side), start, inputs)
    }

    /// Encodes the recording. The bytes depend on the recording alone, reading them
    /// gives it back, and the codec refuses them where any are cut off.
    pub fn encode(&self) -> (r: Result<Vec<u8>, FpError>)
        ensures
            r is Ok,
            r->Ok_0@ == recording_encoded(recording_wire(self@)),
            recording_decoded(r->Ok_0@) == Some(recording_wire(self@)),
            forall|n: int|
                0 <= n < r->Ok_0@.len() ==> recording_decoded(#[trigger] r->Ok_0@.take(n)) is None,
    {
        match serialize_recording(&self.to_wire()) {
            Ok(bytes) => Ok(bytes),
            Err(e) => Err(explain("training recording serialize failed: ", &e)),
        }
    }

    /// Decodes a recording, and refuses one with another version.
    pub fn decode(bytes: &[u8]) -> (r: Result<TrainingRecording, FpError>)
        ensures
            recording_decodes(bytes@, r),
    {
        let read = deserialize_recording(bytes);
        let ghost message = read->Err_0@;
        let r = TrainingRecording::from_read(read);
        assert(recording_read(handed(recording_decoded(bytes@), message), r));
        r
    }

    /// Makes a recording of what the codec read.
    pub fn from_read(read: Result<RecordingWire, String>) -> (r: Result<TrainingRecording, FpError>)
        ensures
            recording_read(
                match read {
                    Ok(w) => RecordingRead::Ok(recording_parts(w)),
                    Err(e) => RecordingRead::Err(e@),
                },
                r,
            ),
    {
        let (format_version, tag, start, wire) = match read {
            Ok(w) => w,
            Err(e) => {
                return Err(explain("training recording deserialize failed: ", &e));
            },
        };
        let dummy_side = match side_from_tag(tag) {
            Some(side) => side,
            None => {
                return Err(
                    explain(
                        "training recording deserialize failed: ",
                        &"tag for enum is not valid".to_owned(),
                    ),
                );
            },
        };
        if format_version != RECORDING_FORMAT_VERSION {
            return Err(
                FpError::Mismatch(
                    Mismatch::Version {
                        found: format_version,
                        expected: RECORDING_FORMAT_VERSION,
                    },
                ),
            );
        }
        let mut dummy_inputs: Vec<MatchInput> = Vec::new();
        let mut i: usize = 0;
        while i < wire.len()
            invariant
                i <= wire@.len(),
                dummy_inputs@.len() == i,
                forall|k: int| 0 <= k < i ==> #[trigger] dummy_inputs@[k] == wire_input(wire@[k]),
            decreases wire.len() - i,
        {
            dummy_inputs.push(input_from_wire(&wire[i]));
            i = i + 1;
        }
        assert(dummy_inputs@ =~= Seq::new(wire@.len(), |i: int| wire_input(wire@[i])));
        Ok(TrainingRecording { format_version, dummy_side, start, dummy_inputs })
    }
}

/// The input of a side.
pub open spec fn input_of(side: Side, p1: MatchInput, p2: MatchInput) -> MatchInput {
    match side {
        Side::P1 => p1,
        Side::P2 => p2,
    }
}

/// Records a training setup.
pub struct TrainingRecorder<'m> {
    /// The match being recorded.
    pub game: &'m mut Match,
    /// The side whose inputs are recorded.
    pub dummy_side: Side,
    /// The start state.
    pub start: Vec<u8>,
    /// The dummy's inputs so far.
    pub dummy_inputs: Vec<MatchInput>,
}

impl<'m> TrainingRecorder<'m> {
    /// Begins to record, from the state the match is in. The host adds its part of
    /// either side to the start state.
    pub fn new(
        game: &'m mut Match,
        dummy_side: Side,
        p1_host: Vec<u8>,
        p2_host: Vec<u8>,
    ) -> (r: Result<TrainingRecorder<'m>, FpError>)
        ensures
            r matches Ok(recorder) && {
                &&& recorder.game@ == old(game)@
                &&& *final(game) == *final(recorder.game)
                &&& recorder.dummy_side == dummy_side
                &&& recorder.dummy_inputs@ == Seq::<MatchInput>::empty()
                &&& recorder.start@ == snapshot_encoded(
                    snapshot_wire(SnapshotModel::of(old(game)@, p1_host@, p2_host@)),
                )
                &&& snapshot_decoded(recorder.start@) == Some(
                    snapshot_wire(SnapshotModel::of(old(game)@, p1_host@, p2_host@)),
                )
            },
    {
        let start = match game.snapshot(p1_host, p2_host) {
            Ok(bytes) => bytes,
            Err(e) => {
                return Err(e);
            },
        };
        let dummy_inputs: Vec<MatchInput> = Vec::new();
        assert(dummy_inputs@ =~= Seq::<MatchInput>::empty());
        Ok(TrainingRecorder { game, dummy_side, start, dummy_inputs })
    }

    /// Opens a frame of the match and records the dummy's input.
    pub fn tick(&mut self, p1: MatchInput, p2: MatchInput) -> (r: Frame)
        ensures
            final(self).dummy_inputs@ == old(self).dummy_inputs@.push(
                input_of(old(self).dummy_side, p1, p2),
            ),
            final(self).dummy_side == old(self).dummy_side,
            final(self).start == old(self).start,
            final(self).game@ == opened(old(self).game@, p1, p2),
            just_opened(r, old(self).game@, p1, p2, None, None),
            *final(final(self).game) == *final(old(self).game),
    {
        let dummy = match self.dummy_side {
            Side::P1 => p1,
            Side::P2 => p2,
        };
        self.dummy_inputs.push(dummy);
        self.game.tick(p1, p2)
    }

    /// What the frame asks for next.
    pub fn request(&self, f: &Frame) -> (r: Request)
        ensures
            asks(old(self.game)@, *f, r),
    {
        self.game.request(f)
    }

    /// Takes in the host's reply to what the frame asked for.
    pub fn step(&mut self, f: &mut Frame, reply: Reply)
        ensures
            (final(self).game@, *final(f)) == stepped(old(self).game@, *old(f), reply),
            final(self).dummy_inputs == old(self).dummy_inputs,
            final(self).dummy_side == old(self).dummy_side,
            final(self).start == old(self).start,
            *final(final(self).game) == *final(old(self).game),
    {
        self.game.step(f, reply);
    }

    /// The match being recorded.
    pub fn match_ref(&self) -> (r: &Match)
        ensures
            r@ == old(self.game)@,
    {
        &*self.game
    }

    /// Frames recorded so far.
    pub fn len(&self) -> (r: usize)
        ensures
            r == self.dummy_inputs@.len(),
    {
        self.dummy_inputs.len()
    }

    /// Whether nothing is recorded yet.
    pub fn is_empty(&self) -> (r: bool)
        ensures
            r == (self.dummy_inputs@.len() == 0),
    {
        self.dummy_inputs.len() == 0
    }

    /// Stops recording.
    pub fn into_recording(self) -> (r: TrainingRecording)
        ensures
            r@ == (RecordingModel {
                format_version: RECORDING_FORMAT_VERSION,
                dummy_side: self.dummy_side,
                start: self.start@,
                dummy_inputs: self.dummy_inputs@,
            }),
    {
        TrainingRecording {
            format_version: RECORDING_FORMAT_VERSION,
            dummy_side: self.dummy_side,
            start: self.start,
            dummy_inputs: self.dummy_inputs,
        }
    }
}

/// A step of a playback.
#[derive(Debug, Clone)]
pub struct PlaybackStep {
    /// The host's part of either side, where the start state was put back. The host
    /// takes it in before it runs the frame.
    pub reseated: Option<(Vec<u8>, Vec<u8>)>,
    /// The frame to run; none where there is nothing to play.
    pub frame: Option<Frame>,
}

/// Plays a training setup back in a loop.
pub struct TrainingPlayback<'m> {
    /// The match.
    pub game: &'m mut Match,
    /// The recording.
    pub recording: TrainingRecording,
    /// The next frame of the recording.
    pub cursor: usize,
}

/// The inputs of a frame in which the dummy is on the given side.
pub open spec fn paired(dummy_side: Side, dummy: MatchInput, player: MatchInput) -> (
    MatchInput,
    MatchInput,
) {
    match dummy_side {
        Side::P1 => (dummy, player),
        Side::P2 => (player, dummy),
    }
}

/// Whether a frame has been opened on `before`, giving `after`, with the dummy fed
/// its recorded input `i`.
pub open spec fn played(
    recording: RecordingModel,
    i: int,
    player: MatchInput,
    before: MatchModel,
    after: MatchModel,
    step: PlaybackStep,
) -> bool {
    let (p1, p2) = paired(recording.dummy_side, recording.dummy_inputs[i], player);
    &&& after == opened(before, p1, p2)
    &&& step.frame matches Some(f) && just_opened(f, before, p1, p2, None, None)
}

/// The start state of a recording, where its bytes hold one.
pub open spec fn start_state(recording: RecordingModel) -> Option<SnapshotModel> {
    match snapshot_decoded(recording.start) {
        Some(parts) => wire_snapshot(parts),
        None => None,
    }
}

/// Whether a recording can be put back into a match.
pub open spec fn seats(recording: RecordingModel, m: MatchModel) -> bool {
    start_state(recording) matches Some(s) && s.fits(m)
}

/// What comes of going back to the start of a recording: where it can be put back
/// the match is in the start state with nothing on stage that a player owns, and
/// the host gets its parts; else the match is as it was.
pub open spec fn back_at_start(
    recording: RecordingModel,
    before: MatchModel,
    after: MatchModel,
    r: Result<(Vec<u8>, Vec<u8>), FpError>,
) -> bool {
    if seats(recording, before) {
        let s = start_state(recording)->0;
        &&& after == s.onto(before).swept()
        &&& r matches Ok(host) && host.0@ == s.p1_host && host.1@ == s.p2_host
    } else {
        &&& after == before
        &&& r matches Err(e) && restored_from(recording.start, before, before, Err(e))
    }
}

/// What comes of a tick of a playback. At the end of the inputs the match goes back
/// to the start first; where that fails nothing changes.
pub open spec fn playback_ticked(
    recording: RecordingModel,
    cursor: usize,
    player: MatchInput,
    before: MatchModel,
    after: MatchModel,
    next: usize,
    r: Result<PlaybackStep, FpError>,
) -> bool {
    let len = recording.dummy_inputs.len();
    if cursor < len {
        &&& next == cursor + 1
        &&& r matches Ok(step) && step.reseated is None && played(
            recording,
            cursor as int,
            player,
            before,
            after,
            step,
        )
    } else if seats(recording, before) {
        let s = start_state(recording)->0;
        &&& r matches Ok(step) && {
            &&& step.reseated matches Some(host) && host.0@ == s.p1_host && host.1@ == s.p2_host
            &&& if len == 0 {
                next == 0 && step.frame is None && after == s.onto(before).swept()
            } else {
                next == 1 && played(recording, 0, player, s.onto(before).swept(), after, step)
            }
        }
    } else {
        &&& r matches Err(e) && restored_from(recording.start, before, before, Err(e))
        &&& next == cursor
        &&& after == before
    }
}

impl<'m> TrainingPlayback<'m> {
    /// Begins to play back into a match of the same characters, which is put into
    /// the start state, with nothing on stage that a player owns. The host gets its
    /// part of either side.
    pub fn new(game: &'m mut Match, recording: TrainingRecording) -> (r: Result<
        (TrainingPlayback<'m>, (Vec<u8>, Vec<u8>)),
        FpError,
    >)
        ensures
            r is Ok == seats(recording@, old(game)@),
            r matches Ok((playback, host)) ==> {
                &&& playback.recording == recording
                &&& playback.cursor == 0
                &&& *final(game) == *final(playback.game)
                &&& back_at_start(recording@, old(game)@, playback.game@, Ok(host))
            },
            r matches Err(e) ==> back_at_start(recording@, old(game)@, final(game)@, Err(e)),
    {
        let host = match game.restore_snapshot(recording.start.as_slice()) {
            Ok(host) => host,
            Err(e) => {
                return Err(e);
            },
        };
        game.sweep_stage();
        Ok((TrainingPlayback { game, recording, cursor: 0 }, host))
    }

    /// The side that is played back.
    pub fn dummy_side(&self) -> (r: Side)
        ensures
            r == self.recording@.dummy_side,
    {
        self.recording.dummy_side
    }

    /// The next frame of the recording.
    pub fn cursor(&self) -> (r: usize)
        ensures
            r == self.cursor,
    {
        self.cursor
    }

    /// Whether the next tick starts over.
    pub fn at_loop_boundary(&self) -> (r: bool)
        ensures
            r == (self.cursor >= self.recording@.dummy_inputs.len()),
    {
        self.cursor >= self.recording.dummy_inputs.len()
    }

    /// Puts the start state back, takes what the players own off the stage, and
    /// rewinds the recording. The host gets its part of either side.
    pub fn reset(&mut self) -> (r: Result<(Vec<u8>, Vec<u8>), FpError>)
        ensures
            back_at_start(old(self).recording@, old(self).game@, final(self).game@, r),
            final(self).cursor == if r is Ok {
                0
            } else {
                old(self).cursor
            },
            final(self).recording == old(self).recording,
            *final(final(self).game) == *final(old(self).game),
    {
        match self.game.restore_snapshot(self.recording.start.as_slice()) {
            Ok(host) => {
                self.game.sweep_stage();
                self.cursor = 0;
                Ok(host)
            },
            Err(e) => Err(e),
        }
    }

    /// Opens the next frame: the dummy gets its recorded input, the other side
    /// `player_input`. At the end of the inputs the match goes back to the start first.
    pub fn tick(&mut self, player_input: MatchInput) -> (r: Result<PlaybackStep, FpError>)
        ensures
            playback_ticked(
                old(self).recording@,
                old(self).cursor,
                player_input,
                old(self).game@,
                final(self).game@,
                final(self).cursor,
                r,
            ),
            final(self).recording == old(self).recording,
            *final(final(self).game) == *final(old(self).game),
    {
        let mut reseated: Option<(Vec<u8>, Vec<u8>)> = None;
        if self.cursor >= self.recording.dummy_inputs.len() {
            match self.reset() {
                Ok(host) => {
                    reseated = Some(host);
                },
                Err(e) => {
                    return Err(e);
                },
            }
            if self.recording.dummy_inputs.len() == 0 {
                return Ok(PlaybackStep { reseated, frame: None });
            }
        }
        let dummy = self.recording.dummy_inputs[self.cursor];
        let (p1, p2) = match self.recording.dummy_side {
            Side::P1 => (dummy, player_input),
            Side::P2 => (player_input, dummy),
        };
        let frame = self.game.tick(p1, p2);
        self.cursor = self.cursor + 1;
        Ok(PlaybackStep { reseated, frame: Some(frame) })
    }

    /// What the frame asks for next.
    pub fn request(&self, f: &Frame) -> (r: Request)
        ensures
            asks(old(self.game)@, *f, r),
    {
        self.game.request(f)
    }

    /// Takes in the host's reply to what the frame asked for.
    pub fn step(&mut self, f: &mut Frame, reply: Reply)
        ensures
            (final(self).game@, *final(f)) == stepped(old(self).game@, *old(f), reply),
            final(self).recording == old(self).recording,
            final(self).cursor == old(self).cursor,
            *final(final(self).game) == *final(old(self).game),
    {
        self.game.step(f, reply);
    }

    /// The match.
    pub fn match_ref(&self) -> (r: &Match)
        ensures
            r@ == old(self.game)@,
    {
        &*self.game
    }
}

/// What is read from the bytes of a recording is the recording: encoding and
/// decoding give every recording of this build's version back.
pub proof fn recording_round_trip(
    recording: RecordingModel,
    bytes: Seq<u8>,
    r: Result<TrainingRecording, FpError>,
)
    requires
        recording.format_version == RECORDING_FORMAT_VERSION,
        recording_decoded(bytes) == Some(recording_wire(recording)),
        recording_decodes(bytes, r),
    ensures
        r matches Ok(read) && read@ == recording,
{
    let parts = recording_wire(recording);
    assert(Seq::new(parts.3.len(), |i: int| wire_input(parts.3[i])) =~= recording.dummy_inputs);
}

/// A recording of another version is refused, with both versions.
pub proof fn foreign_recording_is_refused(
    recording: RecordingModel,
    bytes: Seq<u8>,
    r: Result<TrainingRecording, FpError>,
)
    requires
        recording.format_version != RECORDING_FORMAT_VERSION,
        recording_decoded(bytes) == Some(recording_wire(recording)),
        recording_decodes(bytes, r),
    ensures
        r matches Err(e) && e == FpError::Mismatch(
            Mismatch::Version {
                found: recording.format_version,
                expected: RECORDING_FORMAT_VERSION,
            },
        ),
{
}

/// Bytes that the codec refuses, such as those of a recording with some cut off,
/// hold no recording.
pub proof fn unreadable_recording_is_refused(
    bytes: Seq<u8>,
    r: Result<TrainingRecording, FpError>,
)
    requires
        recording_decoded(bytes) is None,
        recording_decodes(bytes, r),
    ensures
        r matches Err(FpError::Other(_)),
{
}

/// The cursor of a playback of `len` inputs before its tick `n`, counted from 0.
pub open spec fn cursor_before(len: nat, n: nat) -> nat
    decreases n,
{
    if n == 0 {
        0
    } else {
        let c = cursor_before(len, (n - 1) as nat);
        if c >= len {
            1
        } else {
            c + 1
        }
    }
}

/// The index of the input that the dummy is fed on tick `n` of a playback of `len`
/// inputs.
pub open spec fn fed_index(len: nat, n: nat) -> nat {
    let c = cursor_before(len, n);
    if c >= len {
        0
    } else {
        c
    }
}

/// A playback goes round and round: on tick `n` the dummy is fed input `n` modulo
/// their number, and the start state is put back exactly when a loop begins anew.
pub proof fn playback_loops(len: nat, n: nat)
    requires
        len > 0,
    ensures
        fed_index(len, n) == n % len,
        (cursor_before(len, n) >= len) == (n > 0 && n % len == 0),
        cursor_before(len, n) <= len,
    decreases n,
{
    if n == 0 {
        vstd::arithmetic::div_mod::lemma_small_mod(0, len);
    } else {
        let before = (n - 1) as nat;
        playback_loops(len, before);
        let q = before as int / len as int;
        let r = before as int % len as int;
        vstd::arithmetic::div_mod::lemma_fundamental_div_mod(before as int, len as int);
        assert(0 <= r < len) by {
            vstd::arithmetic::div_mod::lemma_mod_bound(before as int, len as int);
        }
        if r + 1 < len {
            vstd::arithmetic::div_mod::lemma_fundamental_div_mod_converse(
                n as int,
                len as int,
                q,
                r + 1,
            );
        } else {
            assert(n == (q + 1) * len) by (nonlinear_arith)
                requires
                    n == before + 1,
                    before == len * q + r,
                    r + 1 == len,
            ;
            vstd::arithmetic::div_mod::lemma_fundamental_div_mod_converse(
                n as int,
                len as int,
                q + 1,
                0,
            );
        }
    }
}

/// Every loop of a playback starts from the same state: whatever the match was
/// like, once it is back at the start a snapshot of it is the recorded one, and
/// there is nothing on stage that a player owns.
pub proof fn loops_start_the_same(recording: RecordingModel, m: MatchModel)
    requires
        seats(recording, m),
    ensures
        ({
            let s = start_state(recording)->0;
            let after = s.onto(m).swept();
            &&& SnapshotModel::of(after, s.p1_host, s.p2_host) == s
            &&& after == after.swept()
        }),
{
    crate::snapshot::restored_snapshot_is_the_same(start_state(recording)->0, m);
}

/// A recording can be played back into any match of the characters that it was
/// recorded with.
pub proof fn recording_seats_its_characters(
    recording: RecordingModel,
    taken_from: MatchModel,
    p1_host: Seq<u8>,
    p2_host: Seq<u8>,
    m: MatchModel,
)
    requires
        snapshot_decoded(recording.start) == Some(
            snapshot_wire(SnapshotModel::of(taken_from, p1_host, p2_host)),
        ),
        m.p1.loaded.fingerprint == taken_from.p1.loaded.fingerprint,
        m.p2.loaded.fingerprint == taken_from.p2.loaded.fingerprint,
    ensures
        seats(recording, m),
        start_state(recording) == Some(SnapshotModel::of(taken_from, p1_host, p2_host)),
{
    crate::wire::snapshot_round_trip(SnapshotModel::of(taken_from, p1_host, p2_host));
}

/// The dummy keeps its side: while a recording plays, the side that was recorded is
/// fed what was recorded, frame by frame, and the other side what the player does.
pub proof fn the_dummy_keeps_its_side(
    recording: RecordingModel,
    cursor: usize,
    player: MatchInput,
    before: MatchModel,
    after: MatchModel,
    next: usize,
    step: PlaybackStep,
)
    requires
        recording.dummy_inputs.len() > 0,
        playback_ticked(recording, cursor, player, before, after, next, Ok(step)),
    ensures
        ({
            let i: int = if cursor < recording.dummy_inputs.len() {
                cursor as int
            } else {
                0
            };
            let fed = recording.dummy_inputs[i];
            &&& step.frame is Some
            &&& recording.dummy_side == Side::P1 ==> step.frame->0.p1_input == fed
                && step.frame->0.p2_input == player
            &&& recording.dummy_side == Side::P2 ==> step.frame->0.p2_input == fed
                && step.frame->0.p1_input == player
            &&& next == i + 1
            &&& step.reseated is Some <==> cursor >= recording.dummy_inputs.len()
        }),
{
}

/// What is recorded of a frame is the input of the dummy's side.
pub proof fn the_dummy_is_recorded(p1: MatchInput, p2: MatchInput)
    ensures
        input_of(Side::P1, p1, p2) == p1,
        input_of(Side::P2, p1, p2) == p2,
{
}

/// Going back to the start, where the recording was made with the characters of the
/// match, gives the recorded state back with the host's parts, and leaves nothing of
/// the loop before on stage, on either side.
pub proof fn nothing_is_left_on_stage(
    recording: RecordingModel,
    before: MatchModel,
    after: MatchModel,
    host: (Vec<u8>, Vec<u8>),
)
    requires
        back_at_start(recording, before, after, Ok(host)),
    ensures
        start_state(recording) == Some(SnapshotModel::of(after, host.0@, host.1@)),
        before.p1.loaded == after.p1.loaded && before.p2.loaded == after.p2.loaded,
        after.p1.helpers.len() == 0 && after.p2.helpers.len() == 0,
        after.p1.projectiles.len() == 0 && after.p2.projectiles.len() == 0,
        after.p1.explods.len() == 0 && after.p2.explods.len() == 0,
{
    crate::snapshot::restored_snapshot_is_the_same(start_state(recording)->0, before);
}

/// A recording of another character cannot be gone back to, and the match stays as it
/// is.
pub proof fn foreign_starts_are_refused(
    recording: RecordingModel,
    before: MatchModel,
    after: MatchModel,
    r: Result<(Vec<u8>, Vec<u8>), FpError>,
    s: SnapshotModel,
)
    requires
        back_at_start(recording, before, after, r),
        start_state(recording) == Some(s),
        s.p1_fingerprint != before.p1.loaded.fingerprint || s.p2_fingerprint
            != before.p2.loaded.fingerprint,
    ensures
        r is Err,
        after == before,
{
}

/// A recording of a side that does not exist is not read.
pub proof fn unknown_sides_are_refused(
    bytes: Seq<u8>,
    parts: RecordingParts,
    r: Result<TrainingRecording, FpError>,
)
    requires
        recording_decoded(bytes) == Some(parts),
        parts.1 > 1,
        recording_decodes(bytes, r),
    ensures
        r matches Err(FpError::Other(_)),
{
}

} // verus!
