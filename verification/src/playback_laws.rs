//! What holds of a playback over many ticks.

use vstd::arithmetic::div_mod::{lemma_add_mod_noop, lemma_small_mod};
use vstd::prelude::*;

use crate::frame::Reply;
use crate::frame_laws::{conversed, same_answers_same_match};
use crate::game::MatchModel;
use crate::input::MatchInput;
use crate::player::PlayerModel;
use crate::readout_laws::{
    conversation_is_steady, opening_clears_readouts, readouts_do_not_matter,
};
use crate::record::{
    cursor_before, paired, playback_loops, playback_ticked, played, seats, start_state,
    PlaybackStep, RecordingModel,
};
use crate::round::Side;

verus! {

impl PlayerModel {
    /// Whether two players agree on what the host alone decides of a fighter: its
    /// handle and its size.
    pub open spec fn same_body(self, other: PlayerModel) -> bool {
        &&& self.character.entity == other.character.entity
        &&& self.character.size == other.character.size
    }
}

impl MatchModel {
    /// Whether two matches agree, on either side, on what the host alone decides of
    /// a fighter.
    pub open spec fn same_bodies(self, other: MatchModel) -> bool {
        self.p1.same_body(other.p1) && self.p2.same_body(other.p2)
    }
}

/// A playback, tick by tick.
pub struct PlaybackRun {
    /// The match before each tick, and after the last.
    pub states: Seq<MatchModel>,
    /// The match as each tick opens its frame.
    pub openings: Seq<MatchModel>,
    /// What each tick gave.
    pub steps: Seq<PlaybackStep>,
    /// The cursor before each tick, and after the last.
    pub cursors: Seq<usize>,
}

impl PlaybackRun {
    /// Whether tick `t` went as a tick of a playback goes, and its frame was then run
    /// with the given answers.
    pub open spec fn ticks(
        self,
        recording: RecordingModel,
        players: Seq<MatchInput>,
        answers: Seq<Seq<Reply>>,
        t: int,
    ) -> bool {
        &&& playback_ticked(
            recording,
            self.cursors[t],
            players[t],
            self.states[t],
            self.openings[t],
            self.cursors[t + 1],
            Ok(self.steps[t]),
        )
        &&& self.steps[t].frame matches Some(f) && self.states[t + 1] == conversed(
            self.openings[t],
            f,
            answers[t],
        ).0
    }

    /// Whether this is the playback of a recording into `m`, against the inputs of
    /// the player and with the answers of the host, both tick by tick.
    pub open spec fn plays_back(
        self,
        recording: RecordingModel,
        m: MatchModel,
        players: Seq<MatchInput>,
        answers: Seq<Seq<Reply>>,
    ) -> bool {
        &&& seats(recording, m)
        &&& self.states[0] == start_state(recording)->0.onto(m).swept()
        &&& self.cursors[0] == 0
        &&& forall|t: int|
            0 <= t < players.len() ==> #[trigger] self.ticks(recording, players, answers, t)
    }
}

/// The cursor of a playback is what the number of ticks makes it.
proof fn cursor_follows(
    run: PlaybackRun,
    recording: RecordingModel,
    m: MatchModel,
    players: Seq<MatchInput>,
    answers: Seq<Seq<Reply>>,
    t: int,
)
    requires
        run.plays_back(recording, m, players, answers),
        recording.dummy_inputs.len() > 0,
        0 <= t <= players.len(),
    ensures
        run.cursors[t] == cursor_before(recording.dummy_inputs.len(), t as nat),
    decreases t,
{
    if t > 0 {
        cursor_follows(run, recording, m, players, answers, t - 1);
        assert(run.ticks(recording, players, answers, t - 1));
    }
}

/// A playback keeps the assets of the match.
proof fn playback_keeps_assets(
    run: PlaybackRun,
    recording: RecordingModel,
    m: MatchModel,
    players: Seq<MatchInput>,
    answers: Seq<Seq<Reply>>,
    t: int,
)
    requires
        run.plays_back(recording, m, players, answers),
        0 <= t <= players.len(),
    ensures
        m.same_assets(run.states[t]),
    decreases t,
{
    if t > 0 {
        let before = t - 1;
        playback_keeps_assets(run, recording, m, players, answers, before);
        assert(run.ticks(recording, players, answers, before));
        let c = run.cursors[before];
        let len = recording.dummy_inputs.len();
        let (base, i) = if c < len {
            (run.states[before], c as int)
        } else {
            (start_state(recording)->0.onto(run.states[before]).swept(), 0)
        };
        let (p1, p2) = paired(
            recording.dummy_side,
            recording.dummy_inputs[i],
            players[before],
        );
        opening_clears_readouts(base, p1, p2);
        conversation_is_steady(
            run.openings[before],
            run.steps[before].frame->0,
            answers[before],
            Side::P1,
        );
    }
}

/// Frames that are opened alike on matches that agree, and run with the same
/// answers, end the same.
proof fn frames_end_the_same(
    recording: RecordingModel,
    i: int,
    player: MatchInput,
    replies: Seq<Reply>,
    x: MatchModel,
    x_opened: MatchModel,
    x_step: PlaybackStep,
    y: MatchModel,
    y_opened: MatchModel,
    y_step: PlaybackStep,
)
    requires
        x.unread() == y.unread(),
        played(recording, i, player, x, x_opened, x_step),
        played(recording, i, player, y, y_opened, y_step),
    ensures
        conversed(x_opened, x_step.frame->0, replies).0 == conversed(
            y_opened,
            y_step.frame->0,
            replies,
        ).0,
{
    let (p1, p2) = paired(recording.dummy_side, recording.dummy_inputs[i], player);
    readouts_do_not_matter(x, y, p1, p2);
    assert(x.p1.unread() == y.p1.unread());
    assert(x.p2.unread() == y.p2.unread());
    same_answers_same_match(x, x_step.frame->0, y_step.frame->0, p1, p2, None, None, replies);
}

/// A loop of a playback begins with the start state put back.
proof fn loop_begins(
    run: PlaybackRun,
    recording: RecordingModel,
    m: MatchModel,
    players: Seq<MatchInput>,
    answers: Seq<Seq<Reply>>,
    start: int,
)
    requires
        run.plays_back(recording, m, players, answers),
        recording.dummy_inputs.len() > 0,
        0 <= start < players.len(),
        start % recording.dummy_inputs.len() as int == 0,
    ensures
        played(
            recording,
            0,
            players[start],
            start_state(recording)->0.onto(run.states[start]).swept(),
            run.openings[start],
            run.steps[start],
        ),
{
    cursor_follows(run, recording, m, players, answers, start);
    playback_loops(recording.dummy_inputs.len(), start as nat);
    assert(run.ticks(recording, players, answers, start));
    if start == 0 {
        let s = start_state(recording)->0;
        assert(s.onto(s.onto(m).swept()).swept() == s.onto(m).swept());
    }
}

/// A loop of a playback goes on with the next recorded input.
proof fn loop_goes_on(
    run: PlaybackRun,
    recording: RecordingModel,
    m: MatchModel,
    players: Seq<MatchInput>,
    answers: Seq<Seq<Reply>>,
    start: int,
    k: int,
)
    requires
        run.plays_back(recording, m, players, answers),
        0 < k < recording.dummy_inputs.len(),
        0 <= start,
        start + k < players.len(),
        start % recording.dummy_inputs.len() as int == 0,
    ensures
        played(
            recording,
            k,
            players[start + k],
            run.states[start + k],
            run.openings[start + k],
            run.steps[start + k],
        ),
{
    let n = recording.dummy_inputs.len();
    let t = start + k;
    cursor_follows(run, recording, m, players, answers, t);
    playback_loops(n, t as nat);
    assert(t % n as int == k) by {
        lemma_add_mod_noop(start, k, n as int);
        lemma_small_mod(k as nat, n);
    }
    assert(run.ticks(recording, players, answers, t));
}

/// Loops of a playback repeat: two loops that begin at ticks `i` and `j`, against
/// the same inputs of the player and with the same answers of the host, go through
/// the same states, frame by frame, whatever was on stage as they began. The host
/// has to have kept the handles and sizes of the two fighters; all else is put back
/// or taken off the stage.
pub proof fn loops_repeat(
    run: PlaybackRun,
    recording: RecordingModel,
    m: MatchModel,
    players: Seq<MatchInput>,
    answers: Seq<Seq<Reply>>,
    i: int,
    j: int,
    k: int,
)
    requires
        run.plays_back(recording, m, players, answers),
        0 < k <= recording.dummy_inputs.len(),
        i % recording.dummy_inputs.len() as int == 0,
        j % recording.dummy_inputs.len() as int == 0,
        0 <= i,
        0 <= j,
        i + k <= players.len(),
        j + k <= players.len(),
        run.states[i].same_bodies(run.states[j]),
        forall|t: int|
            0 <= t < k ==> #[trigger] players[i + t] == players[j + t] && answers[i + t]
                == answers[j + t],
    ensures
        run.states[i + k] == run.states[j + k],
    decreases k,
{
    let last = k - 1;
    assert(players[i + last] == players[j + last] && answers[i + last] == answers[j + last]);
    assert(run.ticks(recording, players, answers, i + last));
    assert(run.ticks(recording, players, answers, j + last));
    if last == 0 {
        let s = start_state(recording)->0;
        let x = run.states[i];
        let y = run.states[j];
        loop_begins(run, recording, m, players, answers, i);
        loop_begins(run, recording, m, players, answers, j);
        playback_keeps_assets(run, recording, m, players, answers, i);
        playback_keeps_assets(run, recording, m, players, answers, j);
        assert(s.onto(x).swept().unread() == s.onto(y).swept().unread());
        frames_end_the_same(
            recording,
            0,
            players[i],
            answers[i],
            s.onto(x).swept(),
            run.openings[i],
            run.steps[i],
            s.onto(y).swept(),
            run.openings[j],
            run.steps[j],
        );
    } else {
        loops_repeat(run, recording, m, players, answers, i, j, last);
        loop_goes_on(run, recording, m, players, answers, i, last);
        loop_goes_on(run, recording, m, players, answers, j, last);
        frames_end_the_same(
            recording,
            last,
            players[i + last],
            answers[i + last],
            run.states[i + last],
            run.openings[i + last],
            run.steps[i + last],
            run.states[j + last],
            run.openings[j + last],
            run.steps[j + last],
        );
    }
}

} // verus!
