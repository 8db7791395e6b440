//! The two-player match coordinator of a 60Hz fighting game.
//!
//! A [`Match`] owns two [`Player`]s, the round clock and the best-of-N flow. It
//! decides what happens on a frame and in which order. What it cannot do itself
//! (run a character's state machine, test collision boxes, add coordinates) it
//! asks its host for, one [`Request`] at a time, and goes on from the [`Reply`].
//!
//! A frame is opened with [`Match::tick`]. While [`Match::request`] asks for
//! something, the host does it and hands the result to [`Match::step`].
//!
//! Snapshots ([`MatchSnapshot`]), replays ([`ReplayLog`]) and training setups
//! ([`TrainingRecording`]) are saved through `bincode`.
//!
//! Counters that only ever grow (frames shown, rounds played, game time) stop at
//! the end of their range.

pub mod air;
pub mod answer_laws;
pub mod arith;
pub mod character;
pub mod codec;
pub mod dummy;
pub mod effect;
pub mod error;
pub mod explod;
pub mod frame;
pub mod frame_laws;
pub mod freeze;
pub mod game;
pub mod helper;
pub mod input;
pub mod order_laws;
pub mod orders_laws;
pub mod playback_laws;
pub mod player;
pub mod projectile;
pub mod readout_laws;
pub mod record;
pub mod replay;
pub mod report;
pub mod request_laws;
pub mod round;
pub mod round_laws;
pub mod scalar;
pub mod snapshot;
pub mod stage;
pub mod tick;
pub mod wire;

pub use air::{
    current_frame_clsn, effect_lifetime, elapsed_in_action, AirFile, AnimAction, AnimFrame, Rect,
    SpriteId, EFFECT_MAX_LIFETIME,
};
pub use character::{
    apply_target_op, apply_target_ops, face_each_other, face_each_other_when_neutral,
    facing_opposite, facings_toward, is_neutral_facing_state, reset_fighter_for_round, BodySize,
    Character, CommandSource, Facing, HitDef, MoveType, Priority, PriorityType, RoundResetState,
    RoundView, SparkSource, StateType, TargetOp, TargetWork, WidthOverride,
};
pub use dummy::{dummy_input, set_block, DummyMode, JUMP_HOLD_TICKS, JUMP_PERIOD_TICKS};
pub use effect::{advance_effect_frame, Effect, EffectSide};
pub use error::{FpError, Mismatch};
pub use explod::{
    advance_explod_frame, explod_id_matches, explod_lifetime, Explod, EXPLOD_MAX_LIFETIME,
    MAX_EXPLODS_PER_PLAYER,
};
pub use frame::{Feed, Frame, Landed, Reply, Request, Stage};
pub use freeze::{Freeze, FreezeExempt};
pub use game::{AiObservation, ClashOutcome, ClashProbe, Flow, Match, RoundInit};
pub use helper::{Helper, HelperBirth, HelperTick, MAX_HELPERS_PER_PLAYER};
pub use input::{
    logical_direction, match_input_to_state, Button, Direction, InputState, LogicalDirection,
    MatchInput,
};
pub use player::{
    compute_frame_advantage, directional_contact, frame_advantage, AiDifficulty,
    CharacterFingerprint, ContactProbe, HelperRun, LoadedCharacter, Player, PlayerDriver,
    PushBody, RedirectGraph,
};
pub use projectile::{
    advance_projectile_frame, Projectile, ProjectileBirth, MAX_PROJECTILES_PER_PLAYER,
    OFFSCREEN_MARGIN,
};
pub use record::{
    PlaybackStep, TrainingPlayback, TrainingRecorder, TrainingRecording, RECORDING_FORMAT_VERSION,
};
pub use replay::{
    replay_match, MatchRecorder, Replay, ReplayError, ReplayLog, REPLAY_FORMAT_VERSION, UNSTAMPED,
};
pub use report::{
    hit_sound_request, ExplodOp, ExplodSpawn, FreezeKind, FreezeRequest, HelperSpawn, Orders,
    ProjectileSpawn, SoundId, SoundRequest, TickReport,
};
pub use round::{
    compare_life, derive_player_seed, MatchState, RoundState, Side, Winner, DEFAULT_MATCH_SEED,
    DEFAULT_ROUNDS_TO_WIN, DEFAULT_ROUND_SECONDS, INTRO_FRAMES, KO_FRAMES, ROUND_INIT_STATE,
    TICKS_PER_SECOND,
};
pub use scalar::{Offset, Placement, Scalar, Vec2};
pub use snapshot::{CharacterSnapshot, MatchSnapshot, PlayerSnapshot};
pub use stage::{back_edge_x, front_edge_x, PosType, StageBounds, StageView};
