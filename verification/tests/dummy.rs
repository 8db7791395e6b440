use fp_engine::{
    dummy_input, set_block, DummyMode, MatchInput, JUMP_HOLD_TICKS, JUMP_PERIOD_TICKS,
};

#[test]
fn stand_and_cpu_emit_nothing() {
    assert_eq!(
        dummy_input(DummyMode::Stand, true, false, 0),
        MatchInput::none()
    );
    assert_eq!(
        dummy_input(DummyMode::Cpu, true, true, 7),
        MatchInput::none()
    );
}

#[test]
fn crouch_holds_down() {
    let i = dummy_input(DummyMode::Crouch, true, false, 0);
    assert!(i.down, "crouch holds down");
    assert!(!i.up && !i.left && !i.right, "crouch holds only down");
}

#[test]
fn jumploop_pulses_up_then_releases() {
    // Held at the start of a period, released later - a repeating cadence.
    assert!(
        dummy_input(DummyMode::JumpLoop, true, false, 0).up,
        "up held at period start"
    );
    assert!(
        !dummy_input(DummyMode::JumpLoop, true, false, JUMP_HOLD_TICKS).up,
        "up released after the hold window so the press edge re-arms"
    );
    assert!(
        dummy_input(DummyMode::JumpLoop, true, false, JUMP_PERIOD_TICKS).up,
        "up held again at the next period start"
    );
}

#[test]
fn blockall_holds_away_from_opponent() {
    // Opponent on the right means guard left.
    let right = dummy_input(DummyMode::BlockAll, true, false, 0);
    assert!(
        right.left && !right.right,
        "guard left when opponent is right"
    );
    // Opponent on the left means guard right (crossup flips the direction).
    let left = dummy_input(DummyMode::BlockAll, false, false, 0);
    assert!(
        left.right && !left.left,
        "guard right when opponent is left"
    );
}

#[test]
fn blockall_is_crossup_correct_each_tick() {
    // A jump-over flips opponent_on_right tick-to-tick; the guard direction
    // must follow it without any latched state.
    let before = dummy_input(DummyMode::BlockAll, true, false, 10);
    let after = dummy_input(DummyMode::BlockAll, false, false, 11);
    assert!(before.left, "guarding left before the cross-up");
    assert!(after.right, "guarding right after the cross-up");
}

#[test]
fn blockafterfirst_only_guards_once_hit() {
    // Not yet hit: stands (lets the first hit land).
    let pre = dummy_input(DummyMode::BlockAfterFirst, true, false, 0);
    assert_eq!(pre, MatchInput::none(), "stands until the first hit lands");
    // After being hit: guards away from the opponent.
    let post = dummy_input(DummyMode::BlockAfterFirst, true, true, 1);
    assert!(
        post.left,
        "guards left after the first hit (opponent right)"
    );
    // Crossup-correct after the hit too.
    let post_crossup = dummy_input(DummyMode::BlockAfterFirst, false, true, 2);
    assert!(post_crossup.right, "guards right after a cross-up post-hit");
}

#[test]
fn mode_cycle_visits_every_stance_and_wraps() {
    let mut m = DummyMode::Stand;
    let mut seen = vec![m];
    for _ in 0..6 {
        m = m.cycle_next();
        seen.push(m);
    }
    assert_eq!(seen.first(), seen.last(), "cycle wraps back to Stand");
    assert!(seen.contains(&DummyMode::BlockAll));
    assert!(seen.contains(&DummyMode::BlockAfterFirst));
    assert!(seen.contains(&DummyMode::Cpu));
}

#[test]
fn is_cpu_only_for_cpu_mode() {
    assert!(DummyMode::Cpu.is_cpu());
    for m in [
        DummyMode::Stand,
        DummyMode::Crouch,
        DummyMode::JumpLoop,
        DummyMode::BlockAll,
        DummyMode::BlockAfterFirst,
    ] {
        assert!(!m.is_cpu(), "{m:?} is not CPU");
    }
}

#[test]
fn labels_name_the_modes() {
    assert_eq!(DummyMode::Stand.label(), "STAND");
    assert_eq!(DummyMode::Crouch.label(), "CROUCH");
    assert_eq!(DummyMode::JumpLoop.label(), "JUMP");
    assert_eq!(DummyMode::BlockAll.label(), "BLOCK ALL");
    assert_eq!(DummyMode::BlockAfterFirst.label(), "BLOCK AFTER 1ST");
    assert_eq!(DummyMode::Cpu.label(), "CPU");
    assert_eq!(DummyMode::default(), DummyMode::Stand);
}

#[test]
fn every_mode_comes_back_after_six_steps() {
    let mut mode = DummyMode::BlockAll;
    for step in 1..=6 {
        mode = mode.cycle_next();
        assert_eq!(mode == DummyMode::BlockAll, step == 6);
    }
}

#[test]
fn jumping_holds_up_on_the_first_frames_of_every_cycle() {
    for tick in 0..(4 * JUMP_PERIOD_TICKS) {
        let up = dummy_input(DummyMode::JumpLoop, false, false, tick).up;
        assert_eq!(up, tick % 30 < 4, "tick {tick}");
    }
    assert!(!dummy_input(DummyMode::JumpLoop, false, false, u64::MAX).up);
}

#[test]
fn set_block_keeps_what_is_held() {
    let mut input = MatchInput {
        down: true,
        a: true,
        ..MatchInput::none()
    };
    set_block(&mut input, true);
    assert_eq!(
        input,
        MatchInput {
            down: true,
            a: true,
            left: true,
            ..MatchInput::none()
        }
    );
}
