# fp_engine

The two-player match coordinator of a 60Hz fighting game, verified with Verus.

A `Match` owns two players, the round clock and the best-of-N flow. Each frame is a
conversation: `Match::tick` opens it, `Match::request` says what the frame needs next
(run a character's state machine, test collision boxes, add coordinates, push bodies
apart), and `Match::step` takes in the answer. What is asked, in which order, and what
becomes of every answer is decided and proved in the library.

    let mut frame = game.tick(p1_input, p2_input);
    loop {
        match game.request(&frame) {
            Request::Done => break,
            request => game.step(&mut frame, engine.answer(request)),
        }
    }

- `src/round.rs`, `src/game.rs`: phases, verdicts, seeds; the flow of rounds.
- `src/frame.rs`, `src/tick.rs`: one frame, as a specification and as code.
- `src/character.rs`, `src/player.rs`: what the coordinator reads and writes of a
  fighter, and what a fighter owns.
- `src/effect.rs`, `src/explod.rs`, `src/helper.rs`, `src/projectile.rs`,
  `src/freeze.rs`: what lives on the stage beside the fighters.
- `src/snapshot.rs`, `src/replay.rs`, `src/record.rs`: saving a match, its inputs, or a
  training setup. `src/wire.rs` lays the values out and `src/codec.rs` hands them to
  `bincode`; the contracts of its six functions are believed, not proved.
- `src/dummy.rs`, `src/input.rs`: the training dummy and the controller samples.
- `src/frame_laws.rs`, `src/round_laws.rs`, `src/readout_laws.rs`,
  `src/playback_laws.rs`: what holds over many frames.
- `app/`: a host that runs the characters and saves what the library hands out.

Coordinates are IEEE single-precision numbers held by their bits. The library compares
and negates them; sums are left to the host.
