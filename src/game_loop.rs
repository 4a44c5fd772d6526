use vstd::prelude::*;

use crate::game::{BoyState, StepError, WalkTheDog};
use crate::input::KeyState;

verus! {

/// Timestamps are counted in sixtieths of a millisecond, so that one
/// simulation step (a sixtieth of a second) is exactly `FRAME_SIZE` units.
pub const TICKS_PER_MS: i64 = 60;

/// Length of one simulation step, in timestamp units.
pub const FRAME_SIZE: i64 = 1000;

/// How many whole steps an accumulated delay of `acc` asks for: steps run
/// while more than one step's worth of time is pending.
pub open spec fn frames_due(acc: int) -> nat {
    if acc > FRAME_SIZE {
        ((acc - 1) / FRAME_SIZE as int) as nat
    } else {
        0
    }
}

/// Outcome of `n` steps of `before`, as `after`, the result and the delay left.
pub open spec fn ran(
    before: WalkTheDog,
    after: WalkTheDog,
    keys: Set<Seq<char>>,
    n: nat,
    r: Result<u64, StepError>,
) -> bool {
    match before {
        WalkTheDog::Loading => after is Loading && r == Ok::<u64, StepError>(n as u64),
        WalkTheDog::Loaded(b) => match after {
            WalkTheDog::Loaded(a) => a.same_scene(&b) && match b.run_from(b.boy.state(), keys, n) {
                Ok(s) => r == Ok::<u64, StepError>(n as u64) && a.boy.state() == s,
                Err(e) => r == Err::<u64, StepError>(e),
            },
            WalkTheDog::Loading => false,
        },
    }
}

/// Drives the simulation in fixed steps, whatever the rate of the host's
/// callbacks.
#[derive(Clone, Copy, Debug, PartialEq, Eq, Structural)]
pub struct GameLoop {
    pub last_frame: i64,
    pub accumulated_delta: i64,
}

impl GameLoop {
    pub fn new(now: i64) -> (r: GameLoop)
        ensures
            r.last_frame == now,
            r.accumulated_delta == 0,
    {
        GameLoop { last_frame: now, accumulated_delta: 0 }
    }

    /// Handles a host callback at time `perf`: adds the time since the last
    /// callback to the pending delay, then runs one step of `game` for each
    /// whole step of it beyond the first. Returns how many steps ran. Nothing
    /// caps that number: after a long stall every pending step is run.
    pub fn tick(&mut self, perf: i64, game: &mut WalkTheDog, keystate: &KeyState) -> (r: Result<
        u64,
        StepError,
    >)
        requires
            i64::MIN <= perf - old(self).last_frame <= i64::MAX,
            i64::MIN <= old(self).accumulated_delta + (perf - old(self).last_frame) <= i64::MAX,
        ensures
            ({
                let acc = old(self).accumulated_delta + (perf - old(self).last_frame);
                let n = frames_due(acc);
                &&& ran(*old(game), *final(game), keystate@, n, r)
                &&& r is Ok ==> final(self).last_frame == perf && final(self).accumulated_delta
                    == acc - n * FRAME_SIZE
            }),
    {
        let ghost acc0 = self.accumulated_delta + (perf - self.last_frame);
        let ghost keys = keystate@;
        self.accumulated_delta = self.accumulated_delta + (perf - self.last_frame);
        let mut count: u64 = 0;
        while self.accumulated_delta > FRAME_SIZE
            invariant
                acc0 == old(self).accumulated_delta + (perf - old(self).last_frame),
                acc0 == self.accumulated_delta + count * FRAME_SIZE,
                count + frames_due(self.accumulated_delta as int) == frames_due(acc0),
                frames_due(acc0) <= i64::MAX,
                keys == keystate@,
                ran(*old(game), *game, keys, count as nat, Ok(count)),
            decreases self.accumulated_delta,
        {
            let acc = self.accumulated_delta;
            assert(frames_due(acc as int) == frames_due(acc - FRAME_SIZE) + 1) by {
                if acc - FRAME_SIZE > FRAME_SIZE {
                    assert((acc - 1) / 1000 == (acc - 1 - 1000) / 1000 + 1);
                } else {
                    assert((acc - 1) / 1000 == 1);
                }
            }
            let ghost mid = *game;
            let stepped = game.update(keystate);
            proof {
                match *old(game) {
                    WalkTheDog::Loaded(b) => {
                        if let WalkTheDog::Loaded(m) = mid {
                            assert(b.run_from(b.boy.state(), keys, (count + 1) as nat)
                                == m.step_from(m.boy.state(), keys));
                            if b.run_from(b.boy.state(), keys, (count + 1) as nat) is Err {
                                b.lemma_run_error_stays(
                                    b.boy.state(),
                                    keys,
                                    (count + 1) as nat,
                                    frames_due(acc0),
                                );
                            }
                        }
                    },
                    WalkTheDog::Loading => {},
                }
            }
            if let Err(e) = stepped {
                return Err(e);
            }
            self.accumulated_delta = self.accumulated_delta - FRAME_SIZE;
            count = count + 1;
        }
        self.last_frame = perf;
        Ok(count)
    }
}

} // verus!
