//! The state that outlives a frame: counters and the spawn timer.

use vstd::prelude::*;

verus! {

/// Period of the spawn timer, in microseconds: two seconds.
pub const SPAWN_PERIOD: u64 = 2_000_000;

/// Lives at the start of a session.
pub const STARTING_LIVES: i32 = 3;

/// The bullet cap at the start of a session.
pub const DEFAULT_MAX_BULLETS: i32 = 5;

/// How many enemies may be alive at once.
pub const MAX_ENEMIES: i32 = 10;

/// A repeating timer. It gathers elapsed time, is finished once a whole
/// period has been gathered, and stays finished until it is rewound.
#[derive(Clone, Copy, Debug, PartialEq, Eq, Structural)]
pub struct Timer {
    /// Length of one period, in microseconds.
    pub period: u64,
    /// Time gathered since the last rewind, in microseconds.
    pub elapsed: u64,
}

impl Timer {
    /// A timer has a period longer than nothing.
    pub open spec fn wf(self) -> bool {
        self.period > 0
    }

    /// The timer after `delta` more microseconds. The gathered time stops
    /// growing at the largest number that the field holds.
    pub open spec fn ticked(self, delta: u32) -> Timer {
        Timer {
            period: self.period,
            elapsed: if self.elapsed + delta > u64::MAX {
                u64::MAX
            } else {
                (self.elapsed + delta) as u64
            },
        }
    }

    /// Whether a whole period has been gathered.
    pub open spec fn spec_finished(self) -> bool {
        self.elapsed >= self.period
    }

    /// The timer after it fired: the whole periods are taken out and the
    /// rest of the gathered time stays.
    pub open spec fn rewound(self) -> Timer {
        Timer { period: self.period, elapsed: self.elapsed % self.period }
    }

    /// A timer of the given period that has gathered nothing yet.
    pub fn repeating(period: u64) -> (timer: Timer)
        requires
            period > 0,
        ensures
            timer == (Timer { period, elapsed: 0 }),
            timer.wf(),
    {
        Timer { period, elapsed: 0 }
    }

    /// Gathers `delta` more microseconds.
    pub fn tick(&mut self, delta: u32)
        ensures
            *final(self) == old(self).ticked(delta),
    {
        self.elapsed = self.elapsed.saturating_add(delta as u64);
    }

    #[verifier::when_used_as_spec(spec_finished)]
    pub fn finished(self) -> (done: bool)
        ensures
            done == self.finished(),
    {
        self.elapsed >= self.period
    }

    /// Starts the next period.
    pub fn rewind(&mut self)
        requires
            old(self).wf(),
        ensures
            *final(self) == old(self).rewound(),
    {
        self.elapsed = self.elapsed % self.period;
    }

    /// Ticking keeps the period and never loses gathered time; rewinding
    /// leaves less than a period, so a rewound timer is not finished.
    pub proof fn tick_and_rewind_bounds(self, delta: u32)
        requires
            self.wf(),
        ensures
            self.ticked(delta).wf(),
            self.ticked(delta).elapsed >= self.elapsed,
            self.finished() ==> self.ticked(delta).finished(),
            self.rewound().wf(),
            !self.rewound().finished(),
            !self.finished() ==> self.rewound() == self,
    {
        assert(self.elapsed % self.period < self.period);
        if !self.finished() {
            assert(self.elapsed % self.period == self.elapsed) by {
                vstd::arithmetic::div_mod::lemma_small_mod(self.elapsed as nat, self.period as nat);
            }
        }
    }
}

/// Score, lives, the counts of live entities, the bullet cap and the timer
/// that paces enemy spawns.
///
/// The two counts follow the spawns and despawns that the systems decide;
/// nothing holds them at or above zero.
#[derive(Clone, Copy, Debug, PartialEq, Eq, Structural)]
pub struct GameData {
    pub score: i32,
    pub lives: i32,
    pub enemy_count: i32,
    pub enemy_timer: Timer,
    pub bullet_count: i32,
    pub max_bullets: i32,
}

impl GameData {
    /// The state is well formed when its timer is.
    pub open spec fn wf(self) -> bool {
        self.enemy_timer.wf()
    }
}

impl Default for GameData {
    /// The state at the start of a session.
    fn default() -> (game: Self)
        ensures
            game == (GameData {
                score: 0,
                lives: STARTING_LIVES,
                enemy_count: 0,
                enemy_timer: Timer { period: SPAWN_PERIOD, elapsed: 0 },
                bullet_count: 0,
                max_bullets: DEFAULT_MAX_BULLETS,
            }),
            game.wf(),
    {
        GameData {
            score: 0,
            lives: STARTING_LIVES,
            enemy_count: 0,
            enemy_timer: Timer::repeating(SPAWN_PERIOD),
            bullet_count: 0,
            max_bullets: DEFAULT_MAX_BULLETS,
        }
    }
}

} // verus!
