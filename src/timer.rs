use vstd::prelude::*;
use bevy::time::{Timer, TimerMode};
use std::time::Duration;
use crate::config::{GameConfig, DEFAULT_UPDATE_INTERVAL_NS};

verus! {

/// A repeating timer over nanoseconds, ticked by bevy's timer. Each tick adds
/// the elapsed time; when the total reaches the period the timer is finished
/// for that tick and the total wraps around by whole periods.
#[derive(Clone, Copy, Debug, PartialEq, Eq, Structural)]
pub struct RepeatingTimer {
    pub duration_ns: u64,
    pub elapsed_ns: u64,
    pub finished: bool,
}

/// The timer after `delta` more nanoseconds: finished exactly when the
/// elapsed time reaches the period, and then wrapped around by whole periods
/// (to zero for a zero period).
pub open spec fn tick_spec(t: RepeatingTimer, delta: int) -> RepeatingTimer {
    let e = t.elapsed_ns + delta;
    let done = e >= t.duration_ns;
    RepeatingTimer {
        duration_ns: t.duration_ns,
        elapsed_ns: if !done {
            e as u64
        } else if t.duration_ns == 0 {
            0
        } else {
            (e % (t.duration_ns as int)) as u64
        },
        finished: done,
    }
}

/// Relies on bevy's `Timer::tick` for a repeating timer of period
/// `duration_ns` that has run for `elapsed_ns` (made with `Timer::new` and
/// `Timer::set_elapsed`, read back with `Timer::elapsed` and
/// `Timer::is_finished`): the elapsed time grows by
/// `delta_ns` (a `Duration` holds any sum of two such values), the timer is
/// finished when the total reaches the period, and a finished timer keeps the
/// total modulo the period, or zero for a zero period. Returns the new elapsed
/// time and whether the timer finished.
#[verifier::external_body]
fn bevy_repeating_tick(duration_ns: u64, elapsed_ns: u64, delta_ns: u64) -> (r: (u64, bool))
    ensures
        r.0 == tick_spec(
            RepeatingTimer { duration_ns, elapsed_ns, finished: false },
            delta_ns as int,
        ).elapsed_ns,
        r.1 == tick_spec(
            RepeatingTimer { duration_ns, elapsed_ns, finished: false },
            delta_ns as int,
        ).finished,
{
    let mut timer = Timer::new(Duration::from_nanos(duration_ns), TimerMode::Repeating);
    timer.set_elapsed(Duration::from_nanos(elapsed_ns));
    timer.tick(Duration::from_nanos(delta_ns));
    (timer.elapsed().as_nanos() as u64, timer.is_finished())
}

impl RepeatingTimer {
    /// A fresh timer with the given period.
    pub fn new(duration_ns: u64) -> (r: Self)
        ensures
            r == (RepeatingTimer { duration_ns, elapsed_ns: 0, finished: false }),
    {
        RepeatingTimer { duration_ns, elapsed_ns: 0, finished: false }
    }

    /// Advances the timer by `delta_ns` nanoseconds.
    pub fn tick(&mut self, delta_ns: u64)
        ensures
            *final(self) == tick_spec(*old(self), delta_ns as int),
    {
        let (elapsed_ns, finished) = bevy_repeating_tick(
            self.duration_ns,
            self.elapsed_ns,
            delta_ns,
        );
        self.elapsed_ns = elapsed_ns;
        self.finished = finished;
    }

    /// Whether the period was reached during the last tick.
    pub fn finished(&self) -> (r: bool)
        ensures
            r == self.finished,
    {
        self.finished
    }

    /// The period of the timer.
    pub fn duration(&self) -> (r: u64)
        ensures
            r == self.duration_ns,
    {
        self.duration_ns
    }
}

/// The timer that decides when the next generation runs.
#[derive(Clone, Copy, Debug, PartialEq, Eq, Structural)]
pub struct GameUpdateTimer {
    pub timer: RepeatingTimer,
}

impl Default for GameUpdateTimer {
    /// A fresh timer with a period of half a second.
    fn default() -> (r: Self)
        ensures
            r.timer == (RepeatingTimer {
                duration_ns: DEFAULT_UPDATE_INTERVAL_NS,
                elapsed_ns: 0,
                finished: false,
            }),
    {
        GameUpdateTimer { timer: RepeatingTimer::new(DEFAULT_UPDATE_INTERVAL_NS) }
    }
}

/// The update timer after one frame of `delta` nanoseconds: it ticks, and
/// where its period no longer matches the configured interval it is replaced
/// by a fresh timer with that interval, which drops the progress made.
pub open spec fn update_timer_spec(
    t: GameUpdateTimer,
    delta: int,
    config: GameConfig,
) -> GameUpdateTimer {
    let ticked = tick_spec(t.timer, delta);
    if ticked.duration_ns != config.update_interval_ns {
        GameUpdateTimer {
            timer: RepeatingTimer {
                duration_ns: config.update_interval_ns,
                elapsed_ns: 0,
                finished: false,
            },
        }
    } else {
        GameUpdateTimer { timer: ticked }
    }
}

/// Advances the update timer by one frame of `delta_ns` nanoseconds and
/// follows a change of the configured interval.
pub fn update_game_timer(timer: &mut GameUpdateTimer, delta_ns: u64, config: &GameConfig)
    ensures
        *final(timer) == update_timer_spec(*old(timer), delta_ns as int, *config),
{
    timer.timer.tick(delta_ns);
    if timer.timer.duration() != config.update_interval_ns {
        timer.timer = RepeatingTimer::new(config.update_interval_ns);
    }
}

/// A fresh timer with a positive period fires on its first tick exactly when
/// that tick reaches the period, and a tick of exactly one period brings it
/// back to zero.
pub proof fn lemma_fresh_timer_fires_at_period(duration_ns: u64, delta_ns: u64)
    requires
        duration_ns > 0,
    ensures
        tick_spec(
            RepeatingTimer { duration_ns, elapsed_ns: 0, finished: false },
            delta_ns as int,
        ).finished <==> delta_ns >= duration_ns,
        delta_ns == duration_ns ==> tick_spec(
            RepeatingTimer { duration_ns, elapsed_ns: 0, finished: false },
            delta_ns as int,
        ).elapsed_ns == 0,
{
    vstd::arithmetic::div_mod::lemma_mod_self_0(duration_ns as int);
}

} // verus!
