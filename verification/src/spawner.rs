//! The spawner: how many particles an effect emits in each simulation tick.
//!
//! Time is counted in whole microseconds and a rate in millionths of a
//! particle per second, so that a rate is kept exactly: nothing is lost or
//! gained however the ticks fall.

use vstd::prelude::*;

verus! {

/// What a rate of one millionth of a particle per second yields in one
/// microsecond is one part of a particle in `WHOLE`.
pub const WHOLE: u64 = 1_000_000_000_000;

/// How a spawner emits.
#[derive(Clone, Copy, Debug, PartialEq, Eq, Structural)]
pub enum SpawnMode {
    /// One burst of a fixed number of particles each time it is triggered.
    Once,
    /// A steady number of particles per second.
    Rate,
}

/// The state of a spawner as plain values.
///
/// A spawner is emitting while `active` holds and idle otherwise.
#[derive(Clone, Copy, Debug, PartialEq, Eq, Structural)]
pub struct SpawnerState {
    pub mode: SpawnMode,
    /// Particles per burst in `Once` mode; millionths of a particle per
    /// second in `Rate` mode.
    pub count_or_rate: u64,
    /// Whether the spawner was emitting from its construction on.
    pub emit_on_start: bool,
    pub active: bool,
    /// What is owed but not yet emitted, in parts of a particle.
    pub accumulator: u64,
}

impl SpawnerState {
    /// The parts of a particle that are due after a tick of `dt_micros`.
    pub open spec fn due(self, dt_micros: u32) -> int {
        self.accumulator + self.count_or_rate * dt_micros
    }

    /// The particles that a tick of `dt_micros` emits.
    pub open spec fn emits(self, dt_micros: u32) -> int {
        if !self.active {
            0
        } else {
            match self.mode {
                SpawnMode::Once => self.count_or_rate as int,
                SpawnMode::Rate => self.due(dt_micros) / (WHOLE as int),
            }
        }
    }

    /// The state after a tick of `dt_micros`.
    pub open spec fn after_tick(self, dt_micros: u32) -> SpawnerState {
        if !self.active {
            self
        } else {
            match self.mode {
                SpawnMode::Once => SpawnerState { active: false, ..self },
                SpawnMode::Rate => SpawnerState {
                    accumulator: (self.due(dt_micros) % (WHOLE as int)) as u64,
                    ..self
                },
            }
        }
    }

    /// The state after a trigger: emitting, with nothing owed.
    pub open spec fn after_reset(self) -> SpawnerState {
        SpawnerState { active: true, accumulator: 0, ..self }
    }

    /// The state after the ticks `dts`, one after the other.
    pub open spec fn after_ticks(self, dts: Seq<u32>) -> SpawnerState
        decreases dts.len(),
    {
        if dts.len() == 0 {
            self
        } else {
            self.after_tick(dts[0]).after_ticks(dts.drop_first())
        }
    }

    /// The particles that the ticks `dts` emit together.
    pub open spec fn emits_over(self, dts: Seq<u32>) -> int
        decreases dts.len(),
    {
        if dts.len() == 0 {
            0
        } else {
            self.emits(dts[0]) + self.after_tick(dts[0]).emits_over(dts.drop_first())
        }
    }
}

/// The microseconds that the ticks `dts` last together.
pub open spec fn elapsed(dts: Seq<u32>) -> int
    decreases dts.len(),
{
    if dts.len() == 0 {
        0
    } else {
        dts[0] + elapsed(dts.drop_first())
    }
}

/// The timing state machine of one effect instance.
pub struct Spawner {
    mode: SpawnMode,
    count_or_rate: u64,
    emit_on_start: bool,
    active: bool,
    accumulator: u64,
}

impl View for Spawner {
    type V = SpawnerState;

    closed spec fn view(&self) -> SpawnerState {
        SpawnerState {
            mode: self.mode,
            count_or_rate: self.count_or_rate,
            emit_on_start: self.emit_on_start,
            active: self.active,
            accumulator: self.accumulator,
        }
    }
}

impl Spawner {
    /// Less than one particle is ever owed.
    #[verifier::type_invariant]
    spec fn owes_less_than_one(self) -> bool {
        self.accumulator < WHOLE
    }

    /// A spawner that emits `count` particles in the tick after each trigger.
    ///
    /// With `emit_on_start` the construction counts as a trigger; without it
    /// the spawner is idle until [`Spawner::reset`].
    pub fn once(count: u64, emit_on_start: bool) -> (spawner: Spawner)
        ensures
            spawner@ == (SpawnerState {
                mode: SpawnMode::Once,
                count_or_rate: count,
                emit_on_start,
                active: emit_on_start,
                accumulator: 0,
            }),
    {
        Spawner {
            mode: SpawnMode::Once,
            count_or_rate: count,
            emit_on_start,
            active: emit_on_start,
            accumulator: 0,
        }
    }

    /// A spawner that emits `millionths_per_second` millionths of a particle
    /// per second while it is emitting: `500_000` is a particle every two
    /// seconds.
    ///
    /// With `emit_on_start` it emits from the first tick on; without it the
    /// spawner is idle until [`Spawner::reset`].
    pub fn rate(millionths_per_second: u64, emit_on_start: bool) -> (spawner: Spawner)
        ensures
            spawner@ == (SpawnerState {
                mode: SpawnMode::Rate,
                count_or_rate: millionths_per_second,
                emit_on_start,
                active: emit_on_start,
                accumulator: 0,
            }),
    {
        Spawner {
            mode: SpawnMode::Rate,
            count_or_rate: millionths_per_second,
            emit_on_start,
            active: emit_on_start,
            accumulator: 0,
        }
    }

    /// Triggers the spawner: it is emitting afterwards, with nothing owed.
    pub fn reset(&mut self)
        ensures
            final(self)@ == old(self)@.after_reset(),
    {
        self.accumulator = 0;
        self.active = true;
    }

    /// Advances the spawner by `dt_micros` microseconds and returns the
    /// number of particles to emit in this tick.
    ///
    /// An idle spawner emits nothing. In `Once` mode an emitting spawner
    /// emits its count and falls idle. In `Rate` mode it emits the whole
    /// particles that have come due and keeps the remainder for later ticks.
    pub fn tick(&mut self, dt_micros: u32) -> (emitted: u64)
        ensures
            emitted == old(self)@.emits(dt_micros),
            final(self)@ == old(self)@.after_tick(dt_micros),
    {
        proof {
            use_type_invariant(&*self);
        }
        if !self.active {
            return 0;
        }
        match self.mode {
            SpawnMode::Once => {
                self.active = false;
                self.count_or_rate
            },
            SpawnMode::Rate => {
                assert(self.count_or_rate * dt_micros <= 0xffff_ffff_ffff_ffff * 0xffff_ffff)
                    by (nonlinear_arith)
                    requires
                        self.count_or_rate <= 0xffff_ffff_ffff_ffff,
                        dt_micros <= 0xffff_ffff,
                ;
                let due: u128 = (self.accumulator as u128) + (self.count_or_rate as u128) * (
                dt_micros as u128);
                let whole: u128 = WHOLE as u128;
                self.accumulator = (due % whole) as u64;
                (due / whole) as u64
            },
        }
    }

    /// How the spawner emits.
    pub fn mode(&self) -> (mode: SpawnMode)
        ensures
            mode == self@.mode,
    {
        self.mode
    }

    /// Whether the spawner is emitting.
    pub fn is_active(&self) -> (active: bool)
        ensures
            active == self@.active,
    {
        self.active
    }
}

/// In `Rate` mode, over any ticks, an emitting spawner emits in all exactly
/// the whole particles that its rate yields over the elapsed time, on top of
/// what it owed at the start; the remainder is what it owes at the end. What
/// is emitted does not depend on how the time is cut into ticks.
pub proof fn lemma_rate_never_drifts(start: SpawnerState, dts: Seq<u32>)
    requires
        start.mode == SpawnMode::Rate,
        start.active,
        start.accumulator < WHOLE,
    ensures
        start.emits_over(dts) == (start.accumulator + start.count_or_rate * elapsed(dts)) / (
        WHOLE as int),
        start.after_ticks(dts).accumulator == (start.accumulator + start.count_or_rate * elapsed(
            dts,
        )) % (WHOLE as int),
        start.after_ticks(dts) == (SpawnerState {
            accumulator: start.after_ticks(dts).accumulator,
            ..start
        }),
    decreases dts.len(),
{
    let m = WHOLE as int;
    let rate = start.count_or_rate as int;
    let owed = start.accumulator as int;
    if dts.len() == 0 {
        assert(rate * 0 == 0);
    } else {
        let dt = dts[0] as int;
        let rest = dts.drop_first();
        let next = start.after_tick(dts[0]);
        let due = owed + rate * dt;
        assert(0 <= rate * dt) by (nonlinear_arith)
            requires
                0 <= rate,
                0 <= dt,
        ;
        assert(next.accumulator == due % m);
        lemma_rate_never_drifts(next, rest);
        let later = rate * elapsed(rest);
        assert(rate * elapsed(dts) == rate * dt + later) by (nonlinear_arith)
            requires
                elapsed(dts) == dt + elapsed(rest),
                later == rate * elapsed(rest),
        ;
        lemma_elapsed_is_not_negative(rest);
        assert(later >= 0) by (nonlinear_arith)
            requires
                rate >= 0,
                elapsed(rest) >= 0,
                later == rate * elapsed(rest),
        ;
        lemma_carry(due, later, m);
    }
}

/// No time runs backwards.
pub proof fn lemma_elapsed_is_not_negative(dts: Seq<u32>)
    ensures
        elapsed(dts) >= 0,
    decreases dts.len(),
{
    if dts.len() > 0 {
        lemma_elapsed_is_not_negative(dts.drop_first());
    }
}

/// Splitting off the whole units of `due` first and of the rest later yields
/// the same units, and leaves the same remainder, as splitting the sum at
/// once.
proof fn lemma_carry(due: int, later: int, m: int)
    requires
        due >= 0,
        later >= 0,
        m > 0,
    ensures
        due / m + (due % m + later) / m == (due + later) / m,
        (due % m + later) % m == (due + later) % m,
{
    let q = due / m;
    let r = due % m;
    assert(due == m * q + r && 0 <= r < m) by (nonlinear_arith)
        requires
            q == due / m,
            r == due % m,
            m > 0,
    ;
    let q2 = (r + later) / m;
    let r2 = (r + later) % m;
    assert(r + later == m * q2 + r2 && 0 <= r2 < m) by (nonlinear_arith)
        requires
            q2 == (r + later) / m,
            r2 == (r + later) % m,
            m > 0,
    ;
    assert(due + later == m * (q + q2) + r2) by (nonlinear_arith)
        requires
            due == m * q + r,
            r + later == m * q2 + r2,
    ;
    assert((due + later) / m == q + q2 && (due + later) % m == r2) by (nonlinear_arith)
        requires
            due + later == m * (q + q2) + r2,
            0 <= r2 < m,
            m > 0,
    ;
}

/// In `Once` mode the tick after a trigger emits exactly the count, and the
/// ticks that follow it emit nothing, however many they are, until the
/// spawner is triggered again.
pub proof fn lemma_once_emits_on_reset_only(before: SpawnerState, dt_micros: u32, dts: Seq<u32>)
    requires
        before.mode == SpawnMode::Once,
    ensures
        before.after_reset().emits(dt_micros) == before.count_or_rate,
        !before.after_reset().after_tick(dt_micros).active,
        before.after_reset().after_tick(dt_micros).emits_over(dts) == 0,
        before.after_reset().after_tick(dt_micros).after_ticks(dts)
            == before.after_reset().after_tick(dt_micros),
{
    lemma_idle_emits_nothing(before.after_reset().after_tick(dt_micros), dts);
}

/// An idle spawner emits nothing and stays as it is, over any ticks.
pub proof fn lemma_idle_emits_nothing(idle: SpawnerState, dts: Seq<u32>)
    requires
        !idle.active,
    ensures
        idle.emits_over(dts) == 0,
        idle.after_ticks(dts) == idle,
    decreases dts.len(),
{
    if dts.len() > 0 {
        lemma_idle_emits_nothing(idle, dts.drop_first());
    }
}

} // verus!
