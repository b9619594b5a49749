//! Lap timing driven by checkpoint gates: which gate is due next, when a lap
//! or a sector ends, and the best times so far.
//!
//! Timestamps are microseconds since the start of the session (`i64`);
//! durations are differences of two timestamps (`i128`, which holds every
//! such difference exactly).

pub mod lap;
pub mod sector;

use vstd::arithmetic::div_mod::{lemma_mod_self_0, lemma_small_mod};
use vstd::prelude::*;

verus! {

/// The better of a previous best time and a new time: the new time when
/// there is no best yet or when it is strictly smaller.
pub open spec fn improved_best(best: Option<i128>, time: i128) -> Option<i128> {
    match best {
        Some(b) => if time < b {
            Some(time)
        } else {
            Some(b)
        },
        None => Some(time),
    }
}

/// The time elapsed from `since` to `now`.
pub open spec fn elapsed(now: i64, since: i64) -> i128 {
    (now - since) as i128
}

/// A best time kept with [`improved_best`] is the smallest time measured:
/// it is one of the previous best and the new time, and no larger than
/// either.
pub proof fn lemma_improved_best_is_minimum(best: Option<i128>, time: i128)
    ensures
        improved_best(best, time) is Some,
        improved_best(best, time)->0 <= time,
        best is Some ==> improved_best(best, time)->0 <= best->0,
        improved_best(best, time)->0 == time || improved_best(best, time) == best,
{
}

/// Keeps a best time up to date with a newly measured one.
pub fn best_of(best: Option<i128>, time: i128) -> (res: Option<i128>)
    ensures
        res == improved_best(best, time),
{
    match best {
        Some(b) => if time < b {
            Some(time)
        } else {
            Some(b)
        },
        None => Some(time),
    }
}

/// Time from `since` to `now`.
pub fn elapsed_between(now: i64, since: i64) -> (d: i128)
    ensures
        d == elapsed(now, since),
        d == now - since,
{
    now as i128 - since as i128
}

/// The checkpoint gate whose crossing ends the first sector on a track
/// with `total` gates.
pub open spec fn first_sector_gate(total: nat) -> nat {
    total / 3
}

/// The checkpoint gate whose crossing ends the second sector on a track
/// with `total` gates.
pub open spec fn second_sector_gate(total: nat) -> nat {
    (2 * total) / 3
}

/// The two sector boundaries of a track with `total` gates: gate
/// `total / 3` and gate `2 * total / 3` (computed without overflow).
pub fn sector_gates(total: usize) -> (gates: (usize, usize))
    ensures
        gates.0 == first_sector_gate(total as nat),
        gates.1 == second_sector_gate(total as nat),
{
    let third = total / 3;
    let rem = total % 3;
    let second = 2 * third + (2 * rem) / 3;
    assert(second == (2 * total) / 3) by (nonlinear_arith)
        requires
            third == total / 3,
            rem == total % 3,
            second == 2 * third + (2 * rem) / 3,
    ;
    (third, second)
}

/// What the timing logic reads of a [`TimingState`], with the per-sector
/// arrays seen as sequences.
pub struct TimingModel {
    pub next_gate: nat,
    pub lap_start: i64,
    pub sector_start: i64,
    pub sector: nat,
    pub sector_times: Seq<Option<i128>>,
    pub best_sector_times: Seq<Option<i128>>,
    pub last_lap: Option<i128>,
    pub best_lap: Option<i128>,
    pub laps: u32,
}

impl TimingModel {
    /// A lap is under way once the start/finish gate has been crossed at a
    /// positive time.
    pub open spec fn lap_started(self) -> bool {
        self.lap_start > 0
    }

    /// Whether crossing the checkpoint gate that is due next ends a lap.
    pub open spec fn crossing_ends_lap(self) -> bool {
        self.next_gate == 0 && self.lap_started()
    }

    /// Records that sector `k` ended at `now` and sector `k + 1` began.
    pub open spec fn with_sector_finished(self, k: int, now: i64) -> TimingModel {
        let t = elapsed(now, self.sector_start);
        TimingModel {
            sector_times: self.sector_times.update(k, Some(t)),
            best_sector_times: self.best_sector_times.update(
                k,
                improved_best(self.best_sector_times[k], t),
            ),
            sector_start: now,
            sector: (k + 1) as nat,
            ..self
        }
    }

    /// Records that the lap under way ended at `now`: the last sector's time,
    /// the lap time, the bests and the lap count.
    pub open spec fn with_lap_finished(self, now: i64) -> TimingModel {
        let sector_time = elapsed(now, self.sector_start);
        let lap_time = elapsed(now, self.lap_start);
        TimingModel {
            sector_times: self.sector_times.update(2, Some(sector_time)),
            best_sector_times: self.best_sector_times.update(
                2,
                improved_best(self.best_sector_times[2], sector_time),
            ),
            last_lap: Some(lap_time),
            best_lap: improved_best(self.best_lap, lap_time),
            laps: (self.laps + 1) as u32,
            ..self
        }
    }

    /// The state after the car crosses the checkpoint gate that is due next,
    /// at time `now`, on a track with `total` gates. Gate 0 is the
    /// start/finish line; the sector boundaries are those of
    /// [`sector_gates`].
    pub open spec fn after_crossing(self, total: nat, now: i64) -> TimingModel {
        let hit = self.next_gate;
        if hit == 0 {
            let finished = if self.lap_started() {
                self.with_lap_finished(now)
            } else {
                self
            };
            TimingModel {
                lap_start: now,
                sector_start: now,
                sector: 0,
                next_gate: 1nat % total,
                ..finished
            }
        } else {
            let s1 = first_sector_gate(total);
            let s2 = second_sector_gate(total);
            let recorded = if hit == s1 && s1 > 0 {
                self.with_sector_finished(0, now)
            } else if hit == s2 && s2 > s1 {
                self.with_sector_finished(1, now)
            } else {
                self
            };
            TimingModel { next_gate: (hit + 1) % total, ..recorded }
        }
    }

    /// The records agree with each other: a best time exists exactly when
    /// a time was measured, and no best is worse than the latest time; the
    /// current sector is one of the three.
    pub open spec fn records_consistent(self) -> bool {
        &&& self.sector_times.len() == 3
        &&& self.best_sector_times.len() == 3
        &&& self.sector < 3
        &&& (self.last_lap is Some <==> self.best_lap is Some)
        &&& (self.last_lap is Some ==> self.best_lap->0 <= self.last_lap->0)
        &&& forall|k: int|
            0 <= k < 3 ==> {
                &&& (#[trigger] self.sector_times[k] is Some <==> self.best_sector_times[k] is Some)
                &&& (self.sector_times[k] is Some ==> self.best_sector_times[k]->0
                    <= self.sector_times[k]->0)
            }
    }
}

/// Checkpoint progress, lap and sector times of one car.
#[derive(Clone, Copy, Debug)]
pub struct TimingState {
    pub next_checkpoint_idx: usize,
    pub current_lap_start_time: i64,
    pub sector_start_time: i64,
    pub current_sector: usize,
    pub current_sector_times: [Option<i128>; 3],
    pub best_sector_times: [Option<i128>; 3],
    pub last_lap_time: Option<i128>,
    pub best_lap_time: Option<i128>,
    pub completed_laps: u32,
}

impl View for TimingState {
    type V = TimingModel;

    open spec fn view(&self) -> TimingModel {
        TimingModel {
            next_gate: self.next_checkpoint_idx as nat,
            lap_start: self.current_lap_start_time,
            sector_start: self.sector_start_time,
            sector: self.current_sector as nat,
            sector_times: self.current_sector_times@,
            best_sector_times: self.best_sector_times@,
            last_lap: self.last_lap_time,
            best_lap: self.best_lap_time,
            laps: self.completed_laps,
        }
    }
}

/// The state of a car that has crossed no gate yet.
pub open spec fn initial_timing() -> TimingModel {
    TimingModel {
        next_gate: 0,
        lap_start: 0,
        sector_start: 0,
        sector: 0,
        sector_times: seq![None, None, None],
        best_sector_times: seq![None, None, None],
        last_lap: None,
        best_lap: None,
        laps: 0,
    }
}

/// The state after crossing, one after another, the gates that are due, at
/// the given times.
pub open spec fn after_crossings(m: TimingModel, total: nat, times: Seq<i64>) -> TimingModel
    decreases times.len(),
{
    if times.len() == 0 {
        m
    } else {
        after_crossings(m.after_crossing(total, times[0]), total, times.drop_first())
    }
}

/// A car that has crossed no gate has consistent records.
pub proof fn lemma_initial_records_consistent()
    ensures
        initial_timing().records_consistent(),
{
}

/// Crossing the due gate keeps the records consistent and the due gate a
/// gate of the track; the gates are visited in order, wrapping after the
/// last one; and best times never get worse.
pub proof fn lemma_crossing_keeps_records_consistent(m: TimingModel, total: nat, now: i64)
    requires
        m.records_consistent(),
        total > 0,
        m.next_gate < total,
    ensures
        m.after_crossing(total, now).records_consistent(),
        m.after_crossing(total, now).next_gate == (m.next_gate + 1) % total,
        m.best_lap is Some ==> m.after_crossing(total, now).best_lap->0 <= m.best_lap->0,
        forall|k: int|
            0 <= k < 3 && (#[trigger] m.best_sector_times[k]) is Some
                ==> m.after_crossing(total, now).best_sector_times[k]->0
                <= m.best_sector_times[k]->0,
{
    let r = m.after_crossing(total, now);
    assert forall|k: int| 0 <= k < 3 implies {
        &&& (#[trigger] r.sector_times[k] is Some <==> r.best_sector_times[k] is Some)
        &&& (r.sector_times[k] is Some ==> r.best_sector_times[k]->0 <= r.sector_times[k]->0)
    } by {
        assert(m.sector_times[k] is Some <==> m.best_sector_times[k] is Some);
    }
}

/// Crossing the due gate completes a lap exactly when that gate is the
/// start/finish line and a lap is under way; the count then grows by one.
pub proof fn lemma_crossing_counts_laps(m: TimingModel, total: nat, now: i64)
    requires
        total > 0,
        m.crossing_ends_lap() ==> m.laps < u32::MAX,
    ensures
        m.after_crossing(total, now).laps == if m.crossing_ends_lap() {
            m.laps + 1
        } else {
            m.laps as int
        },
        m.crossing_ends_lap() ==> m.after_crossing(total, now).last_lap == Some(
            elapsed(now, m.lap_start),
        ),
{
}

proof fn lemma_crossings_between_sectors(m: TimingModel, total: nat, times: Seq<i64>)
    requires
        0 < m.next_gate < total,
        m.next_gate + times.len() <= total,
    ensures
        after_crossings(m, total, times).next_gate == (m.next_gate + times.len()) % total,
        after_crossings(m, total, times).laps == m.laps,
        after_crossings(m, total, times).lap_start == m.lap_start,
    decreases times.len(),
{
    if times.len() > 0 {
        let m1 = m.after_crossing(total, times[0]);
        assert(m1.laps == m.laps && m1.lap_start == m.lap_start);
        if m.next_gate + 1 < total {
            lemma_small_mod((m.next_gate + 1) as nat, total);
            assert(m1.next_gate == m.next_gate + 1);
            lemma_crossings_between_sectors(m1, total, times.drop_first());
        } else {
            assert(times.drop_first().len() == 0);
            lemma_mod_self_0(total as int);
        }
    } else {
        lemma_small_mod(m.next_gate, total);
    }
}

/// The sector clock: crossing the start/finish line restarts it (and the lap
/// clock) at the crossing time, whether or not a lap ended; a sector time
/// that a crossing records is the time since the clock last restarted; and
/// the clock either keeps running from where it was or restarts now.
pub proof fn lemma_sector_clock(m: TimingModel, total: nat, now: i64)
    requires
        total > 0,
        m.next_gate < total,
        m.sector_times.len() == 3,
    ensures
        m.next_gate == 0 ==> {
            &&& m.after_crossing(total, now).sector_start == now
            &&& m.after_crossing(total, now).lap_start == now
            &&& m.after_crossing(total, now).sector == 0
        },
        forall|k: int|
            0 <= k < 3 && #[trigger] m.after_crossing(total, now).sector_times[k]
                != m.sector_times[k] ==> m.after_crossing(total, now).sector_times[k] == Some(
                elapsed(now, m.sector_start),
            ),
        m.after_crossing(total, now).sector_start == m.sector_start
            || m.after_crossing(total, now).sector_start == now,
        m.after_crossing(total, now).sector_times != m.sector_times
            ==> m.after_crossing(total, now).sector_start == now,
{
}

proof fn lemma_approach_first_boundary(m: TimingModel, total: nat, times: Seq<i64>)
    requires
        total > 0,
        0 < m.next_gate <= first_sector_gate(total),
        m.next_gate + times.len() == first_sector_gate(total) + 1,
    ensures
        after_crossings(m, total, times).sector_times == m.sector_times.update(
            0,
            Some(elapsed(times.last(), m.sector_start)),
        ),
        after_crossings(m, total, times).sector == 1,
    decreases times.len(),
{
    let s1 = first_sector_gate(total);
    let m1 = m.after_crossing(total, times[0]);
    let rest = times.drop_first();
    assert(s1 < total);
    if m.next_gate == s1 {
        assert(rest.len() == 0);
        assert(after_crossings(m1, total, rest) == m1);
        assert(times.last() == times[0]);
    } else {
        assert(m.next_gate != second_sector_gate(total) || second_sector_gate(total) <= s1);
        lemma_small_mod((m.next_gate + 1) as nat, total);
        assert(m1.next_gate == m.next_gate + 1);
        assert(m1.sector_start == m.sector_start);
        assert(m1.sector_times == m.sector_times);
        assert(rest.last() == times.last());
        lemma_approach_first_boundary(m1, total, rest);
    }
}

/// The first sector of a lap is timed from the crossing of the start/finish
/// line: crossing gate 0 and then every gate up to the first sector
/// boundary records, as the first sector's time, the time from the first
/// of these crossings to the last, whatever the previous lap's sectors
/// were.
pub proof fn lemma_first_sector_timed_from_finish(m: TimingModel, total: nat, times: Seq<i64>)
    requires
        m.next_gate == 0,
        m.sector_times.len() == 3,
        first_sector_gate(total) >= 1,
        times.len() == first_sector_gate(total) + 1,
    ensures
        after_crossings(m, total, times).sector_times[0] == Some(
            elapsed(times.last(), times[0]),
        ),
        after_crossings(m, total, times).sector == 1,
{
    let m1 = m.after_crossing(total, times[0]);
    let rest = times.drop_first();
    lemma_small_mod(1, total);
    assert(m1.next_gate == 1);
    assert(m1.sector_start == times[0]);
    assert(rest.last() == times.last());
    lemma_approach_first_boundary(m1, total, rest);
}

/// One full circuit of the gates, starting at the start/finish line, brings
/// the car back to the start/finish line as the checkpoint gate that is
/// due, counts exactly one lap when a lap was under way (and none
/// otherwise), and starts the new lap at the time of the first crossing.
pub proof fn lemma_full_circuit(m: TimingModel, total: nat, times: Seq<i64>)
    requires
        total > 0,
        m.next_gate == 0,
        times.len() == total,
        m.lap_started() ==> m.laps < u32::MAX,
    ensures
        after_crossings(m, total, times).next_gate == 0,
        after_crossings(m, total, times).laps == if m.lap_started() {
            m.laps + 1
        } else {
            m.laps as int
        },
        after_crossings(m, total, times).lap_start == times[0],
{
    let m1 = m.after_crossing(total, times[0]);
    let rest = times.drop_first();
    if total == 1 {
        assert(rest.len() == 0);
        lemma_mod_self_0(1);
    } else {
        lemma_small_mod(1, total);
        lemma_crossings_between_sectors(m1, total, rest);
        lemma_mod_self_0(total as int);
    }
}

impl Default for TimingState {
    fn default() -> (s: Self)
        ensures
            s@ == initial_timing(),
    {
        let s = TimingState {
            next_checkpoint_idx: 0,
            current_lap_start_time: 0,
            sector_start_time: 0,
            current_sector: 0,
            current_sector_times: [None, None, None],
            best_sector_times: [None, None, None],
            last_lap_time: None,
            best_lap_time: None,
            completed_laps: 0,
        };
        assert(s.current_sector_times@ =~= seq![None, None, None]);
        assert(s.best_sector_times@ =~= seq![None, None, None]);
        s
    }
}

impl TimingState {
    /// Advances the timing when the car moves during one frame. `total_gates`
    /// is the number of checkpoint gates of the track and `crossed_target`
    /// tells whether this frame's motion crossed gate `next_checkpoint_idx`.
    /// Nothing changes on a track without gates or when the due gate was not
    /// crossed.
    pub fn update(&mut self, total_gates: usize, crossed_target: bool, current_time: i64)
        requires
            total_gates > 0 ==> old(self).next_checkpoint_idx < total_gates,
            total_gates > 0 && crossed_target && old(self)@.crossing_ends_lap()
                ==> old(self).completed_laps < u32::MAX,
        ensures
            final(self)@ == if total_gates > 0 && crossed_target {
                old(self)@.after_crossing(total_gates as nat, current_time)
            } else {
                old(self)@
            },
            total_gates > 0 && crossed_target && old(self).next_checkpoint_idx == 0 ==> {
                &&& final(self).sector_start_time == current_time
                &&& final(self).current_lap_start_time == current_time
                &&& final(self).current_sector == 0
            },
            forall|k: int|
                0 <= k < 3 && #[trigger] final(self).current_sector_times@[k] != old(
                    self,
                ).current_sector_times@[k] ==> final(self).current_sector_times@[k] == Some(
                    elapsed(current_time, old(self).sector_start_time),
                ),
    {
        proof {
            if total_gates > 0 && crossed_target {
                lemma_sector_clock(self@, total_gates as nat, current_time);
            }
        }
        if total_gates == 0 || !crossed_target {
            return;
        }
        let (s1_idx, s2_idx) = sector_gates(total_gates);
        let hit_idx = self.next_checkpoint_idx;
        let ghost start = self@;
        if hit_idx == 0 {
            if self.current_lap_start_time > 0 {
                let sec3_time = elapsed_between(current_time, self.sector_start_time);
                self.current_sector_times[2] = Some(sec3_time);
                self.best_sector_times[2] = best_of(self.best_sector_times[2], sec3_time);
                let lap_time = elapsed_between(current_time, self.current_lap_start_time);
                self.last_lap_time = Some(lap_time);
                self.best_lap_time = best_of(self.best_lap_time, lap_time);
                self.completed_laps = self.completed_laps + 1;
                assert(self@ =~= start.with_lap_finished(current_time));
            }
            self.current_lap_start_time = current_time;
            self.sector_start_time = current_time;
            self.current_sector = 0;
            self.next_checkpoint_idx = 1 % total_gates;
        } else {
            if hit_idx == s1_idx && s1_idx > 0 {
                let sec1_time = elapsed_between(current_time, self.sector_start_time);
                self.current_sector_times[0] = Some(sec1_time);
                self.best_sector_times[0] = best_of(self.best_sector_times[0], sec1_time);
                self.sector_start_time = current_time;
                self.current_sector = 1;
                assert(self@ =~= start.with_sector_finished(0, current_time));
            } else if hit_idx == s2_idx && s2_idx > s1_idx {
                let sec2_time = elapsed_between(current_time, self.sector_start_time);
                self.current_sector_times[1] = Some(sec2_time);
                self.best_sector_times[1] = best_of(self.best_sector_times[1], sec2_time);
                self.sector_start_time = current_time;
                self.current_sector = 2;
                assert(self@ =~= start.with_sector_finished(1, current_time));
            }
            self.next_checkpoint_idx = (self.next_checkpoint_idx + 1) % total_gates;
        }
    }

    /// Forgets all progress and all times.
    pub fn reset(&mut self)
        ensures
            final(self)@ == initial_timing(),
    {
        *self = Self::default();
    }
}

} // verus!
