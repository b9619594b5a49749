//! Lap times on their own: the start of the lap under way, the last and the
//! best lap, and the number of laps completed.

use vstd::prelude::*;
use crate::timing::{best_of, elapsed, elapsed_between, improved_best};

verus! {

#[derive(Clone, Copy, Debug)]
pub struct LapTimes {
    pub current_lap_start_time: i64,
    pub last_lap_time: Option<i128>,
    pub best_lap_time: Option<i128>,
    pub completed_laps: u32,
}

impl LapTimes {
    /// Lap times before the start line is first crossed.
    pub open spec fn initial() -> LapTimes {
        LapTimes {
            current_lap_start_time: 0,
            last_lap_time: None,
            best_lap_time: None,
            completed_laps: 0,
        }
    }

    pub fn new() -> (l: Self)
        ensures
            l == LapTimes::initial(),
    {
        Self::default()
    }

    /// Called when the car crosses the start/finish line at `current_time`.
    /// When a lap was under way (it started at a positive time) it is
    /// completed and its time returned; either way a new lap starts now.
    pub fn complete_lap(&mut self, current_time: i64) -> (lap: Option<i128>)
        requires
            old(self).current_lap_start_time > 0 ==> old(self).completed_laps < u32::MAX,
        ensures
            old(self).current_lap_start_time > 0 ==> {
                let t = elapsed(current_time, old(self).current_lap_start_time);
                &&& lap == Some(t)
                &&& *final(self) == (LapTimes {
                    current_lap_start_time: current_time,
                    last_lap_time: Some(t),
                    best_lap_time: improved_best(old(self).best_lap_time, t),
                    completed_laps: (old(self).completed_laps + 1) as u32,
                })
            },
            old(self).current_lap_start_time <= 0 ==> {
                &&& lap is None
                &&& *final(self) == (LapTimes { current_lap_start_time: current_time, ..*old(self) })
            },
    {
        if self.current_lap_start_time > 0 {
            let lap_time = elapsed_between(current_time, self.current_lap_start_time);
            self.last_lap_time = Some(lap_time);
            self.best_lap_time = best_of(self.best_lap_time, lap_time);
            self.completed_laps = self.completed_laps + 1;
            self.current_lap_start_time = current_time;
            Some(lap_time)
        } else {
            self.current_lap_start_time = current_time;
            None
        }
    }

    /// Forgets all laps.
    pub fn reset(&mut self)
        ensures
            *final(self) == LapTimes::initial(),
    {
        *self = Self::default();
    }
}

impl Default for LapTimes {
    fn default() -> (l: Self)
        ensures
            l == LapTimes::initial(),
    {
        LapTimes {
            current_lap_start_time: 0,
            last_lap_time: None,
            best_lap_time: None,
            completed_laps: 0,
        }
    }
}

} // verus!
