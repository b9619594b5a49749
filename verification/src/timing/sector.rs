//! Sector times on their own: three sectors per lap, the time of each in
//! the current lap and the best of each.

use vstd::prelude::*;
use crate::timing::{best_of, elapsed, elapsed_between, improved_best};

verus! {

#[derive(Clone, Copy, Debug)]
pub struct SectorTimes {
    pub current_sector: usize,
    pub sector_start_time: i64,
    pub current_sector_times: [Option<i128>; 3],
    pub best_sector_times: [Option<i128>; 3],
}

impl SectorTimes {
    /// Sector times before any sector was timed.
    pub open spec fn is_initial(self) -> bool {
        &&& self.current_sector == 0
        &&& self.sector_start_time == 0
        &&& self.current_sector_times@ == seq![None::<i128>, None, None]
        &&& self.best_sector_times@ == seq![None::<i128>, None, None]
    }

    pub fn new() -> (s: Self)
        ensures
            s.is_initial(),
    {
        Self::default()
    }

    /// Called when sector `sector_index` ends at `current_time`. A sector
    /// index of 3 or more records no time; in every case the next sector,
    /// `(sector_index + 1) % 3`, starts now.
    pub fn record_sector(&mut self, sector_index: usize, current_time: i64)
        requires
            sector_index < usize::MAX,
        ensures
            final(self).sector_start_time == current_time,
            final(self).current_sector == (sector_index + 1) % 3,
            sector_index < 3 ==> {
                let t = elapsed(current_time, old(self).sector_start_time);
                &&& final(self).current_sector_times@ == old(
                    self,
                ).current_sector_times@.update(sector_index as int, Some(t))
                &&& final(self).best_sector_times@ == old(self).best_sector_times@.update(
                    sector_index as int,
                    improved_best(old(self).best_sector_times@[sector_index as int], t),
                )
            },
            sector_index >= 3 ==> {
                &&& final(self).current_sector_times == old(self).current_sector_times
                &&& final(self).best_sector_times == old(self).best_sector_times
            },
    {
        if sector_index < 3 {
            let sector_time = elapsed_between(current_time, self.sector_start_time);
            self.current_sector_times[sector_index] = Some(sector_time);
            self.best_sector_times[sector_index] = best_of(
                self.best_sector_times[sector_index],
                sector_time,
            );
        }
        self.sector_start_time = current_time;
        self.current_sector = (sector_index + 1) % 3;
    }

    /// Forgets all sector times.
    pub fn reset(&mut self)
        ensures
            final(self).is_initial(),
    {
        *self = Self::default();
    }
}

impl Default for SectorTimes {
    fn default() -> (s: Self)
        ensures
            s.is_initial(),
    {
        let s = SectorTimes {
            current_sector: 0,
            sector_start_time: 0,
            current_sector_times: [None, None, None],
            best_sector_times: [None, None, None],
        };
        assert(s.current_sector_times@ =~= seq![None::<i128>, None, None]);
        assert(s.best_sector_times@ =~= seq![None::<i128>, None, None]);
        s
    }
}

} // verus!
