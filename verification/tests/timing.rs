use autonomous_driving::timing::lap::LapTimes;
use autonomous_driving::timing::sector::SectorTimes;
use autonomous_driving::timing::{best_of, elapsed_between, sector_gates, TimingState};

const SECOND: i64 = 1_000_000;

fn cross(state: &mut TimingState, total: usize, time: i64) {
    state.update(total, true, time);
}

#[test]
fn sector_gates_split_track_in_thirds() {
    assert_eq!(sector_gates(9), (3, 6));
    assert_eq!(sector_gates(10), (3, 6));
    assert_eq!(sector_gates(11), (3, 7));
    assert_eq!(sector_gates(2), (0, 1));
    assert_eq!(sector_gates(0), (0, 0));
    assert_eq!(sector_gates(usize::MAX), (usize::MAX / 3, (usize::MAX / 3) * 2));
}

#[test]
fn best_of_keeps_the_smaller_time() {
    assert_eq!(best_of(None, 5), Some(5));
    assert_eq!(best_of(Some(7), 5), Some(5));
    assert_eq!(best_of(Some(3), 5), Some(3));
    assert_eq!(best_of(Some(5), 5), Some(5));
    assert_eq!(elapsed_between(10, 25), -15);
    assert_eq!(elapsed_between(i64::MAX, i64::MIN), (i64::MAX as i128) - (i64::MIN as i128));
}

#[test]
fn timing_ignores_frames_without_crossing() {
    let mut state = TimingState::default();
    state.update(6, false, 3 * SECOND);
    assert_eq!(state.next_checkpoint_idx, 0);
    assert_eq!(state.current_lap_start_time, 0);
    state.update(0, true, 3 * SECOND);
    assert_eq!(state.next_checkpoint_idx, 0);
    assert_eq!(state.current_lap_start_time, 0);
}

#[test]
fn first_crossing_starts_the_lap_without_counting_it() {
    let mut state = TimingState::default();
    cross(&mut state, 6, 2 * SECOND);
    assert_eq!(state.current_lap_start_time, 2 * SECOND);
    assert_eq!(state.sector_start_time, 2 * SECOND);
    assert_eq!(state.next_checkpoint_idx, 1);
    assert_eq!(state.completed_laps, 0);
    assert_eq!(state.last_lap_time, None);
}

#[test]
fn full_lap_records_sectors_and_lap() {
    // Six gates: sector boundaries at gates 2 and 4.
    let mut state = TimingState::default();
    cross(&mut state, 6, SECOND); // gate 0: lap starts
    cross(&mut state, 6, 2 * SECOND); // gate 1
    assert_eq!(state.current_sector, 0);
    cross(&mut state, 6, 4 * SECOND); // gate 2: sector 1 ends
    assert_eq!(state.current_sector, 1);
    assert_eq!(state.current_sector_times[0], Some(3 * SECOND as i128));
    assert_eq!(state.best_sector_times[0], Some(3 * SECOND as i128));
    cross(&mut state, 6, 5 * SECOND); // gate 3
    cross(&mut state, 6, 8 * SECOND); // gate 4: sector 2 ends
    assert_eq!(state.current_sector, 2);
    assert_eq!(state.current_sector_times[1], Some(4 * SECOND as i128));
    cross(&mut state, 6, 9 * SECOND); // gate 5
    assert_eq!(state.next_checkpoint_idx, 0);
    cross(&mut state, 6, 11 * SECOND); // gate 0: lap ends
    assert_eq!(state.completed_laps, 1);
    assert_eq!(state.last_lap_time, Some(10 * SECOND as i128));
    assert_eq!(state.best_lap_time, Some(10 * SECOND as i128));
    assert_eq!(state.current_sector_times[2], Some(3 * SECOND as i128));
    assert_eq!(state.current_lap_start_time, 11 * SECOND);
    assert_eq!(state.current_sector, 0);
    assert_eq!(state.next_checkpoint_idx, 1);
}

#[test]
fn best_lap_is_the_fastest_lap() {
    let mut state = TimingState::default();
    let laps = [10, 8, 9];
    let mut now = SECOND;
    cross(&mut state, 3, now);
    for lap in laps {
        cross(&mut state, 3, now + SECOND);
        cross(&mut state, 3, now + 2 * SECOND);
        now += lap * SECOND;
        cross(&mut state, 3, now);
        assert_eq!(state.last_lap_time, Some(lap as i128 * SECOND as i128));
    }
    assert_eq!(state.completed_laps, 3);
    assert_eq!(state.best_lap_time, Some(8 * SECOND as i128));
}

#[test]
fn single_gate_track_counts_each_crossing_as_a_lap() {
    let mut state = TimingState::default();
    cross(&mut state, 1, SECOND);
    assert_eq!(state.next_checkpoint_idx, 0);
    cross(&mut state, 1, 4 * SECOND);
    assert_eq!(state.completed_laps, 1);
    assert_eq!(state.last_lap_time, Some(3 * SECOND as i128));
    assert_eq!(state.current_sector_times[2], Some(3 * SECOND as i128));
}

#[test]
fn lap_started_at_time_zero_is_not_counted() {
    let mut state = TimingState::default();
    cross(&mut state, 3, 0);
    cross(&mut state, 3, SECOND);
    cross(&mut state, 3, 2 * SECOND);
    cross(&mut state, 3, 3 * SECOND);
    assert_eq!(state.completed_laps, 0);
    assert_eq!(state.current_lap_start_time, 3 * SECOND);
}

#[test]
fn timing_reset_forgets_everything() {
    let mut state = TimingState::default();
    cross(&mut state, 3, SECOND);
    cross(&mut state, 3, 2 * SECOND);
    state.reset();
    assert_eq!(state.next_checkpoint_idx, 0);
    assert_eq!(state.current_lap_start_time, 0);
    assert_eq!(state.completed_laps, 0);
    assert_eq!(state.best_sector_times, [None, None, None]);
}

#[test]
fn lap_times_complete_lap() {
    let mut laps = LapTimes::new();
    assert_eq!(laps.complete_lap(5 * SECOND), None);
    assert_eq!(laps.current_lap_start_time, 5 * SECOND);
    assert_eq!(laps.complete_lap(12 * SECOND), Some(7 * SECOND as i128));
    assert_eq!(laps.complete_lap(18 * SECOND), Some(6 * SECOND as i128));
    assert_eq!(laps.complete_lap(27 * SECOND), Some(9 * SECOND as i128));
    assert_eq!(laps.completed_laps, 3);
    assert_eq!(laps.last_lap_time, Some(9 * SECOND as i128));
    assert_eq!(laps.best_lap_time, Some(6 * SECOND as i128));
    laps.reset();
    assert_eq!(laps.completed_laps, 0);
    assert_eq!(laps.best_lap_time, None);
}

#[test]
fn sector_times_record_sector() {
    let mut sectors = SectorTimes::new();
    sectors.record_sector(0, 4 * SECOND);
    assert_eq!(sectors.current_sector_times[0], Some(4 * SECOND as i128));
    assert_eq!(sectors.current_sector, 1);
    sectors.record_sector(2, 6 * SECOND);
    assert_eq!(sectors.current_sector_times[2], Some(2 * SECOND as i128));
    assert_eq!(sectors.current_sector, 0);
    sectors.record_sector(2, 7 * SECOND);
    assert_eq!(sectors.current_sector_times[2], Some(SECOND as i128));
    assert_eq!(sectors.best_sector_times[2], Some(SECOND as i128));
    sectors.record_sector(7, 9 * SECOND);
    assert_eq!(sectors.current_sector, 2);
    assert_eq!(sectors.sector_start_time, 9 * SECOND);
    assert_eq!(sectors.current_sector_times[1], None);
    sectors.reset();
    assert_eq!(sectors.current_sector_times, [None, None, None]);
}
