use autonomous_driving::text::format_usize;
use autonomous_driving::track::mesh::{append_quad_indices, mesh_chunk_ranges};
use autonomous_driving::track::points::{insert_raw_point, move_raw_point, remove_raw_point};
use autonomous_driving::track::query::{
    find_nearest_segment, find_nearest_segment_localized, nearest_within, NearestSegment,
    SegmentSource, LOCAL_ACCEPT_KEY, UNREACHABLE_KEY,
};

fn key(distance_sq: f32) -> u32 {
    distance_sq.to_bits()
}

#[test]
fn distance_keys_match_float_order() {
    assert_eq!(UNREACHABLE_KEY, f32::MAX.to_bits());
    assert_eq!(LOCAL_ACCEPT_KEY, 22500.0f32.to_bits());
    let values = [0.0f32, 1e-30, 0.5, 1.0, 2.0, 22499.0, 22500.0, 1e30, f32::MAX, f32::INFINITY];
    for a in values {
        for b in values {
            assert_eq!(a < b, key(a) < key(b));
        }
    }
    assert!(!(key(f32::NAN) < UNREACHABLE_KEY));
}

#[test]
fn nearest_segment_prefers_grid_on_ties() {
    let grid = vec![key(9.0), key(4.0)];
    let track = vec![key(16.0), key(4.0), key(1.0)];
    assert_eq!(
        find_nearest_segment(&grid, &track),
        Some(NearestSegment { source: SegmentSource::Track, index: 2, distance_key: key(1.0) })
    );
    let track = vec![key(16.0), key(4.0)];
    assert_eq!(
        find_nearest_segment(&grid, &track),
        Some(NearestSegment { source: SegmentSource::StartGrid, index: 1, distance_key: key(4.0) })
    );
}

#[test]
fn nearest_segment_of_nothing_reachable() {
    assert_eq!(find_nearest_segment(&vec![], &vec![]), None);
    let far = vec![key(f32::INFINITY), key(f32::MAX), key(f32::NAN)];
    assert_eq!(find_nearest_segment(&far, &vec![]), None);
}

#[test]
fn localized_search_uses_window() {
    let grid = vec![key(0.0)];
    let mut track: Vec<u32> = (0..40).map(|i| key(1e6 + i as f32)).collect();
    track[20] = key(100.0);
    track[2] = key(50.0);
    // Window around 25 is 13..38: finds 20 although the grid is closer.
    assert_eq!(
        find_nearest_segment_localized(&grid, &track, Some(25)),
        Some(NearestSegment { source: SegmentSource::Track, index: 20, distance_key: key(100.0) })
    );
    // Window around 39 is 27..40: nothing close, so the full search decides.
    assert_eq!(
        find_nearest_segment_localized(&grid, &track, Some(39)),
        Some(NearestSegment { source: SegmentSource::StartGrid, index: 0, distance_key: key(0.0) })
    );
    // No cached index, or an index past the end: full search.
    assert_eq!(
        find_nearest_segment_localized(&grid, &track, None),
        find_nearest_segment(&grid, &track)
    );
    assert_eq!(
        find_nearest_segment_localized(&grid, &track, Some(40)),
        find_nearest_segment(&grid, &track)
    );
}

#[test]
fn localized_search_rejects_far_window() {
    let grid: Vec<u32> = vec![];
    let track = vec![key(30000.0), key(22500.0), key(40000.0), key(10.0)];
    // Index 3 is outside the window around 0 only when the track is long; here the
    // window covers everything and finds 3.
    assert_eq!(
        find_nearest_segment_localized(&grid, &track, Some(0)),
        Some(NearestSegment { source: SegmentSource::Track, index: 3, distance_key: key(10.0) })
    );
    let track = vec![key(30000.0), key(22500.0)];
    assert_eq!(
        find_nearest_segment_localized(&grid, &track, Some(0)),
        Some(NearestSegment { source: SegmentSource::Track, index: 1, distance_key: key(22500.0) })
    );
    // Empty centre line: only the grid.
    assert_eq!(
        find_nearest_segment_localized(&vec![key(3.0)], &vec![], Some(0)),
        Some(NearestSegment { source: SegmentSource::StartGrid, index: 0, distance_key: key(3.0) })
    );
}

#[test]
fn nearest_within_radius() {
    assert_eq!(nearest_within(&vec![key(9.0), key(2.0), key(2.0)], key(25.0)), Some(1));
    assert_eq!(nearest_within(&vec![key(30.0)], key(25.0)), None);
    assert_eq!(nearest_within(&vec![], key(25.0)), None);
}

#[test]
fn raw_point_editing() {
    let mut points = vec!['a', 'b', 'c'];
    remove_raw_point(&mut points, 5);
    assert_eq!(points, vec!['a', 'b', 'c']);
    remove_raw_point(&mut points, 1);
    assert_eq!(points, vec!['a', 'c']);
    insert_raw_point(&mut points, 2, 'd');
    assert_eq!(points, vec!['a', 'c', 'd']);
    insert_raw_point(&mut points, 4, 'x');
    assert_eq!(points, vec!['a', 'c', 'd']);
    insert_raw_point(&mut points, 0, 'z');
    assert_eq!(points, vec!['z', 'a', 'c', 'd']);
    move_raw_point(&mut points, 3, 'q');
    assert_eq!(points, vec!['z', 'a', 'c', 'q']);
    move_raw_point(&mut points, 4, 'w');
    assert_eq!(points, vec!['z', 'a', 'c', 'q']);
    insert_raw_point(&mut points, 1, 'k');
    remove_raw_point(&mut points, 1);
    assert_eq!(points, vec!['z', 'a', 'c', 'q']);
}

#[test]
fn chunk_ranges_cover_all_quads() {
    assert!(mesh_chunk_ranges(0, 200).is_empty());
    assert!(mesh_chunk_ranges(1, 200).is_empty());
    assert_eq!(mesh_chunk_ranges(2, 200), vec![(0, 1)]);
    assert_eq!(mesh_chunk_ranges(201, 200), vec![(0, 200)]);
    assert_eq!(mesh_chunk_ranges(202, 200), vec![(0, 200), (200, 201)]);
    assert_eq!(mesh_chunk_ranges(451, 150), vec![(0, 150), (150, 300), (300, 450)]);
    assert_eq!(mesh_chunk_ranges(usize::MAX, usize::MAX - 1), vec![(0, usize::MAX - 1)]);
}

#[test]
fn quad_indices_pattern() {
    let mut indices = vec![9u16];
    append_quad_indices(&mut indices, 4);
    assert_eq!(indices, vec![9, 4, 5, 6, 5, 7, 6]);
    let mut top = Vec::new();
    append_quad_indices(&mut top, u16::MAX - 3);
    assert_eq!(top, vec![65532, 65533, 65534, 65533, 65535, 65534]);
}

#[test]
fn format_usize_decimal() {
    assert_eq!(format_usize(0), b"0".to_vec());
    assert_eq!(format_usize(7), b"7".to_vec());
    assert_eq!(format_usize(10), b"10".to_vec());
    assert_eq!(format_usize(4096), b"4096".to_vec());
    assert_eq!(format_usize(usize::MAX), usize::MAX.to_string().into_bytes());
}

#[test]
fn chunks_cover_each_quad_once() {
    for count in [2usize, 3, 150, 151, 152, 301, 777] {
        for size in [1usize, 7, 150, 200] {
            let ranges = mesh_chunk_ranges(count, size);
            let mut covered = vec![0u32; count - 1];
            for (start, end) in &ranges {
                assert!(start < end && end - start <= size);
                for q in *start..*end {
                    covered[q] += 1;
                }
            }
            assert!(covered.iter().all(|&c| c == 1));
        }
    }
}

#[test]
fn format_usize_has_no_leading_zero() {
    for n in [1usize, 9, 10, 99, 100, 1000, 65536, 1 << 40] {
        let digits = format_usize(n);
        assert_ne!(digits[0], b'0');
        assert!(digits.iter().all(|d| d.is_ascii_digit()));
        assert_eq!(String::from_utf8(digits).unwrap(), n.to_string());
    }
}
