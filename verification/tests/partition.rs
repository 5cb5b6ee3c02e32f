use janalytics::partition::Partitioner;
use janalytics::range::{BlockRange, RangeBoundaryError};

fn collect(genesis: u64, ceiling: u64, max_width: u64) -> Vec<(u64, u64)> {
    let mut walk = Partitioner::new(genesis, ceiling, max_width).unwrap();
    let mut out = Vec::new();
    while let Some(window) = walk.next_window() {
        out.push((window.start, window.end));
    }
    out
}

#[test]
fn single_block_range_is_one_window() {
    assert_eq!(collect(100, 100, 10), vec![(100, 100)]);
    let walk = Partitioner::new(100, 100, 10).unwrap();
    assert_eq!(walk.window_count(), 1);
}

#[test]
fn exact_division_gives_full_windows() {
    assert_eq!(collect(0, 19, 10), vec![(0, 9), (10, 19)]);
    let walk = Partitioner::new(0, 19, 10).unwrap();
    assert_eq!(walk.window_count(), 2);
}

#[test]
fn last_window_is_clamped_to_ceiling() {
    assert_eq!(collect(0, 25, 10), vec![(0, 9), (10, 19), (20, 25)]);
    let walk = Partitioner::new(0, 25, 10).unwrap();
    assert_eq!(walk.window_count(), 3);
    assert_eq!(walk.window_at(2), Some(BlockRange::new(20, 25).unwrap()));
    assert_eq!(walk.window_at(3), None);
}

#[test]
fn empty_range_has_no_windows() {
    assert_eq!(collect(10, 9, 5), Vec::<(u64, u64)>::new());
    let walk = Partitioner::new(10, 9, 5).unwrap();
    assert_eq!(walk.window_count(), 0);
    assert_eq!(walk.window_at(0), None);
}

#[test]
fn zero_width_is_refused() {
    assert_eq!(Partitioner::new(0, 10, 0), Err(RangeBoundaryError::ZeroWindowWidth));
}

#[test]
fn windows_tile_the_range() {
    for &(genesis, ceiling, width) in
        &[(0u64, 0u64, 1u64), (5, 104, 7), (7, 7, 100), (1, 1000, 1), (3, 99, 97), (0, 999, 1000)]
    {
        let windows = collect(genesis, ceiling, width);
        let blocks = ceiling - genesis + 1;
        assert_eq!(windows.len() as u64, (blocks + width - 1) / width);
        assert_eq!(windows.first().unwrap().0, genesis);
        assert_eq!(windows.last().unwrap().1, ceiling);
        for (i, w) in windows.iter().enumerate() {
            assert!(w.0 <= w.1);
            assert!(w.1 - w.0 + 1 <= width);
            if i + 1 < windows.len() {
                assert_eq!(w.1 - w.0 + 1, width);
                assert_eq!(windows[i + 1].0, w.1 + 1);
            }
        }
    }
}

#[test]
fn walk_reaches_the_largest_block_number() {
    let windows = collect(u64::MAX - 4, u64::MAX, 2);
    assert_eq!(
        windows,
        vec![(u64::MAX - 4, u64::MAX - 3), (u64::MAX - 2, u64::MAX - 1), (u64::MAX, u64::MAX)]
    );
    let walk = Partitioner::new(0, u64::MAX, 1).unwrap();
    assert_eq!(walk.window_count(), 1u128 << 64);
    assert_eq!(
        walk.window_at(u64::MAX),
        Some(BlockRange::new(u64::MAX, u64::MAX).unwrap())
    );
}

#[test]
fn restart_begins_again() {
    let mut walk = Partitioner::new(0, 25, 10).unwrap();
    assert_eq!(walk.remaining(), 3);
    let first = walk.next_window();
    walk.next_window();
    assert_eq!(walk.remaining(), 1);
    walk.restart();
    assert_eq!(walk.remaining(), 3);
    assert_eq!(walk.next_window(), first);
}

#[test]
fn block_range_bounds() {
    let range = BlockRange::new(3, 9).unwrap();
    assert_eq!(range.start, 3);
    assert_eq!(range.end, 9);
    assert_eq!(range.width(), 7);
    assert!(range.contains(3) && range.contains(9) && !range.contains(10) && !range.contains(2));
    assert_eq!(BlockRange::new(9, 3), Err(RangeBoundaryError::CeilingBelowGenesis));
    assert_eq!(BlockRange::new(0, u64::MAX).unwrap().width(), 1u128 << 64);
}
