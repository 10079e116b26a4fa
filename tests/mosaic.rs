use video_mosaic::channel::SharedFrame;
use video_mosaic::mosaic::{MosaicCompositor, MosaicConfig, MosaicError, TickOutcome};
use video_mosaic::region::Region;

fn config(width: usize, height: usize, squares: usize, min: usize, max: usize) -> MosaicConfig {
    MosaicConfig {
        width,
        height,
        update_interval_ms: 200,
        squares_per_update: squares,
        min_size: min,
        max_size: max,
        alignment: 32,
        seed: 42,
    }
}

fn in_region(width: usize, r: &Region, i: usize) -> bool {
    let p = i / 4;
    let (px, py) = (p % width, p / width);
    r.x <= px && px < r.x + r.size && r.y <= py && py < r.y + r.size
}

/// A frame whose bytes differ from position to position and are never zero.
fn patterned(len: usize) -> Vec<u8> {
    (0..len).map(|i| (i % 251) as u8 + 1).collect()
}

#[test]
fn scenario_single_square_then_idle_then_empty() {
    let cfg = config(128, 128, 1, 32, 32);
    let mut m = MosaicCompositor::new(cfg).unwrap();
    let mut slot = SharedFrame::new();
    slot.set_current(vec![0xFF; 128 * 128 * 4]);

    let first = m.tick(0, &mut slot).unwrap();
    match &first {
        TickOutcome::Updated { size, regions } => {
            assert_eq!(*size, 32);
            assert_eq!(regions.len(), 1);
            let r = regions[0];
            assert_eq!(r.x % 32, 0);
            assert_eq!(r.y % 32, 0);
            assert!(r.x + 32 <= 128 && r.y + 32 <= 128);
            for (i, b) in m.canvas().iter().enumerate() {
                let expected = if in_region(128, &r, i) { 0xFF } else { 0 };
                assert_eq!(*b, expected);
            }
        }
        other => panic!("expected an update, got {:?}", other),
    }
    let non_zero = m.canvas().iter().filter(|b| **b != 0).count();
    assert_eq!(non_zero, 32 * 32 * 4);
    assert!(!slot.has_frame());

    let after_first = m.canvas().to_vec();
    assert_eq!(m.tick(50, &mut slot).unwrap(), TickOutcome::Idle);
    assert_eq!(m.canvas(), &after_first[..]);

    assert_eq!(m.tick(250, &mut slot).unwrap(), TickOutcome::NoFrame);
    assert_eq!(m.canvas(), &after_first[..]);
}

#[test]
fn malformed_frame_is_reported_and_canvas_unchanged() {
    let mut m = MosaicCompositor::new(config(64, 64, 4, 8, 16)).unwrap();
    let mut slot = SharedFrame::new();
    slot.set_current(vec![9; 64 * 64 * 4 - 1]);
    let r = m.tick(0, &mut slot);
    assert_eq!(r, Err(MosaicError::MalformedFrame { expected: 64 * 64 * 4, actual: 64 * 64 * 4 - 1 }));
    assert!(m.canvas().iter().all(|b| *b == 0));
    assert!(!slot.has_frame());
}

#[test]
fn too_long_frame_is_rejected() {
    let mut m = MosaicCompositor::new(config(64, 64, 4, 8, 16)).unwrap();
    let mut slot = SharedFrame::new();
    slot.set_current(vec![9; 64 * 64 * 4 + 1]);
    assert_eq!(
        m.tick(0, &mut slot),
        Err(MosaicError::MalformedFrame { expected: 64 * 64 * 4, actual: 64 * 64 * 4 + 1 })
    );
    assert!(m.canvas().iter().all(|b| *b == 0));
}

#[test]
fn no_tick_before_interval_mutates_canvas() {
    let mut m = MosaicCompositor::new(config(128, 96, 5, 6, 40)).unwrap();
    let mut slot = SharedFrame::new();
    slot.set_current(patterned(128 * 96 * 4));
    assert!(matches!(m.tick(1000, &mut slot).unwrap(), TickOutcome::Updated { .. }));
    let snapshot = m.canvas().to_vec();
    for now in [1000u64, 1001, 1100, 1199] {
        slot.set_current(vec![0xAA; 128 * 96 * 4]);
        assert!(!m.is_due(now));
        assert_eq!(m.tick(now, &mut slot).unwrap(), TickOutcome::Idle);
        assert_eq!(m.canvas(), &snapshot[..]);
        assert!(slot.has_frame());
    }
    assert!(m.is_due(1200));
    assert!(matches!(m.tick(1200, &mut slot).unwrap(), TickOutcome::Updated { .. }));
}

#[test]
fn earlier_time_than_last_tick_is_not_due() {
    let mut m = MosaicCompositor::new(config(64, 64, 1, 8, 8)).unwrap();
    let mut slot = SharedFrame::new();
    assert_eq!(m.tick(5000, &mut slot).unwrap(), TickOutcome::NoFrame);
    assert!(!m.is_due(100));
    assert_eq!(m.tick(100, &mut slot).unwrap(), TickOutcome::Idle);
}

#[test]
fn copied_regions_match_source_and_rest_is_kept() {
    let (w, h) = (160usize, 96usize);
    let mut m = MosaicCompositor::new(config(w, h, 6, 6, 40)).unwrap();
    let mut slot = SharedFrame::new();
    let mut covered = vec![false; w * h * 4];
    for step in 0..6u64 {
        let before = m.canvas().to_vec();
        let frame: Vec<u8> = patterned(w * h * 4).iter().map(|b| b.wrapping_add(step as u8 * 3)).collect();
        slot.set_current(frame.clone());
        match m.tick(step * 200, &mut slot).unwrap() {
            TickOutcome::Updated { size, regions } => {
                assert!((6..=40).contains(&size));
                assert_eq!(regions.len(), 6);
                for (i, b) in m.canvas().iter().enumerate() {
                    let inside = regions.iter().any(|r| in_region(w, r, i));
                    if inside {
                        assert_eq!(*b, frame[i]);
                        covered[i] = true;
                    } else {
                        assert_eq!(*b, before[i]);
                    }
                }
                for r in &regions {
                    assert_eq!(r.size, size);
                    assert_eq!(r.x % 32, 0);
                    assert_eq!(r.y % 32, 0);
                    assert!(r.x + r.size <= w && r.y + r.size <= h);
                }
            }
            other => panic!("expected an update, got {:?}", other),
        }
    }
    for (i, b) in m.canvas().iter().enumerate() {
        if !covered[i] {
            assert_eq!(*b, 0);
        }
    }
}

fn run_ticks(seed: u64, ticks: u64) -> (Vec<TickOutcome>, Vec<u8>) {
    let mut cfg = config(256, 192, 20, 6, 128);
    cfg.seed = seed;
    let mut m = MosaicCompositor::new(cfg).unwrap();
    let mut slot = SharedFrame::new();
    let mut outcomes = Vec::new();
    for t in 0..ticks {
        slot.set_current(patterned(256 * 192 * 4));
        outcomes.push(m.tick(t * 200, &mut slot).unwrap());
    }
    (outcomes, m.canvas().to_vec())
}

#[test]
fn same_seed_selects_same_regions() {
    let (a, canvas_a) = run_ticks(42, 12);
    let (b, canvas_b) = run_ticks(42, 12);
    assert_eq!(a, b);
    assert_eq!(canvas_a, canvas_b);
}

#[test]
fn square_sizes_vary_within_range() {
    let (outcomes, _) = run_ticks(7, 30);
    let mut sizes = Vec::new();
    for o in &outcomes {
        match o {
            TickOutcome::Updated { size, .. } => {
                assert!((6..=128).contains(size));
                sizes.push(*size);
            }
            other => panic!("expected an update, got {:?}", other),
        }
    }
    assert!(sizes.iter().any(|s| *s != sizes[0]));
}

#[test]
fn origins_vary_between_squares() {
    let (outcomes, _) = run_ticks(3, 5);
    let mut origins = Vec::new();
    for o in &outcomes {
        if let TickOutcome::Updated { regions, .. } = o {
            for r in regions {
                origins.push((r.x, r.y));
            }
        }
    }
    assert!(origins.iter().any(|o| *o != origins[0]));
}

#[test]
fn square_as_large_as_canvas_is_skipped() {
    let mut m = MosaicCompositor::new(config(64, 96, 10, 64, 64)).unwrap();
    let mut slot = SharedFrame::new();
    slot.set_current(vec![5; 64 * 96 * 4]);
    assert_eq!(m.tick(0, &mut slot).unwrap(), TickOutcome::Updated { size: 64, regions: Vec::new() });
    assert!(m.canvas().iter().all(|b| *b == 0));
}

#[test]
fn invalid_configurations_are_refused() {
    assert!(matches!(MosaicCompositor::new(config(64, 64, 1, 20, 10)), Err(MosaicError::InvalidConfig)));
    let mut zero_align = config(64, 64, 1, 8, 8);
    zero_align.alignment = 0;
    assert!(matches!(MosaicCompositor::new(zero_align), Err(MosaicError::InvalidConfig)));
    assert!(matches!(
        MosaicCompositor::new(config(usize::MAX / 2, 3, 1, 8, 8)),
        Err(MosaicError::InvalidConfig)
    ));
    assert!(matches!(
        MosaicCompositor::new(config(usize::MAX / 4 + 1, 1, 1, 8, 8)),
        Err(MosaicError::InvalidConfig)
    ));
}

#[test]
fn new_compositor_is_blank_and_due() {
    let cfg = config(40, 30, 2, 6, 10);
    let m = MosaicCompositor::new(cfg).unwrap();
    assert_eq!(m.canvas().len(), 40 * 30 * 4);
    assert!(m.canvas().iter().all(|b| *b == 0));
    assert_eq!(m.config(), cfg);
    assert!(m.is_due(0));
}

#[test]
fn place_square_snaps_down_to_grid() {
    let m = MosaicCompositor::new(config(128, 128, 1, 6, 128)).unwrap();
    assert_eq!(m.place_square(20, 45, 70), Some(Region { x: 32, y: 64, size: 20 }));
    assert_eq!(m.place_square(20, 31, 0), Some(Region { x: 0, y: 0, size: 20 }));
    assert_eq!(m.place_square(100, 40, 0), None);
    assert_eq!(m.place_square(10, 500, 0), None);
}

#[test]
fn apply_squares_copies_exact_pixels() {
    let mut m = MosaicCompositor::new(config(4, 3, 1, 1, 2)).unwrap();
    let source = patterned(4 * 3 * 4);
    let regions = [Region { x: 1, y: 1, size: 2 }, Region { x: 3, y: 0, size: 1 }, Region { x: 3, y: 2, size: 2 }];
    assert_eq!(m.apply_squares(&source, &regions), Ok(()));
    let mut expected = vec![0u8; 4 * 3 * 4];
    for (px, py) in [(1usize, 1usize), (2, 1), (1, 2), (2, 2), (3, 0)] {
        for c in 0..4 {
            let i = (py * 4 + px) * 4 + c;
            expected[i] = source[i];
        }
    }
    assert_eq!(m.canvas(), &expected[..]);
}

#[test]
fn apply_squares_rejects_wrong_length() {
    let mut m = MosaicCompositor::new(config(4, 3, 1, 1, 2)).unwrap();
    let regions = [Region { x: 0, y: 0, size: 1 }];
    assert_eq!(
        m.apply_squares(&[1u8; 47], &regions),
        Err(MosaicError::MalformedFrame { expected: 48, actual: 47 })
    );
    assert!(m.canvas().iter().all(|b| *b == 0));
}
