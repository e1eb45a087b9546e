use wgpu_test::fps::{FPS, NANOS_PER_SEC};
use wgpu_test::timestep::FixedStep;

#[test]
fn fps_counts_until_a_second_passes() {
    let mut f = FPS::new();
    assert!(f.fps(400_000_000).is_none());
    assert!(f.fps(400_000_000).is_none());
    assert_eq!(f.frame_count(), 2);
    assert_eq!(f.elapsed_nanos(), 800_000_000);
    let s = f.fps(400_000_000).expect("window closes after a second");
    assert_eq!(s.frames, 3);
    assert_eq!(s.elapsed_nanos, 1_200_000_000);
    assert_eq!(f.frame_count(), 0);
    assert_eq!(f.elapsed_nanos(), 0);
}

#[test]
fn fps_exactly_one_second_keeps_window_open() {
    let mut f = FPS::new();
    assert!(f.fps(NANOS_PER_SEC).is_none());
    assert_eq!(f.elapsed_nanos(), NANOS_PER_SEC);
    let s = f.fps(1).unwrap();
    assert_eq!(s.frames, 2);
    assert_eq!(s.elapsed_nanos, NANOS_PER_SEC + 1);
}

#[test]
fn fps_long_frame_closes_at_once() {
    let mut f = FPS::new();
    let s = f.fps(5 * NANOS_PER_SEC).unwrap();
    assert_eq!(s.frames, 1);
    assert_eq!(s.elapsed_nanos, 5 * NANOS_PER_SEC);
}

#[test]
fn fixed_step_runs_whole_ticks() {
    let tick = 8_333_333u128;
    let mut c = FixedStep::new(tick);
    assert_eq!(c.advance(16_000_000), 1);
    assert_eq!(c.accumulated_nanos(), 16_000_000 - tick);
    assert_eq!(c.advance(1_000_000), 1);
    assert_eq!(c.accumulated_nanos(), 17_000_000 - 2 * tick);
    assert_eq!(c.advance(0), 0);
}

#[test]
fn fixed_step_loses_no_time() {
    let tick = 7u128;
    let mut c = FixedStep::new(tick);
    let frames = [3u128, 11, 0, 20, 6, 1];
    let mut ticks = 0u128;
    for f in frames {
        ticks += c.advance(f);
        assert!(c.accumulated_nanos() < tick);
    }
    assert_eq!(ticks * tick + c.accumulated_nanos(), frames.iter().sum::<u128>());
    assert_eq!(ticks, 5);
    assert_eq!(c.accumulated_nanos(), 6);
}

#[test]
fn fixed_step_exact_multiple_leaves_nothing() {
    let mut c = FixedStep::new(10);
    assert_eq!(c.advance(30), 3);
    assert_eq!(c.accumulated_nanos(), 0);
}

#[test]
fn fps_counts_every_frame_once() {
    let mut f = FPS::new();
    let dts = [300_000_000u128, 900_000_000, 50, 2_000_000_000, 10, 20];
    let mut closed_frames = 0u32;
    let mut closed_time = 0u128;
    for dt in dts {
        if let Some(s) = f.fps(dt) {
            assert!(s.elapsed_nanos > NANOS_PER_SEC);
            closed_frames += s.frames;
            closed_time += s.elapsed_nanos;
        }
        assert!(f.elapsed_nanos() <= NANOS_PER_SEC);
    }
    assert_eq!(closed_frames + f.frame_count(), dts.len() as u32);
    assert_eq!(closed_time + f.elapsed_nanos(), dts.iter().sum::<u128>());
    assert_eq!(closed_frames, 4);
}
