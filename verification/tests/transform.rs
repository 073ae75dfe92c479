use graphplay::scheduler::target_frame_period;
use graphplay::span::Span;
use graphplay::transform::{
    InvalidPeriod, ModelAngles, ProjectionParams, Ratio, TransformState, Triple, Turns,
    ViewParams, ViewProjectionBlock, FRAMES_PER_TURN,
};
use graphplay::viewport::{Aspect, InvalidDimensions, ViewportPolicy};

fn ns(n: u128) -> Span {
    Span::from_nanos(n).unwrap()
}

fn aspect(width: i64, height: i64) -> Aspect {
    ViewportPolicy::aspect_ratio(width, height).unwrap()
}

fn radians(t: &TransformState) -> f64 {
    2.0 * std::f64::consts::PI * (t.phase_nanos() as f64) / (t.turn_nanos() as f64)
}

#[test]
fn aspect_ratio_keeps_the_dimensions() {
    let a = aspect(800, 600);
    assert_eq!(a.width(), 800);
    assert_eq!(a.height(), 600);
    assert_eq!(a.width() * 3, a.height() * 4);
}

#[test]
fn aspect_ratio_refuses_zero_height() {
    assert_eq!(
        ViewportPolicy::aspect_ratio(1600, 0),
        Err(InvalidDimensions { width: 1600, height: 0 })
    );
}

#[test]
fn aspect_ratio_refuses_zero_width() {
    assert_eq!(
        ViewportPolicy::aspect_ratio(0, 900),
        Err(InvalidDimensions { width: 0, height: 900 })
    );
}

#[test]
fn aspect_ratio_refuses_negative_dimensions() {
    assert_eq!(
        ViewportPolicy::aspect_ratio(-800, 600),
        Err(InvalidDimensions { width: -800, height: 600 })
    );
    assert_eq!(
        ViewportPolicy::aspect_ratio(800, -600),
        Err(InvalidDimensions { width: 800, height: -600 })
    );
}

#[test]
fn new_state_stands_at_angle_zero() {
    let t = TransformState::new(target_frame_period(), aspect(800, 600)).unwrap();
    assert_eq!(t.phase_nanos(), 0);
    assert_eq!(t.turn_nanos(), FRAMES_PER_TURN * 16_666_667);
    assert_eq!(t.turn_nanos(), 10_000_000_200);
    assert_eq!(t.snapshot().projection.aspect, aspect(800, 600));
}

#[test]
fn new_state_refuses_an_empty_period() {
    assert_eq!(TransformState::new(Span::zero(), aspect(800, 600)).err(), Some(InvalidPeriod));
}

#[test]
fn new_state_refuses_a_period_whose_turn_does_not_fit() {
    let longest: u128 = (u64::MAX / 600) as u128;
    assert!(TransformState::new(ns(longest), aspect(1, 1)).is_ok());
    assert_eq!(TransformState::new(ns(longest + 1), aspect(1, 1)).err(), Some(InvalidPeriod));
}

#[test]
fn advance_adds_elapsed_time_to_the_phase() {
    let mut t = TransformState::new(ns(1_000), aspect(4, 3)).unwrap();
    t.advance(ns(250));
    assert_eq!(t.phase_nanos(), 250);
    t.advance(ns(1_000));
    assert_eq!(t.phase_nanos(), 1_250);
    assert_eq!(t.turn_nanos(), 600_000);
}

#[test]
fn advance_wraps_once_past_a_full_turn() {
    let mut t = TransformState::new(ns(1_000), aspect(4, 3)).unwrap();
    t.advance(ns(599_999));
    assert_eq!(t.phase_nanos(), 599_999);
    t.advance(ns(2));
    assert_eq!(t.phase_nanos(), 1);
}

#[test]
fn advance_wraps_many_turns_at_once() {
    let mut t = TransformState::new(ns(1_000), aspect(4, 3)).unwrap();
    t.advance(ns(600_000 * 7 + 123));
    assert_eq!(t.phase_nanos(), 123);
    t.advance(Span::new(u64::MAX, 999_999_999).unwrap());
    assert!(t.phase_nanos() < t.turn_nanos());
}

#[test]
fn advance_by_nothing_changes_nothing() {
    let mut t = TransformState::new(ns(1_000), aspect(4, 3)).unwrap();
    t.advance(ns(77));
    t.advance(Span::zero());
    assert_eq!(t.phase_nanos(), 77);
}

#[test]
fn six_hundred_frames_make_one_full_rotation() {
    let period = target_frame_period();
    let mut t = TransformState::new(period, aspect(800, 600)).unwrap();
    for frame in 0..600u64 {
        assert_eq!(t.phase_nanos(), frame * 16_666_667);
        t.advance(period);
        assert!(t.phase_nanos() < t.turn_nanos());
    }
    assert_eq!(t.phase_nanos(), 0);
    assert!(radians(&t).abs() < 1e-9);
}

#[test]
fn half_the_frames_make_half_a_rotation() {
    let period = target_frame_period();
    let mut t = TransformState::new(period, aspect(800, 600)).unwrap();
    for _ in 0..300 {
        t.advance(period);
    }
    assert!((radians(&t) - std::f64::consts::PI).abs() < 1e-9);
}

#[test]
fn model_angles_couple_the_second_axis_at_half_rate() {
    let mut t = TransformState::new(ns(1_000), aspect(4, 3)).unwrap();
    t.advance(ns(150_000));
    assert_eq!(
        t.model_angles(),
        ModelAngles {
            roll: Turns { num: 150_000, den: 600_000 },
            pitch: Turns { num: 150_000, den: 1_200_000 },
            yaw: Turns { num: 0, den: 1 },
        }
    );
}

#[test]
fn resize_updates_the_aspect_and_rejects_zero_height() {
    let mut t = TransformState::new(target_frame_period(), aspect(800, 600)).unwrap();
    let a = t.snapshot().projection.aspect;
    assert!((a.width() as f64 / a.height() as f64 - 4.0 / 3.0).abs() < 1e-12);

    assert_eq!(t.on_resize(1600, 900), Ok(()));
    let a = t.snapshot().projection.aspect;
    assert_eq!((a.width(), a.height()), (1600, 900));
    assert_eq!(a.width() * 9, a.height() * 16);
    assert!((a.width() as f64 / a.height() as f64 - 16.0 / 9.0).abs() < 1e-12);

    assert_eq!(t.on_resize(1600, 0), Err(InvalidDimensions { width: 1600, height: 0 }));
    let a = t.snapshot().projection.aspect;
    assert_eq!((a.width(), a.height()), (1600, 900));
}

#[test]
fn resize_leaves_the_angle_alone() {
    let mut t = TransformState::new(ns(1_000), aspect(800, 600)).unwrap();
    t.advance(ns(42));
    assert_eq!(t.on_resize(1024, 768), Ok(()));
    assert_eq!(t.phase_nanos(), 42);
    assert_eq!(t.turn_nanos(), 600_000);
    assert_eq!(t.on_resize(-1, 768), Err(InvalidDimensions { width: -1, height: 768 }));
    assert_eq!(t.phase_nanos(), 42);
    assert_eq!(t.snapshot().projection.aspect, aspect(1024, 768));
}

#[test]
fn snapshot_holds_the_fixed_camera_and_the_current_projection() {
    let mut t = TransformState::new(ns(1_000), aspect(800, 600)).unwrap();
    let view = ViewParams {
        eye: Triple { x: 0, y: 0, z: 10 },
        target: Triple { x: 0, y: 0, z: 0 },
        up: Triple { x: 0, y: 1, z: 0 },
    };
    assert_eq!(
        t.snapshot(),
        ViewProjectionBlock {
            view,
            projection: ProjectionParams {
                aspect: aspect(800, 600),
                fov: Turns { num: 1, den: 12 },
                near: Ratio { num: 1, den: 100 },
                far: Ratio { num: 100, den: 1 },
            },
        }
    );
    assert_eq!(t.on_resize(1600, 900), Ok(()));
    t.advance(ns(5));
    let after = t.snapshot();
    assert_eq!(after.view, view);
    assert_eq!(after.projection.aspect, aspect(1600, 900));
    assert_eq!(after.projection.fov, Turns { num: 1, den: 12 });
    assert_eq!(after.projection.near, Ratio { num: 1, den: 100 });
    assert_eq!(after.projection.far, Ratio { num: 100, den: 1 });
}
