use glam::Vec3;
use spherical_blue_noise::BlueNoiseSphere;
use spherical_blue_noise::FixedSampler;
use spherical_blue_noise::RandomSampler;
use spherical_blue_noise::Scalar;

fn scalar(num: u32, den: u32) -> Scalar {
    Scalar::ratio(num, den)
}

fn tilted() -> Vec3 {
    Vec3::new(1.0, 1.0, 1.0)
}

#[test]
fn ratio_is_the_exact_quotient() {
    assert_eq!(scalar(1, 4).v, Vec3::splat(0.25));
    assert_eq!(scalar(4, 5).v, Vec3::splat(0.8));
    assert_eq!(scalar(1, 10).v, Vec3::splat(0.1));
    assert_eq!(scalar(1, 100_000_000).v, Vec3::splat(0.000_000_01));
}

#[test]
fn times_multiplies() {
    assert_eq!(scalar(1, 2).times(scalar(1, 2)).v, Vec3::splat(0.25));
    assert_eq!(scalar(3, 4).times(scalar(1, 1)).v, Vec3::splat(0.75));
}

#[test]
fn fixed_sampler_normalizes_directions() {
    let mut s = FixedSampler::from_directions(vec![Vec3::new(2.0, 0.0, 0.0)]).unwrap();
    let set = BlueNoiseSphere::new_raw(1, &mut s);
    assert_eq!(set.points()[0], Vec3::X);
}

#[test]
fn fixed_sampler_rejects_zero_direction() {
    assert!(FixedSampler::from_directions(vec![Vec3::X, Vec3::ZERO]).is_none());
}

#[test]
fn fixed_sampler_rejects_empty_list() {
    assert!(FixedSampler::from_directions(Vec::new()).is_none());
}

#[test]
fn fixed_sampler_replays_in_order_and_wraps() {
    let mut s = FixedSampler::from_directions(vec![Vec3::X, Vec3::Y, Vec3::Z]).unwrap();
    let set = BlueNoiseSphere::new_raw(4, &mut s);
    let pts = set.points();
    assert_eq!(pts.len(), 4);
    assert_eq!(pts[0], Vec3::X);
    assert_eq!(pts[1], Vec3::Y);
    assert_eq!(pts[2], Vec3::Z);
    assert_eq!(pts[3], Vec3::X);
}

#[test]
fn unit_norm_at_every_stage() {
    let mut s = RandomSampler::from_seed(11);
    let raw = BlueNoiseSphere::new_raw(16, &mut s);
    for p in raw.points() {
        assert!((p.length() - 1.0).abs() < 1e-5);
    }
    let one_step = raw.advance(scalar(1, 10));
    for p in one_step.points() {
        assert!((p.length() - 1.0).abs() < 1e-5);
    }
    let relaxed = BlueNoiseSphere::new(16, &mut RandomSampler::from_seed(11));
    for p in relaxed.points() {
        assert!((p.length() - 1.0).abs() < 1e-5);
    }
}

#[test]
fn count_matches_request_at_every_stage() {
    for n in [0u32, 1, 2, 16] {
        let raw = BlueNoiseSphere::new_raw(n, &mut RandomSampler::from_seed(3));
        assert_eq!(raw.points().len(), n as usize);
        let stepped = raw.advance(scalar(1, 10));
        assert_eq!(stepped.points().len(), n as usize);
        let relaxed = BlueNoiseSphere::new(n, &mut RandomSampler::from_seed(3));
        assert_eq!(relaxed.points().len(), n as usize);
    }
}

#[test]
fn zero_iterations_change_nothing() {
    let raw = BlueNoiseSphere::new_raw(8, &mut RandomSampler::from_seed(5));
    let before = raw.points().clone();
    let after = raw.advance_multiple(0, scalar(1, 10), scalar(4, 5));
    assert_eq!(*after.points(), before);
}

#[test]
fn iterations_follow_the_decay_schedule() {
    let theta = scalar(1, 5);
    let decay = scalar(3, 4);
    let raw = BlueNoiseSphere::new_raw(6, &mut RandomSampler::from_seed(9));
    let by_driver = raw.clone().advance_multiple(3, theta, decay);
    let by_hand = raw
        .advance(theta)
        .advance(theta.times(decay))
        .advance(theta.times(decay).times(decay));
    assert_eq!(*by_driver.points(), *by_hand.points());
}

#[test]
fn decayed_thresholds_strictly_decrease() {
    let decay = scalar(4, 5);
    let mut theta = scalar(1, 5);
    for _ in 0..16 {
        let next = theta.times(decay);
        assert!(next.v.x < theta.v.x);
        assert!(next.v.x > 0.0);
        theta = next;
    }
}

#[test]
fn same_seed_gives_identical_points() {
    let a = BlueNoiseSphere::new(16, &mut RandomSampler::from_seed(42));
    let b = BlueNoiseSphere::new(16, &mut RandomSampler::from_seed(42));
    assert_eq!(*a.points(), *b.points());
}

#[test]
fn zero_points_yield_an_empty_set() {
    let set = BlueNoiseSphere::new(0, &mut RandomSampler::from_seed(1));
    assert!(set.points().is_empty());
    assert!(set.into_points().is_empty());
}

#[test]
fn a_single_point_never_moves() {
    let mut s = FixedSampler::from_directions(vec![tilted()]).unwrap();
    let one = BlueNoiseSphere::new_raw(1, &mut s);
    let start = one.points()[0];
    let relaxed = one.advance_multiple(10, scalar(1, 2), scalar(4, 5));
    assert_eq!(relaxed.points()[0], start);
}

#[test]
fn antipodal_points_stay_put() {
    // The repulsion between two antipodal points has no direction: their
    // cross product is exactly zero, so the pair contributes nothing and the
    // fallback leaves both points unmoved.
    let mut s = FixedSampler::from_directions(vec![Vec3::X, -Vec3::X]).unwrap();
    let pair = BlueNoiseSphere::new_raw(2, &mut s);
    let stepped = pair.advance(scalar(1, 10));
    assert_eq!(stepped.points()[0], Vec3::X);
    assert_eq!(stepped.points()[1], -Vec3::X);
}

#[test]
fn coincident_points_stay_put() {
    // Points that compare equal exert no force on each other.
    let mut s = FixedSampler::from_directions(vec![Vec3::Y]).unwrap();
    let pair = BlueNoiseSphere::new_raw(2, &mut s);
    let stepped = pair.advance(scalar(1, 10));
    assert_eq!(stepped.points()[0], Vec3::Y);
    assert_eq!(stepped.points()[1], Vec3::Y);
}

#[test]
fn repelling_points_move_apart() {
    let mut s = FixedSampler::from_directions(vec![Vec3::X, (Vec3::X + Vec3::Y).normalize()])
        .unwrap();
    let pair = BlueNoiseSphere::new_raw(2, &mut s);
    let before = pair.points()[0].angle_between(pair.points()[1]);
    let stepped = pair.advance(scalar(1, 10));
    let after = stepped.points()[0].angle_between(stepped.points()[1]);
    assert!(after > before);
}

#[test]
fn three_points_relax_toward_equal_spacing() {
    let mut s = FixedSampler::from_directions(vec![Vec3::X, Vec3::Y, tilted()]).unwrap();
    let triangle = BlueNoiseSphere::new_raw(3, &mut s);
    let relaxed = triangle.advance_multiple(50, scalar(3, 10), scalar(19, 20));
    let pts = relaxed.points();
    let ab = pts[0].angle_between(pts[1]);
    let bc = pts[1].angle_between(pts[2]);
    let ca = pts[2].angle_between(pts[0]);
    assert!((ab - bc).abs() < 0.05, "ab = {ab}, bc = {bc}");
    assert!((bc - ca).abs() < 0.05, "bc = {bc}, ca = {ca}");
    assert!((ca - ab).abs() < 0.05, "ca = {ca}, ab = {ab}");
    for p in pts {
        assert!((p.length() - 1.0).abs() < 1e-5);
    }
}
