use remna_snow::fixed::Fixed;
use remna_snow::kinematics::drifted_x;
use remna_snow::kinematics::fallen_y;
use remna_snow::kinematics::oscillation_phase;
use remna_snow::kinematics::point_size;
use remna_snow::kinematics::position_at;
use remna_snow::kinematics::rotation_angle;
use remna_snow::kinematics::swing_amplitude;
use remna_snow::kinematics::wrapped;
use remna_snow::particles::Particle;
use remna_snow::particles::WorldExtents;

fn fx(raw: i64) -> Fixed {
    Fixed::from_micros(raw)
}

fn units(whole: i64) -> Fixed {
    Fixed::from_micros(whole * 1_000_000)
}

fn extents() -> WorldExtents {
    WorldExtents { half_width: units(220), half_height: units(110), half_depth: units(110) }
}

fn particle() -> Particle {
    Particle {
        x: units(-198),
        y: units(-88),
        z: units(-77),
        speed_x: fx(280_000),
        speed_y: fx(725_000),
        speed_z: fx(600_000),
        base_angle: fx(2_199_114),
        angular_rate: fx(3_400_000),
        swing: fx(1_350_000),
        red: units(1),
        green: units(1),
        blue: units(1),
        alpha: fx(750_000),
        size: fx(5_475_000),
    }
}

#[test]
fn wrap_takes_what_is_left_over_whole_spans() {
    assert_eq!(wrapped(units(0), units(10)), units(-10));
    assert_eq!(wrapped(units(5), units(10)), units(-5));
    assert_eq!(wrapped(units(25), units(10)), units(-5));
    assert_eq!(wrapped(units(45), units(10)), units(-5));
    assert_eq!(wrapped(units(10), units(10)), units(0));
    assert_eq!(wrapped(fx(19_999_999), units(10)), fx(9_999_999));
    assert_eq!(wrapped(units(20), units(10)), units(-10));
}

#[test]
fn wrap_of_a_negative_coordinate_is_not_negative_before_the_offset() {
    assert_eq!(wrapped(units(-5), units(10)), units(5));
    assert_eq!(wrapped(units(-25), units(10)), units(5));
    assert_eq!(wrapped(units(-20), units(10)), units(-10));
    assert_eq!(wrapped(fx(-1), units(10)), fx(9_999_999));
    assert_eq!(wrapped(units(-10), units(10)), units(0));
}

#[test]
fn wrap_stays_in_the_box_at_the_ends_of_the_range() {
    for value in [i64::MIN, i64::MIN + 1, -1, 0, 1, i64::MAX - 1, i64::MAX] {
        for half in [1, 7, 110_000_000, i64::MAX / 2, i64::MAX / 2 + 1, i64::MAX] {
            let r = wrapped(fx(value), fx(half));
            assert!(-half <= r.raw && r.raw < half, "{} in {}", value, half);
        }
    }
}

#[test]
fn wrap_is_the_same_one_span_further_on() {
    for value in [-37_000_001, -1, 0, 3, 19_999_999, 123_456_789] {
        let here = wrapped(fx(value), units(10));
        let there = wrapped(fx(value + 20_000_000), units(10));
        assert_eq!(here, there);
    }
}

#[test]
fn particle_drifts_with_time_and_wind() {
    let p = particle();
    let e = extents();
    assert_eq!(drifted_x(&p, units(0), units(0), &e), units(22));
    assert_eq!(drifted_x(&p, units(10), units(0), &e), units(27));
    assert_eq!(drifted_x(&p, units(10), units(100), &e), units(55));
    assert_eq!(drifted_x(&p, units(10), units(-100), &e), units(-1));
    assert_eq!(drifted_x(&p, units(836), units(0), &e), units(0));
    assert_eq!(drifted_x(&p, units(876), units(0), &e), units(20));
    assert_eq!(drifted_x(&p, units(1716), units(0), &e), units(0));
}

#[test]
fn particle_falls_with_time_and_gravity() {
    let p = particle();
    let e = extents();
    assert_eq!(fallen_y(&p, units(0), units(6), &e), units(22));
    assert_eq!(fallen_y(&p, units(2), units(6), &e), fx(13_300_000));
    assert_eq!(fallen_y(&p, units(40), units(6), &e), units(68));
    assert_eq!(fallen_y(&p, units(2), units(-6), &e), fx(30_700_000));
    assert_eq!(fallen_y(&p, units(2), units(0), &e), units(22));
}

#[test]
fn swing_turns_with_time_and_rotation_speed() {
    let p = particle();
    assert_eq!(oscillation_phase(&p, units(0), fx(1_700_000)).raw, 0);
    assert_eq!(oscillation_phase(&p, units(10), fx(1_700_000)).raw, 3_060_000);
    assert_eq!(oscillation_phase(&p, units(10), units(0)).raw, 0);
    assert_eq!(swing_amplitude(&p).raw, 2_700_000);
}

#[test]
fn sprite_turns_from_its_base_angle() {
    let p = particle();
    assert_eq!(rotation_angle(&p, units(0), fx(1_700_000)).raw, 2_199_114);
    assert_eq!(rotation_angle(&p, units(10), fx(1_700_000)).raw, 7_979_114);
    assert_eq!(rotation_angle(&p, units(10), fx(-1_700_000)).raw, -3_580_886);
}

#[test]
fn sprite_shrinks_with_the_clip_distance() {
    let p = particle();
    assert_eq!(point_size(&p, units(9), units(1)).raw, 49_275_000);
    assert_eq!(point_size(&p, units(9), units(100)).raw, 492_750);
    assert_eq!(point_size(&p, units(9), units(0)).raw, i64::MAX);
    assert_eq!(point_size(&p, units(0), units(0)).raw, 0);
}

#[test]
fn position_adds_the_swing_to_drift_and_depth() {
    let p = particle();
    let e = extents();
    let still = position_at(&p, units(10), units(100), units(6), &e, units(0), units(1));
    assert_eq!(still.x, units(55));
    assert_eq!(still.y, fx(-21_500_000));
    assert_eq!(still.z, fx(-74_300_000));
    let swung = position_at(&p, units(10), units(100), units(6), &e, fx(500_000), fx(-866_025));
    assert_eq!(swung.x, fx(56_350_000));
    assert_eq!(swung.y, fx(-21_500_000));
    assert_eq!(swung.z, fx(-79_338_268));
}
