use tilt_compass::direction::Direction;
use tilt_compass::display::arrow_cells;
use tilt_compass::estimator::{scaled_gravity_direction, tilt_compensated_field, TRIG_SCALE};
use tilt_compass::heading::Heading;
use tilt_compass::machine::{initial, step, AcqState, Action, SensorEvent, SensorMode, SubSensor};
use tilt_compass::vector::Vector3;

fn classify_cdeg(cdeg: i64) -> Direction {
    tilt_compass::direction::classify(Heading::from_raw_centidegrees(cdeg))
}

#[test]
fn classifier_boundaries() {
    assert_eq!(classify_cdeg(0), Direction::North);
    assert_eq!(classify_cdeg(4499), Direction::North);
    assert_eq!(classify_cdeg(4500), Direction::East);
    assert_eq!(classify_cdeg(13499), Direction::East);
    assert_eq!(classify_cdeg(13500), Direction::South);
    assert_eq!(classify_cdeg(22499), Direction::South);
    assert_eq!(classify_cdeg(22500), Direction::West);
    assert_eq!(classify_cdeg(31499), Direction::West);
    assert_eq!(classify_cdeg(31500), Direction::North);
    assert_eq!(classify_cdeg(35999), Direction::North);
}

#[test]
fn heading_normalization() {
    assert_eq!(Heading::from_raw_centidegrees(0).centidegrees(), 0);
    assert_eq!(Heading::from_raw_centidegrees(35999).centidegrees(), 35999);
    assert_eq!(Heading::from_raw_centidegrees(36000).centidegrees(), 0);
    assert_eq!(Heading::from_raw_centidegrees(-1).centidegrees(), 35999);
    assert_eq!(Heading::from_raw_centidegrees(-9000).centidegrees(), 27000);
    assert_eq!(Heading::from_raw_centidegrees(-18000).centidegrees(), 18000);
    assert_eq!(Heading::from_raw_centidegrees(72345).centidegrees(), 345);
    assert_eq!(Heading::from_raw_centidegrees(-36001).centidegrees(), 35999);
}

#[test]
fn heading_display_split() {
    assert_eq!(
        Heading::from_raw_centidegrees(9042).degrees_and_hundredths(),
        (90, 42)
    );
    assert_eq!(
        Heading::from_raw_centidegrees(7).degrees_and_hundredths(),
        (0, 7)
    );
    assert_eq!(
        Heading::from_raw_centidegrees(35999).degrees_and_hundredths(),
        (359, 99)
    );
}

#[test]
fn heading_always_in_range() {
    let raws = [
        i64::MIN,
        i64::MIN / 4,
        -1_000_000,
        -36000,
        -18000,
        -1,
        0,
        1,
        17999,
        36000,
        123_456_789,
        i64::MAX,
    ];
    for raw in raws {
        let c = Heading::from_raw_centidegrees(raw).centidegrees();
        assert!(c < 36000);
    }
}

fn scaled_trig(value: f64) -> i32 {
    let s = (value * TRIG_SCALE as f64).round() as i32;
    s.clamp(-TRIG_SCALE, TRIG_SCALE)
}

/// The same fusion the acquisition driver performs: normalize the
/// accelerometer sample, derive pitch and roll, tilt-compensate the magnetic
/// field through the library, and take the angle of the horizontal pair.
fn fused_heading_cdeg(accel: (i32, i32, i32), mag: (i32, i32, i32)) -> i64 {
    let accel = Vector3::new(accel.0, accel.1, accel.2);
    assert!(!accel.is_zero(), "degenerate accelerometer sample");
    let (gx, gy, gz) = scaled_gravity_direction(accel);
    let pitch = (-(gx as f64) / TRIG_SCALE as f64).asin();
    let roll = (gy as f64).atan2(gz as f64);
    let (horiz_x, horiz_y) = tilt_compensated_field(
        Vector3::new(mag.0, mag.1, mag.2),
        scaled_trig(pitch.sin()),
        scaled_trig(pitch.cos()),
        scaled_trig(roll.sin()),
        scaled_trig(roll.cos()),
    );
    let degrees = (horiz_y as f64).atan2(horiz_x as f64).to_degrees();
    (degrees * 100.0).round() as i64
}

fn cdeg_distance(a: u32, b: u32) -> u32 {
    let plain = a.abs_diff(b);
    plain.min(36000 - plain)
}

#[test]
fn level_sensor_field_on_x_points_north() {
    let raw = fused_heading_cdeg((0, 0, 1000), (300, 0, 0));
    let heading = Heading::from_raw_centidegrees(raw);
    assert!(cdeg_distance(heading.centidegrees(), 0) <= 5);
    assert_eq!(tilt_compass::direction::classify(heading), Direction::North);
}

#[test]
fn level_sensor_field_on_y_points_east() {
    let raw = fused_heading_cdeg((0, 0, 1000), (0, 300, 0));
    let heading = Heading::from_raw_centidegrees(raw);
    assert!(cdeg_distance(heading.centidegrees(), 9000) <= 5);
    assert_eq!(tilt_compass::direction::classify(heading), Direction::East);
}

#[test]
fn tilt_compensation_exact_when_level() {
    let scale = TRIG_SCALE as i64;
    let (horiz_x, horiz_y) =
        tilt_compensated_field(Vector3::new(300, 0, -40), 0, TRIG_SCALE, 0, TRIG_SCALE);
    // x*cos(roll)*S - z*cos(pitch)*S and y*cos(pitch)*S + z*sin(pitch)*S
    assert_eq!(horiz_x, (300 + 40) * scale * scale);
    assert_eq!(horiz_y, 0);
}

#[test]
fn norm_is_integer_square_root() {
    assert_eq!(Vector3::new(3, 4, 12).norm(), 13);
    assert_eq!(Vector3::new(0, 0, -1000).norm(), 1000);
    assert_eq!(Vector3::new(0, 0, 0).norm(), 0);
    assert_eq!(Vector3::new(1, 1, 1).norm(), 1);
    let extremes = [
        Vector3::new(i32::MAX, i32::MAX, i32::MAX),
        Vector3::new(i32::MIN, i32::MIN, i32::MIN),
        Vector3::new(i32::MIN, 0, i32::MAX),
        Vector3::new(7, -130, 25_000),
    ];
    for v in extremes {
        let n = v.norm_squared() as u128;
        let r = v.norm() as u128;
        assert!(r * r <= n && n < (r + 1) * (r + 1));
    }
}

#[test]
fn gravity_direction_scaled_exactly() {
    assert_eq!(scaled_gravity_direction(Vector3::new(0, 0, 1000)), (0, 0, 32768));
    assert_eq!(scaled_gravity_direction(Vector3::new(0, -500, 0)), (0, -32768, 0));
    // norm of (3, 4, 0) is 5; quotients round toward zero
    assert_eq!(
        scaled_gravity_direction(Vector3::new(3, 4, 0)),
        (19660, 26214, 0)
    );
    assert_eq!(
        scaled_gravity_direction(Vector3::new(-3, 4, 0)),
        (-19660, 26214, 0)
    );
}

#[test]
fn norm_squared_exact() {
    assert_eq!(Vector3::new(3, 4, 12).norm_squared(), 169);
    assert_eq!(Vector3::new(0, 0, 0).norm_squared(), 0);
    assert_eq!(
        Vector3::new(i32::MIN, i32::MIN, i32::MIN).norm_squared(),
        3 * (1u64 << 62)
    );
    assert!(Vector3::new(0, 0, 0).is_zero());
    assert!(!Vector3::new(0, -1, 0).is_zero());
}

#[test]
fn direction_letters() {
    assert_eq!(Direction::North.letter(), 'N');
    assert_eq!(Direction::East.letter(), 'E');
    assert_eq!(Direction::South.letter(), 'S');
    assert_eq!(Direction::West.letter(), 'W');
}

#[test]
fn arrow_patterns_match_glyphs() {
    assert_eq!(
        arrow_cells('N'),
        vec![(0, 2), (1, 1), (1, 2), (1, 3), (2, 2), (3, 2), (4, 2)]
    );
    assert_eq!(
        arrow_cells('S'),
        vec![(0, 2), (1, 2), (2, 2), (3, 1), (3, 2), (3, 3), (4, 2)]
    );
    assert_eq!(
        arrow_cells('E'),
        vec![(2, 0), (2, 1), (2, 2), (2, 3), (2, 4), (1, 3), (3, 3)]
    );
    assert_eq!(
        arrow_cells('W'),
        vec![(2, 0), (1, 1), (3, 1), (2, 1), (2, 2), (2, 3), (2, 4)]
    );
    for symbol in ['N', 'S', 'E', 'W', '?'] {
        for (row, col) in arrow_cells(symbol) {
            assert!(row < 5 && col < 5);
        }
    }
}

#[test]
fn arrow_fallback_is_center_dot() {
    assert_eq!(arrow_cells('?'), vec![(2, 2); 7]);
    assert_eq!(arrow_cells('x'), vec![(2, 2); 7]);
    assert_eq!(arrow_cells('n'), vec![(2, 2); 7]);
}

#[test]
fn startup_sequence_in_order() {
    let (state, action) = initial();
    assert_eq!(state, AcqState::AwaitingIdentity);
    assert_eq!(action, Action::Identify);
    let (state, action) = step(state, SensorEvent::Completed);
    assert_eq!(action, Action::Initialize);
    let (state, action) = step(state, SensorEvent::Completed);
    assert_eq!(
        action,
        Action::ConfigureAccelerometer {
            mode: SensorMode::HighResolution,
            odr_hz: 50,
        }
    );
    let (state, action) = step(state, SensorEvent::Completed);
    assert_eq!(
        action,
        Action::ConfigureMagnetometer {
            mode: SensorMode::HighResolution,
            odr_hz: 10,
        }
    );
    let (state, action) = step(state, SensorEvent::Completed);
    assert_eq!(action, Action::EnterContinuousMode);
    let (state, action) = step(state, SensorEvent::Completed);
    assert_eq!(action, Action::EnableLowPassFilter);
    let (state, action) = step(state, SensorEvent::Completed);
    assert_eq!(state, AcqState::AwaitingAccelStatus);
    assert_eq!(action, Action::PollAccelerometer);
}

#[test]
fn identity_probe_failure_is_ignored() {
    let (state, _) = initial();
    let (state, action) = step(state, SensorEvent::Failed);
    assert_eq!(state, AcqState::AwaitingInit);
    assert_eq!(action, Action::Initialize);
}

#[test]
fn one_full_sampling_cycle() {
    let accel = Vector3::new(12, -7, 996);
    let mag = Vector3::new(0, 310, -20);
    let state = AcqState::AwaitingAccelStatus;
    let (state, action) = step(state, SensorEvent::FreshData(true));
    assert_eq!(action, Action::ReadAcceleration);
    let (state, action) = step(state, SensorEvent::Acceleration(accel));
    assert_eq!(action, Action::PollMagnetometer);
    let (state, action) = step(state, SensorEvent::FreshData(true));
    assert_eq!(action, Action::ReadMagneticField);
    let (state, action) = step(state, SensorEvent::MagneticField(mag));
    assert_eq!(action, Action::ComputeHeading { accel, mag });
    let (state, action) = step(state, SensorEvent::HeadingReady(9000));
    assert_eq!(
        action,
        Action::Report {
            heading: Heading::from_raw_centidegrees(9000),
            direction: Direction::East,
        }
    );
    let (state, action) = step(state, SensorEvent::Completed);
    assert_eq!(action, Action::Delay);
    let (state, action) = step(state, SensorEvent::Completed);
    assert_eq!(state, AcqState::AwaitingAccelStatus);
    assert_eq!(action, Action::PollAccelerometer);
}

#[test]
fn report_normalizes_negative_heading() {
    let (_, action) = step(AcqState::AwaitingHeading, SensorEvent::HeadingReady(-4500));
    assert_eq!(
        action,
        Action::Report {
            heading: Heading::from_raw_centidegrees(31500),
            direction: Direction::North,
        }
    );
}

#[test]
fn stale_accelerometer_skips_to_delay() {
    let (state, action) = step(AcqState::AwaitingAccelStatus, SensorEvent::FreshData(false));
    assert_eq!(state, AcqState::AwaitingDelay);
    assert_eq!(
        action,
        Action::SkipCycle {
            stale: SubSensor::Accelerometer
        }
    );
    // the skipped cycle resumes with a fresh poll after the delay
    let (state, action) = step(state, SensorEvent::Completed);
    assert_eq!(state, AcqState::AwaitingAccelStatus);
    assert_eq!(action, Action::PollAccelerometer);
}

#[test]
fn stale_magnetometer_skips_to_delay() {
    let accel = Vector3::new(0, 0, 1000);
    let (state, action) = step(
        AcqState::AwaitingMagStatus { accel },
        SensorEvent::FreshData(false),
    );
    assert_eq!(state, AcqState::AwaitingDelay);
    assert_eq!(
        action,
        Action::SkipCycle {
            stale: SubSensor::Magnetometer
        }
    );
}

#[test]
fn initialization_failure_is_fatal() {
    let (state, _) = initial();
    let (state, action) = step(state, SensorEvent::Completed);
    assert_eq!(action, Action::Initialize);
    let (mut state, action) = step(state, SensorEvent::Failed);
    assert_eq!(state, AcqState::Halted);
    assert_eq!(action, Action::Halt);
    // no later event can restart acquisition or reach the sampling loop
    let later = [
        SensorEvent::Completed,
        SensorEvent::FreshData(true),
        SensorEvent::Acceleration(Vector3::new(0, 0, 1000)),
        SensorEvent::HeadingReady(0),
    ];
    for event in later {
        let (next, action) = step(state, event);
        assert_eq!(next, AcqState::Halted);
        assert_eq!(action, Action::Halt);
        state = next;
    }
}

#[test]
fn steady_state_read_failure_is_fatal() {
    let (state, action) = step(AcqState::AwaitingAccelSample, SensorEvent::Failed);
    assert_eq!(state, AcqState::Halted);
    assert_eq!(action, Action::Halt);
    let (state, action) = step(AcqState::AwaitingAccelStatus, SensorEvent::Failed);
    assert_eq!(state, AcqState::Halted);
    assert_eq!(action, Action::Halt);
}
