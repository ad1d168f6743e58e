use double_pendulum::scalar::Scalar;
use double_pendulum::state::Point;
use double_pendulum::trail::fade;
use double_pendulum::trail::Marker;
use double_pendulum::trail::TrailBuffer;
use double_pendulum::trail::FADE_STEP;
use double_pendulum::trail::FULL_OPACITY;

fn at(x: f32, y: f32) -> Point {
    Point { x: Scalar::from_bits(x.to_bits()), y: Scalar::from_bits(y.to_bits()) }
}

#[test]
fn new_trail_is_empty() {
    let trail = TrailBuffer::new(200);
    assert_eq!(trail.len(), 0);
    assert!(trail.is_empty());
    assert_eq!(trail.cap(), 200);
    assert_eq!(trail.get(0), None);
    assert!(trail.markers().is_empty());
}

#[test]
fn record_appends_a_fully_opaque_marker() {
    let mut trail = TrailBuffer::new(3);
    trail.record(at(1.0, 2.0));
    trail.record(at(3.0, 4.0));
    assert_eq!(trail.len(), 2);
    assert!(!trail.is_empty());
    assert_eq!(trail.get(0), Some(Marker { position: at(1.0, 2.0), alpha: 255 }));
    assert_eq!(trail.get(1), Some(Marker { position: at(3.0, 4.0), alpha: 255 }));
    assert_eq!(trail.get(2), None);
    assert_eq!(FULL_OPACITY, 255);
}

#[test]
fn record_on_a_full_trail_starts_over() {
    let mut trail = TrailBuffer::new(3);
    for i in 0..3 {
        trail.record(at(i as f32, 0.0));
    }
    assert_eq!(trail.len(), 3);
    trail.record(at(9.0, 9.0));
    assert_eq!(trail.len(), 1);
    assert_eq!(trail.markers(), &[Marker { position: at(9.0, 9.0), alpha: 255 }][..]);
}

#[test]
fn trail_size_never_exceeds_the_cap() {
    let mut trail = TrailBuffer::new(200);
    let mut largest = 0;
    for i in 0..1000 {
        trail.record(at(i as f32, -(i as f32)));
        trail.decay();
        assert!(trail.len() <= 200);
        assert_eq!(trail.len(), i % 200 + 1);
        largest = largest.max(trail.len());
    }
    assert_eq!(largest, 200);
}

#[test]
fn trail_with_cap_zero_stays_empty() {
    let mut trail = TrailBuffer::new(0);
    trail.record(at(1.0, 1.0));
    assert_eq!(trail.len(), 0);
    trail.decay();
    assert!(trail.is_empty());
}

#[test]
fn trail_with_cap_one_holds_the_latest() {
    let mut trail = TrailBuffer::new(1);
    trail.record(at(1.0, 1.0));
    trail.record(at(2.0, 2.0));
    assert_eq!(trail.markers(), &[Marker { position: at(2.0, 2.0), alpha: 255 }][..]);
}

#[test]
fn fade_exact_values() {
    assert_eq!(FADE_STEP, 4);
    assert_eq!(fade(255), 251);
    assert_eq!(fade(5), 1);
    assert_eq!(fade(4), 4);
    assert_eq!(fade(3), 3);
    assert_eq!(fade(1), 1);
    assert_eq!(fade(0), 0);
}

#[test]
fn fade_never_raises_and_never_reaches_zero() {
    for alpha in 0..=255u8 {
        let faded = fade(alpha);
        assert!(faded <= alpha);
        assert_eq!(faded == 0, alpha == 0);
    }
}

#[test]
fn decay_lowers_every_marker_in_place() {
    let mut trail = TrailBuffer::new(10);
    trail.record(at(1.0, 2.0));
    trail.decay();
    trail.record(at(3.0, 4.0));
    trail.decay();
    assert_eq!(
        trail.markers(),
        &[
            Marker { position: at(1.0, 2.0), alpha: 247 },
            Marker { position: at(3.0, 4.0), alpha: 251 },
        ][..]
    );
}

#[test]
fn fresh_marker_fades_to_the_floor() {
    let mut trail = TrailBuffer::new(10);
    trail.record(at(0.0, 0.0));
    for passes in 1..=100usize {
        trail.decay();
        let expected = if passes <= 63 { 255 - 4 * passes } else { 3 };
        assert_eq!(trail.get(0).unwrap().alpha as usize, expected);
    }
}
