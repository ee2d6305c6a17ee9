use rand::rngs::StdRng;
use rand::{Rng, SeedableRng};
use rectangles::boundary::{collision_detection, last_primary_resize};

fn enforce(x: f32, teleport_target: f32) -> f32 {
    match collision_detection(x.to_bits(), teleport_target.to_bits()) {
        Some(position) => f32::from_bits(position),
        None => x,
    }
}

#[test]
fn no_notification_changes_no_threshold() {
    assert_eq!(last_primary_resize(&vec![]), None);
}

#[test]
fn notifications_of_other_windows_are_passed_over() {
    assert_eq!(last_primary_resize(&vec![false]), None);
    assert_eq!(last_primary_resize(&vec![false, false, false]), None);
}

#[test]
fn a_single_primary_notification_counts() {
    assert_eq!(last_primary_resize(&vec![true]), Some(0));
    assert_eq!(last_primary_resize(&vec![false, true, false]), Some(1));
}

#[test]
fn only_the_last_primary_notification_counts() {
    assert_eq!(last_primary_resize(&vec![true, true]), Some(1));
    assert_eq!(last_primary_resize(&vec![true, false, true, false]), Some(2));
    assert_eq!(last_primary_resize(&vec![true, true, true, false, false]), Some(2));
    assert_eq!(last_primary_resize(&vec![true, false, false, false]), Some(0));
}

#[test]
fn last_primary_resize_agrees_with_a_search_from_the_back() {
    let mut rng = StdRng::seed_from_u64(7);
    for _ in 0..2_000 {
        let len = rng.gen_range(0..12);
        let primary: Vec<bool> = (0..len).map(|_| rng.gen_bool(0.3)).collect();
        assert_eq!(last_primary_resize(&primary), primary.iter().rposition(|&p| p));
    }
}

#[test]
fn the_threshold_follows_the_width_of_the_last_primary_notification() {
    let notifications = [(true, 1280.0f32), (false, 300.0), (true, 800.0), (false, 640.0)];
    let primary: Vec<bool> = notifications.iter().map(|n| n.0).collect();
    let place = last_primary_resize(&primary).unwrap();
    let widths = [10.0f32, 25.5, 49.999996];
    for width in widths {
        let teleport_target = -(notifications[place].1 / 2.) - width;
        assert_eq!(teleport_target, -400.0 - width);
    }
}

#[test]
fn a_rectangle_past_its_threshold_is_mirrored() {
    assert_eq!(
        collision_detection((-700.0f32).to_bits(), (-690.0f32).to_bits()),
        Some(700.0f32.to_bits())
    );
    assert_eq!(enforce(-700.0, -690.0), 700.0);
    assert_eq!(enforce(-690.00006, -690.0), 690.00006);
}

#[test]
fn a_rectangle_within_bounds_stays() {
    assert_eq!(collision_detection((-100.0f32).to_bits(), (-690.0f32).to_bits()), None);
    assert_eq!(collision_detection(320.0f32.to_bits(), (-690.0f32).to_bits()), None);
    assert_eq!(enforce(-689.99994, -690.0), -689.99994);
}

#[test]
fn a_rectangle_on_its_threshold_stays() {
    assert_eq!(collision_detection((-690.0f32).to_bits(), (-690.0f32).to_bits()), None);
    assert_eq!(collision_detection(0.0f32.to_bits(), (-0.0f32).to_bits()), None);
    assert_eq!(collision_detection((-0.0f32).to_bits(), 0.0f32.to_bits()), None);
}

#[test]
fn mirroring_is_exact_negation() {
    let mut rng = StdRng::seed_from_u64(11);
    for _ in 0..100_000 {
        let x = f32::from_bits(rng.gen());
        let teleport_target = f32::from_bits(rng.gen());
        let thrown = collision_detection(x.to_bits(), teleport_target.to_bits());
        if x < teleport_target {
            assert_eq!(thrown, Some((-x).to_bits()));
        } else {
            assert_eq!(thrown, None);
        }
    }
}

#[test]
fn mirroring_does_not_bring_a_rectangle_within_bounds() {
    assert_eq!(enforce(-1.0, 2.0), 1.0);
    assert!(enforce(-1.0, 2.0) < 2.0);
    assert_eq!(enforce(1.0, 2.0), -1.0);
    assert_eq!(enforce(enforce(1.0, 2.0), 2.0), 1.0);
}

#[test]
fn a_fast_rectangle_lands_far_outside_the_screen() {
    assert_eq!(enforce(-100_000.0, -690.0), 100_000.0);
}

#[test]
fn a_position_that_is_no_number_stays() {
    assert_eq!(collision_detection(f32::NAN.to_bits(), 0.0f32.to_bits()), None);
    assert_eq!(collision_detection(0.0f32.to_bits(), f32::NAN.to_bits()), None);
    assert_eq!(collision_detection(f32::NAN.to_bits(), f32::INFINITY.to_bits()), None);
}

#[test]
fn infinite_positions_are_mirrored_too() {
    assert_eq!(enforce(f32::NEG_INFINITY, -690.0), f32::INFINITY);
    assert_eq!(enforce(f32::INFINITY, -690.0), f32::INFINITY);
    assert_eq!(enforce(-690.0, f32::INFINITY), 690.0);
}
