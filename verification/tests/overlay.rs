use rand::rngs::StdRng;
use rand::{Rng, SeedableRng};
use rectangles::scene::{mouse_handler, setup};
use rectangles::overlay::{count_text, stats_system};
use rectangles::stats::Stats;

#[test]
fn an_untouched_store_leaves_the_counter_alone() {
    assert_eq!(stats_system(false, 250), None);
    assert_eq!(stats_system(false, 0), None);
    assert_eq!(stats_system(false, u32::MAX), None);
}

#[test]
fn a_touched_store_rewrites_the_counter() {
    assert_eq!(stats_system(true, 500), Some("500".to_string()));
    assert_eq!(stats_system(true, 250), Some("250".to_string()));
}

#[test]
fn a_store_touched_without_a_new_value_rewrites_the_counter_too() {
    let mut stats = Stats { count: 0 };
    let mut registry = setup(&stats);
    mouse_handler(&mut stats, &mut registry, false, true);
    assert_eq!(stats.count, 0);
    assert_eq!(stats_system(true, stats.count), Some("0".to_string()));
}

#[test]
fn the_counter_follows_the_clicks() {
    let mut stats = Stats::default();
    let mut registry = setup(&stats);
    let mut counter = String::new();
    let ticks = [
        (false, false, "250"),
        (true, false, "500"),
        (false, false, "500"),
        (false, true, "250"),
        (false, true, "125"),
        (false, true, "62"),
        (false, false, "62"),
        (true, false, "124"),
    ];
    let mut changed = true;
    for (left, right, shown) in ticks {
        if left || right {
            mouse_handler(&mut stats, &mut registry, left, right);
            changed = true;
        }
        match stats_system(changed, stats.count) {
            Some(text) => {
                assert!(changed);
                counter = text;
            }
            None => assert!(!changed),
        }
        changed = false;
        assert_eq!(counter, shown);
    }
}

#[test]
fn count_text_of_single_digits() {
    for (count, text) in
        [(0, "0"), (1, "1"), (2, "2"), (3, "3"), (4, "4"), (5, "5"), (6, "6"), (7, "7"), (8, "8"), (9, "9")]
    {
        assert_eq!(count_text(count), text);
    }
}

#[test]
fn count_text_at_the_powers_of_ten() {
    let mut power: u32 = 1;
    for _ in 0..9 {
        power *= 10;
        assert_eq!(count_text(power - 1), format!("{}", power - 1));
        assert_eq!(count_text(power), format!("{}", power));
        assert_eq!(count_text(power + 1), format!("{}", power + 1));
    }
    assert_eq!(count_text(10), "10");
    assert_eq!(count_text(99), "99");
    assert_eq!(count_text(100), "100");
    assert_eq!(count_text(1_000_000_000), "1000000000");
}

#[test]
fn count_text_keeps_inner_and_trailing_zeros() {
    assert_eq!(count_text(1_024_000), "1024000");
    assert_eq!(count_text(4_000_000_007), "4000000007");
    assert_eq!(count_text(250), "250");
}

#[test]
fn count_text_of_the_largest_count() {
    assert_eq!(count_text(u32::MAX), "4294967295");
}

#[test]
fn count_text_agrees_with_the_standard_formatter() {
    let mut rng = StdRng::seed_from_u64(3);
    for _ in 0..50_000 {
        let count: u32 = rng.gen::<u32>() >> rng.gen_range(0..32);
        assert_eq!(count_text(count), format!("{}", count));
    }
}
