use paintboard::pace::{Pace, PaceTable};
use paintboard::time::{PaintWindow, TimeOfDay, Timestamp};

fn ms(ms: i64) -> Timestamp {
    Timestamp { secs: ms.div_euclid(1000), nanos: (ms.rem_euclid(1000) * 1_000_000) as u32 }
}

#[test]
fn first_paint_of_a_user_is_admitted() {
    let mut table = PaceTable::new();
    assert_eq!(table.last_accept(7), None);
    assert_eq!(table.check_and_mark(7, ms(1000), 500), Pace::Admit);
    assert_eq!(table.last_accept(7), Some(ms(1000)));
}

#[test]
fn paint_inside_the_interval_is_too_fast_and_leaves_no_mark() {
    let mut table = PaceTable::new();
    assert_eq!(table.check_and_mark(7, ms(1000), 500), Pace::Admit);
    assert_eq!(table.check_and_mark(7, ms(1400), 500), Pace::TooFast);
    assert_eq!(table.last_accept(7), Some(ms(1000)));
    assert_eq!(table.check_and_mark(7, ms(1499), 500), Pace::TooFast);
    assert_eq!(table.check_and_mark(7, ms(1500), 500), Pace::Admit);
    assert_eq!(table.last_accept(7), Some(ms(1500)));
}

#[test]
fn interval_is_counted_in_nanoseconds() {
    let mut table = PaceTable::new();
    let start = Timestamp { secs: 10, nanos: 900_000_000 };
    assert_eq!(table.check_and_mark(1, start, 500), Pace::Admit);
    let just_short = Timestamp { secs: 11, nanos: 399_999_999 };
    assert_eq!(table.check_and_mark(1, just_short, 500), Pace::TooFast);
    let exact = Timestamp { secs: 11, nanos: 400_000_000 };
    assert_eq!(table.check_and_mark(1, exact, 500), Pace::Admit);
}

#[test]
fn paint_that_claims_an_earlier_time_is_too_fast() {
    let mut table = PaceTable::new();
    assert_eq!(table.check_and_mark(7, ms(5000), 500), Pace::Admit);
    assert_eq!(table.check_and_mark(7, ms(1000), 500), Pace::TooFast);
    assert_eq!(table.last_accept(7), Some(ms(5000)));
}

#[test]
fn users_are_paced_apart() {
    let mut table = PaceTable::new();
    assert_eq!(table.check_and_mark(1, ms(0), 500), Pace::Admit);
    assert_eq!(table.check_and_mark(2, ms(1), 500), Pace::Admit);
    assert_eq!(table.check_and_mark(-1, ms(2), 500), Pace::Admit);
    assert_eq!(table.check_and_mark(1, ms(3), 500), Pace::TooFast);
    assert_eq!(table.check_and_mark(2, ms(501), 500), Pace::Admit);
}

#[test]
fn zero_interval_admits_everything_that_does_not_go_back() {
    let mut table = PaceTable::new();
    assert_eq!(table.check_and_mark(1, ms(10), 0), Pace::Admit);
    assert_eq!(table.check_and_mark(1, ms(10), 0), Pace::Admit);
    assert_eq!(table.check_and_mark(1, ms(9), 0), Pace::TooFast);
}

#[test]
fn admitted_paints_of_one_user_are_spaced() {
    let mut table = PaceTable::new();
    let mut admitted: Vec<i64> = Vec::new();
    let mut t: i64 = 0;
    let mut step: i64 = 37;
    for _ in 0..400 {
        t += step;
        step = (step * 31 + 11) % 263;
        if table.check_and_mark(5, ms(t), 500) == Pace::Admit {
            admitted.push(t);
        }
    }
    assert!(admitted.len() > 10);
    for pair in admitted.windows(2) {
        assert!(pair[1] - pair[0] >= 500, "{} then {}", pair[0], pair[1]);
    }
}

#[test]
fn nanos_since_is_exact() {
    let a = Timestamp { secs: 10, nanos: 400_000_000 };
    let b = Timestamp { secs: 9, nanos: 900_000_000 };
    assert_eq!(a.nanos_since(&b), 500_000_000);
    assert_eq!(b.nanos_since(&a), -500_000_000);
    assert_eq!(a.nanos_since(&a), 0);
    let far = Timestamp { secs: i64::MAX, nanos: u32::MAX };
    let near = Timestamp { secs: i64::MIN, nanos: 0 };
    assert_eq!(
        far.nanos_since(&near),
        (i64::MAX as i128 - i64::MIN as i128) * 1_000_000_000 + u32::MAX as i128
    );
    assert!(a.same(&Timestamp { secs: 10, nanos: 400_000_000 }));
    assert!(!a.same(&b));
}

#[test]
fn window_includes_both_ends() {
    let window = PaintWindow::afternoon();
    assert_eq!(window.begin, TimeOfDay { secs: 15 * 3600, nanos: 0 });
    assert_eq!(window.end, TimeOfDay { secs: 20 * 3600, nanos: 0 });
    assert!(!window.contains(&TimeOfDay { secs: 15 * 3600 - 1, nanos: 999_999_999 }));
    assert!(window.contains(&TimeOfDay { secs: 15 * 3600, nanos: 0 }));
    assert!(window.contains(&TimeOfDay { secs: 17 * 3600, nanos: 5 }));
    assert!(window.contains(&TimeOfDay { secs: 20 * 3600, nanos: 0 }));
    assert!(!window.contains(&TimeOfDay { secs: 20 * 3600, nanos: 1 }));
    assert!(!window.contains(&TimeOfDay { secs: 0, nanos: 0 }));
    assert!(TimeOfDay { secs: 1, nanos: 0 }.is_before(&TimeOfDay { secs: 1, nanos: 1 }));
    assert!(!TimeOfDay { secs: 1, nanos: 1 }.is_before(&TimeOfDay { secs: 1, nanos: 1 }));
    assert!(!TimeOfDay { secs: 2, nanos: 0 }.is_before(&TimeOfDay { secs: 1, nanos: 9 }));
}
