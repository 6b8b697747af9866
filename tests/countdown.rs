use ticket_grab::countdown::sleep_plan;

#[test]
fn thirty_seven_second_countdown() {
    let plan = sleep_plan(37_000);
    assert_eq!(
        plan,
        vec![15_000, 15_000, 1_000, 1_000, 1_000, 1_000, 1_000, 1_000, 800]
    );
    let total: u64 = plan.iter().sum();
    assert_eq!(total, 36_800);
    assert!(total.abs_diff(37_000) <= 500);
}

#[test]
fn short_countdown_only_settles() {
    assert_eq!(sleep_plan(0), vec![800]);
    assert_eq!(sleep_plan(1_300), vec![800]);
}

#[test]
fn twenty_seconds_uses_fine_ticks() {
    let plan = sleep_plan(20_000);
    assert_eq!(plan.len(), 20);
    assert!(plan[..19].iter().all(|&d| d == 1_000));
    assert_eq!(plan[19], 800);
}

#[test]
fn long_countdown_total_within_tolerance() {
    for c in [1_301u64, 5_000, 20_001, 61_234, 3_600_000] {
        let total: u64 = sleep_plan(c).iter().sum();
        assert!(total.abs_diff(c) <= 500, "countdown {c} total {total}");
    }
}
