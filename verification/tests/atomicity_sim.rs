use gba2k::atomicity::run_plain_counter;
use gba2k::atomicity::run_swap_counter;
use gba2k::atomicity::SchedStep;

#[test]
fn plain_loop_loses_update_when_preempted_mid_rmw() {
    // Load, then the handler's increment, then the store: the store
    // overwrites the handler's update.
    let steps = vec![SchedStep::Foreground, SchedStep::Interrupt, SchedStep::Foreground];
    let out = run_plain_counter(&steps);
    assert_eq!(out.fg_done, 1);
    assert_eq!(out.irq_count, 1);
    assert_eq!(out.pc, 0);
    assert_eq!(out.shared, 1);
    assert!(out.shared < out.fg_done + out.irq_count);
}

#[test]
fn plain_loop_is_correct_without_preemption() {
    let steps = vec![
        SchedStep::Foreground,
        SchedStep::Foreground,
        SchedStep::Foreground,
        SchedStep::Foreground,
        SchedStep::Interrupt,
    ];
    let out = run_plain_counter(&steps);
    assert_eq!(out.fg_done, 2);
    assert_eq!(out.irq_count, 1);
    assert_eq!(out.shared, 3);
}

#[test]
fn plain_loop_loses_two_updates_on_longer_schedule() {
    let steps = vec![
        SchedStep::Interrupt,
        SchedStep::Foreground,
        SchedStep::Interrupt,
        SchedStep::Foreground,
        SchedStep::Foreground,
        SchedStep::Interrupt,
        SchedStep::Foreground,
    ];
    let out = run_plain_counter(&steps);
    assert_eq!(out.fg_done, 2);
    assert_eq!(out.irq_count, 3);
    assert_eq!(out.shared, 3);
}

#[test]
fn swap_loop_never_loses_on_the_plain_losing_schedule() {
    let steps = vec![SchedStep::Foreground, SchedStep::Interrupt, SchedStep::Foreground];
    let out = run_swap_counter(&steps);
    assert_eq!(out.pc, 0);
    assert_eq!(out.fg_done, 1);
    assert_eq!(out.irq_count, 1);
    assert_eq!(out.local + out.shared, 2);
}

#[test]
fn swap_loop_accounts_for_every_update_on_longer_schedule() {
    let steps = vec![
        SchedStep::Interrupt,
        SchedStep::Foreground,
        SchedStep::Interrupt,
        SchedStep::Foreground,
        SchedStep::Foreground,
        SchedStep::Interrupt,
        SchedStep::Foreground,
    ];
    let out = run_swap_counter(&steps);
    assert_eq!(out.pc, 0);
    assert_eq!(out.fg_done, 2);
    assert_eq!(out.irq_count, 3);
    assert_eq!(out.local + out.shared, 5);
}

#[test]
fn swap_loop_with_interrupts_only() {
    let steps = vec![SchedStep::Interrupt, SchedStep::Interrupt, SchedStep::Interrupt];
    let out = run_swap_counter(&steps);
    assert_eq!(out.pc, 0);
    assert_eq!(out.fg_done, 0);
    assert_eq!(out.irq_count, 3);
    assert_eq!(out.local + out.shared, 3);
}

#[test]
fn counters_agree_on_empty_schedule() {
    let steps: Vec<SchedStep> = vec![];
    let p = run_plain_counter(&steps);
    let s = run_swap_counter(&steps);
    assert_eq!(p.shared, 0);
    assert_eq!(p.fg_done, 0);
    assert_eq!(s.local + s.shared, 0);
}
