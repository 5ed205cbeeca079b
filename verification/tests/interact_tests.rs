use kiosk_controller::interact::{
    current_strategy, engine_start, engine_step, interact, AttemptOutcome, InteractionError,
    InteractionPlan, Strategy,
};

fn plan(strategies: Vec<Strategy>, has_check: bool, max_attempts: u32) -> InteractionPlan {
    InteractionPlan { strategies, has_success_check: has_check, max_attempts, retry_delay_ms: 1000 }
}

fn failing() -> AttemptOutcome {
    // The click lands locally, but the success check keeps failing.
    AttemptOutcome { dispatched: true, check_passed: false }
}

#[test]
fn exhaustion_after_exactly_max_attempts_rounds() {
    let p = plan(
        vec![Strategy::NativeClick, Strategy::KeySubmit, Strategy::ForcedActivation],
        true,
        2,
    );
    let outcomes: Vec<AttemptOutcome> = (0..6).map(|_| failing()).collect();
    let (res, used) = interact(&p, &outcomes);
    assert_eq!(res, Err(InteractionError::Exhausted));
    assert_eq!(used, 6);
}

#[test]
fn every_strategy_is_tried_before_a_round_advances() {
    let p = plan(
        vec![Strategy::NativeClick, Strategy::KeySubmit, Strategy::ForcedActivation],
        true,
        2,
    );
    let mut st = engine_start();
    let mut order = Vec::new();
    loop {
        order.push(current_strategy(&p, &st));
        let (next, done) = engine_step(&p, st, &failing());
        match done {
            None => st = next,
            Some(res) => {
                assert_eq!(res, Err(InteractionError::Exhausted));
                break;
            }
        }
    }
    assert_eq!(
        order,
        vec![
            Strategy::NativeClick,
            Strategy::KeySubmit,
            Strategy::ForcedActivation,
            Strategy::NativeClick,
            Strategy::KeySubmit,
            Strategy::ForcedActivation,
        ]
    );
}

#[test]
fn success_stops_the_engine_at_that_attempt() {
    let p = plan(vec![Strategy::NativeClick, Strategy::KeySubmit], true, 5);
    let mut outcomes: Vec<AttemptOutcome> = (0..10).map(|_| failing()).collect();
    outcomes[3] = AttemptOutcome { dispatched: true, check_passed: true };
    let (res, used) = interact(&p, &outcomes);
    assert_eq!(res, Ok(()));
    assert_eq!(used, 4);
}

#[test]
fn without_a_check_local_success_is_sufficient() {
    let p = plan(vec![Strategy::NativeClick], false, 3);
    let outcomes = vec![AttemptOutcome { dispatched: true, check_passed: false }];
    // One extra failing slot per remaining round, never consumed.
    let mut padded = outcomes.clone();
    padded.push(AttemptOutcome { dispatched: false, check_passed: false });
    padded.push(AttemptOutcome { dispatched: false, check_passed: false });
    let (res, used) = interact(&p, &padded);
    assert_eq!(res, Ok(()));
    assert_eq!(used, 1);
}

#[test]
fn with_a_check_a_dispatched_click_is_not_enough() {
    let p = plan(vec![Strategy::NativeClick], true, 2);
    let outcomes = vec![failing(), failing()];
    let (res, used) = interact(&p, &outcomes);
    assert_eq!(res, Err(InteractionError::Exhausted));
    assert_eq!(used, 2);
}

#[test]
fn failed_dispatches_also_consume_the_budget() {
    let p = plan(vec![Strategy::NativeClick, Strategy::KeySubmit], false, 1);
    let outcomes = vec![
        AttemptOutcome { dispatched: false, check_passed: false },
        AttemptOutcome { dispatched: false, check_passed: false },
    ];
    let (res, used) = interact(&p, &outcomes);
    assert_eq!(res, Err(InteractionError::Exhausted));
    assert_eq!(used, 2);
}
