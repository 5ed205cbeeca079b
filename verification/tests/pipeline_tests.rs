use kiosk_controller::dom::{ElementPredicate, Query};
use kiosk_controller::interact::{InteractionError, Strategy};
use kiosk_controller::locator::FrameSearch;
use kiosk_controller::pipeline::{
    join_flow, LocateDecision, PipelineStatus, SessionPipeline, LOCATE_RETRY_SECONDS,
    OPTIONAL_LOCATE_ATTEMPTS,
};

#[test]
fn the_join_flow_has_five_steps_in_order() {
    let steps = join_flow();
    assert_eq!(steps.len(), 5);
    let required: Vec<bool> = steps.iter().map(|s| s.required).collect();
    assert_eq!(required, vec![true, true, true, false, true]);
}

#[test]
fn the_sign_in_step_looks_for_the_anchor_everywhere() {
    let steps = join_flow();
    assert_eq!(steps[0].frame_search, FrameSearch::AllFrames);
    match &steps[0].predicate {
        ElementPredicate::FirstOf(qs) => {
            assert_eq!(qs.len(), 1);
            match &qs[0] {
                Query::TextContains { tag, needle } => {
                    assert_eq!(tag.as_deref(), Some("a"));
                    assert_eq!(needle, "sign in");
                }
                _ => panic!("unexpected query kind"),
            }
        }
        _ => panic!("sign-in predicate is not a query list"),
    }
}

#[test]
fn the_join_step_is_the_stubborn_one() {
    let steps = join_flow();
    let join = &steps[4];
    assert!(join.required);
    assert_eq!(join.frame_search, FrameSearch::AllFrames);
    assert!(join.visible_only);
    assert!(join.has_success_check);
    assert_eq!(join.max_attempts, 10);
    assert_eq!(
        join.strategies,
        vec![Strategy::NativeClick, Strategy::KeySubmit, Strategy::ForcedActivation]
    );
    match &join.predicate {
        ElementPredicate::FirstOf(qs) => assert_eq!(qs.len(), 3),
        _ => panic!("join predicate is not a query list"),
    }
}

#[test]
fn a_mandatory_step_blocks_until_located() {
    let mut p = SessionPipeline::new(join_flow());
    for _ in 0..50 {
        assert_eq!(p.status(), PipelineStatus::Running);
        assert_eq!(
            p.on_locate(false),
            LocateDecision::RetryAfterDelay { seconds: LOCATE_RETRY_SECONDS }
        );
    }
    assert_eq!(p.current, 0);
    assert_eq!(p.on_locate(true), LocateDecision::Interact);
}

#[test]
fn an_optional_step_is_skipped_after_its_attempt_cap() {
    let mut p = SessionPipeline::new(join_flow());
    // Walk the three mandatory steps.
    for _ in 0..3 {
        assert_eq!(p.on_locate(true), LocateDecision::Interact);
        p.on_interaction(Ok(()));
    }
    assert_eq!(p.current, 3);
    for _ in 0..OPTIONAL_LOCATE_ATTEMPTS - 1 {
        assert_eq!(
            p.on_locate(false),
            LocateDecision::RetryAfterDelay { seconds: LOCATE_RETRY_SECONDS }
        );
    }
    assert_eq!(p.on_locate(false), LocateDecision::StepSkipped);
    assert_eq!(p.current, 4);
    assert_eq!(p.status(), PipelineStatus::Running);
}

#[test]
fn a_mandatory_step_that_exhausts_interaction_fails_the_pipeline() {
    let mut p = SessionPipeline::new(join_flow());
    assert_eq!(p.on_locate(true), LocateDecision::Interact);
    p.on_interaction(Err(InteractionError::Exhausted));
    assert_eq!(p.status(), PipelineStatus::Failed);
}

#[test]
fn an_optional_step_that_exhausts_interaction_is_merely_skipped() {
    let mut p = SessionPipeline::new(join_flow());
    for _ in 0..3 {
        p.on_locate(true);
        p.on_interaction(Ok(()));
    }
    assert_eq!(p.current, 3);
    p.on_locate(true);
    p.on_interaction(Err(InteractionError::Exhausted));
    assert_eq!(p.current, 4);
    assert_eq!(p.status(), PipelineStatus::Running);
}

#[test]
fn completing_every_step_completes_the_pipeline() {
    let mut p = SessionPipeline::new(join_flow());
    while p.status() == PipelineStatus::Running {
        p.on_locate(true);
        p.on_interaction(Ok(()));
    }
    assert_eq!(p.status(), PipelineStatus::Complete);
    assert_eq!(p.current, 5);
}
