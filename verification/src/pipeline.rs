//! The session automation engine: the fixed join flow as an ordered
//! pipeline of declarative steps, each one a locator predicate plus an
//! interaction plan.  Mandatory steps block until located — the sign-in
//! surface may legitimately take arbitrarily long to render — while
//! optional steps are capped and skipped.  A mandatory step whose
//! interaction budget is exhausted fails the whole pipeline.

use vstd::prelude::*;

use crate::dom::{ElementPredicate, Query};
use crate::interact::{InteractionError, Strategy};
use crate::locator::FrameSearch;

verus! {

/// Seconds between two locate attempts for a step.
pub const LOCATE_RETRY_SECONDS: u64 = 2;

/// How often an optional step is searched for before it is skipped.
pub const OPTIONAL_LOCATE_ATTEMPTS: u32 = 3;

/// One step of the join flow: what to find, where to look, how to activate
/// it, and how stubbornly to retry.  Steps are stateless templates, reused
/// on every session start.
#[derive(Clone)]
pub struct AutomationStep {
    /// What to find.
    pub predicate: ElementPredicate,
    /// Where to look.
    pub frame_search: FrameSearch,
    /// Restrict matches to visibly displayed elements.
    pub visible_only: bool,
    /// A mandatory step blocks until located; an optional one is skipped
    /// after `OPTIONAL_LOCATE_ATTEMPTS` fruitless searches.
    pub required: bool,
    /// Activation strategies, in the order the interaction engine tries them.
    pub strategies: Vec<Strategy>,
    /// Whether completion is gated on the step's success check.
    pub has_success_check: bool,
    /// Interaction rounds before the engine reports exhaustion.
    pub max_attempts: u32,
    /// Milliseconds between interaction attempts.
    pub retry_delay_ms: u64,
}

/// A runnable step: at least one strategy and at least one round.
pub open spec fn step_wf(s: AutomationStep) -> bool {
    s.strategies@.len() >= 1 && s.max_attempts >= 1
}

/// What the pipeline asks for after a locate attempt was reported.
#[derive(Clone, Copy, PartialEq, Eq, Structural, Debug)]
pub enum LocateDecision {
    /// The element was found: run the interaction engine on it.
    Interact,
    /// Not found: wait this many seconds, then search again.
    RetryAfterDelay { seconds: u64 },
    /// An optional step stayed unlocated through its attempt cap: the
    /// pipeline moved on to the next step.
    StepSkipped,
}

/// Where the pipeline stands.
#[derive(Clone, Copy, PartialEq, Eq, Structural, Debug)]
pub enum PipelineStatus {
    /// Steps remain; keep locating and interacting.
    Running,
    /// Every step was completed or skipped: the join flow succeeded.
    Complete,
    /// A mandatory step exhausted its interaction budget: revert to kiosk.
    Failed,
}

/// Progress through one run of the join flow.
pub struct SessionPipeline {
    pub steps: Vec<AutomationStep>,
    /// Index of the current step.
    pub current: usize,
    /// Fruitless locate attempts for the current step so far.
    pub locate_tries: u32,
    /// A mandatory step failed.
    pub failed: bool,
}

/// The pipeline's status as a function of its state.
pub open spec fn spec_status(p: SessionPipeline) -> PipelineStatus {
    if p.failed {
        PipelineStatus::Failed
    } else if p.current >= p.steps@.len() {
        PipelineStatus::Complete
    } else {
        PipelineStatus::Running
    }
}

/// The pipeline's reaction to one locate report.  A found element resets
/// the counter and goes to the interaction engine.  A missing element means
/// another delayed search — unboundedly often for a mandatory step, up to
/// the cap for an optional one, which is then skipped.
pub open spec fn spec_on_locate(p: SessionPipeline, found: bool) -> (
    SessionPipeline,
    LocateDecision,
) {
    let step = p.steps@[p.current as int];
    if found {
        (
            SessionPipeline { locate_tries: 0, ..p },
            LocateDecision::Interact,
        )
    } else if step.required {
        (p, LocateDecision::RetryAfterDelay { seconds: LOCATE_RETRY_SECONDS })
    } else if p.locate_tries + 1 < OPTIONAL_LOCATE_ATTEMPTS {
        (
            SessionPipeline { locate_tries: (p.locate_tries + 1) as u32, ..p },
            LocateDecision::RetryAfterDelay { seconds: LOCATE_RETRY_SECONDS },
        )
    } else {
        (
            SessionPipeline { current: (p.current + 1) as usize, locate_tries: 0, ..p },
            LocateDecision::StepSkipped,
        )
    }
}

/// The pipeline's reaction to the interaction engine's report: success
/// advances; exhaustion fails the pipeline on a mandatory step and is
/// merely skipped on an optional one.
pub open spec fn spec_on_interaction(
    p: SessionPipeline,
    res: Result<(), InteractionError>,
) -> SessionPipeline {
    let step = p.steps@[p.current as int];
    if res is Ok || !step.required {
        SessionPipeline { current: (p.current + 1) as usize, locate_tries: 0, ..p }
    } else {
        SessionPipeline { failed: true, ..p }
    }
}

impl SessionPipeline {
    /// Start the pipeline at its first step.
    pub fn new(steps: Vec<AutomationStep>) -> (p: Self)
        ensures
            p.steps == steps,
            p.current == 0,
            p.locate_tries == 0,
            !p.failed,
    {
        SessionPipeline { steps, current: 0, locate_tries: 0, failed: false }
    }

    /// Where the pipeline stands.
    pub fn status(&self) -> (s: PipelineStatus)
        ensures
            s == spec_status(*self),
    {
        if self.failed {
            PipelineStatus::Failed
        } else if self.current >= self.steps.len() {
            PipelineStatus::Complete
        } else {
            PipelineStatus::Running
        }
    }

    /// The step to locate and activate next.
    pub fn current_step(&self) -> (s: &AutomationStep)
        requires
            spec_status(*self) is Running,
        ensures
            *s == self.steps@[self.current as int],
    {
        &self.steps[self.current]
    }

    /// Report whether the current step's element was located.
    pub fn on_locate(&mut self, found: bool) -> (d: LocateDecision)
        requires
            spec_status(*old(self)) is Running,
        ensures
            (*final(self), d) == spec_on_locate(*old(self), found),
    {
        let _n = self.steps.len();
        if found {
            self.locate_tries = 0;
            return LocateDecision::Interact;
        }
        if self.steps[self.current].required {
            return LocateDecision::RetryAfterDelay { seconds: LOCATE_RETRY_SECONDS };
        }
        if self.locate_tries < OPTIONAL_LOCATE_ATTEMPTS - 1 {
            self.locate_tries = self.locate_tries + 1;
            return LocateDecision::RetryAfterDelay { seconds: LOCATE_RETRY_SECONDS };
        }
        self.current = self.current + 1;
        self.locate_tries = 0;
        LocateDecision::StepSkipped
    }

    /// Report the interaction engine's result for the current step.
    pub fn on_interaction(&mut self, res: Result<(), InteractionError>)
        requires
            spec_status(*old(self)) is Running,
        ensures
            *final(self) == spec_on_interaction(*old(self), res),
    {
        let _n = self.steps.len();
        let advance = match res {
            Ok(_) => true,
            Err(_) => !self.steps[self.current].required,
        };
        if advance {
            self.current = self.current + 1;
            self.locate_tries = 0;
        } else {
            self.failed = true;
        }
    }
}

/// Milliseconds between two interaction attempts on one element.
pub const ATTEMPT_RETRY_MS: u64 = 1000;

/// Seconds the document is given to settle before a success check runs.
pub const SUCCESS_SETTLE_SECONDS: u64 = 3;

/// The query matches elements of this tag whose text contains the needle.
pub open spec fn q_text_tag(q: Query, tag: Seq<char>, needle: Seq<char>) -> bool {
    q matches Query::TextContains { tag: Some(t), needle: n } && t@ == tag && n@ == needle
}

/// The query matches elements of any tag whose text contains the needle.
pub open spec fn q_text_any(q: Query, needle: Seq<char>) -> bool {
    q matches Query::TextContains { tag: None, needle: n } && n@ == needle
}

/// The query matches elements of this tag carrying the attribute value.
pub open spec fn q_attr_tag(q: Query, tag: Seq<char>, name: Seq<char>, value: Seq<char>) -> bool {
    q matches Query::AttrEquals { tag: Some(t), name: n, value: v } && t@ == tag && n@ == name
        && v@ == value
}

/// A query restricted to elements of this tag, matching on contained text.
fn tagged_text_query(tag: &str, needle: &str) -> (q: Query)
    ensures
        q_text_tag(q, tag@, needle@),
{
    Query::TextContains { tag: Some(String::from_str(tag)), needle: String::from_str(needle) }
}

/// A query over all tags, matching on contained text.
fn any_text_query(needle: &str) -> (q: Query)
    ensures
        q_text_any(q, needle@),
{
    Query::TextContains { tag: None, needle: String::from_str(needle) }
}

/// The fixed join flow: sign-in link, provider selection, account
/// selection, the optional permission grant, and the join control.
pub fn join_flow() -> (steps: Vec<AutomationStep>)
    ensures
        steps@.len() == 5,
        forall|i: int| 0 <= i < 5 ==> step_wf(#[trigger] steps@[i]),
        // The sign-in link: an anchor mentioning "sign in", anywhere in the
        // document or its frames.
        steps@[0].required,
        steps@[0].frame_search is AllFrames,
        !steps@[0].visible_only,
        !steps@[0].has_success_check,
        steps@[0].max_attempts == 1,
        steps@[0].strategies@.len() == 1 && steps@[0].strategies@[0] is NativeClick,
        steps@[0].predicate matches ElementPredicate::FirstOf(qs) && qs@.len() == 1 && q_text_tag(
            qs@[0],
            "a"@,
            "sign in"@,
        ),
        // The provider selection: the anchor labelled for the sign-in
        // provider, in the main document.
        steps@[1].required,
        steps@[1].frame_search is CurrentOnly,
        !steps@[1].visible_only,
        !steps@[1].has_success_check,
        steps@[1].max_attempts == 1,
        steps@[1].strategies@.len() == 1 && steps@[1].strategies@[0] is NativeClick,
        steps@[1].predicate matches ElementPredicate::FirstOf(qs) && qs@.len() == 1 && q_attr_tag(
            qs@[0],
            "a"@,
            "aria-label"@,
            "Sign in with Google"@,
        ),
        // The account selection.
        steps@[2].required,
        steps@[2].frame_search is CurrentOnly,
        !steps@[2].visible_only,
        !steps@[2].has_success_check,
        steps@[2].max_attempts == 1,
        steps@[2].strategies@.len() == 1 && steps@[2].strategies@[0] is NativeClick,
        steps@[2].predicate matches ElementPredicate::FirstOf(qs) && qs@.len() == 1 && q_text_tag(
            qs@[0],
            "div"@,
            "Recurse RCTV"@,
        ),
        // The optional permission grant: looked for a few times, then
        // skipped without blocking the flow.
        !steps@[3].required,
        steps@[3].frame_search is CurrentOnly,
        !steps@[3].visible_only,
        !steps@[3].has_success_check,
        steps@[3].max_attempts == 3,
        steps@[3].strategies@.len() == 1 && steps@[3].strategies@[0] is NativeClick,
        steps@[3].predicate matches ElementPredicate::FirstOf(qs) && qs@.len() == 2 && q_text_tag(
            qs@[0],
            "button"@,
            "Use microphone and camera"@,
        ) && q_text_any(qs@[1], "Use microphone and camera"@),
        // The join control: known to render ambiguously and in varying
        // contexts, so every strategy, all frames, only visible matches,
        // and completion gated on the in-meeting success check.
        steps@[4].required,
        steps@[4].frame_search is AllFrames,
        steps@[4].visible_only,
        steps@[4].has_success_check,
        steps@[4].max_attempts == 10,
        steps@[4].strategies@.len() == 3 && steps@[4].strategies@[0] is NativeClick
            && steps@[4].strategies@[1] is KeySubmit && steps@[4].strategies@[2]
            is ForcedActivation,
        steps@[4].predicate matches ElementPredicate::FirstOf(qs) && qs@.len() == 3 && q_text_tag(
            qs@[0],
            "button"@,
            "Join"@,
        ) && q_attr_tag(qs@[1], "input"@, "value"@, "Join"@) && q_text_any(qs@[2], "Join"@),
{
    let mut steps: Vec<AutomationStep> = Vec::new();

    let mut sign_in_queries: Vec<Query> = Vec::new();
    sign_in_queries.push(tagged_text_query("a", "sign in"));
    let mut click_only: Vec<Strategy> = Vec::new();
    click_only.push(Strategy::NativeClick);
    steps.push(
        AutomationStep {
            predicate: ElementPredicate::FirstOf(sign_in_queries),
            frame_search: FrameSearch::AllFrames,
            visible_only: false,
            required: true,
            strategies: click_only,
            has_success_check: false,
            max_attempts: 1,
            retry_delay_ms: ATTEMPT_RETRY_MS,
        },
    );

    let mut provider_queries: Vec<Query> = Vec::new();
    provider_queries.push(
        Query::AttrEquals {
            tag: Some(String::from_str("a")),
            name: String::from_str("aria-label"),
            value: String::from_str("Sign in with Google"),
        },
    );
    let mut click_only: Vec<Strategy> = Vec::new();
    click_only.push(Strategy::NativeClick);
    steps.push(
        AutomationStep {
            predicate: ElementPredicate::FirstOf(provider_queries),
            frame_search: FrameSearch::CurrentOnly,
            visible_only: false,
            required: true,
            strategies: click_only,
            has_success_check: false,
            max_attempts: 1,
            retry_delay_ms: ATTEMPT_RETRY_MS,
        },
    );

    let mut account_queries: Vec<Query> = Vec::new();
    account_queries.push(tagged_text_query("div", "Recurse RCTV"));
    let mut click_only: Vec<Strategy> = Vec::new();
    click_only.push(Strategy::NativeClick);
    steps.push(
        AutomationStep {
            predicate: ElementPredicate::FirstOf(account_queries),
            frame_search: FrameSearch::CurrentOnly,
            visible_only: false,
            required: true,
            strategies: click_only,
            has_success_check: false,
            max_attempts: 1,
            retry_delay_ms: ATTEMPT_RETRY_MS,
        },
    );

    let mut grant_queries: Vec<Query> = Vec::new();
    grant_queries.push(tagged_text_query("button", "Use microphone and camera"));
    grant_queries.push(any_text_query("Use microphone and camera"));
    let mut click_only: Vec<Strategy> = Vec::new();
    click_only.push(Strategy::NativeClick);
    steps.push(
        AutomationStep {
            predicate: ElementPredicate::FirstOf(grant_queries),
            frame_search: FrameSearch::CurrentOnly,
            visible_only: false,
            required: false,
            strategies: click_only,
            has_success_check: false,
            max_attempts: 3,
            retry_delay_ms: ATTEMPT_RETRY_MS,
        },
    );

    let mut join_queries: Vec<Query> = Vec::new();
    join_queries.push(tagged_text_query("button", "Join"));
    join_queries.push(
        Query::AttrEquals {
            tag: Some(String::from_str("input")),
            name: String::from_str("value"),
            value: String::from_str("Join"),
        },
    );
    join_queries.push(any_text_query("Join"));
    let mut all_strategies: Vec<Strategy> = Vec::new();
    all_strategies.push(Strategy::NativeClick);
    all_strategies.push(Strategy::KeySubmit);
    all_strategies.push(Strategy::ForcedActivation);
    steps.push(
        AutomationStep {
            predicate: ElementPredicate::FirstOf(join_queries),
            frame_search: FrameSearch::AllFrames,
            visible_only: true,
            required: true,
            strategies: all_strategies,
            has_success_check: true,
            max_attempts: 10,
            retry_delay_ms: ATTEMPT_RETRY_MS,
        },
    );

    steps
}

/// Law: a mandatory step never blocks the pipeline's progress by being
/// skipped, and never stops being searched for: as long as it is not
/// located, the pipeline stays on the same step and asks for another
/// delayed search, however many attempts have gone before.
pub proof fn lemma_mandatory_step_blocks(p: SessionPipeline)
    requires
        spec_status(p) is Running,
        p.steps@[p.current as int].required,
    ensures
        spec_on_locate(p, false) == (
            p,
            LocateDecision::RetryAfterDelay { seconds: LOCATE_RETRY_SECONDS },
        ),
{
}

} // verus!
