//! The interaction retry engine: given a located element, activation is
//! attempted with each configured strategy in order, for up to a fixed
//! number of rounds in total; after an attempt that does not itself fail,
//! an optional success check decides whether the action's real-world effect
//! took hold.  The engine decides; the surroundings perform the attempts and
//! report each outcome back.

use vstd::arithmetic::div_mod::lemma_fundamental_div_mod_converse;
use vstd::prelude::*;

verus! {

/// One way of activating an element.
#[derive(Clone, Copy, PartialEq, Eq, Structural, Debug)]
pub enum Strategy {
    /// Native activation: an ordinary click dispatched through the bridge.
    NativeClick,
    /// Synthetic key submission: sending an activation keystroke.
    KeySubmit,
    /// Engine-level forced activation, bypassing native event dispatch.
    ForcedActivation,
}

/// The configuration of one interaction: the ordered strategies, whether a
/// success check gates completion, the total round budget, and the delay the
/// surroundings should wait between attempts.
pub struct InteractionPlan {
    pub strategies: Vec<Strategy>,
    pub has_success_check: bool,
    pub max_attempts: u32,
    pub retry_delay_ms: u64,
}

/// A usable plan: at least one strategy and at least one round.
pub open spec fn plan_wf(plan: InteractionPlan) -> bool {
    plan.strategies@.len() >= 1 && plan.max_attempts >= 1
}

/// What the surroundings observed for one attempt.
#[derive(Clone, Copy, PartialEq, Eq, Structural, Debug)]
pub struct AttemptOutcome {
    /// The strategy call itself completed without failing locally.
    pub dispatched: bool,
    /// The success check held when it was evaluated after the attempt.
    pub check_passed: bool,
}

/// An attempt succeeds when its dispatch did not fail and, if the plan has a
/// success check, that check passed; without a check, local success of the
/// strategy call is sufficient.
pub open spec fn attempt_succeeds(plan: InteractionPlan, o: AttemptOutcome) -> bool {
    o.dispatched && (plan.has_success_check ==> o.check_passed)
}

/// Interaction failure: every strategy of every round was tried in vain.
#[derive(Clone, Copy, PartialEq, Eq, Structural, Debug)]
pub enum InteractionError {
    Exhausted,
}

/// Progress through the attempt budget: the current round and the position
/// within the strategy list.
#[derive(Clone, Copy, PartialEq, Eq, Structural, Debug)]
pub struct InteractionState {
    pub round: u32,
    pub slot: usize,
}

/// A state still inside the budget.
pub open spec fn state_wf(plan: InteractionPlan, st: InteractionState) -> bool {
    st.slot < plan.strategies@.len() && st.round < plan.max_attempts
}

/// How many attempts precede this state: full rounds times the strategy
/// count, plus the position inside the current round.
pub open spec fn ordinal(plan: InteractionPlan, st: InteractionState) -> int {
    st.round * plan.strategies@.len() + st.slot
}

/// The total attempt budget: every strategy once per round.
pub open spec fn budget(plan: InteractionPlan) -> int {
    plan.max_attempts * plan.strategies@.len()
}

/// The engine's starting state.
pub open spec fn spec_engine_start() -> InteractionState {
    InteractionState { round: 0, slot: 0 }
}

/// Begin a fresh interaction.
pub fn engine_start() -> (st: InteractionState)
    ensures
        st == spec_engine_start(),
{
    InteractionState { round: 0, slot: 0 }
}

/// The strategy the next attempt must use: the strategy list is swept in
/// configured order within each round.
pub fn current_strategy(plan: &InteractionPlan, st: &InteractionState) -> (s: Strategy)
    requires
        state_wf(*plan, *st),
    ensures
        s == plan.strategies@[st.slot as int],
{
    plan.strategies[st.slot]
}

/// The engine's transition for one reported outcome: success finishes;
/// otherwise the next strategy of the round, then the next round, and
/// exhaustion once every strategy of every round has been tried.
pub open spec fn spec_engine_step(plan: InteractionPlan, st: InteractionState, o: AttemptOutcome) -> (
    InteractionState,
    Option<Result<(), InteractionError>>,
) {
    if attempt_succeeds(plan, o) {
        (st, Some(Ok(())))
    } else if st.slot + 1 < plan.strategies@.len() {
        (InteractionState { round: st.round, slot: (st.slot + 1) as usize }, None)
    } else if st.round + 1 < plan.max_attempts {
        (InteractionState { round: (st.round + 1) as u32, slot: 0 }, None)
    } else {
        (st, Some(Err(InteractionError::Exhausted)))
    }
}

/// Feed one attempt outcome to the engine.
pub fn engine_step(plan: &InteractionPlan, st: InteractionState, o: &AttemptOutcome) -> (r: (
    InteractionState,
    Option<Result<(), InteractionError>>,
))
    requires
        state_wf(*plan, st),
    ensures
        r == spec_engine_step(*plan, st, *o),
        r.1 is None ==> state_wf(*plan, r.0),
{
    let len = plan.strategies.len();
    let succeeded = o.dispatched && (!plan.has_success_check || o.check_passed);
    if succeeded {
        (st, Some(Ok(())))
    } else if st.slot + 1 < len {
        (InteractionState { round: st.round, slot: st.slot + 1 }, None)
    } else if st.round < plan.max_attempts - 1 {
        (InteractionState { round: st.round + 1, slot: 0 }, None)
    } else {
        (st, Some(Err(InteractionError::Exhausted)))
    }
}

/// No attempt before the `k`-th succeeds.
pub open spec fn no_success_before(
    plan: InteractionPlan,
    outcomes: Seq<AttemptOutcome>,
    k: int,
) -> bool {
    forall|j: int| 0 <= j < k ==> !attempt_succeeds(plan, #[trigger] outcomes[j])
}

/// Law: the attempt schedule sweeps every strategy before advancing a round:
/// the state reached after `k` unsuccessful attempts sits at strategy
/// `k % strategies.len()` of round `k / strategies.len()`.
pub proof fn lemma_strategy_schedule(plan: InteractionPlan, st: InteractionState, k: int)
    requires
        plan_wf(plan),
        state_wf(plan, st),
        ordinal(plan, st) == k,
    ensures
        st.slot == k % (plan.strategies@.len() as int),
        st.round == k / (plan.strategies@.len() as int),
{
    lemma_fundamental_div_mod_converse(
        k,
        plan.strategies@.len() as int,
        st.round as int,
        st.slot as int,
    );
}

/// Run the retry engine over a recorded sequence of attempt outcomes, one
/// per attempt in schedule order.  Returns the result and how many attempts
/// were consumed: the first successful attempt finishes the interaction, and
/// a full budget of unsuccessful attempts — every strategy in every round —
/// is exhaustion, after exactly `max_attempts * strategies.len()` attempts.
pub fn interact(plan: &InteractionPlan, outcomes: &Vec<AttemptOutcome>) -> (r: (
    Result<(), InteractionError>,
    usize,
))
    requires
        plan_wf(*plan),
        outcomes@.len() >= budget(*plan),
    ensures
        ({
            let (res, used) = r;
            match res {
                Ok(_) => {
                    &&& 1 <= used <= budget(*plan)
                    &&& attempt_succeeds(*plan, outcomes@[used - 1])
                    &&& no_success_before(*plan, outcomes@, used - 1)
                },
                Err(e) => {
                    &&& e == InteractionError::Exhausted
                    &&& used == budget(*plan)
                    &&& no_success_before(*plan, outcomes@, budget(*plan))
                },
            }
        }),
{
    let len = plan.strategies.len();
    let total = outcomes.len();
    proof {
        assert(budget(*plan) >= 1) by (nonlinear_arith)
            requires
                plan.max_attempts >= 1,
                plan.strategies@.len() >= 1,
                budget(*plan) == plan.max_attempts * plan.strategies@.len(),
        ;
    }
    let mut st = engine_start();
    let mut k: usize = 0;
    loop
        invariant
            plan_wf(*plan),
            outcomes@.len() >= budget(*plan),
            total == outcomes@.len(),
            len == plan.strategies@.len(),
            state_wf(*plan, st),
            k == ordinal(*plan, st),
            k < budget(*plan),
            no_success_before(*plan, outcomes@, k as int),
        decreases budget(*plan) - k,
    {
        proof {
            assert(k < outcomes@.len());
        }
        let o = &outcomes[k];
        let (next, done) = engine_step(plan, st, o);
        match done {
            Some(Ok(_)) => {
                return (Ok(()), k + 1);
            },
            Some(Err(e)) => {
                proof {
                    assert(st.slot + 1 == len && st.round + 1 == plan.max_attempts);
                    assert(k + 1 == budget(*plan)) by (nonlinear_arith)
                        requires
                            k == st.round * (len as int) + st.slot,
                            st.slot + 1 == len,
                            st.round + 1 == plan.max_attempts,
                            budget(*plan) == plan.max_attempts * (len as int),
                    ;
                }
                return (Err(e), k + 1);
            },
            None => {
                proof {
                    assert(ordinal(*plan, next) == k + 1) by (nonlinear_arith)
                        requires
                            k == st.round * (len as int) + st.slot,
                            st.slot < len,
                            next == spec_engine_step(*plan, st, *o).0,
                            spec_engine_step(*plan, st, *o).1 is None,
                            ordinal(*plan, next) == next.round * (len as int) + next.slot,
                            (st.slot + 1 < len ==> next.round == st.round && next.slot == st.slot
                                + 1),
                            (st.slot + 1 >= len ==> next.round == st.round + 1 && next.slot == 0),
                    ;
                    assert(k + 1 < budget(*plan)) by (nonlinear_arith)
                        requires
                            k + 1 == ordinal(*plan, next),
                            ordinal(*plan, next) == next.round * (len as int) + next.slot,
                            next.slot < len,
                            next.round < plan.max_attempts,
                            budget(*plan) == plan.max_attempts * (len as int),
                    ;
                }
                st = next;
                k = k + 1;
            },
        }
    }
}

} // verus!
