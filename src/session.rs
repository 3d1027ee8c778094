use vstd::prelude::*;
use crate::budget::{BudgetGasMeter, CostSchedule, event_cost, lemma_event_cost_nonnegative};
use crate::gas::{GasEvent, GasMeter, UnmeteredGasMeter};

verus! {

/// Runs a script of steps through a meter as the interpreter does: each step is charged in order,
/// and the session ends at the first step that the meter refuses. Gives the meter's last state
/// and the number of steps that were charged.
pub open spec fn run_session<M: GasMeter>(m: M, steps: Seq<GasEvent>) -> (M, nat)
    decreases steps.len(),
{
    if steps.len() == 0 {
        (m, 0)
    } else if m.admits(steps[0]) {
        let (end, n) = run_session(m.next(steps[0]), steps.drop_first());
        (end, n + 1)
    } else {
        (m, 0)
    }
}

/// What a budgeted meter with schedule `s` charges for a script of steps, in total.
pub open spec fn script_cost(s: CostSchedule, steps: Seq<GasEvent>) -> int
    decreases steps.len(),
{
    if steps.len() == 0 {
        0
    } else {
        event_cost(s, steps[0]) + script_cost(s, steps.drop_first())
    }
}

/// The meter that meters nothing charges every step of every script, and ends where it began.
pub proof fn lemma_unmetered_session(m: UnmeteredGasMeter, steps: Seq<GasEvent>)
    ensures
        run_session(m, steps) == (m, steps.len()),
    decreases steps.len(),
{
    if steps.len() > 0 {
        lemma_unmetered_session(m, steps.drop_first());
    }
}

/// A script run against a budgeted meter stops at the first step whose cumulative cost would
/// exceed the budget: every prefix it charged fits the budget, the next one does not, and the
/// balance dropped by exactly the sum of the charged steps' costs.
pub proof fn lemma_session_debits_sum(m: BudgetGasMeter, steps: Seq<GasEvent>)
    ensures
        run_session(m, steps).1 <= steps.len(),
        run_session(m, steps).0.schedule == m.schedule,
        run_session(m, steps).0.balance == m.balance - script_cost(
            m.schedule,
            steps.take(run_session(m, steps).1 as int),
        ),
        forall|j: int|
            0 <= j <= run_session(m, steps).1 ==> script_cost(m.schedule, #[trigger] steps.take(j))
                <= m.balance,
        run_session(m, steps).1 < steps.len() ==> script_cost(
            m.schedule,
            steps.take(run_session(m, steps).1 as int + 1),
        ) > m.balance,
    decreases steps.len(),
{
    let s = m.schedule;
    if steps.len() == 0 {
        assert(steps.take(0) =~= Seq::<GasEvent>::empty());
    } else {
        let rest = steps.drop_first();
        let n = run_session(m, steps).1;
        assert forall|j: int| 1 <= j <= steps.len() implies (#[trigger] steps.take(j)).drop_first()
            =~= rest.take(j - 1) && steps.take(j)[0] == steps[0] by {}
        assert(steps.take(0) =~= Seq::<GasEvent>::empty());
        assert(steps.take(1).drop_first() =~= Seq::<GasEvent>::empty());
        if m.admits(steps[0]) {
            let m2 = m.next(steps[0]);
            lemma_event_cost_nonnegative(s, steps[0]);
            lemma_session_debits_sum(m2, rest);
            let n2 = run_session(m2, rest).1;
            assert(n == n2 + 1);
            assert(steps.take(n as int).drop_first() =~= rest.take(n2 as int));
            assert(script_cost(s, steps.take(n as int)) == event_cost(s, steps[0]) + script_cost(
                s,
                rest.take(n2 as int),
            ));
            if n < steps.len() {
                assert(steps.take(n as int + 1).drop_first() =~= rest.take(n2 as int + 1));
                assert(script_cost(s, steps.take(n as int + 1)) == event_cost(s, steps[0])
                    + script_cost(s, rest.take(n2 as int + 1)));
            }
            assert forall|j: int| 0 <= j <= n implies script_cost(s, #[trigger] steps.take(j))
                <= m.balance by {
                if j > 0 {
                    assert(script_cost(s, rest.take(j - 1)) <= m2.balance);
                }
            }
        } else {
            assert(script_cost(s, steps.take(0)) == 0);
            assert(script_cost(s, steps.take(1)) == event_cost(s, steps[0]) + script_cost(
                s,
                steps.take(1).drop_first(),
            ));
        }
    }
}

} // verus!
