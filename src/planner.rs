//! Goals and the steps that reach them.
use vstd::prelude::*;
use crate::dialog::now_millis;

verus! {

/// Where a goal stands.
#[derive(PartialEq, Eq, Structural)]
pub enum GoalStatus {
    Active,
    InProgress,
    Completed,
    Abandoned,
}

/// One step of a plan.
pub struct PlanStep {
    pub action: String,
    pub done: bool,
}

/// A goal, when it was set (milliseconds since the Unix epoch), its status and
/// its steps.
pub struct Goal {
    pub description: String,
    pub created_at: i64,
    pub status: GoalStatus,
    pub steps: Vec<PlanStep>,
}

/// The goals, in the order they were set.
pub struct Planner {
    pub goals: Vec<Goal>,
}

/// The goal is being worked on.
pub open spec fn is_open(g: Goal) -> bool {
    g.status is Active || g.status is InProgress
}

/// The open goals of `gs`, in order.
pub open spec fn open_goals(gs: Seq<Goal>) -> Seq<Goal>
    decreases gs.len(),
{
    if gs.len() == 0 {
        gs
    } else if is_open(gs.last()) {
        open_goals(gs.drop_last()).push(gs.last())
    } else {
        open_goals(gs.drop_last())
    }
}

impl Planner {
    pub fn new() -> (r: Self)
        ensures
            r.goals@.len() == 0,
    {
        Planner { goals: Vec::new() }
    }

    /// Adds an active goal whose steps, none of them done, are the given actions.
    pub fn add_goal(&mut self, description: &str, steps: Vec<&str>)
        ensures
            final(self).goals@.len() == old(self).goals@.len() + 1,
            final(self).goals@.subrange(0, old(self).goals@.len() as int) == old(self).goals@,
            final(self).goals@.last().description@ == description@,
            final(self).goals@.last().status is Active,
            final(self).goals@.last().steps@.len() == steps@.len(),
            forall|i: int|
                0 <= i < steps@.len() ==> (#[trigger] final(self).goals@.last().steps@[i]).action@
                    == steps@[i]@ && !final(self).goals@.last().steps@[i].done,
    {
        let mut plan: Vec<PlanStep> = Vec::new();
        let mut i: usize = 0;
        while i < steps.len()
            invariant
                i <= steps@.len(),
                plan@.len() == i,
                forall|j: int|
                    0 <= j < i ==> (#[trigger] plan@[j]).action@ == steps@[j]@ && !plan@[j].done,
            decreases steps@.len() - i,
        {
            plan.push(PlanStep { action: steps[i].to_string(), done: false });
            i += 1;
        }
        let goal = Goal {
            description: description.to_string(),
            created_at: now_millis(),
            status: GoalStatus::Active,
            steps: plan,
        };
        let ghost before = self.goals@;
        self.goals.push(goal);
        assert(self.goals@.subrange(0, before.len() as int) =~= before);
    }

    /// Marks a step of a goal as done; the goal becomes completed when all its
    /// steps are done, else in progress. Indices out of range leave the goal or
    /// the step as they are.
    pub fn mark_step_done(&mut self, goal_idx: usize, step_idx: usize)
        ensures
            final(self).goals@.len() == old(self).goals@.len(),
            forall|g: int|
                0 <= g < old(self).goals@.len() && g != goal_idx ==> #[trigger] final(self).goals@[g]
                    == old(self).goals@[g],
            goal_idx < old(self).goals@.len() ==> {
                let before = old(self).goals@[goal_idx as int];
                let after = final(self).goals@[goal_idx as int];
                &&& after.description == before.description
                &&& after.created_at == before.created_at
                &&& after.steps@.len() == before.steps@.len()
                &&& forall|s: int|
                    0 <= s < before.steps@.len() ==> (#[trigger] after.steps@[s]).action
                        == before.steps@[s].action && after.steps@[s].done == (before.steps@[s].done
                        || s == step_idx)
                &&& (forall|s: int| 0 <= s < after.steps@.len() ==> (#[trigger] after.steps@[s]).done)
                    ==> after.status is Completed
                &&& !(forall|s: int| 0 <= s < after.steps@.len() ==> (#[trigger] after.steps@[s]).done)
                    ==> after.status is InProgress
            },
    {
        if goal_idx >= self.goals.len() {
            return;
        }
        let ghost before = self.goals@;
        let mut goal = self.goals.remove(goal_idx);
        let ghost g0 = goal;
        if step_idx < goal.steps.len() {
            let mut st = goal.steps.remove(step_idx);
            st.done = true;
            goal.steps.insert(step_idx, st);
        }
        let mut all = true;
        let mut k: usize = 0;
        while k < goal.steps.len()
            invariant
                k <= goal.steps@.len(),
                all == forall|s: int| 0 <= s < k ==> (#[trigger] goal.steps@[s]).done,
            decreases goal.steps@.len() - k,
        {
            if !goal.steps[k].done {
                all = false;
            }
            k += 1;
        }
        goal.status = if all {
            GoalStatus::Completed
        } else {
            GoalStatus::InProgress
        };
        self.goals.insert(goal_idx, goal);
        assert forall|g: int| 0 <= g < before.len() && g != goal_idx implies #[trigger] self.goals@[g]
            == before[g] by {
        }
    }

    /// The goals that are active or in progress, in order.
    pub fn active_goals(&self) -> (r: Vec<&Goal>)
        ensures
            r@.map_values(|g: &Goal| *g) == open_goals(self.goals@),
    {
        let mut out: Vec<&Goal> = Vec::new();
        let mut i: usize = 0;
        assert(self.goals@.subrange(0, 0) =~= Seq::<Goal>::empty());
        assert(out@.map_values(|g: &Goal| *g) =~= Seq::<Goal>::empty());
        while i < self.goals.len()
            invariant
                i <= self.goals@.len(),
                out@.map_values(|g: &Goal| *g) == open_goals(self.goals@.subrange(0, i as int)),
            decreases self.goals@.len() - i,
        {
            let ghost sub = self.goals@.subrange(0, i + 1);
            assert(sub.drop_last() =~= self.goals@.subrange(0, i as int));
            let g = &self.goals[i];
            let open = match g.status {
                GoalStatus::Active | GoalStatus::InProgress => true,
                _ => false,
            };
            if open {
                let ghost prev = out@;
                out.push(g);
                assert(out@.map_values(|x: &Goal| *x) =~= prev.map_values(|x: &Goal| *x).push(*g));
            }
            i += 1;
        }
        assert(self.goals@.subrange(0, self.goals@.len() as int) =~= self.goals@);
        out
    }
}

} // verus!
