use vstd::prelude::*;

use crate::config::{ActionView, Macro, MacroView};
use crate::input::{tap_spec, wait_steps, InputStep, InputSystem};
use crate::scancode::{lookup_spec, KeyEntry};

verus! {

/// Every this many actions the executor reports progress.
pub const PROGRESS_INTERVAL: usize = 10;

/// The steps of the action at `index`: for a key the table maps, a tap held
/// `hold_ms`, then the pause of `delay_ms`, then a progress report after
/// every tenth action; for a key it lacks, only the report that the action
/// was skipped.
pub open spec fn action_steps(t: Seq<KeyEntry>, a: ActionView, index: int) -> Seq<InputStep> {
    if lookup_spec(t, a.key) is Some {
        tap_spec(t, a.key, a.hold_ms) + wait_steps(a.delay_ms) + if (index + 1)
            % PROGRESS_INTERVAL as int == 0 {
            seq![InputStep::Progress((index + 1) as usize)]
        } else {
            Seq::empty()
        }
    } else {
        seq![InputStep::Unmapped(index as usize)]
    }
}

/// The steps of the first `n` actions, in order.
pub open spec fn plan_prefix(t: Seq<KeyEntry>, actions: Seq<ActionView>, n: nat) -> Seq<InputStep>
    decreases n,
{
    if n == 0 {
        Seq::empty()
    } else {
        plan_prefix(t, actions, (n - 1) as nat) + action_steps(t, actions[n - 1], n - 1)
    }
}

/// The steps of a whole macro: those of each of its actions, in order.
pub open spec fn macro_plan(t: Seq<KeyEntry>, m: MacroView) -> Seq<InputStep> {
    plan_prefix(t, m.actions, m.actions.len())
}

/// The replay of `macro_item`: each action in order, an action whose key the
/// table lacks skipped without ending the replay.
pub fn execute_macro(input: &InputSystem, macro_item: &Macro) -> (r: Vec<InputStep>)
    ensures
        r@ == macro_plan(input.table@, macro_item@),
{
    let mut steps: Vec<InputStep> = Vec::new();
    let n = macro_item.actions.len();
    let mut i: usize = 0;
    while i < n
        invariant
            i <= n,
            n == macro_item.actions.len(),
            steps@ == plan_prefix(input.table@, macro_item@.actions, i as nat),
        decreases n - i,
    {
        let action = &macro_item.actions[i];
        let ghost before = steps@;
        assert(macro_item@.actions[i as int] == action@);
        if input.push_tap(&mut steps, action.key.as_str(), action.hold_ms) {
            if action.delay_ms > 0 {
                steps.push(InputStep::Wait(action.delay_ms));
            }
            if (i + 1) % PROGRESS_INTERVAL == 0 {
                steps.push(InputStep::Progress(i + 1));
            }
        } else {
            steps.push(InputStep::Unmapped(i));
        }
        assert(steps@ =~= before + action_steps(input.table@, action@, i as int));
        i += 1;
    }
    steps
}

} // verus!
