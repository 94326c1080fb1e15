//! Laws of the actor framework, stated over the abstract actor view.
use vstd::prelude::*;
use crate::actor::{ActorView, command_entry, handler_wf, input_entry};
use crate::search::{key_is, lemma_first_match};

verus! {

/// One operation on an actor: an input update or a command.
pub enum Operation {
    Input { slot: Seq<char>, value: i64 },
    Command { command: Seq<char> },
}

/// The actor after one operation.
pub open spec fn apply(a: ActorView, op: Operation) -> ActorView {
    match op {
        Operation::Input { slot, value } => a.input_change(slot, value),
        Operation::Command { command } => a.execute(command),
    }
}

/// The actor after a sequence of operations, in order.
pub open spec fn run(a: ActorView, ops: Seq<Operation>) -> ActorView
    decreases ops.len(),
{
    if ops.len() == 0 {
        a
    } else {
        run(apply(a, ops[0]), ops.drop_first())
    }
}

/// An input update keeps the actor well formed, its model and its parameters.
pub proof fn lemma_input_change_wf(a: ActorView, slot: Seq<char>, value: i64)
    requires
        a.wf(),
    ensures
        a.input_change(slot, value).wf(),
        a.input_change(slot, value).model == a.model,
        a.input_change(slot, value).params == a.params,
{
    let rules = a.model.states[a.state].inputs;
    lemma_first_match(rules, key_is(slot));
    if let Some(i) = input_entry(rules, slot) {
        assert(handler_wf(rules[i].1, a.model.states.len() as int, a.model.params.len() as int));
    }
}

/// A command keeps the actor well formed, its model and its parameters.
pub proof fn lemma_execute_wf(a: ActorView, command: Seq<char>)
    requires
        a.wf(),
    ensures
        a.execute(command).wf(),
        a.execute(command).model == a.model,
        a.execute(command).params == a.params,
{
    let rules = a.model.states[a.state].commands;
    lemma_first_match(rules, key_is(command));
    if let Some(i) = command_entry(rules, command) {
        assert(rules[i].1 < a.model.states.len());
    }
}

/// For every state and every slot of the model, either the state has a
/// handler for the slot, or an update of that slot leaves the state and the
/// parameters as they were.
pub proof fn lemma_unhandled_slot_is_identity(a: ActorView, slot: Seq<char>, value: i64)
    requires
        a.wf(),
        a.model.slots.contains(slot),
    ensures
        a.model.has_input(a.state, slot) || (a.input_change(slot, value).state == a.state
            && a.input_change(slot, value).params == a.params),
{
}

/// Handlers are deterministic: equal actors given the same update, or the
/// same command, become equal actors.
pub proof fn lemma_handlers_deterministic(
    a1: ActorView,
    a2: ActorView,
    slot: Seq<char>,
    value: i64,
    command: Seq<char>,
)
    requires
        a1 == a2,
    ensures
        a1.input_change(slot, value) == a2.input_change(slot, value),
        a1.execute(command) == a2.execute(command),
{
}

/// Parameters are invariant under transitions: after any sequence of updates
/// and commands the actor has the parameters (and the model) it started with,
/// and is still well formed.
pub proof fn lemma_params_invariant(a: ActorView, ops: Seq<Operation>)
    requires
        a.wf(),
    ensures
        run(a, ops).params == a.params,
        run(a, ops).model == a.model,
        run(a, ops).wf(),
    decreases ops.len(),
{
    if ops.len() > 0 {
        match ops[0] {
            Operation::Input { slot, value } => lemma_input_change_wf(a, slot, value),
            Operation::Command { command } => lemma_execute_wf(a, command),
        }
        lemma_params_invariant(apply(a, ops[0]), ops.drop_first());
    }
}

/// Two identical updates of the same actor give observably equal actors: same
/// state and same parameters; nothing else is carried between calls.
pub proof fn lemma_repeated_input_agrees(a: ActorView, slot: Seq<char>, value: i64)
    ensures
        a.input_change(slot, value).observably_equal(a.input_change(slot, value)),
        a.input_change(slot, value) == a.input_change(slot, value),
{
}

} // verus!
