//! The state-machine framework: an actor model is a descriptor (parameters,
//! slots, states with their input and command tables), and an actor is a
//! value of a model in one of its states. Quantities are fixed-point integers
//! in thousandths of their unit.
use vstd::prelude::*;
use crate::search::{first_match, key_is, lemma_first_match, str_eq};

verus! {

/// How a handler compares the incoming value with one of the actor's parameters.
#[derive(Clone, Copy, PartialEq, Eq, Structural)]
pub enum Cmp {
    Less,
    LessEq,
    Greater,
    GreaterEq,
}

/// A numeric input handler. It never changes parameters: it only names the
/// state to move to.
#[derive(Clone, Copy, PartialEq, Eq, Structural)]
pub enum InputHandler {
    /// Move to `target` whatever the value.
    Goto { target: usize },
    /// Move to `on_true` when `value <test> params[param]` holds, else to `on_false`.
    Compare { param: usize, test: Cmp, on_true: usize, on_false: usize },
}

/// One entry of a state's slot table.
pub struct InputRule {
    pub slot: String,
    pub handler: InputHandler,
}

/// One entry of a state's command table: the command moves to `target`.
pub struct CommandRule {
    pub command: String,
    pub target: usize,
}

/// The dispatch surface of one state.
pub struct StateDecl {
    pub name: String,
    pub inputs: Vec<InputRule>,
    pub commands: Vec<CommandRule>,
}

/// A declared parameter and its default value.
pub struct ParamDecl {
    pub name: String,
    pub default: i64,
}

/// A value supplied for a parameter when an actor is created.
pub struct ParamValue {
    pub name: String,
    pub value: i64,
}

/// An actor model: its name, parameters, slots, states, and initial state.
pub struct Model {
    pub name: String,
    pub params: Vec<ParamDecl>,
    pub slots: Vec<String>,
    pub states: Vec<StateDecl>,
    pub initial: usize,
}

/// Abstract view of a state.
pub struct StateView {
    pub name: Seq<char>,
    pub inputs: Seq<(Seq<char>, InputHandler)>,
    pub commands: Seq<(Seq<char>, usize)>,
}

/// Abstract view of a model.
pub struct ModelView {
    pub name: Seq<char>,
    pub params: Seq<(Seq<char>, i64)>,
    pub slots: Seq<Seq<char>>,
    pub states: Seq<StateView>,
    pub initial: int,
}

/// Abstract view of an actor.
pub struct ActorView {
    pub model: ModelView,
    pub params: Seq<i64>,
    pub state: int,
}

impl View for InputRule {
    type V = (Seq<char>, InputHandler);

    open spec fn view(&self) -> (Seq<char>, InputHandler) {
        (self.slot@, self.handler)
    }
}

impl View for CommandRule {
    type V = (Seq<char>, usize);

    open spec fn view(&self) -> (Seq<char>, usize) {
        (self.command@, self.target)
    }
}

/// The views of a slot table's entries.
pub open spec fn input_views(rules: Seq<InputRule>) -> Seq<(Seq<char>, InputHandler)> {
    rules.map_values(|r: InputRule| r@)
}

/// The views of a command table's entries.
pub open spec fn command_views(rules: Seq<CommandRule>) -> Seq<(Seq<char>, usize)> {
    rules.map_values(|r: CommandRule| r@)
}

impl View for StateDecl {
    type V = StateView;

    open spec fn view(&self) -> StateView {
        StateView {
            name: self.name@,
            inputs: input_views(self.inputs@),
            commands: command_views(self.commands@),
        }
    }
}

impl View for ParamDecl {
    type V = (Seq<char>, i64);

    open spec fn view(&self) -> (Seq<char>, i64) {
        (self.name@, self.default)
    }
}

/// The views of parameter declarations.
pub open spec fn param_views(ps: Seq<ParamDecl>) -> Seq<(Seq<char>, i64)> {
    ps.map_values(|p: ParamDecl| p@)
}

/// The views of supplied parameter values.
pub open spec fn value_views(ps: Seq<ParamValue>) -> Seq<(Seq<char>, i64)> {
    ps.map_values(|p: ParamValue| p@)
}

/// The character sequences of a list of strings.
pub open spec fn string_views(ss: Seq<String>) -> Seq<Seq<char>> {
    ss.map_values(|s: String| s@)
}

/// The views of a list of states.
pub open spec fn state_views(ss: Seq<StateDecl>) -> Seq<StateView> {
    ss.map_values(|s: StateDecl| s@)
}

impl View for Model {
    type V = ModelView;

    open spec fn view(&self) -> ModelView {
        ModelView {
            name: self.name@,
            params: param_views(self.params@),
            slots: string_views(self.slots@),
            states: state_views(self.states@),
            initial: self.initial as int,
        }
    }
}

/// Whether `value <test> bound` holds.
pub open spec fn cmp_holds(test: Cmp, value: i64, bound: i64) -> bool {
    match test {
        Cmp::Less => value < bound,
        Cmp::LessEq => value <= bound,
        Cmp::Greater => value > bound,
        Cmp::GreaterEq => value >= bound,
    }
}

/// The state a handler moves to for `value`, given the actor's parameters.
pub open spec fn handler_target(h: InputHandler, params: Seq<i64>, value: i64) -> int {
    match h {
        InputHandler::Goto { target } => target as int,
        InputHandler::Compare { param, test, on_true, on_false } => {
            if cmp_holds(test, value, params[param as int]) {
                on_true as int
            } else {
                on_false as int
            }
        },
    }
}

/// Whether a handler names only existing states and parameters.
pub open spec fn handler_wf(h: InputHandler, n_states: int, n_params: int) -> bool {
    match h {
        InputHandler::Goto { target } => target < n_states,
        InputHandler::Compare { param, on_true, on_false, .. } => {
            param < n_params && on_true < n_states && on_false < n_states
        },
    }
}

/// Position of the first entry of a slot table for `slot`.
pub open spec fn input_entry(rules: Seq<(Seq<char>, InputHandler)>, slot: Seq<char>) -> Option<int> {
    first_match(rules, key_is(slot))
}

/// Position of the first entry of a command table for `command`.
pub open spec fn command_entry(rules: Seq<(Seq<char>, usize)>, command: Seq<char>) -> Option<int> {
    first_match(rules, key_is(command))
}

impl ModelView {
    /// Every state's tables point at existing states and parameters, and the
    /// initial state exists.
    pub open spec fn wf(self) -> bool {
        &&& 0 <= self.initial < self.states.len()
        &&& forall|s: int, i: int|
            0 <= s < self.states.len() && 0 <= i < self.states[s].inputs.len() ==> handler_wf(
                #[trigger] self.states[s].inputs[i].1,
                self.states.len() as int,
                self.params.len() as int,
            )
        &&& forall|s: int, i: int|
            0 <= s < self.states.len() && 0 <= i < self.states[s].commands.len()
                ==> #[trigger] self.states[s].commands[i].1 < self.states.len()
    }

    /// Whether `state` has a handler for `slot`.
    pub open spec fn has_input(self, state: int, slot: Seq<char>) -> bool {
        input_entry(self.states[state].inputs, slot) is Some
    }

    /// Whether `state` has a handler for `command`.
    pub open spec fn has_command(self, state: int, command: Seq<char>) -> bool {
        command_entry(self.states[state].commands, command) is Some
    }

    /// The parameters of a freshly created actor: for each declared parameter,
    /// the first supplied value of that name, else the default.
    pub open spec fn chosen_params(self, given: Seq<(Seq<char>, i64)>) -> Seq<i64> {
        Seq::new(
            self.params.len(),
            |i: int|
                match first_match(given, key_is(self.params[i].0)) {
                    Some(k) => given[k].1,
                    None => self.params[i].1,
                },
        )
    }

    /// The declared defaults of the parameters.
    pub open spec fn default_params(self) -> Seq<i64> {
        self.params.map_values(|p: (Seq<char>, i64)| p.1)
    }
}

impl ActorView {
    /// The model is well formed, the parameters match its declarations, and the
    /// state exists.
    pub open spec fn wf(self) -> bool {
        &&& self.model.wf()
        &&& self.params.len() == self.model.params.len()
        &&& 0 <= self.state < self.model.states.len()
    }

    /// The actor in `target`, with model and parameters kept.
    pub open spec fn transition(self, target: int) -> ActorView {
        ActorView { state: target, ..self }
    }

    /// The actor after an update of `slot` with `value`: the handler's target
    /// state, or the same actor where the state has no handler for the slot.
    pub open spec fn input_change(self, slot: Seq<char>, value: i64) -> ActorView {
        let rules = self.model.states[self.state].inputs;
        match input_entry(rules, slot) {
            Some(i) => self.transition(handler_target(rules[i].1, self.params, value)),
            None => self,
        }
    }

    /// The actor after `command`: the command's target state, or the same
    /// actor where the state has no handler for it.
    pub open spec fn execute(self, command: Seq<char>) -> ActorView {
        let rules = self.model.states[self.state].commands;
        match command_entry(rules, command) {
            Some(i) => self.transition(rules[i].1 as int),
            None => self,
        }
    }

    /// Same state and same parameters.
    pub open spec fn observably_equal(self, other: ActorView) -> bool {
        self.state == other.state && self.params == other.params
    }
}

/// The actor a model starts as: its initial state with `params`.
pub open spec fn fresh_actor(m: ModelView, params: Seq<i64>) -> ActorView {
    ActorView { model: m, params, state: m.initial }
}


impl View for ParamValue {
    type V = (Seq<char>, i64);

    open spec fn view(&self) -> (Seq<char>, i64) {
        (self.name@, self.value)
    }
}

impl InputRule {
    /// A copy of this entry.
    pub fn copy(&self) -> (r: InputRule)
        ensures
            r@ == self@,
    {
        InputRule { slot: self.slot.clone(), handler: self.handler }
    }
}

impl CommandRule {
    /// A copy of this entry.
    pub fn copy(&self) -> (r: CommandRule)
        ensures
            r@ == self@,
    {
        CommandRule { command: self.command.clone(), target: self.target }
    }
}

impl ParamDecl {
    /// A copy of this declaration.
    pub fn copy(&self) -> (r: ParamDecl)
        ensures
            r@ == self@,
    {
        ParamDecl { name: self.name.clone(), default: self.default }
    }
}

/// A copy of a list of strings.
pub fn copy_strings(v: &Vec<String>) -> (r: Vec<String>)
    ensures
        r@ == v@,
{
    let mut r: Vec<String> = Vec::new();
    let mut i: usize = 0;
    while i < v.len()
        invariant
            i <= v@.len(),
            r@ == v@.subrange(0, i as int),
        decreases v@.len() - i,
    {
        r.push(v[i].clone());
        i = i + 1;
        assert(r@ =~= v@.subrange(0, i as int));
    }
    assert(v@.subrange(0, v@.len() as int) =~= v@);
    r
}

impl StateDecl {
    /// A copy of this state's dispatch surface.
    pub fn copy(&self) -> (r: StateDecl)
        ensures
            r@ == self@,
    {
        let mut inputs: Vec<InputRule> = Vec::new();
        let mut i: usize = 0;
        while i < self.inputs.len()
            invariant
                i <= self.inputs@.len(),
                inputs@.len() == i,
                forall|j: int| 0 <= j < i ==> #[trigger] inputs@[j]@ == self.inputs@[j]@,
            decreases self.inputs@.len() - i,
        {
            inputs.push(self.inputs[i].copy());
            i = i + 1;
        }
        let mut commands: Vec<CommandRule> = Vec::new();
        let mut k: usize = 0;
        while k < self.commands.len()
            invariant
                k <= self.commands@.len(),
                commands@.len() == k,
                forall|j: int| 0 <= j < k ==> #[trigger] commands@[j]@ == self.commands@[j]@,
            decreases self.commands@.len() - k,
        {
            commands.push(self.commands[k].copy());
            k = k + 1;
        }
        let r = StateDecl { name: self.name.clone(), inputs, commands };
        assert(r@.inputs =~= self@.inputs);
        assert(r@.commands =~= self@.commands);
        r
    }
}

impl Model {
    /// A copy of this model.
    pub fn copy(&self) -> (r: Model)
        ensures
            r@ == self@,
    {
        let mut params: Vec<ParamDecl> = Vec::new();
        let mut i: usize = 0;
        while i < self.params.len()
            invariant
                i <= self.params@.len(),
                params@.len() == i,
                forall|j: int| 0 <= j < i ==> #[trigger] params@[j]@ == self.params@[j]@,
            decreases self.params@.len() - i,
        {
            params.push(self.params[i].copy());
            i = i + 1;
        }
        let mut states: Vec<StateDecl> = Vec::new();
        let mut k: usize = 0;
        while k < self.states.len()
            invariant
                k <= self.states@.len(),
                states@.len() == k,
                forall|j: int| 0 <= j < k ==> #[trigger] states@[j]@ == self.states@[j]@,
            decreases self.states@.len() - k,
        {
            states.push(self.states[k].copy());
            k = k + 1;
        }
        let r = Model {
            name: self.name.clone(),
            params,
            slots: copy_strings(&self.slots),
            states,
            initial: self.initial,
        };
        assert(r@.params =~= self@.params);
        assert(r@.states =~= self@.states);
        r
    }
}

/// Position of the entry for `slot` in a slot table.
fn find_input(rules: &Vec<InputRule>, slot: &str) -> (r: Option<usize>)
    ensures
        r matches Some(i) ==> i < rules@.len() && input_entry(input_views(rules@), slot@) == Some(i as int),
        r is None ==> input_entry(input_views(rules@), slot@) is None,
{
    let ghost views = input_views(rules@);
    let ghost p = key_is::<InputHandler>(slot@);
    let mut i: usize = 0;
    while i < rules.len()
        invariant
            i <= rules@.len(),
            views == input_views(rules@),
            p == key_is::<InputHandler>(slot@),
            forall|j: int| 0 <= j < i ==> !p(#[trigger] views[j]),
        decreases rules@.len() - i,
    {
        if str_eq(rules[i].slot.as_str(), slot) {
            proof {
                assert(views[i as int] == rules@[i as int]@);
                lemma_first_match(views, p);
            }
            return Some(i);
        }
        assert(views[i as int] == rules@[i as int]@);
        i = i + 1;
    }
    proof {
        lemma_first_match(views, p);
    }
    None
}

/// Position of the entry for `command` in a command table.
fn find_command(rules: &Vec<CommandRule>, command: &str) -> (r: Option<usize>)
    ensures
        r matches Some(i) ==> i < rules@.len() && command_entry(command_views(rules@), command@)
            == Some(i as int),
        r is None ==> command_entry(command_views(rules@), command@) is None,
{
    let ghost views = command_views(rules@);
    let ghost p = key_is::<usize>(command@);
    let mut i: usize = 0;
    while i < rules.len()
        invariant
            i <= rules@.len(),
            views == command_views(rules@),
            p == key_is::<usize>(command@),
            forall|j: int| 0 <= j < i ==> !p(#[trigger] views[j]),
        decreases rules@.len() - i,
    {
        if str_eq(rules[i].command.as_str(), command) {
            proof {
                assert(views[i as int] == rules@[i as int]@);
                lemma_first_match(views, p);
            }
            return Some(i);
        }
        assert(views[i as int] == rules@[i as int]@);
        i = i + 1;
    }
    proof {
        lemma_first_match(views, p);
    }
    None
}


/// An actor: a model, the values of its parameters, and its current state.
pub struct Actor {
    model: Model,
    params: Vec<i64>,
    state: usize,
}

impl View for Actor {
    type V = ActorView;

    closed spec fn view(&self) -> ActorView {
        ActorView { model: self.model@, params: self.params@, state: self.state as int }
    }
}

impl Actor {
    /// The actor in state `target` with this actor's model and parameters.
    pub fn transition(&self, target: usize) -> (r: Actor)
        requires
            self@.wf(),
            target < self@.model.states.len(),
        ensures
            r@ == self@.transition(target as int),
            r@.wf(),
    {
        let params = copy_params(&self.params);
        Actor { model: self.model.copy(), params, state: target }
    }

    /// The actor after an update of `slot` with `value`.
    pub fn input_change(&self, slot: &str, value: i64) -> (r: Actor)
        requires
            self@.wf(),
        ensures
            r@ == self@.input_change(slot@, value),
            r@.wf(),
    {
        let ghost m = self@.model;
        let st = &self.model.states[self.state];
        proof {
            assert(m.states[self.state as int] == st@);
        }
        match find_input(&st.inputs, slot) {
            Some(i) => {
                let ghost rules = m.states[self.state as int].inputs;
                assert(rules[i as int] == st.inputs@[i as int]@);
                assert(handler_wf(rules[i as int].1, m.states.len() as int, m.params.len() as int));
                let target = match st.inputs[i].handler {
                    InputHandler::Goto { target } => target,
                    InputHandler::Compare { param, test, on_true, on_false } => {
                        if compare(test, value, self.params[param]) {
                            on_true
                        } else {
                            on_false
                        }
                    },
                };
                self.transition(target)
            },
            None => self.transition(self.state),
        }
    }

    /// The actor after `command`; the payload is not read by any handler.
    pub fn execute(&self, command: &str, _payload: &serde_json::Value) -> (r: Actor)
        requires
            self@.wf(),
        ensures
            r@ == self@.execute(command@),
            r@.wf(),
    {
        let ghost m = self@.model;
        let st = &self.model.states[self.state];
        proof {
            assert(m.states[self.state as int] == st@);
        }
        match find_command(&st.commands, command) {
            Some(i) => {
                assert(m.states[self.state as int].commands[i as int] == st.commands@[i as int]@);
                assert(m.states[self.state as int].commands[i as int].1 < m.states.len());
                self.transition(st.commands[i].target)
            },
            None => self.transition(self.state),
        }
    }

    /// The name of the actor's model.
    pub fn model_name(&self) -> (r: String)
        ensures
            r@ == self@.model.name,
    {
        self.model.name.clone()
    }

    /// The name of the actor's current state.
    pub fn state(&self) -> (r: String)
        requires
            self@.wf(),
        ensures
            r@ == self@.model.states[self@.state].name,
    {
        proof {
            assert(self@.model.states[self@.state] == self.model.states@[self.state as int]@);
        }
        self.model.states[self.state].name.clone()
    }

    /// The value of parameter `i`.
    pub fn param(&self, i: usize) -> (r: i64)
        requires
            i < self@.params.len(),
        ensures
            r == self@.params[i as int],
    {
        self.params[i]
    }
}

/// Whether `value <test> bound` holds.
pub fn compare(test: Cmp, value: i64, bound: i64) -> (r: bool)
    ensures
        r == cmp_holds(test, value, bound),
{
    match test {
        Cmp::Less => value < bound,
        Cmp::LessEq => value <= bound,
        Cmp::Greater => value > bound,
        Cmp::GreaterEq => value >= bound,
    }
}

/// A copy of a list of parameter values.
fn copy_params(v: &Vec<i64>) -> (r: Vec<i64>)
    ensures
        r@ == v@,
{
    let mut r: Vec<i64> = Vec::new();
    let mut i: usize = 0;
    while i < v.len()
        invariant
            i <= v@.len(),
            r@ == v@.subrange(0, i as int),
        decreases v@.len() - i,
    {
        r.push(v[i]);
        i = i + 1;
        assert(r@ =~= v@.subrange(0, i as int));
    }
    assert(v@.subrange(0, v@.len() as int) =~= v@);
    r
}


/// Position of the first supplied value named `name`.
fn find_value(given: &Vec<ParamValue>, name: &str) -> (r: Option<usize>)
    ensures
        r matches Some(i) ==> i < given@.len() && first_match(value_views(given@), key_is(name@))
            == Some(i as int),
        r is None ==> first_match(value_views(given@), key_is(name@)) is None,
{
    let ghost views = value_views(given@);
    let ghost p = key_is::<i64>(name@);
    let mut i: usize = 0;
    while i < given.len()
        invariant
            i <= given@.len(),
            views == value_views(given@),
            p == key_is::<i64>(name@),
            forall|j: int| 0 <= j < i ==> !p(#[trigger] views[j]),
        decreases given@.len() - i,
    {
        assert(views[i as int] == given@[i as int]@);
        if str_eq(given[i].name.as_str(), name) {
            proof {
                lemma_first_match(views, p);
            }
            return Some(i);
        }
        i = i + 1;
    }
    proof {
        lemma_first_match(views, p);
    }
    None
}

impl Model {
    /// An actor of this model in its initial state with the given parameter
    /// values, in declaration order.
    pub fn create(self, params: Vec<i64>) -> (r: Actor)
        requires
            self@.wf(),
            params@.len() == self@.params.len(),
        ensures
            r@ == fresh_actor(self@, params@),
            r@.wf(),
    {
        let initial = self.initial;
        Actor { model: self, params, state: initial }
    }

    /// An actor of this model in its initial state with the declared default
    /// parameters, and the model's slots.
    pub fn create_default(self) -> (r: (Actor, Vec<String>))
        requires
            self@.wf(),
        ensures
            r.0@ == fresh_actor(self@, self@.default_params()),
            r.0@.wf(),
            string_views(r.1@) == self@.slots,
    {
        let ghost m = self@;
        let mut params: Vec<i64> = Vec::new();
        let mut i: usize = 0;
        while i < self.params.len()
            invariant
                m == self@,
                i <= self.params@.len(),
                params@.len() == i,
                forall|j: int| 0 <= j < i ==> #[trigger] params@[j] == m.default_params()[j],
            decreases self.params@.len() - i,
        {
            assert(m.params[i as int] == self.params@[i as int]@);
            params.push(self.params[i].default);
            i = i + 1;
        }
        assert(params@ =~= m.default_params());
        let slots = copy_strings(&self.slots);
        let initial = self.initial;
        (Actor { model: self, params, state: initial }, slots)
    }

    /// An actor of this model in its initial state whose parameters take the
    /// first supplied value of their name, or their default where none is
    /// supplied; and the model's slots. Values of unknown names are ignored.
    pub fn create_with_params(self, given: &Vec<ParamValue>) -> (r: (Actor, Vec<String>))
        requires
            self@.wf(),
        ensures
            r.0@ == fresh_actor(self@, self@.chosen_params(value_views(given@))),
            r.0@.wf(),
            string_views(r.1@) == self@.slots,
    {
        let ghost m = self@;
        let ghost g = value_views(given@);
        let mut params: Vec<i64> = Vec::new();
        let mut i: usize = 0;
        while i < self.params.len()
            invariant
                m == self@,
                g == value_views(given@),
                i <= self.params@.len(),
                params@.len() == i,
                forall|j: int| 0 <= j < i ==> #[trigger] params@[j] == m.chosen_params(g)[j],
            decreases self.params@.len() - i,
        {
            assert(m.params[i as int] == self.params@[i as int]@);
            match find_value(given, self.params[i].name.as_str()) {
                Some(k) => {
                    assert(g[k as int] == given@[k as int]@);
                    params.push(given[k].value);
                },
                None => {
                    params.push(self.params[i].default);
                },
            }
            i = i + 1;
        }
        assert(params@ =~= m.chosen_params(g));
        let slots = copy_strings(&self.slots);
        let initial = self.initial;
        (Actor { model: self, params, state: initial }, slots)
    }
}

/// A builder of actors of one model.
pub trait ActorFactory {
    /// The model that this factory instantiates.
    spec fn spec_model() -> ModelView;

    /// The model's descriptor.
    fn model() -> (m: Model)
        ensures
            m@ == Self::spec_model(),
            m@.wf(),
    ;

    /// An actor with the default parameters in the initial state, and the
    /// model's slots.
    fn create_default() -> (r: (Actor, Vec<String>))
        ensures
            r.0@ == fresh_actor(Self::spec_model(), Self::spec_model().default_params()),
            r.0@.wf(),
            string_views(r.1@) == Self::spec_model().slots,
    ;

    /// An actor with the supplied parameters (defaults for the others) in the
    /// initial state, and the model's slots.
    fn create_with_params(given: &Vec<ParamValue>) -> (r: (Actor, Vec<String>))
        ensures
            r.0@ == fresh_actor(
                Self::spec_model(),
                Self::spec_model().chosen_params(value_views(given@)),
            ),
            r.0@.wf(),
            string_views(r.1@) == Self::spec_model().slots,
    ;
}

} // verus!
