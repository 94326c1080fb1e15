//! Sample actor models: a light bulb and a charging station. Quantities are in
//! thousandths of their unit.
use vstd::prelude::*;
use crate::search::first_match;
use crate::actor::{
    ActorFactory, Actor, Cmp, CommandRule, InputHandler, InputRule, Model, ModelView, ParamDecl,
    ParamValue, StateDecl, StateView, ActorView, fresh_actor, string_views, state_views,
    param_views, input_views, command_views,
};

verus! {

/// A state of a model, with its dispatch surface.
pub trait StateBehavior {
    /// The state's name and tables.
    spec fn spec_state() -> StateView;

    /// Builds the state's name and tables.
    fn state_decl() -> (r: StateDecl)
        ensures
            r@ == Self::spec_state(),
    ;
}

/// Light bulb: switched off.
pub struct Off;

/// Light bulb: switched on.
pub struct On;

/// Charging station: no vehicle connected.
pub struct Idle;

/// Charging station: vehicle connected, not charging.
pub struct Connected;

/// Charging station: vehicle connected and charging.
pub struct Charging;

/// Charging station: a fault was detected.
pub struct Fault;

/// Index of the light bulb's `Off` state.
pub const LIGHT_OFF: usize = 0;
/// Index of the light bulb's `On` state.
pub const LIGHT_ON: usize = 1;
/// Index of the light bulb's threshold parameter.
pub const THRESHOLD: usize = 0;

/// Index of the charging station's `Idle` state.
pub const STATION_IDLE: usize = 0;
/// Index of the charging station's `Connected` state.
pub const STATION_CONNECTED: usize = 1;
/// Index of the charging station's `Charging` state.
pub const STATION_CHARGING: usize = 2;
/// Index of the charging station's `Fault` state.
pub const STATION_FAULT: usize = 3;
/// Index of the charging station's minimum charging current parameter [mA].
pub const MIN_CURRENT: usize = 0;
/// Index of the charging station's maximum charging current parameter [mA].
pub const MAX_CURRENT: usize = 1;
/// Index of the charging station's maximum sleep power parameter [mW].
pub const MAX_SLEEP_POWER: usize = 2;

impl StateBehavior for Off {
    open spec fn spec_state() -> StateView {
        StateView {
            name: "Off"@,
            inputs: seq![
                ("CurrentPowerDraw"@, InputHandler::Compare {
                    param: THRESHOLD,
                    test: Cmp::GreaterEq,
                    on_true: LIGHT_ON,
                    on_false: LIGHT_OFF,
                }),
            ],
            commands: seq![("SwitchOn"@, LIGHT_ON)],
        }
    }

    fn state_decl() -> (r: StateDecl) {
        let r = StateDecl {
            name: "Off".to_owned(),
            inputs: vec![
                InputRule {
                    slot: "CurrentPowerDraw".to_owned(),
                    handler: InputHandler::Compare {
                        param: THRESHOLD,
                        test: Cmp::GreaterEq,
                        on_true: LIGHT_ON,
                        on_false: LIGHT_OFF,
                    },
                },
            ],
            commands: vec![CommandRule { command: "SwitchOn".to_owned(), target: LIGHT_ON }],
        };
        assert(input_views(r.inputs@) =~= Self::spec_state().inputs);
        assert(command_views(r.commands@) =~= Self::spec_state().commands);
        r
    }
}

impl StateBehavior for On {
    open spec fn spec_state() -> StateView {
        StateView {
            name: "On"@,
            inputs: seq![
                ("CurrentPowerDraw"@, InputHandler::Compare {
                    param: THRESHOLD,
                    test: Cmp::Less,
                    on_true: LIGHT_OFF,
                    on_false: LIGHT_ON,
                }),
            ],
            commands: seq![("SwitchOff"@, LIGHT_OFF)],
        }
    }

    fn state_decl() -> (r: StateDecl) {
        let r = StateDecl {
            name: "On".to_owned(),
            inputs: vec![
                InputRule {
                    slot: "CurrentPowerDraw".to_owned(),
                    handler: InputHandler::Compare {
                        param: THRESHOLD,
                        test: Cmp::Less,
                        on_true: LIGHT_OFF,
                        on_false: LIGHT_ON,
                    },
                },
            ],
            commands: vec![CommandRule { command: "SwitchOff".to_owned(), target: LIGHT_OFF }],
        };
        assert(input_views(r.inputs@) =~= Self::spec_state().inputs);
        assert(command_views(r.commands@) =~= Self::spec_state().commands);
        r
    }
}

impl StateBehavior for Idle {
    open spec fn spec_state() -> StateView {
        StateView {
            name: "Idle"@,
            inputs: seq![
                ("CurrentPowerDraw"@, InputHandler::Compare {
                    param: MAX_SLEEP_POWER,
                    test: Cmp::Greater,
                    on_true: STATION_FAULT,
                    on_false: STATION_IDLE,
                }),
            ],
            commands: seq![("VehicleDetected"@, STATION_CONNECTED)],
        }
    }

    fn state_decl() -> (r: StateDecl) {
        let r = StateDecl {
            name: "Idle".to_owned(),
            inputs: vec![
                InputRule {
                    slot: "CurrentPowerDraw".to_owned(),
                    handler: InputHandler::Compare {
                        param: MAX_SLEEP_POWER,
                        test: Cmp::Greater,
                        on_true: STATION_FAULT,
                        on_false: STATION_IDLE,
                    },
                },
            ],
            commands: vec![
                CommandRule { command: "VehicleDetected".to_owned(), target: STATION_CONNECTED },
            ],
        };
        assert(input_views(r.inputs@) =~= Self::spec_state().inputs);
        assert(command_views(r.commands@) =~= Self::spec_state().commands);
        r
    }
}

impl StateBehavior for Connected {
    open spec fn spec_state() -> StateView {
        StateView {
            name: "Connected"@,
            inputs: seq![
                ("InputCurrent"@, InputHandler::Compare {
                    param: MIN_CURRENT,
                    test: Cmp::Greater,
                    on_true: STATION_CHARGING,
                    on_false: STATION_CONNECTED,
                }),
            ],
            commands: seq![("VehicleDisconnected"@, STATION_IDLE)],
        }
    }

    fn state_decl() -> (r: StateDecl) {
        let r = StateDecl {
            name: "Connected".to_owned(),
            inputs: vec![
                InputRule {
                    slot: "InputCurrent".to_owned(),
                    handler: InputHandler::Compare {
                        param: MIN_CURRENT,
                        test: Cmp::Greater,
                        on_true: STATION_CHARGING,
                        on_false: STATION_CONNECTED,
                    },
                },
            ],
            commands: vec![
                CommandRule { command: "VehicleDisconnected".to_owned(), target: STATION_IDLE },
            ],
        };
        assert(input_views(r.inputs@) =~= Self::spec_state().inputs);
        assert(command_views(r.commands@) =~= Self::spec_state().commands);
        r
    }
}

impl StateBehavior for Charging {
    open spec fn spec_state() -> StateView {
        StateView {
            name: "Charging"@,
            inputs: seq![
                ("CurrentPowerDraw"@, InputHandler::Compare {
                    param: MAX_SLEEP_POWER,
                    test: Cmp::Less,
                    on_true: STATION_CONNECTED,
                    on_false: STATION_CHARGING,
                }),
                ("InputCurrent"@, InputHandler::Compare {
                    param: MAX_CURRENT,
                    test: Cmp::Greater,
                    on_true: STATION_FAULT,
                    on_false: STATION_CHARGING,
                }),
            ],
            commands: seq![("SetChargingCurrent"@, STATION_CHARGING)],
        }
    }

    fn state_decl() -> (r: StateDecl) {
        let r = StateDecl {
            name: "Charging".to_owned(),
            inputs: vec![
                InputRule {
                    slot: "CurrentPowerDraw".to_owned(),
                    handler: InputHandler::Compare {
                        param: MAX_SLEEP_POWER,
                        test: Cmp::Less,
                        on_true: STATION_CONNECTED,
                        on_false: STATION_CHARGING,
                    },
                },
                InputRule {
                    slot: "InputCurrent".to_owned(),
                    handler: InputHandler::Compare {
                        param: MAX_CURRENT,
                        test: Cmp::Greater,
                        on_true: STATION_FAULT,
                        on_false: STATION_CHARGING,
                    },
                },
            ],
            commands: vec![
                CommandRule { command: "SetChargingCurrent".to_owned(), target: STATION_CHARGING },
            ],
        };
        assert(input_views(r.inputs@) =~= Self::spec_state().inputs);
        assert(command_views(r.commands@) =~= Self::spec_state().commands);
        r
    }
}

impl StateBehavior for Fault {
    open spec fn spec_state() -> StateView {
        StateView {
            name: "Fault"@,
            inputs: seq![],
            commands: seq![("Reset"@, STATION_IDLE)],
        }
    }

    fn state_decl() -> (r: StateDecl) {
        let r = StateDecl {
            name: "Fault".to_owned(),
            inputs: Vec::new(),
            commands: vec![CommandRule { command: "Reset".to_owned(), target: STATION_IDLE }],
        };
        assert(input_views(r.inputs@) =~= Self::spec_state().inputs);
        assert(command_views(r.commands@) =~= Self::spec_state().commands);
        r
    }
}


/// The light bulb model: threshold 0.5; slot `CurrentPowerDraw`; states `Off`
/// (initial) and `On`.
pub open spec fn light_bulb_model() -> ModelView {
    ModelView {
        name: "LightBulb"@,
        params: seq![("threshold"@, 500i64)],
        slots: seq!["CurrentPowerDraw"@],
        states: seq![Off::spec_state(), On::spec_state()],
        initial: LIGHT_OFF as int,
    }
}

/// The charging station model: minimum current 1.0, maximum current 16.0,
/// maximum sleep power 5.0; slots `CurrentPowerDraw` and `InputCurrent`;
/// states `Idle` (initial), `Connected`, `Charging` and `Fault`.
pub open spec fn charging_station_model() -> ModelView {
    ModelView {
        name: "ChargingStation"@,
        params: seq![("min_current"@, 1000i64), ("max_current"@, 16000i64), ("max_sleep_power"@, 5000i64)],
        slots: seq!["CurrentPowerDraw"@, "InputCurrent"@],
        states: seq![
            Idle::spec_state(),
            Connected::spec_state(),
            Charging::spec_state(),
            Fault::spec_state(),
        ],
        initial: STATION_IDLE as int,
    }
}

/// The light bulb actor model.
pub struct LightBulb;

/// Builds light bulb actors.
pub struct LightBulbFactory;

/// The charging station actor model.
pub struct ChargingStation;

/// Builds charging station actors.
pub struct ChargingStationFactory;

impl LightBulb {
    /// The light bulb's descriptor.
    pub fn model() -> (m: Model)
        ensures
            m@ == light_bulb_model(),
            m@.wf(),
    {
        let m = Model {
            name: "LightBulb".to_owned(),
            params: vec![ParamDecl { name: "threshold".to_owned(), default: 500 }],
            slots: vec!["CurrentPowerDraw".to_owned()],
            states: vec![Off::state_decl(), On::state_decl()],
            initial: LIGHT_OFF,
        };
        assert(param_views(m.params@) =~= light_bulb_model().params);
        assert(string_views(m.slots@) =~= light_bulb_model().slots);
        assert(state_views(m.states@) =~= light_bulb_model().states);
        m
    }

    /// A light bulb in the `Off` state with the given threshold.
    pub fn create(threshold: i64) -> (r: Actor)
        ensures
            r@ == fresh_actor(light_bulb_model(), seq![threshold]),
            r@.wf(),
    {
        let params = vec![threshold];
        assert(params@ =~= seq![threshold]);
        LightBulb::model().create(params)
    }
}

impl ActorFactory for LightBulbFactory {
    open spec fn spec_model() -> ModelView {
        light_bulb_model()
    }

    fn model() -> (m: Model) {
        LightBulb::model()
    }

    fn create_default() -> (r: (Actor, Vec<String>)) {
        LightBulb::model().create_default()
    }

    fn create_with_params(given: &Vec<ParamValue>) -> (r: (Actor, Vec<String>)) {
        LightBulb::model().create_with_params(given)
    }
}

impl ChargingStation {
    /// The charging station's descriptor.
    pub fn model() -> (m: Model)
        ensures
            m@ == charging_station_model(),
            m@.wf(),
    {
        let m = Model {
            name: "ChargingStation".to_owned(),
            params: vec![
                ParamDecl { name: "min_current".to_owned(), default: 1000 },
                ParamDecl { name: "max_current".to_owned(), default: 16000 },
                ParamDecl { name: "max_sleep_power".to_owned(), default: 5000 },
            ],
            slots: vec!["CurrentPowerDraw".to_owned(), "InputCurrent".to_owned()],
            states: vec![
                Idle::state_decl(),
                Connected::state_decl(),
                Charging::state_decl(),
                Fault::state_decl(),
            ],
            initial: STATION_IDLE,
        };
        assert(param_views(m.params@) =~= charging_station_model().params);
        assert(string_views(m.slots@) =~= charging_station_model().slots);
        assert(state_views(m.states@) =~= charging_station_model().states);
        m
    }

    /// A charging station in the `Idle` state with the given parameters.
    pub fn create(min_current: i64, max_current: i64, max_sleep_power: i64) -> (r: Actor)
        ensures
            r@ == fresh_actor(charging_station_model(), seq![min_current, max_current, max_sleep_power]),
            r@.wf(),
    {
        let params = vec![min_current, max_current, max_sleep_power];
        assert(params@ =~= seq![min_current, max_current, max_sleep_power]);
        ChargingStation::model().create(params)
    }
}

impl ActorFactory for ChargingStationFactory {
    open spec fn spec_model() -> ModelView {
        charging_station_model()
    }

    fn model() -> (m: Model) {
        ChargingStation::model()
    }

    fn create_default() -> (r: (Actor, Vec<String>)) {
        ChargingStation::model().create_default()
    }

    fn create_with_params(given: &Vec<ParamValue>) -> (r: (Actor, Vec<String>)) {
        ChargingStation::model().create_with_params(given)
    }
}


/// Repeating an update of a light bulb changes nothing more: the second
/// update leaves the actor where the first put it.
pub proof fn lemma_light_bulb_update_idempotent(a: ActorView, slot: Seq<char>, value: i64)
    requires
        a.wf(),
        a.model == light_bulb_model(),
    ensures
        a.input_change(slot, value).input_change(slot, value) == a.input_change(slot, value),
{
    reveal_with_fuel(first_match, 3);
    let b = a.input_change(slot, value);
    assert(b.model == a.model && b.params == a.params);
}

/// Repeating an update of a charging station changes nothing more, except
/// where a connected station sees an input current above both current
/// limits: the first update starts charging, the second detects overcurrent.
pub proof fn lemma_charging_station_update_idempotent(a: ActorView, slot: Seq<char>, value: i64)
    requires
        a.wf(),
        a.model == charging_station_model(),
        !(a.state == STATION_CONNECTED && slot == "InputCurrent"@ && value > a.params[MIN_CURRENT as int]
            && value > a.params[MAX_CURRENT as int]),
    ensures
        a.input_change(slot, value).input_change(slot, value) == a.input_change(slot, value),
{
    reveal_with_fuel(first_match, 4);
    reveal_strlit("CurrentPowerDraw");
    reveal_strlit("InputCurrent");
    assert("CurrentPowerDraw"@.len() != "InputCurrent"@.len());
    let b = a.input_change(slot, value);
    assert(b.model == a.model && b.params == a.params);
}

} // verus!
