use digitaltwin::{
    ActorFactory, ChargingStation, ChargingStationFactory, LightBulb, LightBulbFactory, ParamValue,
};

fn empty_args() -> serde_json::Value {
    serde_json::Value::Object(serde_json::Map::new())
}

#[test]
fn test_idle_state_power_change_high() {
    let (actor, _) = ChargingStationFactory::create_default();
    let actor = actor.input_change("CurrentPowerDraw", 10_000);
    assert_eq!(actor.model_name(), "ChargingStation");
    assert_eq!(actor.state(), "Fault");
}

#[test]
fn test_idle_state_vehicle_detected() {
    let (actor, _) = ChargingStationFactory::create_default();
    let actor = actor.execute("VehicleDetected", &empty_args());
    assert_eq!(actor.state(), "Connected");
}

#[test]
fn test_charging_state_complete() {
    let (actor, _) = ChargingStationFactory::create_default();
    let actor = actor
        .execute("VehicleDetected", &empty_args())
        .input_change("InputCurrent", 10_000)
        .input_change("CurrentPowerDraw", 1_000);
    assert_eq!(actor.state(), "Connected");
}

#[test]
fn test_connected_state_current_change_high() {
    let (actor, _) = ChargingStationFactory::create_default();
    let actor = actor
        .execute("VehicleDetected", &empty_args())
        .input_change("InputCurrent", 10_000);
    assert_eq!(actor.state(), "Charging");
}

#[test]
fn test_charging_state_overcurrent() {
    let (actor, _) = ChargingStationFactory::create_default();
    let actor = actor
        .execute("VehicleDetected", &empty_args())
        .input_change("InputCurrent", 10_000)
        .input_change("InputCurrent", 20_000);
    assert_eq!(actor.state(), "Fault");
}

#[test]
fn test_fault_state_reset() {
    let (actor, _) = ChargingStationFactory::create_default();
    let actor = actor
        .execute("VehicleDetected", &empty_args())
        .input_change("InputCurrent", 10_000)
        .input_change("InputCurrent", 20_000)
        .execute("Reset", &empty_args());
    assert_eq!(actor.state(), "Idle");
}

#[test]
fn light_bulb_test_power_change() {
    let actor = LightBulb::create(500);

    let actor = actor.input_change("CurrentPowerDraw", 300);
    assert_eq!(actor.state(), "Off");

    let actor = actor.input_change("CurrentPowerDraw", 700);
    assert_eq!(actor.state(), "On");

    let actor = actor.input_change("CurrentPowerDraw", 300);
    assert_eq!(actor.state(), "Off");
}

#[test]
fn light_bulb_unknown_slot_is_ignored() {
    let actor = LightBulb::create(500);
    let actor = actor.input_change("power", 700);
    assert_eq!(actor.state(), "Off");
    assert_eq!(actor.param(0), 500);
}

#[test]
fn light_bulb_default_low_power_stays_off() {
    let (actor, slots) = LightBulbFactory::create_default();
    assert_eq!(slots, vec!["CurrentPowerDraw".to_string()]);
    assert_eq!(actor.model_name(), "LightBulb");
    assert_eq!(actor.state(), "Off");
    let actor = actor.input_change("CurrentPowerDraw", 300);
    assert_eq!(actor.state(), "Off");
}

#[test]
fn light_bulb_on_then_off() {
    let (actor, _) = LightBulbFactory::create_default();
    let actor = actor.input_change("CurrentPowerDraw", 700);
    assert_eq!(actor.state(), "On");
    let actor = actor.input_change("CurrentPowerDraw", 300);
    assert_eq!(actor.state(), "Off");
}

#[test]
fn light_bulb_threshold_is_inclusive_when_off() {
    let (actor, _) = LightBulbFactory::create_default();
    let on = actor.input_change("CurrentPowerDraw", 500);
    assert_eq!(on.state(), "On");
    let still_on = on.input_change("CurrentPowerDraw", 500);
    assert_eq!(still_on.state(), "On");
    let off = still_on.input_change("CurrentPowerDraw", 499);
    assert_eq!(off.state(), "Off");
}

#[test]
fn light_bulb_commands() {
    let (actor, _) = LightBulbFactory::create_default();
    let on = actor.execute("SwitchOn", &empty_args());
    assert_eq!(on.state(), "On");
    let ignored = on.execute("SwitchOn", &empty_args());
    assert_eq!(ignored.state(), "On");
    let off = ignored.execute("SwitchOff", &empty_args());
    assert_eq!(off.state(), "Off");
}

#[test]
fn charging_station_scenario_reset_to_idle() {
    let (actor, slots) = ChargingStationFactory::create_default();
    assert_eq!(slots, vec!["CurrentPowerDraw".to_string(), "InputCurrent".to_string()]);
    let actor = actor
        .execute("VehicleDetected", &empty_args())
        .input_change("InputCurrent", 10_000)
        .input_change("CurrentPowerDraw", 1_000);
    assert_eq!(actor.state(), "Connected");
    let actor = actor.input_change("InputCurrent", 10_000).input_change("InputCurrent", 20_000);
    assert_eq!(actor.state(), "Fault");
    let actor = actor.execute("Reset", &empty_args());
    assert_eq!(actor.state(), "Idle");
}

#[test]
fn charging_station_boundaries() {
    let (actor, _) = ChargingStationFactory::create_default();
    let idle = actor.input_change("CurrentPowerDraw", 5_000);
    assert_eq!(idle.state(), "Idle");
    let connected = idle.execute("VehicleDetected", &empty_args());
    let still = connected.input_change("InputCurrent", 1_000);
    assert_eq!(still.state(), "Connected");
    let charging = still.input_change("InputCurrent", 1_001);
    assert_eq!(charging.state(), "Charging");
    let at_max = charging.input_change("InputCurrent", 16_000);
    assert_eq!(at_max.state(), "Charging");
    let set = at_max.execute("SetChargingCurrent", &empty_args());
    assert_eq!(set.state(), "Charging");
    let back = set.execute("VehicleDisconnected", &empty_args());
    assert_eq!(back.state(), "Charging");
}

#[test]
fn parameters_survive_transitions() {
    let actor = ChargingStation::create(2_000, 8_000, 3_000);
    let actor = actor
        .execute("VehicleDetected", &empty_args())
        .input_change("InputCurrent", 9_000)
        .input_change("InputCurrent", 9_000)
        .execute("Reset", &empty_args());
    assert_eq!(actor.state(), "Idle");
    assert_eq!(actor.param(0), 2_000);
    assert_eq!(actor.param(1), 8_000);
    assert_eq!(actor.param(2), 3_000);
}

#[test]
fn repeated_input_gives_equal_actors() {
    let (actor, _) = LightBulbFactory::create_default();
    let a = actor.input_change("CurrentPowerDraw", 700);
    let b = actor.input_change("CurrentPowerDraw", 700);
    assert_eq!(a.state(), b.state());
    assert_eq!(a.param(0), b.param(0));
    let a2 = a.input_change("CurrentPowerDraw", 700);
    assert_eq!(a2.state(), a.state());
}

#[test]
fn create_with_params_reads_known_names() {
    let given = vec![
        ParamValue { name: "max_current".to_string(), value: 20_000 },
        ParamValue { name: "unknown".to_string(), value: 1 },
        ParamValue { name: "max_current".to_string(), value: 30_000 },
    ];
    let (actor, _) = ChargingStationFactory::create_with_params(&given);
    assert_eq!(actor.param(0), 1_000);
    assert_eq!(actor.param(1), 20_000);
    assert_eq!(actor.param(2), 5_000);
    let actor = actor
        .execute("VehicleDetected", &empty_args())
        .input_change("InputCurrent", 10_000)
        .input_change("InputCurrent", 18_000);
    assert_eq!(actor.state(), "Charging");
}

#[test]
fn light_bulb_with_threshold_param() {
    let given = vec![ParamValue { name: "threshold".to_string(), value: 800 }];
    let (actor, _) = LightBulbFactory::create_with_params(&given);
    assert_eq!(actor.param(0), 800);
    let actor = actor.input_change("CurrentPowerDraw", 700);
    assert_eq!(actor.state(), "Off");
}

#[test]
fn fault_state_ignores_readings() {
    let actor = ChargingStation::create(1_000, 16_000, 5_000);
    let fault = actor.input_change("CurrentPowerDraw", 6_000);
    assert_eq!(fault.state(), "Fault");
    let same = fault.input_change("CurrentPowerDraw", 0).input_change("InputCurrent", 0);
    assert_eq!(same.state(), "Fault");
    assert_eq!(same.param(2), 5_000);
    let unknown = same.execute("VehicleDetected", &empty_args());
    assert_eq!(unknown.state(), "Fault");
}
