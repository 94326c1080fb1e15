use digitaltwin::runner::split_segments;
use digitaltwin::{
    find_duplicates, ActorMessage, AssetAdministrationShell, Command, Manager, ManagerMessage,
    ModelCatalog, NetworkMessage, NetworkOptions, NetworkReceiver, Property, PropertyValue,
    ReferenceElement, Submodel, SubmodelCollection, SubmodelElement, TwinError, TwinRunner, Update,
    ValueType, WireMessage,
};

fn collection(id_short: &str, value: Vec<SubmodelElement>) -> SubmodelElement {
    SubmodelElement::Collection(SubmodelCollection { id_short: id_short.to_string(), value })
}

fn reference(id_short: &str, value: &str) -> SubmodelElement {
    SubmodelElement::ReferenceElement(ReferenceElement {
        id_short: id_short.to_string(),
        value: value.to_string(),
    })
}

fn string_property(id_short: &str, value: &str) -> SubmodelElement {
    SubmodelElement::Property(Property {
        id_short: id_short.to_string(),
        value_type: ValueType::String,
        value: PropertyValue::Str(value.to_string()),
    })
}

fn light_shell(id: &str) -> AssetAdministrationShell {
    AssetAdministrationShell {
        id: id.to_string(),
        id_short: "Bulb".to_string(),
        description: Some("a light bulb".to_string()),
        submodels: vec![
            Submodel {
                id: "urn:aas:home:power".to_string(),
                id_short: "PowerAndElectrical".to_string(),
                elements: vec![collection(
                    "CurrentPowerDraw",
                    vec![reference("DataSource", "urn:aas:home:datasources#SensorPower")],
                )],
            },
            Submodel {
                id: "urn:aas:home:datasources".to_string(),
                id_short: "IoTDataSources".to_string(),
                elements: vec![collection(
                    "Sensors",
                    vec![collection("SensorPower", vec![string_property("SensorID", "sensor-A")])],
                )],
            },
        ],
    }
}

fn empty_args() -> serde_json::Value {
    serde_json::Value::Object(serde_json::Map::new())
}

fn deliver(runner: &mut TwinRunner, receiver: &NetworkReceiver<usize>, msg: WireMessage) -> usize {
    let routing = receiver.route(msg);
    let mut sent = 0;
    for d in routing.deliveries {
        if d.target == runner.id() {
            runner.handle(d.message);
            sent += 1;
        }
    }
    sent
}

fn started_light() -> (TwinRunner, NetworkReceiver<usize>) {
    let catalog = ModelCatalog::standard();
    let mut runner = match TwinRunner::new(light_shell("urn:aas:home:light:T"), &catalog) {
        Ok(r) => r,
        Err(_) => panic!("light twin must build"),
    };
    let mut receiver: NetworkReceiver<usize> =
        NetworkReceiver::new(NetworkOptions::new("localhost".to_string(), None));
    receiver.handle(NetworkMessage::Register(runner.id(), 1));
    let outcome = runner.init();
    assert!(outcome.unbound.is_empty());
    let sensors = outcome.subscriptions;
    assert_eq!(sensors, vec!["sensor-A".to_string()]);
    receiver.handle(NetworkMessage::Subscribe(runner.id(), sensors));
    (runner, receiver)
}

#[test]
fn update_reaches_subscribed_twin() {
    let (mut runner, receiver) = started_light();
    assert_eq!(runner.slot_for("sensor-A"), Some(&"CurrentPowerDraw".to_string()));
    let msg = WireMessage {
        update: Some(Update { object: "sensor-A".to_string(), value: 700 }),
        command: None,
    };
    assert_eq!(deliver(&mut runner, &receiver, msg), 1);
    assert_eq!(runner.actor().state(), "On");
}

#[test]
fn command_reaches_target_and_unknown_target_is_dropped() {
    let (mut runner, receiver) = started_light();
    let on = WireMessage {
        update: Some(Update { object: "sensor-A".to_string(), value: 700 }),
        command: None,
    };
    deliver(&mut runner, &receiver, on);
    assert_eq!(runner.actor().state(), "On");
    let off = WireMessage {
        update: None,
        command: Some(Command {
            target: "urn:aas:home:light:T".to_string(),
            command: "SwitchOff".to_string(),
            args: empty_args(),
        }),
    };
    assert_eq!(deliver(&mut runner, &receiver, off), 1);
    assert_eq!(runner.actor().state(), "Off");

    let unknown = WireMessage {
        update: None,
        command: Some(Command {
            target: "unknown".to_string(),
            command: "SwitchOn".to_string(),
            args: empty_args(),
        }),
    };
    let routing = receiver.route(unknown);
    assert!(routing.deliveries.is_empty());
    assert_eq!(routing.dropped, vec!["unknown".to_string()]);
    assert_eq!(runner.actor().state(), "Off");
}

#[test]
fn update_without_subscribers_sends_nothing() {
    let (_, receiver) = started_light();
    let msg = WireMessage {
        update: Some(Update { object: "sensor-B".to_string(), value: 700 }),
        command: None,
    };
    let routing = receiver.route(msg);
    assert!(routing.deliveries.is_empty());
    assert!(routing.dropped.is_empty());
}

#[test]
fn update_skips_subscribers_without_inbox() {
    let mut receiver: NetworkReceiver<usize> =
        NetworkReceiver::new(NetworkOptions::new("b".to_string(), Some("t".to_string())));
    receiver.handle(NetworkMessage::Register("a1".to_string(), 1));
    receiver.handle(NetworkMessage::Subscribe("a1".to_string(), vec!["d".to_string()]));
    receiver.handle(NetworkMessage::Subscribe("a2".to_string(), vec!["d".to_string(), "e".to_string()]));
    receiver.handle(NetworkMessage::Subscribe("a1".to_string(), vec!["d".to_string()]));
    let msg = WireMessage {
        update: Some(Update { object: "d".to_string(), value: 42 }),
        command: None,
    };
    let routing = receiver.route(msg);
    let targets: Vec<String> = routing.deliveries.iter().map(|d| d.target.clone()).collect();
    assert_eq!(targets, vec!["a1".to_string(), "a1".to_string()]);
    assert_eq!(routing.dropped, vec!["a2".to_string()]);
    match &routing.deliveries[0].message {
        ActorMessage::InputChange(device, value) => {
            assert_eq!(device, "d");
            assert_eq!(*value, 42);
        }
        ActorMessage::Command(_, _) => panic!("expected an input change"),
    }
    assert_eq!(receiver.channel("a1"), Some(&1));
    assert_eq!(receiver.channel("a2"), None);
}

#[test]
fn register_overwrites_inbox() {
    let mut receiver: NetworkReceiver<usize> =
        NetworkReceiver::new(NetworkOptions::new("b".to_string(), None));
    receiver.handle(NetworkMessage::Register("a".to_string(), 1));
    receiver.handle(NetworkMessage::Register("a".to_string(), 2));
    assert_eq!(receiver.channel("a"), Some(&2));
}

#[test]
fn options_default_topic() {
    let options = NetworkOptions::new("localhost".to_string(), None);
    assert_eq!(options.broker, "localhost");
    assert_eq!(options.topic, "twins/updates");
    let options = NetworkOptions::new("h".to_string(), Some("x/y".to_string()));
    assert_eq!(options.topic, "x/y");
}

#[test]
fn registration_reaches_manager_and_receiver() {
    let mut manager: Manager<usize> = Manager::new();
    let mut receiver: NetworkReceiver<usize> =
        NetworkReceiver::new(NetworkOptions::new("b".to_string(), None));
    assert!(manager.handle(ManagerMessage::Initialize));
    assert!(!manager.handle(ManagerMessage::Register("urn:a:b:light:1".to_string(), 7)));
    receiver.handle(NetworkMessage::Register("urn:a:b:light:1".to_string(), 7));
    receiver.handle(NetworkMessage::Subscribe("urn:a:b:light:1".to_string(), vec!["s".to_string()]));
    assert_eq!(manager.actor("urn:a:b:light:1"), Some(&7));
    assert_eq!(receiver.channel("urn:a:b:light:1"), Some(&7));
    assert_eq!(manager.actor("other"), None);
}

#[test]
fn unknown_device_is_dropped_by_runner() {
    let (mut runner, _) = started_light();
    assert!(!runner.handle(ActorMessage::InputChange("sensor-Z".to_string(), 900)));
    assert_eq!(runner.actor().state(), "Off");
    assert!(runner.handle(ActorMessage::InputChange("sensor-A".to_string(), 900)));
    assert_eq!(runner.actor().state(), "On");
    assert!(runner.handle(ActorMessage::Command("Bogus".to_string(), empty_args())));
    assert_eq!(runner.actor().state(), "On");
}

#[test]
fn twin_kinds() {
    let catalog = ModelCatalog::standard();
    match TwinRunner::new(light_shell("urn:aas:home:charging-station:cs1"), &catalog) {
        Ok(r) => {
            assert_eq!(r.actor().model_name(), "ChargingStation");
            assert_eq!(r.actor().state(), "Idle");
            assert_eq!(r.slots().len(), 2);
        }
        Err(_) => panic!("charging station must build"),
    }
    match TwinRunner::new(light_shell("urn:aas:home:ev:car1"), &catalog) {
        Err(TwinError::UnknownKind(kind)) => assert_eq!(kind, "ev"),
        _ => panic!("ev has no model"),
    }
    match TwinRunner::new(light_shell("urn:aas:home"), &catalog) {
        Err(TwinError::MissingKind(id)) => assert_eq!(id, "urn:aas:home"),
        _ => panic!("no kind segment"),
    }
}

#[test]
fn registered_kind_builds() {
    let mut catalog = ModelCatalog::standard();
    catalog.register("ev".to_string(), digitaltwin::LightBulb::model());
    match TwinRunner::new(light_shell("urn:aas:home:ev:car1"), &catalog) {
        Ok(r) => assert_eq!(r.actor().model_name(), "LightBulb"),
        Err(_) => panic!("ev is registered"),
    }
}

#[test]
fn segments_of_ids() {
    assert_eq!(
        split_segments("urn:aas:home:light:x"),
        vec!["urn", "aas", "home", "light", "x"].into_iter().map(String::from).collect::<Vec<_>>()
    );
    assert_eq!(split_segments(""), vec![String::new()]);
    assert_eq!(split_segments("a::"), vec!["a".to_string(), String::new(), String::new()]);
}

#[test]
fn duplicates_are_flagged_after_first() {
    let ids = vec!["a".to_string(), "b".to_string(), "a".to_string(), "a".to_string(), "c".to_string()];
    assert_eq!(find_duplicates(&ids), vec![false, false, true, true, false]);
    assert!(find_duplicates(&Vec::new()).is_empty());
}

#[test]
fn init_without_bindings() {
    let catalog = ModelCatalog::standard();
    let shell = AssetAdministrationShell {
        id: "urn:x:y:light:z".to_string(),
        id_short: "z".to_string(),
        description: None,
        submodels: vec![],
    };
    let mut runner = match TwinRunner::new(shell, &catalog) {
        Ok(r) => r,
        Err(_) => panic!("light twin must build"),
    };
    let outcome = runner.init();
    assert!(outcome.subscriptions.is_empty());
    assert_eq!(outcome.unbound, vec!["CurrentPowerDraw".to_string()]);
    assert_eq!(runner.slot_for("anything"), None);
}

#[test]
fn error_messages() {
    assert_eq!(digitaltwin::Error::IoError("disk".to_string()).message(), "disk");
    assert_eq!(
        digitaltwin::Error::GenericError("bad yaml".to_string()).message(),
        "generic error: bad yaml"
    );
}
