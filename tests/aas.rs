use digitaltwin::{
    AssetAdministrationShell, Property, PropertyValue, ReferenceElement, Submodel,
    SubmodelCollection, SubmodelElement, ValueType,
};

fn shell(submodels: Vec<Submodel>) -> AssetAdministrationShell {
    AssetAdministrationShell {
        id: "urn:aas:example".to_string(),
        id_short: "ExampleAAS".to_string(),
        description: None,
        submodels,
    }
}

fn submodel(id: &str, id_short: &str, elements: Vec<SubmodelElement>) -> Submodel {
    Submodel { id: id.to_string(), id_short: id_short.to_string(), elements }
}

fn collection(id_short: &str, value: Vec<SubmodelElement>) -> SubmodelElement {
    SubmodelElement::Collection(SubmodelCollection { id_short: id_short.to_string(), value })
}

fn reference(id_short: &str, value: &str) -> SubmodelElement {
    SubmodelElement::ReferenceElement(ReferenceElement {
        id_short: id_short.to_string(),
        value: value.to_string(),
    })
}

fn string_property(id_short: &str, value: &str) -> SubmodelElement {
    SubmodelElement::Property(Property {
        id_short: id_short.to_string(),
        value_type: ValueType::String,
        value: PropertyValue::Str(value.to_string()),
    })
}

#[test]
fn test_find_reference_value_in_collection() {
    let aas = shell(vec![submodel(
        "urn:aas:example:submodel1",
        "Submodel1",
        vec![collection("Collection1", vec![reference("Ref1", "http://example.com/resource")])],
    )]);
    let result = aas.find_reference_value_in_collection("Submodel1", "Collection1", "Ref1");
    assert_eq!(result, Some("http://example.com/resource".to_string()));
}

#[test]
fn test_find_all_sensor_ids_in_datasources() {
    let aas = shell(vec![submodel(
        "urn:aas:example:submodel1",
        "IoTDataSources",
        vec![collection(
            "Sensors",
            vec![
                string_property("SensorID", "Sensor123"),
                collection("NestedCollection", vec![string_property("SensorID", "Sensor456")]),
            ],
        )],
    )]);
    let sensor_ids = aas.find_elements_in_collection("IoTDataSources", "Sensors", "SensorID");
    assert_eq!(sensor_ids, vec!["Sensor123".to_string(), "Sensor456".to_string()]);
}

#[test]
fn test_resolve_sensor_reference() {
    let aas = shell(vec![submodel(
        "urn:aas:example:submodel1",
        "urn:aas:example:submodel1",
        vec![collection(
            "SensorPowerAbsorption",
            vec![string_property("SensorID", "urn:iot-sensor:powerAbs123")],
        )],
    )]);
    let sensor_id = aas.resolve_sensor_reference("urn:aas:example:submodel1#SensorPowerAbsorption");
    assert_eq!(sensor_id, Some("urn:iot-sensor:powerAbs123".to_string()));
}

#[test]
fn test_find_collection_by_id_short() {
    let aas = shell(vec![submodel(
        "urn:aas:example:submodel1",
        "Submodel1",
        vec![collection("ParentCollection", vec![collection("TargetCollection", vec![])])],
    )]);
    let submodel = aas.submodels.iter().find(|s| s.id_short == "Submodel1").unwrap();
    let parent_collection = submodel
        .elements
        .iter()
        .find_map(|elem| {
            if let SubmodelElement::Collection(c) = elem {
                Some(c)
            } else {
                None
            }
        })
        .unwrap();
    let target_collection =
        AssetAdministrationShell::find_collection_by_id_short(parent_collection, "TargetCollection");
    assert!(target_collection.is_some());
    assert_eq!(target_collection.unwrap().id_short, "TargetCollection");
}

#[test]
fn resolve_reference_round_trip_finds_nested_collection() {
    let aas = shell(vec![
        submodel("urn:other", "Other", vec![]),
        submodel(
            "urn:aas:home:datasources",
            "DataSources",
            vec![
                reference("Ignored", "x"),
                collection(
                    "Group",
                    vec![collection(
                        "SensorPower",
                        vec![
                            reference("SensorID", "not-a-property"),
                            string_property("SensorID", "urn:sensor:first"),
                            string_property("SensorID", "urn:sensor:second"),
                        ],
                    )],
                ),
            ],
        ),
    ]);
    let reference = format!("{}#{}", "urn:aas:home:datasources", "SensorPower");
    assert_eq!(aas.resolve_sensor_reference(&reference), Some("urn:sensor:first".to_string()));
}

#[test]
fn resolve_reference_rejects_bad_shapes() {
    let aas = shell(vec![submodel(
        "urn:s",
        "S",
        vec![collection("C", vec![string_property("SensorID", "id")])],
    )]);
    assert_eq!(aas.resolve_sensor_reference("urn:s#C"), Some("id".to_string()));
    assert_eq!(aas.resolve_sensor_reference("urn:sC"), None);
    assert_eq!(aas.resolve_sensor_reference("urn:s#C#C"), None);
    assert_eq!(aas.resolve_sensor_reference("urn:x#C"), None);
    assert_eq!(aas.resolve_sensor_reference("S#C"), None);
    assert_eq!(aas.resolve_sensor_reference("urn:s#D"), None);
}

#[test]
fn resolve_reference_needs_string_sensor_id() {
    let aas = shell(vec![submodel(
        "urn:s",
        "S",
        vec![collection(
            "C",
            vec![SubmodelElement::Property(Property {
                id_short: "SensorID".to_string(),
                value_type: ValueType::Int,
                value: PropertyValue::Int(7),
            })],
        )],
    )]);
    assert_eq!(aas.resolve_sensor_reference("urn:s#C"), None);
}

#[test]
fn find_reference_value_missing_steps() {
    let aas = shell(vec![submodel(
        "urn:s",
        "S",
        vec![
            reference("C", "not-a-collection"),
            collection("C", vec![string_property("Ref", "prop"), reference("Ref", "first")]),
            collection("C", vec![reference("Ref", "second")]),
        ],
    )]);
    assert_eq!(aas.find_reference_value_in_collection("S", "C", "Ref"), Some("first".to_string()));
    assert_eq!(aas.find_reference_value_in_collection("X", "C", "Ref"), None);
    assert_eq!(aas.find_reference_value_in_collection("S", "D", "Ref"), None);
    assert_eq!(aas.find_reference_value_in_collection("S", "C", "Other"), None);
}

#[test]
fn find_elements_missing_collection_is_empty() {
    let aas = shell(vec![submodel("urn:s", "IoTDataSources", vec![])]);
    assert!(aas.find_elements_in_collection("IoTDataSources", "Sensors", "SensorID").is_empty());
    assert!(aas.find_elements_in_collection("Nope", "Sensors", "SensorID").is_empty());
}
