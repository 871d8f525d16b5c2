use sovd2uds_adapter::error::Sovd2UdsError;
use sovd2uds_adapter::models::ActuatorControlRequest;
use sovd2uds_adapter::session::UdsOperation;
use sovd2uds_adapter::translator::{get_routine_id, SovdUdsTranslator};
use sovd2uds_adapter::value::SovdValue;

#[test]
fn default_catalogue_dids() {
    let t = SovdUdsTranslator::new();
    assert_eq!(t.get_did("vin"), Some(0xF190));
    assert_eq!(t.get_did("ecu_serial_number"), Some(0xF18C));
    assert_eq!(t.get_did("ecu_hardware_version"), Some(0xF191));
    assert_eq!(t.get_did("ecu_software_version"), Some(0xF194));
    assert_eq!(t.get_did("manufacturing_date"), Some(0xF18B));
    assert_eq!(t.get_did("system_supplier_id"), Some(0xF18A));
    assert_eq!(t.get_did("odometer"), None);
}

#[test]
fn added_mapping_is_found_and_replaces() {
    let mut t = SovdUdsTranslator::new();
    t.add_did_mapping("odometer".to_string(), 0x0100);
    assert_eq!(t.get_did("odometer"), Some(0x0100));
    t.add_did_mapping("vin".to_string(), 0x1234);
    assert_eq!(t.get_did("vin"), Some(0x1234));
    assert_eq!(t.get_component_data_items(None).len(), 7);
}

#[test]
fn list_all_items() {
    let t = SovdUdsTranslator::new();
    let items = t.get_component_data_items(None);
    let ids: Vec<&str> = items.iter().map(|i| i.id.as_str()).collect();
    assert_eq!(ids, vec!["vin", "ecu_serial_number", "ecu_hardware_version", "ecu_software_version", "manufacturing_date", "system_supplier_id"]);
    assert_eq!(items[0].name, "Vehicle Identification Number");
    assert_eq!(items[0].category, "identData");
    assert_eq!(items[0].data_type.as_deref(), Some("string"));
}

#[test]
fn list_items_by_category() {
    let t = SovdUdsTranslator::new();
    let cats = vec!["identData".to_string()];
    assert_eq!(t.get_component_data_items(Some(&cats)).len(), 6);
    let cats = vec!["nothing".to_string()];
    assert!(t.get_component_data_items(Some(&cats)).is_empty());
    let cats = vec!["identData".to_string(), "nothing".to_string(), "identData".to_string()];
    let items = t.get_component_data_items(Some(&cats));
    assert_eq!(items.len(), 6);
    assert_eq!(items[0].id, "vin");
    assert_eq!(items[5].id, "system_supplier_id");
    let cats: Vec<String> = vec![];
    assert_eq!(t.get_component_data_items(Some(&cats)).len(), 6);
}

#[test]
fn unknown_item_description() {
    let t = SovdUdsTranslator::new();
    let item = t.create_data_item("odometer");
    assert_eq!(item.id, "odometer");
    assert_eq!(item.name, "odometer");
    assert_eq!(item.category, "unknown");
    assert_eq!(item.data_type.as_deref(), Some("string"));
    assert_eq!(item.description.as_deref(), Some("Unknown data item"));
}

#[test]
fn components_are_listed() {
    let t = SovdUdsTranslator::new();
    let c = t.get_components();
    let ids: Vec<&str> = c.iter().map(|c| c.id.as_str()).collect();
    assert_eq!(ids, vec!["engine", "transmission", "abs", "airbag"]);
    assert_eq!(c[2].name, "ABS Control Unit");
    assert_eq!(c[3].description.as_deref(), Some("Airbag and restraint system"));
}

#[test]
fn routine_ids() {
    assert_eq!(get_routine_id("fuel_pump").unwrap(), 0x0201);
    assert_eq!(get_routine_id("cooling_fan").unwrap(), 0x0202);
    assert_eq!(get_routine_id("throttle").unwrap(), 0x0203);
    match get_routine_id("wiper") {
        Err(Sovd2UdsError::InvalidRequest(m)) => assert_eq!(m, "Unknown actuator: wiper"),
        other => panic!("unexpected {:?}", other),
    }
}

fn actuator(id: &str, action: &str, value: Option<SovdValue>) -> ActuatorControlRequest {
    ActuatorControlRequest { actuator_id: id.to_string(), action: action.to_string(), value, duration: None }
}

#[test]
fn actuator_start_with_value() {
    let t = SovdUdsTranslator::new();
    let req = actuator("fuel_pump", "start", Some(SovdValue::UInt(300)));
    match t.plan_control_actuator(&req).unwrap() {
        UdsOperation::RoutineControl(ty, id, params) => {
            assert_eq!((ty, id), (0x01, 0x0201));
            assert_eq!(params, vec![0x01, 0x2C]);
        }
        other => panic!("unexpected {:?}", other),
    }
    let resp = t.finish_control_actuator(&req);
    assert_eq!(resp.status, "success");
    assert_eq!(resp.message.as_deref(), Some("Actuator fuel_pump start successfully"));
    assert!(matches!(resp.value, Some(SovdValue::UInt(300))));
}

#[test]
fn actuator_stop_without_value() {
    let t = SovdUdsTranslator::new();
    match t.plan_control_actuator(&actuator("throttle", "stop", None)).unwrap() {
        UdsOperation::RoutineControl(ty, id, params) => {
            assert_eq!((ty, id), (0x02, 0x0203));
            assert!(params.is_empty());
        }
        other => panic!("unexpected {:?}", other),
    }
}

#[test]
fn actuator_errors() {
    let t = SovdUdsTranslator::new();
    match t.plan_control_actuator(&actuator("fuel_pump", "pause", None)) {
        Err(Sovd2UdsError::InvalidRequest(m)) => assert_eq!(m, "Unknown actuator action: pause"),
        other => panic!("unexpected {:?}", other),
    }
    assert!(matches!(
        t.plan_control_actuator(&actuator("wiper", "start", None)),
        Err(Sovd2UdsError::InvalidRequest(_))
    ));
    assert!(matches!(
        t.plan_control_actuator(&actuator("fuel_pump", "start", Some(SovdValue::Structured))),
        Err(Sovd2UdsError::InvalidRequest(_))
    ));
}

#[test]
fn default_translator_matches_new() {
    let t = SovdUdsTranslator::default();
    assert_eq!(t.get_did("manufacturing_date"), Some(0xF18B));
    assert_eq!(t.get_component_data_items(None).len(), 6);
}
