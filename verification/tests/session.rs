use bluerepl::adapter::{select_adapter, validate_adapter_index, AdapterSelection};
use bluerepl::controller::{BtleplugController, SubscriptionMode};
use bluerepl::error::BleError;
use bluerepl::flags::{
    normalize_properties, NativeProperties, PROP_INDICATE, PROP_NOTIFY, PROP_READ, PROP_UNKNOWN,
    PROP_WRITE, PROP_WRITE_WITHOUT_RESPONSE,
};
use bluerepl::model::{
    identity_from_platform, CharacteristicSnapshot, ConnectRequest, PeripheralIdentity,
    PeripheralSnapshot, ServiceSnapshot, COMPANY_ID_NONE,
};

fn native(
    read: bool,
    write: bool,
    write_without_response: bool,
    notify: bool,
    indicate: bool,
) -> NativeProperties {
    NativeProperties { read, write, write_without_response, notify, indicate }
}

fn plain_peripheral(name: &str, address: &str, rssi: i16) -> PeripheralSnapshot {
    PeripheralSnapshot {
        name: Some(name.to_string()),
        identity: PeripheralIdentity::Address(address.to_string()),
        rssi: Some(rssi),
        company_id: None,
        connected: false,
        services: Vec::new(),
    }
}

fn connected_with_char(address: &str, service_uuid: &str, char_uuid: &str) -> PeripheralSnapshot {
    PeripheralSnapshot {
        name: Some("device".to_string()),
        identity: PeripheralIdentity::Address(address.to_string()),
        rssi: Some(-50),
        company_id: None,
        connected: true,
        services: vec![ServiceSnapshot {
            uuid: service_uuid.to_string(),
            characteristics: vec![CharacteristicSnapshot {
                uuid: char_uuid.to_string(),
                native: native(true, true, false, false, false),
            }],
        }],
    }
}

fn request_by_address(address: &str) -> ConnectRequest {
    ConnectRequest {
        name: None,
        address_or_uuid: Some(address.to_string()),
        scan_index: None,
    }
}

#[test]
fn no_adapter_is_fatal() {
    assert!(matches!(select_adapter(0), Err(BleError::AdapterUnavailable)));
}

#[test]
fn single_adapter_auto_selected_without_prompt() {
    assert!(matches!(select_adapter(1), Ok(AdapterSelection::Chosen(0))));
}

#[test]
fn several_adapters_require_a_prompt() {
    assert!(matches!(select_adapter(3), Ok(AdapterSelection::PromptRequired)));
}

#[test]
fn adapter_choice_must_be_in_range() {
    assert!(validate_adapter_index(3, 0));
    assert!(validate_adapter_index(3, 2));
    assert!(!validate_adapter_index(3, 3));
    assert!(!validate_adapter_index(0, 0));
}

#[test]
fn new_session_starts_disconnected() {
    let ctrl = BtleplugController::new("hci0 (usb:v1D6Bp0246)".to_string());
    assert!(!ctrl.is_connected());
    assert_eq!(ctrl.get_scan_list().len(), 0);
    assert_eq!(ctrl.get_adapter_infos(), "hci0 (usb:v1D6Bp0246)".to_string());
}

#[test]
fn scan_of_three_observations_yields_indices_zero_one_two() {
    let mut ctrl = BtleplugController::new("hci0".to_string());
    let observed = vec![
        plain_peripheral("alpha", "AA:AA:AA:AA:AA:01", -40),
        plain_peripheral("beta", "AA:AA:AA:AA:AA:02", -55),
        plain_peripheral("gamma", "AA:AA:AA:AA:AA:03", -70),
    ];
    ctrl.scan(&observed);
    let table = ctrl.get_scan_list();
    assert_eq!(table.len(), 3);
    for (position, entry) in table.iter().enumerate() {
        assert_eq!(entry.id, position);
    }
    assert_eq!(table[0].name, "alpha".to_string());
    assert_eq!(table[1].address_uuid, "AA:AA:AA:AA:AA:02".to_string());
    assert_eq!(table[2].rssi, -70);
}

#[test]
fn scan_applies_fallbacks_for_missing_data() {
    let mut ctrl = BtleplugController::new("hci0".to_string());
    let observed = vec![PeripheralSnapshot {
        name: None,
        identity: PeripheralIdentity::OpaqueId("4f2a".to_string()),
        rssi: None,
        company_id: None,
        connected: false,
        services: Vec::new(),
    }];
    ctrl.scan(&observed);
    let table = ctrl.get_scan_list();
    assert_eq!(table.len(), 1);
    assert_eq!(table[0].name, "unknown".to_string());
    assert_eq!(table[0].address_uuid, "4f2a".to_string());
    assert_eq!(table[0].rssi, 0);
    assert_eq!(table[0].company_id, COMPANY_ID_NONE);
}

#[test]
fn scan_records_company_code() {
    let mut ctrl = BtleplugController::new("hci0".to_string());
    let mut p = plain_peripheral("tag", "AA:AA:AA:AA:AA:09", -61);
    p.company_id = Some(76);
    ctrl.scan(&vec![p]);
    assert_eq!(ctrl.get_scan_list()[0].company_id, 76);
}

#[test]
fn rescan_replaces_the_whole_table() {
    let mut ctrl = BtleplugController::new("hci0".to_string());
    ctrl.scan(&vec![
        plain_peripheral("alpha", "AA:AA:AA:AA:AA:01", -40),
        plain_peripheral("beta", "AA:AA:AA:AA:AA:02", -55),
    ]);
    assert_eq!(ctrl.get_scan_list().len(), 2);
    ctrl.scan(&vec![plain_peripheral("gamma", "AA:AA:AA:AA:AA:03", -70)]);
    let table = ctrl.get_scan_list();
    assert_eq!(table.len(), 1);
    assert_eq!(table[0].name, "gamma".to_string());
    assert_eq!(table[0].id, 0);
}

#[test]
fn identity_keeps_the_platform_form_apart() {
    let opaque = identity_from_platform(true, "4f2a".to_string(), "AA:BB".to_string());
    assert!(matches!(opaque, PeripheralIdentity::OpaqueId(_)));
    assert_eq!(opaque.id_string(), "4f2a".to_string());
    let addressed = identity_from_platform(false, "4f2a".to_string(), "AA:BB".to_string());
    assert!(matches!(addressed, PeripheralIdentity::Address(_)));
    assert_eq!(addressed.id_string(), "AA:BB".to_string());
}

#[test]
fn connect_by_address_matching_scan_entry_two_sets_connected() {
    let mut ctrl = BtleplugController::new("hci0".to_string());
    let visible = vec![
        plain_peripheral("alpha", "AA:AA:AA:AA:AA:01", -40),
        plain_peripheral("beta", "AA:AA:AA:AA:AA:02", -55),
        plain_peripheral("gamma", "AA:BB:CC:DD:EE:FF", -70),
    ];
    ctrl.scan(&visible);
    let target = ctrl
        .connect_target(request_by_address("AA:BB:CC:DD:EE:FF"), &visible)
        .unwrap();
    assert_eq!(target, 2);
    assert!(!ctrl.is_connected());
    ctrl.complete_connect(Ok(())).unwrap();
    assert!(ctrl.is_connected());
}

#[test]
fn connect_by_name_picks_first_match() {
    let ctrl = BtleplugController::new("hci0".to_string());
    let visible = vec![
        plain_peripheral("alpha", "AA:AA:AA:AA:AA:01", -40),
        plain_peripheral("twin", "AA:AA:AA:AA:AA:02", -55),
        plain_peripheral("twin", "AA:AA:AA:AA:AA:03", -60),
    ];
    let req = ConnectRequest {
        name: Some("twin".to_string()),
        address_or_uuid: None,
        scan_index: None,
    };
    assert_eq!(ctrl.connect_target(req, &visible).unwrap(), 1);
}

#[test]
fn connect_by_scan_index_goes_through_the_table() {
    let mut ctrl = BtleplugController::new("hci0".to_string());
    let visible = vec![
        plain_peripheral("alpha", "AA:AA:AA:AA:AA:01", -40),
        plain_peripheral("beta", "AA:AA:AA:AA:AA:02", -55),
    ];
    ctrl.scan(&visible);
    let req = ConnectRequest { name: None, address_or_uuid: None, scan_index: Some(1) };
    assert_eq!(ctrl.connect_target(req, &visible).unwrap(), 1);
}

#[test]
fn connect_with_unknown_identifier_fails() {
    let ctrl = BtleplugController::new("hci0".to_string());
    let visible = vec![plain_peripheral("alpha", "AA:AA:AA:AA:AA:01", -40)];
    let r = ctrl.connect_target(request_by_address("00:00:00:00:00:00"), &visible);
    assert!(matches!(r, Err(BleError::PeripheralNotFound(_))));
}

#[test]
fn connect_with_no_identifier_kind_fails() {
    let ctrl = BtleplugController::new("hci0".to_string());
    let visible = vec![plain_peripheral("alpha", "AA:AA:AA:AA:AA:01", -40)];
    let req = ConnectRequest { name: None, address_or_uuid: None, scan_index: None };
    assert!(matches!(ctrl.connect_target(req, &visible), Err(BleError::PeripheralNotFound(_))));
}

#[test]
fn connect_with_two_identifier_kinds_fails() {
    let ctrl = BtleplugController::new("hci0".to_string());
    let visible = vec![plain_peripheral("alpha", "AA:AA:AA:AA:AA:01", -40)];
    let req = ConnectRequest {
        name: Some("alpha".to_string()),
        address_or_uuid: Some("AA:AA:AA:AA:AA:01".to_string()),
        scan_index: None,
    };
    assert!(matches!(ctrl.connect_target(req, &visible), Err(BleError::PeripheralNotFound(_))));
}

#[test]
fn rejected_hardware_connect_leaves_the_session_disconnected() {
    let mut ctrl = BtleplugController::new("hci0".to_string());
    let r = ctrl.complete_connect(Err("le-connection-abort-by-local".to_string()));
    match r {
        Err(BleError::ConnectFailure(reason)) => {
            assert_eq!(reason, "le-connection-abort-by-local".to_string());
        }
        other => panic!("expected a connect failure, got {:?}", other),
    }
    assert!(!ctrl.is_connected());
}

#[test]
fn disconnect_clears_the_flag_and_names_the_first_connected() {
    let mut ctrl = BtleplugController::new("hci0".to_string());
    ctrl.complete_connect(Ok(())).unwrap();
    assert!(ctrl.is_connected());
    let visible = vec![
        plain_peripheral("alpha", "AA:AA:AA:AA:AA:01", -40),
        connected_with_char("AA:AA:AA:AA:AA:02", "180f", "2a19"),
    ];
    assert_eq!(ctrl.disconnect(&visible), Some(1));
    assert!(!ctrl.is_connected());
}

#[test]
fn disconnect_with_nothing_connected_is_a_no_op() {
    let mut ctrl = BtleplugController::new("hci0".to_string());
    let visible = vec![plain_peripheral("alpha", "AA:AA:AA:AA:AA:01", -40)];
    assert_eq!(ctrl.disconnect(&visible), None);
    assert!(!ctrl.is_connected());
}

#[test]
fn write_with_no_connected_peripheral_names_the_uuid() {
    let ctrl = BtleplugController::new("hci0".to_string());
    let visible = vec![plain_peripheral("alpha", "AA:AA:AA:AA:AA:01", -40)];
    let r = ctrl.write(&"1234".to_string(), &vec![0x01], false, &visible);
    match r {
        Err(BleError::CharacteristicNotFound(uuid)) => assert_eq!(uuid, "1234".to_string()),
        other => panic!("expected characteristic-not-found, got {:?}", other),
    }
}

#[test]
fn write_with_one_match_plans_exactly_one_io() {
    let ctrl = BtleplugController::new("hci0".to_string());
    let visible = vec![
        plain_peripheral("alpha", "AA:AA:AA:AA:AA:01", -40),
        connected_with_char("AA:AA:AA:AA:AA:02", "180f", "2a19"),
    ];
    let cmds = ctrl.write(&"2a19".to_string(), &vec![0x01, 0x02], true, &visible).unwrap();
    assert_eq!(cmds.len(), 1);
    assert_eq!(cmds[0].target.peripheral, 1);
    assert_eq!(cmds[0].target.service, 0);
    assert_eq!(cmds[0].target.characteristic, 0);
    assert_eq!(cmds[0].payload, vec![0x01, 0x02]);
    assert!(cmds[0].with_response);
}

#[test]
fn write_runs_once_per_matching_connected_peripheral() {
    let ctrl = BtleplugController::new("hci0".to_string());
    let visible = vec![
        connected_with_char("AA:AA:AA:AA:AA:01", "180f", "2a19"),
        plain_peripheral("bystander", "AA:AA:AA:AA:AA:02", -55),
        connected_with_char("AA:AA:AA:AA:AA:03", "180f", "2a19"),
    ];
    let cmds = ctrl.write(&"2a19".to_string(), &vec![0xff], false, &visible).unwrap();
    assert_eq!(cmds.len(), 2);
    assert_eq!(cmds[0].target.peripheral, 0);
    assert_eq!(cmds[1].target.peripheral, 2);
    assert!(!cmds[0].with_response);
}

#[test]
fn connected_peripheral_without_the_uuid_still_fails() {
    let ctrl = BtleplugController::new("hci0".to_string());
    let visible = vec![connected_with_char("AA:AA:AA:AA:AA:01", "180f", "2a19")];
    let r = ctrl.write(&"1234".to_string(), &vec![0x01], false, &visible);
    match r {
        Err(BleError::CharacteristicNotFound(uuid)) => assert_eq!(uuid, "1234".to_string()),
        other => panic!("expected characteristic-not-found, got {:?}", other),
    }
}

#[test]
fn read_mirrors_write_resolution() {
    let ctrl = BtleplugController::new("hci0".to_string());
    let visible = vec![
        connected_with_char("AA:AA:AA:AA:AA:01", "180f", "2a19"),
        connected_with_char("AA:AA:AA:AA:AA:02", "180f", "2a19"),
    ];
    let targets = ctrl.read(&"2a19".to_string(), &visible).unwrap();
    assert_eq!(targets.len(), 2);
    assert_eq!(targets[0].peripheral, 0);
    assert_eq!(targets[1].peripheral, 1);
    let missing = ctrl.read(&"2a20".to_string(), &visible);
    assert!(matches!(missing, Err(BleError::CharacteristicNotFound(_))));
}

#[test]
fn capability_flags_accumulate_independently() {
    let both = normalize_properties(&native(true, false, false, true, false));
    assert!(both.contains(PROP_READ));
    assert!(both.contains(PROP_NOTIFY));
    assert!(!both.contains(PROP_WRITE));
    assert!(!both.contains(PROP_WRITE_WITHOUT_RESPONSE));
    assert!(!both.contains(PROP_INDICATE));
    assert!(!both.is_unknown());
}

#[test]
fn capability_flags_cover_every_bit() {
    let all = normalize_properties(&native(true, true, true, true, true));
    assert!(all.contains(PROP_READ));
    assert!(all.contains(PROP_WRITE));
    assert!(all.contains(PROP_WRITE_WITHOUT_RESPONSE));
    assert!(all.contains(PROP_NOTIFY));
    assert!(all.contains(PROP_INDICATE));
    let none = normalize_properties(&native(false, false, false, false, false));
    assert!(none.is_unknown());
    assert_eq!(none.bits, PROP_UNKNOWN);
}

#[test]
fn topology_comes_back_normalized() {
    let ctrl = BtleplugController::new("hci0".to_string());
    let mut p = connected_with_char("AA:AA:AA:AA:AA:01", "180f", "2a19");
    p.services[0].characteristics.push(CharacteristicSnapshot {
        uuid: "2a20".to_string(),
        native: native(false, false, false, true, true),
    });
    let visible = vec![plain_peripheral("bystander", "AA:AA:AA:AA:AA:02", -55), p];
    let info = ctrl.get_peripheral_infos(&visible).unwrap();
    assert_eq!(info.periph_name, "device".to_string());
    assert_eq!(info.periph_mac, "AA:AA:AA:AA:AA:01".to_string());
    assert_eq!(info.rssi, -50);
    assert_eq!(info.services.len(), 1);
    assert_eq!(info.services[0].uuid, "180f".to_string());
    let chars = &info.services[0].characteristics;
    assert_eq!(chars.len(), 2);
    assert_eq!(chars[0].uuid, "2a19".to_string());
    assert!(chars[0].properties.contains(PROP_READ));
    assert!(chars[0].properties.contains(PROP_WRITE));
    assert!(!chars[0].properties.contains(PROP_NOTIFY));
    assert!(chars[1].properties.contains(PROP_NOTIFY));
    assert!(chars[1].properties.contains(PROP_INDICATE));
    assert!(!chars[1].properties.contains(PROP_READ));
}

#[test]
fn topology_without_connection_is_an_error_not_a_crash() {
    let ctrl = BtleplugController::new("hci0".to_string());
    let visible = vec![plain_peripheral("alpha", "AA:AA:AA:AA:AA:01", -40)];
    assert!(matches!(
        ctrl.get_peripheral_infos(&visible),
        Err(BleError::NoConnectedPeripheral)
    ));
    let nothing: Vec<PeripheralSnapshot> = Vec::new();
    assert!(matches!(
        ctrl.get_peripheral_infos(&nothing),
        Err(BleError::NoConnectedPeripheral)
    ));
}

#[test]
fn subscribe_registers_and_unsubscribe_clears() {
    let mut ctrl = BtleplugController::new("hci0".to_string());
    let visible = vec![connected_with_char("AA:AA:AA:AA:AA:01", "180f", "2a19")];
    let uuid = "2a19".to_string();
    assert!(!ctrl.is_subscribed(&uuid));
    let hits = ctrl.subscribe(&uuid, SubscriptionMode::Notify, &visible).unwrap();
    assert_eq!(hits.len(), 1);
    assert!(ctrl.is_subscribed(&uuid));
    ctrl.subscribe(&uuid, SubscriptionMode::Notify, &visible).unwrap();
    assert!(ctrl.is_subscribed(&uuid));
    ctrl.unsubscribe(&uuid, &visible).unwrap();
    assert!(!ctrl.is_subscribed(&uuid));
    ctrl.unsubscribe(&uuid, &visible).unwrap();
    assert!(!ctrl.is_subscribed(&uuid));
}

#[test]
fn subscribe_without_a_match_registers_nothing() {
    let mut ctrl = BtleplugController::new("hci0".to_string());
    let visible = vec![plain_peripheral("alpha", "AA:AA:AA:AA:AA:01", -40)];
    let uuid = "2a19".to_string();
    let r = ctrl.subscribe(&uuid, SubscriptionMode::Indicate, &visible);
    assert!(matches!(r, Err(BleError::CharacteristicNotFound(_))));
    assert!(!ctrl.is_subscribed(&uuid));
}
