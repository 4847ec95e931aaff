use momo_ui::bluetooth::{
    BluetoothAdapterState, BluetoothCapabilities, BluetoothConnectionState, BluetoothDevice,
    BluetoothDeviceCategory, BluetoothDeviceId, BluetoothDeviceSection, BluetoothDiscoveryState,
    BluetoothOperationId, BluetoothPowerState, BluetoothState, BluetoothSystemState,
    bluetooth_device_tag, build_bluetooth_state, has_presentable_device_name, is_device_connected,
    is_nearby_device, looks_like_hardware_identifier, sorted_nearby_devices, sorted_recent_devices,
};
use momo_ui::system_status::FeatureState;

fn bluetooth_device_with_connection_state(
    connection_state: BluetoothConnectionState,
) -> BluetoothDevice {
    BluetoothDevice {
        device_identifier: BluetoothDeviceId("device-1".to_string()),
        display_name: "Test device".to_string(),
        category: BluetoothDeviceCategory::Unknown,
        is_paired: false,
        is_trusted: false,
        connection_state,
        signal_strength_dbm: Some(-48),
        battery_percentage: None,
    }
}

fn device(
    identifier: &str,
    name: &str,
    is_paired: bool,
    connection_state: BluetoothConnectionState,
    signal_strength_dbm: Option<i16>,
) -> BluetoothDevice {
    BluetoothDevice {
        device_identifier: BluetoothDeviceId(identifier.to_string()),
        display_name: name.to_string(),
        category: BluetoothDeviceCategory::Unknown,
        is_paired,
        is_trusted: false,
        connection_state,
        signal_strength_dbm,
        battery_percentage: None,
    }
}

fn ready_bluetooth_feature_state(devices: Vec<BluetoothDevice>) -> FeatureState<BluetoothSystemState> {
    FeatureState::Ready(BluetoothSystemState {
        adapter: BluetoothAdapterState {
            adapter_identifier: "adapter-1".to_string(),
            adapter_name: Some("Adapter".to_string()),
            power_state: BluetoothPowerState::On,
            discovery_state: BluetoothDiscoveryState::Scanning,
            capabilities: BluetoothCapabilities {
                can_change_power: true,
                can_start_discovery: true,
                can_connect_devices: true,
            },
        },
        devices,
        last_error: None,
        revision: 1,
    })
}

#[test]
fn bluetooth_bluetooth_name_filter_keeps_regular_names() {
    assert!(has_presentable_device_name("Sony WH-1000XM5"));
    assert!(has_presentable_device_name("Magic Keyboard"));
}

#[test]
fn bluetooth_bluetooth_name_filter_drops_address_like_names() {
    assert!(!has_presentable_device_name("0D-48-AC-11-22-33"));
    assert!(!has_presentable_device_name("0d:48:ac:11:22:33"));
    assert!(!has_presentable_device_name("  0D-48-AC-11-22-33  "));
}

#[test]
fn tests_bluetooth_name_filter_keeps_regular_names() {
    assert!(has_presentable_device_name("Sony WH-1000XM5"));
    assert!(has_presentable_device_name("Magic Keyboard"));
}

#[test]
fn tests_bluetooth_name_filter_drops_address_like_names() {
    assert!(!has_presentable_device_name("0D-48-AC-11-22-33"));
    assert!(!has_presentable_device_name("0d:48:ac:11:22:33"));
    assert!(!has_presentable_device_name("  0D-48-AC-11-22-33  "));
}

#[test]
fn bluetooth_connection_grouping_does_not_treat_connecting_as_connected() {
    let device = bluetooth_device_with_connection_state(BluetoothConnectionState::Connecting {
        operation_id: BluetoothOperationId(7),
    });

    assert!(!is_device_connected(&device));
}

#[test]
fn bluetooth_connection_grouping_keeps_disconnecting_as_connected() {
    let device = bluetooth_device_with_connection_state(BluetoothConnectionState::Disconnecting {
        operation_id: BluetoothOperationId(7),
    });

    assert!(is_device_connected(&device));
}

#[test]
fn bluetooth_recent_devices_include_paired_disconnected_devices() {
    let mut disconnected_device =
        bluetooth_device_with_connection_state(BluetoothConnectionState::Disconnected);
    disconnected_device.is_paired = true;
    let expected_identifier = disconnected_device.device_identifier.0.clone();

    let next_state = build_bluetooth_state(&ready_bluetooth_feature_state(vec![
        disconnected_device,
    ]));

    let BluetoothDeviceSection::Ready(recent_devices) = next_state.recent_devices else {
        panic!("expected ready recent devices section");
    };
    let BluetoothDeviceSection::Ready(nearby_devices) = next_state.nearby_devices else {
        panic!("expected ready nearby devices section");
    };

    assert_eq!(recent_devices.len(), 1);
    assert_eq!(recent_devices[0].device_identifier.0, expected_identifier);
    assert!(nearby_devices.is_empty());
}

#[test]
fn name_filter_trims_unicode_white_space_and_rejects_blank_names() {
    assert!(!has_presentable_device_name(""));
    assert!(!has_presentable_device_name(" \t\n "));
    assert!(!has_presentable_device_name("\u{3000}0D:48:AC\u{00A0}"));
    assert!(has_presentable_device_name("  Kitchen speaker  "));
}

#[test]
fn hardware_identifier_needs_three_groups_of_two_hex_digits() {
    let chars = |s: &str| s.chars().collect::<Vec<char>>();
    assert!(looks_like_hardware_identifier(&chars("0D-48-AC")));
    assert!(!looks_like_hardware_identifier(&chars("0D-48")));
    assert!(!looks_like_hardware_identifier(&chars("0D-48-AG")));
    assert!(!looks_like_hardware_identifier(&chars("0D-48:AC")));
    assert!(!looks_like_hardware_identifier(&chars("0D4-8A-C1")));
    assert!(!looks_like_hardware_identifier(&chars("--")));
    assert!(looks_like_hardware_identifier(&chars("ab:cd:ef:01")));
}

#[test]
fn recent_devices_put_connected_ones_first_in_reported_order() {
    let devices = vec![
        device("a", "A", true, BluetoothConnectionState::Disconnected, None),
        device("b", "B", false, BluetoothConnectionState::Connected, Some(-40)),
        device("c", "C", false, BluetoothConnectionState::Disconnected, Some(-30)),
        device("d", "D", true, BluetoothConnectionState::Disconnecting {
            operation_id: BluetoothOperationId(1),
        }, None),
        device("e", "E", true, BluetoothConnectionState::Connecting {
            operation_id: BluetoothOperationId(2),
        }, None),
    ];
    assert_eq!(sorted_recent_devices(&devices), vec![1, 3, 0, 4]);
}

#[test]
fn nearby_devices_are_sorted_by_signal_with_ties_in_reported_order() {
    let devices = vec![
        device("a", "Speaker", false, BluetoothConnectionState::Disconnected, Some(-70)),
        device("b", "Phone", false, BluetoothConnectionState::Disconnected, Some(-40)),
        device("c", "Watch", false, BluetoothConnectionState::Disconnected, Some(-70)),
        device("d", "Paired", true, BluetoothConnectionState::Disconnected, Some(-10)),
        device("e", "No signal", false, BluetoothConnectionState::Disconnected, None),
        device("f", "AA:BB:CC", false, BluetoothConnectionState::Disconnected, Some(-5)),
        device("g", "Tablet", false, BluetoothConnectionState::Connecting {
            operation_id: BluetoothOperationId(3),
        }, Some(-20)),
    ];
    assert!(!is_nearby_device(&devices[3]));
    assert!(is_nearby_device(&devices[6]));
    assert_eq!(sorted_nearby_devices(&devices), vec![6, 1, 0, 2]);
}

#[test]
fn device_tag_replaces_non_alphanumeric_characters() {
    let d = device("AA:BB_cc é1", "x", false, BluetoothConnectionState::Disconnected, None);
    assert_eq!(bluetooth_device_tag(&d), "header-settings-bluetooth-device-AA-BB-cc--1");
}

#[test]
fn bluetooth_state_follows_the_feature_state() {
    let loading = build_bluetooth_state(&FeatureState::Loading);
    assert!(matches!(loading.recent_devices, BluetoothDeviceSection::Loading));
    assert!(!loading.is_enabled);
    let unavailable = build_bluetooth_state(&FeatureState::Unavailable("off".to_string()));
    assert!(matches!(unavailable.nearby_devices, BluetoothDeviceSection::Unavailable));
    let unsupported = build_bluetooth_state(&FeatureState::Unsupported("none".to_string()));
    assert!(matches!(unsupported.recent_devices, BluetoothDeviceSection::Unavailable));
    let default = BluetoothState::default();
    assert!(matches!(default.nearby_devices, BluetoothDeviceSection::Loading));

    let mut ready = ready_bluetooth_feature_state(vec![
        device("x", "Speaker", false, BluetoothConnectionState::Disconnected, Some(-50)),
    ]);
    if let FeatureState::Ready(system) = &mut ready {
        system.adapter.power_state = BluetoothPowerState::TurningOff {
            operation_id: BluetoothOperationId(9),
        };
        system.adapter.capabilities.can_change_power = false;
    }
    let state = build_bluetooth_state(&ready);
    assert!(!state.is_enabled);
    assert!(!state.can_toggle_power);
    let BluetoothDeviceSection::Ready(nearby) = state.nearby_devices else {
        panic!("expected nearby devices");
    };
    assert_eq!(nearby.len(), 1);
    assert_eq!(nearby[0].tag, "header-settings-bluetooth-device-x");
    assert_eq!(nearby[0].display_name, "Speaker");
}
