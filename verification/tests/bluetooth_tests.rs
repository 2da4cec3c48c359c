use tapmute::bluetooth::{
    bluetooth_audio_present, find_battery_characteristic, BatteryScan, BluetoothState,
    EndpointProbe, ScanAction, ScanEvent, BATTERY_LEVEL_UUID, VT_BOOL,
};

const OTHER_UUID: u128 = 0x00002a00_0000_1000_8000_00805f9b34fb;

#[test]
fn state_from_readings() {
    assert_eq!(
        BluetoothState::from_readings(true, Some(80)),
        BluetoothState { connected: true, battery_percent: 80 }
    );
    assert_eq!(
        BluetoothState::from_readings(true, None),
        BluetoothState { connected: true, battery_percent: 0 }
    );
    assert_eq!(
        BluetoothState::from_readings(false, None),
        BluetoothState { connected: false, battery_percent: 0 }
    );
    assert_eq!(
        BluetoothState::from_readings(false, Some(50)),
        BluetoothState { connected: false, battery_percent: 0 }
    );
}

#[test]
fn battery_uuid_value() {
    assert_eq!(BATTERY_LEVEL_UUID, 0x00002a1900001000800000805f9b34fb);
}

#[test]
fn audio_present_needs_a_true_boolean_property() {
    assert!(!bluetooth_audio_present(&vec![]));
    assert!(!bluetooth_audio_present(&vec![
        EndpointProbe::Unavailable,
        EndpointProbe::NoBluetoothProperty,
        EndpointProbe::Property { vt: VT_BOOL, bool_val: 0 },
        EndpointProbe::Property { vt: 3, bool_val: -1 },
    ]));
    assert!(bluetooth_audio_present(&vec![
        EndpointProbe::NoBluetoothProperty,
        EndpointProbe::Property { vt: VT_BOOL, bool_val: -1 },
    ]));
}

#[test]
fn battery_characteristic_is_the_first_match() {
    assert_eq!(find_battery_characteristic(&vec![]), None);
    assert_eq!(find_battery_characteristic(&vec![OTHER_UUID]), None);
    assert_eq!(
        find_battery_characteristic(&vec![OTHER_UUID, BATTERY_LEVEL_UUID, BATTERY_LEVEL_UUID]),
        Some(1)
    );
}

#[test]
fn scan_reads_battery_of_a_connected_peripheral() {
    let (mut scan, first) = BatteryScan::start();
    assert_eq!(first, ScanAction::CreateManager);
    assert_eq!(scan.step(ScanEvent::ManagerCreated(true)), ScanAction::ListAdapters);
    assert_eq!(scan.step(ScanEvent::AdaptersListed(Some(1))), ScanAction::StartScan { adapter: 0 });
    assert_eq!(scan.step(ScanEvent::Done), ScanAction::ListPeripherals { adapter: 0 });
    assert_eq!(
        scan.step(ScanEvent::PeripheralsListed(Some(1))),
        ScanAction::CheckConnected { adapter: 0, peripheral: 0 }
    );
    assert_eq!(
        scan.step(ScanEvent::ConnectionChecked(Some(true))),
        ScanAction::CheckConnected { adapter: 0, peripheral: 0 }
    );
    assert_eq!(
        scan.step(ScanEvent::ConnectionChecked(Some(true))),
        ScanAction::DiscoverCharacteristics { adapter: 0, peripheral: 0 }
    );
    assert_eq!(
        scan.step(ScanEvent::CharacteristicsFound(vec![OTHER_UUID, BATTERY_LEVEL_UUID])),
        ScanAction::ReadCharacteristic { adapter: 0, peripheral: 0, characteristic: 1 }
    );
    assert_eq!(scan.outcome(), None);
    assert_eq!(
        scan.step(ScanEvent::ValueRead(Some(vec![73, 1]))),
        ScanAction::Disconnect { adapter: 0, peripheral: 0 }
    );
    assert_eq!(scan.step(ScanEvent::Done), ScanAction::Finish { level: Some(73) });
    assert_eq!(scan.outcome(), Some(Some(73)));
}

#[test]
fn scan_connects_first_and_skips_a_peripheral_that_stays_away() {
    let (mut scan, _) = BatteryScan::start();
    scan.step(ScanEvent::ManagerCreated(true));
    scan.step(ScanEvent::AdaptersListed(Some(1)));
    scan.step(ScanEvent::Done);
    scan.step(ScanEvent::PeripheralsListed(Some(2)));
    assert_eq!(
        scan.step(ScanEvent::ConnectionChecked(Some(false))),
        ScanAction::Connect { adapter: 0, peripheral: 0 }
    );
    assert_eq!(scan.step(ScanEvent::Done), ScanAction::CheckConnected { adapter: 0, peripheral: 0 });
    // still not connected: no disconnect, next peripheral
    assert_eq!(
        scan.step(ScanEvent::ConnectionChecked(Some(false))),
        ScanAction::CheckConnected { adapter: 0, peripheral: 1 }
    );
}

#[test]
fn scan_disconnects_when_no_level_is_found() {
    let (mut scan, _) = BatteryScan::start();
    scan.step(ScanEvent::ManagerCreated(true));
    scan.step(ScanEvent::AdaptersListed(Some(2)));
    scan.step(ScanEvent::Done);
    scan.step(ScanEvent::PeripheralsListed(Some(2)));
    scan.step(ScanEvent::ConnectionChecked(Some(true)));
    scan.step(ScanEvent::ConnectionChecked(Some(true)));
    // no battery characteristic
    assert_eq!(
        scan.step(ScanEvent::CharacteristicsFound(vec![OTHER_UUID])),
        ScanAction::Disconnect { adapter: 0, peripheral: 0 }
    );
    assert_eq!(scan.step(ScanEvent::Done), ScanAction::CheckConnected { adapter: 0, peripheral: 1 });
    scan.step(ScanEvent::ConnectionChecked(Some(true)));
    scan.step(ScanEvent::ConnectionChecked(Some(true)));
    scan.step(ScanEvent::CharacteristicsFound(vec![BATTERY_LEVEL_UUID]));
    // empty value: no level
    assert_eq!(
        scan.step(ScanEvent::ValueRead(Some(vec![]))),
        ScanAction::Disconnect { adapter: 0, peripheral: 1 }
    );
    assert_eq!(scan.step(ScanEvent::Done), ScanAction::StopScan { adapter: 0 });
    assert_eq!(scan.step(ScanEvent::Done), ScanAction::StartScan { adapter: 1 });
    scan.step(ScanEvent::Done);
    assert_eq!(scan.step(ScanEvent::PeripheralsListed(Some(0))), ScanAction::StopScan { adapter: 1 });
    assert_eq!(scan.step(ScanEvent::Done), ScanAction::Finish { level: None });
    assert_eq!(scan.outcome(), Some(None));
}

#[test]
fn scan_failed_read_moves_on() {
    let (mut scan, _) = BatteryScan::start();
    scan.step(ScanEvent::ManagerCreated(true));
    scan.step(ScanEvent::AdaptersListed(Some(1)));
    scan.step(ScanEvent::Done);
    scan.step(ScanEvent::PeripheralsListed(Some(1)));
    scan.step(ScanEvent::ConnectionChecked(Some(true)));
    scan.step(ScanEvent::ConnectionChecked(Some(true)));
    scan.step(ScanEvent::CharacteristicsFound(vec![BATTERY_LEVEL_UUID]));
    assert_eq!(
        scan.step(ScanEvent::ValueRead(None)),
        ScanAction::Disconnect { adapter: 0, peripheral: 0 }
    );
    assert_eq!(scan.step(ScanEvent::Done), ScanAction::StopScan { adapter: 0 });
    assert_eq!(scan.step(ScanEvent::Done), ScanAction::Finish { level: None });
}

#[test]
fn scan_failures_end_without_level() {
    let (mut scan, _) = BatteryScan::start();
    assert_eq!(scan.step(ScanEvent::ManagerCreated(false)), ScanAction::Finish { level: None });
    assert_eq!(scan.outcome(), Some(None));

    let (mut scan, _) = BatteryScan::start();
    scan.step(ScanEvent::ManagerCreated(true));
    assert_eq!(scan.step(ScanEvent::AdaptersListed(None)), ScanAction::Finish { level: None });

    let (mut scan, _) = BatteryScan::start();
    scan.step(ScanEvent::ManagerCreated(true));
    scan.step(ScanEvent::AdaptersListed(Some(3)));
    scan.step(ScanEvent::Done);
    assert_eq!(scan.step(ScanEvent::PeripheralsListed(None)), ScanAction::Finish { level: None });

    let (mut scan, _) = BatteryScan::start();
    scan.step(ScanEvent::ManagerCreated(true));
    scan.step(ScanEvent::AdaptersListed(Some(1)));
    scan.step(ScanEvent::Done);
    scan.step(ScanEvent::PeripheralsListed(Some(1)));
    assert_eq!(scan.step(ScanEvent::ConnectionChecked(None)), ScanAction::Finish { level: None });
}

#[test]
fn scan_without_adapters_ends_at_once() {
    let (mut scan, _) = BatteryScan::start();
    scan.step(ScanEvent::ManagerCreated(true));
    assert_eq!(scan.step(ScanEvent::AdaptersListed(Some(0))), ScanAction::Finish { level: None });
}

#[test]
fn scan_accepts_only_the_awaited_answer() {
    let (mut scan, _) = BatteryScan::start();
    assert!(scan.accepts(&ScanEvent::ManagerCreated(true)));
    assert!(!scan.accepts(&ScanEvent::Done));
    scan.step(ScanEvent::ManagerCreated(false));
    assert!(!scan.accepts(&ScanEvent::Done));
    assert!(!scan.accepts(&ScanEvent::ManagerCreated(true)));
}
