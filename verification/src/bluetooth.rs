//! Bluetooth headset monitoring: whether a Bluetooth audio device is the
//! active output, and the headset's battery level read over BLE.
//!
//! The BLE scan waits on the radio between its decisions, so it is written
//! as a state machine: [`BatteryScan::step`] takes what the last action gave
//! and says what to do next, until it finishes with the level or without.

use vstd::prelude::*;

verus! {

/// UUID of the GATT Battery Level characteristic,
/// `00002a19-0000-1000-8000-00805f9b34fb`.
pub const BATTERY_LEVEL_UUID: u128 = 0x00002a19_0000_1000_8000_00805f9b34fb;

/// Variant type tag of a boolean property value.
pub const VT_BOOL: u16 = 11;

/// State of the Bluetooth headset.
#[derive(Debug, Clone, Copy, PartialEq, Eq, Structural)]
pub struct BluetoothState {
    pub connected: bool,
    pub battery_percent: u8,
}

impl BluetoothState {
    /// The state reported after one round of monitoring: the battery is read
    /// only when a Bluetooth audio device is connected, and a level that
    /// could not be read counts as 0.
    pub fn from_readings(connected: bool, battery: Option<u8>) -> (r: BluetoothState)
        ensures
            r.connected == connected,
            r.battery_percent == (if connected {
                match battery {
                    Some(level) => level,
                    None => 0u8,
                }
            } else {
                0u8
            }),
    {
        let battery_percent: u8 = if connected {
            match battery {
                Some(level) => level,
                None => 0,
            }
        } else {
            0
        };
        BluetoothState { connected, battery_percent }
    }
}

/// What was learned of one active audio output device.
#[derive(Debug, Clone, Copy, PartialEq, Eq, Structural)]
pub enum EndpointProbe {
    /// The device or its property store could not be opened.
    Unavailable,
    /// The device has no Bluetooth property.
    NoBluetoothProperty,
    /// The Bluetooth property holds a value of type `vt`; `bool_val` is its
    /// boolean field.
    Property { vt: u16, bool_val: i16 },
}

/// Whether the probe shows a Bluetooth device.
pub open spec fn marks_bluetooth(p: EndpointProbe) -> bool {
    match p {
        EndpointProbe::Property { vt, bool_val } => vt == VT_BOOL && bool_val != 0,
        _ => false,
    }
}

/// Whether any active audio output device is a Bluetooth device.
pub fn bluetooth_audio_present(probes: &Vec<EndpointProbe>) -> (r: bool)
    ensures
        r == exists|i: int| 0 <= i < probes@.len() && marks_bluetooth(#[trigger] probes@[i]),
{
    let mut i: usize = 0;
    while i < probes.len()
        invariant
            i <= probes@.len(),
            forall|j: int| 0 <= j < i ==> !marks_bluetooth(#[trigger] probes@[j]),
        decreases probes.len() - i,
    {
        match probes[i] {
            EndpointProbe::Property { vt, bool_val } => {
                if vt == VT_BOOL && bool_val != 0 {
                    assert(marks_bluetooth(probes@[i as int]));
                    return true;
                }
            },
            _ => {},
        }
        i = i + 1;
    }
    false
}

/// Position of the first Battery Level characteristic at or after `i`.
pub open spec fn battery_index_from(uuids: Seq<u128>, i: nat) -> Option<nat>
    decreases uuids.len() - i,
{
    if i >= uuids.len() {
        None
    } else if uuids[i as int] == BATTERY_LEVEL_UUID {
        Some(i)
    } else {
        battery_index_from(uuids, i + 1)
    }
}

/// Position of the first Battery Level characteristic.
pub open spec fn battery_index(uuids: Seq<u128>) -> Option<nat> {
    battery_index_from(uuids, 0)
}

/// `battery_index` finds the first Battery Level characteristic, or says
/// that there is none.
pub proof fn lemma_battery_index_is_first(uuids: Seq<u128>)
    ensures
        match battery_index(uuids) {
            Some(i) => i < uuids.len() && uuids[i as int] == BATTERY_LEVEL_UUID && forall|j: int|
                0 <= j < i ==> uuids[j] != BATTERY_LEVEL_UUID,
            None => forall|j: int| 0 <= j < uuids.len() ==> uuids[j] != BATTERY_LEVEL_UUID,
        },
{
    lemma_battery_index_from(uuids, 0);
}

proof fn lemma_battery_index_from(uuids: Seq<u128>, i: nat)
    ensures
        match battery_index_from(uuids, i) {
            Some(k) => i <= k < uuids.len() && uuids[k as int] == BATTERY_LEVEL_UUID && forall|j: int|
                i <= j < k ==> uuids[j] != BATTERY_LEVEL_UUID,
            None => forall|j: int| i <= j < uuids.len() ==> uuids[j] != BATTERY_LEVEL_UUID,
        },
    decreases uuids.len() - i,
{
    if i < uuids.len() && uuids[i as int] != BATTERY_LEVEL_UUID {
        lemma_battery_index_from(uuids, i + 1);
    }
}

/// Position of the first Battery Level characteristic among `uuids`.
pub fn find_battery_characteristic(uuids: &Vec<u128>) -> (r: Option<usize>)
    ensures
        match r {
            Some(i) => battery_index(uuids@) == Some(i as nat),
            None => battery_index(uuids@) is None,
        },
{
    let mut i: usize = 0;
    while i < uuids.len()
        invariant
            i <= uuids@.len(),
            battery_index(uuids@) == battery_index_from(uuids@, i as nat),
        decreases uuids.len() - i,
    {
        if uuids[i] == BATTERY_LEVEL_UUID {
            return Some(i);
        }
        i = i + 1;
    }
    None
}

/// What the scan asks to be done next. Each action but `Finish` is answered
/// with one [`ScanEvent`].
#[derive(Debug, Clone, Copy, PartialEq, Eq, Structural)]
pub enum ScanAction {
    /// Create the BLE manager; answered by `ManagerCreated`.
    CreateManager,
    /// List the adapters; answered by `AdaptersListed`.
    ListAdapters,
    /// Start scanning on the adapter, whatever that gives, then wait two
    /// seconds; answered by `Done`.
    StartScan { adapter: usize },
    /// List the adapter's peripherals; answered by `PeripheralsListed`.
    ListPeripherals { adapter: usize },
    /// Ask whether the peripheral is connected; answered by
    /// `ConnectionChecked`.
    CheckConnected { adapter: usize, peripheral: usize },
    /// Connect to the peripheral, whatever that gives, then wait half a
    /// second; answered by `Done`.
    Connect { adapter: usize, peripheral: usize },
    /// Discover the peripheral's services, whatever that gives, and list its
    /// characteristics; answered by `CharacteristicsFound`.
    DiscoverCharacteristics { adapter: usize, peripheral: usize },
    /// Read the characteristic at this position of the list; answered by
    /// `ValueRead`.
    ReadCharacteristic { adapter: usize, peripheral: usize, characteristic: usize },
    /// Disconnect from the peripheral, whatever that gives; answered by
    /// `Done`.
    Disconnect { adapter: usize, peripheral: usize },
    /// Stop scanning on the adapter, whatever that gives; answered by
    /// `Done`.
    StopScan { adapter: usize },
    /// The scan is over, with the battery level if one was read.
    Finish { level: Option<u8> },
}

/// What the last action gave.
#[derive(Debug)]
pub enum ScanEvent {
    /// Whether the manager could be created.
    ManagerCreated(bool),
    /// The number of adapters, or `None` where they could not be listed.
    AdaptersListed(Option<usize>),
    /// The number of peripherals, or `None` where they could not be listed.
    PeripheralsListed(Option<usize>),
    /// Whether the peripheral is connected, or `None` where the question
    /// failed.
    ConnectionChecked(Option<bool>),
    /// The UUIDs of the peripheral's characteristics, in order.
    CharacteristicsFound(Vec<u128>),
    /// The value read, or `None` where the read failed.
    ValueRead(Option<Vec<u8>>),
    /// An action whose result the scan ignores was carried out.
    Done,
}

/// Which answer the scan is waiting for.
#[derive(Debug, Clone, Copy, PartialEq, Eq, Structural)]
pub enum ScanPhase {
    AwaitManager,
    AwaitAdapters,
    AwaitScanStart,
    AwaitPeripherals,
    /// The first connection check of the peripheral.
    AwaitFirstCheck,
    AwaitConnect,
    /// The connection check after the connect attempt, or the second check
    /// of a peripheral that was already connected.
    AwaitSecondCheck,
    AwaitCharacteristics,
    AwaitRead,
    /// Disconnecting; `found` is the level to report afterwards, if any.
    AwaitDisconnect { found: Option<u8> },
    AwaitScanStop,
    Finished { level: Option<u8> },
}

/// State of a BLE battery scan.
pub struct BatteryScan {
    phase: ScanPhase,
    adapters: usize,
    adapter: usize,
    peripherals: usize,
    peripheral: usize,
}

/// The scan's state, as the contracts speak of it: the phase, the number of
/// adapters and the current one, the number of peripherals of the current
/// adapter and the current one.
pub struct ScanState {
    pub phase: ScanPhase,
    pub adapters: usize,
    pub adapter: usize,
    pub peripherals: usize,
    pub peripheral: usize,
}

impl View for BatteryScan {
    type V = ScanState;

    closed spec fn view(&self) -> ScanState {
        ScanState {
            phase: self.phase,
            adapters: self.adapters,
            adapter: self.adapter,
            peripherals: self.peripherals,
            peripheral: self.peripheral,
        }
    }
}

/// Whether the phase works on one adapter.
pub open spec fn in_adapter(p: ScanPhase) -> bool {
    match p {
        ScanPhase::AwaitManager | ScanPhase::AwaitAdapters | ScanPhase::Finished { .. } => false,
        _ => true,
    }
}

/// Whether the phase works on one peripheral.
pub open spec fn in_peripheral(p: ScanPhase) -> bool {
    match p {
        ScanPhase::AwaitFirstCheck | ScanPhase::AwaitConnect | ScanPhase::AwaitSecondCheck
        | ScanPhase::AwaitCharacteristics | ScanPhase::AwaitRead | ScanPhase::AwaitDisconnect {
            ..
        } => true,
        _ => false,
    }
}

impl ScanState {
    /// The current adapter and peripheral exist.
    pub open spec fn wf(self) -> bool {
        &&& in_adapter(self.phase) ==> self.adapter < self.adapters
        &&& in_peripheral(self.phase) ==> self.peripheral < self.peripherals
    }
}

/// Whether the scan, in phase `p`, takes `e` as the answer it waits for.
pub open spec fn accepts(p: ScanPhase, e: ScanEvent) -> bool {
    match p {
        ScanPhase::AwaitManager => e is ManagerCreated,
        ScanPhase::AwaitAdapters => e is AdaptersListed,
        ScanPhase::AwaitPeripherals => e is PeripheralsListed,
        ScanPhase::AwaitFirstCheck | ScanPhase::AwaitSecondCheck => e is ConnectionChecked,
        ScanPhase::AwaitCharacteristics => e is CharacteristicsFound,
        ScanPhase::AwaitRead => e is ValueRead,
        ScanPhase::AwaitScanStart | ScanPhase::AwaitConnect | ScanPhase::AwaitDisconnect { .. }
        | ScanPhase::AwaitScanStop => e is Done,
        ScanPhase::Finished { .. } => false,
    }
}

/// The scan ends with `level`.
pub open spec fn finish(s: ScanState, level: Option<u8>) -> (ScanState, ScanAction) {
    (ScanState { phase: ScanPhase::Finished { level }, ..s }, ScanAction::Finish { level })
}

/// Moves to the adapter at position `adapter`, or ends without a level when
/// there is none left.
pub open spec fn begin_adapter(s: ScanState, adapter: usize) -> (ScanState, ScanAction) {
    if adapter < s.adapters {
        (
            ScanState { phase: ScanPhase::AwaitScanStart, adapter, ..s },
            ScanAction::StartScan { adapter },
        )
    } else {
        finish(ScanState { adapter, ..s }, None)
    }
}

/// Moves to the peripheral at position `peripheral` of the current adapter,
/// or stops scanning on the adapter when there is none left.
pub open spec fn begin_peripheral(s: ScanState, peripheral: usize) -> (ScanState, ScanAction) {
    if peripheral < s.peripherals {
        (
            ScanState { phase: ScanPhase::AwaitFirstCheck, peripheral, ..s },
            ScanAction::CheckConnected { adapter: s.adapter, peripheral },
        )
    } else {
        (
            ScanState { phase: ScanPhase::AwaitScanStop, peripheral, ..s },
            ScanAction::StopScan { adapter: s.adapter },
        )
    }
}

/// One step of the scan: the next state and the next action, given the
/// answer `e` to the last action.
pub open spec fn next(s: ScanState, e: ScanEvent) -> (ScanState, ScanAction) {
    let a: usize = s.adapter;
    let p: usize = s.peripheral;
    match (s.phase, e) {
        (ScanPhase::AwaitManager, ScanEvent::ManagerCreated(ok)) => if ok {
            (ScanState { phase: ScanPhase::AwaitAdapters, ..s }, ScanAction::ListAdapters)
        } else {
            finish(s, None)
        },
        (ScanPhase::AwaitAdapters, ScanEvent::AdaptersListed(listed)) => match listed {
            Some(n) => begin_adapter(ScanState { adapters: n, ..s }, 0),
            None => finish(s, None),
        },
        (ScanPhase::AwaitScanStart, ScanEvent::Done) => (
            ScanState { phase: ScanPhase::AwaitPeripherals, ..s },
            ScanAction::ListPeripherals { adapter: a },
        ),
        (ScanPhase::AwaitPeripherals, ScanEvent::PeripheralsListed(listed)) => match listed {
            Some(m) => begin_peripheral(ScanState { peripherals: m, ..s }, 0),
            None => finish(s, None),
        },
        (ScanPhase::AwaitFirstCheck, ScanEvent::ConnectionChecked(checked)) => match checked {
            Some(true) => (
                ScanState { phase: ScanPhase::AwaitSecondCheck, ..s },
                ScanAction::CheckConnected { adapter: a, peripheral: p },
            ),
            Some(false) => (
                ScanState { phase: ScanPhase::AwaitConnect, ..s },
                ScanAction::Connect { adapter: a, peripheral: p },
            ),
            None => finish(s, None),
        },
        (ScanPhase::AwaitConnect, ScanEvent::Done) => (
            ScanState { phase: ScanPhase::AwaitSecondCheck, ..s },
            ScanAction::CheckConnected { adapter: a, peripheral: p },
        ),
        (ScanPhase::AwaitSecondCheck, ScanEvent::ConnectionChecked(checked)) => match checked {
            Some(true) => (
                ScanState { phase: ScanPhase::AwaitCharacteristics, ..s },
                ScanAction::DiscoverCharacteristics { adapter: a, peripheral: p },
            ),
            Some(false) => begin_peripheral(s, (p + 1) as usize),
            None => finish(s, None),
        },
        (ScanPhase::AwaitCharacteristics, ScanEvent::CharacteristicsFound(uuids)) => match battery_index(uuids@) {
            Some(c) => (
                ScanState { phase: ScanPhase::AwaitRead, ..s },
                ScanAction::ReadCharacteristic { adapter: a, peripheral: p, characteristic: c as usize },
            ),
            None => (
                ScanState { phase: ScanPhase::AwaitDisconnect { found: None }, ..s },
                ScanAction::Disconnect { adapter: a, peripheral: p },
            ),
        },
        (ScanPhase::AwaitRead, ScanEvent::ValueRead(read)) => {
            let found: Option<u8> = match read {
                Some(data) => if data@.len() > 0 { Some(data@[0]) } else { None },
                None => None,
            };
            (
                ScanState { phase: ScanPhase::AwaitDisconnect { found }, ..s },
                ScanAction::Disconnect { adapter: a, peripheral: p },
            )
        },
        (ScanPhase::AwaitDisconnect { found }, ScanEvent::Done) => match found {
            Some(level) => finish(s, Some(level)),
            None => begin_peripheral(s, (p + 1) as usize),
        },
        (ScanPhase::AwaitScanStop, ScanEvent::Done) => begin_adapter(s, (a + 1) as usize),
        _ => (s, ScanAction::Finish { level: None }),
    }
}

impl BatteryScan {
    /// The current adapter and peripheral of a scan always exist.
    #[verifier::type_invariant]
    closed spec fn inv(self) -> bool {
        self@.wf()
    }

    /// A new scan and its first action, the creation of the manager.
    pub fn start() -> (r: (BatteryScan, ScanAction))
        ensures
            r.0@ == (ScanState {
                phase: ScanPhase::AwaitManager,
                adapters: 0,
                adapter: 0,
                peripherals: 0,
                peripheral: 0,
            }),
            r.0@.wf(),
            r.1 == ScanAction::CreateManager,
    {
        (
            BatteryScan {
                phase: ScanPhase::AwaitManager,
                adapters: 0,
                adapter: 0,
                peripherals: 0,
                peripheral: 0,
            },
            ScanAction::CreateManager,
        )
    }

    /// The level the scan ended with, `Some(None)` where it ended without
    /// one, `None` while it goes on.
    pub fn outcome(&self) -> (r: Option<Option<u8>>)
        ensures
            match self@.phase {
                ScanPhase::Finished { level } => r == Some(level),
                _ => r is None,
            },
    {
        match self.phase {
            ScanPhase::Finished { level } => Some(level),
            _ => None,
        }
    }

    /// Whether the scan waits for `event`.
    pub fn accepts(&self, event: &ScanEvent) -> (r: bool)
        ensures
            r == accepts(self@.phase, *event),
    {
        match (self.phase, event) {
            (ScanPhase::AwaitManager, ScanEvent::ManagerCreated(_)) => true,
            (ScanPhase::AwaitAdapters, ScanEvent::AdaptersListed(_)) => true,
            (ScanPhase::AwaitPeripherals, ScanEvent::PeripheralsListed(_)) => true,
            (ScanPhase::AwaitFirstCheck, ScanEvent::ConnectionChecked(_)) => true,
            (ScanPhase::AwaitSecondCheck, ScanEvent::ConnectionChecked(_)) => true,
            (ScanPhase::AwaitCharacteristics, ScanEvent::CharacteristicsFound(_)) => true,
            (ScanPhase::AwaitRead, ScanEvent::ValueRead(_)) => true,
            (ScanPhase::AwaitScanStart, ScanEvent::Done) => true,
            (ScanPhase::AwaitConnect, ScanEvent::Done) => true,
            (ScanPhase::AwaitDisconnect { .. }, ScanEvent::Done) => true,
            (ScanPhase::AwaitScanStop, ScanEvent::Done) => true,
            _ => false,
        }
    }

    fn begin_adapter(&self, adapters: usize, adapter: usize) -> (r: (BatteryScan, ScanAction))
        ensures
            (r.0@, r.1) == begin_adapter(ScanState { adapters, ..self@ }, adapter),
    {
        if adapter < adapters {
            (
                BatteryScan {
                    phase: ScanPhase::AwaitScanStart,
                    adapters,
                    adapter,
                    peripherals: self.peripherals,
                    peripheral: self.peripheral,
                },
                ScanAction::StartScan { adapter },
            )
        } else {
            (
                BatteryScan {
                    phase: ScanPhase::Finished { level: None },
                    adapters,
                    adapter,
                    peripherals: self.peripherals,
                    peripheral: self.peripheral,
                },
                ScanAction::Finish { level: None },
            )
        }
    }

    fn begin_peripheral(&self, peripherals: usize, peripheral: usize) -> (r: (BatteryScan, ScanAction))
        requires
            in_adapter(self@.phase),
        ensures
            (r.0@, r.1) == begin_peripheral(ScanState { peripherals, ..self@ }, peripheral),
    {
        proof {
            use_type_invariant(self);
        }
        let phase: ScanPhase = if peripheral < peripherals {
            ScanPhase::AwaitFirstCheck
        } else {
            ScanPhase::AwaitScanStop
        };
        let next = BatteryScan {
            phase,
            adapters: self.adapters,
            adapter: self.adapter,
            peripherals,
            peripheral,
        };
        if peripheral < peripherals {
            (next, ScanAction::CheckConnected { adapter: self.adapter, peripheral })
        } else {
            (next, ScanAction::StopScan { adapter: self.adapter })
        }
    }

    fn finish(&self, level: Option<u8>) -> (r: (BatteryScan, ScanAction))
        ensures
            (r.0@, r.1) == finish(self@, level),
    {
        (
            BatteryScan {
                phase: ScanPhase::Finished { level },
                adapters: self.adapters,
                adapter: self.adapter,
                peripherals: self.peripherals,
                peripheral: self.peripheral,
            },
            ScanAction::Finish { level },
        )
    }

    /// Takes the answer to the last action and gives the next one.
    pub fn step(&mut self, event: ScanEvent) -> (r: ScanAction)
        requires
            accepts(old(self)@.phase, event),
        ensures
            (final(self)@, r) == next(old(self)@, event),
            final(self)@.wf(),
    {
        proof {
            use_type_invariant(&*self);
        }
        let a: usize = self.adapter;
        let p: usize = self.peripheral;
        match (self.phase, event) {
            (ScanPhase::AwaitManager, ScanEvent::ManagerCreated(ok)) => {
                if ok {
                    self.phase = ScanPhase::AwaitAdapters;
                    ScanAction::ListAdapters
                } else {
                    let (n, act) = self.finish(None);
                    *self = n;
                    act
                }
            },
            (ScanPhase::AwaitAdapters, ScanEvent::AdaptersListed(listed)) => match listed {
                Some(n) => {
                    let (next, act) = self.begin_adapter(n, 0);
                    *self = next;
                    act
                },
                None => {
                    let (next, act) = self.finish(None);
                    *self = next;
                    act
                },
            },
            (ScanPhase::AwaitScanStart, ScanEvent::Done) => {
                self.phase = ScanPhase::AwaitPeripherals;
                ScanAction::ListPeripherals { adapter: a }
            },
            (ScanPhase::AwaitPeripherals, ScanEvent::PeripheralsListed(listed)) => match listed {
                Some(m) => {
                    let (next, act) = self.begin_peripheral(m, 0);
                    *self = next;
                    act
                },
                None => {
                    let (next, act) = self.finish(None);
                    *self = next;
                    act
                },
            },
            (ScanPhase::AwaitFirstCheck, ScanEvent::ConnectionChecked(checked)) => match checked {
                Some(true) => {
                    self.phase = ScanPhase::AwaitSecondCheck;
                    ScanAction::CheckConnected { adapter: a, peripheral: p }
                },
                Some(false) => {
                    self.phase = ScanPhase::AwaitConnect;
                    ScanAction::Connect { adapter: a, peripheral: p }
                },
                None => {
                    let (next, act) = self.finish(None);
                    *self = next;
                    act
                },
            },
            (ScanPhase::AwaitConnect, ScanEvent::Done) => {
                self.phase = ScanPhase::AwaitSecondCheck;
                ScanAction::CheckConnected { adapter: a, peripheral: p }
            },
            (ScanPhase::AwaitSecondCheck, ScanEvent::ConnectionChecked(checked)) => match checked {
                Some(true) => {
                    self.phase = ScanPhase::AwaitCharacteristics;
                    ScanAction::DiscoverCharacteristics { adapter: a, peripheral: p }
                },
                Some(false) => {
                    let (next, act) = self.begin_peripheral(self.peripherals, p + 1);
                    *self = next;
                    act
                },
                None => {
                    let (next, act) = self.finish(None);
                    *self = next;
                    act
                },
            },
            (ScanPhase::AwaitCharacteristics, ScanEvent::CharacteristicsFound(uuids)) => {
                match find_battery_characteristic(&uuids) {
                    Some(c) => {
                        self.phase = ScanPhase::AwaitRead;
                        ScanAction::ReadCharacteristic { adapter: a, peripheral: p, characteristic: c }
                    },
                    None => {
                        self.phase = ScanPhase::AwaitDisconnect { found: None };
                        ScanAction::Disconnect { adapter: a, peripheral: p }
                    },
                }
            },
            (ScanPhase::AwaitRead, ScanEvent::ValueRead(read)) => {
                let found: Option<u8> = match read {
                    Some(data) => if data.len() > 0 {
                        Some(data[0])
                    } else {
                        None
                    },
                    None => None,
                };
                self.phase = ScanPhase::AwaitDisconnect { found };
                ScanAction::Disconnect { adapter: a, peripheral: p }
            },
            (ScanPhase::AwaitDisconnect { found }, ScanEvent::Done) => match found {
                Some(level) => {
                    let (next, act) = self.finish(Some(level));
                    *self = next;
                    act
                },
                None => {
                    let (next, act) = self.begin_peripheral(self.peripherals, p + 1);
                    *self = next;
                    act
                },
            },
            (ScanPhase::AwaitScanStop, ScanEvent::Done) => {
                let (next, act) = self.begin_adapter(self.adapters, a + 1);
                *self = next;
                act
            },
            _ => ScanAction::Finish { level: None },
        }
    }
}

/// How much of the scan is left: the stage before the adapters are known,
/// the adapters left, the step within the adapter, the peripherals left,
/// and the step within the peripheral.
pub open spec fn remaining(s: ScanState) -> (int, int, int, int, int) {
    let stage: int = match s.phase {
        ScanPhase::AwaitManager => 2,
        ScanPhase::AwaitAdapters => 1,
        _ => 0,
    };
    let adapters_left: int = if in_adapter(s.phase) {
        s.adapters - s.adapter
    } else {
        0
    };
    let adapter_step: int = match s.phase {
        ScanPhase::AwaitScanStart => 2,
        ScanPhase::AwaitPeripherals => 1,
        _ => 0,
    };
    let peripherals_left: int = if in_peripheral(s.phase) {
        s.peripherals - s.peripheral
    } else {
        0
    };
    let peripheral_step: int = match s.phase {
        ScanPhase::AwaitFirstCheck => 6,
        ScanPhase::AwaitConnect => 5,
        ScanPhase::AwaitSecondCheck => 4,
        ScanPhase::AwaitCharacteristics => 3,
        ScanPhase::AwaitRead => 2,
        ScanPhase::AwaitDisconnect { .. } => 1,
        _ => 0,
    };
    (stage, adapters_left, adapter_step, peripherals_left, peripheral_step)
}

/// Lexicographic order on what is left of a scan.
pub open spec fn lex_less(x: (int, int, int, int, int), y: (int, int, int, int, int)) -> bool {
    ||| x.0 < y.0
    ||| x.0 == y.0 && x.1 < y.1
    ||| x.0 == y.0 && x.1 == y.1 && x.2 < y.2
    ||| x.0 == y.0 && x.1 == y.1 && x.2 == y.2 && x.3 < y.3
    ||| x.0 == y.0 && x.1 == y.1 && x.2 == y.2 && x.3 == y.3 && x.4 < y.4
}

/// Every scan ends: each step either finishes it or lowers what is left of
/// it, which never goes below zero.
pub proof fn lemma_scan_progresses(s: ScanState, e: ScanEvent)
    requires
        s.wf(),
        accepts(s.phase, e),
    ensures
        next(s, e).0.wf(),
        next(s, e).0.phase is Finished || lex_less(remaining(next(s, e).0), remaining(s)),
        remaining(s).0 >= 0 && remaining(s).1 >= 0 && remaining(s).2 >= 0 && remaining(s).3 >= 0
            && remaining(s).4 >= 0,
{
}

/// The scan reports a level only after disconnecting from a peripheral
/// whose Battery Level characteristic gave a non-empty value, and the level
/// is that value's first byte; the characteristic read is the first Battery
/// Level characteristic of the peripheral.
pub proof fn lemma_level_comes_from_battery_read(s: ScanState, e: ScanEvent)
    requires
        s.wf(),
        accepts(s.phase, e),
    ensures
        next(s, e).1 matches ScanAction::Finish { level: Some(l) } ==> s.phase == (ScanPhase::AwaitDisconnect { found: Some(l) }),
        next(s, e).0.phase matches ScanPhase::AwaitDisconnect { found: Some(l) } ==> {
            &&& s.phase == ScanPhase::AwaitRead
            &&& e matches ScanEvent::ValueRead(Some(d))
            &&& d@.len() > 0
            &&& d@[0] == l
        },
        next(s, e).1 matches ScanAction::ReadCharacteristic { characteristic: c, .. } ==> {
            &&& s.phase == ScanPhase::AwaitCharacteristics
            &&& e matches ScanEvent::CharacteristicsFound(u)
            &&& battery_index(u@) matches Some(i)
            &&& i as usize == c
        },
{
}

/// Once the scan has checked that a peripheral is connected, it reads and
/// disconnects from it before anything else; a peripheral still not
/// connected after the connect attempt is left without a disconnect.
pub proof fn lemma_connected_peripheral_is_disconnected(s: ScanState, e: ScanEvent)
    requires
        s.wf(),
        accepts(s.phase, e),
    ensures
        (s.phase == ScanPhase::AwaitCharacteristics || s.phase == ScanPhase::AwaitRead) ==> {
            ||| next(s, e).0.phase == ScanPhase::AwaitRead
            ||| next(s, e).0.phase is AwaitDisconnect
        },
        (s.phase == ScanPhase::AwaitSecondCheck && e == ScanEvent::ConnectionChecked(Some(false)))
            ==> next(s, e) == begin_peripheral(s, (s.peripheral + 1) as usize),
{
}

/// When the manager, a listing or a connection check fails, the scan ends
/// at once without a level.
pub proof fn lemma_failure_ends_scan(s: ScanState, e: ScanEvent)
    requires
        s.wf(),
        accepts(s.phase, e),
        ({
            ||| e == ScanEvent::ManagerCreated(false)
            ||| e == ScanEvent::AdaptersListed(None)
            ||| e == ScanEvent::PeripheralsListed(None)
            ||| e == ScanEvent::ConnectionChecked(None)
        }),
    ensures
        next(s, e).1 == (ScanAction::Finish { level: None }),
        next(s, e).0.phase == (ScanPhase::Finished { level: None }),
{
}

/// Every action names an adapter and a peripheral that exist.
pub proof fn lemma_actions_name_existing_devices(s: ScanState, e: ScanEvent)
    requires
        s.wf(),
        accepts(s.phase, e),
    ensures
        ({
            let (t, act) = next(s, e);
            match act {
                ScanAction::StartScan { adapter } => adapter < t.adapters,
                ScanAction::ListPeripherals { adapter } => adapter < t.adapters,
                ScanAction::StopScan { adapter } => adapter < t.adapters,
                ScanAction::CheckConnected { adapter, peripheral } => adapter < t.adapters
                    && peripheral < t.peripherals,
                ScanAction::Connect { adapter, peripheral } => adapter < t.adapters && peripheral
                    < t.peripherals,
                ScanAction::DiscoverCharacteristics { adapter, peripheral } => adapter < t.adapters
                    && peripheral < t.peripherals,
                ScanAction::ReadCharacteristic { adapter, peripheral, .. } => adapter < t.adapters
                    && peripheral < t.peripherals,
                ScanAction::Disconnect { adapter, peripheral } => adapter < t.adapters && peripheral
                    < t.peripherals,
                _ => true,
            }
        }),
{
}

/// The state after the scan has taken the events of `evs` one after the
/// other, stopping at the first event it does not wait for.
pub open spec fn run(s: ScanState, evs: Seq<ScanEvent>) -> ScanState
    decreases evs.len(),
{
    if evs.len() == 0 || !accepts(s.phase, evs[0]) {
        s
    } else {
        run(next(s, evs[0]).0, evs.drop_first())
    }
}

/// Whether the phase holds the level `l`, to report or reported.
pub open spec fn holds_level(p: ScanPhase, l: u8) -> bool {
    ||| p == (ScanPhase::AwaitDisconnect { found: Some(l) })
    ||| p == (ScanPhase::Finished { level: Some(l) })
}

/// Whether the event is a read of a non-empty value whose first byte is `l`.
pub open spec fn read_gave(e: ScanEvent, l: u8) -> bool {
    e matches ScanEvent::ValueRead(Some(d)) && d@.len() > 0 && d@[0] == l
}

/// Over a whole run, the current adapter and peripheral keep existing.
pub proof fn lemma_run_keeps_wf(s: ScanState, evs: Seq<ScanEvent>)
    requires
        s.wf(),
    ensures
        run(s, evs).wf(),
    decreases evs.len(),
{
    if evs.len() > 0 && accepts(s.phase, evs[0]) {
        lemma_scan_progresses(s, evs[0]);
        lemma_run_keeps_wf(next(s, evs[0]).0, evs.drop_first());
    }
}

/// Over a whole run, the scan comes to hold a level only through a read in
/// that run that gave a non-empty value starting with that level. In
/// particular a scan from its start that finishes with a level read it.
pub proof fn lemma_run_level_comes_from_read(s: ScanState, evs: Seq<ScanEvent>, l: u8)
    requires
        holds_level(run(s, evs).phase, l),
        !holds_level(s.phase, l),
    ensures
        exists|i: int| 0 <= i < evs.len() && read_gave(#[trigger] evs[i], l),
    decreases evs.len(),
{
    let e = evs[0];
    let s1 = next(s, e).0;
    if holds_level(s1.phase, l) {
        assert(read_gave(evs[0], l));
    } else {
        lemma_run_level_comes_from_read(s1, evs.drop_first(), l);
        let i = choose|i: int| 0 <= i < evs.drop_first().len() && read_gave(#[trigger] evs.drop_first()[i], l);
        assert(read_gave(evs[i + 1], l));
    }
}

/// A read that gives a non-empty value keeps its first byte, whatever its
/// value, as the level to report, and disconnects from the peripheral.
pub proof fn lemma_read_value_is_kept(s: ScanState, data: Vec<u8>)
    requires
        s.phase == ScanPhase::AwaitRead,
        data@.len() > 0,
    ensures
        next(s, ScanEvent::ValueRead(Some(data))).0.phase == (ScanPhase::AwaitDisconnect {
            found: Some(data@[0]),
        }),
        next(s, ScanEvent::ValueRead(Some(data))).1 == (ScanAction::Disconnect {
            adapter: s.adapter,
            peripheral: s.peripheral,
        }),
{
}

/// Once disconnected, a level kept from the read is reported.
pub proof fn lemma_kept_level_is_reported(s: ScanState, level: u8)
    requires
        s.phase == (ScanPhase::AwaitDisconnect { found: Some(level) }),
    ensures
        next(s, ScanEvent::Done).1 == (ScanAction::Finish { level: Some(level) }),
        next(s, ScanEvent::Done).0.phase == (ScanPhase::Finished { level: Some(level) }),
{
}

/// A non-empty read followed by the disconnect ends the scan with the
/// read's first byte as the level.
pub proof fn lemma_battery_read_is_reported(s: ScanState, data: Vec<u8>)
    requires
        s.phase == ScanPhase::AwaitRead,
        data@.len() > 0,
    ensures
        run(s, seq![ScanEvent::ValueRead(Some(data)), ScanEvent::Done]).phase == (
        ScanPhase::Finished { level: Some(data@[0]) }),
{
    let evs = seq![ScanEvent::ValueRead(Some(data)), ScanEvent::Done];
    let s1 = next(s, evs[0]).0;
    assert(evs.drop_first() =~= seq![ScanEvent::Done]);
    assert(seq![ScanEvent::Done].drop_first() =~= Seq::<ScanEvent>::empty());
    assert(run(s1, seq![ScanEvent::Done]) == run(next(s1, ScanEvent::Done).0, Seq::<ScanEvent>::empty()));
}

/// On a machine with an adapter and a connected peripheral that has a
/// Battery Level characteristic whose read gives a non-empty value, the
/// scan from its start reads it: it ends with the value's first byte as
/// the level.
pub proof fn lemma_connected_headset_is_read(
    adapters: usize,
    peripherals: usize,
    uuids: Vec<u128>,
    data: Vec<u8>,
)
    requires
        adapters >= 1,
        peripherals >= 1,
        battery_index(uuids@) is Some,
        data@.len() > 0,
    ensures
        run(
            ScanState {
                phase: ScanPhase::AwaitManager,
                adapters: 0,
                adapter: 0,
                peripherals: 0,
                peripheral: 0,
            },
            seq![
                ScanEvent::ManagerCreated(true),
                ScanEvent::AdaptersListed(Some(adapters)),
                ScanEvent::Done,
                ScanEvent::PeripheralsListed(Some(peripherals)),
                ScanEvent::ConnectionChecked(Some(true)),
                ScanEvent::ConnectionChecked(Some(true)),
                ScanEvent::CharacteristicsFound(uuids),
                ScanEvent::ValueRead(Some(data)),
                ScanEvent::Done,
            ],
        ).phase == (ScanPhase::Finished { level: Some(data@[0]) }),
{
    let e0 = ScanEvent::ManagerCreated(true);
    let e1 = ScanEvent::AdaptersListed(Some(adapters));
    let e2 = ScanEvent::Done;
    let e3 = ScanEvent::PeripheralsListed(Some(peripherals));
    let e4 = ScanEvent::ConnectionChecked(Some(true));
    let e6 = ScanEvent::CharacteristicsFound(uuids);
    let e7 = ScanEvent::ValueRead(Some(data));
    let evs = seq![e0, e1, e2, e3, e4, e4, e6, e7, e2];
    let s0 = ScanState { phase: ScanPhase::AwaitManager, adapters: 0, adapter: 0, peripherals: 0, peripheral: 0 };
    let s1 = next(s0, e0).0;
    let s2 = next(s1, e1).0;
    let s3 = next(s2, e2).0;
    let s4 = next(s3, e3).0;
    let s5 = next(s4, e4).0;
    let s6 = next(s5, e4).0;
    let s7 = next(s6, e6).0;
    assert(s7.phase == ScanPhase::AwaitRead);
    let t1 = evs.drop_first();
    let t2 = t1.drop_first();
    let t3 = t2.drop_first();
    let t4 = t3.drop_first();
    let t5 = t4.drop_first();
    let t6 = t5.drop_first();
    let t7 = t6.drop_first();
    assert(t1 =~= seq![e1, e2, e3, e4, e4, e6, e7, e2]);
    assert(t2 =~= seq![e2, e3, e4, e4, e6, e7, e2]);
    assert(t3 =~= seq![e3, e4, e4, e6, e7, e2]);
    assert(t4 =~= seq![e4, e4, e6, e7, e2]);
    assert(t5 =~= seq![e4, e6, e7, e2]);
    assert(t6 =~= seq![e6, e7, e2]);
    assert(t7 =~= seq![e7, e2]);
    assert(run(s0, evs) == run(s1, t1));
    assert(run(s1, t1) == run(s2, t2));
    assert(run(s2, t2) == run(s3, t3));
    assert(run(s3, t3) == run(s4, t4));
    assert(run(s4, t4) == run(s5, t5));
    assert(run(s5, t5) == run(s6, t6));
    assert(run(s6, t6) == run(s7, t7));
    lemma_battery_read_is_reported(s7, data);
}

/// A Bluetooth device is shown exactly by a boolean property whose value
/// is true (non-zero); a device without the property, one that could not be
/// opened, or a property of another type shows none.
pub proof fn lemma_bluetooth_mark(vt: u16, bool_val: i16)
    ensures
        marks_bluetooth(EndpointProbe::Property { vt: VT_BOOL, bool_val }) <==> bool_val != 0,
        vt != VT_BOOL ==> !marks_bluetooth(EndpointProbe::Property { vt, bool_val }),
        !marks_bluetooth(EndpointProbe::Unavailable),
        !marks_bluetooth(EndpointProbe::NoBluetoothProperty),
{
}

/// How the scan moves on: a peripheral that stays disconnected, or one
/// left without a level, gives way to the next peripheral of the adapter,
/// or to stopping the scan on the adapter after the last one; a stopped
/// adapter gives way to the next adapter, or to the end without a level
/// after the last one; a peripheral not connected at first is connected
/// to and checked again.
pub proof fn lemma_scan_moves_on(s: ScanState)
    requires
        s.wf(),
    ensures
        s.phase == ScanPhase::AwaitSecondCheck ==> next(s, ScanEvent::ConnectionChecked(Some(false))).1 == (
        if s.peripheral + 1 < s.peripherals {
            ScanAction::CheckConnected { adapter: s.adapter, peripheral: (s.peripheral + 1) as usize }
        } else {
            ScanAction::StopScan { adapter: s.adapter }
        }),
        s.phase == (ScanPhase::AwaitDisconnect { found: None }) ==> next(s, ScanEvent::Done).1 == (
        if s.peripheral + 1 < s.peripherals {
            ScanAction::CheckConnected { adapter: s.adapter, peripheral: (s.peripheral + 1) as usize }
        } else {
            ScanAction::StopScan { adapter: s.adapter }
        }),
        s.phase == ScanPhase::AwaitScanStop ==> next(s, ScanEvent::Done).1 == (if s.adapter + 1
            < s.adapters {
            ScanAction::StartScan { adapter: (s.adapter + 1) as usize }
        } else {
            ScanAction::Finish { level: None }
        }),
        s.phase == ScanPhase::AwaitFirstCheck ==> next(s, ScanEvent::ConnectionChecked(Some(false))).1
            == (ScanAction::Connect { adapter: s.adapter, peripheral: s.peripheral }),
        s.phase == ScanPhase::AwaitConnect ==> next(s, ScanEvent::Done).1 == (
        ScanAction::CheckConnected { adapter: s.adapter, peripheral: s.peripheral }),
        s.phase == ScanPhase::AwaitFirstCheck ==> next(s, ScanEvent::ConnectionChecked(Some(true))).1
            == (ScanAction::CheckConnected { adapter: s.adapter, peripheral: s.peripheral }),
        s.phase == ScanPhase::AwaitSecondCheck ==> next(s, ScanEvent::ConnectionChecked(Some(true))).1
            == (ScanAction::DiscoverCharacteristics { adapter: s.adapter, peripheral: s.peripheral }),
        s.phase == ScanPhase::AwaitAdapters ==> next(s, ScanEvent::AdaptersListed(Some(0))).1 == (
        ScanAction::Finish { level: None }),
        s.phase == ScanPhase::AwaitPeripherals ==> next(s, ScanEvent::PeripheralsListed(Some(0))).1
            == (ScanAction::StopScan { adapter: s.adapter }),
{
}

} // verus!
