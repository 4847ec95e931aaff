//! The Bluetooth part of the quick settings: which devices are listed as
//! recent, which as nearby, in what order, and under which names.
use vstd::prelude::*;
use crate::text::{
    ascii_alphanumeric, ascii_hexdigit, chars_of, is_ascii_alphanumeric, is_ascii_hexdigit,
    push_char, trim_chars, trimmed,
};
use vstd::string::StringExecFns;
use crate::system_status::FeatureState;

verus! {

/// The identifier of a Bluetooth device.
pub struct BluetoothDeviceId(pub String);

/// The identifier of a pending Bluetooth operation.
#[derive(Clone, Copy, PartialEq, Eq, Structural, Debug)]
pub struct BluetoothOperationId(pub u64);

/// How a device is connected.
#[derive(Clone, Copy, PartialEq, Eq, Structural, Debug)]
pub enum BluetoothConnectionState {
    Disconnected,
    Connecting { operation_id: BluetoothOperationId },
    Connected,
    Disconnecting { operation_id: BluetoothOperationId },
}

/// What kind of device it is.
#[derive(Clone, Copy, PartialEq, Eq, Structural, Debug)]
pub enum BluetoothDeviceCategory {
    Audio,
    Input,
    Phone,
    Computer,
    Wearable,
    Unknown,
}

/// A Bluetooth device as the system reports it.
pub struct BluetoothDevice {
    pub device_identifier: BluetoothDeviceId,
    pub display_name: String,
    pub category: BluetoothDeviceCategory,
    pub is_paired: bool,
    pub is_trusted: bool,
    pub connection_state: BluetoothConnectionState,
    pub signal_strength_dbm: Option<i16>,
    pub battery_percentage: Option<u8>,
}

/// Whether the adapter's radio is on.
#[derive(Clone, Copy, PartialEq, Eq, Structural, Debug)]
pub enum BluetoothPowerState {
    Off,
    TurningOn { operation_id: BluetoothOperationId },
    On,
    TurningOff { operation_id: BluetoothOperationId },
}

/// Whether the adapter looks for devices.
#[derive(Clone, Copy, PartialEq, Eq, Structural, Debug)]
pub enum BluetoothDiscoveryState {
    Idle,
    Scanning,
}

/// What the adapter allows.
#[derive(Clone, Copy, PartialEq, Eq, Structural, Debug)]
pub struct BluetoothCapabilities {
    pub can_change_power: bool,
    pub can_start_discovery: bool,
    pub can_connect_devices: bool,
}

/// The Bluetooth adapter as the system reports it.
pub struct BluetoothAdapterState {
    pub adapter_identifier: String,
    pub adapter_name: Option<String>,
    pub power_state: BluetoothPowerState,
    pub discovery_state: BluetoothDiscoveryState,
    pub capabilities: BluetoothCapabilities,
}

/// Bluetooth as the system reports it, when it is available.
pub struct BluetoothSystemState {
    pub adapter: BluetoothAdapterState,
    pub devices: Vec<BluetoothDevice>,
    pub last_error: Option<String>,
    pub revision: u64,
}

/// A device as the quick settings list it.
pub struct BluetoothDeviceState {
    pub device_identifier: BluetoothDeviceId,
    pub tag: String,
    pub display_name: String,
    pub category: BluetoothDeviceCategory,
    pub connection_state: BluetoothConnectionState,
}

/// A list of devices in the quick settings.
pub enum BluetoothDeviceSection {
    Loading,
    Unavailable,
    Ready(Vec<BluetoothDeviceState>),
}

/// Bluetooth as the quick settings show it.
pub struct BluetoothState {
    pub is_enabled: bool,
    pub can_toggle_power: bool,
    pub recent_devices: BluetoothDeviceSection,
    pub nearby_devices: BluetoothDeviceSection,
}

impl Default for BluetoothState {
    fn default() -> (state: Self)
        ensures
            !state.is_enabled,
            !state.can_toggle_power,
            state.recent_devices is Loading,
            state.nearby_devices is Loading,
    {
        BluetoothState {
            is_enabled: false,
            can_toggle_power: false,
            recent_devices: BluetoothDeviceSection::Loading,
            nearby_devices: BluetoothDeviceSection::Loading,
        }
    }
}

/// A device counts as connected while it is connected and while it is being
/// disconnected; a device that is still connecting does not.
pub open spec fn is_connected(device: BluetoothDevice) -> bool {
    device.connection_state is Connected || device.connection_state is Disconnecting
}

/// Recent devices: paired or connected ones.
pub open spec fn is_recent(device: BluetoothDevice) -> bool {
    device.is_paired || is_connected(device)
}

/// `s` is made of at least three groups of two hexadecimal digits, joined by
/// `separator`.
pub open spec fn hardware_pattern(s: Seq<char>, separator: char) -> bool {
    &&& s.len() >= 8
    &&& (s.len() + 1) % 3 == 0
    &&& forall|i: int|
        0 <= i < s.len() ==> if i % 3 == 2 {
            #[trigger] s[i] == separator
        } else {
            is_ascii_hexdigit(s[i])
        }
}

/// A name that is really a hardware address, such as `0D-48-AC-11-22-33` or
/// `0d:48:ac:11:22:33`.
pub open spec fn looks_like_hardware_address(s: Seq<char>) -> bool {
    hardware_pattern(s, '-') || hardware_pattern(s, ':')
}

/// A name worth showing: something is left once trimmed, and it is not a
/// hardware address.
pub open spec fn is_presentable_name(name: Seq<char>) -> bool {
    trimmed(name).len() > 0 && !looks_like_hardware_address(trimmed(name))
}

/// Nearby devices: unpaired, unconnected devices in range with a presentable
/// name.
pub open spec fn is_nearby(device: BluetoothDevice) -> bool {
    &&& !device.is_paired
    &&& !is_connected(device)
    &&& device.signal_strength_dbm is Some
    &&& is_presentable_name(device.display_name@)
}

/// Whether a device counts as connected.
pub fn is_device_connected(device: &BluetoothDevice) -> (connected: bool)
    ensures
        connected == is_connected(*device),
{
    matches!(
        device.connection_state,
        BluetoothConnectionState::Connected | BluetoothConnectionState::Disconnecting { .. }
    )
}

/// Whether a device is listed among the recent devices.
pub fn is_recent_device(device: &BluetoothDevice) -> (recent: bool)
    ensures
        recent == is_recent(*device),
{
    device.is_paired || is_device_connected(device)
}

fn contains_char(chars: &Vec<char>, c: char) -> (found: bool)
    ensures
        found == chars@.contains(c),
{
    let mut i: usize = 0;
    while i < chars.len()
        invariant
            0 <= i <= chars.len(),
            forall|k: int| 0 <= k < i ==> chars@[k] != c,
        decreases chars.len() - i,
    {
        if chars[i] == c {
            assert(chars@[i as int] == c);
            return true;
        }
        i = i + 1;
    }
    false
}

fn matches_hardware_pattern(chars: &Vec<char>, separator: char) -> (matches: bool)
    ensures
        matches == hardware_pattern(chars@, separator),
{
    let len = chars.len();
    if len < 8 || len % 3 != 2 {
        return false;
    }
    let mut i: usize = 0;
    while i < len
        invariant
            0 <= i <= len,
            len == chars@.len(),
            len >= 8,
            (len + 1) % 3 == 0,
            forall|k: int|
                0 <= k < i ==> if k % 3 == 2 {
                    #[trigger] chars@[k] == separator
                } else {
                    is_ascii_hexdigit(chars@[k])
                },
        decreases len - i,
    {
        let ok = if i % 3 == 2 {
            chars[i] == separator
        } else {
            ascii_hexdigit(chars[i])
        };
        if !ok {
            return false;
        }
        i = i + 1;
    }
    true
}

/// Whether the characters `value` spell a hardware address: the separator is
/// `-` when there is one, else `:`, and the parts between separators are all
/// two hexadecimal digits, at least three of them.
pub fn looks_like_hardware_identifier(value: &Vec<char>) -> (looks: bool)
    ensures
        looks == looks_like_hardware_address(value@),
{
    let separator = if contains_char(value, '-') {
        '-'
    } else if contains_char(value, ':') {
        ':'
    } else {
        proof {
            if hardware_pattern(value@, '-') {
                assert(value@[2] == '-');
            }
            if hardware_pattern(value@, ':') {
                assert(value@[2] == ':');
            }
        }
        return false;
    };
    let result = matches_hardware_pattern(value, separator);
    proof {
        if separator == '-' {
            if hardware_pattern(value@, ':') {
                let j = choose|j: int| 0 <= j < value@.len() && value@[j] == '-';
                assert(value@[j] == ':' || is_ascii_hexdigit(value@[j]));
            }
        } else {
            if hardware_pattern(value@, '-') {
                assert(value@[2] == '-');
                assert(value@.contains('-'));
            }
        }
    }
    result
}

/// Whether a device name is worth showing.
pub fn has_presentable_device_name(display_name: &str) -> (presentable: bool)
    ensures
        presentable == is_presentable_name(display_name@),
{
    let chars = chars_of(display_name);
    let trimmed_chars = trim_chars(&chars);
    if trimmed_chars.len() == 0 {
        return false;
    }
    !looks_like_hardware_identifier(&trimmed_chars)
}

/// Whether a device is listed among the nearby devices.
pub fn is_nearby_device(device: &BluetoothDevice) -> (nearby: bool)
    ensures
        nearby == is_nearby(*device),
{
    !device.is_paired && !is_device_connected(device) && device.signal_strength_dbm.is_some()
        && has_presentable_device_name(device.display_name.as_str())
}

/// The positions of the recent devices that are connected (or, with
/// `connected` false, not connected), in the order the system reported them.
pub open spec fn recent_positions(devices: Seq<BluetoothDevice>, connected: bool) -> Seq<usize>
    decreases devices.len(),
{
    if devices.len() == 0 {
        Seq::empty()
    } else {
        recent_positions(devices.drop_last(), connected) + if is_recent(devices.last())
            && is_connected(devices.last()) == connected {
            seq![(devices.len() - 1) as usize]
        } else {
            Seq::empty()
        }
    }
}

/// The positions of the recent devices, connected ones first, each group in
/// the order the system reported them.
pub open spec fn recent_order(devices: Seq<BluetoothDevice>) -> Seq<usize> {
    recent_positions(devices, true) + recent_positions(devices, false)
}

fn positions_of_recent(devices: &Vec<BluetoothDevice>, connected: bool) -> (positions: Vec<usize>)
    ensures
        positions@ == recent_positions(devices@, connected),
{
    let mut positions: Vec<usize> = Vec::new();
    let mut i: usize = 0;
    while i < devices.len()
        invariant
            0 <= i <= devices.len(),
            positions@ == recent_positions(devices@.take(i as int), connected),
        decreases devices.len() - i,
    {
        assert(devices@.take(i + 1).drop_last() =~= devices@.take(i as int));
        assert(devices@.take(i + 1).last() == devices@[i as int]);
        if is_recent_device(&devices[i]) && is_device_connected(&devices[i]) == connected {
            positions.push(i);
        }
        assert(positions@ =~= recent_positions(devices@.take(i + 1), connected));
        i = i + 1;
    }
    assert(devices@.take(devices.len() as int) =~= devices@);
    positions
}

/// The positions of the recent devices: connected ones first, each group in
/// the order the system reported them.
pub fn sorted_recent_devices(devices: &Vec<BluetoothDevice>) -> (positions: Vec<usize>)
    ensures
        positions@ == recent_order(devices@),
{
    let mut positions = positions_of_recent(devices, true);
    let mut others = positions_of_recent(devices, false);
    positions.append(&mut others);
    positions
}

/// The signal strength of the device at `position`.
pub open spec fn signal_at(devices: Seq<BluetoothDevice>, position: usize) -> int {
    devices[position as int].signal_strength_dbm->0 as int
}

/// Device `a` is listed before device `b`: its signal is stronger, or as
/// strong and it was reported first.
pub open spec fn listed_before(devices: Seq<BluetoothDevice>, a: usize, b: usize) -> bool {
    signal_at(devices, a) > signal_at(devices, b) || (signal_at(devices, a) == signal_at(
        devices,
        b,
    ) && a < b)
}

/// `positions` lists exactly the nearby devices, strongest signal first, and
/// devices with equal signals in the order the system reported them.
pub open spec fn is_nearby_order(devices: Seq<BluetoothDevice>, positions: Seq<usize>) -> bool {
    &&& forall|k: int|
        0 <= k < positions.len() ==> #[trigger] positions[k] < devices.len() && is_nearby(
            devices[positions[k] as int],
        )
    &&& forall|j: int|
        0 <= j < devices.len() && is_nearby(#[trigger] devices[j]) ==> positions.contains(
            j as usize,
        )
    &&& forall|k: int, l: int|
        0 <= k < l < positions.len() ==> listed_before(
            devices,
            #[trigger] positions[k],
            #[trigger] positions[l],
        )
}

fn signal_at_least(device: &BluetoothDevice, signal: i16) -> (r: bool)
    ensures
        r == (device.signal_strength_dbm is Some && device.signal_strength_dbm->0 >= signal),
{
    match device.signal_strength_dbm {
        Some(other) => other >= signal,
        None => false,
    }
}

/// The positions of the nearby devices, strongest signal first; devices with
/// equal signals keep the order the system reported them in.
pub fn sorted_nearby_devices(devices: &Vec<BluetoothDevice>) -> (positions: Vec<usize>)
    ensures
        is_nearby_order(devices@, positions@),
        positions@.no_duplicates(),
{
    let mut positions: Vec<usize> = Vec::new();
    let mut i: usize = 0;
    while i < devices.len()
        invariant
            0 <= i <= devices.len(),
            forall|k: int|
                0 <= k < positions@.len() ==> #[trigger] positions@[k] < i && is_nearby(
                    devices@[positions@[k] as int],
                ),
            forall|j: int|
                0 <= j < i && is_nearby(#[trigger] devices@[j]) ==> positions@.contains(
                    j as usize,
                ),
            forall|k: int, l: int|
                0 <= k < l < positions@.len() ==> listed_before(
                    devices@,
                    #[trigger] positions@[k],
                    #[trigger] positions@[l],
                ),
        decreases devices.len() - i,
    {
        if is_nearby_device(&devices[i]) {
            let signal = match devices[i].signal_strength_dbm {
                Some(signal) => signal,
                None => 0,
            };
            let mut p: usize = 0;
            while p < positions.len() && signal_at_least(&devices[positions[p]], signal)
                invariant
                    0 <= p <= positions@.len(),
                    i < devices@.len(),
                    is_nearby(devices@[i as int]),
                    signal == devices@[i as int].signal_strength_dbm->0,
                    forall|k: int|
                        0 <= k < positions@.len() ==> #[trigger] positions@[k] < i && is_nearby(
                            devices@[positions@[k] as int],
                        ),
                    forall|m: int|
                        0 <= m < p ==> signal_at(devices@, #[trigger] positions@[m]) >= signal,
                decreases positions@.len() - p,
            {
                p = p + 1;
            }
            let ghost before = positions@;
            proof {
                if p < before.len() {
                    assert(signal_at(devices@, before[p as int]) < signal);
                    assert forall|m: int| p <= m < before.len() implies signal_at(
                        devices@,
                        #[trigger] before[m],
                    ) < signal by {
                        if m > p {
                            assert(listed_before(devices@, before[p as int], before[m]));
                        }
                    }
                }
            }
            positions.insert(p, i);
            proof {
                let after = positions@;
                assert(after =~= before.insert(p as int, i));
                assert forall|k: int, l: int| 0 <= k < l < after.len() implies listed_before(
                    devices@,
                    #[trigger] after[k],
                    #[trigger] after[l],
                ) by {
                    if k < p && l < p {
                        assert(listed_before(devices@, before[k], before[l]));
                    } else if k < p && l == p {
                        assert(signal_at(devices@, before[k]) >= signal);
                    } else if k < p && l > p {
                        assert(listed_before(devices@, before[k], before[l - 1]));
                    } else if k == p {
                        assert(signal_at(devices@, before[l - 1]) < signal);
                    } else {
                        assert(listed_before(devices@, before[k - 1], before[l - 1]));
                    }
                }
                assert forall|j: int|
                    0 <= j < i + 1 && is_nearby(#[trigger] devices@[j]) implies after.contains(
                    j as usize,
                ) by {
                    if j < i {
                        let m = choose|m: int| 0 <= m < before.len() && before[m] == j as usize;
                        if m < p {
                            assert(after[m] == j as usize);
                        } else {
                            assert(after[m + 1] == j as usize);
                        }
                    } else {
                        assert(after[p as int] == i);
                    }
                }
                assert forall|k: int| 0 <= k < after.len() implies #[trigger] after[k] < i + 1
                    && is_nearby(devices@[after[k] as int]) by {
                    if k < p {
                        assert(after[k] == before[k]);
                    } else if k > p {
                        assert(after[k] == before[k - 1]);
                    }
                }
            }
        } else {
            proof {
                assert forall|j: int|
                    0 <= j < i + 1 && is_nearby(#[trigger] devices@[j]) implies positions@.contains(
                    j as usize,
                ) by {}
            }
        }
        i = i + 1;
    }
    proof {
        assert forall|k: int, l: int|
            0 <= k < positions@.len() && 0 <= l < positions@.len() && k != l implies positions@[k]
            != positions@[l] by {
            if k < l {
                assert(listed_before(devices@, positions@[k], positions@[l]));
            } else {
                assert(listed_before(devices@, positions@[l], positions@[k]));
            }
        }
    }
    positions
}

/// The character that stands for `c` in an element tag.
pub open spec fn tag_char(c: char) -> char {
    if is_ascii_alphanumeric(c) {
        c
    } else {
        '-'
    }
}

/// The element tag of a device: a fixed prefix, then its identifier with every
/// character that is not an ASCII letter or digit replaced by `-`.
pub open spec fn device_tag(identifier: Seq<char>) -> Seq<char> {
    "header-settings-bluetooth-device-"@ + identifier.map_values(|c: char| tag_char(c))
}

/// The element tag of a device.
pub fn bluetooth_device_tag(device: &BluetoothDevice) -> (tag: String)
    ensures
        tag@ == device_tag(device.device_identifier.0@),
{
    let chars = chars_of(device.device_identifier.0.as_str());
    let mut tag = String::from_str("header-settings-bluetooth-device-");
    let ghost prefix = tag@;
    let mut i: usize = 0;
    while i < chars.len()
        invariant
            0 <= i <= chars.len(),
            chars@ == device.device_identifier.0@,
            prefix == "header-settings-bluetooth-device-"@,
            tag@ == prefix + chars@.take(i as int).map_values(|c: char| tag_char(c)),
        decreases chars.len() - i,
    {
        let c = chars[i];
        let shown = if ascii_alphanumeric(c) {
            c
        } else {
            '-'
        };
        push_char(&mut tag, shown);
        i = i + 1;
        assert(chars@.take(i as int).map_values(|c: char| tag_char(c)) =~= chars@.take(
            (i - 1) as int,
        ).map_values(|c: char| tag_char(c)).push(tag_char(c)));
    }
    assert(chars@.take(chars.len() as int) =~= chars@);
    tag
}

/// `state` lists `device`.
pub open spec fn lists_device(state: BluetoothDeviceState, device: BluetoothDevice) -> bool {
    &&& state.device_identifier.0@ == device.device_identifier.0@
    &&& state.tag@ == device_tag(device.device_identifier.0@)
    &&& state.display_name@ == device.display_name@
    &&& state.category == device.category
    &&& state.connection_state == device.connection_state
}

/// A device as the quick settings list it.
pub fn build_bluetooth_device_state(device: &BluetoothDevice) -> (state: BluetoothDeviceState)
    ensures
        lists_device(state, *device),
{
    BluetoothDeviceState {
        device_identifier: BluetoothDeviceId(device.device_identifier.0.clone()),
        tag: bluetooth_device_tag(device),
        display_name: device.display_name.clone(),
        category: device.category,
        connection_state: device.connection_state,
    }
}

/// `states` lists the devices at `positions`, in that order.
pub open spec fn lists_devices_at(
    states: Seq<BluetoothDeviceState>,
    devices: Seq<BluetoothDevice>,
    positions: Seq<usize>,
) -> bool {
    &&& states.len() == positions.len()
    &&& forall|k: int|
        0 <= k < states.len() ==> lists_device(#[trigger] states[k], devices[positions[k] as int])
}

fn device_states_at(devices: &Vec<BluetoothDevice>, positions: &Vec<usize>) -> (states: Vec<
    BluetoothDeviceState,
>)
    requires
        forall|k: int| 0 <= k < positions@.len() ==> #[trigger] positions@[k] < devices@.len(),
    ensures
        lists_devices_at(states@, devices@, positions@),
{
    let mut states: Vec<BluetoothDeviceState> = Vec::new();
    let mut k: usize = 0;
    while k < positions.len()
        invariant
            0 <= k <= positions.len(),
            forall|m: int| 0 <= m < positions@.len() ==> #[trigger] positions@[m] < devices@.len(),
            states@.len() == k,
            forall|m: int|
                0 <= m < k ==> lists_device(#[trigger] states@[m], devices@[positions@[m] as int]),
        decreases positions.len() - k,
    {
        let ghost before = states@;
        states.push(build_bluetooth_device_state(&devices[positions[k]]));
        assert(forall|m: int| 0 <= m < k ==> states@[m] == before[m]);
        k = k + 1;
    }
    states
}

/// The adapter's radio counts as enabled while it is on or turning on.
pub open spec fn power_enabled(power_state: BluetoothPowerState) -> bool {
    power_state is On || power_state is TurningOn
}

/// Bluetooth as the quick settings show it, from what the system reports:
/// while loading, nothing is known yet; when unsupported or unavailable, both
/// lists are unavailable; when ready, the radio state, whether it may be
/// switched, and the recent and nearby devices in their order.
pub fn build_bluetooth_state(feature_state: &FeatureState<BluetoothSystemState>) -> (state:
    BluetoothState)
    ensures
        match feature_state {
            FeatureState::Ready(system) => {
                &&& state.is_enabled == power_enabled(system.adapter.power_state)
                &&& state.is_enabled <==> match system.adapter.power_state {
                    BluetoothPowerState::On => true,
                    BluetoothPowerState::TurningOn { .. } => true,
                    BluetoothPowerState::Off => false,
                    BluetoothPowerState::TurningOff { .. } => false,
                }
                &&& state.can_toggle_power == system.adapter.capabilities.can_change_power
                &&& state.recent_devices matches BluetoothDeviceSection::Ready(recent)
                    && lists_devices_at(recent@, system.devices@, recent_order(system.devices@))
                &&& state.nearby_devices matches BluetoothDeviceSection::Ready(nearby)
                    && exists|order: Seq<usize>|
                    is_nearby_order(system.devices@, order) && lists_devices_at(
                        nearby@,
                        system.devices@,
                        order,
                    )
            },
            FeatureState::Loading => {
                &&& !state.is_enabled
                &&& !state.can_toggle_power
                &&& state.recent_devices is Loading
                &&& state.nearby_devices is Loading
            },
            _ => {
                &&& !state.is_enabled
                &&& !state.can_toggle_power
                &&& state.recent_devices is Unavailable
                &&& state.nearby_devices is Unavailable
            },
        },
{
    match feature_state {
        FeatureState::Ready(system) => {
            let is_enabled = matches!(
                system.adapter.power_state,
                BluetoothPowerState::On | BluetoothPowerState::TurningOn { .. }
            );
            let recent_positions = sorted_recent_devices(&system.devices);
            proof {
                lemma_recent_order_in_bounds(system.devices@);
            }
            let nearby_positions = sorted_nearby_devices(&system.devices);
            let recent_devices = device_states_at(&system.devices, &recent_positions);
            let nearby_devices = device_states_at(&system.devices, &nearby_positions);
            BluetoothState {
                is_enabled,
                can_toggle_power: system.adapter.capabilities.can_change_power,
                recent_devices: BluetoothDeviceSection::Ready(recent_devices),
                nearby_devices: BluetoothDeviceSection::Ready(nearby_devices),
            }
        },
        FeatureState::Loading => BluetoothState::default(),
        FeatureState::Unsupported(_) | FeatureState::Unavailable(_) => BluetoothState {
            is_enabled: false,
            can_toggle_power: false,
            recent_devices: BluetoothDeviceSection::Unavailable,
            nearby_devices: BluetoothDeviceSection::Unavailable,
        },
    }
}

proof fn lemma_positions_in_bounds(devices: Seq<BluetoothDevice>, connected: bool)
    ensures
        forall|k: int|
            0 <= k < recent_positions(devices, connected).len() ==> #[trigger] recent_positions(
                devices,
                connected,
            )[k] < devices.len(),
    decreases devices.len(),
{
    if devices.len() > 0 {
        lemma_positions_in_bounds(devices.drop_last(), connected);
        let front = recent_positions(devices.drop_last(), connected);
        let all = recent_positions(devices, connected);
        assert forall|k: int| 0 <= k < all.len() implies #[trigger] all[k] < devices.len() by {
            if k < front.len() {
                assert(all[k] == front[k]);
            }
        }
    }
}

proof fn lemma_recent_order_in_bounds(devices: Seq<BluetoothDevice>)
    ensures
        forall|k: int|
            0 <= k < recent_order(devices).len() ==> #[trigger] recent_order(devices)[k]
                < devices.len(),
{
    lemma_positions_in_bounds(devices, true);
    lemma_positions_in_bounds(devices, false);
    let order = recent_order(devices);
    assert forall|k: int| 0 <= k < order.len() implies #[trigger] order[k] < devices.len() by {
        let a = recent_positions(devices, true);
        if k < a.len() {
            assert(order[k] == a[k]);
        } else {
            assert(order[k] == recent_positions(devices, false)[k - a.len()]);
        }
    }
}

} // verus!
