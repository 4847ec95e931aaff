//! Laws of the Bluetooth device lists.
use vstd::prelude::*;
use crate::bluetooth::{
    BluetoothConnectionState, BluetoothDevice, BluetoothOperationId, BluetoothPowerState,
    hardware_pattern, power_enabled,
    is_connected, is_nearby, is_presentable_name, is_recent, looks_like_hardware_address,
    recent_order, recent_positions,
};
use crate::text::{is_white_space, trim_end, trim_start, trimmed};

verus! {

/// A device that is still connecting is not counted as connected; one that is
/// disconnecting still is.
pub proof fn law_connection_grouping(device: BluetoothDevice, operation_id: BluetoothOperationId)
    ensures
        !is_connected(
            BluetoothDevice {
                connection_state: BluetoothConnectionState::Connecting { operation_id },
                ..device
            },
        ),
        is_connected(
            BluetoothDevice {
                connection_state: BluetoothConnectionState::Disconnecting { operation_id },
                ..device
            },
        ),
{
}

/// No device is both recent and nearby.
pub proof fn law_recent_and_nearby_devices_are_apart(device: BluetoothDevice)
    ensures
        !(is_recent(device) && is_nearby(device)),
{
}

proof fn lemma_recent_positions(devices: Seq<BluetoothDevice>, connected: bool)
    requires
        devices.len() <= usize::MAX,
    ensures
        forall|k: int|
            0 <= k < recent_positions(devices, connected).len() ==> {
                let j = #[trigger] recent_positions(devices, connected)[k];
                &&& j < devices.len()
                &&& is_recent(devices[j as int])
                &&& is_connected(devices[j as int]) == connected
            },
        forall|j: int|
            0 <= j < devices.len() && is_recent(#[trigger] devices[j]) && is_connected(devices[j])
                == connected ==> recent_positions(devices, connected).contains(j as usize),
        forall|k: int, l: int|
            0 <= k < l < recent_positions(devices, connected).len() ==> #[trigger] recent_positions(
                devices,
                connected,
            )[k] < #[trigger] recent_positions(devices, connected)[l],
    decreases devices.len(),
{
    if devices.len() > 0 {
        let front = devices.drop_last();
        lemma_recent_positions(front, connected);
        let a = recent_positions(front, connected);
        let all = recent_positions(devices, connected);
        let last = (devices.len() - 1) as usize;
        let kept = is_recent(devices.last()) && is_connected(devices.last()) == connected;
        assert(devices.last() == devices[last as int]);
        assert forall|j: int| 0 <= j < front.len() implies #[trigger] front[j] == devices[j] by {}
        if kept {
            assert(all =~= a.push(last));
        } else {
            assert(all =~= a);
        }
        assert forall|k: int| 0 <= k < all.len() implies {
            let j = #[trigger] all[k];
            &&& j < devices.len()
            &&& is_recent(devices[j as int])
            &&& is_connected(devices[j as int]) == connected
        } by {
            if k < a.len() {
                assert(all[k] == a[k]);
                let j = a[k];
                assert(j < front.len());
                assert(front[j as int] == devices[j as int]);
            } else {
                assert(all[k] == last);
            }
        }
        assert forall|j: int|
            0 <= j < devices.len() && is_recent(#[trigger] devices[j]) && is_connected(devices[j])
                == connected implies all.contains(j as usize) by {
            if j < front.len() {
                assert(front[j] == devices[j]);
                assert(a.contains(j as usize));
                let k = choose|k: int| 0 <= k < a.len() && a[k] == j as usize;
                assert(all[k] == j as usize);
            } else {
                assert(j == last);
                assert(all[a.len() as int] == j as usize);
            }
        }
        assert forall|k: int, l: int| 0 <= k < l < all.len() implies #[trigger] all[k]
            < #[trigger] all[l] by {
            if l < a.len() {
                assert(all[k] == a[k] && all[l] == a[l]);
            } else {
                assert(all[k] == a[k]);
                assert(a[k] < front.len());
                assert(all[l] == last);
            }
        }
    }
}

/// The recent list holds each recent device exactly once, and lists connected
/// devices before unconnected ones; within each group the system's order is
/// kept.
pub proof fn law_recent_list_holds_each_recent_device_once(devices: Seq<BluetoothDevice>)
    requires
        devices.len() <= usize::MAX,
    ensures
        ({
            let order = recent_order(devices);
            &&& forall|j: int|
                0 <= j < devices.len() ==> (order.contains(j as usize) <==> is_recent(
                    #[trigger] devices[j],
                ))
            &&& order.no_duplicates()
            &&& forall|k: int, l: int|
                0 <= k < l < order.len() && is_connected(devices[#[trigger] order[l] as int])
                    ==> is_connected(devices[#[trigger] order[k] as int]) && order[k] < order[l]
        }),
{
    lemma_recent_positions(devices, true);
    lemma_recent_positions(devices, false);
    let first = recent_positions(devices, true);
    let second = recent_positions(devices, false);
    let order = recent_order(devices);
    assert forall|k: int| 0 <= k < order.len() implies (k < first.len() ==> #[trigger] order[k]
        == first[k]) && (k >= first.len() ==> order[k] == second[k - first.len()]) by {}
    assert forall|j: int| 0 <= j < devices.len() implies (order.contains(j as usize) <==> is_recent(
        #[trigger] devices[j],
    )) by {
        if order.contains(j as usize) {
            let k = choose|k: int| 0 <= k < order.len() && order[k] == j as usize;
            assert(0 <= k < order.len() && order[k] == j as usize);
            if k < first.len() {
                assert(first[k] == j as usize);
            } else {
                assert(second[k - first.len()] == j as usize);
            }
        }
        if is_recent(devices[j]) {
            if is_connected(devices[j]) {
                let k = choose|k: int| 0 <= k < first.len() && first[k] == j as usize;
                assert(order[k] == j as usize);
            } else {
                let k = choose|k: int| 0 <= k < second.len() && second[k] == j as usize;
                assert(order[k + first.len()] == j as usize);
            }
        }
    }
    assert forall|k: int, l: int|
        0 <= k < l < order.len() && is_connected(devices[#[trigger] order[l] as int]) implies is_connected(
        devices[#[trigger] order[k] as int],
    ) && order[k] < order[l] by {
        if l >= first.len() {
            let m = l - first.len();
            assert(order[l] == second[m]);
            assert(!is_connected(devices[second[m] as int]));
        } else {
            assert(order[k] == first[k] && order[l] == first[l]);
        }
    }
    assert forall|k: int, l: int| 0 <= k < order.len() && 0 <= l < order.len() && k != l implies order[k]
        != order[l] by {
        let (a, b) = if k < l { (k, l) } else { (l, k) };
        if b < first.len() {
            assert(order[a] == first[a] && order[b] == first[b]);
            assert(first[a] < first[b]);
        } else if a >= first.len() {
            assert(order[a] == second[a - first.len()] && order[b] == second[b - first.len()]);
            assert(second[a - first.len()] < second[b - first.len()]);
        } else {
            assert(order[a] == first[a]);
            assert(order[b] == second[b - first.len()]);
            assert(is_connected(devices[first[a] as int]));
            assert(!is_connected(devices[second[b - first.len()] as int]));
        }
    }
}

/// A hardware address is never shown as a device name.
pub proof fn law_hardware_addresses_are_not_presentable(name: Seq<char>)
    requires
        looks_like_hardware_address(name),
    ensures
        !is_presentable_name(name),
{
    let sep = if hardware_pattern(name, '-') { '-' } else { ':' };
    assert(hardware_pattern(name, sep));
    assert(!is_white_space(name[0]));
    assert(!is_white_space(name.last())) by {
        let last = name.len() - 1;
        assert(name.last() == name[last]);
        if last % 3 == 2 {
            assert(name[last] == sep);
        }
    }
    assert(trim_start(name) == name);
    assert(trim_end(name) == name);
    assert(trimmed(name) == name);
}

/// The Bluetooth switch shows on while the radio is on and while it is
/// turning on (the user just switched it on), and off while it is off or
/// turning off.
pub proof fn law_switch_follows_the_radio(operation_id: BluetoothOperationId)
    ensures
        power_enabled(BluetoothPowerState::On),
        power_enabled(BluetoothPowerState::TurningOn { operation_id }),
        !power_enabled(BluetoothPowerState::Off),
        !power_enabled(BluetoothPowerState::TurningOff { operation_id }),
{
}

} // verus!
