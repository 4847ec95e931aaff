//! Volume and battery as the quick settings show them.
use vstd::prelude::*;

verus! {

/// Whether a system feature can be used, and its state when it can.
pub enum FeatureState<T> {
    Loading,
    Ready(T),
    Unsupported(String),
    Unavailable(String),
}

/// The audio output as the system reports it.
#[derive(Clone, Copy, PartialEq, Eq, Structural, Debug)]
pub struct VolumeSystemState {
    pub output_percentage: u8,
}

/// Whether the battery is being charged.
#[derive(Clone, Copy, PartialEq, Eq, Structural, Debug)]
pub enum BatteryChargingState {
    Charging,
    Discharging,
    Full,
    NotCharging,
    Unknown,
}

/// The battery as the system reports it.
#[derive(Clone, Copy, PartialEq, Eq, Structural, Debug)]
pub struct BatterySystemState {
    pub percentage: u8,
    pub charging_state: BatteryChargingState,
}

/// The volume shown while the real one is not known.
pub const FALLBACK_VOLUME_PERCENTAGE: u8 = 40;

/// The volume as the quick settings show it.
#[derive(Clone, Copy, PartialEq, Eq, Structural, Debug)]
pub struct UiVolumeState {
    pub output_percentage: u8,
}

impl Default for UiVolumeState {
    fn default() -> (state: Self)
        ensures
            state.output_percentage == FALLBACK_VOLUME_PERCENTAGE,
    {
        UiVolumeState { output_percentage: FALLBACK_VOLUME_PERCENTAGE }
    }
}

/// The battery as the quick settings show it.
#[derive(Clone, Copy, PartialEq, Eq, Structural, Debug)]
pub struct UiBatteryState {
    pub percentage: Option<u8>,
    pub charging_state: Option<BatteryChargingState>,
}

impl Default for UiBatteryState {
    fn default() -> (state: Self)
        ensures
            state.percentage is None,
            state.charging_state is None,
    {
        UiBatteryState { percentage: None, charging_state: None }
    }
}

/// The volume to show: the system's when it is ready, else the fallback.
pub fn build_volume_state(feature_state: &FeatureState<VolumeSystemState>) -> (state: UiVolumeState)
    ensures
        state.output_percentage == match feature_state {
            FeatureState::Ready(volume) => volume.output_percentage,
            _ => FALLBACK_VOLUME_PERCENTAGE,
        },
{
    match feature_state {
        FeatureState::Ready(volume) => UiVolumeState { output_percentage: volume.output_percentage },
        _ => UiVolumeState::default(),
    }
}

/// The battery to show: the system's charge and charging state when it is
/// ready, else nothing.
pub fn build_battery_state(feature_state: &FeatureState<BatterySystemState>) -> (state:
    UiBatteryState)
    ensures
        match feature_state {
            FeatureState::Ready(battery) => state.percentage == Some(battery.percentage)
                && state.charging_state == Some(battery.charging_state),
            _ => state.percentage is None && state.charging_state is None,
        },
{
    match feature_state {
        FeatureState::Ready(battery) => UiBatteryState {
            percentage: Some(battery.percentage),
            charging_state: Some(battery.charging_state),
        },
        _ => UiBatteryState { percentage: None, charging_state: None },
    }
}

} // verus!
