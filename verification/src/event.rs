//! The events that drive the dongle's display scene.

use vstd::prelude::*;

verus! {

/// Which battery a battery event is about.
#[derive(Clone, Copy, Debug, PartialEq, Eq, Structural)]
pub enum BatterySource {
    /// The dongle's own battery.
    Controller,
    /// The battery of the keyboard half with this peripheral id.
    Peripheral(u8),
}

/// The transport to the host that the top bar shows.
#[derive(Clone, Copy, Debug, PartialEq, Eq, Structural)]
pub enum OutputKind {
    Usb,
    Ble { profile: u8 },
    Esb { profile: u8 },
}

/// State of a link, as the connection indicator shows it.
#[derive(Clone, Copy, Debug, PartialEq, Eq, Structural)]
pub enum LinkState {
    Connected,
    Searching,
    Disconnected,
}

/// One of the bongocat's two paws.
#[derive(Clone, Copy, Debug, PartialEq, Eq, Structural)]
pub enum Paw {
    Left,
    Right,
}

/// The bongocat's pose in one frame: one of the two breathing frames while
/// the keyboard is idle, or a paw down on the drum while a key is pressed.
#[derive(Clone, Copy, Debug, PartialEq, Eq, Structural)]
pub enum CatPose {
    BreatheIn,
    BreatheOut,
    PawDown { paw: Paw },
}

/// One change of state handed to the display.
#[derive(Clone, Copy, Debug, PartialEq, Eq, Structural)]
pub enum DisplayEvent {
    OutputChanged { output: OutputKind },
    ConnectionChanged { state: LinkState },
    ProfileChanged { profile: u8 },
    LayerChanged { layer: u8 },
    WpmChanged { wpm: u16 },
    ModifiersChanged { modifiers: u8 },
    IndicatorsChanged { indicators: u8 },
    SleepChanged { sleeping: bool },
    BatteryChanged { source: BatterySource, percent: u8, charging: bool },
    BatteryUnavailable { source: BatterySource },
    AnimationTrigger { id: u8 },
    CatPoseShown { pose: CatPose },
}

} // verus!
