//! The snapshot of the attached input devices and the queries on it.
//!
//! The poll loop is the only writer of the snapshot. Every query is a read
//! and answers from what the last successful poll found.

use vstd::prelude::*;

verus! {

/// The position of one axis, held as the bit pattern of the single-precision
/// number the device driver reports. The snapshot carries positions and never
/// computes on them.
#[derive(Clone, Copy, Debug, PartialEq, Eq, Hash, Structural)]
pub struct AxisValue {
    bits: u32,
}

impl AxisValue {
    /// The bit pattern of the position.
    pub closed spec fn pattern(self) -> u32 {
        self.bits
    }

    /// The position at rest: the bit pattern of zero.
    pub open spec fn neutral() -> AxisValue {
        AxisValue::with_pattern(NEUTRAL_AXIS)
    }

    /// The position with the given bit pattern.
    pub closed spec fn with_pattern(bits: u32) -> AxisValue {
        AxisValue { bits }
    }

    /// The position with the given bit pattern.
    pub fn from_bits(bits: u32) -> (v: AxisValue)
        ensures
            v == AxisValue::with_pattern(bits),
    {
        AxisValue { bits }
    }

    /// The bit pattern of the position.
    pub fn to_bits(&self) -> (bits: u32)
        ensures
            bits == self.pattern(),
    {
        self.bits
    }

    /// A position is its bit pattern and nothing else.
    pub proof fn lemma_pattern_decides(a: AxisValue, bits: u32)
        ensures
            AxisValue::with_pattern(bits).pattern() == bits,
            AxisValue::with_pattern(a.pattern()) == a,
    {
    }
}

/// The bit pattern an axis reads when nothing moves it, and what is answered
/// for an axis or a device that does not exist.
pub const NEUTRAL_AXIS: u32 = 0;

/// What is answered for a button that does not exist: not pressed.
pub const NEUTRAL_BUTTON: bool = false;

/// What a hat switch reads when it is not pushed, and what is answered for
/// one that does not exist.
pub const NEUTRAL_POV: i16 = -1;

/// The live values of one device, as plain sequences.
pub struct DeviceModel {
    pub axes: Seq<AxisValue>,
    pub buttons: Seq<bool>,
    pub povs: Seq<i16>,
}

/// The live values of one attached input device.
#[derive(Debug)]
pub struct Device {
    axes: Vec<AxisValue>,
    buttons: Vec<bool>,
    povs: Vec<i16>,
}

impl View for Device {
    type V = DeviceModel;

    closed spec fn view(&self) -> DeviceModel {
        DeviceModel { axes: self.axes@, buttons: self.buttons@, povs: self.povs@ }
    }
}

impl Device {
    /// A device with the given values.
    pub fn new(axes: Vec<AxisValue>, buttons: Vec<bool>, povs: Vec<i16>) -> (d: Device)
        ensures
            d@.axes == axes@,
            d@.buttons == buttons@,
            d@.povs == povs@,
    {
        Device { axes, buttons, povs }
    }
}

/// The value of axis `axis` of device `device`, neutral where either does not
/// exist.
pub open spec fn axis_of(devices: Seq<DeviceModel>, device: int, axis: int) -> AxisValue {
    if 0 <= device < devices.len() && 0 <= axis < devices[device].axes.len() {
        devices[device].axes[axis]
    } else {
        AxisValue::neutral()
    }
}

/// Whether button `button` of device `device` is pressed, not pressed where
/// either does not exist.
pub open spec fn button_of(devices: Seq<DeviceModel>, device: int, button: int) -> bool {
    if 0 <= device < devices.len() && 0 <= button < devices[device].buttons.len() {
        devices[device].buttons[button]
    } else {
        NEUTRAL_BUTTON
    }
}

/// The angle of hat switch `pov` of device `device`, neutral where either
/// does not exist.
pub open spec fn pov_of(devices: Seq<DeviceModel>, device: int, pov: int) -> i16 {
    if 0 <= device < devices.len() && 0 <= pov < devices[device].povs.len() {
        devices[device].povs[pov]
    } else {
        NEUTRAL_POV
    }
}

/// The plain values of a list of devices, device by device.
pub open spec fn models(devices: Seq<Device>) -> Seq<DeviceModel> {
    Seq::new(devices.len(), |i: int| devices[i]@)
}

/// The cache of the attached input devices and their live values.
#[derive(Debug)]
pub struct DeviceSnapshot {
    devices: Vec<Device>,
}

impl View for DeviceSnapshot {
    type V = Seq<DeviceModel>;

    closed spec fn view(&self) -> Seq<DeviceModel> {
        models(self.devices@)
    }
}

impl DeviceSnapshot {
    /// The snapshot before the first poll: no device.
    pub fn new() -> (s: DeviceSnapshot)
        ensures
            s@ == Seq::<DeviceModel>::empty(),
    {
        DeviceSnapshot { devices: Vec::new() }
    }

    /// Records the outcome of one poll. A poll that found its devices
    /// replaces the snapshot; a poll that failed is skipped and the snapshot
    /// stays as it was.
    pub fn refresh(&mut self, polled: Option<Vec<Device>>)
        ensures
            final(self)@ == match polled {
                Some(devices) => models(devices@),
                None => old(self)@,
            },
    {
        match polled {
            Some(devices) => {
                self.devices = devices;
            },
            None => {},
        }
    }

    /// How many devices are attached.
    pub fn device_count(&self) -> (n: usize)
        ensures
            n == self@.len(),
    {
        self.devices.len()
    }

    /// Whether any device is attached.
    pub fn has_joysticks(&self) -> (present: bool)
        ensures
            present == (self@.len() > 0),
    {
        self.devices.len() > 0
    }

    /// The value of one axis, neutral where the device or the axis does not
    /// exist.
    pub fn axis(&self, device: usize, axis: usize) -> (value: AxisValue)
        ensures
            value == axis_of(self@, device as int, axis as int),
    {
        if device < self.devices.len() {
            let d = &self.devices[device];
            if axis < d.axes.len() {
                return d.axes[axis];
            }
        }
        AxisValue::from_bits(NEUTRAL_AXIS)
    }

    /// Whether one button is pressed, not pressed where the device or the
    /// button does not exist.
    pub fn button(&self, device: usize, button: usize) -> (pressed: bool)
        ensures
            pressed == button_of(self@, device as int, button as int),
    {
        if device < self.devices.len() {
            let d = &self.devices[device];
            if button < d.buttons.len() {
                return d.buttons[button];
            }
        }
        NEUTRAL_BUTTON
    }

    /// The angle of one hat switch, neutral where the device or the switch
    /// does not exist.
    pub fn pov(&self, device: usize, pov: usize) -> (angle: i16)
        ensures
            angle == pov_of(self@, device as int, pov as int),
    {
        if device < self.devices.len() {
            let d = &self.devices[device];
            if pov < d.povs.len() {
                return d.povs[pov];
            }
        }
        NEUTRAL_POV
    }
}

/// With no device attached, presence is denied and every query answers its
/// neutral value.
pub proof fn lemma_no_devices_reads_neutral(device: int, index: int)
    ensures
        axis_of(Seq::<DeviceModel>::empty(), device, index) == AxisValue::neutral(),
        button_of(Seq::<DeviceModel>::empty(), device, index) == NEUTRAL_BUTTON,
        pov_of(Seq::<DeviceModel>::empty(), device, index) == NEUTRAL_POV,
{
}

} // verus!
