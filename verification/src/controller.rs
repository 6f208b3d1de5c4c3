//! The device registry: the cameras the shell considers connected.

use vstd::prelude::*;
use vstd::string::*;
use crate::text::{all_distinct, eq_ignore_case, first_match, has_name, same_name};

verus! {

/// A connected camera: its name and its last-known recording state.
#[derive(Debug)]
pub struct GoPro {
    pub name: String,
    pub recording: bool,
}

/// What a `GoPro` stands for in contracts.
pub struct DeviceModel {
    pub name: Seq<char>,
    pub recording: bool,
}

impl DeepView for GoPro {
    type V = DeviceModel;

    open spec fn deep_view(&self) -> DeviceModel {
        DeviceModel { name: self.name@, recording: self.recording }
    }
}

/// The names of the registry's devices, in registry order.
pub open spec fn device_names(devices: Seq<DeviceModel>) -> Seq<Seq<char>> {
    Seq::new(devices.len(), |i: int| devices[i].name)
}

/// The registry's invariant: no two devices go by the same name, whatever
/// the case of its letters.
pub open spec fn names_distinct(devices: Seq<DeviceModel>) -> bool {
    all_distinct(device_names(devices))
}

/// Some device of the registry goes by `name`.
pub open spec fn holds_name(devices: Seq<DeviceModel>, name: Seq<char>) -> bool {
    has_name(device_names(devices), name)
}

/// The devices that a scan listing stands for: one per name, in the
/// listing's order, none of them recording.
pub open spec fn discovered(names: Seq<Seq<char>>) -> Seq<DeviceModel> {
    Seq::new(names.len(), |i: int| DeviceModel { name: names[i], recording: false })
}

impl GoPro {
    /// A device that is not recording.
    pub fn new(name: String) -> (device: Self)
        ensures
            device.deep_view() == (DeviceModel { name: name@, recording: false }),
    {
        GoPro { name, recording: false }
    }

    /// Starting a recording through a registry entry is not there yet: the
    /// entry stays as it is.
    pub fn record(&self) {
    }

    /// Stopping a recording through a registry entry is not there yet: the
    /// entry stays as it is.
    pub fn stop_record(&self) {
    }

    /// Notes the recording state that the device has confirmed.
    pub fn set_recording(&mut self, on: bool)
        ensures
            final(self).deep_view() == (DeviceModel { name: old(self).name@, recording: on }),
    {
        self.recording = on;
    }
}

/// Turns a scan listing into devices.
pub fn discover(names: &Vec<String>) -> (devices: Vec<GoPro>)
    ensures
        devices.deep_view() == discovered(names.deep_view()),
{
    let mut devices: Vec<GoPro> = Vec::new();
    let mut i: usize = 0;
    while i < names.len()
        invariant
            i <= names.len(),
            devices.len() == i,
            forall|j: int|
                0 <= j < i ==> #[trigger] devices[j].deep_view() == (DeviceModel {
                    name: names[j]@,
                    recording: false,
                }),
        decreases names.len() - i,
    {
        devices.push(GoPro::new(names[i].clone()));
        i += 1;
    }
    assert(devices.deep_view() =~= discovered(names.deep_view()));
    devices
}

/// The place of the first device that goes by `name`, if there is one.
pub fn find_device(devices: &Vec<GoPro>, name: &str) -> (found: Option<usize>)
    ensures
        match found {
            Some(i) => first_match(device_names(devices.deep_view()), name@, i as int),
            None => !holds_name(devices.deep_view(), name@),
        },
{
    let ghost names = device_names(devices.deep_view());
    let mut i: usize = 0;
    while i < devices.len()
        invariant
            i <= devices.len(),
            names == device_names(devices.deep_view()),
            forall|j: int| 0 <= j < i ==> !same_name(#[trigger] names[j], name@),
        decreases devices.len() - i,
    {
        if eq_ignore_case(devices[i].name.as_str(), name) {
            assert(names[i as int] == devices[i as int].name@);
            return Some(i);
        }
        assert(names[i as int] == devices[i as int].name@);
        i += 1;
    }
    None
}

} // verus!
