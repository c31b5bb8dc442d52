//! Device selection: what to make of the list of input devices that the
//! operating system reported.

use crate::audio::AudioDeviceInfo;
use vstd::prelude::*;
use vstd::string::StringExecFns;

verus! {

#[derive(Debug, Clone, PartialEq, Eq)]
pub enum DeviceError {
    /// The audio subsystem could not be queried.
    EnumerationError(String),
    /// No device is there, or none is marked as the default.
    NoDevicesFound,
}

impl DeviceError {
    pub open spec fn message_spec(self) -> Seq<char> {
        match self {
            DeviceError::EnumerationError(detail) => "Failed to enumerate audio devices: "@
                + detail@,
            DeviceError::NoDevicesFound => "No audio input devices found"@,
        }
    }

    /// The text shown to the user.
    pub fn message(&self) -> (text: String)
        ensures
            text@ == self.message_spec(),
    {
        match self {
            DeviceError::EnumerationError(detail) => String::from_str(
                "Failed to enumerate audio devices: ",
            ).concat(detail.as_str()),
            DeviceError::NoDevicesFound => String::from_str("No audio input devices found"),
        }
    }
}

/// `index` is where the first device marked as the default stands.
pub open spec fn is_first_default(devices: Seq<AudioDeviceInfo>, index: int) -> bool {
    &&& 0 <= index < devices.len()
    &&& devices[index].is_default
    &&& forall|earlier: int| 0 <= earlier < index ==> !(#[trigger] devices[earlier]).is_default
}

/// No device is marked as the default.
pub open spec fn no_default(devices: Seq<AudioDeviceInfo>) -> bool {
    forall|index: int| 0 <= index < devices.len() ==> !(#[trigger] devices[index]).is_default
}

/// Where the first device marked as the default stands, if there is one.
pub fn find_default(devices: &[AudioDeviceInfo]) -> (found: Option<usize>)
    ensures
        match found {
            Some(index) => is_first_default(devices@, index as int),
            None => no_default(devices@),
        },
{
    let mut index: usize = 0;
    while index < devices.len()
        invariant
            index <= devices.len(),
            forall|earlier: int| 0 <= earlier < index ==> !(#[trigger] devices@[earlier]).is_default,
        decreases devices.len() - index,
    {
        if devices[index].is_default {
            return Some(index);
        }
        index += 1;
    }
    None
}

/// The devices that a query of the audio subsystem found, or the error to
/// report where the query failed with `reason`. The list is passed on as it
/// came: nothing is cached, dropped or reordered.
pub fn list_devices(query: Result<Vec<AudioDeviceInfo>, String>) -> (result: Result<
    Vec<AudioDeviceInfo>,
    DeviceError,
>)
    ensures
        match query {
            Ok(found) => result == Ok::<Vec<AudioDeviceInfo>, DeviceError>(found),
            Err(reason) => result == Err::<Vec<AudioDeviceInfo>, DeviceError>(
                DeviceError::EnumerationError(reason),
            ),
        },
{
    match query {
        Ok(found) => Ok(found),
        Err(reason) => Err(DeviceError::EnumerationError(reason)),
    }
}

/// The default input device: the first one of the query's list that is
/// marked as the default. A failed query is reported as such; a list that is
/// empty or has no default gives `NoDevicesFound`.
pub fn get_default_device(query: Result<Vec<AudioDeviceInfo>, String>) -> (result: Result<
    AudioDeviceInfo,
    DeviceError,
>)
    ensures
        match query {
            Err(reason) => result == Err::<AudioDeviceInfo, DeviceError>(
                DeviceError::EnumerationError(reason),
            ),
            Ok(found) => match result {
                Ok(device) => exists|index: int| #[trigger]
                    is_first_default(found@, index) && device == found@[index],
                Err(error) => error == DeviceError::NoDevicesFound && no_default(found@),
            },
        },
{
    let mut found = list_devices(query)?;
    match find_default(found.as_slice()) {
        Some(index) => Ok(found.remove(index)),
        None => Err(DeviceError::NoDevicesFound),
    }
}

/// A list has a first default device or no default device, never both, and
/// the first one is unique: the choice of the default device is determined
/// by the list alone.
pub proof fn default_device_is_determined(devices: Seq<AudioDeviceInfo>, first: int, second: int)
    ensures
        is_first_default(devices, first) ==> !no_default(devices),
        is_first_default(devices, first) && is_first_default(devices, second) ==> first == second,
        (exists|index: int| is_first_default(devices, index)) || no_default(devices),
    decreases devices.len(),
{
    if is_first_default(devices, first) && is_first_default(devices, second) {
        if first < second {
            assert(!devices[first].is_default);
        }
        if second < first {
            assert(!devices[second].is_default);
        }
    }
    if !no_default(devices) {
        let some = choose|index: int| 0 <= index < devices.len() && (#[trigger] devices[index]).is_default;
        lemma_first_default_exists(devices, some);
    }
}

proof fn lemma_first_default_exists(devices: Seq<AudioDeviceInfo>, some: int)
    requires
        0 <= some < devices.len(),
        devices[some].is_default,
    ensures
        exists|index: int| is_first_default(devices, index),
    decreases some,
{
    if exists|earlier: int| 0 <= earlier < some && (#[trigger] devices[earlier]).is_default {
        let earlier = choose|earlier: int| 0 <= earlier < some && (#[trigger] devices[earlier]).is_default;
        lemma_first_default_exists(devices, earlier);
    } else {
        assert(is_first_default(devices, some));
    }
}

} // verus!
