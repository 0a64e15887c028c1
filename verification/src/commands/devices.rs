//! Audio input device listing.

use vstd::prelude::*;

verus! {

/// An audio input device, flagged when it is the system default.
#[derive(Debug, Clone, PartialEq, Eq)]
pub struct AudioDevice {
    pub name: String,
    pub is_default: bool,
}

/// Whether a device name is the default input device's name.
pub open spec fn is_default_name(name: Seq<char>, default_name: Option<String>) -> bool {
    match default_name {
        Some(d) => d@ == name,
        None => false,
    }
}

/// `device` lists the device called `name`, flagged when it is the default.
pub open spec fn lists_device(device: AudioDevice, name: String, default_name: Option<String>) -> bool {
    device.name == name && device.is_default == is_default_name(name@, default_name)
}

/// List the devices named in `names`, in order, flagging the one whose name
/// is the default input device's.
pub fn flag_default_device(names: &[String], default_name: &Option<String>) -> (devices: Vec<AudioDevice>)
    ensures
        devices@.len() == names@.len(),
        forall|i: int|
            0 <= i < names@.len() ==> lists_device(#[trigger] devices@[i], names@[i], *default_name),
{
    let mut devices: Vec<AudioDevice> = Vec::new();
    let mut i: usize = 0;
    while i < names.len()
        invariant
            i <= names@.len(),
            devices@.len() == i,
            forall|k: int|
                0 <= k < i ==> lists_device(#[trigger] devices@[k], names@[k], *default_name),
        decreases names@.len() - i,
    {
        let name = names[i].clone();
        let is_default = match default_name {
            Some(d) => *d == name,
            None => false,
        };
        let device = AudioDevice { name, is_default };
        assert(lists_device(device, names@[i as int], *default_name));
        devices.push(device);
        i = i + 1;
    }
    devices
}

} // verus!
