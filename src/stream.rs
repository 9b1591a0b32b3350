use vstd::prelude::*;
use crate::config::{AudioConfig, DeviceId};
use crate::error::EngineError;
use crate::synth::Oscillator;
use crate::text::same_text;

verus! {

/// Index of the first backend named `wanted`.
pub open spec fn first_named(names: Seq<String>, wanted: Seq<char>, i: int) -> bool {
    0 <= i < names.len() && names[i]@ == wanted && forall|j: int| 0 <= j < i ==> names[j]@ != wanted
}

/// Index of the first device whose name is known and equal to `wanted`.
pub open spec fn first_device_named(names: Seq<Option<String>>, wanted: Seq<char>, i: int) -> bool {
    &&& 0 <= i < names.len()
    &&& names[i] is Some && names[i]->0@ == wanted
    &&& forall|j: int| 0 <= j < i ==> !(names[j] is Some && names[j]->0@ == wanted)
}

/// Finds the backend that a device identifier names; when there is none,
/// the device is not found.
pub fn select_host(hosts: &Vec<String>, id: &DeviceId) -> (r: Result<usize, EngineError>)
    ensures
        r is Ok ==> first_named(hosts@, id.host@, r->Ok_0 as int),
        r is Err ==> r->Err_0 == EngineError::DeviceNotFound,
        r is Err <==> forall|j: int| 0 <= j < hosts@.len() ==> hosts@[j]@ != id.host@,
{
    let mut i: usize = 0;
    while i < hosts.len()
        invariant
            i <= hosts@.len(),
            forall|j: int| 0 <= j < i ==> hosts@[j]@ != id.host@,
        decreases hosts@.len() - i,
    {
        if same_text(hosts[i].as_str(), id.host.as_str()) {
            return Ok(i);
        }
        i = i + 1;
    }
    Err(EngineError::DeviceNotFound)
}

/// Finds, among a backend's devices (`None` where a name could not be
/// read), the one a device identifier names.
pub fn select_device(names: &Vec<Option<String>>, id: &DeviceId) -> (r: Result<usize, EngineError>)
    ensures
        r is Ok ==> first_device_named(names@, id.name@, r->Ok_0 as int),
        r is Err ==> r->Err_0 == EngineError::DeviceNotFound,
        r is Err <==> forall|j: int| 0 <= j < names@.len() ==> !(names@[j] is Some && names@[j]->0@ == id.name@),
{
    let mut i: usize = 0;
    while i < names.len()
        invariant
            i <= names@.len(),
            forall|j: int| 0 <= j < i ==> !(names@[j] is Some && names@[j]->0@ == id.name@),
        decreases names@.len() - i,
    {
        match &names[i] {
            Some(n) => {
                if same_text(n.as_str(), id.name.as_str()) {
                    return Ok(i);
                }
            },
            None => {},
        }
        i = i + 1;
    }
    Err(EngineError::DeviceNotFound)
}

/// The stream format for a configuration on a device with `native_channels`
/// channels: the configured sample rate, the device's channel count.
pub fn negotiate(config: &AudioConfig, native_channels: u16) -> (r: Result<Oscillator, EngineError>)
    ensures
        r is Err <==> (config.sample_rate == 0 || native_channels == 0),
        r is Err ==> r->Err_0 == EngineError::UnsupportedConfig,
        r is Ok ==> r->Ok_0.wf() && r->Ok_0.phase == 0 && r->Ok_0.sample_rate == config.sample_rate
            && r->Ok_0.channels == native_channels,
{
    if config.sample_rate == 0 || native_channels == 0 {
        Err(EngineError::UnsupportedConfig)
    } else {
        Ok(Oscillator::new(config.sample_rate, native_channels))
    }
}

} // verus!
