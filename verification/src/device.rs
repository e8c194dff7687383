//! Output-device bookkeeping: the named device, the registry of device
//! names, the resolution of a name to one device, and the arithmetic of
//! the output ring buffer. Talking to the operating-system audio host
//! happens outside the crate, against the choices made here.

use vstd::prelude::*;
use vstd::string::StringExecFns;

verus! {

/// Name of the registry entry that stands for the host's default device.
pub open spec fn spec_default_name() -> Seq<char> {
    "Default Device"@
}

/// An output device, chosen by name.
#[derive(Clone, Debug)]
pub struct AudioOutputDevice {
    /// Name of the audio output device.
    pub device_name: String,
}

impl AudioOutputDevice {
    /// A device from its name.
    pub fn from_str(device_name: &str) -> (r: AudioOutputDevice)
        ensures
            r.device_name@ == device_name@,
    {
        AudioOutputDevice { device_name: device_name.to_owned() }
    }

    /// Human-readable name of the device.
    pub fn human(&self) -> (r: String)
        ensures
            r@ == self.device_name@,
    {
        self.device_name.clone()
    }
}

impl Default for AudioOutputDevice {
    /// The host's default device.
    fn default() -> (r: AudioOutputDevice)
        ensures
            r.device_name@ == spec_default_name(),
    {
        AudioOutputDevice { device_name: String::from_str("Default Device") }
    }
}

/// Errors of the output layer; each carries its reason.
#[derive(Debug)]
pub enum AudioOutputError {
    /// Building the platform stream failed.
    OpenStream(String),
    /// Starting or pausing the platform stream failed.
    PlayStream(String),
    /// The platform stream went away.
    StreamClosed(String),
    /// No single device carries the asked name.
    InvalidOutputDevice(String),
    /// A channel to the engine failed.
    Channel(String),
    /// The decoded signal description cannot be used.
    InvalidSpec(String),
    /// The device does not take 32-bit float samples.
    NonF32(String),
    /// Resampling failed.
    Resampler(String),
}

impl AudioOutputError {
    /// The reason carried, whatever the kind.
    pub fn into_message(self) -> (r: String)
        ensures
            r@ == (match self {
                AudioOutputError::OpenStream(s) => s@,
                AudioOutputError::PlayStream(s) => s@,
                AudioOutputError::StreamClosed(s) => s@,
                AudioOutputError::InvalidOutputDevice(s) => s@,
                AudioOutputError::Channel(s) => s@,
                AudioOutputError::InvalidSpec(s) => s@,
                AudioOutputError::NonF32(s) => s@,
                AudioOutputError::Resampler(s) => s@,
            }),
    {
        match self {
            AudioOutputError::OpenStream(s) => s,
            AudioOutputError::PlayStream(s) => s,
            AudioOutputError::StreamClosed(s) => s,
            AudioOutputError::InvalidOutputDevice(s) => s,
            AudioOutputError::Channel(s) => s,
            AudioOutputError::InvalidSpec(s) => s,
            AudioOutputError::NonF32(s) => s,
            AudioOutputError::Resampler(s) => s,
        }
    }
}

/// What a device name resolves to.
#[derive(Clone, Copy, Debug, PartialEq, Eq, Structural)]
pub enum DeviceChoice {
    /// The host's default output device.
    SystemDefault,
    /// The device at this position of the registry given.
    Device(usize),
}

/// How many of the names equal the target.
pub open spec fn spec_count_matches(names: Seq<String>, target: Seq<char>) -> nat
    decreases names.len(),
{
    if names.len() == 0 {
        0
    } else {
        spec_count_matches(names.drop_last(), target) + (if names.last()@ == target {
            1nat
        } else {
            0nat
        })
    }
}

/// Resolve a device name against the registry of device names: the
/// default name picks the host default; any other name must match
/// exactly one entry — none or several is an error.
pub fn resolve_device(names: &Vec<String>, target: &AudioOutputDevice) -> (r: Result<
    DeviceChoice,
    AudioOutputError,
>)
    ensures
        target.device_name@ == spec_default_name() ==> r == Ok::<DeviceChoice, AudioOutputError>(
            DeviceChoice::SystemDefault,
        ),
        target.device_name@ != spec_default_name() ==> match r {
            Ok(DeviceChoice::Device(i)) => {
                &&& spec_count_matches(names@, target.device_name@) == 1
                &&& i < names@.len()
                &&& names@[i as int]@ == target.device_name@
            },
            Ok(DeviceChoice::SystemDefault) => false,
            Err(e) => spec_count_matches(names@, target.device_name@) != 1 && e is
                InvalidOutputDevice,
        },
{
    let default_name = String::from_str("Default Device");
    if target.device_name == default_name {
        return Ok(DeviceChoice::SystemDefault);
    }
    let n = names.len();
    let mut count: usize = 0;
    let mut found: usize = 0;
    let mut j: usize = 0;
    while j < n
        invariant
            j <= n,
            n == names@.len(),
            count == spec_count_matches(names@.subrange(0, j as int), target.device_name@),
            count <= j,
            count >= 1 ==> found < j && names@[found as int]@ == target.device_name@,
        decreases n - j,
    {
        proof {
            assert(names@.subrange(0, j + 1).drop_last() =~= names@.subrange(0, j as int));
            assert(names@.subrange(0, j + 1).last() == names@[j as int]);
        }
        if names[j] == target.device_name {
            if count == 0 {
                found = j;
            }
            count = count + 1;
        }
        j = j + 1;
    }
    proof {
        assert(names@.subrange(0, n as int) =~= names@);
    }
    if count == 1 {
        Ok(DeviceChoice::Device(found))
    } else {
        Err(
            AudioOutputError::InvalidOutputDevice(
                String::from_str("no single output device carries that name"),
            ),
        )
    }
}

/// The registry of selectable device names: the default name first, then
/// the host's device names as given.
pub fn device_registry(names: Vec<String>) -> (r: Vec<String>)
    ensures
        r@.len() == names@.len() + 1,
        r@[0]@ == spec_default_name(),
        forall|i: int| 0 <= i < names@.len() ==> r@[i + 1] == names@[i],
{
    let mut r: Vec<String> = Vec::new();
    r.push(String::from_str("Default Device"));
    let n = names.len();
    let mut rest = names;
    let mut i: usize = 0;
    while i < n
        invariant
            i <= n,
            n == rest@.len(),
            r@.len() == i + 1,
            r@[0]@ == spec_default_name(),
            forall|p: int| 0 <= p < i ==> r@[p + 1] == rest@[p],
        decreases n - i,
    {
        let name = rest[i].clone();
        r.push(name);
        i = i + 1;
    }
    r
}

/// The signal description of a PCM stream: channel count and sample rate.
#[derive(Clone, Copy, Debug, PartialEq, Eq, Structural)]
pub struct SignalSpec {
    /// Number of channels.
    pub channels: usize,
    /// Sample rate in Hz.
    pub rate: u32,
}

/// Whether the decoded signal differs from what the stream was opened
/// with, so the stream must be rebuilt.
pub fn needs_reopen(
    decoded: SignalSpec,
    duration: u64,
    current: SignalSpec,
    current_duration: u64,
) -> (r: bool)
    ensures
        r == (decoded != current || duration != current_duration),
{
    decoded.channels != current.channels || decoded.rate != current.rate || duration
        != current_duration
}

/// Samples the output ring buffer holds: fifty milliseconds of audio at
/// the given rate, interleaved over the channels.
pub fn ring_len(rate: u32, channels: usize) -> (r: usize)
    requires
        50 * rate <= usize::MAX,
        (50 * rate / 1000) * channels <= usize::MAX,
    ensures
        r == (50 * rate / 1000) * channels,
{
    ((50 * (rate as usize)) / 1000) * channels
}

} // verus!
