//! Opening the audio output: which devices are accepted, and what is made for them.

use vstd::prelude::*;
use crate::phase::PhaseAccumulator;
use crate::queue::{HandoffQueue, QueueError};

verus! {

/// The number of channels of a stereo stream, the only one supported.
pub const STEREO: u16 = 2;

/// The sample representations that an output device may ask for.
#[derive(Clone, Copy, Debug, PartialEq, Eq, Structural)]
pub enum SampleFormat {
    I8,
    I16,
    I32,
    I64,
    U8,
    U16,
    U32,
    U64,
    F32,
    F64,
}

/// What the default output device reports of itself.
#[derive(Clone, Copy, Debug, PartialEq, Eq, Structural)]
pub struct OutputConfig {
    pub sample_rate: u32,
    pub channels: u16,
    pub format: SampleFormat,
}

/// The configuration of the open stream, fixed for as long as it is open.
#[derive(Clone, Copy, Debug, PartialEq, Eq, Structural)]
pub struct AudioDeviceConfig {
    pub sample_rate: u32,
    pub channels: usize,
}

/// Why the audio output could not be opened.
#[derive(Clone, Copy, Debug, PartialEq, Eq, Structural)]
pub enum SetupError {
    /// The host has no output device.
    NoOutputDevice,
    /// The device has this many channels, not two.
    UnsupportedChannels(u16),
    /// The device asks for this sample format, not 32-bit floating point.
    UnsupportedFormat(SampleFormat),
    /// The device's sample rate is zero, or a second of stereo audio at that
    /// rate is more than a queue can hold.
    UnsupportedSampleRate(u32),
    /// The memory for the queue could not be had.
    QueueAllocation,
}

/// What is made when the audio output opens.
pub struct AudioSetup {
    pub config: AudioDeviceConfig,
    pub queue: HandoffQueue,
    pub phase: PhaseAccumulator,
}

/// The judgement on a device: its configuration if it is accepted, else the
/// first constraint that it fails, in the order device, channels, format, rate.
pub open spec fn accept_spec(device: Option<OutputConfig>) -> Result<
    AudioDeviceConfig,
    SetupError,
> {
    match device {
        None => Err(SetupError::NoOutputDevice),
        Some(c) => if c.channels != STEREO {
            Err(SetupError::UnsupportedChannels(c.channels))
        } else if c.format != SampleFormat::F32 {
            Err(SetupError::UnsupportedFormat(c.format))
        } else if c.sample_rate == 0 || queue_slots_spec(c.sample_rate as nat) > usize::MAX {
            Err(SetupError::UnsupportedSampleRate(c.sample_rate))
        } else {
            Ok(AudioDeviceConfig { sample_rate: c.sample_rate, channels: 2 })
        },
    }
}

/// The slots of the queue for a device: one second of stereo audio.
pub open spec fn queue_slots_spec(sample_rate: nat) -> nat {
    2 * sample_rate
}

/// The slots of the queue for a device, where a queue can have that many.
pub fn queue_slots(sample_rate: u32) -> (r: Option<usize>)
    ensures
        r.is_some() <==> queue_slots_spec(sample_rate as nat) <= usize::MAX,
        r matches Some(n) ==> n == queue_slots_spec(sample_rate as nat),
{
    let slots: u64 = 2 * (sample_rate as u64);
    if slots > usize::MAX as u64 {
        None
    } else {
        Some(slots as usize)
    }
}

/// Judges a device: accepts a stereo device with 32-bit floating point
/// samples and a usable sample rate, and names the constraint that any other
/// one fails.
pub fn accept_device(device: Option<OutputConfig>) -> (r: Result<AudioDeviceConfig, SetupError>)
    ensures
        r == accept_spec(device),
{
    match device {
        None => Err(SetupError::NoOutputDevice),
        Some(c) => {
            if c.channels != STEREO {
                return Err(SetupError::UnsupportedChannels(c.channels));
            }
            match c.format {
                SampleFormat::F32 => {},
                other => {
                    return Err(SetupError::UnsupportedFormat(other));
                },
            }
            if c.sample_rate == 0 || queue_slots(c.sample_rate).is_none() {
                return Err(SetupError::UnsupportedSampleRate(c.sample_rate));
            }
            Ok(AudioDeviceConfig { sample_rate: c.sample_rate, channels: 2 })
        },
    }
}

/// Puts together what an accepted device gets, from the queue that was made
/// for it: the configuration, the queue and the phase at the start of the
/// path; or the failure of the allocation.
pub fn assemble(config: AudioDeviceConfig, queue: Result<HandoffQueue, QueueError>) -> (r: Result<
    AudioSetup,
    SetupError,
>)
    ensures
        queue.is_ok() <==> r.is_ok(),
        queue.is_err() <==> r == Err::<AudioSetup, SetupError>(SetupError::QueueAllocation),
        r matches Ok(s) ==> s.config == config && Ok::<HandoffQueue, QueueError>(s.queue) == queue
            && s.phase == (PhaseAccumulator { steps: 0, rate: config.sample_rate }),
{
    match queue {
        Ok(q) => Ok(
            AudioSetup {
                config,
                queue: q,
                phase: PhaseAccumulator { steps: 0, rate: config.sample_rate },
            },
        ),
        Err(_) => Err(SetupError::QueueAllocation),
    }
}

/// Prepares the audio output for the default device, if there is one. A
/// device that is not accepted gives the constraint that it fails. For an
/// accepted one an empty queue of one second of stereo audio is made, and the
/// phase starts at zero; the only failure left is that of the allocation.
pub fn setup_audio(device: Option<OutputConfig>) -> (r: Result<AudioSetup, SetupError>)
    ensures
        accept_spec(device) matches Err(e) ==> r == Err::<AudioSetup, SetupError>(e),
        accept_spec(device) matches Ok(c) ==> (r matches Err(e) ==> e
            == SetupError::QueueAllocation),
        r matches Ok(s) ==> accept_spec(device) == Ok::<AudioDeviceConfig, SetupError>(s.config)
            && s.queue.wf() && s.queue@ == Seq::<i32>::empty() && s.queue.capacity_spec()
            == queue_slots_spec(s.config.sample_rate as nat) && s.phase.wf() && s.phase
            == (PhaseAccumulator { steps: 0, rate: s.config.sample_rate }),
{
    let config: AudioDeviceConfig = match accept_device(device) {
        Ok(c) => c,
        Err(e) => {
            return Err(e);
        },
    };
    match queue_slots(config.sample_rate) {
        Some(slots) => assemble(config, HandoffQueue::new(slots)),
        None => Err(SetupError::UnsupportedSampleRate(config.sample_rate)),
    }
}

} // verus!
