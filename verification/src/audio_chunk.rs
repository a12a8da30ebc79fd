//! Audio on its way through the recorder.

use vstd::prelude::*;

use crate::recording_state::model::DeviceType;

verus! {

/// A stretch of captured audio. Times count nanoseconds from the start of the recording.
#[derive(Debug)]
pub struct AudioChunk<T> {
    pub data: Vec<T>,
    pub sample_rate: u32,
    pub timestamp_ns: u64,
    pub chunk_id: u64,
    pub device_type: DeviceType,
    pub device_epoch: u64,
    pub capture_qpc_ns: Option<u64>,
}

/// What an `AudioChunk` stands for.
#[verifier::ext_equal]
pub struct Chunk<T> {
    pub data: Seq<T>,
    pub sample_rate: u32,
    pub timestamp_ns: u64,
    pub chunk_id: u64,
    pub device_type: DeviceType,
    pub device_epoch: u64,
    pub capture_qpc_ns: Option<u64>,
}

impl<T> View for AudioChunk<T> {
    type V = Chunk<T>;

    open spec fn view(&self) -> Chunk<T> {
        Chunk {
            data: self.data@,
            sample_rate: self.sample_rate,
            timestamp_ns: self.timestamp_ns,
            chunk_id: self.chunk_id,
            device_type: self.device_type,
            device_epoch: self.device_epoch,
            capture_qpc_ns: self.capture_qpc_ns,
        }
    }
}

/// What a list of chunks stands for.
pub open spec fn chunk_views<T>(chunks: Seq<AudioChunk<T>>) -> Seq<Chunk<T>> {
    Seq::new(chunks.len(), |i: int| chunks[i]@)
}

/// A stretch of audio ready to be recorded.
#[derive(Debug)]
pub struct ProcessedAudioChunk<T> {
    pub data: Vec<T>,
    pub sample_rate: u32,
    pub timestamp_ns: u64,
    pub device_type: DeviceType,
}

/// Nanoseconds in a second.
pub const NANOS_PER_SECOND: u64 = 1_000_000_000;

/// How long `samples` samples last, in whole nanoseconds.
pub open spec fn duration_ns(samples: nat, sample_rate: nat) -> nat {
    samples * NANOS_PER_SECOND as nat / sample_rate
}

/// How long `samples` samples last, in whole nanoseconds.
pub fn duration_of(samples: usize, sample_rate: u32) -> (r: u128)
    requires
        sample_rate > 0,
    ensures
        r == duration_ns(samples as nat, sample_rate as nat),
{
    assert(samples * NANOS_PER_SECOND <= u64::MAX * 1_000_000_000) by (nonlinear_arith)
        requires
            samples <= u64::MAX,
            NANOS_PER_SECOND == 1_000_000_000,
    ;
    samples as u128 * NANOS_PER_SECOND as u128 / sample_rate as u128
}

/// Law: samples last as long as their number and rate say, to less than a nanosecond: `samples` of
/// them at `sample_rate` per second, and a whole second of them exactly one.
pub proof fn samples_last_as_long_as_their_rate_says(samples: nat, sample_rate: nat)
    requires
        sample_rate > 0,
    ensures
        duration_ns(samples, sample_rate) * sample_rate <= samples * 1_000_000_000,
        samples * 1_000_000_000 < (duration_ns(samples, sample_rate) + 1) * sample_rate,
        duration_ns(sample_rate, sample_rate) == 1_000_000_000,
{
    let total = (samples * 1_000_000_000) as int;
    let rate = sample_rate as int;
    vstd::arithmetic::div_mod::lemma_fundamental_div_mod(total, rate);
    vstd::arithmetic::div_mod::lemma_mod_bound(total, rate);
    let d = total / rate;
    assert(rate * d == d * rate && (d + 1) * rate == d * rate + rate) by (nonlinear_arith);
    vstd::arithmetic::div_mod::lemma_div_multiples_vanish(1_000_000_000, rate);
    assert(sample_rate * 1_000_000_000 == rate * 1_000_000_000);
}

} // verus!
