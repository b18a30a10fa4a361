//! Decoded sound on its way to the sound device.
use vstd::prelude::*;

verus! {

/// Why a piece of sound cannot be played.
#[derive(Clone, Copy, PartialEq, Eq, Structural, Debug)]
pub enum AudioError {
    ZeroChannels,
    ZeroSampleRate,
}

/// A piece of sound for the device. Each sample is a single-precision number as it lay in memory.
pub struct SampleBlock {
    pub channels: u16,
    pub sample_rate: u32,
    pub samples: Vec<[u8; 4]>,
}

/// Whether `samples` are the bytes of `data` taken four at a time; what is left over at the end
/// is dropped.
pub open spec fn quartered(data: Seq<u8>, samples: Seq<[u8; 4]>) -> bool {
    &&& samples.len() == data.len() / 4
    &&& forall|i: int|
        #![trigger samples[i]]
        0 <= i < samples.len() ==> samples[i]@ == data.subrange(4 * i, 4 * i + 4)
}

impl AudioError {
    /// What is told to the user.
    pub open spec fn text(self) -> Seq<char> {
        match self {
            AudioError::ZeroChannels => "audio frame has zero channels"@,
            AudioError::ZeroSampleRate => "audio frame has zero sample rate"@,
        }
    }

    /// What is told to the user.
    pub fn message(self) -> (text: &'static str)
        ensures
            text@ == self.text(),
    {
        match self {
            AudioError::ZeroChannels => "audio frame has zero channels",
            AudioError::ZeroSampleRate => "audio frame has zero sample rate",
        }
    }
}

/// Prepares a piece of resampled sound for the device. Sound without channels or without a rate
/// is refused, the channels being looked at first; a piece that holds no whole sample gives
/// nothing to play.
pub fn queue_audio_buffer(channels: u16, sample_rate: u32, data: &[u8]) -> (res: Result<
    Option<SampleBlock>,
    AudioError,
>)
    ensures
        res == Err::<Option<SampleBlock>, AudioError>(AudioError::ZeroChannels) <==> channels == 0,
        res == Err::<Option<SampleBlock>, AudioError>(AudioError::ZeroSampleRate) <==> channels
            != 0 && sample_rate == 0,
        res is Ok <==> channels != 0 && sample_rate != 0,
        res matches Ok(block) ==> (block is Some <==> data@.len() >= 4),
        res matches Ok(Some(block)) ==> {
            &&& block.channels == channels
            &&& block.sample_rate == sample_rate
            &&& quartered(data@, block.samples@)
        },
{
    if channels == 0 {
        return Err(AudioError::ZeroChannels);
    }
    if sample_rate == 0 {
        return Err(AudioError::ZeroSampleRate);
    }
    let mut samples: Vec<[u8; 4]> = Vec::new();
    let len: usize = data.len();
    let count: usize = len / 4;
    for i in 0..count
        invariant
            len == data@.len(),
            count == len / 4,
            samples@.len() == i,
            forall|k: int|
                #![trigger samples@[k]]
                0 <= k < i ==> samples@[k]@ == data@.subrange(4 * k, 4 * k + 4),
    {
        let at: usize = 4 * i;
        let sample: [u8; 4] = [data[at], data[at + 1], data[at + 2], data[at + 3]];
        assert(sample@ =~= data@.subrange(4 * i as int, 4 * i + 4));
        samples.push(sample);
    }
    if samples.is_empty() {
        Ok(None)
    } else {
        Ok(Some(SampleBlock { channels, sample_rate, samples }))
    }
}

/// The channel layout to resample with: none where the decoder's own layout stands, or the number
/// of channels whose usual layout takes its place where the decoder names no layout.
pub fn fallback_layout(layout_is_empty: bool, channels: u16) -> (count: Option<i32>)
    ensures
        count == (if layout_is_empty {
            Some(channels as i32)
        } else {
            None::<i32>
        }),
{
    if layout_is_empty {
        Some(channels as i32)
    } else {
        None
    }
}

/// The samples of a piece of sound are its bytes, four at a time and in their order.
pub proof fn law_samples_are_the_bytes(data: Seq<u8>, samples: Seq<[u8; 4]>, i: int, k: int)
    requires
        quartered(data, samples),
        0 <= i < samples.len(),
        0 <= k < 4,
    ensures
        samples[i]@[k] == data[4 * i + k],
{
    assert(samples[i]@[k] == data.subrange(4 * i, 4 * i + 4)[k]);
}

/// As many samples are made as there are whole ones: fewer than four bytes are left over.
pub proof fn law_whole_samples_are_kept(data: Seq<u8>, samples: Seq<[u8; 4]>)
    requires
        quartered(data, samples),
    ensures
        4 * samples.len() <= data.len() < 4 * samples.len() + 4,
{
}

} // verus!
