use crate::source::{lemma_pulls_in_order, pulls, NOMINAL_CHANNELS, NOMINAL_RATE};
use vstd::prelude::*;

verus! {

/// How the output device represents a sample.
#[derive(Debug, Clone, Copy, PartialEq, Eq, Structural)]
pub enum SampleRepr {
    F32,
    I16,
    U16,
}

/// A concrete stream format: interleaved channel count, sample rate in Hz and
/// sample representation.
#[derive(Debug, Clone, Copy, PartialEq, Eq, Structural)]
pub struct StreamFormat {
    pub channels: u16,
    pub sample_rate: u32,
    pub repr: SampleRepr,
}

/// A family of formats a device supports: one channel count and
/// representation over a range of sample rates.
#[derive(Debug, Clone, Copy, PartialEq, Eq, Structural)]
pub struct FormatRange {
    pub channels: u16,
    pub min_rate: u32,
    pub max_rate: u32,
    pub repr: SampleRepr,
}

/// The format of `range` at its highest sample rate.
pub open spec fn at_max_rate(range: FormatRange) -> StreamFormat {
    StreamFormat { channels: range.channels, sample_rate: range.max_rate, repr: range.repr }
}

/// Whether `f` is the nominal format of the incoming stream.
pub open spec fn nominal(f: StreamFormat) -> bool {
    f.channels == NOMINAL_CHANNELS && f.sample_rate == NOMINAL_RATE
}

impl FormatRange {
    /// This family's format at its highest sample rate.
    pub fn with_max_rate(&self) -> (r: StreamFormat)
        ensures
            r == at_max_rate(*self),
    {
        StreamFormat { channels: self.channels, sample_rate: self.max_rate, repr: self.repr }
    }
}

/// Whether `f` has the channel count and sample rate of the incoming stream.
pub fn is_nominal(f: StreamFormat) -> (r: bool)
    ensures
        r == nominal(f),
{
    f.channels == NOMINAL_CHANNELS && f.sample_rate == NOMINAL_RATE
}

/// The output format for an explicitly requested sample rate: the first
/// supported family whose highest rate is the one requested, at that rate.
/// `None` when no rate was requested or no family has it as its highest
/// rate; the device's default format is then used.
pub fn choose_format(supported: &[FormatRange], requested: Option<u32>) -> (r: Option<StreamFormat>)
    ensures
        requested is None ==> r is None,
        requested matches Some(rate) ==> {
            &&& r is None <==> (forall|i: int| 0 <= i < supported@.len() ==> supported@[i].max_rate != rate)
            &&& r matches Some(f) ==> exists|i: int|
                0 <= i < supported@.len() && supported@[i].max_rate == rate
                && (forall|j: int| 0 <= j < i ==> supported@[j].max_rate != rate)
                && f == at_max_rate(#[trigger] supported@[i])
        },
{
    let rate = match requested {
        Some(rate) => rate,
        None => return None,
    };
    let mut i: usize = 0;
    while i < supported.len()
        invariant
            0 <= i <= supported@.len(),
            requested == Some(rate),
            forall|j: int| 0 <= j < i ==> supported@[j].max_rate != rate,
        decreases supported@.len() - i,
    {
        if supported[i].max_rate == rate {
            let f = supported[i].with_max_rate();
            assert(f == at_max_rate(supported@[i as int]));
            return Some(f);
        }
        i = i + 1;
    }
    None
}

/// How the nominal stream reaches the device.
#[derive(Debug, Clone, Copy, PartialEq, Eq, Structural)]
pub enum RenderPath {
    /// Samples go to the device as they are, without channel or rate adaptation.
    Bypass,
    /// Samples are mapped to `channels` channels and resampled to `sample_rate` Hz.
    Adapt { channels: u16, sample_rate: u32 },
}

/// The render path for a device format; `bypass` skips adaptation.
pub open spec fn path_for(device: StreamFormat, bypass: bool) -> RenderPath {
    if bypass {
        RenderPath::Bypass
    } else {
        RenderPath::Adapt { channels: device.channels, sample_rate: device.sample_rate }
    }
}

/// On a device in the nominal format with bypass engaged, samples reach the
/// device untouched: the path is `Bypass`, and pulling from a source as many
/// samples as its backlog holds gives exactly those samples, in order.
pub proof fn lemma_bypass_passes_through(device: StreamFormat, backlog: Seq<u32>)
    requires
        nominal(device),
    ensures
        path_for(device, true) == RenderPath::Bypass,
        pulls(backlog, backlog.len()) == backlog,
{
    lemma_pulls_in_order(backlog);
}

/// The render path for a device format; `bypass` skips adaptation.
pub fn render_path(device: StreamFormat, bypass: bool) -> (r: RenderPath)
    ensures
        r == path_for(device, bypass),
{
    if bypass {
        RenderPath::Bypass
    } else {
        RenderPath::Adapt { channels: device.channels, sample_rate: device.sample_rate }
    }
}

} // verus!
