//! Tags that arrive from the host as small integers and are validated once.
use vstd::prelude::*;

verus! {

/// How a fractional read blends the neighbouring cells.
#[derive(Copy, Clone, Debug, PartialEq, Eq, Structural)]
pub enum InterpolationType {
    Cubic,
    Linear,
}

/// The direction in which grains are played back.
#[derive(Copy, Clone, Debug, PartialEq, Eq, Structural)]
pub enum PlaybackDirection {
    Forward,
    Reverse,
    Alternate,
}

impl PlaybackDirection {
    /// The direction with host code `val`: 0 forward, 1 reverse, 2 alternate.
    pub fn from(val: u8) -> (r: PlaybackDirection)
        requires
            val < 3,
        ensures
            val == 0 ==> r == PlaybackDirection::Forward,
            val == 1 ==> r == PlaybackDirection::Reverse,
            val == 2 ==> r == PlaybackDirection::Alternate,
    {
        if val == 0 {
            PlaybackDirection::Forward
        } else if val == 1 {
            PlaybackDirection::Reverse
        } else {
            PlaybackDirection::Alternate
        }
    }

    /// Whether grain voice `voice` (0 or 1) reads its window backward: under
    /// `Alternate` the first voice plays forward and the second backward.
    pub open spec fn spec_reads_reverse(self, voice: int) -> bool {
        match self {
            PlaybackDirection::Forward => false,
            PlaybackDirection::Reverse => true,
            PlaybackDirection::Alternate => voice == 1,
        }
    }

    pub fn reads_reverse(self, voice: usize) -> (r: bool)
        ensures
            r == self.spec_reads_reverse(voice as int),
    {
        match self {
            PlaybackDirection::Forward => false,
            PlaybackDirection::Reverse => true,
            PlaybackDirection::Alternate => voice == 1,
        }
    }
}

/// The colouration applied to the wet signal.
#[derive(Copy, Clone, Debug, PartialEq, Eq, Structural)]
pub enum ToneType {
    Digital,
    Tape,
}

impl ToneType {
    /// The tone with host code `val`: 0 digital, 1 tape.
    pub fn from(val: u8) -> (r: ToneType)
        requires
            val < 2,
        ensures
            val == 0 ==> r == ToneType::Digital,
            val == 1 ==> r == ToneType::Tape,
    {
        if val == 0 {
            ToneType::Digital
        } else {
            ToneType::Tape
        }
    }

    /// Whether the tape saturation stage is engaged.
    pub fn tape_sim(self) -> (r: bool)
        ensures
            r == (self == ToneType::Tape),
    {
        match self {
            ToneType::Digital => false,
            ToneType::Tape => true,
        }
    }
}

/// The response of a Linkwitz-Riley crossover section.
#[derive(Copy, Clone, Debug, PartialEq, Eq, Structural)]
pub enum LinkwitzRileyFilterType {
    Lowpass,
    Highpass,
    Allpass,
}

impl LinkwitzRileyFilterType {
    /// The response with host code `val`: 0 low-pass, 1 high-pass, 2 all-pass.
    pub fn from(val: u8) -> (r: LinkwitzRileyFilterType)
        requires
            val < 3,
        ensures
            val == 0 ==> r == LinkwitzRileyFilterType::Lowpass,
            val == 1 ==> r == LinkwitzRileyFilterType::Highpass,
            val == 2 ==> r == LinkwitzRileyFilterType::Allpass,
    {
        if val == 0 {
            LinkwitzRileyFilterType::Lowpass
        } else if val == 1 {
            LinkwitzRileyFilterType::Highpass
        } else {
            LinkwitzRileyFilterType::Allpass
        }
    }
}

/// How an envelope detector measures the level of its input.
#[derive(Copy, Clone, Debug, PartialEq, Eq, Structural)]
pub enum LevelCalcType {
    MS,
    PEAK,
    RMS,
}

/// How a parameter ramps toward a new target: by equal steps, or by equal
/// ratios.
#[derive(Copy, Clone, Debug, PartialEq, Eq, Structural)]
pub enum SmoothingType {
    Linear,
    Multiplicative,
}

} // verus!
