//! The volume value: an output attenuation fraction in the closed interval
//! [0, 1], stored in fixed point as thousandths of full gain.

use vstd::prelude::*;

verus! {

/// Full gain, in thousandths: a [`Volume`] holds `0..=VOLUME_SCALE`.
pub const VOLUME_SCALE: u16 = 1000;

/// The volume a fresh process starts with, in thousandths of full gain.
pub const DEFAULT_VOLUME: u16 = 500;

/// An output attenuation fraction: `0` is silent, [`VOLUME_SCALE`] is full
/// gain, linear in between. The displayed percentage is the fraction times
/// one hundred, rounded to a whole percent; internal storage stays in
/// thousandths.
#[derive(Clone, Copy, PartialEq, Eq, Structural, Debug)]
pub struct Volume {
    permille: u16,
}

/// What an arbitrary submitted value becomes once clamped to the unit
/// interval: negative input becomes silence, input above full gain becomes
/// full gain, anything in range is kept exactly.
pub open spec fn clamped_permille(raw: int) -> int {
    if raw < 0 {
        0
    } else if raw > VOLUME_SCALE {
        VOLUME_SCALE as int
    } else {
        raw
    }
}

impl Volume {
    /// The attenuation fraction, in thousandths of full gain.
    pub closed spec fn as_permille(self) -> int {
        self.permille as int
    }

    /// A well-formed volume lies in the closed interval [0, full gain].
    pub open spec fn wf(self) -> bool {
        self.as_permille() <= VOLUME_SCALE
    }

    /// A volume already known to be in range.
    pub fn new(permille: u16) -> (v: Volume)
        requires
            permille <= VOLUME_SCALE,
        ensures
            v.wf(),
            v.as_permille() == permille,
    {
        Volume { permille }
    }

    /// An arbitrary submitted value, clamped to the unit interval before it
    /// is accepted: below range becomes silence, above range becomes full
    /// gain, in range is kept exactly.
    pub fn clamped(raw: i64) -> (v: Volume)
        ensures
            v.wf(),
            v.as_permille() == clamped_permille(raw as int),
    {
        if raw < 0 {
            Volume { permille: 0 }
        } else if raw > VOLUME_SCALE as i64 {
            Volume { permille: VOLUME_SCALE }
        } else {
            Volume { permille: raw as u16 }
        }
    }

    /// The stored fraction, in thousandths of full gain.
    pub fn permille(self) -> (p: u16)
        ensures
            p == self.as_permille(),
    {
        self.permille
    }

    /// The whole percentage shown by the configuration sink: the fraction
    /// times one hundred, rounded to the nearest percent.
    pub fn display_percent(self) -> (p: u16)
        requires
            self.wf(),
        ensures
            p == (self.as_permille() + 5) / 10,
    {
        (self.permille + 5) / 10
    }
}

impl Default for Volume {
    /// The process-start default: half of full gain.
    fn default() -> (v: Volume)
        ensures
            v.wf(),
            v.as_permille() == DEFAULT_VOLUME,
    {
        Volume { permille: DEFAULT_VOLUME }
    }
}

/// Every clamped value lies in the unit interval; values below it become
/// silence and values above it become full gain, while in-range values are
/// kept exactly.
pub proof fn law_clamp_into_range(raw: int)
    ensures
        0 <= clamped_permille(raw) <= VOLUME_SCALE,
        raw < 0 ==> clamped_permille(raw) == 0,
        raw > VOLUME_SCALE ==> clamped_permille(raw) == VOLUME_SCALE,
        0 <= raw <= VOLUME_SCALE ==> clamped_permille(raw) == raw,
{
}

} // verus!
