//! The integer side of gamma curves: which entries of a ramp a fit is
//! computed from, and the ramp that changes nothing.

use vstd::prelude::*;

use crate::error::Error;

verus! {

/// The largest value of a ramp entry: full intensity.
pub const FULL: u16 = 65535;

/// A lookup table from input level to output intensity, one per colour.
#[derive(Debug, PartialEq, Eq)]
pub struct GammaRamp {
    pub red: Vec<u16>,
    pub green: Vec<u16>,
    pub blue: Vec<u16>,
}

/// A ramp as plain values.
pub struct GammaRampView {
    pub red: Seq<u16>,
    pub green: Seq<u16>,
    pub blue: Seq<u16>,
}

impl View for GammaRamp {
    type V = GammaRampView;

    open spec fn view(&self) -> GammaRampView {
        GammaRampView { red: self.red@, green: self.green@, blue: self.blue@ }
    }
}

/// One colour of a ramp.
#[derive(Debug, Clone, Copy, PartialEq, Eq, Structural)]
pub enum Channel {
    Red,
    Green,
    Blue,
}

/// An entry of a ramp: where it stands and what it holds.
#[derive(Debug, Clone, Copy, PartialEq, Eq, Structural)]
pub struct Sample {
    pub index: usize,
    pub value: u16,
}

/// What a fit of brightness and gamma is computed from.
#[derive(Debug, Clone, Copy, PartialEq, Eq, Structural)]
pub enum FitSamples {
    /// The ramp is dark: there is no curve to fit.
    Dark,
    /// The ramp follows a curve through these entries.
    Curve {
        /// Number of entries of each colour.
        size: usize,
        /// The colour that stays below full intensity the longest.
        reference: Channel,
        /// The reference colour's entry half way to `top`.
        middle: Sample,
        /// The reference colour's last entry below full intensity.
        top: Sample,
        /// Whether `top` is the ramp's last entry, so that its value is the
        /// brightness.
        top_is_last: bool,
        /// The entry that gives red's exponent.
        red: Sample,
        /// The entry that gives green's exponent.
        green: Sample,
        /// The entry that gives blue's exponent.
        blue: Sample,
    },
}

/// The position of the last entry below full intensity, or 0 if there is
/// none.
pub open spec fn last_unclamped(channel: Seq<u16>) -> int
    decreases channel.len(),
{
    if channel.len() == 0 {
        0
    } else if channel.last() < FULL {
        channel.len() - 1
    } else {
        last_unclamped(channel.drop_last())
    }
}

/// `last_unclamped` gives an entry below full intensity with none after it,
/// or 0 where every entry is at full intensity.
pub proof fn lemma_last_unclamped(channel: Seq<u16>)
    ensures
        0 <= last_unclamped(channel),
        channel.len() > 0 ==> last_unclamped(channel) < channel.len(),
        forall|k: int| last_unclamped(channel) < k < channel.len() ==> channel[k] == FULL,
        last_unclamped(channel) > 0 ==> channel[last_unclamped(channel)] < FULL,
        (forall|k: int| 0 <= k < channel.len() ==> channel[k] == FULL) ==> last_unclamped(channel)
            == 0,
    decreases channel.len(),
{
    if channel.len() > 0 && channel.last() >= FULL {
        let rest = channel.drop_last();
        lemma_last_unclamped(rest);
        assert forall|k: int| last_unclamped(channel) < k < channel.len() implies channel[k]
            == FULL by {
            if k < rest.len() {
                assert(rest[k] == channel[k]);
            }
        }
    }
}

/// Whether a value is below one ten-thousandth of full intensity.
pub open spec fn is_dark(value: u16) -> bool {
    value * 10000 < FULL
}

/// The entry of `channel` at `index`.
pub open spec fn sample_at(channel: Seq<u16>, index: int) -> Sample {
    Sample { index: index as usize, value: channel[index] }
}

impl GammaRampView {
    /// Whether the three colours have the same number of entries, and at
    /// least the two that a fit reads.
    pub open spec fn fits(self) -> bool {
        &&& self.red.len() == self.green.len()
        &&& self.green.len() == self.blue.len()
        &&& self.red.len() >= 2
    }

    /// The colour whose last entry below full intensity comes latest; among
    /// equals red goes before green and green before blue.
    pub open spec fn reference(self) -> Channel {
        let red = last_unclamped(self.red);
        let green = last_unclamped(self.green);
        let blue = last_unclamped(self.blue);
        if blue > red && blue > green {
            Channel::Blue
        } else if green > red {
            Channel::Green
        } else {
            Channel::Red
        }
    }

    /// The entries of one colour.
    pub open spec fn channel(self, channel: Channel) -> Seq<u16> {
        match channel {
            Channel::Red => self.red,
            Channel::Green => self.green,
            Channel::Blue => self.blue,
        }
    }

    /// The position of the reference colour's top sample: its last entry
    /// below full intensity, but never the first entry.
    pub open spec fn top_index(self) -> int {
        let last = last_unclamped(self.channel(self.reference()));
        if last == 0 {
            1
        } else {
            last
        }
    }

    /// What a fit of this ramp is computed from.
    pub open spec fn fit_samples(self) -> FitSamples
        recommends
            self.fits(),
    {
        let reference = self.channel(self.reference());
        let top = self.top_index();
        if is_dark(reference[top]) {
            FitSamples::Dark
        } else {
            FitSamples::Curve {
                size: self.red.len() as usize,
                reference: self.reference(),
                middle: sample_at(reference, top / 2),
                top: sample_at(reference, top),
                top_is_last: top + 1 == self.red.len(),
                red: sample_at(self.red, last_unclamped(self.red) / 2),
                green: sample_at(self.green, last_unclamped(self.green) / 2),
                blue: sample_at(self.blue, last_unclamped(self.blue) / 2),
            }
        }
    }

    /// The ramp of `size` entries per colour that rises evenly from nothing
    /// to full intensity, each entry rounded down. A ramp of one entry holds
    /// nothing but a zero.
    pub open spec fn linear(size: nat) -> GammaRampView {
        let channel = Seq::new(size, |idx: int| linear_value(idx, size as int));
        GammaRampView { red: channel, green: channel, blue: channel }
    }
}

/// Entry `idx` of the evenly rising ramp of `size` entries: the share
/// `idx / (size - 1)` of full intensity, rounded down.
pub open spec fn linear_value(idx: int, size: int) -> u16 {
    if size <= 1 {
        0
    } else {
        (idx * 65535 / (size - 1)) as u16
    }
}

/// Finds the last entry below full intensity.
pub fn find_last_unclamped(channel: &Vec<u16>) -> (last: usize)
    ensures
        last == last_unclamped(channel@),
        channel@.len() > 0 ==> last < channel@.len(),
{
    let mut i: usize = channel.len();
    assert(channel@.take(i as int) =~= channel@);
    while i > 0
        invariant
            i <= channel@.len(),
            last_unclamped(channel@) == last_unclamped(channel@.take(i as int)),
        decreases i,
    {
        assert(channel@.take(i as int).drop_last() =~= channel@.take(i - 1));
        if channel[i - 1] < FULL {
            return i - 1;
        }
        i -= 1;
    }
    0
}

impl GammaRamp {
    /// Picks the entries that a fit of brightness and gamma is computed from.
    ///
    /// The reference colour is the one that stays below full intensity the
    /// longest. Its last entry below full intensity (the second entry, if that
    /// would be the first) is the top sample, and the entry at half that
    /// position the middle sample. A top sample below one ten-thousandth of
    /// full intensity means a dark ramp. Each colour's own exponent is read at
    /// half the position of its own last entry below full intensity.
    ///
    /// A ramp whose colours differ in length, or with fewer than two entries,
    /// is refused as an invalid argument.
    pub fn fit_samples(&self) -> (samples: Result<FitSamples, Error>)
        ensures
            self@.fits() ==> samples == Ok::<FitSamples, Error>(self@.fit_samples()),
            !self@.fits() ==> samples == Err::<FitSamples, Error>(Error::InvalidArgument),
    {
        let size = self.red.len();
        if self.green.len() != size || self.blue.len() != size || size < 2 {
            return Err(Error::InvalidArgument);
        }
        let last_red = find_last_unclamped(&self.red);
        let last_green = find_last_unclamped(&self.green);
        let last_blue = find_last_unclamped(&self.blue);
        let mut reference = Channel::Red;
        let mut best = &self.red;
        let mut last_best = last_red;
        if last_green > last_best {
            reference = Channel::Green;
            best = &self.green;
            last_best = last_green;
        }
        if last_blue > last_best {
            reference = Channel::Blue;
            best = &self.blue;
            last_best = last_blue;
        }
        if last_best == 0 {
            last_best = 1;
        }
        let top = Sample { index: last_best, value: best[last_best] };
        if (top.value as u32) * 10000 < 65535 {
            return Ok(FitSamples::Dark);
        }
        let middle = Sample { index: last_best / 2, value: best[last_best / 2] };
        Ok(
            FitSamples::Curve {
                size,
                reference,
                middle,
                top,
                top_is_last: last_best + 1 == size,
                red: Sample { index: last_red / 2, value: self.red[last_red / 2] },
                green: Sample { index: last_green / 2, value: self.green[last_green / 2] },
                blue: Sample { index: last_blue / 2, value: self.blue[last_blue / 2] },
            },
        )
    }

    /// Builds the ramp that changes nothing, for a gamma of one at full
    /// brightness: `size` entries per colour that rise evenly from nothing to
    /// full intensity.
    pub fn linear(size: usize) -> (ramp: GammaRamp)
        ensures
            ramp@ == GammaRampView::linear(size as nat),
    {
        let mut channel: Vec<u16> = Vec::new();
        let mut idx: usize = 0;
        while idx < size
            invariant
                idx <= size,
                channel@.len() == idx,
                forall|k: int| 0 <= k < idx ==> channel@[k] == linear_value(k, size as int),
            decreases size - idx,
        {
            let value: u16 = if size <= 1 {
                0
            } else {
                let scaled: u128 = (idx as u128) * 65535 / ((size - 1) as u128);
                assert((idx as int) * 65535 / (size - 1) <= 65535) by (nonlinear_arith)
                    requires
                        0 <= idx <= size - 1,
                        size - 1 > 0,
                ;
                scaled as u16
            };
            channel.push(value);
            idx += 1;
        }
        assert(channel@ =~= GammaRampView::linear(size as nat).red);
        let green = channel.clone();
        let blue = channel.clone();
        GammaRamp { red: channel, green, blue }
    }
}

/// The ramp of 256 entries that changes nothing holds 257 times its position
/// at every position: it runs from 0 to full intensity in equal steps.
pub proof fn law_linear_256(idx: int)
    requires
        0 <= idx < 256,
    ensures
        GammaRampView::linear(256).red[idx] == idx * 257,
        GammaRampView::linear(256).green[idx] == idx * 257,
        GammaRampView::linear(256).blue[idx] == idx * 257,
{
}

/// An evenly rising ramp starts at nothing and ends at full intensity.
pub proof fn law_linear_ends(size: nat)
    requires
        size >= 2,
    ensures
        GammaRampView::linear(size).red[0] == 0,
        GammaRampView::linear(size).red[size - 1] == FULL,
{
    assert((size - 1) * 65535 / (size - 1) == 65535) by (nonlinear_arith)
        requires
            size - 1 > 0,
    ;
}

/// A ramp that is nothing but zeros is dark.
pub proof fn law_black_ramp_is_dark(ramp: GammaRampView)
    requires
        ramp.fits(),
        forall|k: int| 0 <= k < ramp.red.len() ==> ramp.red[k] == 0,
        forall|k: int| 0 <= k < ramp.green.len() ==> ramp.green[k] == 0,
        forall|k: int| 0 <= k < ramp.blue.len() ==> ramp.blue[k] == 0,
    ensures
        ramp.fit_samples() == FitSamples::Dark,
{
}

} // verus!
