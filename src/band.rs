use vstd::prelude::*;
use crate::cascade::{band_plan, even_slope, get_slope, plan_of, BandPlan, FILTER_POLE_COUNT};
use crate::kinds::FilterKind;

verus! {

/// The coefficients of one state-variable section: the prewarped gain `g`
/// (and its square), the damping `k`, the loop coefficients `a1..a3` and the
/// output mix `m0..m2`, with the shelf amplitude `a` and the sample rate `fs`
/// they were derived for.
#[derive(PartialEq, Eq, Structural, Debug, Clone, Copy)]
pub struct SVFCoefficients<T> {
    pub a: T,
    pub g: T,
    pub gpow2: T,
    pub k: T,
    pub a1: T,
    pub a2: T,
    pub a3: T,
    pub m0: T,
    pub m1: T,
    pub m2: T,
    pub fs: T,
}

/// One state-variable section of one channel: its two integrator registers
/// and the coefficients it runs with.
#[derive(PartialEq, Eq, Structural, Debug, Clone, Copy)]
pub struct SVF<T> {
    pub ic1eq: T,
    pub ic2eq: T,
    pub coeffs: SVFCoefficients<T>,
}

impl<T: Copy> SVF<T> {
    /// A section with the given coefficients and both registers at `zero`.
    pub fn new(coefficients: SVFCoefficients<T>, zero: T) -> (r: Self)
        ensures
            r.ic1eq == zero,
            r.ic2eq == zero,
            r.coeffs == coefficients,
    {
        SVF { ic1eq: zero, ic2eq: zero, coeffs: coefficients }
    }

    /// Replaces the coefficients and keeps the registers, so that the output
    /// stays continuous across a parameter change.
    pub fn update_coefficients(&mut self, new_coefficients: SVFCoefficients<T>)
        ensures
            final(self).coeffs == new_coefficients,
            final(self).ic1eq == old(self).ic1eq,
            final(self).ic2eq == old(self).ic2eq,
    {
        self.coeffs = new_coefficients;
    }

    /// Sets both registers to `zero`, keeping the coefficients.
    pub fn reset(&mut self, zero: T)
        ensures
            final(self).coeffs == old(self).coeffs,
            final(self).ic1eq == zero,
            final(self).ic2eq == zero,
    {
        self.ic1eq = zero;
        self.ic2eq = zero;
    }
}

/// The coefficients of both chains of a band, section by section; this is
/// the snapshot a frequency-response query reads.
#[derive(PartialEq, Eq, Structural, Debug, Clone, Copy)]
pub struct SVFCoefficientsSet<T> {
    pub a: [SVFCoefficients<T>; FILTER_POLE_COUNT],
    pub b: [SVFCoefficients<T>; FILTER_POLE_COUNT],
}

/// One of the two chains of a band.
#[derive(PartialEq, Eq, Structural, Debug, Clone, Copy)]
pub enum Chain {
    A,
    B,
}

/// One of the two channels of a stereo band.
#[derive(PartialEq, Eq, Structural, Debug, Clone, Copy)]
pub enum Channel {
    Left,
    Right,
}

/// The six values that decide a band's coefficients. The frequency, gain,
/// bandwidth and sample rate are held as the bit patterns of their `f64`
/// values, so two settings are equal exactly when they are bit-identical.
#[derive(PartialEq, Eq, Structural, Debug, Clone, Copy)]
pub struct BandSettings {
    pub kind: FilterKind,
    pub freq: u64,
    pub gain: u64,
    pub bw_value: u64,
    pub slope: u32,
    pub sample_rate: u64,
}

/// The bits of 1000.0.
pub const DEFAULT_FREQ_BITS: u64 = 0x408F_4000_0000_0000;
/// The bits of 0.0.
pub const DEFAULT_GAIN_BITS: u64 = 0;
/// The bits of 1.0.
pub const DEFAULT_BW_BITS: u64 = 0x3FF0_0000_0000_0000;
/// The bits of 48000.0.
pub const DEFAULT_SAMPLE_RATE_BITS: u64 = 0x40E7_7000_0000_0000;

/// The settings of a new band: a flat bell at 1 kHz, one octave wide.
pub open spec fn default_settings() -> BandSettings {
    BandSettings {
        kind: FilterKind::Bell,
        freq: DEFAULT_FREQ_BITS,
        gain: DEFAULT_GAIN_BITS,
        bw_value: DEFAULT_BW_BITS,
        slope: 2,
        sample_rate: DEFAULT_SAMPLE_RATE_BITS,
    }
}

/// One stereo band of the parametric equalizer: two chains of sections per
/// channel, the coefficients they share, and the settings those coefficients
/// were last derived from.
#[derive(Debug, Clone, Copy)]
pub struct FilterbandStereo<T> {
    svf_l: [SVF<T>; FILTER_POLE_COUNT],
    svf_r: [SVF<T>; FILTER_POLE_COUNT],
    svfb_l: [SVF<T>; FILTER_POLE_COUNT],
    svfb_r: [SVF<T>; FILTER_POLE_COUNT],
    pub coeffs: SVFCoefficientsSet<T>,
    settings: BandSettings,
    plan: BandPlan,
    recomputes: u64,
    stale: bool,
}

impl<T: Copy> FilterbandStereo<T> {
    /// The sections of one chain of one channel.
    pub closed spec fn sections(&self, chain: Chain, channel: Channel) -> Seq<SVF<T>> {
        match (chain, channel) {
            (Chain::A, Channel::Left) => self.svf_l@,
            (Chain::A, Channel::Right) => self.svf_r@,
            (Chain::B, Channel::Left) => self.svfb_l@,
            (Chain::B, Channel::Right) => self.svfb_r@,
        }
    }

    /// The coefficients of one chain.
    pub closed spec fn chain_coeffs(&self, chain: Chain) -> Seq<SVFCoefficients<T>> {
        match chain {
            Chain::A => self.coeffs.a@,
            Chain::B => self.coeffs.b@,
        }
    }

    /// The registers of section `i` of a chain of a channel.
    pub open spec fn state(&self, chain: Chain, channel: Channel, i: int) -> (T, T) {
        (self.sections(chain, channel)[i].ic1eq, self.sections(chain, channel)[i].ic2eq)
    }

    /// Every section of both channels runs with the coefficients the band
    /// records for its chain.
    pub closed spec fn coeffs_agree(&self) -> bool {
        &&& forall|i: int|
            0 <= i < FILTER_POLE_COUNT ==> #[trigger] self.svf_l@[i].coeffs == self.coeffs.a@[i]
        &&& forall|i: int|
            0 <= i < FILTER_POLE_COUNT ==> #[trigger] self.svf_r@[i].coeffs == self.coeffs.a@[i]
        &&& forall|i: int|
            0 <= i < FILTER_POLE_COUNT ==> #[trigger] self.svfb_l@[i].coeffs == self.coeffs.b@[i]
        &&& forall|i: int|
            0 <= i < FILTER_POLE_COUNT ==> #[trigger] self.svfb_r@[i].coeffs == self.coeffs.b@[i]
    }

    /// Every section runs with the coefficients the band records for it, and
    /// the plan is the one the recorded settings call for.
    pub open spec fn wf(&self) -> bool {
        &&& self.coeffs_agree()
        &&& self.spec_plan() == plan_of(
            self.spec_settings().kind,
            even_slope(self.spec_settings().slope) as u32,
        )
    }

    /// What `update` does: with the settings it already has, and unless it was
    /// invalidated, the band is left as it is and no plan comes back; with
    /// other settings, or after an invalidation, the band records them, counts
    /// one recomputation (saturating) and returns the plan of the new kind at
    /// the even slope, leaving every coefficient and register to the caller.
    pub open spec fn updated(
        before: Self,
        settings: BandSettings,
        after: Self,
        r: Option<BandPlan>,
    ) -> bool {
        if settings == before.spec_settings() && !before.spec_stale() {
            r is None && after == before
        } else {
            let plan = plan_of(settings.kind, even_slope(settings.slope) as u32);
            &&& r == Some(plan)
            &&& after.spec_settings() == settings
            &&& after.spec_plan() == plan
            &&& !after.spec_stale()
            &&& after.spec_recomputes() == if before.spec_recomputes() < u64::MAX {
                (before.spec_recomputes() + 1) as u64
            } else {
                before.spec_recomputes()
            }
            &&& forall|chain: Chain, channel: Channel|
                #[trigger] after.sections(chain, channel) == before.sections(chain, channel)
            &&& forall|chain: Chain| #[trigger] after.chain_coeffs(chain) == before.chain_coeffs(chain)
        }
    }

    /// The registers of every section are those of `other`.
    pub open spec fn same_state(&self, other: &Self) -> bool {
        forall|chain: Chain, channel: Channel, i: int|
            0 <= i < FILTER_POLE_COUNT ==> #[trigger] self.state(chain, channel, i) == other.state(
                chain,
                channel,
                i,
            )
    }

    pub closed spec fn spec_settings(&self) -> BandSettings {
        self.settings
    }

    pub closed spec fn spec_plan(&self) -> BandPlan {
        self.plan
    }

    pub closed spec fn spec_recomputes(&self) -> u64 {
        self.recomputes
    }

    /// Whether the next update recomputes even with unchanged settings.
    pub closed spec fn spec_stale(&self) -> bool {
        self.stale
    }

    /// A band with every section of both chains set to `initial` (the
    /// coefficients of a flat 1 kHz bell) and every register at `zero`.
    pub fn new(initial: SVFCoefficients<T>, zero: T) -> (r: Self)
        ensures
            r.wf(),
            r.spec_settings() == default_settings(),
            r.spec_plan() == plan_of(FilterKind::Bell, 2),
            r.spec_recomputes() == 0,
            !r.spec_stale(),
            forall|chain: Chain, i: int|
                0 <= i < FILTER_POLE_COUNT ==> #[trigger] r.chain_coeffs(chain)[i] == initial,
            forall|chain: Chain, channel: Channel, i: int|
                0 <= i < FILTER_POLE_COUNT ==> #[trigger] r.state(chain, channel, i) == (zero, zero),
    {
        let svf = SVF::new(initial, zero);
        assert(even_slope(2) == 2);
        let plan = band_plan(FilterKind::Bell, 2);
        FilterbandStereo {
            svf_l: [svf; FILTER_POLE_COUNT],
            svf_r: [svf; FILTER_POLE_COUNT],
            svfb_l: [svf; FILTER_POLE_COUNT],
            svfb_r: [svf; FILTER_POLE_COUNT],
            coeffs: SVFCoefficientsSet { a: [initial; FILTER_POLE_COUNT], b: [initial; FILTER_POLE_COUNT] },
            settings: BandSettings {
                kind: FilterKind::Bell,
                freq: DEFAULT_FREQ_BITS,
                gain: DEFAULT_GAIN_BITS,
                bw_value: DEFAULT_BW_BITS,
                slope: 2,
                sample_rate: DEFAULT_SAMPLE_RATE_BITS,
            },
            plan,
            recomputes: 0,
            stale: false,
        }
    }
}


impl<T: Copy> FilterbandStereo<T> {
    /// Takes new settings. When they are bit-identical to the recorded ones
    /// nothing happens and `None` comes back; otherwise they are recorded and
    /// the plan of sections to recompute comes back. Registers are never
    /// touched here, and the coefficients only through `set_stage`.
    pub fn update(&mut self, settings: BandSettings) -> (r: Option<BandPlan>)
        requires
            old(self).wf(),
            settings.slope <= 2 * FILTER_POLE_COUNT,
        ensures
            final(self).wf(),
            Self::updated(*old(self), settings, *final(self), r),
    {
        if settings == self.settings && !self.stale {
            return None;
        }
        self.stale = false;
        let slope = get_slope(settings.slope);
        let plan = band_plan(settings.kind, slope);
        self.settings = settings;
        self.plan = plan;
        if self.recomputes < u64::MAX {
            self.recomputes = self.recomputes + 1;
        }
        Some(plan)
    }

    /// Makes the next update recompute whatever settings it brings, as a
    /// change of sample rate requires.
    pub fn invalidate(&mut self)
        requires
            old(self).wf(),
        ensures
            final(self).wf(),
            final(self).spec_stale(),
            final(self).spec_settings() == old(self).spec_settings(),
            final(self).spec_plan() == old(self).spec_plan(),
            final(self).spec_recomputes() == old(self).spec_recomputes(),
            forall|chain: Chain, channel: Channel|
                #[trigger] final(self).sections(chain, channel) == old(self).sections(chain, channel),
            forall|chain: Chain| #[trigger] final(self).chain_coeffs(chain) == old(self).chain_coeffs(chain),
    {
        self.stale = true;
    }

    /// Installs the coefficients of section `i` of a chain, in the recorded
    /// set and in that section of both channels; every register is kept.
    pub fn set_stage(&mut self, chain: Chain, i: usize, c: SVFCoefficients<T>)
        requires
            old(self).wf(),
            i < FILTER_POLE_COUNT,
        ensures
            final(self).wf(),
            final(self).same_state(old(self)),
            final(self).chain_coeffs(chain) == old(self).chain_coeffs(chain).update(i as int, c),
            forall|other: Chain|
                other != chain ==> #[trigger] final(self).chain_coeffs(other) == old(
                    self,
                ).chain_coeffs(other),
            final(self).spec_settings() == old(self).spec_settings(),
            final(self).spec_plan() == old(self).spec_plan(),
            final(self).spec_recomputes() == old(self).spec_recomputes(),
            final(self).spec_stale() == old(self).spec_stale(),
    {
        match chain {
            Chain::A => {
                self.coeffs.a.set(i, c);
                let mut l = self.svf_l[i];
                l.update_coefficients(c);
                self.svf_l.set(i, l);
                let mut r = self.svf_r[i];
                r.update_coefficients(c);
                self.svf_r.set(i, r);
            },
            Chain::B => {
                self.coeffs.b.set(i, c);
                let mut l = self.svfb_l[i];
                l.update_coefficients(c);
                self.svfb_l.set(i, l);
                let mut r = self.svfb_r[i];
                r.update_coefficients(c);
                self.svfb_r.set(i, r);
            },
        }
        proof {
            assert forall|ch: Chain, chan: Channel, j: int|
                0 <= j < FILTER_POLE_COUNT implies #[trigger] self.state(ch, chan, j) == old(
                self,
            ).state(ch, chan, j) by {
                match (ch, chan) {
                    (Chain::A, Channel::Left) => {},
                    (Chain::A, Channel::Right) => {},
                    (Chain::B, Channel::Left) => {},
                    (Chain::B, Channel::Right) => {},
                }
            }
            assert forall|other: Chain| other != chain implies #[trigger] self.chain_coeffs(other)
                == old(self).chain_coeffs(other) by {
                match other {
                    Chain::A => {},
                    Chain::B => {},
                }
            }
        }
    }

    /// Section `i` of a chain of a channel.
    pub fn stage(&self, chain: Chain, channel: Channel, i: usize) -> (r: SVF<T>)
        requires
            i < FILTER_POLE_COUNT,
        ensures
            r == self.sections(chain, channel)[i as int],
    {
        match (chain, channel) {
            (Chain::A, Channel::Left) => self.svf_l[i],
            (Chain::A, Channel::Right) => self.svf_r[i],
            (Chain::B, Channel::Left) => self.svfb_l[i],
            (Chain::B, Channel::Right) => self.svfb_r[i],
        }
    }

    /// Stores the registers of section `i` of a chain of a channel after it
    /// has run; nothing else changes.
    pub fn store_state(&mut self, chain: Chain, channel: Channel, i: usize, ic1eq: T, ic2eq: T)
        requires
            old(self).wf(),
            i < FILTER_POLE_COUNT,
        ensures
            final(self).wf(),
            final(self).state(chain, channel, i as int) == (ic1eq, ic2eq),
            forall|ch: Chain, chan: Channel, j: int|
                0 <= j < FILTER_POLE_COUNT && (ch, chan, j) != (chain, channel, i as int)
                    ==> #[trigger] final(self).state(ch, chan, j) == old(self).state(ch, chan, j),
            forall|ch: Chain| #[trigger] final(self).chain_coeffs(ch) == old(self).chain_coeffs(ch),
            final(self).spec_settings() == old(self).spec_settings(),
            final(self).spec_plan() == old(self).spec_plan(),
            final(self).spec_recomputes() == old(self).spec_recomputes(),
            final(self).spec_stale() == old(self).spec_stale(),
    {
        let mut s = self.stage(chain, channel, i);
        s.ic1eq = ic1eq;
        s.ic2eq = ic2eq;
        match (chain, channel) {
            (Chain::A, Channel::Left) => self.svf_l.set(i, s),
            (Chain::A, Channel::Right) => self.svf_r.set(i, s),
            (Chain::B, Channel::Left) => self.svfb_l.set(i, s),
            (Chain::B, Channel::Right) => self.svfb_r.set(i, s),
        }
        proof {
            assert forall|ch: Chain, chan: Channel, j: int|
                0 <= j < FILTER_POLE_COUNT && (ch, chan, j) != (chain, channel, i as int)
                    implies #[trigger] self.state(ch, chan, j) == old(self).state(ch, chan, j) by {
                match (ch, chan) {
                    (Chain::A, Channel::Left) => {},
                    (Chain::A, Channel::Right) => {},
                    (Chain::B, Channel::Left) => {},
                    (Chain::B, Channel::Right) => {},
                }
            }
            assert forall|ch: Chain| #[trigger] self.chain_coeffs(ch) == old(self).chain_coeffs(
                ch,
            ) by {
                match ch {
                    Chain::A => {},
                    Chain::B => {},
                }
            }
        }
    }

    /// Sets every register of the band to `zero`, keeping all coefficients.
    pub fn reset(&mut self, zero: T)
        requires
            old(self).wf(),
        ensures
            final(self).wf(),
            forall|chain: Chain, channel: Channel, i: int|
                0 <= i < FILTER_POLE_COUNT ==> #[trigger] final(self).state(chain, channel, i) == (
                    zero,
                    zero,
                ),
            forall|ch: Chain| #[trigger] final(self).chain_coeffs(ch) == old(self).chain_coeffs(ch),
            final(self).spec_settings() == old(self).spec_settings(),
            final(self).spec_plan() == old(self).spec_plan(),
            final(self).spec_recomputes() == old(self).spec_recomputes(),
            final(self).spec_stale() == old(self).spec_stale(),
    {
        let mut i: usize = 0;
        while i < FILTER_POLE_COUNT
            invariant
                i <= FILTER_POLE_COUNT,
                self.wf(),
                forall|j: int| 0 <= j < i ==> #[trigger] self.svf_l@[j].ic1eq == zero && self.svf_l@[j].ic2eq == zero,
                forall|j: int| 0 <= j < i ==> #[trigger] self.svf_r@[j].ic1eq == zero && self.svf_r@[j].ic2eq == zero,
                forall|j: int| 0 <= j < i ==> #[trigger] self.svfb_l@[j].ic1eq == zero && self.svfb_l@[j].ic2eq == zero,
                forall|j: int| 0 <= j < i ==> #[trigger] self.svfb_r@[j].ic1eq == zero && self.svfb_r@[j].ic2eq == zero,
                self.coeffs == old(self).coeffs,
                self.spec_settings() == old(self).spec_settings(),
                self.spec_plan() == old(self).spec_plan(),
                self.spec_recomputes() == old(self).spec_recomputes(),
                self.spec_stale() == old(self).spec_stale(),
            decreases FILTER_POLE_COUNT - i,
        {
            let mut s = self.svf_l[i];
            s.reset(zero);
            self.svf_l.set(i, s);
            let mut s = self.svf_r[i];
            s.reset(zero);
            self.svf_r.set(i, s);
            let mut s = self.svfb_l[i];
            s.reset(zero);
            self.svfb_l.set(i, s);
            let mut s = self.svfb_r[i];
            s.reset(zero);
            self.svfb_r.set(i, s);
            i = i + 1;
        }
        proof {
            assert forall|chain: Chain, channel: Channel, j: int|
                0 <= j < FILTER_POLE_COUNT implies #[trigger] self.state(chain, channel, j) == (
                zero,
                zero,
            ) by {
                match (chain, channel) {
                    (Chain::A, Channel::Left) => {},
                    (Chain::A, Channel::Right) => {},
                    (Chain::B, Channel::Left) => {},
                    (Chain::B, Channel::Right) => {},
                }
            }
        }
    }

    /// The settings the coefficients were last derived from.
    pub fn settings(&self) -> (r: BandSettings)
        ensures
            r == self.spec_settings(),
    {
        self.settings
    }

    /// The kind the band currently realises.
    pub fn kind(&self) -> (r: FilterKind)
        ensures
            r == self.spec_settings().kind,
    {
        self.settings.kind
    }

    /// The sections the band currently runs and how they are joined.
    pub fn plan(&self) -> (r: BandPlan)
        ensures
            r == self.spec_plan(),
    {
        self.plan
    }

    /// How many times new settings have called for recomputed coefficients
    /// (saturating).
    pub fn recomputes(&self) -> (r: u64)
        ensures
            r == self.spec_recomputes(),
    {
        self.recomputes
    }
}

/// Updating a band twice with the same settings recomputes nothing the second
/// time: no plan comes back, the recomputation count stays, and the band,
/// coefficients included, is exactly as the first update left it.
pub proof fn lemma_update_idempotent<T: Copy>(
    b0: FilterbandStereo<T>,
    settings: BandSettings,
    b1: FilterbandStereo<T>,
    r1: Option<BandPlan>,
    b2: FilterbandStereo<T>,
    r2: Option<BandPlan>,
)
    requires
        FilterbandStereo::updated(b0, settings, b1, r1),
        FilterbandStereo::updated(b1, settings, b2, r2),
    ensures
        r2 is None,
        b2 == b1,
        forall|chain: Chain| #[trigger] b2.chain_coeffs(chain) == b1.chain_coeffs(chain),
        b2.spec_recomputes() == b1.spec_recomputes(),
{
}

/// Changing only the gain of a band keeps every register of every section, so
/// the signal runs on without a reset; the same sections are recomputed.
pub proof fn lemma_gain_change_keeps_state<T: Copy>(
    b0: FilterbandStereo<T>,
    settings: BandSettings,
    b1: FilterbandStereo<T>,
    r: Option<BandPlan>,
)
    requires
        b0.wf(),
        FilterbandStereo::updated(b0, settings, b1, r),
        settings == (BandSettings { gain: settings.gain, ..b0.spec_settings() }),
    ensures
        b1.same_state(&b0),
        settings.gain != b0.spec_settings().gain ==> r == Some(b0.spec_plan()),
{
    assert forall|chain: Chain, channel: Channel, i: int|
        0 <= i < FILTER_POLE_COUNT implies #[trigger] b1.state(chain, channel, i) == b0.state(
        chain,
        channel,
        i,
    ) by {
        assert(b1.sections(chain, channel) == b0.sections(chain, channel));
    }
}

} // verus!
