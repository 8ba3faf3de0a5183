use vstd::prelude::*;
use crate::band::{BandSettings, Chain, Channel, FilterbandStereo};
use crate::cascade::{BandPlan, FILTER_POLE_COUNT};

verus! {

/// The bands of the parametric equalizer, in processing order.
pub struct FilterBank<T> {
    bands: Vec<FilterbandStereo<T>>,
}

impl<T: Copy> FilterBank<T> {
    pub closed spec fn view(&self) -> Seq<FilterbandStereo<T>> {
        self.bands@
    }

    /// Every band keeps its own invariant.
    pub open spec fn wf(&self) -> bool {
        forall|i: int| 0 <= i < self@.len() ==> (#[trigger] self@[i]).wf()
    }

    /// `count` bands, each a copy of `band`.
    pub fn new(band: FilterbandStereo<T>, count: usize) -> (r: Self)
        requires
            band.wf(),
        ensures
            r.wf(),
            r@ == Seq::new(count as nat, |i: int| band),
    {
        let mut bands: Vec<FilterbandStereo<T>> = Vec::new();
        let mut i: usize = 0;
        while i < count
            invariant
                i <= count,
                bands@ == Seq::new(i as nat, |k: int| band),
            decreases count - i,
        {
            bands.push(band);
            i = i + 1;
            assert(bands@ =~= Seq::new(i as nat, |k: int| band));
        }
        FilterBank { bands }
    }

    pub fn len(&self) -> (r: usize)
        ensures
            r == self@.len(),
    {
        self.bands.len()
    }

    /// Band `i`.
    pub fn band(&self, i: usize) -> (r: FilterbandStereo<T>)
        requires
            i < self@.len(),
        ensures
            r == self@[i as int],
    {
        self.bands[i]
    }

    /// Replaces band `i`.
    pub fn set_band(&mut self, i: usize, band: FilterbandStereo<T>)
        requires
            old(self).wf(),
            i < old(self)@.len(),
            band.wf(),
        ensures
            final(self).wf(),
            final(self)@ == old(self)@.update(i as int, band),
    {
        self.bands.set(i, band);
    }

    /// Takes new settings for band `i`, as `FilterbandStereo::update` does;
    /// the other bands stay as they are.
    pub fn update_band(&mut self, i: usize, settings: BandSettings) -> (r: Option<BandPlan>)
        requires
            old(self).wf(),
            i < old(self)@.len(),
            settings.slope <= 2 * FILTER_POLE_COUNT,
        ensures
            final(self).wf(),
            final(self)@.len() == old(self)@.len(),
            FilterbandStereo::updated(old(self)@[i as int], settings, final(self)@[i as int], r),
            forall|j: int|
                0 <= j < old(self)@.len() && j != i ==> #[trigger] final(self)@[j] == old(self)@[j],
    {
        let mut band = self.bands[i];
        let r = band.update(settings);
        self.bands.set(i, band);
        r
    }

    /// Makes the next update of every band recompute, since the sample rate
    /// is one of the values the coefficients depend on.
    pub fn on_sample_rate_changed(&mut self)
        requires
            old(self).wf(),
        ensures
            final(self).wf(),
            final(self)@.len() == old(self)@.len(),
            forall|j: int|
                0 <= j < final(self)@.len() ==> {
                    &&& (#[trigger] final(self)@[j]).spec_stale()
                    &&& final(self)@[j].spec_settings() == old(self)@[j].spec_settings()
                    &&& final(self)@[j].spec_plan() == old(self)@[j].spec_plan()
                    &&& final(self)@[j].spec_recomputes() == old(self)@[j].spec_recomputes()
                    &&& forall|chain: Chain, channel: Channel|
                        #[trigger] final(self)@[j].sections(chain, channel) == old(
                            self,
                        )@[j].sections(chain, channel)
                    &&& forall|chain: Chain|
                        #[trigger] final(self)@[j].chain_coeffs(chain) == old(self)@[j].chain_coeffs(
                            chain,
                        )
                },
    {
        let mut i: usize = 0;
        while i < self.bands.len()
            invariant
                i <= self@.len(),
                self.wf(),
                self@.len() == old(self)@.len(),
                forall|j: int|
                    0 <= j < self@.len() ==> {
                        &&& (#[trigger] self@[j]).spec_stale() || j >= i
                        &&& j >= i ==> self@[j] == old(self)@[j]
                        &&& self@[j].spec_settings() == old(self)@[j].spec_settings()
                        &&& self@[j].spec_plan() == old(self)@[j].spec_plan()
                        &&& self@[j].spec_recomputes() == old(self)@[j].spec_recomputes()
                        &&& forall|chain: Chain, channel: Channel|
                            #[trigger] self@[j].sections(chain, channel) == old(self)@[j].sections(
                                chain,
                                channel,
                            )
                        &&& forall|chain: Chain|
                            #[trigger] self@[j].chain_coeffs(chain) == old(self)@[j].chain_coeffs(
                                chain,
                            )
                    },
            decreases self@.len() - i,
        {
            let mut band = self.bands[i];
            band.invalidate();
            self.bands.set(i, band);
            i = i + 1;
        }
    }
}

/// After a change of sample rate the next update of any band recomputes,
/// whatever settings it brings, and returns the plan they call for.
pub proof fn lemma_sample_rate_change_forces_recompute<T: Copy>(
    after: FilterBank<T>,
    i: int,
    settings: BandSettings,
    band: FilterbandStereo<T>,
    r: Option<BandPlan>,
)
    requires
        0 <= i < after@.len(),
        after@[i].spec_stale(),
        FilterbandStereo::updated(after@[i], settings, band, r),
    ensures
        r is Some,
        band.spec_recomputes() >= after@[i].spec_recomputes(),
        !band.spec_stale(),
{
}

} // verus!
