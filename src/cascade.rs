use vstd::prelude::*;
use crate::kinds::{FilterKind, Type};

verus! {

/// The number of second-order sections each chain of a band can hold.
pub const FILTER_POLE_COUNT: usize = 16;

/// An order rounded up to the next even number: only even orders are built
/// from second-order sections.
pub open spec fn even_slope(slope: u32) -> int {
    if slope % 2 == 1 {
        slope + 1
    } else {
        slope as int
    }
}

/// The order actually built for a requested slope: odd slopes are rounded up.
pub fn get_slope(slope: u32) -> (r: u32)
    requires
        slope < u32::MAX,
    ensures
        r == even_slope(slope),
        r % 2 == 0,
        r >= slope,
{
    if slope % 2 == 1 {
        slope + 1
    } else {
        slope
    }
}

/// How the band's gain is shared by the sections of a chain.
#[derive(PartialEq, Eq, Structural, Debug, Clone, Copy)]
pub enum GainShare {
    /// Each section takes the whole gain.
    Full,
    /// Each of the `n` sections takes `gain / n`.
    PerStage,
    /// Each of the `n` sections takes `-gain / n`.
    PerStageNegated,
    /// Each of the `n` sections takes `2 * gain / n`.
    PerStageDoubled,
}

/// Where the quality factor of section `i` of a chain comes from.
#[derive(PartialEq, Eq, Structural, Debug, Clone, Copy)]
pub enum QRule {
    /// The band's own Q, derived from its bandwidth.
    Direct,
    /// The Butterworth Q of pole `i` of the band's order, scaled by the band's
    /// Q relative to the second-order Butterworth Q.
    Cascade,
    /// The Butterworth Q of pole `i` of the band's order, unscaled.
    Butterworth,
}

/// Which corner frequency a chain is tuned to.
#[derive(PartialEq, Eq, Structural, Debug, Clone, Copy)]
pub enum FreqRule {
    /// The band's frequency.
    Center,
    /// `freq / (bw + 0.5)`, clamped to 20 Hz .. 20 kHz.
    Below,
    /// `freq * (bw + 0.5)`, clamped to 20 Hz .. 20 kHz.
    Above,
}

/// A run of `count` sections of one shape, section `i` tuned by the rules.
#[derive(PartialEq, Eq, Structural, Debug, Clone, Copy)]
pub struct ChainSpec {
    pub shape: Type<GainShare>,
    pub q: QRule,
    pub freq: FreqRule,
    pub count: usize,
}

/// How the two chains of a band are joined.
#[derive(PartialEq, Eq, Structural, Debug, Clone, Copy)]
pub enum Combine {
    /// Chain `a`, then chain `b`, on one signal path.
    Series,
    /// Chains `a` and `b` each on the input, their outputs summed.
    Parallel,
}

/// A gain applied to the band's output after its sections.
#[derive(PartialEq, Eq, Structural, Debug, Clone, Copy)]
pub enum PostGain {
    Unity,
    /// `10^(gain / 20)`.
    Gain,
    /// `10^(-gain / 20)`.
    NegatedGain,
}

/// The topology of a band: up to two chains of sections, how they are joined,
/// and the gain after them.
#[derive(PartialEq, Eq, Structural, Debug, Clone, Copy)]
pub struct BandPlan {
    pub a: ChainSpec,
    pub b: Option<ChainSpec>,
    pub combine: Combine,
    pub post_gain: PostGain,
}

pub open spec fn chain(shape: Type<GainShare>, q: QRule, freq: FreqRule, count: int) -> ChainSpec {
    ChainSpec { shape, q, freq, count: count as usize }
}

pub open spec fn single(shape: Type<GainShare>) -> BandPlan {
    BandPlan {
        a: chain(shape, QRule::Direct, FreqRule::Center, 1),
        b: None,
        combine: Combine::Series,
        post_gain: PostGain::Unity,
    }
}

pub open spec fn cascade(shape: Type<GainShare>, n: int) -> BandPlan {
    BandPlan {
        a: chain(shape, QRule::Cascade, FreqRule::Center, n),
        b: None,
        combine: Combine::Series,
        post_gain: PostGain::Unity,
    }
}

/// The sections that realise `kind` at an even `slope`: one section for the
/// bell, notch and all-pass; `slope / 2` sections per chain otherwise.
pub open spec fn plan_of(kind: FilterKind, slope: u32) -> BandPlan {
    let n = slope / 2;
    match kind {
        FilterKind::Bell => single(Type::PeakingEQ(GainShare::Full)),
        FilterKind::Notch => single(Type::Notch),
        FilterKind::AllPass => single(Type::AllPass),
        FilterKind::LowPass => cascade(Type::LowPass, n as int),
        FilterKind::HighPass => cascade(Type::HighPass, n as int),
        FilterKind::LowShelf => cascade(Type::LowShelf(GainShare::PerStage), n as int),
        FilterKind::HighShelf => cascade(Type::HighShelf(GainShare::PerStage), n as int),
        FilterKind::BandPass => BandPlan {
            a: chain(Type::HighPass, QRule::Cascade, FreqRule::Center, n as int),
            b: Some(chain(Type::LowPass, QRule::Cascade, FreqRule::Center, n as int)),
            combine: Combine::Series,
            post_gain: PostGain::Unity,
        },
        FilterKind::Tilt => BandPlan {
            a: chain(Type::HighShelf(GainShare::PerStageDoubled), QRule::Cascade, FreqRule::Center, n as int),
            b: None,
            combine: Combine::Series,
            post_gain: PostGain::NegatedGain,
        },
        FilterKind::Mesa => BandPlan {
            a: chain(Type::LowShelf(GainShare::PerStageNegated), QRule::Butterworth, FreqRule::Below, n as int),
            b: Some(chain(Type::HighShelf(GainShare::PerStageNegated), QRule::Butterworth, FreqRule::Above, n as int)),
            combine: Combine::Parallel,
            post_gain: PostGain::Gain,
        },
    }
}

/// The number of sections a plan runs per channel.
pub open spec fn plan_sections(p: BandPlan) -> int {
    p.a.count + match p.b {
        Some(b) => b.count as int,
        None => 0,
    }
}

/// The topology of a band of `kind` at `slope`, which must be even and
/// within the band's capacity.
pub fn band_plan(kind: FilterKind, slope: u32) -> (r: BandPlan)
    requires
        slope % 2 == 0,
        slope / 2 <= FILTER_POLE_COUNT,
    ensures
        r == plan_of(kind, slope),
        r.a.count <= FILTER_POLE_COUNT,
        r.b is Some ==> r.b->Some_0.count <= FILTER_POLE_COUNT,
{
    let n: usize = (slope / 2) as usize;
    let direct = |shape: Type<GainShare>| -> (p: BandPlan)
        ensures
            p == single(shape),
        {
            BandPlan {
                a: ChainSpec { shape, q: QRule::Direct, freq: FreqRule::Center, count: 1 },
                b: None,
                combine: Combine::Series,
                post_gain: PostGain::Unity,
            }
        };
    let cascaded = |shape: Type<GainShare>| -> (p: BandPlan)
        ensures
            p == cascade(shape, n as int),
        {
            BandPlan {
                a: ChainSpec { shape, q: QRule::Cascade, freq: FreqRule::Center, count: n },
                b: None,
                combine: Combine::Series,
                post_gain: PostGain::Unity,
            }
        };
    match kind {
        FilterKind::Bell => direct(Type::PeakingEQ(GainShare::Full)),
        FilterKind::Notch => direct(Type::Notch),
        FilterKind::AllPass => direct(Type::AllPass),
        FilterKind::LowPass => cascaded(Type::LowPass),
        FilterKind::HighPass => cascaded(Type::HighPass),
        FilterKind::LowShelf => cascaded(Type::LowShelf(GainShare::PerStage)),
        FilterKind::HighShelf => cascaded(Type::HighShelf(GainShare::PerStage)),
        FilterKind::BandPass => BandPlan {
            a: ChainSpec { shape: Type::HighPass, q: QRule::Cascade, freq: FreqRule::Center, count: n },
            b: Some(ChainSpec { shape: Type::LowPass, q: QRule::Cascade, freq: FreqRule::Center, count: n }),
            combine: Combine::Series,
            post_gain: PostGain::Unity,
        },
        FilterKind::Tilt => BandPlan {
            a: ChainSpec {
                shape: Type::HighShelf(GainShare::PerStageDoubled),
                q: QRule::Cascade,
                freq: FreqRule::Center,
                count: n,
            },
            b: None,
            combine: Combine::Series,
            post_gain: PostGain::NegatedGain,
        },
        FilterKind::Mesa => BandPlan {
            a: ChainSpec {
                shape: Type::LowShelf(GainShare::PerStageNegated),
                q: QRule::Butterworth,
                freq: FreqRule::Below,
                count: n,
            },
            b: Some(ChainSpec {
                shape: Type::HighShelf(GainShare::PerStageNegated),
                q: QRule::Butterworth,
                freq: FreqRule::Above,
                count: n,
            }),
            combine: Combine::Parallel,
            post_gain: PostGain::Gain,
        },
    }
}

} // verus!
