//! Structural core of a multi-band state-variable-filter equalizer.
//!
//! The library decides everything about a band that is not sample arithmetic:
//! which filter kind and order a parameter code selects, how an order is
//! coerced, which cascade of second-order sections realises a kind, when the
//! coefficients of a band must be recomputed, and how the active sections of a
//! whole equalizer are flattened into fixed-capacity lists for one pass over a
//! block and scattered back afterwards.
mod band;
mod bank;
mod cascade;
mod filterbank;
mod kinds;

pub use kinds::{BandType, Errors, FilterKind, FilterOrder, NoiseColor, Type};
pub use cascade::{
    band_plan, get_slope, BandPlan, ChainSpec, Combine, FreqRule, GainShare, PostGain, QRule,
    FILTER_POLE_COUNT,
};
pub use band::{lemma_gain_change_keeps_state, lemma_update_idempotent, BandSettings, Chain, Channel, FilterbandStereo, SVFCoefficients, SVFCoefficientsSet, SVF};
pub use bank::{
    fits_capacity, gather_routes, lemma_routes_distinct, PassBand, HIGH_PASS_OWNER,
    LOW_PASS_OWNER, MAX_ONE_POLE_FILTERS, MAX_SVF_FILTERS, PEAK_OWNER_BASE,
};
pub use filterbank::{lemma_sample_rate_change_forces_recompute, FilterBank};
