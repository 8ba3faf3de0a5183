use parametric_eq::{
    band_plan, fits_capacity, gather_routes, get_slope, BandSettings, BandType, Chain, Channel,
    Combine, FilterBank, FilterKind, FilterOrder, FilterbandStereo, FreqRule, GainShare,
    NoiseColor, PassBand, PostGain, QRule, SVFCoefficients, Type, FILTER_POLE_COUNT,
};

fn coeffs(x: f64) -> SVFCoefficients<f64> {
    SVFCoefficients {
        a: x,
        g: x + 1.0,
        gpow2: x + 2.0,
        k: x + 3.0,
        a1: x + 4.0,
        a2: x + 5.0,
        a3: x + 6.0,
        m0: x + 7.0,
        m1: x + 8.0,
        m2: x + 9.0,
        fs: 48000.0,
    }
}

fn settings(kind: FilterKind, freq: f64, gain: f64, bw: f64, slope: u32, fs: f64) -> BandSettings {
    BandSettings {
        kind,
        freq: freq.to_bits(),
        gain: gain.to_bits(),
        bw_value: bw.to_bits(),
        slope,
        sample_rate: fs.to_bits(),
    }
}

#[test]
fn filter_kind_codes() {
    let all = [
        FilterKind::Bell,
        FilterKind::LowPass,
        FilterKind::HighPass,
        FilterKind::LowShelf,
        FilterKind::HighShelf,
        FilterKind::Notch,
        FilterKind::BandPass,
        FilterKind::Tilt,
        FilterKind::Mesa,
        FilterKind::AllPass,
    ];
    for (i, k) in all.iter().enumerate() {
        let code = i as u32 + 1;
        assert_eq!(FilterKind::from_u32(code), *k);
        assert_eq!(k.code(), code);
    }
}

#[test]
fn filter_order_codes() {
    assert_eq!(FilterOrder::from_u32(0), FilterOrder::X1);
    assert_eq!(FilterOrder::from_u32(1), FilterOrder::X2);
    assert_eq!(FilterOrder::from_u32(2), FilterOrder::X4);
    assert_eq!(FilterOrder::from_u32(3), FilterOrder::X6);
    assert_eq!(FilterOrder::from_u32(4), FilterOrder::X8);
    assert_eq!(FilterOrder::from_u32(99), FilterOrder::X8);
    assert_eq!(FilterOrder::X6.poles(), 6);
    assert_eq!(FilterOrder::X1.svf_sections(), 0);
    assert_eq!(FilterOrder::X8.svf_sections(), 4);
}

#[test]
fn band_type_codes() {
    assert_eq!(BandType::from_u32(0), BandType::Bell);
    assert_eq!(BandType::from_u32(1), BandType::LowShelf);
    assert_eq!(BandType::from_u32(2), BandType::HighShelf);
    assert_eq!(BandType::from_u32(3), BandType::Notch);
    assert_eq!(BandType::from_u32(4), BandType::Allpass);
    assert_eq!(BandType::from_u32(u32::MAX), BandType::Allpass);
}

#[test]
fn noise_color_codes() {
    assert_eq!(NoiseColor::from_i32(0), Ok(NoiseColor::White));
    assert_eq!(NoiseColor::from_i32(1), Ok(NoiseColor::Pink));
    assert_eq!(NoiseColor::from_i32(2), Ok(NoiseColor::Brown));
    assert_eq!(NoiseColor::from_i32(3), Err(()));
    assert_eq!(NoiseColor::from_i32(-1), Err(()));
    assert_eq!(NoiseColor::Brown.as_i32(), 2);
    assert_eq!(NoiseColor::from_i32(NoiseColor::DEFAULT_I32), Ok(NoiseColor::White));
    assert_eq!(NoiseColor::MAX_I32, 2);
}

#[test]
fn odd_slopes_round_up() {
    assert_eq!(get_slope(0), 0);
    assert_eq!(get_slope(1), 2);
    assert_eq!(get_slope(2), 2);
    assert_eq!(get_slope(3), 4);
    assert_eq!(get_slope(8), 8);
    assert_eq!(get_slope(15), 16);
}

#[test]
fn single_section_kinds() {
    for kind in [FilterKind::Bell, FilterKind::Notch, FilterKind::AllPass] {
        let p = band_plan(kind, 8);
        assert_eq!(p.a.count, 1);
        assert_eq!(p.a.q, QRule::Direct);
        assert_eq!(p.b, None);
        assert_eq!(p.post_gain, PostGain::Unity);
    }
    assert_eq!(band_plan(FilterKind::Bell, 2).a.shape, Type::PeakingEQ(GainShare::Full));
}

#[test]
fn cascade_kinds_take_half_the_slope() {
    let lp = band_plan(FilterKind::LowPass, 8);
    assert_eq!(lp.a.count, 4);
    assert_eq!(lp.a.shape, Type::LowPass);
    assert_eq!(lp.a.q, QRule::Cascade);
    let hs = band_plan(FilterKind::HighShelf, 6);
    assert_eq!(hs.a.count, 3);
    assert_eq!(hs.a.shape, Type::HighShelf(GainShare::PerStage));
    let bp = band_plan(FilterKind::BandPass, 4);
    assert_eq!(bp.a.shape, Type::HighPass);
    assert_eq!(bp.b.unwrap().shape, Type::LowPass);
    assert_eq!(bp.b.unwrap().count, 2);
    assert_eq!(bp.combine, Combine::Series);
    let tilt = band_plan(FilterKind::Tilt, 2);
    assert_eq!(tilt.a.shape, Type::HighShelf(GainShare::PerStageDoubled));
    assert_eq!(tilt.post_gain, PostGain::NegatedGain);
    assert_eq!(band_plan(FilterKind::LowPass, 2 * FILTER_POLE_COUNT as u32).a.count, FILTER_POLE_COUNT);
}

#[test]
fn mesa_is_two_parallel_offset_shelves() {
    let p = band_plan(FilterKind::Mesa, 4);
    assert_eq!(p.a.shape, Type::LowShelf(GainShare::PerStageNegated));
    assert_eq!(p.a.freq, FreqRule::Below);
    assert_eq!(p.a.q, QRule::Butterworth);
    let b = p.b.unwrap();
    assert_eq!(b.shape, Type::HighShelf(GainShare::PerStageNegated));
    assert_eq!(b.freq, FreqRule::Above);
    assert_eq!(p.combine, Combine::Parallel);
    assert_eq!(p.post_gain, PostGain::Gain);
}

#[test]
fn new_band_is_a_flat_bell() {
    let band = FilterbandStereo::new(coeffs(0.0), 0.0);
    let s = band.settings();
    assert_eq!(s, settings(FilterKind::Bell, 1000.0, 0.0, 1.0, 2, 48000.0));
    assert_eq!(band.kind(), FilterKind::Bell);
    assert_eq!(band.plan(), band_plan(FilterKind::Bell, 2));
    assert_eq!(band.recomputes(), 0);
    assert_eq!(band.stage(Chain::B, Channel::Right, 15).coeffs, coeffs(0.0));
    assert_eq!(band.coeffs.a[3], coeffs(0.0));
}

#[test]
fn update_twice_recomputes_once() {
    let mut band = FilterbandStereo::new(coeffs(0.0), 0.0);
    let s = settings(FilterKind::LowPass, 440.0, 0.0, 1.0, 4, 48000.0);
    let first = band.update(s);
    assert_eq!(first, Some(band_plan(FilterKind::LowPass, 4)));
    assert_eq!(band.recomputes(), 1);
    band.set_stage(Chain::A, 0, coeffs(1.0));
    band.set_stage(Chain::A, 1, coeffs(2.0));
    let snapshot = band.coeffs;
    assert_eq!(band.update(s), None);
    assert_eq!(band.recomputes(), 1);
    assert_eq!(band.coeffs, snapshot);
}

#[test]
fn unchanged_settings_after_new_do_nothing() {
    let mut band = FilterbandStereo::new(coeffs(0.0), 0.0);
    let s = band.settings();
    assert_eq!(band.update(s), None);
    assert_eq!(band.recomputes(), 0);
}

#[test]
fn odd_slope_update_builds_even_cascade() {
    let mut band = FilterbandStereo::new(coeffs(0.0), 0.0);
    let plan = band.update(settings(FilterKind::HighPass, 100.0, 0.0, 1.0, 3, 44100.0)).unwrap();
    assert_eq!(plan.a.count, 2);
}

#[test]
fn gain_change_keeps_registers() {
    let mut band = FilterbandStereo::new(coeffs(0.0), 0.0);
    let bell = settings(FilterKind::Bell, 1000.0, 3.0, 1.0, 2, 48000.0);
    band.update(bell).unwrap();
    band.set_stage(Chain::A, 0, coeffs(1.0));
    band.store_state(Chain::A, Channel::Left, 0, 0.25, -0.5);
    band.store_state(Chain::A, Channel::Right, 0, 0.75, 0.125);
    let louder = BandSettings { gain: 6.0f64.to_bits(), ..bell };
    let plan = band.update(louder).unwrap();
    assert_eq!(plan, band_plan(FilterKind::Bell, 2));
    band.set_stage(Chain::A, 0, coeffs(2.0));
    let l = band.stage(Chain::A, Channel::Left, 0);
    let r = band.stage(Chain::A, Channel::Right, 0);
    assert_eq!((l.ic1eq, l.ic2eq), (0.25, -0.5));
    assert_eq!((r.ic1eq, r.ic2eq), (0.75, 0.125));
    assert_eq!(l.coeffs, coeffs(2.0));
    assert_eq!(r.coeffs, coeffs(2.0));
    assert_eq!(band.recomputes(), 2);
}

#[test]
fn bit_patterns_decide_equality() {
    let mut band = FilterbandStereo::new(coeffs(0.0), 0.0);
    let plus = settings(FilterKind::Bell, 1000.0, 0.0, 1.0, 2, 48000.0);
    let minus = settings(FilterKind::Bell, 1000.0, -0.0, 1.0, 2, 48000.0);
    assert_eq!(band.update(plus), None);
    assert!(band.update(minus).is_some());
}

#[test]
fn store_state_touches_one_section() {
    let mut band = FilterbandStereo::new(coeffs(0.0), 0.0);
    band.store_state(Chain::B, Channel::Left, 2, 1.0, 2.0);
    let s = band.stage(Chain::B, Channel::Left, 2);
    assert_eq!((s.ic1eq, s.ic2eq), (1.0, 2.0));
    let other = band.stage(Chain::B, Channel::Right, 2);
    assert_eq!((other.ic1eq, other.ic2eq), (0.0, 0.0));
    band.reset(0.0);
    let s = band.stage(Chain::B, Channel::Left, 2);
    assert_eq!((s.ic1eq, s.ic2eq), (0.0, 0.0));
    assert_eq!(s.coeffs, coeffs(0.0));
}

#[test]
fn sample_rate_change_forces_recompute() {
    let band = FilterbandStereo::new(coeffs(0.0), 0.0);
    let mut bank = FilterBank::new(band, 4);
    assert_eq!(bank.len(), 4);
    let s = bank.band(2).settings();
    assert_eq!(bank.update_band(2, s), None);
    bank.on_sample_rate_changed();
    assert_eq!(bank.update_band(2, s), Some(band_plan(FilterKind::Bell, 2)));
    assert_eq!(bank.band(2).recomputes(), 1);
    assert_eq!(bank.update_band(2, s), None);
    assert_eq!(bank.band(1).recomputes(), 0);
}

#[test]
fn capacity_check() {
    let off = PassBand { enabled: false, order: FilterOrder::X8 };
    let x8 = PassBand { enabled: true, order: FilterOrder::X8 };
    let x1 = PassBand { enabled: true, order: FilterOrder::X1 };
    assert!(fits_capacity(x8, x8, &vec![false, false]));
    assert!(!fits_capacity(x8, x8, &vec![false, true]));
    assert!(fits_capacity(x1, x1, &vec![true; 8]));
    assert!(!fits_capacity(x1, x1, &vec![true; 9]));
    assert!(fits_capacity(off, x8, &vec![true, true, true, true]));
    assert!(fits_capacity(off, off, &vec![]));
}

#[test]
fn routes_follow_processing_order() {
    let lp = PassBand { enabled: true, order: FilterOrder::X1 };
    let hp = PassBand { enabled: true, order: FilterOrder::X4 };
    let (poles, svf) = gather_routes(lp, hp, &vec![true, false, true]);
    assert_eq!(poles.as_slice(), &[(0, 0)]);
    assert_eq!(svf.as_slice(), &[(1, 0), (1, 1), (2, 0), (4, 0)]);
    let both = PassBand { enabled: true, order: FilterOrder::X6 };
    let (poles, svf) = gather_routes(both, PassBand { enabled: true, order: FilterOrder::X1 }, &vec![]);
    assert_eq!(poles.as_slice(), &[(1, 0)]);
    assert_eq!(svf.as_slice(), &[(0, 0), (0, 1), (0, 2)]);
    let (poles, svf) = gather_routes(PassBand { enabled: false, order: FilterOrder::X1 }, PassBand { enabled: false, order: FilterOrder::X2 }, &vec![false]);
    assert!(poles.is_empty());
    assert!(svf.is_empty());
}

#[test]
fn set_band_replaces_one_band() {
    let band = FilterbandStereo::new(coeffs(0.0), 0.0);
    let mut bank = FilterBank::new(band, 3);
    let mut changed = bank.band(1);
    changed.update(settings(FilterKind::Notch, 50.0, 0.0, 0.5, 2, 48000.0)).unwrap();
    bank.set_band(1, changed);
    assert_eq!(bank.band(1).kind(), FilterKind::Notch);
    assert_eq!(bank.band(0).kind(), FilterKind::Bell);
    assert_eq!(bank.band(2).kind(), FilterKind::Bell);
    assert_eq!(FilterBank::new(band, 0).len(), 0);
}
