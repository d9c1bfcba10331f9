use formant::error::WaveError;
use formant::expr::{Expr, ONE, TWO};
use formant::source_filter::{Cavity, Filter, Source, SOUND_SPEED};
use formant::waves::{fourier_synthesis, SimpleWave};

fn filter_value(e: &Expr) -> f64 {
    match e {
        Expr::Const(bits) => f64::from_bits(*bits),
        Expr::Sum(a, b) => filter_value(a) + filter_value(b),
        Expr::Difference(a, b) => filter_value(a) - filter_value(b),
        Expr::Product(a, b) => filter_value(a) * filter_value(b),
        Expr::Quotient(a, b) => filter_value(a) / filter_value(b),
        Expr::Sqrt(a) => filter_value(a).sqrt(),
        Expr::Sin(a) => filter_value(a).sin(),
        Expr::Cos(a) => filter_value(a).cos(),
    }
}

fn wave(amplitude: f64, frequency: f64, phase: f64) -> SimpleWave {
    SimpleWave::from_freq(amplitude.to_bits(), frequency.to_bits(), phase.to_bits()).unwrap()
}

fn plain_cavity() -> Cavity {
    Cavity::from_freq(0, None).unwrap()
}

fn offset_cavity(offset: f64) -> Cavity {
    Cavity::from_freq(ONE, Some(offset.to_bits())).unwrap()
}

#[test]
fn cavity_resonance_follows_from_its_dimensions() {
    let c = Cavity::new(2.0f64.to_bits(), 4.0f64.to_bits(), 8.0f64.to_bits(), 0).unwrap();
    let want = (343.0 / (2.0 * std::f64::consts::PI)) * (2.0f64 / 4.0 * 8.0).sqrt();
    assert_eq!(filter_value(c.resonance_freq()), want);
    assert_eq!(filter_value(c.resonance_freq()), 109.1802909610402);
    let unit = Cavity::new(ONE, ONE, ONE, 0).unwrap();
    assert_eq!(filter_value(unit.resonance_freq()), 54.5901454805201);
}

#[test]
fn cavity_resonance_is_the_stated_expression() {
    let c = Cavity::new(ONE, TWO, ONE, 0).unwrap();
    let two_pi = Expr::product(Expr::constant(TWO), Expr::constant(formant::expr::PI));
    let want = Expr::product(
        Expr::quotient(Expr::constant(SOUND_SPEED), two_pi),
        Expr::sqrt(Expr::product(
            Expr::quotient(Expr::constant(ONE), Expr::constant(TWO)),
            Expr::constant(ONE),
        )),
    );
    assert_eq!(*c.resonance_freq(), want);
}

#[test]
fn cavity_stores_a_zero_phase_as_no_offset() {
    assert_eq!(Cavity::new(ONE, ONE, ONE, 0).unwrap().phase(), None);
    assert_eq!(
        Cavity::new(ONE, ONE, ONE, (-0.0f64).to_bits()).unwrap().phase(),
        None
    );
    assert_eq!(
        Cavity::new(ONE, ONE, ONE, 0.5f64.to_bits()).unwrap().phase(),
        Some(0.5f64.to_bits())
    );
    assert_eq!(
        Cavity::new(ONE, ONE, ONE, (-1.5f64).to_bits()).unwrap().phase(),
        Some((-1.5f64).to_bits())
    );
    assert_eq!(
        Cavity::new(ONE, ONE, ONE, f64::NAN.to_bits()).unwrap().phase(),
        Some(f64::NAN.to_bits())
    );
}

#[test]
fn cavity_refuses_dimensions_that_are_not_positive() {
    for bad in [0.0f64, -0.0, -1.0, f64::NAN, f64::NEG_INFINITY] {
        let b = bad.to_bits();
        assert_eq!(
            Cavity::new(b, ONE, ONE, 0).err(),
            Some(WaveError::InvalidParameter)
        );
        assert_eq!(
            Cavity::new(ONE, b, ONE, 0).err(),
            Some(WaveError::InvalidParameter)
        );
        assert_eq!(
            Cavity::new(ONE, ONE, b, 0).err(),
            Some(WaveError::InvalidParameter)
        );
    }
    assert!(Cavity::new(f64::MIN_POSITIVE.to_bits(), ONE, f64::MAX.to_bits(), 0).is_ok());
}

#[test]
fn cavity_from_freq_keeps_what_it_is_given() {
    let c = Cavity::from_freq(TWO, Some(0)).unwrap();
    assert_eq!(*c.resonance_freq(), Expr::Const(TWO));
    assert_eq!(c.phase(), Some(0));
    let c = Cavity::from_freq(0, None).unwrap();
    assert_eq!(filter_value(c.resonance_freq()), 0.0);
    assert_eq!(c.phase(), None);
    assert!(Cavity::from_freq((-0.0f64).to_bits(), None).is_ok());
    assert!(Cavity::from_freq(f64::INFINITY.to_bits(), None).is_ok());
}

#[test]
fn cavity_from_freq_refuses_a_negative_resonance() {
    for bad in [-1.0f64, -2.5e-310, f64::NEG_INFINITY, f64::NAN] {
        assert_eq!(
            Cavity::from_freq(bad.to_bits(), None).err(),
            Some(WaveError::InvalidParameter)
        );
    }
}

#[test]
fn damping_without_offset_halves_the_phase() {
    let h = plain_cavity().amp_and_damp(wave(1.0, 3.0, 0.7));
    assert_eq!(filter_value(h.amplitude()), 2.0 * 1.0 * (0.7f64 / 2.0).cos());
    assert_eq!(filter_value(h.amplitude()), 1.8787454256947578);
    assert_eq!(
        *h.amplitude(),
        Expr::product(
            Expr::product(Expr::constant(TWO), Expr::constant(ONE)),
            Expr::cos(Expr::quotient(
                Expr::constant(0.7f64.to_bits()),
                Expr::constant(TWO)
            )),
        )
    );
}

#[test]
fn damping_with_offset_detunes_by_half_the_offset() {
    let h = offset_cavity(1.2).amp_and_damp(wave(1.0, 3.0, 0.7));
    assert_eq!(
        filter_value(h.amplitude()),
        2.0 * 1.0 * (0.7f64 - 1.2 / 2.0).cos()
    );
    assert_eq!(filter_value(h.amplitude()), 1.9900083305560516);
    assert_eq!(
        *h.amplitude(),
        Expr::product(
            Expr::product(Expr::constant(TWO), Expr::constant(ONE)),
            Expr::cos(Expr::difference(
                Expr::constant(0.7f64.to_bits()),
                Expr::quotient(Expr::constant(1.2f64.to_bits()), Expr::constant(TWO)),
            )),
        )
    );
}

#[test]
fn an_explicit_zero_offset_is_not_the_same_as_none() {
    let with = offset_cavity(0.0).amp_and_damp(wave(1.0, 1.0, 0.7));
    let without = plain_cavity().amp_and_damp(wave(1.0, 1.0, 0.7));
    assert_eq!(filter_value(with.amplitude()), 2.0 * (0.7f64).cos());
    assert_eq!(filter_value(without.amplitude()), 2.0 * (0.35f64).cos());
}

#[test]
fn damping_changes_the_amplitude_only() {
    let w = wave(1.5, 3.0, 0.7);
    let h = offset_cavity(0.4).amp_and_damp(w.clone());
    assert_eq!(h.period(), w.period());
    assert_eq!(h.frequency(), w.frequency());
    assert_eq!(h.angular_frequency(), w.angular_frequency());
    assert_eq!(h.phase(), w.phase());
    assert_ne!(h.amplitude(), w.amplitude());
}

#[test]
fn damping_is_periodic_in_the_phase() {
    let tau = 2.0 * std::f64::consts::PI;
    for phase in [0.0f64, 0.7, -1.3, 2.9] {
        for cavity_offset in [0.4f64, -2.0, 0.0] {
            let a = offset_cavity(cavity_offset).amp_and_damp(wave(1.5, 3.0, phase));
            let b = offset_cavity(cavity_offset).amp_and_damp(wave(1.5, 3.0, phase + tau));
            assert!(
                (filter_value(a.amplitude()) - filter_value(b.amplitude())).abs() < 1e-12
            );
        }
    }
}

#[test]
fn damping_without_offset_changes_sign_after_one_turn_of_phase() {
    let tau = 2.0 * std::f64::consts::PI;
    let a = plain_cavity().amp_and_damp(wave(1.0, 3.0, 0.0));
    let b = plain_cavity().amp_and_damp(wave(1.0, 3.0, tau));
    assert_eq!(filter_value(a.amplitude()), 2.0);
    assert_eq!(filter_value(b.amplitude()), -2.0);
}

#[test]
fn damping_without_offset_repeats_after_two_turns_of_phase() {
    let two_turns = 4.0 * std::f64::consts::PI;
    for phase in [0.0f64, 0.7, -1.3, 2.9] {
        let a = plain_cavity().amp_and_damp(wave(1.5, 3.0, phase));
        let b = plain_cavity().amp_and_damp(wave(1.5, 3.0, phase + two_turns));
        assert!((filter_value(a.amplitude()) - filter_value(b.amplitude())).abs() < 1e-12);
    }
}

#[test]
fn filter_keeps_its_three_cavities_in_order() {
    let f = Filter::new(offset_cavity(0.1), offset_cavity(0.2), offset_cavity(0.3));
    assert_eq!(f.pharynx.phase(), Some(0.1f64.to_bits()));
    assert_eq!(f.oral.phase(), Some(0.2f64.to_bits()));
    assert_eq!(f.round.phase(), Some(0.3f64.to_bits()));
}

#[test]
fn formants_pass_each_harmonic_through_pharynx_mouth_and_lips() {
    let f = Filter::new(offset_cavity(0.1), plain_cavity(), offset_cavity(0.3));
    let source = Source {
        complex_wave: vec![wave(1.0, 1.0, 0.5), wave(0.5, 2.0, -0.25), wave(3.0, 3.0, 0.0)],
    };
    let shaped = f.formants(source.clone());
    assert_eq!(shaped.len(), 3);
    for (got, h) in shaped.iter().zip(source.complex_wave.iter()) {
        let by_hand = offset_cavity(0.3).amp_and_damp(
            plain_cavity().amp_and_damp(offset_cavity(0.1).amp_and_damp(h.clone())),
        );
        assert_eq!(got.amplitude(), by_hand.amplitude());
        assert_eq!(got.frequency(), h.frequency());
        assert_eq!(got.period(), h.period());
        assert_eq!(got.phase(), h.phase());
    }
    let a = 1.0f64;
    let p = 0.5f64;
    let after_pharynx = 2.0 * a * (p - 0.1 / 2.0).cos();
    let after_mouth = 2.0 * after_pharynx * (p / 2.0).cos();
    let after_lips = 2.0 * after_mouth * (p - 0.3 / 2.0).cos();
    assert_eq!(filter_value(shaped[0].amplitude()), after_lips);
}

#[test]
fn formants_of_an_empty_source_are_empty() {
    let f = Filter::new(plain_cavity(), plain_cavity(), plain_cavity());
    assert!(f.formants(Source { complex_wave: Vec::new() }).is_empty());
}

#[test]
fn source_clone_keeps_the_harmonics() {
    let source = Source {
        complex_wave: vec![wave(1.0, 1.0, 0.5), wave(0.5, 2.0, -0.25)],
    };
    let copy = source.clone();
    assert_eq!(copy.complex_wave.len(), 2);
    for (a, b) in copy.complex_wave.iter().zip(source.complex_wave.iter()) {
        assert_eq!(a.amplitude(), b.amplitude());
        assert_eq!(a.period(), b.period());
        assert_eq!(a.frequency(), b.frequency());
        assert_eq!(a.angular_frequency(), b.angular_frequency());
        assert_eq!(a.phase(), b.phase());
    }
}

#[test]
fn filtered_source_matches_direct_synthesis() {
    let source = Source {
        complex_wave: vec![wave(1.0, 1.0, 0.0), wave(0.5, 2.0, 0.0)],
    };
    let f = Filter::new(plain_cavity(), plain_cavity(), plain_cavity());
    let ts: Vec<u64> = [0.0f64, 0.25, 0.5].iter().map(|t| t.to_bits()).collect();
    let filtered = fourier_synthesis(&ts, f.formants(source)).unwrap();

    let scale = |amplitude: f64, phase: f64| {
        let mut a = amplitude;
        for _ in 0..3 {
            a = 2.0 * a * (phase / 2.0).cos();
        }
        a
    };
    assert_eq!(scale(1.0, 0.0), 8.0);
    assert_eq!(scale(0.5, 0.0), 4.0);
    let direct = fourier_synthesis(
        &ts,
        vec![wave(scale(1.0, 0.0), 1.0, 0.0), wave(scale(0.5, 0.0), 2.0, 0.0)],
    )
    .unwrap();

    assert_eq!(filtered.len(), 3);
    assert_eq!(direct.len(), 3);
    for j in 0..3 {
        assert_eq!(filtered[j].0, ts[j]);
        assert_eq!(direct[j].0, ts[j]);
        assert_eq!(
            filter_value(&filtered[j].1).to_bits(),
            filter_value(&direct[j].1).to_bits()
        );
    }
    let want = [0.0, 8.0, 0.0];
    for j in 0..3 {
        assert!((filter_value(&filtered[j].1) - want[j]).abs() < 1e-12);
    }
}
