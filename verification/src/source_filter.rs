//! The vocal tract as a filter: resonant cavities that reshape each harmonic
//! of a glottal source.

use crate::error::WaveError;
use crate::expr::Arithmetic;
use crate::expr::Expr;
use crate::expr::TWO;
use crate::ieee;
use crate::waves::models;
use crate::waves::SimpleWave;
use crate::waves::WaveModel;
use vstd::prelude::*;

verus! {

/// The pattern of `343.0`, the speed of sound in metres per second.
pub const SOUND_SPEED: u64 = 0x4075_7000_0000_0000;

/// What a cavity is: its resonance frequency in hertz, and the phase offset
/// in radians that it works with, if it has one.
pub struct CavityModel {
    pub resonance_freq: Expr,
    pub phase: Option<u64>,
}

impl CavityModel {
    /// The resonance frequency of a cavity of the given dimensions:
    /// `(343 / (2 * pi)) * sqrt((area / volume) * length)`.
    pub open spec fn resonance(area: u64, volume: u64, length: u64) -> Expr {
        Expr::product(
            Expr::quotient(Expr::Const(SOUND_SPEED), Expr::two_pi()),
            Expr::sqrt(
                Expr::product(
                    Expr::quotient(Expr::Const(area), Expr::Const(volume)),
                    Expr::Const(length),
                ),
            ),
        )
    }

    /// The cavity of the given dimensions. A phase of zero, of either sign,
    /// stands for no offset.
    pub open spec fn from_dimensions(
        area: u64,
        volume: u64,
        length: u64,
        phase: u64,
    ) -> CavityModel {
        CavityModel {
            resonance_freq: CavityModel::resonance(area, volume, length),
            phase: if ieee::is_zero(phase) {
                None
            } else {
                Some(phase)
            },
        }
    }

    /// The cavity that resonates at the given frequency.
    pub open spec fn from_freq(resonance_freq: u64, phase: Option<u64>) -> CavityModel {
        CavityModel { resonance_freq: Expr::Const(resonance_freq), phase }
    }

    /// The resonance frequency is a number that is not negative, or follows
    /// from positive dimensions.
    pub open spec fn valid(self) -> bool {
        ||| self.resonance_freq matches Expr::Const(bits) && ieee::is_non_negative(bits)
        ||| exists|area: u64, volume: u64, length: u64|
            self.resonance_freq == #[trigger] CavityModel::resonance(area, volume, length)
                && ieee::is_positive(area) && ieee::is_positive(volume) && ieee::is_positive(
                length,
            )
    }

    /// The angle whose cosine scales a harmonic of the given phase:
    /// `phase - offset / 2` with an offset, `phase / 2` without one.
    pub open spec fn detuning(self, phase: Expr) -> Expr {
        match self.phase {
            Some(offset) => Expr::difference(
                phase,
                Expr::quotient(Expr::Const(offset), Expr::Const(TWO)),
            ),
            None => Expr::quotient(phase, Expr::Const(TWO)),
        }
    }

    /// The amplitude that the cavity gives a harmonic:
    /// `(2 * amplitude) * cos(detuning)`.
    pub open spec fn damped_amplitude(self, harmonic: WaveModel) -> Expr {
        Expr::product(
            Expr::product(Expr::Const(TWO), harmonic.amplitude),
            Expr::cos(self.detuning(harmonic.phase)),
        )
    }

    /// The value of the damped amplitude under an arithmetic:
    /// `(2 * amplitude) * cos(phase - offset / 2)` with an offset and
    /// `(2 * amplitude) * cos(phase / 2)` without one, computed on the values
    /// of the harmonic's amplitude and phase.
    pub proof fn law_damped_value(self, arithmetic: Arithmetic, harmonic: WaveModel)
        ensures
            ({
                let amplitude = harmonic.amplitude.value(arithmetic);
                let phase = harmonic.phase.value(arithmetic);
                let angle = match self.phase {
                    Some(offset) => (arithmetic.difference)(
                        phase,
                        (arithmetic.quotient)(offset, TWO),
                    ),
                    None => (arithmetic.quotient)(phase, TWO),
                };
                self.damped_amplitude(harmonic).value(arithmetic) == (arithmetic.product)(
                    (arithmetic.product)(TWO, amplitude),
                    (arithmetic.cos)(angle),
                )
            }),
    {
        reveal_with_fuel(Expr::value, 5);
    }

    /// The phase of a harmonic enters its damped amplitude through the cosine
    /// of the detuning alone: two harmonics of the same amplitude, at phases
    /// whose detunings have the same cosine, leave the cavity with the same
    /// amplitude.
    pub proof fn law_damped_follows_cosine(
        self,
        arithmetic: Arithmetic,
        one: WaveModel,
        other: WaveModel,
    )
        requires
            one.amplitude.value(arithmetic) == other.amplitude.value(arithmetic),
            (arithmetic.cos)(self.detuning(one.phase).value(arithmetic)) == (arithmetic.cos)(
                self.detuning(other.phase).value(arithmetic),
            ),
        ensures
            self.damped_amplitude(one).value(arithmetic) == self.damped_amplitude(other).value(
                arithmetic,
            ),
    {
        reveal_with_fuel(Expr::value, 3);
    }

    /// The harmonic as it leaves the cavity: period, frequency and phase as
    /// they came, the amplitude damped.
    pub open spec fn damped(self, harmonic: WaveModel) -> WaveModel {
        harmonic.with_amplitude(self.damped_amplitude(harmonic))
    }
}

/// One resonant stage of the vocal tract, such as the pharynx, the mouth or
/// the rounded lips.
#[derive(Debug)]
pub struct Cavity {
    resonance_freq: Expr,
    phase: Option<u64>,
}

impl View for Cavity {
    type V = CavityModel;

    closed spec fn view(&self) -> CavityModel {
        CavityModel { resonance_freq: self.resonance_freq, phase: self.phase }
    }
}

impl Cavity {
    #[verifier::type_invariant]
    spec fn inv(self) -> bool {
        self@.valid()
    }

    /// The cavity with the given cross-section area, volume and length. A
    /// dimension that is not greater than zero is refused. A phase of zero
    /// is stored as no offset, so a caller cannot ask for an explicit offset
    /// of zero radians this way.
    pub fn new(area: u64, volume: u64, length: u64, phase: u64) -> (r: Result<Cavity, WaveError>)
        ensures
            ieee::is_positive(area) && ieee::is_positive(volume) && ieee::is_positive(length)
                ==> r is Ok && r->Ok_0@ == CavityModel::from_dimensions(
                area,
                volume,
                length,
                phase,
            ),
            !(ieee::is_positive(area) && ieee::is_positive(volume) && ieee::is_positive(length))
                ==> r is Err && r->Err_0 == WaveError::InvalidParameter,
    {
        if !ieee::is_positive(area) || !ieee::is_positive(volume) || !ieee::is_positive(length) {
            return Err(WaveError::InvalidParameter);
        }
        let v_div_2pi = Expr::quotient(Expr::constant(SOUND_SPEED), Expr::two_pi());
        let sqrt_a_div_vl = Expr::sqrt(
            Expr::product(
                Expr::quotient(Expr::constant(area), Expr::constant(volume)),
                Expr::constant(length),
            ),
        );
        let f_res = Expr::product(v_div_2pi, sqrt_a_div_vl);
        Ok(
            Cavity {
                resonance_freq: f_res,
                phase: if ieee::is_zero(phase) {
                    None
                } else {
                    Some(phase)
                },
            },
        )
    }

    /// The cavity that resonates at the given frequency. A frequency that is
    /// negative, or no number, is refused.
    pub fn from_freq(resonance_freq: u64, phase: Option<u64>) -> (r: Result<Cavity, WaveError>)
        ensures
            ieee::is_non_negative(resonance_freq) ==> r is Ok && r->Ok_0@ == CavityModel::from_freq(
                resonance_freq,
                phase,
            ),
            !ieee::is_non_negative(resonance_freq) ==> r is Err && r->Err_0
                == WaveError::InvalidParameter,
    {
        if !ieee::is_non_negative(resonance_freq) {
            return Err(WaveError::InvalidParameter);
        }
        Ok(Cavity { resonance_freq: Expr::constant(resonance_freq), phase })
    }

    /// The resonance frequency, in hertz.
    pub fn resonance_freq(&self) -> (r: &Expr)
        ensures
            *r == self@.resonance_freq,
            self@.valid(),
    {
        proof {
            use_type_invariant(self);
        }
        &self.resonance_freq
    }

    /// The phase offset, if the cavity has one.
    pub fn phase(&self) -> (r: Option<u64>)
        ensures
            r == self@.phase,
    {
        self.phase
    }

    /// Amplifies or dampens a harmonic: the harmonic that comes back has the
    /// amplitude `(2 * amplitude) * cos(phase - offset / 2)`, or
    /// `(2 * amplitude) * cos(phase / 2)` where the cavity has no offset,
    /// and is otherwise the one that went in.
    pub fn amp_and_damp(&self, harmonic: SimpleWave) -> (r: SimpleWave)
        ensures
            r@ == self@.damped(harmonic@),
    {
        let angle = match self.phase {
            Some(p) => Expr::difference(
                harmonic.phase().clone(),
                Expr::quotient(Expr::constant(p), Expr::constant(TWO)),
            ),
            None => Expr::quotient(harmonic.phase().clone(), Expr::constant(TWO)),
        };
        let amplitude = Expr::product(
            Expr::product(Expr::constant(TWO), harmonic.amplitude().clone()),
            Expr::cos(angle),
        );
        harmonic.with_amplitude(amplitude)
    }
}

/// The unfiltered excitation of the vocal folds, as its harmonics.
#[derive(Debug)]
pub struct Source {
    pub complex_wave: Vec<SimpleWave>,
}

impl View for Source {
    type V = Seq<WaveModel>;

    open spec fn view(&self) -> Seq<WaveModel> {
        models(self.complex_wave@)
    }
}

impl Clone for Source {
    fn clone(&self) -> (r: Source)
        ensures
            r@ == self@,
    {
        let mut complex_wave: Vec<SimpleWave> = Vec::new();
        let mut i: usize = 0;
        while i < self.complex_wave.len()
            invariant
                i <= self.complex_wave.len(),
                complex_wave.len() == i,
                forall|k: int| 0 <= k < i ==> complex_wave[k]@ == self.complex_wave[k]@,
            decreases self.complex_wave.len() - i,
        {
            complex_wave.push(self.complex_wave[i].clone());
            i += 1;
        }
        Source { complex_wave }
    }
}

/// The three cavities that a harmonic passes, in this order: the pharynx,
/// the mouth, the rounded lips.
#[derive(Debug)]
pub struct Filter {
    pub pharynx: Cavity,
    pub oral: Cavity,
    pub round: Cavity,
}

impl Filter {
    /// A harmonic after the pharynx, then the mouth, then the lips.
    pub open spec fn shaped(self, harmonic: WaveModel) -> WaveModel {
        self.round@.damped(self.oral@.damped(self.pharynx@.damped(harmonic)))
    }

    /// The harmonics of a source after the three cavities, in their order.
    pub open spec fn shaped_all(self, harmonics: Seq<WaveModel>) -> Seq<WaveModel> {
        Seq::new(harmonics.len(), |i: int| self.shaped(harmonics[i]))
    }

    /// The three cavities change nothing of a harmonic but its amplitude,
    /// and each works on the amplitude that the one before it left.
    pub proof fn law_shaped(self, harmonic: WaveModel)
        ensures
            self.shaped(harmonic) == harmonic.with_amplitude(self.shaped(harmonic).amplitude),
            self.shaped(harmonic).consistent() == harmonic.consistent(),
            ({
                let first = self.pharynx@.damped_amplitude(harmonic);
                let second = self.oral@.damped_amplitude(harmonic.with_amplitude(first));
                let third = self.round@.damped_amplitude(harmonic.with_amplitude(second));
                self.shaped(harmonic).amplitude == third
            }),
    {
    }

    /// A filter of three cavities without offset scales the amplitude three
    /// times by `2 * cos(phase / 2)`, innermost first.
    pub proof fn law_shaped_without_offset(self, harmonic: WaveModel)
        requires
            self.pharynx@.phase is None,
            self.oral@.phase is None,
            self.round@.phase is None,
        ensures
            ({
                let gain = Expr::cos(Expr::quotient(harmonic.phase, Expr::Const(TWO)));
                let once = Expr::product(Expr::product(Expr::Const(TWO), harmonic.amplitude), gain);
                let twice = Expr::product(Expr::product(Expr::Const(TWO), once), gain);
                let thrice = Expr::product(Expr::product(Expr::Const(TWO), twice), gain);
                self.shaped(harmonic) == harmonic.with_amplitude(thrice)
            }),
    {
    }

    /// The filter made of the three cavities.
    pub fn new(pharynx: Cavity, oral: Cavity, round: Cavity) -> (r: Filter)
        ensures
            r.pharynx == pharynx,
            r.oral == oral,
            r.round == round,
    {
        Filter { pharynx, oral, round }
    }

    /// Passes every harmonic of the source through the pharynx, then the
    /// mouth, then the lips. The harmonics come back in the order of the
    /// source, each shaped independently of the others.
    pub fn formants(&self, source_wave: Source) -> (r: Vec<SimpleWave>)
        ensures
            models(r@) == self.shaped_all(source_wave@),
    {
        let mut result: Vec<SimpleWave> = Vec::new();
        let mut i: usize = 0;
        while i < source_wave.complex_wave.len()
            invariant
                i <= source_wave.complex_wave.len(),
                result.len() == i,
                forall|k: int|
                    0 <= k < i ==> result[k]@ == self.shaped(source_wave.complex_wave[k]@),
            decreases source_wave.complex_wave.len() - i,
        {
            let f1 = self.pharynx.amp_and_damp(source_wave.complex_wave[i].clone());
            let f2 = self.oral.amp_and_damp(f1);
            let f3 = self.round.amp_and_damp(f2);
            result.push(f3);
            i += 1;
        }
        result
    }
}

} // verus!
