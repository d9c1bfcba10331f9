//! Sinusoidal harmonics, the time grid they are sampled on, and their
//! superposition.

use crate::error::WaveError;
use crate::expr::Arithmetic;
use crate::expr::Expr;
use crate::expr::FOUR;
use crate::expr::ONE;
use crate::ieee;
use vstd::prelude::*;

verus! {

/// The pattern of `440.0`, the frequency in hertz of the default wave.
pub const CONCERT_PITCH: u64 = 0x407b_8000_0000_0000;

/// The five quantities of a harmonic.
pub struct WaveModel {
    /// Peak displacement, in signal units.
    pub amplitude: Expr,
    /// Seconds per cycle.
    pub period: Expr,
    /// Cycles per second.
    pub frequency: Expr,
    /// Radians per second.
    pub angular_frequency: Expr,
    /// Radians.
    pub phase: Expr,
}

impl WaveModel {
    /// The harmonic with the given period: its frequency is `1 / period` and
    /// its angular frequency `(2 * pi) * (1 / period)`.
    pub open spec fn from_period(amplitude: Expr, period: Expr, phase: Expr) -> WaveModel {
        WaveModel {
            amplitude,
            period,
            frequency: Expr::reciprocal(period),
            angular_frequency: Expr::product(Expr::two_pi(), Expr::reciprocal(period)),
            phase,
        }
    }

    /// The harmonic with the given frequency: its period is `1 / frequency`
    /// and its angular frequency `(2 * pi) * frequency`.
    pub open spec fn from_freq(amplitude: Expr, frequency: Expr, phase: Expr) -> WaveModel {
        WaveModel {
            amplitude,
            period: Expr::reciprocal(frequency),
            frequency,
            angular_frequency: Expr::product(Expr::two_pi(), frequency),
            phase,
        }
    }

    /// Period, frequency and angular frequency agree: one of period and
    /// frequency is the reciprocal of the other, and the angular frequency is
    /// `(2 * pi) * frequency`.
    pub open spec fn consistent(self) -> bool {
        &&& self.angular_frequency == Expr::product(Expr::two_pi(), self.frequency)
        &&& (self.frequency == Expr::reciprocal(self.period) || self.period == Expr::reciprocal(
            self.frequency,
        ))
    }

    /// The same harmonic at another amplitude.
    pub open spec fn with_amplitude(self, amplitude: Expr) -> WaveModel {
        WaveModel { amplitude, ..self }
    }

    /// The displacement at time `t`:
    /// `amplitude * sin(angular_frequency * t + phase)`.
    pub open spec fn displacement_at(self, t: u64) -> Expr {
        Expr::product(
            self.amplitude,
            Expr::sin(
                Expr::sum(Expr::product(self.angular_frequency, Expr::Const(t)), self.phase),
            ),
        )
    }

    /// The displacement at each of the times, in their order.
    pub open spec fn displacement(self, samples: Seq<u64>) -> Seq<Expr> {
        Seq::new(samples.len(), |j: int| self.displacement_at(samples[j]))
    }

    /// A wave made from its period has the frequency `1 / period` and the
    /// angular frequency `(2 * pi) * (1 / period)`; one made from its
    /// frequency has the period `1 / frequency` and the angular frequency
    /// `(2 * pi) * frequency`. Either way the three are consistent.
    pub proof fn law_constructors_consistent(amplitude: Expr, given: Expr, phase: Expr)
        ensures
            WaveModel::from_period(amplitude, given, phase).frequency == Expr::reciprocal(given),
            WaveModel::from_period(amplitude, given, phase).angular_frequency == Expr::product(
                Expr::two_pi(),
                Expr::reciprocal(given),
            ),
            WaveModel::from_period(amplitude, given, phase).consistent(),
            WaveModel::from_freq(amplitude, given, phase).period == Expr::reciprocal(given),
            WaveModel::from_freq(amplitude, given, phase).angular_frequency == Expr::product(
                Expr::two_pi(),
                given,
            ),
            WaveModel::from_freq(amplitude, given, phase).consistent(),
    {
    }

    /// A wave made from a period, and the wave made from the frequency that
    /// an arithmetic gives as `1 / period`, agree in the values of their
    /// amplitude, frequency, angular frequency and phase. They agree in the
    /// value of their period too wherever the arithmetic gives the period
    /// back as `1 / (1 / period)`.
    pub proof fn law_period_and_frequency_agree(
        arithmetic: Arithmetic,
        amplitude: u64,
        period: u64,
        phase: u64,
    )
        ensures
            ({
                let frequency = (arithmetic.quotient)(ONE, period);
                let by_period = WaveModel::from_period(
                    Expr::Const(amplitude),
                    Expr::Const(period),
                    Expr::Const(phase),
                );
                let by_freq = WaveModel::from_freq(
                    Expr::Const(amplitude),
                    Expr::Const(frequency),
                    Expr::Const(phase),
                );
                &&& by_period.amplitude.value(arithmetic) == by_freq.amplitude.value(arithmetic)
                &&& by_period.frequency.value(arithmetic) == by_freq.frequency.value(arithmetic)
                &&& by_period.angular_frequency.value(arithmetic)
                    == by_freq.angular_frequency.value(arithmetic)
                &&& by_period.phase.value(arithmetic) == by_freq.phase.value(arithmetic)
                &&& (arithmetic.quotient)(ONE, frequency) == period
                    ==> by_period.period.value(arithmetic) == by_freq.period.value(arithmetic)
            }),
    {
        reveal_with_fuel(Expr::value, 4);
    }

    /// The value of a displacement under an arithmetic is
    /// `amplitude * sin(angular_frequency * t + phase)`, computed on the
    /// values of the three.
    pub proof fn law_displacement_value(self, arithmetic: Arithmetic, t: u64)
        ensures
            self.displacement_at(t).value(arithmetic) == (arithmetic.product)(
                self.amplitude.value(arithmetic),
                (arithmetic.sin)(
                    (arithmetic.sum)(
                        (arithmetic.product)(self.angular_frequency.value(arithmetic), t),
                        self.phase.value(arithmetic),
                    ),
                ),
            ),
    {
        reveal_with_fuel(Expr::value, 5);
    }

    /// In a consistent wave the displacement at `t` is
    /// `amplitude * sin(((2 * pi) * frequency) * t + phase)`.
    pub proof fn law_displacement_by_frequency(self, t: u64)
        requires
            self.consistent(),
        ensures
            self.displacement_at(t) == Expr::product(
                self.amplitude,
                Expr::sin(
                    Expr::sum(
                        Expr::product(
                            Expr::product(Expr::two_pi(), self.frequency),
                            Expr::Const(t),
                        ),
                        self.phase,
                    ),
                ),
            ),
    {
    }

    /// A change of amplitude leaves the consistency of a wave as it was.
    pub proof fn law_amplitude_is_free(self, amplitude: Expr)
        ensures
            self.with_amplitude(amplitude).consistent() == self.consistent(),
    {
    }
}

/// A single sinusoidal harmonic. Its period, frequency and angular frequency
/// are fixed together when it is made and cannot drift apart afterwards.
#[derive(Debug)]
pub struct SimpleWave {
    amplitude: Expr,
    period: Expr,
    frequency: Expr,
    angular_frequency: Expr,
    phase: Expr,
}

impl View for SimpleWave {
    type V = WaveModel;

    closed spec fn view(&self) -> WaveModel {
        WaveModel {
            amplitude: self.amplitude,
            period: self.period,
            frequency: self.frequency,
            angular_frequency: self.angular_frequency,
            phase: self.phase,
        }
    }
}

impl Clone for SimpleWave {
    fn clone(&self) -> (r: SimpleWave)
        ensures
            r@ == self@,
    {
        proof {
            use_type_invariant(self);
        }
        SimpleWave {
            amplitude: self.amplitude.clone(),
            period: self.period.clone(),
            frequency: self.frequency.clone(),
            angular_frequency: self.angular_frequency.clone(),
            phase: self.phase.clone(),
        }
    }
}

impl SimpleWave {
    #[verifier::type_invariant]
    spec fn inv(self) -> bool {
        self@.consistent()
    }

    /// The wave with the given amplitude, period in seconds and phase in
    /// radians. A period that is not greater than zero is refused.
    pub fn from_period(amplitude: u64, period: u64, phase: u64) -> (r: Result<
        SimpleWave,
        WaveError,
    >)
        ensures
            ieee::is_positive(period) ==> r is Ok && r->Ok_0@ == WaveModel::from_period(
                Expr::Const(amplitude),
                Expr::Const(period),
                Expr::Const(phase),
            ),
            !ieee::is_positive(period) ==> r is Err && r->Err_0 == WaveError::InvalidParameter,
    {
        if !ieee::is_positive(period) {
            return Err(WaveError::InvalidParameter);
        }
        let frequency = Expr::reciprocal(Expr::constant(period));
        Ok(
            SimpleWave {
                amplitude: Expr::constant(amplitude),
                period: Expr::constant(period),
                angular_frequency: Expr::product(Expr::two_pi(), frequency.clone()),
                frequency,
                phase: Expr::constant(phase),
            },
        )
    }

    /// The wave with the given amplitude, frequency in hertz and phase in
    /// radians. A frequency that is not greater than zero is refused.
    pub fn from_freq(amplitude: u64, frequency: u64, phase: u64) -> (r: Result<
        SimpleWave,
        WaveError,
    >)
        ensures
            ieee::is_positive(frequency) ==> r is Ok && r->Ok_0@ == WaveModel::from_freq(
                Expr::Const(amplitude),
                Expr::Const(frequency),
                Expr::Const(phase),
            ),
            !ieee::is_positive(frequency) ==> r is Err && r->Err_0 == WaveError::InvalidParameter,
    {
        if !ieee::is_positive(frequency) {
            return Err(WaveError::InvalidParameter);
        }
        Ok(
            SimpleWave {
                amplitude: Expr::constant(amplitude),
                period: Expr::reciprocal(Expr::constant(frequency)),
                frequency: Expr::constant(frequency),
                angular_frequency: Expr::product(Expr::two_pi(), Expr::constant(frequency)),
                phase: Expr::constant(phase),
            },
        )
    }

    /// The wave of amplitude 4 at 440 Hz, with no phase shift.
    pub fn default() -> (r: SimpleWave)
        ensures
            r@ == WaveModel::from_freq(
                Expr::Const(FOUR),
                Expr::Const(CONCERT_PITCH),
                Expr::Const(0),
            ),
    {
        SimpleWave {
            amplitude: Expr::constant(FOUR),
            period: Expr::reciprocal(Expr::constant(CONCERT_PITCH)),
            frequency: Expr::constant(CONCERT_PITCH),
            angular_frequency: Expr::product(Expr::two_pi(), Expr::constant(CONCERT_PITCH)),
            phase: Expr::constant(0),
        }
    }

    /// The wave of period `2 * pi`, so that one radian of phase passes per
    /// second.
    pub fn sine_wave(amplitude: u64, phase: u64) -> (r: SimpleWave)
        ensures
            r@ == WaveModel::from_period(
                Expr::Const(amplitude),
                Expr::two_pi(),
                Expr::Const(phase),
            ),
    {
        let frequency = Expr::reciprocal(Expr::two_pi());
        SimpleWave {
            amplitude: Expr::constant(amplitude),
            period: Expr::two_pi(),
            angular_frequency: Expr::product(Expr::two_pi(), frequency.clone()),
            frequency,
            phase: Expr::constant(phase),
        }
    }

    /// The same wave at another amplitude.
    pub fn with_amplitude(self, amplitude: Expr) -> (r: SimpleWave)
        ensures
            r@ == self@.with_amplitude(amplitude),
    {
        proof {
            use_type_invariant(&self);
        }
        SimpleWave {
            amplitude,
            period: self.period,
            frequency: self.frequency,
            angular_frequency: self.angular_frequency,
            phase: self.phase,
        }
    }

    /// The displacement at each time of `range`, in the order of `range`:
    /// `amplitude * sin(angular_frequency * t + phase)`.
    pub fn displace_y(&self, range: &Vec<u64>) -> (r: Vec<Expr>)
        ensures
            r@ == self@.displacement(range@),
    {
        let mut displacement: Vec<Expr> = Vec::new();
        let mut j: usize = 0;
        while j < range.len()
            invariant
                j <= range.len(),
                displacement.len() == j,
                forall|k: int| 0 <= k < j ==> displacement[k] == self@.displacement_at(range[k]),
            decreases range.len() - j,
        {
            displacement.push(self.displace_at(range[j]));
            j += 1;
        }
        displacement
    }

    /// The amplitude.
    pub fn amplitude(&self) -> (r: &Expr)
        ensures
            *r == self@.amplitude,
    {
        &self.amplitude
    }

    /// The period, in seconds.
    pub fn period(&self) -> (r: &Expr)
        ensures
            *r == self@.period,
            self@.consistent(),
    {
        proof {
            use_type_invariant(self);
        }
        &self.period
    }

    /// The frequency, in hertz.
    pub fn frequency(&self) -> (r: &Expr)
        ensures
            *r == self@.frequency,
            self@.consistent(),
    {
        proof {
            use_type_invariant(self);
        }
        &self.frequency
    }

    /// The angular frequency, in radians per second.
    pub fn angular_frequency(&self) -> (r: &Expr)
        ensures
            *r == self@.angular_frequency,
            self@.consistent(),
    {
        proof {
            use_type_invariant(self);
        }
        &self.angular_frequency
    }

    /// The phase, in radians.
    pub fn phase(&self) -> (r: &Expr)
        ensures
            *r == self@.phase,
    {
        &self.phase
    }

    /// The displacement at time `t`.
    fn displace_at(&self, t: u64) -> (r: Expr)
        ensures
            r == self@.displacement_at(t),
    {
        let angle = Expr::sum(
            Expr::product(self.angular_frequency.clone(), Expr::constant(t)),
            self.phase.clone(),
        );
        Expr::product(self.amplitude.clone(), Expr::sin(angle))
    }
}

/// Where the generation of a time grid stands.
///
/// A grid starts at `init` and grows by one `step` at a time for as long as
/// the next time does not exceed `fin`. The sums themselves are computed by
/// the caller and handed in one by one.
pub struct GridModel {
    /// The first time of the grid.
    pub init: u64,
    /// The bound that no time of the grid exceeds.
    pub fin: u64,
    /// The distance between neighbouring times.
    pub step: u64,
    /// The times found so far, in order.
    pub samples: Seq<u64>,
    /// Whether the time after the last one is still to be looked at.
    pub growing: bool,
}

impl GridModel {
    /// The grid before any sum: it holds `init` if `init <= fin`, and is
    /// complete and empty otherwise.
    pub open spec fn start(init: u64, fin: u64, step: u64) -> GridModel {
        GridModel {
            init,
            fin,
            step,
            samples: if ieee::le(init, fin) {
                seq![init]
            } else {
                Seq::empty()
            },
            growing: ieee::le(init, fin),
        }
    }

    /// Whether `sum`, offered as the last time plus the step, would be taken
    /// as the next time of the grid: it is within the bound and later than
    /// the last time.
    pub open spec fn takes(self, sum: u64) -> bool {
        self.growing && ieee::le(sum, self.fin) && ieee::lt(self.samples.last(), sum)
    }

    /// Whether `sum` shows that the step no longer moves the time forward:
    /// it is within the bound, yet not later than the last time.
    pub open spec fn stalls(self, sum: u64) -> bool {
        self.growing && ieee::le(sum, self.fin) && !ieee::lt(self.samples.last(), sum)
    }

    /// The grid after `sum` was offered. A sum that is taken joins the grid;
    /// any other completes it.
    pub open spec fn advance(self, sum: u64) -> GridModel {
        if !self.growing {
            self
        } else if self.takes(sum) {
            GridModel { samples: self.samples.push(sum), ..self }
        } else {
            GridModel { growing: false, ..self }
        }
    }

    /// The grid after each of the sums was offered in turn.
    pub open spec fn advance_all(self, sums: Seq<u64>) -> GridModel
        decreases sums.len(),
    {
        if sums.len() == 0 {
            self
        } else {
            self.advance(sums.first()).advance_all(sums.drop_first())
        }
    }

    /// What holds of every grid: the step is positive; the times are
    /// strictly increasing and none exceeds the bound; the grid holds a time
    /// exactly if `init <= fin`, and `init` is then its first; only a grid
    /// that holds a time can still grow.
    pub open spec fn valid(self) -> bool {
        &&& ieee::is_positive(self.step)
        &&& self.growing ==> self.samples.len() > 0
        &&& self.samples.len() > 0 <==> ieee::le(self.init, self.fin)
        &&& self.samples.len() > 0 ==> self.samples[0] == self.init
        &&& forall|i: int|
            0 <= i < self.samples.len() ==> ieee::le(#[trigger] self.samples[i], self.fin)
        &&& forall|i: int, j: int|
            0 <= i < j < self.samples.len() ==> ieee::lt(
                #[trigger] self.samples[i],
                #[trigger] self.samples[j],
            )
    }

    /// A grid with a positive step starts out valid.
    pub proof fn law_start_valid(init: u64, fin: u64, step: u64)
        requires
            ieee::is_positive(step),
        ensures
            GridModel::start(init, fin, step).valid(),
    {
    }

    /// Whatever sum is offered, a valid grid stays valid, keeps the times it
    /// has, and grows by at most the sum offered.
    pub proof fn law_advance_valid(self, sum: u64)
        requires
            self.valid(),
        ensures
            self.advance(sum).valid(),
            self.advance(sum).samples == self.samples || self.advance(sum).samples
                == self.samples.push(sum),
    {
    }

    /// How many of the sums, from the first on, are taken one after the
    /// other before one is not.
    pub open spec fn taken(self, sums: Seq<u64>) -> nat
        decreases sums.len(),
    {
        if sums.len() == 0 || !self.takes(sums.first()) {
            0
        } else {
            1 + self.advance(sums.first()).taken(sums.drop_first())
        }
    }

    /// A complete grid takes no further sum.
    pub proof fn law_complete_is_final(self, sums: Seq<u64>)
        requires
            !self.growing,
        ensures
            self.advance_all(sums) == self,
        decreases sums.len(),
    {
        if sums.len() > 0 {
            self.law_complete_is_final(sums.drop_first());
        }
    }

    /// The grid after a run of sums holds the times it had, followed by the
    /// sums up to the first that was not taken, and nothing else. If a sum
    /// was not taken the grid is complete.
    pub proof fn law_grid_is_prefix(self, sums: Seq<u64>)
        ensures
            self.taken(sums) <= sums.len(),
            self.advance_all(sums).samples == self.samples + sums.take(self.taken(sums) as int),
            self.taken(sums) < sums.len() ==> !self.advance_all(sums).growing,
        decreases sums.len(),
    {
        if sums.len() > 0 {
            let next = self.advance(sums.first());
            let rest = sums.drop_first();
            if self.takes(sums.first()) {
                next.law_grid_is_prefix(rest);
                let k = next.taken(rest) as int;
                assert(next.samples + rest.take(k) =~= self.samples + sums.take(k + 1));
            } else {
                next.law_complete_is_final(rest);
            }
        }
    }

    /// However many sums are offered, a valid grid stays valid.
    pub proof fn law_advance_all_valid(self, sums: Seq<u64>)
        requires
            self.valid(),
        ensures
            self.advance_all(sums).valid(),
        decreases sums.len(),
    {
        if sums.len() > 0 {
            self.law_advance_valid(sums.first());
            self.advance(sums.first()).law_advance_all_valid(sums.drop_first());
        }
    }
}

/// A time grid in the making. `get_range` starts one; the caller then adds
/// the step to the last time for as long as `pending` asks for it, and hands
/// each sum to `advance`, which gives the grid to go on with.
#[derive(Debug)]
pub struct Sampler {
    init: u64,
    fin: u64,
    step: u64,
    samples: Vec<u64>,
    growing: bool,
}

impl View for Sampler {
    type V = GridModel;

    closed spec fn view(&self) -> GridModel {
        GridModel {
            init: self.init,
            fin: self.fin,
            step: self.step,
            samples: self.samples@,
            growing: self.growing,
        }
    }
}

impl Sampler {
    #[verifier::type_invariant]
    spec fn inv(self) -> bool {
        self@.valid()
    }

    /// The addition to perform next, as the pair of the last time and the
    /// step, or `None` once the grid is complete.
    pub fn pending(&self) -> (r: Option<(u64, u64)>)
        ensures
            self@.valid(),
            self@.growing ==> r == Some((self@.samples.last(), self@.step)),
            !self@.growing ==> r is None,
    {
        proof {
            use_type_invariant(self);
        }
        if self.growing {
            Some((self.samples[self.samples.len() - 1], self.step))
        } else {
            None
        }
    }

    /// Takes `sum` as the result of the pending addition and gives the grid
    /// that follows. A sum that is within the bound and later than the last
    /// time joins the grid; one that exceeds the bound, or is no number,
    /// completes it. A sum within the bound that is not later than the last
    /// time shows a step too small to move the time, and is refused. A
    /// complete grid is handed back as it is.
    pub fn advance(self, sum: u64) -> (r: Result<Sampler, WaveError>)
        ensures
            self@.stalls(sum) ==> r is Err && r->Err_0 == WaveError::InvalidParameter,
            !self@.stalls(sum) ==> r is Ok && r->Ok_0@ == self@.advance(sum),
    {
        proof {
            use_type_invariant(&self);
        }
        if !self.growing {
            return Ok(self);
        }
        let Sampler { init, fin, step, mut samples, growing } = self;
        let last: u64 = samples[samples.len() - 1];
        if !ieee::le(sum, fin) {
            Ok(Sampler { init, fin, step, samples, growing: false })
        } else if ieee::lt(last, sum) {
            samples.push(sum);
            Ok(Sampler { init, fin, step, samples, growing })
        } else {
            Err(WaveError::InvalidParameter)
        }
    }

    /// The times found so far: strictly increasing, none beyond the bound.
    pub fn samples(&self) -> (r: &Vec<u64>)
        ensures
            r@ == self@.samples,
            self@.valid(),
    {
        proof {
            use_type_invariant(self);
        }
        &self.samples
    }

    /// The times found, leaving the sampler behind.
    pub fn into_samples(self) -> (r: Vec<u64>)
        ensures
            r@ == self@.samples,
            self@.valid(),
    {
        proof {
            use_type_invariant(&self);
        }
        self.samples
    }
}

/// Starts the grid of times `init_time`, `init_time + step`, ... that do not
/// exceed `fin_time`. A step that is not greater than zero is refused.
pub fn get_range(init_time: u64, fin_time: u64, step: u64) -> (r: Result<Sampler, WaveError>)
    ensures
        ieee::is_positive(step) ==> r is Ok && r->Ok_0@ == GridModel::start(
            init_time,
            fin_time,
            step,
        ),
        !ieee::is_positive(step) ==> r is Err && r->Err_0 == WaveError::InvalidParameter,
{
    if !ieee::is_positive(step) {
        return Err(WaveError::InvalidParameter);
    }
    let mut samples: Vec<u64> = Vec::new();
    let growing = ieee::le(init_time, fin_time);
    if growing {
        samples.push(init_time);
    }
    Ok(Sampler { init: init_time, fin: fin_time, step, samples, growing })
}

/// The models of the waves, in their order.
pub open spec fn models(waves: Seq<SimpleWave>) -> Seq<WaveModel> {
    waves.map_values(|w: SimpleWave| w@)
}

/// The displacements of the waves at time `t`, added up from the first wave
/// to the last. The sum over a single wave is that wave's displacement.
pub open spec fn superposition(waves: Seq<WaveModel>, t: u64) -> Expr
    recommends
        waves.len() > 0,
    decreases waves.len(),
{
    if waves.len() <= 1 {
        waves[0].displacement_at(t)
    } else {
        Expr::sum(superposition(waves.drop_last(), t), waves.last().displacement_at(t))
    }
}

/// Each time of `samples` paired with the superposition of the waves at
/// that time, in the order of `samples`.
pub open spec fn synthesis(samples: Seq<u64>, waves: Seq<WaveModel>) -> Seq<(u64, Expr)> {
    Seq::new(samples.len(), |j: int| (samples[j], superposition(waves, samples[j])))
}

/// The composite signal of the waves over the times of `range`: at each time
/// the sum of all the waves' displacements. Any number of waves will do, but
/// none at all is refused.
pub fn fourier_synthesis(range: &Vec<u64>, vect: Vec<SimpleWave>) -> (r: Result<
    Vec<(u64, Expr)>,
    WaveError,
>)
    ensures
        vect.len() == 0 ==> r is Err && r->Err_0 == WaveError::EmptyInput,
        vect.len() > 0 ==> r is Ok && r->Ok_0@ == synthesis(range@, models(vect@)),
{
    if vect.len() == 0 {
        return Err(WaveError::EmptyInput);
    }
    let ghost waves = models(vect@);
    let mut resultant: Vec<(u64, Expr)> = Vec::new();
    let mut j: usize = 0;
    while j < range.len()
        invariant
            j <= range.len(),
            vect.len() > 0,
            waves == models(vect@),
            resultant.len() == j,
            forall|k: int|
                0 <= k < j ==> resultant[k] == (range[k], superposition(waves, range[k])),
        decreases range.len() - j,
    {
        let t: u64 = range[j];
        let mut resultant_sum = vect[0].displace_at(t);
        let mut i: usize = 1;
        while i < vect.len()
            invariant
                1 <= i <= vect.len(),
                waves == models(vect@),
                resultant_sum == superposition(waves.take(i as int), t),
            decreases vect.len() - i,
        {
            resultant_sum = Expr::sum(resultant_sum, vect[i].displace_at(t));
            assert(waves.take(i + 1).drop_last() =~= waves.take(i as int));
            i += 1;
        }
        assert(waves.take(vect.len() as int) =~= waves);
        resultant.push((t, resultant_sum));
        j += 1;
    }
    Ok(resultant)
}

/// A synthesis over a single wave is that wave's displacement, time by time.
pub proof fn law_single_wave(samples: Seq<u64>, wave: WaveModel)
    ensures
        synthesis(samples, seq![wave]).len() == samples.len(),
        forall|j: int|
            0 <= j < samples.len() ==> (#[trigger] synthesis(samples, seq![wave])[j]) == (
                samples[j],
                wave.displacement(samples)[j],
            ),
{
}

/// Equal waves sampled at equal times have equal displacements, whose
/// values are equal under every arithmetic: nothing but the wave and the
/// times enters a displacement.
pub proof fn law_deterministic(
    first: WaveModel,
    second: WaveModel,
    samples: Seq<u64>,
    again: Seq<u64>,
    arithmetic: Arithmetic,
)
    requires
        first == second,
        samples == again,
    ensures
        first.displacement(samples) == second.displacement(again),
        forall|j: int|
            0 <= j < samples.len() ==> (#[trigger] first.displacement(samples)[j]).value(
                arithmetic,
            ) == second.displacement(again)[j].value(arithmetic),
{
}

/// A synthesis keeps the times it was given, in their order.
pub proof fn law_synthesis_times(samples: Seq<u64>, waves: Seq<WaveModel>)
    ensures
        synthesis(samples, waves).len() == samples.len(),
        forall|j: int|
            0 <= j < samples.len() ==> (#[trigger] synthesis(samples, waves)[j]).0 == samples[j],
{
}

} // verus!
