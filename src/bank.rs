//! The oscillator bank: one reference oscillator and two followers, advanced
//! together by one explicit Euler step per tick.
use vstd::prelude::*;

use crate::angle::{
    div_floor, in_turn, lemma_quotient_between, scaled, wrap, wrap_angle, ONE,
};
use crate::synchrony::{classify_one, synchrony_of, SynchronyState};

verus! {

/// Bound on the size of a coupling term, 2^62: the gain is below 2^63 in
/// size and the term divides it by at least two.
const COUPLING_BOUND: i128 = 0x4000_0000_0000_0000;

/// Bound on the size of a phase velocity, 3 * 2^62: a frequency plus a
/// coupling term. Times a time step below 2^63 it stays within `i128`.
const VELOCITY_BOUND: i128 = 0xC000_0000_0000_0000;

/// Parameters read once per tick. All values are fixed point (see
/// [`crate::angle::ONE`]). A zero or negative `dt` is accepted and runs time
/// backward; a negative gain pushes followers away from the reference.
#[derive(Clone, Copy, Debug, PartialEq, Eq, Structural)]
pub struct CouplingConfig {
    /// Simulation step size.
    pub dt: i64,
    /// Gain of the coupling terms.
    pub coupling_strength: i64,
    /// Whether the focus follower also feels the other follower.
    pub cross_follower_influence: bool,
}

/// The sines of the phase differences that drive the coupling, in fixed
/// point, each within `[-ONE, ONE]`. They are sampled for the phases as they
/// stand at the start of a tick.
#[derive(Clone, Copy, Debug, PartialEq, Eq, Structural)]
pub struct PhasePulls {
    /// sin(reference phase - focus phase).
    pub reference_focus: i64,
    /// sin(reference phase - other phase).
    pub reference_other: i64,
    /// sin(other phase - focus phase).
    pub other_focus: i64,
}

/// Whether a fixed-point value is a possible sine.
pub open spec fn is_sine(s: int) -> bool {
    -(ONE as int) <= s <= ONE as int
}

impl PhasePulls {
    /// All three values are possible sines.
    pub open spec fn valid(&self) -> bool {
        is_sine(self.reference_focus as int) && is_sine(self.reference_other as int) && is_sine(
            self.other_focus as int,
        )
    }
}

/// Names one of the three oscillators of a bank.
#[derive(Clone, Copy, Debug, PartialEq, Eq, Structural)]
pub enum Performer {
    /// The reference oscillator, which no other oscillator influences.
    Reference,
    /// The follower that may also listen to the other follower.
    Focus,
    /// The follower that listens to the reference only.
    Other,
}

/// The mathematical state of one oscillator.
pub struct OscillatorModel {
    pub frequency: int,
    pub phase: int,
    pub label: Seq<char>,
}

/// One performer: an angular frequency, a phase kept within one turn, and a
/// display name fixed at creation.
pub struct Oscillator {
    frequency: i64,
    phase: i64,
    label: String,
}

impl View for Oscillator {
    type V = OscillatorModel;

    closed spec fn view(&self) -> OscillatorModel {
        OscillatorModel {
            frequency: self.frequency as int,
            phase: self.phase as int,
            label: self.label@,
        }
    }
}

impl Oscillator {
    /// Creates an oscillator; the phase is wrapped into one turn.
    pub fn new(label: String, frequency: i64, phase: i64) -> (r: Oscillator)
        ensures
            r@ == (OscillatorModel {
                frequency: frequency as int,
                phase: wrap_angle(phase as int),
                label: label@,
            }),
            in_turn(r@.phase),
    {
        Oscillator { frequency, phase: wrap(phase as i128), label }
    }

    pub fn frequency(&self) -> (r: i64)
        ensures
            r as int == self@.frequency,
    {
        self.frequency
    }

    pub fn phase(&self) -> (r: i64)
        ensures
            r as int == self@.phase,
    {
        self.phase
    }

    pub fn label(&self) -> (r: &str)
        ensures
            r@ == self@.label,
    {
        self.label.as_str()
    }
}

/// The mathematical state of a bank.
pub struct BankModel {
    pub reference: OscillatorModel,
    pub focus: OscillatorModel,
    pub other: OscillatorModel,
    pub focus_state: SynchronyState,
    pub other_state: SynchronyState,
}

impl BankModel {
    /// Every phase lies within one turn.
    pub open spec fn wf(&self) -> bool {
        in_turn(self.reference.phase) && in_turn(self.focus.phase) && in_turn(self.other.phase)
    }

    /// The model of one oscillator.
    pub open spec fn performer(&self, who: Performer) -> OscillatorModel {
        match who {
            Performer::Reference => self.reference,
            Performer::Focus => self.focus,
            Performer::Other => self.other,
        }
    }
}

/// A bank with one oscillator replaced.
pub open spec fn set_performer(b: BankModel, who: Performer, o: OscillatorModel) -> BankModel {
    match who {
        Performer::Reference => BankModel { reference: o, ..b },
        Performer::Focus => BankModel { focus: o, ..b },
        Performer::Other => BankModel { other: o, ..b },
    }
}

/// The coupling term of a follower: the gain times the pull of the reference,
/// plus half the pull of the peer when `cross` holds, all divided by three,
/// rounded toward negative infinity.
pub open spec fn coupling_term(k: int, to_reference: int, to_peer: int, cross: bool) -> int {
    if cross {
        (k * (2 * to_reference + to_peer)) / (6 * ONE as int)
    } else {
        (k * to_reference) / (3 * ONE as int)
    }
}

/// A phase moved by `velocity * dt` and wrapped into one turn.
pub open spec fn advanced(phase: int, velocity: int, dt: int) -> int {
    wrap_angle(phase + scaled(velocity, dt))
}

/// An oscillator with a new phase.
pub open spec fn with_phase(o: OscillatorModel, phase: int) -> OscillatorModel {
    OscillatorModel { frequency: o.frequency, phase, label: o.label }
}

/// An oscillator with a new frequency.
pub open spec fn with_frequency(o: OscillatorModel, frequency: int) -> OscillatorModel {
    OscillatorModel { frequency, phase: o.phase, label: o.label }
}

/// One tick. The reference runs on its own frequency; each follower runs on
/// its frequency plus its coupling term, computed from the pulls of the
/// phases at the start of the tick. Only the focus follower feels its peer,
/// and only when the configuration asks for it. The classification is
/// recomputed from the frequencies.
pub open spec fn step(b: BankModel, c: CouplingConfig, p: PhasePulls) -> BankModel {
    let k = c.coupling_strength as int;
    let dt = c.dt as int;
    BankModel {
        reference: with_phase(b.reference, advanced(b.reference.phase, b.reference.frequency, dt)),
        focus: with_phase(
            b.focus,
            advanced(
                b.focus.phase,
                b.focus.frequency + coupling_term(
                    k,
                    p.reference_focus as int,
                    p.other_focus as int,
                    c.cross_follower_influence,
                ),
                dt,
            ),
        ),
        other: with_phase(
            b.other,
            advanced(
                b.other.phase,
                b.other.frequency + coupling_term(k, p.reference_other as int, 0, false),
                dt,
            ),
        ),
        focus_state: synchrony_of(b.reference.frequency, b.focus.frequency),
        other_state: synchrony_of(b.reference.frequency, b.other.frequency),
    }
}

/// The velocity of a follower: its frequency plus its coupling term.
fn follower_velocity(frequency: i64, k: i64, to_reference: i64, to_peer: i64, cross: bool) -> (v:
    i128)
    requires
        is_sine(to_reference as int),
        is_sine(to_peer as int),
    ensures
        v as int == frequency as int + coupling_term(
            k as int,
            to_reference as int,
            to_peer as int,
            cross,
        ),
        -VELOCITY_BOUND <= v <= VELOCITY_BOUND,
{
    let c: i128 = if cross {
        let s: i128 = 2 * (to_reference as i128) + (to_peer as i128);
        let d: i128 = 6 * (ONE as i128);
        proof {
            let kk = k as int;
            let ss = s as int;
            assert(-COUPLING_BOUND * d <= kk * ss <= COUPLING_BOUND * d) by (nonlinear_arith)
                requires
                    i64::MIN <= kk <= i64::MAX,
                    -3 * ONE <= ss <= 3 * ONE,
                    d == 6 * ONE,
            ;
            lemma_quotient_between(kk * ss, d as int, -COUPLING_BOUND as int, COUPLING_BOUND as int);
        }
        div_floor((k as i128) * s, d)
    } else {
        let d: i128 = 3 * (ONE as i128);
        proof {
            let kk = k as int;
            let ss = to_reference as int;
            assert(-COUPLING_BOUND * d <= kk * ss <= COUPLING_BOUND * d) by (nonlinear_arith)
                requires
                    i64::MIN <= kk <= i64::MAX,
                    -ONE <= ss <= ONE,
                    d == 3 * ONE,
            ;
            lemma_quotient_between(kk * ss, d as int, -COUPLING_BOUND as int, COUPLING_BOUND as int);
        }
        div_floor((k as i128) * (to_reference as i128), d)
    };
    (frequency as i128) + c
}

/// A phase moved by `velocity * dt` and wrapped.
fn advance_phase(phase: i64, velocity: i128, dt: i64) -> (r: i64)
    requires
        -VELOCITY_BOUND <= velocity <= VELOCITY_BOUND,
    ensures
        r as int == advanced(phase as int, velocity as int, dt as int),
        in_turn(r as int),
{
    proof {
        let bound = VELOCITY_BOUND as int * 0x8000_0000_0000_0000int;
        let vv = velocity as int;
        let tt = dt as int;
        assert(-bound <= vv * tt <= bound) by (nonlinear_arith)
            requires
                -VELOCITY_BOUND <= vv <= VELOCITY_BOUND,
                i64::MIN <= tt <= i64::MAX,
                bound == VELOCITY_BOUND * 0x8000_0000_0000_0000,
        ;
        lemma_quotient_between(vv * tt, ONE as int, -bound, bound);
    }
    let moved = div_floor(velocity * (dt as i128), ONE as i128);
    wrap((phase as i128) + moved)
}

/// One reference oscillator and two followers, with the latest
/// classification of each follower.
pub struct OscillatorBank {
    reference: Oscillator,
    focus: Oscillator,
    other: Oscillator,
    focus_state: SynchronyState,
    other_state: SynchronyState,
}

impl View for OscillatorBank {
    type V = BankModel;

    closed spec fn view(&self) -> BankModel {
        BankModel {
            reference: self.reference@,
            focus: self.focus@,
            other: self.other@,
            focus_state: self.focus_state,
            other_state: self.other_state,
        }
    }
}

impl OscillatorBank {
    /// Gathers three oscillators into a bank and classifies the followers.
    pub fn new(reference: Oscillator, focus: Oscillator, other: Oscillator) -> (r: OscillatorBank)
        requires
            in_turn(reference@.phase),
            in_turn(focus@.phase),
            in_turn(other@.phase),
        ensures
            r@.reference == reference@,
            r@.focus == focus@,
            r@.other == other@,
            r@.focus_state == synchrony_of(reference@.frequency, focus@.frequency),
            r@.other_state == synchrony_of(reference@.frequency, other@.frequency),
            r@.wf(),
    {
        let focus_state = classify_one(reference.frequency, focus.frequency);
        let other_state = classify_one(reference.frequency, other.frequency);
        OscillatorBank { reference, focus, other, focus_state, other_state }
    }

    /// Advances every phase by one tick of `config.dt`, using the given
    /// pulls, and recomputes the classification. Frequencies and labels are
    /// left alone.
    pub fn advance(&mut self, config: &CouplingConfig, pulls: &PhasePulls)
        requires
            pulls.valid(),
        ensures
            final(self)@ == step(old(self)@, *config, *pulls),
            final(self)@.wf(),
    {
        let k = config.coupling_strength;
        let dt = config.dt;
        let focus_velocity = follower_velocity(
            self.focus.frequency,
            k,
            pulls.reference_focus,
            pulls.other_focus,
            config.cross_follower_influence,
        );
        let other_velocity = follower_velocity(
            self.other.frequency,
            k,
            pulls.reference_other,
            0,
            false,
        );
        let reference_velocity = self.reference.frequency as i128;
        self.focus_state = classify_one(self.reference.frequency, self.focus.frequency);
        self.other_state = classify_one(self.reference.frequency, self.other.frequency);
        self.reference.phase = advance_phase(self.reference.phase, reference_velocity, dt);
        self.focus.phase = advance_phase(self.focus.phase, focus_velocity, dt);
        self.other.phase = advance_phase(self.other.phase, other_velocity, dt);
    }

    /// Sets one oscillator's phase, wrapped into one turn (a perturbation
    /// such as a fresh random phase).
    pub fn set_phase(&mut self, who: Performer, phase: i64)
        ensures
            final(self)@ == set_performer(
                old(self)@,
                who,
                with_phase(old(self)@.performer(who), wrap_angle(phase as int)),
            ),
            old(self)@.wf() ==> final(self)@.wf(),
    {
        let wrapped = wrap(phase as i128);
        match who {
            Performer::Reference => self.reference.phase = wrapped,
            Performer::Focus => self.focus.phase = wrapped,
            Performer::Other => self.other.phase = wrapped,
        }
    }

    /// Retunes one oscillator. The classification keeps its value until the
    /// next tick.
    pub fn set_frequency(&mut self, who: Performer, frequency: i64)
        ensures
            final(self)@ == set_performer(
                old(self)@,
                who,
                with_frequency(old(self)@.performer(who), frequency as int),
            ),
            old(self)@.wf() ==> final(self)@.wf(),
    {
        match who {
            Performer::Reference => self.reference.frequency = frequency,
            Performer::Focus => self.focus.frequency = frequency,
            Performer::Other => self.other.frequency = frequency,
        }
    }

    /// Read access to one oscillator.
    pub fn performer(&self, who: Performer) -> (r: &Oscillator)
        ensures
            r@ == self@.performer(who),
    {
        match who {
            Performer::Reference => &self.reference,
            Performer::Focus => &self.focus,
            Performer::Other => &self.other,
        }
    }

    /// The latest classification of the focus follower.
    pub fn focus_state(&self) -> (r: SynchronyState)
        ensures
            r == self@.focus_state,
    {
        self.focus_state
    }

    /// The latest classification of the other follower.
    pub fn other_state(&self) -> (r: SynchronyState)
        ensures
            r == self@.other_state,
    {
        self.other_state
    }

    /// The phase differences whose sines make up the next tick's pulls, in
    /// the order of the fields of [`PhasePulls`]: reference minus focus,
    /// reference minus other, other minus focus.
    pub fn pull_angles(&self) -> (r: (i64, i64, i64))
        requires
            self@.wf(),
        ensures
            r.0 as int == self@.reference.phase - self@.focus.phase,
            r.1 as int == self@.reference.phase - self@.other.phase,
            r.2 as int == self@.other.phase - self@.focus.phase,
    {
        (
            self.reference.phase - self.focus.phase,
            self.reference.phase - self.other.phase,
            self.other.phase - self.focus.phase,
        )
    }
}

} // verus!
