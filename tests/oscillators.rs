use coupled_drummers::angle::{wrap, ONE, TWO_PI};
use coupled_drummers::bank::{CouplingConfig, Oscillator, OscillatorBank, Performer, PhasePulls};
use coupled_drummers::driver::ticks_on_frame;
use coupled_drummers::synchrony::{classify, classify_one, SynchronyState};

fn bank(freqs: (i64, i64, i64), phases: (i64, i64, i64)) -> OscillatorBank {
    OscillatorBank::new(
        Oscillator::new("Fletcher".to_string(), freqs.0, phases.0),
        Oscillator::new("Nijika".to_string(), freqs.1, phases.1),
        Oscillator::new("Andrew".to_string(), freqs.2, phases.2),
    )
}

fn phases(b: &OscillatorBank) -> (i64, i64, i64) {
    (
        b.performer(Performer::Reference).phase(),
        b.performer(Performer::Focus).phase(),
        b.performer(Performer::Other).phase(),
    )
}

fn sine(angle: i64) -> i64 {
    ((angle as f64 / ONE as f64).sin() * ONE as f64).round() as i64
}

fn pulls_of(b: &OscillatorBank) -> PhasePulls {
    let (rf, ro, of) = b.pull_angles();
    PhasePulls { reference_focus: sine(rf), reference_other: sine(ro), other_focus: sine(of) }
}

fn in_turn(p: i64) -> bool {
    0 <= p && p < TWO_PI
}

#[test]
fn anti_phase_scenario_one_tick() {
    // reference at 0, follower just short of pi, both at frequency 1, gain 0.3
    let mut b = bank((ONE, ONE, ONE), (0, 3_131_592_654, 0));
    let pulls = pulls_of(&b);
    assert_eq!(pulls.reference_focus, -9_999_833);
    let config = CouplingConfig { dt: ONE, coupling_strength: 300_000_000, cross_follower_influence: false };
    b.advance(&config, &pulls);
    // coupling 0.3 * sin(-(pi - 0.01)) / 3 = -0.00099998..., floored in billionths
    assert_eq!(phases(&b), (1_000_000_000, 3_131_592_654 + 1_000_000_000 - 999_984, 1_000_000_000));
}

#[test]
fn cross_influence_reaches_focus_only() {
    let pulls = PhasePulls { reference_focus: 500_000_000, reference_other: -300_000_000, other_focus: 200_000_000 };
    let start = (ONE, ONE, ONE);
    let at = (0, 1_000_000_000, 2_000_000_000);
    let mut with_cross = bank(start, at);
    let mut without = bank(start, at);
    let on = CouplingConfig { dt: 500_000_000, coupling_strength: 600_000_000, cross_follower_influence: true };
    let off = CouplingConfig { cross_follower_influence: false, ..on };
    with_cross.advance(&on, &pulls);
    without.advance(&off, &pulls);
    assert_eq!(phases(&with_cross), (500_000_000, 1_560_000_000, 2_470_000_000));
    assert_eq!(phases(&without), (500_000_000, 1_550_000_000, 2_470_000_000));
}

#[test]
fn coupling_rounds_toward_negative_infinity_and_wraps_below_zero() {
    let mut b = bank((0, 0, 0), (0, 0, 0));
    let pulls = PhasePulls { reference_focus: -1, reference_other: 0, other_focus: 0 };
    let config = CouplingConfig { dt: ONE, coupling_strength: 1, cross_follower_influence: false };
    b.advance(&config, &pulls);
    assert_eq!(phases(&b), (0, TWO_PI - 1, 0));
}

#[test]
fn negative_dt_runs_backward() {
    let mut b = bank((ONE, 2 * ONE, ONE), (0, 0, 500_000_000));
    let config = CouplingConfig { dt: -ONE, coupling_strength: 0, cross_follower_influence: true };
    b.advance(&config, &PhasePulls { reference_focus: 0, reference_other: 0, other_focus: 0 });
    assert_eq!(phases(&b), (TWO_PI - ONE, TWO_PI - 2 * ONE, TWO_PI - 500_000_000));
}

#[test]
fn zero_dt_leaves_phases() {
    let mut b = bank((ONE, 3 * ONE, -ONE), (5, 6, 7));
    let config = CouplingConfig { dt: 0, coupling_strength: ONE, cross_follower_influence: true };
    b.advance(&config, &PhasePulls { reference_focus: ONE, reference_other: -ONE, other_focus: ONE });
    assert_eq!(phases(&b), (5, 6, 7));
}

#[test]
fn phases_stay_in_turn_under_extreme_values() {
    let mut b = bank((i64::MAX, i64::MIN, i64::MAX), (i64::MAX, i64::MIN, -1));
    let (r, f, o) = phases(&b);
    assert!(in_turn(r) && in_turn(f) && in_turn(o));
    let configs = [
        CouplingConfig { dt: i64::MAX, coupling_strength: i64::MIN, cross_follower_influence: true },
        CouplingConfig { dt: i64::MIN, coupling_strength: i64::MAX, cross_follower_influence: true },
        CouplingConfig { dt: i64::MIN, coupling_strength: i64::MIN, cross_follower_influence: false },
        CouplingConfig { dt: 7, coupling_strength: -3, cross_follower_influence: false },
    ];
    for config in configs.iter() {
        for pulls in [
            PhasePulls { reference_focus: ONE, reference_other: -ONE, other_focus: ONE },
            PhasePulls { reference_focus: -ONE, reference_other: ONE, other_focus: -ONE },
        ] {
            b.advance(config, &pulls);
            let (r, f, o) = phases(&b);
            assert!(in_turn(r) && in_turn(f) && in_turn(o));
        }
    }
}

#[test]
fn reference_ignores_followers_and_coupling() {
    let mut a = bank((700_000_000, ONE, -ONE), (4_000_000_000, 0, 1));
    let mut b = bank((700_000_000, 5, 9), (4_000_000_000, 3_000_000_000, 6_000_000_000));
    a.advance(
        &CouplingConfig { dt: 3 * ONE, coupling_strength: ONE, cross_follower_influence: true },
        &PhasePulls { reference_focus: ONE, reference_other: ONE, other_focus: ONE },
    );
    b.advance(
        &CouplingConfig { dt: 3 * ONE, coupling_strength: 0, cross_follower_influence: false },
        &PhasePulls { reference_focus: -ONE, reference_other: 0, other_focus: 0 },
    );
    let expected = (4_000_000_000 + 2_100_000_000) % TWO_PI;
    assert_eq!(a.performer(Performer::Reference).phase(), expected);
    assert_eq!(b.performer(Performer::Reference).phase(), expected);
}

#[test]
fn zero_coupling_runs_free() {
    let mut b = bank((ONE, 1_500_000_000, 250_000_000), (0, 6_000_000_000, 100));
    let config = CouplingConfig { dt: 2 * ONE, coupling_strength: 0, cross_follower_influence: true };
    b.advance(&config, &PhasePulls { reference_focus: ONE, reference_other: -ONE, other_focus: ONE });
    assert_eq!(phases(&b), (2 * ONE, (6_000_000_000 + 3 * ONE) % TWO_PI, 500_000_100));
}

#[test]
fn unison_is_kept() {
    let mut b = bank((90_000_000, 90_000_000, 90_000_000), (1_234_567_890, 1_234_567_890, 1_234_567_890));
    for i in 0..200i64 {
        let config = CouplingConfig {
            dt: ONE + i * 10_000_000,
            coupling_strength: 250_000_000,
            cross_follower_influence: i % 3 == 0,
        };
        let pulls = pulls_of(&b);
        assert_eq!(pulls, PhasePulls { reference_focus: 0, reference_other: 0, other_focus: 0 });
        b.advance(&config, &pulls);
        let (r, f, o) = phases(&b);
        assert_eq!(r, f);
        assert_eq!(r, o);
    }
}

#[test]
fn followers_are_drawn_toward_the_reference() {
    // equal frequencies, follower slightly behind: the gap shrinks each tick
    let mut b = bank((ONE, ONE, ONE), (1_000_000_000, 500_000_000, 800_000_000));
    let config = CouplingConfig { dt: 100_000_000, coupling_strength: 500_000_000, cross_follower_influence: false };
    let mut gap = 500_000_000;
    for _ in 0..50 {
        let pulls = pulls_of(&b);
        b.advance(&config, &pulls);
        let (r, f, _) = phases(&b);
        let now = r - f;
        assert!(now > 0 && now < gap);
        gap = now;
    }
}

#[test]
fn runs_are_deterministic() {
    let run = || {
        let mut b = bank((79_577_472, 85_943_669, 73_211_274), (1, 2_000_000_000, 4_000_000_000));
        let mut trace = Vec::new();
        for i in 0..100i64 {
            let config = CouplingConfig {
                dt: ONE,
                coupling_strength: 250_000_000,
                cross_follower_influence: i >= 50,
            };
            let pulls = pulls_of(&b);
            b.advance(&config, &pulls);
            trace.push(phases(&b));
        }
        trace
    };
    assert_eq!(run(), run());
}

#[test]
fn classification_follows_frequency_sign() {
    assert_eq!(classify_one(ONE, ONE + 1), SynchronyState::Leading);
    assert_eq!(classify_one(ONE, ONE - 1), SynchronyState::Lagging);
    assert_eq!(classify_one(ONE, ONE), SynchronyState::Aligned);
    assert_eq!(classify_one(0, 0), SynchronyState::Aligned);
    assert_eq!(classify_one(-5, -3), SynchronyState::Leading);
    assert_eq!(classify_one(-3, -5), SynchronyState::Lagging);
    assert_eq!(classify_one(0, -1), SynchronyState::Lagging);
    assert_eq!(classify_one(i64::MIN, i64::MAX), SynchronyState::Leading);
    assert_eq!(
        classify(79_577_472, &vec![85_943_669, 73_211_274, 79_577_472]),
        vec![SynchronyState::Leading, SynchronyState::Lagging, SynchronyState::Aligned]
    );
    assert_eq!(classify(0, &vec![]), vec![]);
}

#[test]
fn bank_classifies_on_creation_and_on_each_tick() {
    let mut b = bank((79_577_472, 85_943_669, 73_211_274), (0, 0, 0));
    assert_eq!(b.focus_state(), SynchronyState::Leading);
    assert_eq!(b.other_state(), SynchronyState::Lagging);
    b.set_frequency(Performer::Focus, 79_577_472);
    b.set_frequency(Performer::Other, 80_000_000);
    // retuning alone leaves the classification until the next tick
    assert_eq!(b.focus_state(), SynchronyState::Leading);
    let pulls = pulls_of(&b);
    b.advance(&CouplingConfig { dt: ONE, coupling_strength: 0, cross_follower_influence: false }, &pulls);
    assert_eq!(b.focus_state(), SynchronyState::Aligned);
    assert_eq!(b.other_state(), SynchronyState::Leading);
    assert_eq!(b.performer(Performer::Focus).frequency(), 79_577_472);
    assert_eq!(b.performer(Performer::Other).frequency(), 80_000_000);
}

#[test]
fn set_phase_wraps_and_touches_one_oscillator() {
    let mut b = bank((1, 2, 3), (10, 20, 30));
    b.set_phase(Performer::Focus, -1);
    assert_eq!(phases(&b), (10, TWO_PI - 1, 30));
    b.set_phase(Performer::Reference, TWO_PI + 7);
    assert_eq!(phases(&b), (7, TWO_PI - 1, 30));
    b.set_phase(Performer::Other, 42);
    assert_eq!(phases(&b), (7, TWO_PI - 1, 42));
    assert_eq!(b.performer(Performer::Other).label(), "Andrew");
    assert_eq!(b.performer(Performer::Focus).label(), "Nijika");
    assert_eq!(b.performer(Performer::Reference).frequency(), 1);
}

#[test]
fn oscillator_wraps_its_starting_phase() {
    let o = Oscillator::new("x".to_string(), 3, -TWO_PI - 5);
    assert_eq!(o.phase(), TWO_PI - 5);
    assert_eq!(o.frequency(), 3);
    assert_eq!(o.label(), "x");
}

#[test]
fn wrap_is_a_euclidean_remainder() {
    assert_eq!(wrap(0), 0);
    assert_eq!(wrap(-1), TWO_PI - 1);
    assert_eq!(wrap(TWO_PI as i128), 0);
    assert_eq!(wrap(3 * TWO_PI as i128 + 5), 5);
    assert_eq!(wrap(-3 * TWO_PI as i128), 0);
    let low = wrap(i128::MIN);
    assert!(in_turn(low));
    assert_eq!(low as i128, i128::MIN.rem_euclid(TWO_PI as i128));
}

#[test]
fn pull_angles_are_phase_differences() {
    let b = bank((0, 0, 0), (100, 300, 50));
    assert_eq!(b.pull_angles(), (-200, 50, -250));
}

#[test]
fn every_other_frame_ticks() {
    assert!(ticks_on_frame(0));
    assert!(!ticks_on_frame(1));
    assert!(ticks_on_frame(2));
    assert!(!ticks_on_frame(u64::MAX));
}

