use pidctl::Coefficient;
use pidctl::PidConfig;
use pidctl::PidController;
use pidctl::PidError;
use pidctl::Rational;

fn default_config() -> PidConfig {
    PidConfig::default()
}

#[test]
fn scenario_same_sign_errors() {
    // kp=2, ki=10, kd=0, damp=9/10, dt=1/10, errors [1, 1, 1] -> [3, 4, 5].
    let cfg = default_config();
    let dt = Rational::new(1, 10);
    let mut ctl = PidController::new();
    let expected = [3i64, 4, 5];
    for &want in expected.iter() {
        let out = ctl.step(Rational::from_int(1), dt, &cfg).unwrap();
        assert!(out.eq_value(Rational::from_int(want)));
    }
}

#[test]
fn scenario_sign_reversal() {
    // Same config, errors [1, -1] -> [3, -2]; the damping rule fires on the
    // second step and leaves the zeroed integral at zero.
    let cfg = default_config();
    let dt = Rational::new(1, 10);
    let mut ctl = PidController::new();
    let first = ctl.step(Rational::from_int(1), dt, &cfg).unwrap();
    assert!(first.eq_value(Rational::from_int(3)));
    let second = ctl.step(Rational::from_int(-1), dt, &cfg).unwrap();
    assert!(second.eq_value(Rational::from_int(-2)));
    assert!(ctl.integral_accumulator().is_zero());
    assert!(ctl.previous_error().eq_value(Rational::from_int(-1)));
}

#[test]
fn invalid_time_step_zero_dt() {
    let cfg = default_config();
    let mut ctl = PidController::new();
    let r = ctl.step(Rational::from_int(5), Rational::from_int(0), &cfg);
    assert_eq!(r, Err(PidError::InvalidTimeStep));
}

#[test]
fn invalid_time_step_negative_dt() {
    let cfg = default_config();
    let mut ctl = PidController::new();
    let r = ctl.step(Rational::from_int(5), Rational::from_int(-1), &cfg);
    assert_eq!(r, Err(PidError::InvalidTimeStep));
}

#[test]
fn invalid_time_step_leaves_state_untouched() {
    let cfg = default_config();
    let dt = Rational::new(1, 10);
    let mut ctl = PidController::new();
    ctl.step(Rational::from_int(1), dt, &cfg).unwrap();
    let p_before = ctl.previous_error();
    let i_before = ctl.integral_accumulator();
    let r = ctl.step(Rational::from_int(7), Rational::from_int(0), &cfg);
    assert_eq!(r, Err(PidError::InvalidTimeStep));
    assert!(ctl.previous_error().eq_value(p_before));
    assert!(ctl.integral_accumulator().eq_value(i_before));
}

#[test]
fn pure_gain_passthrough() {
    // kp=1, ki=0, kd=0: a fresh controller echoes the error exactly.
    let cfg = PidConfig {
        kp: Rational::from_int(1),
        ki: Rational::from_int(0),
        kd: Rational::from_int(0),
        damp: Rational::new(1, 2),
    };
    let mut ctl = PidController::new();
    let e = Rational::new(13, 7);
    let out = ctl.step(e, Rational::from_int(3), &cfg).unwrap();
    assert!(out.eq_value(e));
}

#[test]
fn reset_behaves_like_fresh_controller() {
    let cfg = default_config();
    let dt = Rational::new(1, 2);
    let mut used = PidController::new();
    used.step(Rational::from_int(5), dt, &cfg).unwrap();
    used.step(Rational::from_int(-3), dt, &cfg).unwrap();
    used.reset();
    assert!(used.previous_error().is_zero());
    assert!(used.integral_accumulator().is_zero());
    let mut fresh = PidController::new();
    let e = Rational::from_int(7);
    let dt2 = Rational::new(1, 3);
    let from_used = used.step(e, dt2, &cfg).unwrap();
    let from_fresh = fresh.step(e, dt2, &cfg).unwrap();
    assert!(from_used.eq_value(from_fresh));
    assert!(used.previous_error().eq_value(fresh.previous_error()));
    assert!(used.integral_accumulator().eq_value(fresh.integral_accumulator()));
}

#[test]
fn damping_shrinks_disagreeing_integral() {
    // After e=2 the integral is 2; the next step's update takes it to 1,
    // which disagrees in sign with e=-1, so it is damped to 9/10 < 1.
    let cfg = default_config();
    let dt = Rational::from_int(1);
    let mut ctl = PidController::new();
    ctl.step(Rational::from_int(2), dt, &cfg).unwrap();
    assert!(ctl.integral_accumulator().eq_value(Rational::from_int(2)));
    ctl.step(Rational::from_int(-1), dt, &cfg).unwrap();
    let damped = ctl.integral_accumulator();
    assert!(damped.eq_value(Rational::new(9, 10)));
    assert!(damped.lt(Rational::from_int(1)));
    assert!(Rational::from_int(0).lt(damped));
}

#[test]
fn snapshot_is_labeled_and_current() {
    let cfg = default_config();
    let mut ctl = PidController::new();
    ctl.step(Rational::from_int(1), Rational::new(1, 10), &cfg).unwrap();
    let (p, i) = ctl.snapshot();
    assert_eq!(p.0, "previous_error");
    assert!(p.1.eq_value(Rational::from_int(1)));
    assert_eq!(i.0, "integral_accumulator");
    assert!(i.1.eq_value(Rational::new(1, 10)));
}

#[test]
fn default_controller_is_zeroed() {
    let ctl = PidController::default();
    assert!(ctl.previous_error().is_zero());
    assert!(ctl.integral_accumulator().is_zero());
}

#[test]
fn try_step_agrees_with_step() {
    let cfg = default_config();
    let dt = Rational::new(1, 10);
    let mut a = PidController::new();
    let mut b = PidController::new();
    let e = Rational::from_int(1);
    let out_a = a.step(e, dt, &cfg).unwrap();
    let out_b = b.try_step(e, dt, &cfg).unwrap().unwrap();
    assert!(out_a.eq_value(out_b));
    assert!(a.previous_error().eq_value(b.previous_error()));
    assert!(a.integral_accumulator().eq_value(b.integral_accumulator()));
}

#[test]
fn try_step_rejects_non_positive_dt() {
    let cfg = default_config();
    let mut ctl = PidController::new();
    let r = ctl.try_step(Rational::from_int(1), Rational::from_int(0), &cfg);
    assert_eq!(r, Some(Err(PidError::InvalidTimeStep)));
}

#[test]
fn try_step_reports_exhausted_carrier() {
    // An error sample at the edge of the carrier overflows the proportional
    // term under the default gains; the state must stay untouched.
    let cfg = default_config();
    let mut ctl = PidController::new();
    let huge = Rational::new(i64::MAX, 1);
    let r = ctl.try_step(huge, Rational::from_int(1), &cfg);
    assert_eq!(r, None);
    assert!(ctl.previous_error().is_zero());
    assert!(ctl.integral_accumulator().is_zero());
}

#[test]
fn default_config_is_canonical() {
    let cfg = PidConfig::default();
    assert!(cfg.kp.eq_value(Rational::from_int(2)));
    assert!(cfg.ki.eq_value(Rational::from_int(10)));
    assert!(cfg.kd.eq_value(Rational::from_int(0)));
    assert!(cfg.damp.eq_value(Rational::new(9, 10)));
}

#[test]
fn coefficient_names_are_stable() {
    assert_eq!(PidConfig::name(Coefficient::Kp), "kp");
    assert_eq!(PidConfig::name(Coefficient::Ki), "ki");
    assert_eq!(PidConfig::name(Coefficient::Kd), "kd");
    assert_eq!(PidConfig::name(Coefficient::Damp), "damp");
}

#[test]
fn coefficient_enumeration_reads_and_writes_every_field() {
    let mut cfg = PidConfig::default();
    let all = PidConfig::all_coefficients();
    assert_eq!(
        all,
        vec![Coefficient::Kp, Coefficient::Ki, Coefficient::Kd, Coefficient::Damp]
    );
    for &which in all.iter() {
        // Every entry starts at its default and can be mutated and restored.
        assert!(cfg.get(which).eq_value(PidConfig::default_value(which)));
        cfg.set(which, Rational::from_int(42));
        assert!(cfg.get(which).eq_value(Rational::from_int(42)));
        cfg.set(which, PidConfig::default_value(which));
        assert!(cfg.get(which).eq_value(PidConfig::default_value(which)));
    }
    assert!(cfg.kp.eq_value(Rational::from_int(2)));
    assert!(cfg.damp.eq_value(Rational::new(9, 10)));
}
