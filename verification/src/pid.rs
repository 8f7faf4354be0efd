//! The PID controller: tunable gains, the stepping recurrence with its
//! anti-windup damping rule, and the laws that hold of them.
//!
//! The ghost model works on `Ratio` values: `PidGains` is the view of a
//! `PidConfig`, `PidState` the view of a `PidController`, and `step_state` /
//! `step_output` say exactly which state and output one call of `step`
//! produces. The executable code builds exactly the representatives the
//! model names, so its contracts are structural equalities.

use vstd::prelude::*;

verus! {

use crate::rational::Ratio;
use crate::rational::Rational;
use crate::rational::ratio_add;
use crate::rational::ratio_div;
use crate::rational::ratio_in_i64;
use crate::rational::ratio_le;
use crate::rational::ratio_lt;
use crate::rational::ratio_mul;
use crate::rational::ratio_of_int;
use crate::rational::ratio_sub;
use crate::rational::ratio_wf;
use crate::rational::ratio_zero;

/// Ghost view of a coefficient set: the three gains and the damping factor.
pub struct PidGains {
    pub kp: Ratio,
    pub ki: Ratio,
    pub kd: Ratio,
    pub damp: Ratio,
}

/// Ghost view of a controller: the last error sample and the running
/// integral of the error.
pub struct PidState {
    pub previous_error: Ratio,
    pub integral_accumulator: Ratio,
}

/// Well-formedness of a coefficient set: every entry is a well-formed ratio.
pub open spec fn gains_wf(c: PidGains) -> bool {
    ratio_wf(c.kp) && ratio_wf(c.ki) && ratio_wf(c.kd) && ratio_wf(c.damp)
}

/// Well-formedness of a controller state: both fields are well-formed ratios.
pub open spec fn state_wf(s: PidState) -> bool {
    ratio_wf(s.previous_error) && ratio_wf(s.integral_accumulator)
}

/// The state a fresh (or freshly reset) controller is in: both fields zero.
pub open spec fn initial_state() -> PidState {
    PidState { previous_error: ratio_zero(), integral_accumulator: ratio_zero() }
}

/// The canonical default coefficient set.
pub open spec fn default_gains() -> PidGains {
    PidGains {
        kp: ratio_of_int(2),
        ki: ratio_of_int(10),
        kd: ratio_of_int(0),
        damp: Ratio { num: 9, den: 10 },
    }
}

/// The anti-windup test: the latest error and the updated integral disagree
/// in sign, or one of them is zero.
pub open spec fn damping_applies(e: Ratio, i: Ratio) -> bool {
    ratio_le(ratio_mul(e, i), ratio_zero())
}

/// The integral after the damping rule: scaled by the damping factor when the
/// anti-windup test fires, unchanged otherwise.
pub open spec fn damped_integral(e: Ratio, i: Ratio, damp: Ratio) -> Ratio {
    if damping_applies(e, i) {
        ratio_mul(i, damp)
    } else {
        i
    }
}

/// The derivative term of one step: the change of the error over `dt`.
pub open spec fn step_derivative(s: PidState, e: Ratio, dt: Ratio) -> Ratio {
    ratio_div(ratio_sub(e, s.previous_error), dt)
}

/// The integral accumulator right after the integral update of one step,
/// before the damping rule.
pub open spec fn step_integral(s: PidState, e: Ratio, dt: Ratio) -> Ratio {
    ratio_add(s.integral_accumulator, ratio_mul(e, dt))
}

/// The controller state after one step on error `e` and time delta `dt`.
pub open spec fn step_state(s: PidState, e: Ratio, dt: Ratio, c: PidGains) -> PidState {
    PidState {
        previous_error: e,
        integral_accumulator: damped_integral(e, step_integral(s, e, dt), c.damp),
    }
}

/// The control output of one step: proportional, integral and derivative
/// terms of the post-step state, each scaled by its gain.
pub open spec fn step_output(s: PidState, e: Ratio, dt: Ratio, c: PidGains) -> Ratio {
    let s1 = step_state(s, e, dt, c);
    ratio_add(
        ratio_add(
            ratio_mul(c.kp, s1.previous_error),
            ratio_mul(c.ki, s1.integral_accumulator),
        ),
        ratio_mul(c.kd, step_derivative(s, e, dt)),
    )
}

/// Whether every exact intermediate of one step fits the `i64` carrier.
/// This is purely a machine limit: the recurrence itself is total.
pub open spec fn step_fits(s: PidState, e: Ratio, dt: Ratio, c: PidGains) -> bool {
    let d = step_derivative(s, e, dt);
    let i1 = step_integral(s, e, dt);
    let i2 = damped_integral(e, i1, c.damp);
    &&& ratio_in_i64(ratio_sub(e, s.previous_error))
    &&& ratio_in_i64(d)
    &&& ratio_in_i64(ratio_mul(e, dt))
    &&& ratio_in_i64(i1)
    &&& (damping_applies(e, i1) ==> ratio_in_i64(ratio_mul(i1, c.damp)))
    &&& ratio_in_i64(ratio_mul(c.kp, e))
    &&& ratio_in_i64(ratio_mul(c.ki, i2))
    &&& ratio_in_i64(ratio_mul(c.kd, d))
    &&& ratio_in_i64(ratio_add(ratio_mul(c.kp, e), ratio_mul(c.ki, i2)))
    &&& ratio_in_i64(step_output(s, e, dt, c))
}

/// The one failure `step` can report: a non-positive time delta.
#[derive(Clone, Copy, Debug, PartialEq, Eq, Structural)]
pub enum PidError {
    InvalidTimeStep,
}

/// Names the four tunable entries of a coefficient set, for generic tooling
/// that enumerates, displays and edits them without knowing the struct.
#[derive(Clone, Copy, Debug, PartialEq, Eq, Structural)]
pub enum Coefficient {
    Kp,
    Ki,
    Kd,
    Damp,
}

/// The entry of a coefficient set that a `Coefficient` names.
pub open spec fn gain_of(c: PidGains, which: Coefficient) -> Ratio {
    match which {
        Coefficient::Kp => c.kp,
        Coefficient::Ki => c.ki,
        Coefficient::Kd => c.kd,
        Coefficient::Damp => c.damp,
    }
}

/// A coefficient set with the named entry replaced and the rest unchanged.
pub open spec fn with_gain(c: PidGains, which: Coefficient, v: Ratio) -> PidGains {
    match which {
        Coefficient::Kp => PidGains { kp: v, ki: c.ki, kd: c.kd, damp: c.damp },
        Coefficient::Ki => PidGains { kp: c.kp, ki: v, kd: c.kd, damp: c.damp },
        Coefficient::Kd => PidGains { kp: c.kp, ki: c.ki, kd: v, damp: c.damp },
        Coefficient::Damp => PidGains { kp: c.kp, ki: c.ki, kd: c.kd, damp: v },
    }
}

/// The stable name of a coefficient, as tooling displays it.
pub open spec fn coefficient_name(which: Coefficient) -> Seq<char> {
    match which {
        Coefficient::Kp => "kp"@,
        Coefficient::Ki => "ki"@,
        Coefficient::Kd => "kd"@,
        Coefficient::Damp => "damp"@,
    }
}

/// The tunable coefficient set of a controller: proportional, integral and
/// derivative gains, and the damping factor for the anti-windup rule.
/// Immutable during a single `step` call; freely mutable between calls.
#[derive(Clone, Copy, Debug)]
pub struct PidConfig {
    /// Proportional gain.
    pub kp: Rational,
    /// Integral gain.
    pub ki: Rational,
    /// Derivative gain.
    pub kd: Rational,
    /// Damping factor for the integral accumulator, expected in (0, 1].
    pub damp: Rational,
}

impl View for PidConfig {
    type V = PidGains;

    open spec fn view(&self) -> PidGains {
        PidGains { kp: self.kp@, ki: self.ki@, kd: self.kd@, damp: self.damp@ }
    }
}

impl Default for PidConfig {
    /// The canonical default bundle: kp = 2, ki = 10, kd = 0, damp = 9/10.
    fn default() -> (r: PidConfig)
        ensures
            r.wf(),
            r@ == default_gains(),
    {
        PidConfig {
            kp: Rational::from_int(2),
            ki: Rational::from_int(10),
            kd: Rational::from_int(0),
            damp: Rational::new(9, 10),
        }
    }
}

impl PidConfig {
    /// Well-formedness: every entry is a well-formed rational.
    pub open spec fn wf(self) -> bool {
        gains_wf(self@)
    }

    /// Every coefficient, in the stable order tooling enumerates them in.
    pub fn all_coefficients() -> (r: Vec<Coefficient>)
        ensures
            r@ == seq![Coefficient::Kp, Coefficient::Ki, Coefficient::Kd, Coefficient::Damp],
    {
        let mut v: Vec<Coefficient> = Vec::new();
        v.push(Coefficient::Kp);
        v.push(Coefficient::Ki);
        v.push(Coefficient::Kd);
        v.push(Coefficient::Damp);
        proof {
            assert(v@ =~= seq![
                Coefficient::Kp,
                Coefficient::Ki,
                Coefficient::Kd,
                Coefficient::Damp,
            ]);
        }
        v
    }

    /// The stable display name of a coefficient.
    pub fn name(which: Coefficient) -> (r: &'static str)
        ensures
            r@ == coefficient_name(which),
    {
        match which {
            Coefficient::Kp => "kp",
            Coefficient::Ki => "ki",
            Coefficient::Kd => "kd",
            Coefficient::Damp => "damp",
        }
    }

    /// Reads the named coefficient.
    pub fn get(&self, which: Coefficient) -> (r: Rational)
        ensures
            r@ == gain_of(self@, which),
    {
        match which {
            Coefficient::Kp => self.kp,
            Coefficient::Ki => self.ki,
            Coefficient::Kd => self.kd,
            Coefficient::Damp => self.damp,
        }
    }

    /// Writes the named coefficient, leaving the rest unchanged.
    pub fn set(&mut self, which: Coefficient, value: Rational)
        ensures
            final(self)@ == with_gain(old(self)@, which, value@),
    {
        match which {
            Coefficient::Kp => self.kp = value,
            Coefficient::Ki => self.ki = value,
            Coefficient::Kd => self.kd = value,
            Coefficient::Damp => self.damp = value,
        }
    }

    /// The default value of the named coefficient, for reset-to-default
    /// tooling.
    pub fn default_value(which: Coefficient) -> (r: Rational)
        ensures
            r.wf(),
            r@ == gain_of(default_gains(), which),
    {
        let d = PidConfig::default();
        d.get(which)
    }
}

/// The sign of a product is non-positive exactly when the factors disagree
/// in sign or one of them is zero.
proof fn lemma_product_sign(x: int, y: int)
    by (nonlinear_arith)
    ensures
        (x * y <= 0) <==> ((x <= 0 && y >= 0) || (x >= 0 && y <= 0)),
{
}

/// One scalar control loop: keeps the previous error sample and the running
/// integral of the error, and advances once per tick through `step`.
#[derive(Clone, Copy, Debug)]
pub struct PidController {
    previous_error: Rational,
    integral_accumulator: Rational,
}

impl View for PidController {
    type V = PidState;

    closed spec fn view(&self) -> PidState {
        PidState {
            previous_error: self.previous_error@,
            integral_accumulator: self.integral_accumulator@,
        }
    }
}

impl Default for PidController {
    /// A fresh controller, with both state fields zero.
    fn default() -> (r: PidController)
        ensures
            r.wf(),
            r@ == initial_state(),
    {
        PidController::new()
    }
}

impl PidController {
    /// Well-formedness: both state fields are well-formed rationals.
    pub open spec fn wf(self) -> bool {
        state_wf(self@)
    }

    /// A fresh controller, with both state fields zero.
    pub fn new() -> (r: PidController)
        ensures
            r.wf(),
            r@ == initial_state(),
    {
        PidController {
            previous_error: Rational::from_int(0),
            integral_accumulator: Rational::from_int(0),
        }
    }

    /// The last error sample, for diagnostics only.
    pub fn previous_error(&self) -> (r: Rational)
        ensures
            r@ == self@.previous_error,
    {
        self.previous_error
    }

    /// The running integral of the error, for diagnostics only.
    pub fn integral_accumulator(&self) -> (r: Rational)
        ensures
            r@ == self@.integral_accumulator,
    {
        self.integral_accumulator
    }

    /// Diagnostic snapshot: the two state fields as a read-only labeled
    /// pair, under their stable names, for logging only.
    pub fn snapshot(&self) -> (r: ((&'static str, Rational), (&'static str, Rational)))
        ensures
            r.0.0@ == "previous_error"@,
            r.0.1@ == self@.previous_error,
            r.1.0@ == "integral_accumulator"@,
            r.1.1@ == self@.integral_accumulator,
    {
        (
            ("previous_error", self.previous_error),
            ("integral_accumulator", self.integral_accumulator),
        )
    }

    /// Zeroes both state fields, so that no integral carries over from an
    /// earlier engagement.
    pub fn reset(&mut self)
        ensures
            final(self).wf(),
            final(self)@ == initial_state(),
    {
        self.previous_error = Rational::from_int(0);
        self.integral_accumulator = Rational::from_int(0);
    }

    /// One tick of the control loop: on a positive time delta, updates the
    /// previous error, accumulates the integral, applies the anti-windup
    /// damping rule, and returns the gain-weighted output; on a non-positive
    /// time delta, rejects the tick as `InvalidTimeStep` and leaves the state
    /// untouched. The `step_fits` clause is a machine limit only: every exact
    /// intermediate must fit the `i64` carrier (see `try_step` for an entry
    /// point that checks it instead).
    pub fn step(&mut self, err: Rational, dt: Rational, config: &PidConfig) -> (r: Result<
        Rational,
        PidError,
    >)
        requires
            old(self).wf(),
            err.wf(),
            dt.wf(),
            config.wf(),
            ratio_lt(ratio_zero(), dt@) ==> step_fits(old(self)@, err@, dt@, config@),
        ensures
            final(self).wf(),
            ratio_lt(ratio_zero(), dt@) ==> final(self)@ == step_state(
                old(self)@,
                err@,
                dt@,
                config@,
            ),
            ratio_lt(ratio_zero(), dt@) ==> (r matches Ok(out) && out.wf() && out@ == step_output(
                old(self)@,
                err@,
                dt@,
                config@,
            )),
            !ratio_lt(ratio_zero(), dt@) ==> r == Err::<Rational, PidError>(
                PidError::InvalidTimeStep,
            ) && final(self)@ == old(self)@,
    {
        if !dt.is_positive() {
            return Err(PidError::InvalidTimeStep);
        }
        let d = err.sub(self.previous_error).div(dt);
        self.previous_error = err;
        let i1 = self.integral_accumulator.add(err.mul(dt));
        proof {
            lemma_product_sign(err@.num, i1@.num);
        }
        let damps = if err.is_zero() || i1.is_zero() {
            true
        } else {
            err.is_positive() != i1.is_positive()
        };
        let i2 = if damps {
            i1.mul(config.damp)
        } else {
            i1
        };
        self.integral_accumulator = i2;
        let out = config.kp.mul(err).add(config.ki.mul(i2)).add(config.kd.mul(d));
        Ok(out)
    }

    /// One tick of the control loop with the machine limit checked instead of
    /// required: returns `None`, leaving the state untouched, when some exact
    /// intermediate would not fit the `i64` carrier, and otherwise behaves
    /// exactly as `step`.
    pub fn try_step(&mut self, err: Rational, dt: Rational, config: &PidConfig) -> (r: Option<
        Result<Rational, PidError>,
    >)
        requires
            old(self).wf(),
            err.wf(),
            dt.wf(),
            config.wf(),
        ensures
            final(self).wf(),
            !ratio_lt(ratio_zero(), dt@) ==> r == Some(Err::<Rational, PidError>(
                PidError::InvalidTimeStep,
            )) && final(self)@ == old(self)@,
            ratio_lt(ratio_zero(), dt@) && step_fits(old(self)@, err@, dt@, config@) ==> (
            r matches Some(res) && res matches Ok(out) && out.wf() && out@ == step_output(
                old(self)@,
                err@,
                dt@,
                config@,
            )) && final(self)@ == step_state(old(self)@, err@, dt@, config@),
            ratio_lt(ratio_zero(), dt@) && !step_fits(old(self)@, err@, dt@, config@) ==> r
                is None && final(self)@ == old(self)@,
    {
        if !dt.is_positive() {
            return Some(Err(PidError::InvalidTimeStep));
        }
        let diff = match err.checked_sub(self.previous_error) {
            Some(v) => v,
            None => { return None },
        };
        let d = match diff.checked_div(dt) {
            Some(v) => v,
            None => { return None },
        };
        let de = match err.checked_mul(dt) {
            Some(v) => v,
            None => { return None },
        };
        let i1 = match self.integral_accumulator.checked_add(de) {
            Some(v) => v,
            None => { return None },
        };
        proof {
            lemma_product_sign(err@.num, i1@.num);
        }
        let damps = if err.is_zero() || i1.is_zero() {
            true
        } else {
            err.is_positive() != i1.is_positive()
        };
        let i2 = if damps {
            match i1.checked_mul(config.damp) {
                Some(v) => v,
                None => { return None },
            }
        } else {
            i1
        };
        let tp = match config.kp.checked_mul(err) {
            Some(v) => v,
            None => { return None },
        };
        let ti = match config.ki.checked_mul(i2) {
            Some(v) => v,
            None => { return None },
        };
        let td = match config.kd.checked_mul(d) {
            Some(v) => v,
            None => { return None },
        };
        let tpi = match tp.checked_add(ti) {
            Some(v) => v,
            None => { return None },
        };
        let out = match tpi.checked_add(td) {
            Some(v) => v,
            None => { return None },
        };
        self.previous_error = err;
        self.integral_accumulator = i2;
        Some(Ok(out))
    }
}

} // verus!
