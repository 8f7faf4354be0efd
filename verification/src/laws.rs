//! Laws of the controller, proved once and for all over the ghost model.

use vstd::prelude::*;

verus! {

use crate::pid::PidController;
use crate::pid::PidGains;
use crate::pid::PidState;
use crate::pid::damped_integral;
use crate::pid::damping_applies;
use crate::pid::initial_state;
use crate::pid::state_wf;
use crate::pid::step_derivative;
use crate::pid::step_integral;
use crate::pid::step_output;
use crate::pid::step_state;
use crate::rational::Ratio;
use crate::rational::ratio_abs;
use crate::rational::ratio_eq;
use crate::rational::ratio_lt;
use crate::rational::ratio_mul;
use crate::rational::ratio_one;
use crate::rational::ratio_wf;
use crate::rational::ratio_zero;

/// Resetting wipes all history: a controller that has just been reset is in
/// the very state a freshly constructed one starts in, so its next step
/// produces the same state and the same output as the fresh controller's
/// would, whatever either controller went through before.
pub proof fn lemma_reset_is_fresh_start(
    reset_ctl: PidController,
    fresh_ctl: PidController,
    e: Ratio,
    dt: Ratio,
    c: PidGains,
)
    requires
        reset_ctl@ == initial_state(),
        fresh_ctl@ == initial_state(),
    ensures
        step_state(reset_ctl@, e, dt, c) == step_state(fresh_ctl@, e, dt, c),
        step_output(reset_ctl@, e, dt, c) == step_output(fresh_ctl@, e, dt, c),
{
}

/// Pure-gain passthrough: with unit proportional gain and zero integral and
/// derivative gains, one step on a fresh controller returns exactly the error
/// sample, for every positive time delta and every damping factor.
pub proof fn lemma_pure_gain_passthrough(e: Ratio, dt: Ratio, damp: Ratio)
    requires
        ratio_wf(e),
        ratio_wf(dt),
        ratio_wf(damp),
        ratio_lt(ratio_zero(), dt),
    ensures
        ratio_eq(
            step_output(
                initial_state(),
                e,
                dt,
                PidGains { kp: ratio_one(), ki: ratio_zero(), kd: ratio_zero(), damp },
            ),
            e,
        ),
{
    let c = PidGains { kp: ratio_one(), ki: ratio_zero(), kd: ratio_zero(), damp };
    let i2 = step_state(initial_state(), e, dt, c).integral_accumulator;
    let d = step_derivative(initial_state(), e, dt);
    let out = step_output(initial_state(), e, dt, c);
    assert(out.num == (1 * e.num * (1 * i2.den) + 0 * i2.num * (1 * e.den)) * (1 * d.den) + 0
        * d.num * (1 * e.den * (1 * i2.den)));
    assert(out.den == 1 * e.den * (1 * i2.den) * (1 * d.den));
    assert(((1 * e.num * (1 * i2.den) + 0 * i2.num * (1 * e.den)) * (1 * d.den) + 0 * d.num * (1
        * e.den * (1 * i2.den))) * e.den == e.num * (1 * e.den * (1 * i2.den) * (1 * d.den)))
        by (nonlinear_arith);
}

/// Damping monotonicity: whenever the anti-windup test fires and the damping
/// factor lies strictly between zero and one, damping strictly shrinks the
/// absolute value of a non-zero integral accumulator, and keeps a zero
/// accumulator at zero.
pub proof fn lemma_damping_shrinks(e: Ratio, i: Ratio, damp: Ratio)
    requires
        ratio_wf(e),
        ratio_wf(i),
        ratio_wf(damp),
        ratio_lt(ratio_zero(), damp),
        ratio_lt(damp, ratio_one()),
        damping_applies(e, i),
    ensures
        !ratio_eq(i, ratio_zero()) ==> ratio_lt(
            ratio_abs(damped_integral(e, i, damp)),
            ratio_abs(i),
        ),
        ratio_eq(i, ratio_zero()) ==> ratio_eq(damped_integral(e, i, damp), ratio_zero()),
{
    let damped = damped_integral(e, i, damp);
    assert(damped == ratio_mul(i, damp));
    if ratio_eq(i, ratio_zero()) {
        assert(i.num == 0);
        assert(damped.num == 0 * damp.num) by (nonlinear_arith)
            requires
                damped.num == i.num * damp.num,
                i.num == 0,
        ;
    } else {
        assert(i.num != 0);
        assert(0 < damp.num);
        assert(damp.num < damp.den);
        let an = if i.num >= 0 { i.num } else { -i.num };
        let adn = if damped.num >= 0 { damped.num } else { -damped.num };
        assert(adn * i.den < an * (i.den * damp.den)) by (nonlinear_arith)
            requires
                damped.num == i.num * damp.num,
                an == (if i.num >= 0 { i.num } else { -i.num }),
                adn == (if damped.num >= 0 { damped.num } else { -damped.num }),
                i.num != 0,
                0 < damp.num < damp.den,
                i.den > 0,
                damp.den > 0,
        ;
    }
}

/// The same monotonicity, stated on the step itself: whenever the updated
/// integral of a step disagrees in sign with the latest error, the integral
/// the step leaves behind is strictly smaller in absolute value than the
/// updated one, unless the updated one is already zero, in which case it
/// stays zero.
pub proof fn lemma_step_damping_monotone(s: PidState, e: Ratio, dt: Ratio, c: PidGains)
    requires
        state_wf(s),
        ratio_wf(e),
        ratio_wf(dt),
        ratio_lt(ratio_zero(), c.damp),
        ratio_lt(c.damp, ratio_one()),
        damping_applies(e, step_integral(s, e, dt)),
    ensures
        !ratio_eq(step_integral(s, e, dt), ratio_zero()) ==> ratio_lt(
            ratio_abs(step_state(s, e, dt, c).integral_accumulator),
            ratio_abs(step_integral(s, e, dt)),
        ),
        ratio_eq(step_integral(s, e, dt), ratio_zero()) ==> ratio_eq(
            step_state(s, e, dt, c).integral_accumulator,
            ratio_zero(),
        ),
{
    let i1 = step_integral(s, e, dt);
    assert(i1.den > 0) by (nonlinear_arith)
        requires
            i1.den == s.integral_accumulator.den * (e.den * dt.den),
            s.integral_accumulator.den > 0,
            e.den > 0,
            dt.den > 0,
    ;
    lemma_damping_shrinks(e, i1, c.damp);
}

} // verus!
