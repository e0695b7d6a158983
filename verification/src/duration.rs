//! The duration resolver: a flash or gap declaration turned into a signed
//! microsecond value.  The numeral is first scaled by the protocol's base
//! unit, exactly, as a rational; the result is then passed through the
//! declaration's own unit, which may differ from the base unit.

use vstd::prelude::*;
use vstd::wrapping::i64_specs;

use crate::arith::{clamp_i64, div_i64, div_wrap, scale_div, trunc_div};
use crate::ast::{Duration, Unit};
use crate::errors::{res_view, Fault, RenderError};
use crate::general::GeneralSpec;
use crate::vartable::Vartable;

verus! {

/// A value converted through a unit tag: microseconds pass unchanged,
/// milliseconds multiply by a thousand, and a pulse count divides the cycle
/// count into microseconds through the carrier — which must be resolved and
/// cannot be zero.
pub open spec fn unit_value(u: Unit, v: i64, gs: GeneralSpec) -> Result<i64, Fault> {
    match u {
        Unit::Microseconds => Ok(v),
        Unit::Milliseconds => Ok(i64_specs::wrapping_mul(v, 1000)),
        Unit::Pulses => match gs.carrier {
            None => Err(Fault::NoCarrier),
            Some(c) => if c == 0 {
                Err(Fault::DivideByZero)
            } else {
                Ok(div_wrap(i64_specs::wrapping_mul(v, 1000), c))
            },
        },
    }
}

/// A numeral of `t` thousandths scaled by the base unit and truncated
/// toward zero, saturating at the 64-bit bounds.
pub open spec fn scale_constant(t: int, gs: GeneralSpec) -> i64 {
    clamp_i64(trunc_div(t * gs.unit_num as int, 1000 * gs.unit_den as int))
}

/// A variable's value scaled by the base unit and truncated toward zero,
/// saturating at the 64-bit bounds.
pub open spec fn scale_variable(v: int, gs: GeneralSpec) -> i64 {
    clamp_i64(trunc_div(v * gs.unit_num as int, gs.unit_den as int))
}

/// The signed microsecond value of a duration declaration: positive for a
/// flash, negative for a gap.  Gap forms negate the numeral before any
/// scaling; identifier forms read the environment's current value.
pub open spec fn duration_value(d: Duration, env: Map<Seq<char>, i64>, gs: GeneralSpec) -> Result<
    i64,
    Fault,
> {
    match d {
        Duration::FlashConstant(p, u) => unit_value(u, scale_constant(p.thousandths as int, gs), gs),
        Duration::GapConstant(p, u) => unit_value(
            u,
            scale_constant((p.thousandths as int) * -1, gs),
            gs,
        ),
        Duration::FlashIdentifier(id, u) => if env.dom().contains(id@) {
            unit_value(u, scale_variable(env[id@] as int, gs), gs)
        } else {
            Err(Fault::Undefined(id@))
        },
        Duration::GapIdentifier(id, u) => if env.dom().contains(id@) {
            unit_value(u, scale_variable((env[id@] as int) * -1, gs), gs)
        } else {
            Err(Fault::Undefined(id@))
        },
    }
}

impl Unit {
    /// Converts an already-scaled value through this unit tag, exactly as
    /// `unit_value` states it.
    pub fn eval(&self, v: i64, gs: &GeneralSpec) -> (r: Result<i64, RenderError>)
        ensures
            res_view(r) == unit_value(*self, v, *gs),
    {
        match self {
            Unit::Microseconds => Ok(v),
            Unit::Milliseconds => Ok(v.wrapping_mul(1000)),
            Unit::Pulses => match gs.carrier {
                None => Err(RenderError::NoCarrier),
                Some(c) => if c == 0 {
                    Err(RenderError::DivideByZero)
                } else {
                    Ok(div_i64(v.wrapping_mul(1000), c))
                },
            },
        }
    }
}

impl Duration {
    /// Resolves the declaration to a signed microsecond value against the
    /// environment and the resolved general spec, exactly as
    /// `duration_value` states it.
    pub fn eval(&self, vars: &Vartable, gs: &GeneralSpec) -> (r: Result<i64, RenderError>)
        requires
            gs.wf(),
        ensures
            res_view(r) == duration_value(*self, vars@, *gs),
    {
        match self {
            Duration::FlashConstant(p, u) => {
                let scaled = scale_div(p.thousandths as i128, gs.unit_num, 1000, gs.unit_den);
                u.eval(scaled, gs)
            },
            Duration::GapConstant(p, u) => {
                let scaled = scale_div(-(p.thousandths as i128), gs.unit_num, 1000, gs.unit_den);
                u.eval(scaled, gs)
            },
            Duration::FlashIdentifier(id, u) => {
                let v = match vars.get(id.as_str()) {
                    Ok(v) => v,
                    Err(e) => return Err(e),
                };
                let scaled = scale_div(v as i128, gs.unit_num, 1, gs.unit_den);
                u.eval(scaled, gs)
            },
            Duration::GapIdentifier(id, u) => {
                let v = match vars.get(id.as_str()) {
                    Ok(v) => v,
                    Err(e) => return Err(e),
                };
                let scaled = scale_div(-(v as i128), gs.unit_num, 1, gs.unit_den);
                u.eval(scaled, gs)
            },
        }
    }
}

} // verus!
