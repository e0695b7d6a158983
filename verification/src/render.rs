//! The stream renderer: one pass over the instruction stream, carrying the
//! mutable variable environment and the growing waveform, then the final
//! packaging that strips signs and enforces strict flash/gap alternation.

use vstd::prelude::*;

use crate::ast::{Irp, IrStreamItem};
use crate::duration::duration_value;
use crate::errors::{Fault, RenderError};
use crate::eval::eval_expr;
use crate::general::{general_spec, resolve_general, GeneralSpec};
use crate::vartable::Vartable;

verus! {

/// The signed durations the stream produces, in source order: a duration
/// item appends its value, an assignment rebinds its variable for every
/// later item, and any other construct is a fault.  The first fault aborts
/// the whole render.
pub open spec fn run_stream(
    items: Seq<IrStreamItem>,
    env: Map<Seq<char>, i64>,
    gs: GeneralSpec,
    acc: Seq<i64>,
) -> Result<Seq<i64>, Fault>
    decreases items.len(),
{
    if items.len() == 0 {
        Ok(acc)
    } else {
        match items[0] {
            IrStreamItem::Duration(d) => match duration_value(d, env, gs) {
                Ok(v) => run_stream(items.drop_first(), env, gs, acc.push(v)),
                Err(f) => Err(f),
            },
            IrStreamItem::Assignment(id, e) => match eval_expr(e, env) {
                Ok(v) => run_stream(items.drop_first(), env.insert(id@, v), gs, acc),
                Err(f) => Err(f),
            },
            IrStreamItem::BitField(_) => Err(Fault::Unsupported),
        }
    }
}

/// The waveform packaged for the transmitter: magnitudes only, flash and
/// gap strictly alternating by position — a flash (even position) may not
/// be negative, a gap (odd position) may not be positive — and every
/// magnitude within 32 bits.
pub open spec fn package_rest(w: Seq<i64>, flash: bool) -> Result<Seq<u32>, Fault>
    decreases w.len(),
{
    if w.len() == 0 {
        Ok(Seq::empty())
    } else {
        let v = w[0];
        if flash && v < 0 {
            Err(Fault::NotAlternating)
        } else if !flash && v > 0 {
            Err(Fault::NotAlternating)
        } else {
            let m = if v >= 0 {
                v as int
            } else {
                (v as int) * -1
            };
            if m > u32::MAX {
                Err(Fault::DurationTooLarge)
            } else {
                match package_rest(w.drop_first(), !flash) {
                    Ok(rest) => Ok(seq![m as u32] + rest),
                    Err(f) => Err(f),
                }
            }
        }
    }
}

/// What a whole render returns: the header resolved, the stream run from
/// the caller's bindings, and the waveform packaged; the first fault wins.
pub open spec fn render_spec(irp: Irp, env: Map<Seq<char>, i64>) -> Result<Seq<u32>, Fault> {
    match resolve_general(irp.general_spec@) {
        Err(f) => Err(f),
        Ok(gs) => match run_stream(irp.stream@, env, gs, Seq::empty()) {
            Err(f) => Err(f),
            Ok(w) => package_rest(w, true),
        },
    }
}

/// The outcome of a render as contracts state it: the waveform as a
/// sequence, the error as its mathematical shadow.
pub open spec fn waveform_view(r: Result<Vec<u32>, RenderError>) -> Result<Seq<u32>, Fault> {
    match r {
        Ok(v) => Ok(v@),
        Err(e) => Err(e@),
    }
}

/// Renders the protocol against the caller's initial bindings, exactly as
/// `render_spec` states it.
#[verifier::loop_isolation(false)]
pub fn render(irp: &Irp, vars: Vartable) -> (r: Result<Vec<u32>, RenderError>)
    ensures
        waveform_view(r) == render_spec(*irp, vars@),
{
    let ghost env0 = vars@;
    let mut vars = vars;
    let gs = match general_spec(&irp.general_spec) {
        Ok(g) => g,
        Err(e) => return Err(e),
    };
    let mut raw: Vec<i64> = Vec::new();
    proof {
        assert(irp.stream@.skip(0) =~= irp.stream@);
    }
    let mut i: usize = 0;
    while i < irp.stream.len()
        invariant
            0 <= i <= irp.stream@.len(),
            run_stream(irp.stream@.skip(i as int), vars@, gs, raw@) == run_stream(
                irp.stream@,
                env0,
                gs,
                Seq::empty(),
            ),
        decreases irp.stream@.len() - i,
    {
        proof {
            assert(irp.stream@.skip(i as int)[0] == irp.stream@[i as int]);
            assert(irp.stream@.skip(i as int).drop_first() =~= irp.stream@.skip(i as int + 1));
        }
        match &irp.stream[i] {
            IrStreamItem::Duration(d) => {
                let v = match d.eval(&vars, &gs) {
                    Ok(v) => v,
                    Err(e) => return Err(e),
                };
                raw.push(v);
            },
            IrStreamItem::Assignment(id, e) => {
                let v = match e.eval(&vars) {
                    Ok(v) => v,
                    Err(e) => return Err(e),
                };
                vars.set(id.clone(), v);
            },
            IrStreamItem::BitField(_) => {
                return Err(RenderError::Unsupported);
            },
        }
        i += 1;
    }
    proof {
        assert(irp.stream@.skip(i as int) =~= Seq::<IrStreamItem>::empty());
    }
    let ghost w = raw@;
    let mut out: Vec<u32> = Vec::new();
    proof {
        assert(w.skip(0) =~= w);
    }
    let mut j: usize = 0;
    while j < raw.len()
        invariant
            0 <= j <= w.len(),
            raw@ == w,
            out@.len() == j,
            (match package_rest(w.skip(j as int), j % 2 == 0) {
                Ok(rest) => package_rest(w, true) == Ok::<Seq<u32>, Fault>(out@ + rest),
                Err(f) => package_rest(w, true) == Err::<Seq<u32>, Fault>(f),
            }),
        decreases w.len() - j,
    {
        proof {
            assert(w.skip(j as int)[0] == w[j as int]);
            assert(w.skip(j as int).drop_first() =~= w.skip(j as int + 1));
        }
        let v = raw[j];
        let flash = j % 2 == 0;
        if flash && v < 0 {
            return Err(RenderError::NotAlternating);
        }
        if !flash && v > 0 {
            return Err(RenderError::NotAlternating);
        }
        if v > u32::MAX as i64 {
            return Err(RenderError::DurationTooLarge);
        }
        if v < -(u32::MAX as i64) {
            return Err(RenderError::DurationTooLarge);
        }
        let m: u32 = if v >= 0 {
            v as u32
        } else {
            (-v) as u32
        };
        let ghost out_before = out@;
        out.push(m);
        proof {
            assert(((j as int + 1) % 2 == 0) == !((j as int) % 2 == 0));
            match package_rest(w.skip(j as int + 1), !(j % 2 == 0)) {
                Ok(rest) => {
                    assert(out_before + (seq![m] + rest) =~= out@ + rest);
                },
                Err(_) => {
                },
            }
        }
        j += 1;
    }
    proof {
        assert(w.skip(j as int) =~= Seq::<i64>::empty());
        assert(out@ + Seq::<u32>::empty() =~= out@);
    }
    Ok(out)
}

} // verus!
