//! The general-spec resolver: a single pass over the protocol's header
//! declarations that validates them and merges them into one immutable
//! `GeneralSpec` for the whole render.

use vstd::arithmetic::div_mod::lemma_div_is_ordered;
use vstd::prelude::*;

use crate::ast::{Decimal, GeneralItem, Unit};
use crate::errors::{res_view, Fault, RenderError};

verus! {

/// The resolved protocol-wide parameters.  The duty cycle is a whole
/// percentage within [1, 99]; the carrier is in hertz; the base unit is the
/// exact rational `unit_num / (1000 * unit_den)` microseconds per raw
/// numeral-thousandth, that is `unit_num / unit_den` microseconds per unit.
#[derive(Clone, Copy, Debug, PartialEq)]
pub struct GeneralSpec {
    pub duty_cycle: Option<u8>,
    pub carrier: Option<i64>,
    pub lsb: bool,
    pub unit_num: i64,
    pub unit_den: i64,
}

impl GeneralSpec {
    /// The base-unit rational has a usable denominator.
    pub open spec fn wf(self) -> bool {
        self.unit_den != 0
    }
}

/// What the single pass has seen so far: each header kind at most once.
#[derive(Clone, Copy, Debug)]
pub struct HeaderState {
    pub duty_cycle: Option<u8>,
    pub carrier: Option<i64>,
    pub lsb: Option<bool>,
    pub unit: Option<(Decimal, Unit)>,
}

/// The state before any declaration is seen.
pub open spec fn init_header() -> HeaderState {
    HeaderState { duty_cycle: None, carrier: None, lsb: None, unit: None }
}

/// One declaration folded into the state: a duplicate of an already-seen
/// kind is rejected first, then the declaration's own validity.
pub open spec fn step_item(st: HeaderState, item: GeneralItem) -> Result<HeaderState, Fault> {
    match item {
        GeneralItem::DutyCycle(d) => if st.duty_cycle is Some {
            Err(Fault::DuplicateDutyCycle)
        } else if d.thousandths < 1000 {
            Err(Fault::DutyCycleTooLow)
        } else if d.thousandths > 99000 {
            Err(Fault::DutyCycleTooHigh)
        } else {
            Ok(HeaderState { duty_cycle: Some(((d.thousandths as int) / 1000) as u8), ..st })
        },
        GeneralItem::Frequency(f) => if st.carrier is Some {
            Err(Fault::DuplicateCarrier)
        } else {
            Ok(HeaderState { carrier: Some(f.thousandths), ..st })
        },
        GeneralItem::OrderLsb => if st.lsb is Some {
            Err(Fault::DuplicateBitOrder)
        } else {
            Ok(HeaderState { lsb: Some(true), ..st })
        },
        GeneralItem::OrderMsb => if st.lsb is Some {
            Err(Fault::DuplicateBitOrder)
        } else {
            Ok(HeaderState { lsb: Some(false), ..st })
        },
        GeneralItem::Unit(p, u) => if st.unit is Some {
            Err(Fault::DuplicateUnit)
        } else {
            Ok(HeaderState { unit: Some((p, u)), ..st })
        },
    }
}

/// The declarations folded left to right; the first fault wins.
pub open spec fn resolve_items(items: Seq<GeneralItem>, st: HeaderState) -> Result<
    HeaderState,
    Fault,
>
    decreases items.len(),
{
    if items.len() == 0 {
        Ok(st)
    } else {
        match step_item(st, items[0]) {
            Ok(next) => resolve_items(items.drop_first(), next),
            Err(f) => Err(f),
        }
    }
}

/// The defaults applied and the base unit resolved: bit order defaults to
/// least-significant-first, the base unit to one microsecond per unit; a
/// pulse-count base unit requires a carrier, and a zero carrier cannot
/// divide.
pub open spec fn finish_header(st: HeaderState) -> Result<GeneralSpec, Fault> {
    let lsb = match st.lsb {
        Some(b) => b,
        None => true,
    };
    match st.unit {
        None => Ok(
            GeneralSpec {
                duty_cycle: st.duty_cycle,
                carrier: st.carrier,
                lsb,
                unit_num: 1,
                unit_den: 1,
            },
        ),
        Some((p, u)) => match u {
            Unit::Microseconds => Ok(
                GeneralSpec {
                    duty_cycle: st.duty_cycle,
                    carrier: st.carrier,
                    lsb,
                    unit_num: p.thousandths,
                    unit_den: 1000,
                },
            ),
            Unit::Milliseconds => Ok(
                GeneralSpec {
                    duty_cycle: st.duty_cycle,
                    carrier: st.carrier,
                    lsb,
                    unit_num: p.thousandths,
                    unit_den: 1,
                },
            ),
            Unit::Pulses => match st.carrier {
                None => Err(Fault::PulseUnitWithoutCarrier),
                Some(c) => if c == 0 {
                    Err(Fault::DivideByZero)
                } else {
                    Ok(
                        GeneralSpec {
                            duty_cycle: st.duty_cycle,
                            carrier: st.carrier,
                            lsb,
                            unit_num: p.thousandths,
                            unit_den: c,
                        },
                    )
                },
            },
        },
    }
}

/// The whole resolution: the pass over the declarations, then the defaults.
pub open spec fn resolve_general(items: Seq<GeneralItem>) -> Result<GeneralSpec, Fault> {
    match resolve_items(items, init_header()) {
        Ok(st) => finish_header(st),
        Err(f) => Err(f),
    }
}

/// Resolves the header declarations, exactly as `resolve_general` states
/// it; a resolved spec always has a usable base-unit denominator.
pub fn general_spec(items: &Vec<GeneralItem>) -> (r: Result<GeneralSpec, RenderError>)
    ensures
        res_view(r) == resolve_general(items@),
        r matches Ok(g) ==> g.wf(),
{
    let mut st = HeaderState { duty_cycle: None, carrier: None, lsb: None, unit: None };
    let mut i: usize = 0;
    proof {
        assert(items@.skip(0) =~= items@);
    }
    while i < items.len()
        invariant
            0 <= i <= items@.len(),
            resolve_items(items@.skip(i as int), st) == resolve_items(items@, init_header()),
        decreases items@.len() - i,
    {
        proof {
            assert(items@.skip(i as int)[0] == items@[i as int]);
            assert(items@.skip(i as int).drop_first() =~= items@.skip(i as int + 1));
        }
        let it = items[i];
        match it {
            GeneralItem::DutyCycle(d) => {
                if st.duty_cycle.is_some() {
                    return Err(RenderError::DuplicateDutyCycle);
                }
                if d.thousandths < 1000 {
                    return Err(RenderError::DutyCycleTooLow);
                }
                if d.thousandths > 99000 {
                    return Err(RenderError::DutyCycleTooHigh);
                }
                proof {
                    lemma_div_is_ordered(1000, d.thousandths as int, 1000);
                    lemma_div_is_ordered(d.thousandths as int, 99000, 1000);
                    assert(1000int / 1000 == 1);
                    assert(99000int / 1000 == 99);
                }
                st.duty_cycle = Some(d.thousandths.checked_div(1000).unwrap() as u8);
            },
            GeneralItem::Frequency(f) => {
                if st.carrier.is_some() {
                    return Err(RenderError::DuplicateCarrier);
                }
                st.carrier = Some(f.thousandths);
            },
            GeneralItem::OrderLsb => {
                if st.lsb.is_some() {
                    return Err(RenderError::DuplicateBitOrder);
                }
                st.lsb = Some(true);
            },
            GeneralItem::OrderMsb => {
                if st.lsb.is_some() {
                    return Err(RenderError::DuplicateBitOrder);
                }
                st.lsb = Some(false);
            },
            GeneralItem::Unit(p, u) => {
                if st.unit.is_some() {
                    return Err(RenderError::DuplicateUnit);
                }
                st.unit = Some((p, u));
            },
        }
        i += 1;
    }
    proof {
        assert(items@.skip(i as int) =~= Seq::<GeneralItem>::empty());
    }
    let lsb = match st.lsb {
        Some(b) => b,
        None => true,
    };
    match st.unit {
        None => Ok(
            GeneralSpec {
                duty_cycle: st.duty_cycle,
                carrier: st.carrier,
                lsb,
                unit_num: 1,
                unit_den: 1,
            },
        ),
        Some((p, u)) => match u {
            Unit::Microseconds => Ok(
                GeneralSpec {
                    duty_cycle: st.duty_cycle,
                    carrier: st.carrier,
                    lsb,
                    unit_num: p.thousandths,
                    unit_den: 1000,
                },
            ),
            Unit::Milliseconds => Ok(
                GeneralSpec {
                    duty_cycle: st.duty_cycle,
                    carrier: st.carrier,
                    lsb,
                    unit_num: p.thousandths,
                    unit_den: 1,
                },
            ),
            Unit::Pulses => match st.carrier {
                None => Err(RenderError::PulseUnitWithoutCarrier),
                Some(c) => if c == 0 {
                    Err(RenderError::DivideByZero)
                } else {
                    Ok(
                        GeneralSpec {
                            duty_cycle: st.duty_cycle,
                            carrier: st.carrier,
                            lsb,
                            unit_num: p.thousandths,
                            unit_den: c,
                        },
                    )
                },
            },
        },
    }
}

/// A lone duty-cycle declaration resolves exactly when the declared
/// percentage lies within [1, 99].
pub proof fn lemma_duty_cycle_bounds(d: Decimal)
    ensures
        resolve_general(seq![GeneralItem::DutyCycle(d)]) is Ok <==> (1000 <= d.thousandths
            <= 99000),
{
    reveal_with_fuel(resolve_items, 3);
    let items = seq![GeneralItem::DutyCycle(d)];
    assert(items.drop_first() =~= Seq::<GeneralItem>::empty());
}

/// A second duty-cycle declaration after a valid one is rejected as a
/// duplicate, whatever the second declares.
pub proof fn lemma_duplicate_duty_cycle(a: Decimal, b: Decimal)
    requires
        1000 <= a.thousandths <= 99000,
    ensures
        resolve_general(seq![GeneralItem::DutyCycle(a), GeneralItem::DutyCycle(b)])
            == Err::<GeneralSpec, Fault>(Fault::DuplicateDutyCycle),
{
    reveal_with_fuel(resolve_items, 4);
    let items = seq![GeneralItem::DutyCycle(a), GeneralItem::DutyCycle(b)];
    assert(items.drop_first() =~= seq![GeneralItem::DutyCycle(b)]);
    assert(items.drop_first().drop_first() =~= Seq::<GeneralItem>::empty());
}

/// A pulse-count base unit declared without any frequency declaration is
/// rejected for its missing carrier.
pub proof fn lemma_pulse_unit_needs_carrier(p: Decimal)
    ensures
        resolve_general(seq![GeneralItem::Unit(p, Unit::Pulses)]) == Err::<GeneralSpec, Fault>(
            Fault::PulseUnitWithoutCarrier,
        ),
{
    reveal_with_fuel(resolve_items, 3);
    let items = seq![GeneralItem::Unit(p, Unit::Pulses)];
    assert(items.drop_first() =~= Seq::<GeneralItem>::empty());
}

/// A lone declared frequency of `f` kilohertz always resolves, and the
/// carrier is exactly `f * 1000` hertz: the numeral's own thousandths
/// count.
pub proof fn lemma_frequency_resolves(f: Decimal)
    ensures
        resolve_general(seq![GeneralItem::Frequency(f)]) is Ok,
        resolve_general(seq![GeneralItem::Frequency(f)])->Ok_0.carrier == Some(f.thousandths),
{
    reveal_with_fuel(resolve_items, 3);
    let items = seq![GeneralItem::Frequency(f)];
    assert(items.drop_first() =~= Seq::<GeneralItem>::empty());
}

/// A declared frequency of `f` kilohertz resolves to a carrier of exactly
/// `f * 1000` hertz — the numeral's thousandths count — and a pulse base
/// unit beside it resolves to the exact rational `p / f` microseconds.
pub proof fn lemma_carrier_exact(f: Decimal, p: Decimal)
    requires
        f.thousandths != 0,
    ensures
        ({
            let r = resolve_general(
                seq![GeneralItem::Frequency(f), GeneralItem::Unit(p, Unit::Pulses)],
            );
            &&& r is Ok
            &&& r->Ok_0.carrier == Some(f.thousandths)
            &&& r->Ok_0.unit_num == p.thousandths
            &&& r->Ok_0.unit_den == f.thousandths
        }),
{
    reveal_with_fuel(resolve_items, 4);
    let items = seq![GeneralItem::Frequency(f), GeneralItem::Unit(p, Unit::Pulses)];
    assert(items.drop_first() =~= seq![GeneralItem::Unit(p, Unit::Pulses)]);
    assert(items.drop_first().drop_first() =~= Seq::<GeneralItem>::empty());
}

proof fn lemma_resolve_items_no_undefined(items: Seq<GeneralItem>, st: HeaderState)
    ensures
        !(resolve_items(items, st) matches Err(Fault::Undefined(_))),
    decreases items.len(),
{
    if items.len() > 0 {
        match step_item(st, items[0]) {
            Ok(next) => {
                lemma_resolve_items_no_undefined(items.drop_first(), next);
            },
            Err(_) => {
            },
        }
    }
}

/// Resolution is a pure function of the declaration list: two results that
/// both meet `general_spec`'s contract on the same declarations are one and
/// the same value.
pub proof fn lemma_resolution_deterministic(
    r1: Result<GeneralSpec, RenderError>,
    r2: Result<GeneralSpec, RenderError>,
    items: Seq<GeneralItem>,
)
    requires
        res_view(r1) == resolve_general(items),
        res_view(r2) == resolve_general(items),
    ensures
        r1 == r2,
{
    lemma_resolve_items_no_undefined(items, init_header());
    match (r1, r2) {
        (Err(e1), Err(e2)) => {
            assert(e1@ == e2@);
            assert(!(e1@ matches Fault::Undefined(_)));
            assert(e1 == e2);
        },
        _ => {
        },
    }
}

} // verus!
