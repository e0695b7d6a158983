use irp_render::ast::{BitField, Decimal, Duration, Expression, GeneralItem, Irp, IrStreamItem, Unit};
use irp_render::errors::RenderError;
use irp_render::general::general_spec;
use irp_render::render::render;
use irp_render::vartable::Vartable;

fn dec(thousandths: i64) -> Decimal {
    Decimal { thousandths }
}

fn num(n: i64) -> Box<Expression> {
    Box::new(Expression::Number(n))
}

fn bit_field(complement: bool, value: Expression, length: Expression) -> IrStreamItem {
    IrStreamItem::BitField(BitField { complement, value, length })
}

/// The protocol `{38.0k,564}<1,-1|1,-3>(16,-8,D:8,S:8,F:8,~F:8,1)` with the
/// binding `F = 1`: the header resolves to a 38000 Hz carrier and a 564 us
/// base unit, the lead-in flash resolves to 16 * 564 = 9024 us, and the
/// render stops at the first bit-field item, which is not yet supported.
#[test]
fn test() {
    let mut vars = Vartable::new();
    vars.set("F".to_string(), 1);

    let irp = Irp {
        general_spec: vec![
            GeneralItem::Frequency(dec(38_000)),
            GeneralItem::Unit(dec(564_000), Unit::Microseconds),
        ],
        stream: vec![
            IrStreamItem::Duration(Duration::FlashConstant(dec(16_000), Unit::Microseconds)),
            IrStreamItem::Duration(Duration::GapConstant(dec(8_000), Unit::Microseconds)),
            bit_field(false, Expression::Identifier("D".to_string()), Expression::Number(8)),
            bit_field(false, Expression::Identifier("S".to_string()), Expression::Number(8)),
            bit_field(false, Expression::Identifier("F".to_string()), Expression::Number(8)),
            bit_field(true, Expression::Identifier("F".to_string()), Expression::Number(8)),
            IrStreamItem::Duration(Duration::FlashConstant(dec(1_000), Unit::Microseconds)),
        ],
    };

    let gs = general_spec(&irp.general_spec).unwrap();
    assert_eq!(gs.carrier, Some(38_000));
    assert_eq!(gs.unit_num, 564_000);
    assert_eq!(gs.unit_den, 1_000);

    let lead_in = Duration::FlashConstant(dec(16_000), Unit::Microseconds);
    let check_vars = Vartable::new();
    assert_eq!(lead_in.eval(&check_vars, &gs), Ok(16 * 564));

    let res = render(&irp, vars);
    assert!(matches!(res, Err(RenderError::Unsupported)));
}

#[test]
fn lead_in_pair_resolves_before_bit_fields() {
    let gs = general_spec(&vec![
        GeneralItem::Frequency(dec(38_000)),
        GeneralItem::Unit(dec(564_000), Unit::Microseconds),
    ])
    .unwrap();
    let vars = Vartable::new();
    let flash = Duration::FlashConstant(dec(16_000), Unit::Microseconds);
    let gap = Duration::GapConstant(dec(8_000), Unit::Microseconds);
    assert_eq!(flash.eval(&vars, &gs), Ok(9024));
    assert_eq!(gap.eval(&vars, &gs), Ok(-4512));
}

#[test]
fn divide_truncates_toward_zero() {
    let vars = Vartable::new();
    let e = Expression::Divide(num(7), num(2));
    assert_eq!(e.eval(&vars), Ok(3));
    let e = Expression::Divide(num(-7), num(2));
    assert_eq!(e.eval(&vars), Ok(-3));
}

#[test]
fn modulo_follows_truncating_division() {
    let vars = Vartable::new();
    let e = Expression::Modulo(num(-7), num(2));
    assert_eq!(e.eval(&vars), Ok(-1));
    let e = Expression::Modulo(num(7), num(2));
    assert_eq!(e.eval(&vars), Ok(1));
}

#[test]
fn lookup_before_assignment_fails() {
    let vars = Vartable::new();
    match vars.get("F") {
        Err(RenderError::UndefinedVariable(name)) => assert_eq!(name, "F"),
        other => panic!("expected an undefined-variable error, got {:?}", other),
    }
}

#[test]
fn lookup_after_assignment_sees_the_value() {
    let mut vars = Vartable::new();
    vars.set("F".to_string(), 8);
    let e = Expression::Identifier("F".to_string());
    assert_eq!(e.eval(&vars), Ok(8));
}

#[test]
fn assignment_in_stream_binds_for_later_items() {
    let irp = Irp {
        general_spec: vec![],
        stream: vec![
            IrStreamItem::Assignment("F".to_string(), Expression::Number(8)),
            IrStreamItem::Duration(Duration::FlashIdentifier("F".to_string(), Unit::Microseconds)),
        ],
    };
    let vars = Vartable::new();
    assert_eq!(render(&irp, vars), Ok(vec![8u32]));
}

#[test]
fn rebinding_shadows_the_earlier_value() {
    let mut vars = Vartable::new();
    vars.set("D".to_string(), 3);
    vars.set("D".to_string(), 5);
    assert_eq!(vars.get("D"), Ok(5));
}

#[test]
fn empty_stream_renders_an_empty_waveform() {
    let irp = Irp { general_spec: vec![], stream: vec![] };
    assert_eq!(render(&irp, Vartable::new()), Ok(vec![]));
}

#[test]
fn division_by_zero_is_an_arithmetic_fault() {
    let vars = Vartable::new();
    let e = Expression::Divide(num(7), num(0));
    assert!(matches!(e.eval(&vars), Err(RenderError::DivideByZero)));
    let e = Expression::Modulo(num(7), num(0));
    assert!(matches!(e.eval(&vars), Err(RenderError::DivideByZero)));
}

#[test]
fn arithmetic_wraps_at_sixty_four_bits() {
    let vars = Vartable::new();
    let e = Expression::Add(num(i64::MAX), num(1));
    assert_eq!(e.eval(&vars), Ok(i64::MIN));
    let e = Expression::Complement(num(8));
    assert_eq!(e.eval(&vars), Ok(-9));
    let e = Expression::Negative(num(8));
    assert_eq!(e.eval(&vars), Ok(-8));
    let e = Expression::BitwiseXor(num(0b1100), num(0b1010));
    assert_eq!(e.eval(&vars), Ok(0b0110));
}

#[test]
fn undefined_variable_aborts_the_render() {
    let irp = Irp {
        general_spec: vec![],
        stream: vec![IrStreamItem::Duration(Duration::FlashIdentifier(
            "D".to_string(),
            Unit::Microseconds,
        ))],
    };
    let res = render(&irp, Vartable::new());
    assert!(matches!(res, Err(RenderError::UndefinedVariable(_))));
}

#[test]
fn pulses_without_carrier_is_a_unit_fault() {
    let gs = general_spec(&vec![]).unwrap();
    let vars = Vartable::new();
    let d = Duration::FlashConstant(dec(38_000), Unit::Pulses);
    assert!(matches!(d.eval(&vars, &gs), Err(RenderError::NoCarrier)));
}

#[test]
fn pulse_durations_divide_through_the_carrier() {
    let gs = general_spec(&vec![GeneralItem::Frequency(dec(38_000))]).unwrap();
    let vars = Vartable::new();
    let d = Duration::FlashConstant(dec(38_000), Unit::Pulses);
    assert_eq!(d.eval(&vars, &gs), Ok(1));
}

#[test]
fn millisecond_durations_scale_by_a_thousand() {
    let gs = general_spec(&vec![]).unwrap();
    let vars = Vartable::new();
    let d = Duration::FlashConstant(dec(2_000), Unit::Milliseconds);
    assert_eq!(d.eval(&vars, &gs), Ok(2_000));
}

#[test]
fn base_unit_scales_before_the_item_unit() {
    let gs = general_spec(&vec![
        GeneralItem::Frequency(dec(38_000)),
        GeneralItem::Unit(dec(564_000), Unit::Microseconds),
    ])
    .unwrap();
    let vars = Vartable::new();
    let d = Duration::FlashConstant(dec(1_000), Unit::Pulses);
    assert_eq!(d.eval(&vars, &gs), Ok(564 * 1000 / 38_000));
}

#[test]
fn gap_at_leading_position_breaks_alternation() {
    let irp = Irp {
        general_spec: vec![],
        stream: vec![IrStreamItem::Duration(Duration::GapConstant(
            dec(8_000),
            Unit::Microseconds,
        ))],
    };
    let res = render(&irp, Vartable::new());
    assert!(matches!(res, Err(RenderError::NotAlternating)));
}

#[test]
fn oversized_magnitude_is_rejected() {
    let irp = Irp {
        general_spec: vec![],
        stream: vec![IrStreamItem::Duration(Duration::FlashConstant(
            dec(5_000_000_000_000),
            Unit::Microseconds,
        ))],
    };
    let res = render(&irp, Vartable::new());
    assert!(matches!(res, Err(RenderError::DurationTooLarge)));
}

#[test]
fn waveform_alternates_flash_and_gap() {
    let irp = Irp {
        general_spec: vec![GeneralItem::Unit(dec(564_000), Unit::Microseconds)],
        stream: vec![
            IrStreamItem::Duration(Duration::FlashConstant(dec(16_000), Unit::Microseconds)),
            IrStreamItem::Duration(Duration::GapConstant(dec(8_000), Unit::Microseconds)),
            IrStreamItem::Duration(Duration::FlashConstant(dec(1_000), Unit::Microseconds)),
        ],
    };
    assert_eq!(render(&irp, Vartable::new()), Ok(vec![9024u32, 4512, 564]));
}
