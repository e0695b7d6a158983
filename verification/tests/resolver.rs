use irp_render::ast::{Decimal, GeneralItem, Unit};
use irp_render::errors::RenderError;
use irp_render::general::general_spec;
use irp_render::lirc::{
    can_send, can_set_send_carrier, can_set_send_duty_cycle, can_set_send_transmitter_mask,
    duty_cycle_in_range, pack_waveform,
};

fn dec(thousandths: i64) -> Decimal {
    Decimal { thousandths }
}

#[test]
fn duty_cycle_half_percent_is_too_low() {
    let r = general_spec(&vec![GeneralItem::DutyCycle(dec(500))]);
    assert_eq!(r, Err(RenderError::DutyCycleTooLow));
}

#[test]
fn duty_cycle_hundred_percent_is_too_high() {
    let r = general_spec(&vec![GeneralItem::DutyCycle(dec(100_000))]);
    assert_eq!(r, Err(RenderError::DutyCycleTooHigh));
}

#[test]
fn duty_cycle_bounds_resolve() {
    let low = general_spec(&vec![GeneralItem::DutyCycle(dec(1_000))]).unwrap();
    assert_eq!(low.duty_cycle, Some(1));
    let high = general_spec(&vec![GeneralItem::DutyCycle(dec(99_000))]).unwrap();
    assert_eq!(high.duty_cycle, Some(99));
    let mid = general_spec(&vec![GeneralItem::DutyCycle(dec(33_000))]).unwrap();
    assert_eq!(mid.duty_cycle, Some(33));
}

#[test]
fn second_duty_cycle_is_a_duplicate_even_when_invalid() {
    let r = general_spec(&vec![
        GeneralItem::DutyCycle(dec(40_000)),
        GeneralItem::DutyCycle(dec(50_000)),
    ]);
    assert_eq!(r, Err(RenderError::DuplicateDutyCycle));
    let r = general_spec(&vec![
        GeneralItem::DutyCycle(dec(40_000)),
        GeneralItem::DutyCycle(dec(100_000)),
    ]);
    assert_eq!(r, Err(RenderError::DuplicateDutyCycle));
}

#[test]
fn second_carrier_is_a_duplicate() {
    let r = general_spec(&vec![
        GeneralItem::Frequency(dec(38_000)),
        GeneralItem::Frequency(dec(40_000)),
    ]);
    assert_eq!(r, Err(RenderError::DuplicateCarrier));
}

#[test]
fn second_bit_order_is_a_duplicate() {
    let r = general_spec(&vec![GeneralItem::OrderLsb, GeneralItem::OrderMsb]);
    assert_eq!(r, Err(RenderError::DuplicateBitOrder));
}

#[test]
fn second_unit_is_a_duplicate() {
    let r = general_spec(&vec![
        GeneralItem::Unit(dec(564_000), Unit::Microseconds),
        GeneralItem::Unit(dec(1_000), Unit::Milliseconds),
    ]);
    assert_eq!(r, Err(RenderError::DuplicateUnit));
}

#[test]
fn pulse_unit_without_carrier_fails() {
    let r = general_spec(&vec![GeneralItem::Unit(dec(1_000), Unit::Pulses)]);
    assert_eq!(r, Err(RenderError::PulseUnitWithoutCarrier));
}

#[test]
fn carrier_is_declared_kilohertz_times_a_thousand() {
    let gs = general_spec(&vec![GeneralItem::Frequency(dec(38_000))]).unwrap();
    assert_eq!(gs.carrier, Some(38_000));
    let gs = general_spec(&vec![GeneralItem::Frequency(dec(38_400))]).unwrap();
    assert_eq!(gs.carrier, Some(38_400));
}

#[test]
fn pulse_unit_with_carrier_resolves_exactly() {
    let gs = general_spec(&vec![
        GeneralItem::Frequency(dec(38_000)),
        GeneralItem::Unit(dec(1_000), Unit::Pulses),
    ])
    .unwrap();
    assert_eq!(gs.unit_num, 1_000);
    assert_eq!(gs.unit_den, 38_000);
}

#[test]
fn carrier_declared_after_pulse_unit_still_counts() {
    let gs = general_spec(&vec![
        GeneralItem::Unit(dec(1_000), Unit::Pulses),
        GeneralItem::Frequency(dec(38_000)),
    ])
    .unwrap();
    assert_eq!(gs.unit_num, 1_000);
    assert_eq!(gs.unit_den, 38_000);
}

#[test]
fn millisecond_unit_scales_by_a_thousand() {
    let gs = general_spec(&vec![GeneralItem::Unit(dec(1_500), Unit::Milliseconds)]).unwrap();
    assert_eq!(gs.unit_num, 1_500);
    assert_eq!(gs.unit_den, 1);
}

#[test]
fn defaults_without_declarations() {
    let gs = general_spec(&vec![]).unwrap();
    assert_eq!(gs.duty_cycle, None);
    assert_eq!(gs.carrier, None);
    assert!(gs.lsb);
    assert_eq!(gs.unit_num, 1);
    assert_eq!(gs.unit_den, 1);
}

#[test]
fn bit_order_declarations_resolve() {
    let gs = general_spec(&vec![GeneralItem::OrderMsb]).unwrap();
    assert!(!gs.lsb);
    let gs = general_spec(&vec![GeneralItem::OrderLsb]).unwrap();
    assert!(gs.lsb);
}

#[test]
fn resolving_twice_yields_identical_specs() {
    let items = vec![
        GeneralItem::DutyCycle(dec(33_000)),
        GeneralItem::Frequency(dec(38_000)),
        GeneralItem::OrderMsb,
        GeneralItem::Unit(dec(1_000), Unit::Pulses),
    ];
    let first = general_spec(&items).unwrap();
    let second = general_spec(&items).unwrap();
    assert_eq!(first, second);
}

#[test]
fn odd_waveform_sends_every_record() {
    let bytes = pack_waveform(&vec![1, 2, 3]);
    assert_eq!(bytes.len(), 3 * 4);
    let bytes = pack_waveform(&vec![9024]);
    assert_eq!(bytes.len(), 4);
}

#[test]
fn even_waveform_trims_the_final_record() {
    let bytes = pack_waveform(&vec![1, 2, 3, 4]);
    assert_eq!(bytes.len(), (4 - 1) * 4);
    let bytes = pack_waveform(&vec![9024, 4512]);
    assert_eq!(bytes.len(), 4);
}

#[test]
fn waveform_bytes_are_least_significant_first() {
    let bytes = pack_waveform(&vec![0x0102_0304, 0x1122_3344, 5]);
    assert_eq!(
        bytes,
        vec![0x04, 0x03, 0x02, 0x01, 0x44, 0x33, 0x22, 0x11, 5, 0, 0, 0]
    );
}

#[test]
fn feature_bits_decode() {
    assert!(can_send(2));
    assert!(!can_send(0x100));
    assert!(can_set_send_carrier(0x100));
    assert!(!can_set_send_carrier(2));
    assert!(can_set_send_duty_cycle(0x200));
    assert!(!can_set_send_duty_cycle(0x400));
    assert!(can_set_send_transmitter_mask(0x400));
    assert!(!can_set_send_transmitter_mask(0x200));
}

#[test]
fn duty_cycle_range_for_the_device() {
    assert!(!duty_cycle_in_range(1));
    assert!(duty_cycle_in_range(2));
    assert!(duty_cycle_in_range(99));
    assert!(!duty_cycle_in_range(100));
}
