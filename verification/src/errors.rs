//! The renderer's error taxonomy.  Every failure is recoverable and is
//! reported to the caller; the renderer itself never panics.

use vstd::prelude::*;

verus! {

/// An error reported by the renderer.
#[derive(Debug, PartialEq)]
pub enum RenderError {
    /// An identifier was read before any assignment bound it.
    UndefinedVariable(String),
    /// Division or modulo by zero during evaluation.
    DivideByZero,
    /// A pulse-count conversion was requested but no carrier is resolved.
    NoCarrier,
    /// Duty cycle declared below one percent.
    DutyCycleTooLow,
    /// Duty cycle declared above ninety-nine percent.
    DutyCycleTooHigh,
    /// Duty cycle declared twice.
    DuplicateDutyCycle,
    /// Carrier frequency declared twice.
    DuplicateCarrier,
    /// Bit order declared twice.
    DuplicateBitOrder,
    /// Base unit declared twice.
    DuplicateUnit,
    /// Base unit declared in pulse form without a carrier declaration.
    PulseUnitWithoutCarrier,
    /// A stream construct the renderer does not yet interpret.
    Unsupported,
    /// The rendered durations do not alternate flash and gap.
    NotAlternating,
    /// A rendered magnitude does not fit the waveform's 32-bit cells.
    DurationTooLarge,
}

/// The mathematical shadow of `RenderError`: identical, except that an
/// identifier is a sequence of characters.  Contracts speak of this type.
pub enum Fault {
    Undefined(Seq<char>),
    DivideByZero,
    NoCarrier,
    DutyCycleTooLow,
    DutyCycleTooHigh,
    DuplicateDutyCycle,
    DuplicateCarrier,
    DuplicateBitOrder,
    DuplicateUnit,
    PulseUnitWithoutCarrier,
    Unsupported,
    NotAlternating,
    DurationTooLarge,
}

impl View for RenderError {
    type V = Fault;

    open spec fn view(&self) -> Fault {
        match self {
            RenderError::UndefinedVariable(s) => Fault::Undefined(s@),
            RenderError::DivideByZero => Fault::DivideByZero,
            RenderError::NoCarrier => Fault::NoCarrier,
            RenderError::DutyCycleTooLow => Fault::DutyCycleTooLow,
            RenderError::DutyCycleTooHigh => Fault::DutyCycleTooHigh,
            RenderError::DuplicateDutyCycle => Fault::DuplicateDutyCycle,
            RenderError::DuplicateCarrier => Fault::DuplicateCarrier,
            RenderError::DuplicateBitOrder => Fault::DuplicateBitOrder,
            RenderError::DuplicateUnit => Fault::DuplicateUnit,
            RenderError::PulseUnitWithoutCarrier => Fault::PulseUnitWithoutCarrier,
            RenderError::Unsupported => Fault::Unsupported,
            RenderError::NotAlternating => Fault::NotAlternating,
            RenderError::DurationTooLarge => Fault::DurationTooLarge,
        }
    }
}

/// The outcome of an evaluation step, as contracts state it: the payload of
/// an executable `Result` with its error taken to its mathematical shadow.
pub open spec fn res_view<T>(r: Result<T, RenderError>) -> Result<T, Fault> {
    match r {
        Ok(v) => Ok(v),
        Err(e) => Err(e@),
    }
}

} // verus!
