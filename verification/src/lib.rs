//! Renderer for infrared remote-control protocols written in the IRP
//! notation.  Given a parsed protocol definition (general-spec header and
//! instruction stream) and an initial variable environment, the renderer
//! resolves the protocol-wide parameters, evaluates expressions and timing
//! declarations, and produces the waveform as a sequence of microsecond
//! magnitudes ready for a transmitter device.

pub mod arith;
pub mod ast;
pub mod duration;
pub mod errors;
pub mod eval;
pub mod general;
pub mod lirc;
pub mod protocols;
pub mod render;
pub mod vartable;
