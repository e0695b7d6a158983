//! The abstract syntax tree that the renderer consumes.  The grammar that
//! produces it is an external collaborator; the renderer only interprets it.

use vstd::prelude::*;

verus! {

/// A decimal numeral from a protocol source, held in fixed point with three
/// fractional digits: the numeral's value is `thousandths / 1000`.
#[derive(Clone, Copy, Debug)]
pub struct Decimal {
    pub thousandths: i64,
}

/// How a raw duration numeral maps to microseconds.
#[derive(Clone, Copy, Debug)]
pub enum Unit {
    Microseconds,
    Milliseconds,
    Pulses,
}

/// One declaration of the protocol's general-spec header.
#[derive(Clone, Copy, Debug)]
pub enum GeneralItem {
    /// Duty-cycle percentage.
    DutyCycle(Decimal),
    /// Carrier frequency in kilohertz.
    Frequency(Decimal),
    /// Least-significant-bit-first bit order.
    OrderLsb,
    /// Most-significant-bit-first bit order.
    OrderMsb,
    /// Base unit: a numeral together with the unit it is expressed in.
    Unit(Decimal, Unit),
}

/// An arithmetic or bitwise expression over the variable environment.
#[derive(Debug)]
pub enum Expression {
    Number(i64),
    Identifier(String),
    Negative(Box<Expression>),
    Complement(Box<Expression>),
    Add(Box<Expression>, Box<Expression>),
    Subtract(Box<Expression>, Box<Expression>),
    Multiply(Box<Expression>, Box<Expression>),
    Divide(Box<Expression>, Box<Expression>),
    Modulo(Box<Expression>, Box<Expression>),
    BitwiseAnd(Box<Expression>, Box<Expression>),
    BitwiseOr(Box<Expression>, Box<Expression>),
    BitwiseXor(Box<Expression>, Box<Expression>),
}

/// A single flash (IR on) or gap (IR off) declaration.  Constant forms hold
/// a literal numeral; identifier forms read the variable environment at
/// render time.
#[derive(Debug)]
pub enum Duration {
    FlashConstant(Decimal, Unit),
    GapConstant(Decimal, Unit),
    FlashIdentifier(String, Unit),
    GapIdentifier(String, Unit),
}

/// One step of the protocol's instruction stream.
#[derive(Debug)]
pub enum IrStreamItem {
    /// Emit a flash or gap.
    Duration(Duration),
    /// Bind a variable, visible to every later item.
    Assignment(String, Expression),
    /// A bit-field expansion such as `D:8` or `~F:8`: recognised but not yet
    /// rendered; the renderer reports it as an unsupported construct.
    BitField(BitField),
}

/// A bit-field item: a value expression, a length expression, and whether
/// the value is complemented before expansion.
#[derive(Debug)]
pub struct BitField {
    pub complement: bool,
    pub value: Expression,
    pub length: Expression,
}

/// A parsed protocol: the general-spec header and the instruction stream.
#[derive(Debug)]
pub struct Irp {
    pub general_spec: Vec<GeneralItem>,
    pub stream: Vec<IrStreamItem>,
}

} // verus!
