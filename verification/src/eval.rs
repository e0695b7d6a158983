//! The expression evaluator: arithmetic and bitwise expression trees
//! evaluated against a variable environment, with two's-complement 64-bit
//! semantics and truncating division.

use vstd::prelude::*;
use vstd::wrapping::i64_specs;

use crate::arith::{div_i64, div_wrap, rem_i64, rem_wrap};
use crate::ast::Expression;
use crate::errors::{res_view, Fault, RenderError};
use crate::vartable::Vartable;

verus! {

/// The value of an expression under an environment: a numeral is itself, an
/// identifier reads the environment, operators combine operand values with
/// two's-complement 64-bit semantics, and division or modulo by zero is an
/// arithmetic fault.  Operands evaluate left to right; the first fault wins.
pub open spec fn eval_expr(e: Expression, env: Map<Seq<char>, i64>) -> Result<i64, Fault>
    decreases e,
{
    match e {
        Expression::Number(n) => Ok(n),
        Expression::Identifier(id) => if env.dom().contains(id@) {
            Ok(env[id@])
        } else {
            Err(Fault::Undefined(id@))
        },
        Expression::Negative(sub) => match eval_expr(*sub, env) {
            Ok(v) => Ok(i64_specs::wrapping_sub(0, v)),
            Err(f) => Err(f),
        },
        Expression::Complement(sub) => match eval_expr(*sub, env) {
            Ok(v) => Ok(!v),
            Err(f) => Err(f),
        },
        Expression::Add(l, r) => match eval_expr(*l, env) {
            Ok(a) => match eval_expr(*r, env) {
                Ok(b) => Ok(i64_specs::wrapping_add(a, b)),
                Err(f) => Err(f),
            },
            Err(f) => Err(f),
        },
        Expression::Subtract(l, r) => match eval_expr(*l, env) {
            Ok(a) => match eval_expr(*r, env) {
                Ok(b) => Ok(i64_specs::wrapping_sub(a, b)),
                Err(f) => Err(f),
            },
            Err(f) => Err(f),
        },
        Expression::Multiply(l, r) => match eval_expr(*l, env) {
            Ok(a) => match eval_expr(*r, env) {
                Ok(b) => Ok(i64_specs::wrapping_mul(a, b)),
                Err(f) => Err(f),
            },
            Err(f) => Err(f),
        },
        Expression::Divide(l, r) => match eval_expr(*l, env) {
            Ok(a) => match eval_expr(*r, env) {
                Ok(b) => if b == 0 {
                    Err(Fault::DivideByZero)
                } else {
                    Ok(div_wrap(a, b))
                },
                Err(f) => Err(f),
            },
            Err(f) => Err(f),
        },
        Expression::Modulo(l, r) => match eval_expr(*l, env) {
            Ok(a) => match eval_expr(*r, env) {
                Ok(b) => if b == 0 {
                    Err(Fault::DivideByZero)
                } else {
                    Ok(rem_wrap(a, b))
                },
                Err(f) => Err(f),
            },
            Err(f) => Err(f),
        },
        Expression::BitwiseAnd(l, r) => match eval_expr(*l, env) {
            Ok(a) => match eval_expr(*r, env) {
                Ok(b) => Ok(a & b),
                Err(f) => Err(f),
            },
            Err(f) => Err(f),
        },
        Expression::BitwiseOr(l, r) => match eval_expr(*l, env) {
            Ok(a) => match eval_expr(*r, env) {
                Ok(b) => Ok(a | b),
                Err(f) => Err(f),
            },
            Err(f) => Err(f),
        },
        Expression::BitwiseXor(l, r) => match eval_expr(*l, env) {
            Ok(a) => match eval_expr(*r, env) {
                Ok(b) => Ok(a ^ b),
                Err(f) => Err(f),
            },
            Err(f) => Err(f),
        },
    }
}

/// Reading an identifier from an environment no assignment has touched is
/// reported as an undefined variable, whatever the identifier.
pub proof fn lemma_lookup_before_assignment(id: String)
    ensures
        eval_expr(Expression::Identifier(id), Map::empty()) == Err::<i64, Fault>(
            Fault::Undefined(id@),
        ),
{
}

/// After an identifier is bound, reading it yields the bound value.
pub proof fn lemma_lookup_after_assignment(id: String, v: i64, env: Map<Seq<char>, i64>)
    ensures
        eval_expr(Expression::Identifier(id), env.insert(id@, v)) == Ok::<i64, Fault>(v),
{
}

impl Expression {
    /// Evaluates the expression against the environment, exactly as
    /// `eval_expr` states it.
    pub fn eval(&self, vars: &Vartable) -> (r: Result<i64, RenderError>)
        ensures
            res_view(r) == eval_expr(*self, vars@),
        decreases *self,
    {
        match self {
            Expression::Number(n) => Ok(*n),
            Expression::Identifier(id) => vars.get(id.as_str()),
            Expression::Negative(sub) => match sub.eval(vars) {
                Ok(v) => Ok((0i64).wrapping_sub(v)),
                Err(e) => Err(e),
            },
            Expression::Complement(sub) => match sub.eval(vars) {
                Ok(v) => Ok(!v),
                Err(e) => Err(e),
            },
            Expression::Add(l, r) => {
                let a = match l.eval(vars) {
                    Ok(v) => v,
                    Err(e) => return Err(e),
                };
                let b = match r.eval(vars) {
                    Ok(v) => v,
                    Err(e) => return Err(e),
                };
                Ok(a.wrapping_add(b))
            },
            Expression::Subtract(l, r) => {
                let a = match l.eval(vars) {
                    Ok(v) => v,
                    Err(e) => return Err(e),
                };
                let b = match r.eval(vars) {
                    Ok(v) => v,
                    Err(e) => return Err(e),
                };
                Ok(a.wrapping_sub(b))
            },
            Expression::Multiply(l, r) => {
                let a = match l.eval(vars) {
                    Ok(v) => v,
                    Err(e) => return Err(e),
                };
                let b = match r.eval(vars) {
                    Ok(v) => v,
                    Err(e) => return Err(e),
                };
                Ok(a.wrapping_mul(b))
            },
            Expression::Divide(l, r) => {
                let a = match l.eval(vars) {
                    Ok(v) => v,
                    Err(e) => return Err(e),
                };
                let b = match r.eval(vars) {
                    Ok(v) => v,
                    Err(e) => return Err(e),
                };
                if b == 0 {
                    Err(RenderError::DivideByZero)
                } else {
                    Ok(div_i64(a, b))
                }
            },
            Expression::Modulo(l, r) => {
                let a = match l.eval(vars) {
                    Ok(v) => v,
                    Err(e) => return Err(e),
                };
                let b = match r.eval(vars) {
                    Ok(v) => v,
                    Err(e) => return Err(e),
                };
                if b == 0 {
                    Err(RenderError::DivideByZero)
                } else {
                    Ok(rem_i64(a, b))
                }
            },
            Expression::BitwiseAnd(l, r) => {
                let a = match l.eval(vars) {
                    Ok(v) => v,
                    Err(e) => return Err(e),
                };
                let b = match r.eval(vars) {
                    Ok(v) => v,
                    Err(e) => return Err(e),
                };
                Ok(a & b)
            },
            Expression::BitwiseOr(l, r) => {
                let a = match l.eval(vars) {
                    Ok(v) => v,
                    Err(e) => return Err(e),
                };
                let b = match r.eval(vars) {
                    Ok(v) => v,
                    Err(e) => return Err(e),
                };
                Ok(a | b)
            },
            Expression::BitwiseXor(l, r) => {
                let a = match l.eval(vars) {
                    Ok(v) => v,
                    Err(e) => return Err(e),
                };
                let b = match r.eval(vars) {
                    Ok(v) => v,
                    Err(e) => return Err(e),
                };
                Ok(a ^ b)
            },
        }
    }
}

} // verus!
