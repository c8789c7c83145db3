//! Laws of evaluation, stated and proved over the spec-level model.
//!
//! Determinism of `evaluate` and idempotence of the two renderers are
//! carried by their contracts: each result equals a spec function of the
//! tree alone, so repeated calls on an unchanged tree agree. The laws below
//! state what the contracts do not already say in one clause.

use crate::expr::Expression;
use crate::expr::apply_binary;
use crate::expr::is_binary_op;
use vstd::prelude::*;

verus! {

impl Expression {
    /// `other` occurs in `self`: it is `self` itself or lies in a child.
    pub open spec fn contains(self, other: Expression) -> bool
        decreases self,
    {
        self == other || match self {
            Expression::Number(_) => false,
            Expression::Unary { operand, .. } => operand.contains(other),
            Expression::Binary { left, right, .. } => left.contains(other) || right.contains(
                other,
            ),
        }
    }

    /// No operation in the tree faults: operators are drawn from their
    /// closed sets, no division or remainder divides by zero, and every
    /// intermediate result fits in `i64`.
    pub open spec fn free_of_faults(self) -> bool
        decreases self,
    {
        match self {
            Expression::Number(_) => true,
            Expression::Unary { operand, operation } => {
                &&& operation == '-'
                &&& operand.free_of_faults()
                &&& (operand.eval() matches Some(v) ==> v != i64::MIN)
            },
            Expression::Binary { left, right, operation } => {
                &&& is_binary_op(operation)
                &&& left.free_of_faults()
                &&& right.free_of_faults()
                &&& (left.eval() matches Some(l) ==> (right.eval() matches Some(r)
                    ==> apply_binary(operation, l, r) is Some))
            },
        }
    }
}

/// Law: a tree free of faults is well formed and evaluates to a value, so
/// evaluation is total on such trees; by `evaluate`'s contract that value is
/// a function of the tree alone, so repeated calls agree.
pub proof fn lemma_evaluate_total(e: Expression)
    requires
        e.free_of_faults(),
    ensures
        e.wf(),
        e.eval() is Some,
    decreases e,
{
    match e {
        Expression::Number(_) => {},
        Expression::Unary { operand, .. } => {
            lemma_evaluate_total(*operand);
        },
        Expression::Binary { left, right, .. } => {
            lemma_evaluate_total(*left);
            lemma_evaluate_total(*right);
        },
    }
}

/// Law: failure propagates upward without exception — a tree containing any
/// subtree that evaluates to no value itself evaluates to no value, however
/// deeply the subtree is nested.
pub proof fn lemma_failure_propagates(e: Expression, sub: Expression)
    requires
        e.contains(sub),
        sub.eval() is None,
    ensures
        e.eval() is None,
    decreases e,
{
    if e != sub {
        match e {
            Expression::Number(_) => {},
            Expression::Unary { operand, .. } => {
                lemma_failure_propagates(*operand, sub);
            },
            Expression::Binary { left, right, .. } => {
                if left.contains(sub) {
                    lemma_failure_propagates(*left, sub);
                } else {
                    lemma_failure_propagates(*right, sub);
                }
            },
        }
    }
}

/// Law: a division node whose divisor evaluates to zero evaluates to no
/// value, whatever its left operand does.
pub proof fn lemma_division_by_zero_is_none(e: Expression)
    requires
        e matches Expression::Binary { left, right, operation } && operation == '/'
            && right.eval() == Some(0i64),
    ensures
        e.eval() is None,
{
}

/// Law: a number leaf evaluates to its own value, for every value.
pub proof fn lemma_number_evaluates(n: i64)
    ensures
        Expression::Number(n).eval() == Some(n),
{
}

/// Law: negating a number leaf evaluates to the arithmetic negation. The
/// one excluded value is the minimum `i64`, whose negation does not fit.
pub proof fn lemma_negation_evaluates(n: i64)
    requires
        n != i64::MIN,
    ensures
        (Expression::Unary {
            operand: Box::new(Expression::Number(n)),
            operation: '-',
        }).eval() == Some((-n) as i64),
{
    assert(Expression::Number(n).eval() == Some(n));
}

} // verus!
