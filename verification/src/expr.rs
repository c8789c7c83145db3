//! The expression tree and its evaluator.
//!
//! Evaluation is a post-order traversal producing an optional value:
//! `None` marks a failed evaluation, distinct from any numeric value.
//! Division by zero is the expected failure; it also produces one
//! diagnostic line per occurrence (see [`Expression::evaluate_with_diagnostics`]).
//! Arithmetic is checked: an operation whose exact integer result does not
//! fit in `i64` also evaluates to `None`, so that evaluation is deterministic
//! and never aborts. Remainder by zero likewise evaluates to `None`, though
//! without a diagnostic line: only division reports.

use vstd::prelude::*;
use vstd::string::StringExecFns;

verus! {

/// An arithmetic expression: a leaf integer, a unary operator applied to one
/// subtree, or a binary operator applied to two subtrees. Each node owns its
/// children, so a tree is finite and acyclic by construction.
pub enum Expression {
    Number(i64),
    Unary { operand: Box<Expression>, operation: char },
    Binary { left: Box<Expression>, right: Box<Expression>, operation: char },
}

/// The closed set of binary operator symbols.
pub open spec fn is_binary_op(op: char) -> bool {
    op == '+' || op == '-' || op == '*' || op == '/' || op == '%'
}

/// The value of one binary operation on two already-evaluated operands,
/// or `None` when the operation fails: division or remainder by zero, or a
/// result outside the `i64` range.
pub open spec fn apply_binary(op: char, l: i64, r: i64) -> Option<i64> {
    if op == '+' {
        l.checked_add(r)
    } else if op == '-' {
        l.checked_sub(r)
    } else if op == '*' {
        l.checked_mul(r)
    } else if op == '/' {
        l.checked_div(r)
    } else if op == '%' {
        l.checked_rem(r)
    } else {
        None
    }
}

impl Expression {
    /// Every operator symbol in the tree belongs to its closed set:
    /// negation on unary nodes, one of the five arithmetic symbols on binary
    /// nodes. Any other symbol is a construction defect, not an input the
    /// evaluator accepts.
    pub open spec fn wf(self) -> bool
        decreases self,
    {
        match self {
            Expression::Number(_) => true,
            Expression::Unary { operand, operation } => operation == '-' && operand.wf(),
            Expression::Binary { left, right, operation } => {
                &&& is_binary_op(operation)
                &&& left.wf()
                &&& right.wf()
            },
        }
    }

    /// The value of the tree: post-order, with failure propagating upward
    /// through every enclosing operation.
    pub open spec fn eval(self) -> Option<i64>
        decreases self,
    {
        match self {
            Expression::Number(n) => Some(n),
            Expression::Unary { operand, operation } => {
                if operation == '-' {
                    match operand.eval() {
                        Some(v) => if v == i64::MIN {
                            None
                        } else {
                            Some((-(v as int)) as i64)
                        },
                        None => None,
                    }
                } else {
                    None
                }
            },
            Expression::Binary { left, right, operation } => {
                match (left.eval(), right.eval()) {
                    (Some(l), Some(r)) => apply_binary(operation, l, r),
                    _ => None,
                }
            },
        }
    }

    /// How many division-by-zero diagnostics one evaluation of the tree
    /// emits: one per `/` node whose operands both evaluate and whose right
    /// operand evaluates to zero. Both children of every binary node are
    /// evaluated even when one fails, so reports from either side count.
    pub open spec fn div_zero_reports(self) -> nat
        decreases self,
    {
        match self {
            Expression::Number(_) => 0,
            Expression::Unary { operand, .. } => operand.div_zero_reports(),
            Expression::Binary { left, right, operation } => {
                left.div_zero_reports() + right.div_zero_reports() + (
                if operation == '/' && left.eval() is Some && right.eval() == Some(0i64) {
                    1nat
                } else {
                    0nat
                })
            },
        }
    }
}

/// The diagnostic line reported for each division by zero.
pub open spec fn div_zero_message() -> Seq<char> {
    "Div by 0 is not allowed"@
}

/// Every line in the sequence is the division-by-zero diagnostic.
pub open spec fn all_div_zero_messages(s: Seq<String>) -> bool {
    forall|i: int| 0 <= i < s.len() ==> #[trigger] s[i]@ == div_zero_message()
}

impl Expression {
    /// Whether every operator in the tree belongs to its closed set,
    /// decided at run time: the check a caller makes before evaluating a
    /// tree it did not construct itself.
    pub fn is_wf(&self) -> (b: bool)
        ensures
            b == self.wf(),
        decreases *self,
    {
        match self {
            Expression::Number(_) => true,
            Expression::Unary { operand, operation } => *operation == '-' && operand.is_wf(),
            Expression::Binary { left, right, operation } => (*operation == '+' || *operation
                == '-' || *operation == '*' || *operation == '/' || *operation == '%')
                && left.is_wf() && right.is_wf(),
        }
    }

    /// Evaluates the tree. Returns its value, or `None` exactly when some
    /// operation in it failed (division or remainder by zero, or a result
    /// outside the `i64` range).
    pub fn evaluate(&self) -> (r: Option<i64>)
        requires
            self.wf(),
        ensures
            r == self.eval(),
    {
        let (r, _diagnostics) = self.evaluate_with_diagnostics();
        r
    }

    /// Evaluates the tree and also returns the diagnostic lines the
    /// evaluation produced: one per division by zero encountered, in the
    /// order the traversal meets them.
    pub fn evaluate_with_diagnostics(&self) -> (r: (Option<i64>, Vec<String>))
        requires
            self.wf(),
        ensures
            r.0 == self.eval(),
            r.1@.len() == self.div_zero_reports(),
            all_div_zero_messages(r.1@),
    {
        let mut diagnostics: Vec<String> = Vec::new();
        let r = self.eval_rec(&mut diagnostics);
        (r, diagnostics)
    }

    /// Post-order evaluation, appending one diagnostic line per division by
    /// zero to `diagnostics`.
    fn eval_rec(&self, diagnostics: &mut Vec<String>) -> (r: Option<i64>)
        requires
            self.wf(),
        ensures
            r == self.eval(),
            final(diagnostics)@.len() == old(diagnostics)@.len() + self.div_zero_reports(),
            forall|i: int|
                0 <= i < old(diagnostics)@.len()
                    ==> #[trigger] final(diagnostics)@[i] == old(diagnostics)@[i],
            forall|i: int|
                old(diagnostics)@.len() <= i < final(diagnostics)@.len()
                    ==> #[trigger] final(diagnostics)@[i]@ == div_zero_message(),
        decreases *self,
    {
        match self {
            Expression::Number(n) => Some(*n),
            Expression::Unary { operand, .. } => {
                match operand.eval_rec(diagnostics) {
                    Some(v) => (0i64).checked_sub(v),
                    None => None,
                }
            },
            Expression::Binary { left, right, operation } => {
                let l = left.eval_rec(diagnostics);
                let r = right.eval_rec(diagnostics);
                match (l, r) {
                    (Some(vl), Some(vr)) => {
                        if *operation == '+' {
                            vl.checked_add(vr)
                        } else if *operation == '-' {
                            vl.checked_sub(vr)
                        } else if *operation == '*' {
                            vl.checked_mul(vr)
                        } else if *operation == '/' {
                            if vr == 0 {
                                diagnostics.push(String::from_str("Div by 0 is not allowed"));
                                None
                            } else {
                                vl.checked_div(vr)
                            }
                        } else {
                            vl.checked_rem(vr)
                        }
                    },
                    _ => None,
                }
            },
        }
    }
}

} // verus!
