//! Infix rendering: one line, operators set off by single spaces, with the
//! fixed structural parenthesization policy:
//!
//! - two leaf children render bare, `left OP right`;
//! - a binary or unary child paired with a leaf is parenthesized alone;
//! - in every other combination both children are parenthesized;
//! - a unary node renders as `-` followed by its operand, parenthesized
//!   unless the operand is a leaf.
//!
//! The policy is structural, not precedence-driven, and is reproduced
//! exactly, asymmetry included.

use crate::expr::Expression;
use crate::numfmt::int_text;
use crate::numfmt::push_int_text;
use vstd::prelude::*;
use vstd::string::StringExecFns;

verus! {

/// `s` wrapped in one pair of parentheses.
pub open spec fn parenthesized(s: Seq<char>) -> Seq<char> {
    seq!['('] + s + seq![')']
}

/// An operator symbol set off by one space on each side.
pub open spec fn spaced(op: char) -> Seq<char> {
    seq![' ', op, ' ']
}

impl Expression {
    /// A leaf: a number with no children.
    pub open spec fn is_leaf(self) -> bool {
        self is Number
    }

    /// The infix text of the tree under the structural parenthesization
    /// policy. Rendering is total: every tree has exactly one rendering.
    pub open spec fn rendered(self) -> Seq<char>
        decreases self,
    {
        match self {
            Expression::Number(n) => int_text(n as int),
            Expression::Unary { operand, .. } => seq!['-'] + (if operand.is_leaf() {
                operand.rendered()
            } else {
                parenthesized(operand.rendered())
            }),
            Expression::Binary { left, right, operation } => {
                if left.is_leaf() && right.is_leaf() {
                    left.rendered() + spaced(operation) + right.rendered()
                } else if (*left) is Binary && right.is_leaf() {
                    parenthesized(left.rendered()) + spaced(operation) + right.rendered()
                } else if left.is_leaf() && (*right) is Binary {
                    left.rendered() + spaced(operation) + parenthesized(right.rendered())
                } else if (*left) is Unary && right.is_leaf() {
                    parenthesized(left.rendered()) + spaced(operation) + right.rendered()
                } else if left.is_leaf() && (*right) is Unary {
                    left.rendered() + spaced(operation) + parenthesized(right.rendered())
                } else {
                    parenthesized(left.rendered()) + spaced(operation) + parenthesized(
                        right.rendered(),
                    )
                }
            },
        }
    }

    /// Whether this node is a leaf, decided at run time.
    fn leaf(&self) -> (b: bool)
        ensures
            b == self.is_leaf(),
    {
        match self {
            Expression::Number(_) => true,
            _ => false,
        }
    }

    /// Renders the tree as its infix line.
    pub fn render(&self) -> (s: String)
        ensures
            s@ == self.rendered(),
    {
        let mut s = String::new();
        self.render_rec(&mut s);
        proof {
            assert(s@ =~= self.rendered());
        }
        s
    }

    /// Appends the infix text of the tree to `out`.
    fn render_rec(&self, out: &mut String)
        ensures
            final(out)@ == old(out)@ + self.rendered(),
        decreases *self,
    {
        proof {
            reveal_strlit("-");
            reveal_strlit("(");
            reveal_strlit(")");
            reveal_strlit(" ");
        }
        match self {
            Expression::Number(n) => {
                push_int_text(*n, out);
            },
            Expression::Unary { operand, .. } => {
                out.append("-");
                if operand.leaf() {
                    operand.render_rec(out);
                } else {
                    out.append("(");
                    operand.render_rec(out);
                    out.append(")");
                }
                proof {
                    assert(out@ =~= old(out)@ + self.rendered());
                }
            },
            Expression::Binary { left, right, operation } => {
                let left_parens = !left.leaf();
                let right_parens = !right.leaf();
                if left_parens {
                    out.append("(");
                }
                left.render_rec(out);
                if left_parens {
                    out.append(")");
                }
                out.append(" ");
                out.append(char_text(*operation).as_str());
                out.append(" ");
                if right_parens {
                    out.append("(");
                }
                right.render_rec(out);
                if right_parens {
                    out.append(")");
                }
                proof {
                    assert(out@ =~= old(out)@ + self.rendered());
                }
            },
        }
    }
}

/// Relies on `char`'s `ToString` (through its `Display` impl): the returned
/// string holds exactly that one character.
#[verifier::external_body]
pub(crate) fn char_text(c: char) -> (r: String)
    ensures
        r@ == seq![c],
{
    c.to_string()
}

} // verus!
