//! Tree-diagram rendering: a multi-line, indented branch drawing, one node
//! per line, in pre-order, left child before right child.
//!
//! The root is printed bare. Every other node is prefixed by `level - 1`
//! copies of the continuation marker `"| "`, then `"└─ "` when it is the
//! last (or only) child of its parent and `"├─ "` when it is the left child
//! of a binary node. A number's label is its value; an operator node's label
//! is its symbol. Every line ends in a newline.

use crate::expr::Expression;
use crate::infix::char_text;
use crate::numfmt::int_text;
use crate::numfmt::push_int_text;
use vstd::prelude::*;
use vstd::string::StringExecFns;

verus! {

/// `n` copies of the continuation marker `"| "`.
pub open spec fn bars(n: nat) -> Seq<char>
    decreases n,
{
    if n == 0 {
        Seq::<char>::empty()
    } else {
        bars((n - 1) as nat) + seq!['|', ' ']
    }
}

/// The prefix of a node printed at `level`: nothing for the root, otherwise
/// `level - 1` continuation markers and the branch marker.
pub open spec fn branch_prefix(level: nat, last: bool) -> Seq<char> {
    if level == 0 {
        Seq::<char>::empty()
    } else {
        bars((level - 1) as nat) + (if last {
            seq!['└', '─', ' ']
        } else {
            seq!['├', '─', ' ']
        })
    }
}

impl Expression {
    /// The label printed for this node: a number's value, or an operator
    /// node's symbol.
    pub open spec fn label(self) -> Seq<char> {
        match self {
            Expression::Number(n) => int_text(n as int),
            Expression::Unary { operation, .. } => seq![operation],
            Expression::Binary { operation, .. } => seq![operation],
        }
    }

    /// The height of the tree: zero for a leaf.
    pub open spec fn height(self) -> nat
        decreases self,
    {
        match self {
            Expression::Number(_) => 0,
            Expression::Unary { operand, .. } => operand.height() + 1,
            Expression::Binary { left, right, .. } => 1 + (if left.height() >= right.height() {
                left.height()
            } else {
                right.height()
            }),
        }
    }

    /// The diagram text of the subtree rooted here, printed at `level`,
    /// `last` saying whether this node is the last child of its parent.
    pub open spec fn tree_lines(self, level: nat, last: bool) -> Seq<char>
        decreases self,
    {
        branch_prefix(level, last) + self.label() + seq!['\n'] + (match self {
            Expression::Number(_) => Seq::<char>::empty(),
            Expression::Unary { operand, .. } => operand.tree_lines(level + 1, true),
            Expression::Binary { left, right, .. } => left.tree_lines(level + 1, false)
                + right.tree_lines(level + 1, true),
        })
    }

    /// Renders the tree as its indented branch diagram. The bound on the
    /// height only keeps the indentation counter within the machine word; no
    /// tree that fits in memory comes near it.
    pub fn tree(&self) -> (s: String)
        requires
            self.height() <= usize::MAX,
        ensures
            s@ == self.tree_lines(0, true),
    {
        let mut s = String::new();
        self.tree_rec(0, true, &mut s);
        proof {
            assert(s@ =~= self.tree_lines(0, true));
        }
        s
    }

    /// Appends the diagram text of the subtree rooted here to `out`.
    #[verifier::rlimit(50)]
    fn tree_rec(&self, level: usize, last: bool, out: &mut String)
        requires
            level + self.height() <= usize::MAX,
        ensures
            final(out)@ == old(out)@ + self.tree_lines(level as nat, last),
        decreases *self,
    {
        proof {
            reveal_strlit("└─ ");
            reveal_strlit("├─ ");
            reveal_strlit("\n");
        }
        if level > 0 {
            let mut i: usize = 1;
            while i < level
                invariant
                    1 <= i <= level,
                    out@ == old(out)@ + bars((i - 1) as nat),
                decreases level - i,
            {
                out.append("| ");
                proof {
                    reveal_strlit("| ");
                    assert(out@ =~= old(out)@ + bars(i as nat));
                }
                i = i + 1;
            }
            if last {
                out.append("└─ ");
            } else {
                out.append("├─ ");
            }
        }
        proof {
            assert(out@ =~= old(out)@ + branch_prefix(level as nat, last));
        }
        let ghost prefixed = out@;
        match self {
            Expression::Number(n) => {
                push_int_text(*n, out);
                out.append("\n");
                proof {
                    assert(out@ =~= prefixed + self.label() + seq!['\n']);
                    assert(out@ =~= old(out)@ + self.tree_lines(level as nat, last));
                }
            },
            Expression::Unary { operand, operation } => {
                out.append(char_text(*operation).as_str());
                out.append("\n");
                proof {
                    assert(out@ =~= prefixed + self.label() + seq!['\n']);
                }
                let ghost headed = out@;
                operand.tree_rec(level + 1, true, out);
                proof {
                    assert(out@ == headed + operand.tree_lines(level as nat + 1, true));
                    assert(out@ =~= old(out)@ + self.tree_lines(level as nat, last));
                }
            },
            Expression::Binary { left, right, operation } => {
                out.append(char_text(*operation).as_str());
                out.append("\n");
                proof {
                    assert(out@ =~= prefixed + self.label() + seq!['\n']);
                }
                let ghost headed = out@;
                left.tree_rec(level + 1, false, out);
                right.tree_rec(level + 1, true, out);
                proof {
                    assert(out@ == headed + left.tree_lines(level as nat + 1, false)
                        + right.tree_lines(level as nat + 1, true));
                    assert(out@ =~= old(out)@ + self.tree_lines(level as nat, last));
                }
            },
        }
    }
}

} // verus!
