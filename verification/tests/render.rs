use expr_tree::expr::Expression;

#[test]
fn render_two_leaves_has_no_parentheses() {
    let exp = Expression::Binary {
        left: Box::new(Expression::Number(10)),
        right: Box::new(Expression::Number(20)),
        operation: '+',
    };
    assert_eq!(exp.render(), "10 + 20");
}

#[test]
fn render_binary_left_of_leaf() {
    let exp = Expression::Binary {
        left: Box::new(Expression::Binary {
            left: Box::new(Expression::Number(10)),
            right: Box::new(Expression::Number(20)),
            operation: '+',
        }),
        right: Box::new(Expression::Number(30)),
        operation: '*',
    };
    assert_eq!(exp.render(), "(10 + 20) * 30");
}

#[test]
fn render_leaf_of_binary_right() {
    let exp = Expression::Binary {
        left: Box::new(Expression::Number(10)),
        right: Box::new(Expression::Binary {
            left: Box::new(Expression::Number(20)),
            right: Box::new(Expression::Number(30)),
            operation: '*',
        }),
        operation: '+',
    };
    assert_eq!(exp.render(), "10 + (20 * 30)");
}

#[test]
fn render_unary_left_of_leaf() {
    let exp = Expression::Binary {
        left: Box::new(Expression::Unary {
            operand: Box::new(Expression::Number(10)),
            operation: '-',
        }),
        right: Box::new(Expression::Number(2)),
        operation: '/',
    };
    assert_eq!(exp.render(), "(-10) / 2");
}

#[test]
fn render_leaf_of_unary_right() {
    let exp = Expression::Binary {
        left: Box::new(Expression::Number(2)),
        right: Box::new(Expression::Unary {
            operand: Box::new(Expression::Number(10)),
            operation: '-',
        }),
        operation: '%',
    };
    assert_eq!(exp.render(), "2 % (-10)");
}

#[test]
fn render_two_compound_children_parenthesizes_both() {
    let exp = Expression::Binary {
        left: Box::new(Expression::Binary {
            left: Box::new(Expression::Number(1)),
            right: Box::new(Expression::Number(2)),
            operation: '+',
        }),
        right: Box::new(Expression::Binary {
            left: Box::new(Expression::Number(3)),
            right: Box::new(Expression::Number(4)),
            operation: '-',
        }),
        operation: '*',
    };
    assert_eq!(exp.render(), "(1 + 2) * (3 - 4)");
}

#[test]
fn render_unary_of_compound_operand() {
    let exp = Expression::Unary {
        operand: Box::new(Expression::Binary {
            left: Box::new(Expression::Number(10)),
            right: Box::new(Expression::Number(20)),
            operation: '+',
        }),
        operation: '-',
    };
    assert_eq!(exp.render(), "-(10 + 20)");
}

#[test]
fn render_negative_number() {
    assert_eq!(Expression::Number(-5).render(), "-5");
    assert_eq!(Expression::Number(0).render(), "0");
    assert_eq!(
        Expression::Number(i64::MIN).render(),
        "-9223372036854775808"
    );
    assert_eq!(Expression::Number(i64::MAX).render(), "9223372036854775807");
}

#[test]
fn render_reference_tree() {
    let exp = Expression::Binary {
        left: Box::new(Expression::Binary {
            left: Box::new(Expression::Binary {
                left: Box::new(Expression::Binary {
                    left: Box::new(Expression::Unary {
                        operand: Box::new(Expression::Binary {
                            left: Box::new(Expression::Number(10)),
                            right: Box::new(Expression::Number(20)),
                            operation: '+',
                        }),
                        operation: '-',
                    }),
                    right: Box::new(Expression::Number(30)),
                    operation: '+',
                }),
                right: Box::new(Expression::Number(40)),
                operation: '+',
            }),
            right: Box::new(Expression::Binary {
                left: Box::new(Expression::Number(50)),
                right: Box::new(Expression::Number(60)),
                operation: '+',
            }),
            operation: '+',
        }),
        right: Box::new(Expression::Unary {
            operand: Box::new(Expression::Number(5)),
            operation: '-',
        }),
        operation: '*',
    };
    assert_eq!(
        exp.render(),
        "((((-(10 + 20)) + 30) + 40) + (50 + 60)) * (-5)"
    );
}

#[test]
fn render_is_idempotent() {
    let exp = Expression::Binary {
        left: Box::new(Expression::Unary {
            operand: Box::new(Expression::Number(8)),
            operation: '-',
        }),
        right: Box::new(Expression::Binary {
            left: Box::new(Expression::Number(3)),
            right: Box::new(Expression::Number(4)),
            operation: '+',
        }),
        operation: '*',
    };
    assert_eq!(exp.render(), exp.render());
}

#[test]
fn tree_single_number() {
    assert_eq!(Expression::Number(7).tree(), "7\n");
}

#[test]
fn tree_nested_diagram() {
    let exp = Expression::Binary {
        left: Box::new(Expression::Binary {
            left: Box::new(Expression::Number(10)),
            right: Box::new(Expression::Number(20)),
            operation: '+',
        }),
        right: Box::new(Expression::Number(30)),
        operation: '*',
    };
    assert_eq!(exp.tree(), "*\n├─ +\n| ├─ 10\n| └─ 20\n└─ 30\n");
}

#[test]
fn tree_unary_operand_is_last_child() {
    let exp = Expression::Unary {
        operand: Box::new(Expression::Number(5)),
        operation: '-',
    };
    assert_eq!(exp.tree(), "-\n└─ 5\n");
}

#[test]
fn tree_deep_prefix_uses_continuation_markers() {
    let exp = Expression::Binary {
        left: Box::new(Expression::Unary {
            operand: Box::new(Expression::Binary {
                left: Box::new(Expression::Number(1)),
                right: Box::new(Expression::Number(2)),
                operation: '+',
            }),
            operation: '-',
        }),
        right: Box::new(Expression::Number(3)),
        operation: '/',
    };
    assert_eq!(
        exp.tree(),
        "/\n├─ -\n| └─ +\n| | ├─ 1\n| | └─ 2\n└─ 3\n"
    );
}

#[test]
fn tree_is_idempotent() {
    let exp = Expression::Binary {
        left: Box::new(Expression::Number(1)),
        right: Box::new(Expression::Unary {
            operand: Box::new(Expression::Number(2)),
            operation: '-',
        }),
        operation: '-',
    };
    assert_eq!(exp.tree(), exp.tree());
}
