use boolexpr::Expr;

fn var(name: char) -> Expr {
    Expr::Var(name)
}

fn and(l: Expr, r: Expr) -> Expr {
    Expr::And(Box::new(l), Box::new(r))
}

fn or(l: Expr, r: Expr) -> Expr {
    Expr::Or(Box::new(l), Box::new(r))
}

fn not(e: Expr) -> Expr {
    Expr::Not(Box::new(e))
}

fn t() -> Expr {
    Expr::Const(true)
}

fn f() -> Expr {
    Expr::Const(false)
}

/// The truth value of `e` when `x`, `y` and `z` have the given values and
/// every other variable is false.
fn value(e: &Expr, x: bool, y: bool, z: bool) -> bool {
    match e {
        Expr::Var('x') => x,
        Expr::Var('y') => y,
        Expr::Var('z') => z,
        Expr::Var(_) => false,
        Expr::And(l, r) => value(l, x, y, z) && value(r, x, y, z),
        Expr::Or(l, r) => value(l, x, y, z) || value(r, x, y, z),
        Expr::Not(inner) => !value(inner, x, y, z),
        Expr::Const(b) => *b,
    }
}

fn has_constant(e: &Expr) -> bool {
    match e {
        Expr::Var(_) => false,
        Expr::And(l, r) | Expr::Or(l, r) => has_constant(l) || has_constant(r),
        Expr::Not(inner) => has_constant(inner),
        Expr::Const(_) => true,
    }
}

fn samples() -> Vec<Expr> {
    vec![
        var('x'),
        t(),
        f(),
        not(var('x')),
        not(not(t())),
        and(var('x'), var('y')),
        or(var('x'), var('y')),
        and(var('x'), t()),
        and(f(), var('y')),
        or(var('x'), f()),
        or(t(), var('y')),
        and(not(var('x')), or(var('y'), var('z'))),
        or(and(var('x'), f()), var('y')),
        and(or(var('x'), t()), not(and(var('y'), f()))),
        not(or(and(var('x'), var('y')), and(not(var('z')), t()))),
        or(and(var('x'), not(var('x'))), and(var('z'), or(f(), not(f())))),
        and(and(var('x'), var('y')), and(var('z'), not(f()))),
    ]
}

#[test]
fn constants_simplify_to_themselves() {
    assert_eq!(t().simplify(), t());
    assert_eq!(f().simplify(), f());
}

#[test]
fn variable_simplifies_to_itself() {
    assert_eq!(var('v').simplify(), var('v'));
}

#[test]
fn negation_of_a_constant_folds() {
    assert_eq!(not(t()).simplify(), f());
    assert_eq!(not(f()).simplify(), t());
}

#[test]
fn double_negation_of_a_constant_folds() {
    assert_eq!(not(not(f())).simplify(), f());
    assert_eq!(not(not(t())).simplify(), t());
}

#[test]
fn negation_of_a_variable_stays() {
    assert_eq!(not(var('a')).simplify(), not(var('a')));
    assert_eq!(not(not(var('a'))).simplify(), not(not(var('a'))));
}

#[test]
fn negation_wraps_the_simplified_operand() {
    assert_eq!(not(and(t(), var('a'))).simplify(), not(var('a')));
    assert_eq!(not(or(var('a'), t())).simplify(), f());
}

#[test]
fn true_is_the_identity_of_and() {
    for x in samples() {
        assert_eq!(and(t(), x.clone()).simplify(), x.clone().simplify());
        assert_eq!(and(x.clone(), t()).simplify(), x.simplify());
    }
    assert_eq!(and(t(), var('a')).simplify(), var('a'));
    assert_eq!(and(t(), t()).simplify(), t());
}

#[test]
fn false_annihilates_and() {
    for x in samples() {
        assert_eq!(and(f(), x.clone()).simplify(), f());
        assert_eq!(and(x, f()).simplify(), f());
    }
    assert_eq!(and(t(), f()).simplify(), f());
    assert_eq!(and(f(), f()).simplify(), f());
}

#[test]
fn false_is_the_identity_of_or() {
    for x in samples() {
        assert_eq!(or(f(), x.clone()).simplify(), x.clone().simplify());
        assert_eq!(or(x.clone(), f()).simplify(), x.simplify());
    }
    assert_eq!(or(f(), var('a')).simplify(), var('a'));
    assert_eq!(or(f(), f()).simplify(), f());
}

#[test]
fn true_annihilates_or() {
    for x in samples() {
        assert_eq!(or(t(), x.clone()).simplify(), t());
        assert_eq!(or(x, t()).simplify(), t());
    }
    assert_eq!(or(f(), t()).simplify(), t());
    assert_eq!(or(t(), t()).simplify(), t());
}

#[test]
fn or_of_two_remaining_operands_is_rebuilt_as_or() {
    assert_eq!(or(var('a'), var('b')).simplify(), or(var('a'), var('b')));
    assert_eq!(
        or(not(var('a')), and(var('b'), t())).simplify(),
        or(not(var('a')), var('b'))
    );
}

#[test]
fn and_of_two_remaining_operands_is_rebuilt_as_and() {
    assert_eq!(and(var('a'), var('b')).simplify(), and(var('a'), var('b')));
    assert_eq!(
        and(not(var('a')), or(var('b'), f())).simplify(),
        and(not(var('a')), var('b'))
    );
}

#[test]
fn and_of_two_remaining_operands_is_not_turned_into_or() {
    assert_ne!(and(var('a'), var('b')).simplify(), or(var('a'), var('b')));
    let out = and(var('x'), var('y')).simplify();
    assert!(!value(&out, true, false, false));
    assert!(!value(&out, false, true, false));
    assert!(value(&out, true, true, false));
}

#[test]
fn constants_propagate_up_through_several_levels() {
    let e = and(or(var('a'), not(f())), not(and(var('b'), f())));
    assert_eq!(e.simplify(), t());
    let e = or(and(not(t()), var('a')), not(or(var('b'), not(f()))));
    assert_eq!(e.simplify(), f());
}

#[test]
fn tree_without_constants_is_unchanged() {
    let e = or(and(var('a'), not(var('b'))), not(or(var('c'), var('a'))));
    assert_eq!(e.clone().simplify(), e);
}

#[test]
fn absorbed_conjunction_leaves_the_other_disjunct() {
    let out = or(and(var('x'), f()), var('y')).simplify();
    assert_eq!(out, var('y'));
    for x in [false, true] {
        for y in [false, true] {
            assert_eq!(value(&out, x, y, false), y);
        }
    }
}

#[test]
fn truth_table_is_preserved() {
    for e in samples() {
        let out = e.clone().simplify();
        for x in [false, true] {
            for y in [false, true] {
                for z in [false, true] {
                    assert_eq!(value(&out, x, y, z), value(&e, x, y, z));
                }
            }
        }
    }
}

#[test]
fn result_is_a_constant_or_holds_none() {
    for e in samples() {
        let out = e.simplify();
        assert!(matches!(out, Expr::Const(_)) || !has_constant(&out));
    }
}

#[test]
fn closed_tree_folds_to_its_value() {
    let e = or(and(t(), not(t())), not(or(f(), and(t(), f()))));
    let expected = value(&e, false, false, false);
    assert_eq!(e.simplify(), Expr::Const(expected));
    assert!(expected);
}

#[test]
fn no_variable_is_brought_in() {
    let e = or(and(var('x'), f()), and(var('y'), t()));
    let out = e.simplify();
    assert_eq!(out, var('y'));
    assert_eq!(out.free_variable(), Some('y'));
}

#[test]
fn substituting_every_variable_then_simplifying_evaluates() {
    for e in samples() {
        for x in [false, true] {
            for y in [false, true] {
                for z in [false, true] {
                    let closed = e
                        .clone()
                        .guess_variable('x', x)
                        .guess_variable('y', y)
                        .guess_variable('z', z);
                    assert_eq!(closed.simplify(), Expr::Const(value(&e, x, y, z)));
                }
            }
        }
    }
}

#[test]
fn case_split_decides_satisfiability() {
    fn satisfiable(e: Expr) -> bool {
        let e = e.simplify();
        match e.clone().free_variable() {
            None => e == Expr::Const(true),
            Some(v) => {
                satisfiable(e.clone().guess_variable(v, true))
                    || satisfiable(e.guess_variable(v, false))
            }
        }
    }
    assert!(satisfiable(or(var('a'), not(var('a')))));
    assert!(!satisfiable(and(var('a'), not(var('a')))));
    assert!(satisfiable(and(or(var('a'), var('b')), not(var('a')))));
    assert!(!satisfiable(and(and(or(var('a'), var('b')), not(var('a'))), not(var('b')))));
}
