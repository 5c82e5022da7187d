//! One bottom-up pass of constant folding.
//!
//! A constant operand of a conjunction or disjunction is either the
//! identity of the operation, which is dropped, or its annihilator, which
//! decides the whole node. Two operands that both stay are joined again by
//! the connective they came from: a conjunction stays a conjunction, so the
//! pass never changes the truth table of a formula.

use vstd::prelude::*;
use crate::expr::Expr;

verus! {

/// The negation of an already simplified operand: a constant is flipped,
/// anything else is wrapped in `Not`.
pub open spec fn negation_of(e: Expr) -> Expr {
    match e {
        Expr::Const(b) => Expr::Const(!b),
        _ => Expr::Not(Box::new(e)),
    }
}

/// The conjunction of two already simplified operands. `Const(true)` is
/// dropped; if `Const(false)` stands on either side, it is the result; with
/// no operand left the result is `Const(true)`, with one left it is that
/// operand, and with two it is their `And`.
pub open spec fn conjunction_of(l: Expr, r: Expr) -> Expr {
    if l == Expr::Const(false) || r == Expr::Const(false) {
        Expr::Const(false)
    } else if l == Expr::Const(true) {
        r
    } else if r == Expr::Const(true) {
        l
    } else {
        Expr::And(Box::new(l), Box::new(r))
    }
}

/// The disjunction of two already simplified operands. `Const(false)` is
/// dropped; if `Const(true)` stands on either side, it is the result; with
/// no operand left the result is `Const(false)`, with one left it is that
/// operand, and with two it is their `Or`.
pub open spec fn disjunction_of(l: Expr, r: Expr) -> Expr {
    if l == Expr::Const(true) || r == Expr::Const(true) {
        Expr::Const(true)
    } else if l == Expr::Const(false) {
        r
    } else if r == Expr::Const(false) {
        l
    } else {
        Expr::Or(Box::new(l), Box::new(r))
    }
}

/// The operands of a binary node that are left once every operand equal to
/// `Const(identity)` has been dropped, in their order.
pub open spec fn remaining(l: Expr, r: Expr, identity: bool) -> Seq<Expr> {
    seq![l, r].filter(|e: Expr| e != Expr::Const(identity))
}

/// What a binary node becomes, given the operands that are left after its
/// identity was dropped: the annihilator if it is among them, else the
/// identity if none is left, the operand itself if one is left, and the node
/// rebuilt from both if two are left. The identity tells the connective:
/// `true` is that of `And`, `false` that of `Or`.
pub open spec fn rebuilt(kept: Seq<Expr>, identity: bool) -> Expr {
    if kept.contains(Expr::Const(!identity)) {
        Expr::Const(!identity)
    } else if kept.len() == 0 {
        Expr::Const(identity)
    } else if kept.len() == 1 {
        kept[0]
    } else if identity {
        Expr::And(Box::new(kept[0]), Box::new(kept[1]))
    } else {
        Expr::Or(Box::new(kept[0]), Box::new(kept[1]))
    }
}

/// What is left of two operands after dropping an identity: both, the one
/// that is not the identity, or nothing. Never more than two operands are
/// left.
pub proof fn lemma_remaining(l: Expr, r: Expr, identity: bool)
    ensures
        remaining(l, r, identity) == if l == Expr::Const(identity) {
            if r == Expr::Const(identity) {
                Seq::<Expr>::empty()
            } else {
                seq![r]
            }
        } else {
            if r == Expr::Const(identity) {
                seq![l]
            } else {
                seq![l, r]
            }
        },
        remaining(l, r, identity).len() <= 2,
{
    let keep = |e: Expr| e != Expr::Const(identity);
    let both = seq![l, r];
    reveal_with_fuel(Seq::filter, 3);
    assert(both.drop_last() =~= seq![l]);
    assert(seq![l].drop_last() =~= Seq::<Expr>::empty());
    assert(seq![l].filter(keep) =~= if keep(l) {
        seq![l]
    } else {
        Seq::<Expr>::empty()
    });
    assert(both.filter(keep) =~= if keep(l) {
        if keep(r) {
            seq![l, r]
        } else {
            seq![l]
        }
    } else {
        if keep(r) {
            seq![r]
        } else {
            Seq::<Expr>::empty()
        }
    });
}

/// `conjunction_of` is what dropping every `Const(true)` and rebuilding from
/// the rest gives.
pub proof fn lemma_conjunction_by_remaining(l: Expr, r: Expr)
    ensures
        conjunction_of(l, r) == rebuilt(remaining(l, r, true), true),
{
    lemma_remaining(l, r, true);
    lemma_contains_of_remaining(l, r, true);
}

/// `disjunction_of` is what dropping every `Const(false)` and rebuilding from
/// the rest gives.
pub proof fn lemma_disjunction_by_remaining(l: Expr, r: Expr)
    ensures
        disjunction_of(l, r) == rebuilt(remaining(l, r, false), false),
{
    lemma_remaining(l, r, false);
    lemma_contains_of_remaining(l, r, false);
}

/// The annihilator is among the remaining operands exactly if it is one of
/// the two operands.
proof fn lemma_contains_of_remaining(l: Expr, r: Expr, identity: bool)
    ensures
        remaining(l, r, identity).contains(Expr::Const(!identity)) <==> l == Expr::Const(!identity)
            || r == Expr::Const(!identity),
{
    lemma_remaining(l, r, identity);
    let kept = remaining(l, r, identity);
    let zero = Expr::Const(!identity);
    if l == zero {
        assert(kept[0] == zero);
    } else if r == zero {
        assert(kept[kept.len() - 1] == zero);
    }
}

impl Expr {
    /// The tree after one pass of constant folding from the leaves up.
    pub open spec fn simplified(self) -> Expr
        decreases self,
    {
        match self {
            Expr::Var(v) => Expr::Var(v),
            Expr::And(l, r) => conjunction_of(l.simplified(), r.simplified()),
            Expr::Or(l, r) => disjunction_of(l.simplified(), r.simplified()),
            Expr::Not(e) => negation_of(e.simplified()),
            Expr::Const(b) => Expr::Const(b),
        }
    }

    /// Whether no `Const` node stands anywhere in the tree.
    pub open spec fn is_constant_free(self) -> bool
        decreases self,
    {
        match self {
            Expr::Var(_) => true,
            Expr::And(l, r) => l.is_constant_free() && r.is_constant_free(),
            Expr::Or(l, r) => l.is_constant_free() && r.is_constant_free(),
            Expr::Not(e) => e.is_constant_free(),
            Expr::Const(_) => false,
        }
    }

    /// Folds the constants of the tree in one pass from the leaves up.
    ///
    /// Leaves stay as they are. `Not` of a constant becomes the opposite
    /// constant. In `And`, an operand `Const(true)` is dropped and an operand
    /// `Const(false)` makes the node `Const(false)`; in `Or` the two constants
    /// change roles. A node that keeps both operands is rebuilt with its own
    /// connective. The result has the truth value of the input under every
    /// assignment, mentions no variable that the input does not mention, and
    /// is either a single constant or a tree without constants.
    pub fn simplify(self) -> (out: Expr)
        ensures
            out == self.simplified(),
            forall|env: spec_fn(char) -> bool| #[trigger] out.eval(env) == self.eval(env),
            forall|name: char| #[trigger] out.mentions(name) ==> self.mentions(name),
            out is Const || out.is_constant_free(),
            self.is_closed() ==> out is Const,
        decreases self,
    {
        proof {
            assert forall|env: spec_fn(char) -> bool| #[trigger]
                self.simplified().eval(env) == self.eval(env) by {
                self.lemma_simplified_eval(env);
            }
            assert forall|name: char| #[trigger]
                self.simplified().mentions(name) implies self.mentions(name) by {
                self.lemma_simplified_mentions(name);
            }
            self.lemma_simplified_form();
            if self.is_closed() {
                self.lemma_simplified_closed();
            }
        }
        match self {
            Expr::Const(b) => Expr::Const(b),
            Expr::Var(v) => Expr::Var(v),
            Expr::Not(e) => {
                match (*e).simplify() {
                    Expr::Const(b) => Expr::Const(!b),
                    e => Expr::Not(Box::new(e)),
                }
            },
            Expr::Or(l, r) => {
                let l = (*l).simplify();
                let r = (*r).simplify();
                match (l, r) {
                    (Expr::Const(true), _) => Expr::Const(true),
                    (_, Expr::Const(true)) => Expr::Const(true),
                    (Expr::Const(false), r) => r,
                    (l, Expr::Const(false)) => l,
                    (l, r) => Expr::Or(Box::new(l), Box::new(r)),
                }
            },
            Expr::And(l, r) => {
                let l = (*l).simplify();
                let r = (*r).simplify();
                match (l, r) {
                    (Expr::Const(false), _) => Expr::Const(false),
                    (_, Expr::Const(false)) => Expr::Const(false),
                    (Expr::Const(true), r) => r,
                    (l, Expr::Const(true)) => l,
                    (l, r) => Expr::And(Box::new(l), Box::new(r)),
                }
            },
        }
    }

    /// Simplification keeps the truth value under every assignment.
    pub proof fn lemma_simplified_eval(self, env: spec_fn(char) -> bool)
        ensures
            self.simplified().eval(env) == self.eval(env),
        decreases self,
    {
        match self {
            Expr::And(l, r) | Expr::Or(l, r) => {
                l.lemma_simplified_eval(env);
                r.lemma_simplified_eval(env);
            },
            Expr::Not(e) => {
                e.lemma_simplified_eval(env);
            },
            Expr::Var(_) | Expr::Const(_) => {},
        }
    }

    /// Simplification brings in no variable: a name that the result mentions
    /// is mentioned by the input.
    pub proof fn lemma_simplified_mentions(self, name: char)
        ensures
            self.simplified().mentions(name) ==> self.mentions(name),
        decreases self,
    {
        self.lemma_mentions_by_case(name);
        self.simplified().lemma_mentions_by_case(name);
        match self {
            Expr::And(l, r) | Expr::Or(l, r) => {
                l.lemma_simplified_mentions(name);
                r.lemma_simplified_mentions(name);
                l.simplified().lemma_mentions_by_case(name);
                r.simplified().lemma_mentions_by_case(name);
            },
            Expr::Not(e) => {
                e.lemma_simplified_mentions(name);
                e.simplified().lemma_mentions_by_case(name);
            },
            Expr::Var(_) | Expr::Const(_) => {},
        }
    }

    /// A simplified tree is a single constant, or holds no constant at all.
    pub proof fn lemma_simplified_form(self)
        ensures
            self.simplified() is Const || self.simplified().is_constant_free(),
        decreases self,
    {
        match self {
            Expr::And(l, r) | Expr::Or(l, r) => {
                l.lemma_simplified_form();
                r.lemma_simplified_form();
            },
            Expr::Not(e) => {
                e.lemma_simplified_form();
            },
            Expr::Var(_) | Expr::Const(_) => {},
        }
    }

    /// A tree without variables folds to a single constant.
    pub proof fn lemma_simplified_closed(self)
        requires
            self.is_closed(),
        ensures
            self.simplified() is Const,
        decreases self,
    {
        match self {
            Expr::And(l, r) | Expr::Or(l, r) => {
                l.lemma_simplified_closed();
                r.lemma_simplified_closed();
            },
            Expr::Not(e) => {
                e.lemma_simplified_closed();
            },
            Expr::Var(_) | Expr::Const(_) => {},
        }
    }

    /// A tree without constants simplifies to itself.
    pub proof fn lemma_simplified_constant_free(self)
        requires
            self.is_constant_free(),
        ensures
            self.simplified() == self,
        decreases self,
    {
        reveal_with_fuel(Expr::is_constant_free, 2);
        match self {
            Expr::And(l, r) | Expr::Or(l, r) => {
                l.lemma_simplified_constant_free();
                r.lemma_simplified_constant_free();
            },
            Expr::Not(e) => {
                e.lemma_simplified_constant_free();
            },
            Expr::Var(_) | Expr::Const(_) => {},
        }
    }

    /// A second pass over a simplified tree changes nothing.
    pub proof fn lemma_simplified_twice(self)
        ensures
            self.simplified().simplified() == self.simplified(),
    {
        self.lemma_simplified_form();
        if self.simplified().is_constant_free() {
            self.simplified().lemma_simplified_constant_free();
        }
    }

    /// `true` is the identity of `And`: with it as an operand, the node
    /// simplifies to what the right operand simplifies to.
    pub proof fn lemma_and_true(self)
        ensures
            Expr::And(Box::new(Expr::Const(true)), Box::new(self)).simplified()
                == self.simplified(),
            Expr::And(Box::new(self), Box::new(Expr::Const(true))).simplified()
                == self.simplified(),
    {
        reveal_with_fuel(Expr::simplified, 2);
    }

    /// `false` annihilates `And`: with it as an operand, the node simplifies
    /// to `Const(false)`.
    pub proof fn lemma_and_false(self)
        ensures
            Expr::And(Box::new(Expr::Const(false)), Box::new(self)).simplified() == Expr::Const(
                false,
            ),
            Expr::And(Box::new(self), Box::new(Expr::Const(false))).simplified() == Expr::Const(
                false,
            ),
    {
        reveal_with_fuel(Expr::simplified, 2);
    }

    /// `false` is the identity of `Or`: with it as an operand, the node
    /// simplifies to what the other operand simplifies to.
    pub proof fn lemma_or_false(self)
        ensures
            Expr::Or(Box::new(Expr::Const(false)), Box::new(self)).simplified()
                == self.simplified(),
            Expr::Or(Box::new(self), Box::new(Expr::Const(false))).simplified()
                == self.simplified(),
    {
        reveal_with_fuel(Expr::simplified, 2);
    }

    /// `true` annihilates `Or`: with it as an operand, the node simplifies to
    /// `Const(true)`.
    pub proof fn lemma_or_true(self)
        ensures
            Expr::Or(Box::new(Expr::Const(true)), Box::new(self)).simplified() == Expr::Const(
                true,
            ),
            Expr::Or(Box::new(self), Box::new(Expr::Const(true))).simplified() == Expr::Const(
                true,
            ),
    {
        reveal_with_fuel(Expr::simplified, 2);
    }
}

} // verus!
