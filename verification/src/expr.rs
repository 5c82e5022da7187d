//! The expression tree, what it denotes, and the query for its first
//! variable.

use vstd::prelude::*;

verus! {

/// A propositional formula. Each composite node owns its operands, so a value
/// is a finite tree.
#[derive(Debug, Eq)]
pub enum Expr {
    /// An atomic proposition, known by its name alone.
    Var(char),
    /// The conjunction of two formulas.
    And(Box<Expr>, Box<Expr>),
    /// The disjunction of two formulas.
    Or(Box<Expr>, Box<Expr>),
    /// The negation of a formula.
    Not(Box<Expr>),
    /// A fixed truth value.
    Const(bool),
}

impl PartialEq for Expr {
    /// Whether the two trees have the same shape and the same leaves.
    fn eq(&self, other: &Expr) -> (same: bool)
        decreases self,
    {
        match (self, other) {
            (Expr::Var(a), Expr::Var(b)) => *a == *b,
            (Expr::And(a, b), Expr::And(c, d)) => (&**a).eq(&**c) && (&**b).eq(&**d),
            (Expr::Or(a, b), Expr::Or(c, d)) => (&**a).eq(&**c) && (&**b).eq(&**d),
            (Expr::Not(a), Expr::Not(b)) => (&**a).eq(&**b),
            (Expr::Const(a), Expr::Const(b)) => *a == *b,
            _ => false,
        }
    }
}

impl vstd::std_specs::cmp::PartialEqSpecImpl for Expr {
    open spec fn obeys_eq_spec() -> bool {
        true
    }

    /// In contracts, `==` on trees is equality of the trees as values.
    open spec fn eq_spec(&self, other: &Expr) -> bool {
        *self == *other
    }
}

impl Clone for Expr {
    /// A copy of the whole tree.
    fn clone(&self) -> (copy: Self)
        ensures
            copy == *self,
        decreases self,
    {
        match self {
            Expr::Var(v) => Expr::Var(*v),
            Expr::And(l, r) => Expr::And(Box::new((&**l).clone()), Box::new((&**r).clone())),
            Expr::Or(l, r) => Expr::Or(Box::new((&**l).clone()), Box::new((&**r).clone())),
            Expr::Not(e) => Expr::Not(Box::new((&**e).clone())),
            Expr::Const(b) => Expr::Const(*b),
        }
    }
}

impl Expr {
    /// The variable occurrences of the tree, read from left to right. A name
    /// that occurs several times is listed once per occurrence.
    pub open spec fn variables(self) -> Seq<char>
        decreases self,
    {
        match self {
            Expr::Var(v) => seq![v],
            Expr::And(l, r) => l.variables() + r.variables(),
            Expr::Or(l, r) => l.variables() + r.variables(),
            Expr::Not(e) => e.variables(),
            Expr::Const(_) => Seq::empty(),
        }
    }

    /// Whether a `Var` node named `name` stands anywhere in the tree.
    pub open spec fn mentions(self, name: char) -> bool {
        self.variables().contains(name)
    }

    /// Whether the tree holds no `Var` node at all.
    pub open spec fn is_closed(self) -> bool {
        self.variables().len() == 0
    }

    /// The truth value of the formula when each variable `v` stands for
    /// `env(v)`.
    pub open spec fn eval(self, env: spec_fn(char) -> bool) -> bool
        decreases self,
    {
        match self {
            Expr::Var(v) => env(v),
            Expr::And(l, r) => l.eval(env) && r.eval(env),
            Expr::Or(l, r) => l.eval(env) || r.eval(env),
            Expr::Not(e) => !e.eval(env),
            Expr::Const(b) => b,
        }
    }

    /// The leftmost variable of the tree, if it has one.
    pub open spec fn first_variable(self) -> Option<char> {
        if self.variables().len() == 0 {
            None
        } else {
            Some(self.variables()[0])
        }
    }

    /// What `mentions` says at each kind of node: a variable mentions its own
    /// name, a constant none, and a composite node what its operands mention.
    pub proof fn lemma_mentions_by_case(self, name: char)
        ensures
            match self {
                Expr::Var(v) => self.mentions(name) <==> v == name,
                Expr::And(l, r) => self.mentions(name) <==> l.mentions(name) || r.mentions(name),
                Expr::Or(l, r) => self.mentions(name) <==> l.mentions(name) || r.mentions(name),
                Expr::Not(e) => self.mentions(name) <==> e.mentions(name),
                Expr::Const(_) => !self.mentions(name),
            },
    {
        match self {
            Expr::Var(v) => {
                assert(seq![v][0] == v);
            },
            Expr::And(l, r) | Expr::Or(l, r) => {
                let (a, b) = (l.variables(), r.variables());
                if a.contains(name) {
                    let i = choose|i: int| 0 <= i < a.len() && a[i] == name;
                    assert((a + b)[i] == name);
                }
                if b.contains(name) {
                    let i = choose|i: int| 0 <= i < b.len() && b[i] == name;
                    assert((a + b)[a.len() + i] == name);
                }
                if (a + b).contains(name) {
                    let i = choose|i: int| 0 <= i < (a + b).len() && (a + b)[i] == name;
                    if i < a.len() {
                        assert(a[i] == name);
                    } else {
                        assert(b[i - a.len()] == name);
                    }
                }
            },
            Expr::Not(_) | Expr::Const(_) => {},
        }
    }

    /// The truth value depends only on the variables that the tree mentions:
    /// two assignments that agree on them give the same value.
    pub proof fn lemma_eval_agrees(self, env: spec_fn(char) -> bool, other: spec_fn(char) -> bool)
        requires
            forall|name: char| self.mentions(name) ==> env(name) == other(name),
        ensures
            self.eval(env) == self.eval(other),
        decreases self,
    {
        match self {
            Expr::Var(v) => {
                self.lemma_mentions_by_case(v);
            },
            Expr::And(l, r) | Expr::Or(l, r) => {
                assert forall|name: char| l.mentions(name) implies env(name) == other(name) by {
                    self.lemma_mentions_by_case(name);
                }
                assert forall|name: char| r.mentions(name) implies env(name) == other(name) by {
                    self.lemma_mentions_by_case(name);
                }
                l.lemma_eval_agrees(env, other);
                r.lemma_eval_agrees(env, other);
            },
            Expr::Not(e) => {
                assert forall|name: char| e.mentions(name) implies env(name) == other(name) by {
                    self.lemma_mentions_by_case(name);
                }
                e.lemma_eval_agrees(env, other);
            },
            Expr::Const(_) => {},
        }
    }

    /// Returns the name of the leftmost `Var` node, or `None` for a tree
    /// without variables. The left operand of a binary node is searched
    /// before the right one, and the first name found wins.
    pub fn free_variable(self) -> (found: Option<char>)
        ensures
            found == self.first_variable(),
            found is None <==> self.is_closed(),
            found matches Some(v) ==> self.mentions(v),
        decreases self,
    {
        match self {
            Expr::Var(v) => Some(v),
            Expr::Const(_) => None,
            Expr::Not(e) => (*e).free_variable(),
            Expr::And(l, r) => {
                match (*l).free_variable() {
                    Some(v) => Some(v),
                    None => (*r).free_variable(),
                }
            },
            Expr::Or(l, r) => {
                match (*l).free_variable() {
                    Some(v) => Some(v),
                    None => (*r).free_variable(),
                }
            },
        }
    }
}

} // verus!
