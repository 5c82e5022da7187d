//! Binding a variable to a truth value throughout a tree.

use vstd::prelude::*;
use crate::expr::Expr;

verus! {

/// The assignment that agrees with `env` everywhere but at `name`, which it
/// sends to `value`.
pub open spec fn bind(env: spec_fn(char) -> bool, name: char, value: bool) -> spec_fn(char) -> bool {
    |c: char| if c == name { value } else { env(c) }
}

impl Expr {
    /// The tree in which every `Var` node named `name` has become
    /// `Const(value)`, and nothing else has changed.
    pub open spec fn substituted(self, name: char, value: bool) -> Expr
        decreases self,
    {
        match self {
            Expr::Var(v) => if v == name { Expr::Const(value) } else { Expr::Var(v) },
            Expr::And(l, r) => Expr::And(
                Box::new(l.substituted(name, value)),
                Box::new(r.substituted(name, value)),
            ),
            Expr::Or(l, r) => Expr::Or(
                Box::new(l.substituted(name, value)),
                Box::new(r.substituted(name, value)),
            ),
            Expr::Not(e) => Expr::Not(Box::new(e.substituted(name, value))),
            Expr::Const(b) => Expr::Const(b),
        }
    }

    /// Replaces every occurrence of the variable `var` by the constant `val`.
    /// Other variables, constants and the shape of the tree stay as they
    /// were, so the result no longer mentions `var`, and a tree that never
    /// mentioned it comes back unchanged. The result evaluates as the input
    /// does once `var` stands for `val`.
    pub fn guess_variable(self, var: char, val: bool) -> (out: Expr)
        ensures
            out == self.substituted(var, val),
            out.variables() == self.variables().filter(|c: char| c != var),
            !out.mentions(var),
            !self.mentions(var) ==> out == self,
            forall|env: spec_fn(char) -> bool| #[trigger]
                out.eval(env) == self.eval(bind(env, var, val)),
        decreases self,
    {
        proof {
            assert forall|env: spec_fn(char) -> bool| #[trigger]
                self.substituted(var, val).eval(env) == self.eval(bind(env, var, val)) by {
                self.lemma_substituted_eval(var, val, env);
            }
            self.lemma_substituted_variables(var, val);
            self.lemma_substituted_forgets(var, val);
            if !self.mentions(var) {
                self.lemma_substituted_absent(var, val);
            }
        }
        match self {
            Expr::Var(v) => {
                if v == var {
                    Expr::Const(val)
                } else {
                    Expr::Var(v)
                }
            },
            Expr::Not(e) => Expr::Not(Box::new((*e).guess_variable(var, val))),
            Expr::And(l, r) => {
                let l = (*l).guess_variable(var, val);
                let r = (*r).guess_variable(var, val);
                Expr::And(Box::new(l), Box::new(r))
            },
            Expr::Or(l, r) => {
                let l = (*l).guess_variable(var, val);
                let r = (*r).guess_variable(var, val);
                Expr::Or(Box::new(l), Box::new(r))
            },
            Expr::Const(b) => Expr::Const(b),
        }
    }

    /// Substitution removes the occurrences of the substituted name from the
    /// sequence of variables and keeps every other occurrence, in order.
    pub proof fn lemma_substituted_variables(self, name: char, value: bool)
        ensures
            self.substituted(name, value).variables() == self.variables().filter(
                |c: char| c != name,
            ),
        decreases self,
    {
        let keep = |c: char| c != name;
        reveal_with_fuel(Seq::filter, 2);
        match self {
            Expr::Var(v) => {
                assert(seq![v].drop_last() =~= Seq::<char>::empty());
                assert(self.variables().filter(keep) =~= self.substituted(name, value).variables());
            },
            Expr::And(l, r) | Expr::Or(l, r) => {
                l.lemma_substituted_variables(name, value);
                r.lemma_substituted_variables(name, value);
                Seq::filter_distributes_over_add(l.variables(), r.variables(), keep);
            },
            Expr::Not(e) => {
                e.lemma_substituted_variables(name, value);
            },
            Expr::Const(_) => {},
        }
    }

    /// After substitution for a name, no `Var` node of that name is left.
    pub proof fn lemma_substituted_forgets(self, name: char, value: bool)
        ensures
            !self.substituted(name, value).mentions(name),
    {
        let kept = self.variables().filter(|c: char| c != name);
        self.lemma_substituted_variables(name, value);
        if kept.contains(name) {
            let i = choose|i: int| 0 <= i < kept.len() && kept[i] == name;
            self.variables().lemma_filter_pred(|c: char| c != name, i);
        }
    }

    /// Substitution for a name that the tree does not mention gives back the
    /// same tree.
    pub proof fn lemma_substituted_absent(self, name: char, value: bool)
        requires
            !self.mentions(name),
        ensures
            self.substituted(name, value) == self,
        decreases self,
    {
        self.lemma_mentions_by_case(name);
        match self {
            Expr::And(l, r) | Expr::Or(l, r) => {
                l.lemma_substituted_absent(name, value);
                r.lemma_substituted_absent(name, value);
            },
            Expr::Not(e) => {
                e.lemma_substituted_absent(name, value);
            },
            Expr::Var(_) | Expr::Const(_) => {},
        }
    }

    /// To evaluate after substitution is to evaluate the tree as it was,
    /// under the assignment that sends the name to the substituted value.
    pub proof fn lemma_substituted_eval(self, name: char, value: bool, env: spec_fn(char) -> bool)
        ensures
            self.substituted(name, value).eval(env) == self.eval(bind(env, name, value)),
        decreases self,
    {
        match self {
            Expr::And(l, r) | Expr::Or(l, r) => {
                l.lemma_substituted_eval(name, value, env);
                r.lemma_substituted_eval(name, value, env);
            },
            Expr::Not(e) => {
                e.lemma_substituted_eval(name, value, env);
            },
            Expr::Var(_) | Expr::Const(_) => {},
        }
    }
}

} // verus!
