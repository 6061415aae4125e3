//! The object language: expressions, runtime values, environments, reified
//! continuations, and the error taxonomy of the machine.

use vstd::prelude::*;

verus! {

/// Abstract syntax of terms. Variables are identified by name.
#[derive(Debug, PartialEq, Eq)]
pub enum Exp {
    /// A reference to a bound identifier.
    Var(String),
    /// A function abstraction: parameter name and body.
    Lam(String, Box<Exp>),
    /// Function application: callee and argument.
    App(Box<Exp>, Box<Exp>),
    /// An integer literal.
    Int(i32),
    /// A boolean literal.
    Bool(bool),
    /// `Let(binder, value, body)`: desugars to an application of a `Lam`.
    /// The binder position must be a bare `Var` or evaluation fails.
    Let(Box<Exp>, Box<Exp>, Box<Exp>),
    /// `If(guard, then, else)`.
    If(Box<Exp>, Box<Exp>, Box<Exp>),
    /// `Fix(name, fuel, lambda)`: a step-bounded recursive binding. `name` is
    /// bound, in the evaluation environment, to a fixpoint value carrying
    /// `fuel` (an integer expression counting permitted unfoldings) and the
    /// recursive `lambda`.
    Fix(String, Box<Exp>, Box<Exp>),
}

/// Runtime values, distinct from syntax.
#[derive(Debug, PartialEq, Eq)]
pub enum Value {
    /// A lambda term paired with the environment captured at its creation.
    Closure(Box<Exp>, Box<Env>),
    /// An integer literal value.
    Int(i32),
    /// A boolean literal value.
    Bool(bool),
    /// A suspended fixpoint: the bound name, the fuel expression, and the
    /// recursive lambda expression.
    Fix(String, Box<Exp>, Box<Exp>),
}

/// A finite mapping from variable names to values, kept as a linked list of
/// bindings. The most recent binding for a name shadows older ones, so
/// extension behaves as insertion into a map. Environments are immutable
/// snapshots: extension builds a new list head and never mutates what a
/// closure has already captured.
#[derive(Debug, PartialEq, Eq)]
pub enum Env {
    /// The environment with no bindings.
    Empty,
    /// One binding in front of the rest of the environment.
    Bind(String, Value, Box<Env>),
}

impl Exp {
    /// Structure-preserving copy: the result is equal to the original.
    pub fn duplicate(&self) -> (r: Exp)
        ensures
            r == *self,
        decreases *self,
    {
        match self {
            Exp::Var(x) => Exp::Var(x.clone()),
            Exp::Lam(x, t) => Exp::Lam(x.clone(), Box::new((**t).duplicate())),
            Exp::App(t1, t2) => Exp::App(
                Box::new((**t1).duplicate()),
                Box::new((**t2).duplicate()),
            ),
            Exp::Int(n) => Exp::Int(*n),
            Exp::Bool(b) => Exp::Bool(*b),
            Exp::Let(v, t1, t2) => Exp::Let(
                Box::new((**v).duplicate()),
                Box::new((**t1).duplicate()),
                Box::new((**t2).duplicate()),
            ),
            Exp::If(t1, t2, t3) => Exp::If(
                Box::new((**t1).duplicate()),
                Box::new((**t2).duplicate()),
                Box::new((**t3).duplicate()),
            ),
            Exp::Fix(f, n, l) => Exp::Fix(
                f.clone(),
                Box::new((**n).duplicate()),
                Box::new((**l).duplicate()),
            ),
        }
    }
}

impl Value {
    /// Structure-preserving copy: the result is equal to the original.
    pub fn duplicate(&self) -> (r: Value)
        ensures
            r == *self,
        decreases *self,
    {
        match self {
            Value::Closure(t, e) => Value::Closure(
                Box::new((**t).duplicate()),
                Box::new((**e).duplicate()),
            ),
            Value::Int(n) => Value::Int(*n),
            Value::Bool(b) => Value::Bool(*b),
            Value::Fix(f, n, l) => Value::Fix(
                f.clone(),
                Box::new((**n).duplicate()),
                Box::new((**l).duplicate()),
            ),
        }
    }
}

impl Env {
    /// The environment as a finite map from names to values. A binding nearer
    /// the front of the list shadows any older binding of the same name.
    pub open spec fn bindings(self) -> Map<Seq<char>, Value>
        decreases self,
    {
        match self {
            Env::Empty => Map::empty(),
            Env::Bind(x, v, rest) => rest.bindings().insert(x@, v),
        }
    }

    /// Lookup by name: the most recent binding wins, `None` when absent.
    pub open spec fn lookup(self, x: Seq<char>) -> Option<Value>
        decreases self,
    {
        match self {
            Env::Empty => None,
            Env::Bind(y, v, rest) => if y@ == x {
                Some(v)
            } else {
                rest.lookup(x)
            },
        }
    }

    /// `lookup` agrees with the map view `bindings`: it returns exactly the
    /// map's value for a present key and `None` for an absent one.
    pub proof fn lemma_lookup_is_bindings(self, x: Seq<char>)
        ensures
            self.bindings().contains_key(x) ==> self.lookup(x) == Some(
                self.bindings()[x],
            ),
            !self.bindings().contains_key(x) ==> self.lookup(x) is None,
        decreases self,
    {
        match self {
            Env::Empty => {}
            Env::Bind(y, v, rest) => {
                rest.lemma_lookup_is_bindings(x);
            }
        }
    }

    /// Structure-preserving copy: the result is equal to the original.
    pub fn duplicate(&self) -> (r: Env)
        ensures
            r == *self,
        decreases *self,
    {
        match self {
            Env::Empty => Env::Empty,
            Env::Bind(x, v, rest) => Env::Bind(
                x.clone(),
                v.duplicate(),
                Box::new((**rest).duplicate()),
            ),
        }
    }

    /// A new environment in which `x` is bound to `v` in front of `self`.
    pub fn extend(self, x: String, v: Value) -> (r: Env)
        ensures
            r == Env::Bind(x, v, Box::new(self)),
    {
        Env::Bind(x, v, Box::new(self))
    }

    /// Retrieve a copy of the value bound to `x`, or `None` when unbound.
    pub fn get(&self, x: &String) -> (r: Option<Value>)
        ensures
            r == self.lookup(x@),
        decreases *self,
    {
        match self {
            Env::Empty => None,
            Env::Bind(y, v, rest) => if *y == *x {
                Some(v.duplicate())
            } else {
                rest.get(x)
            },
        }
    }
}

/// Why evaluation stopped without a final value. Each variant is a terminal,
/// recoverable outcome carried as data: the machine never aborts the process.
#[derive(Debug, PartialEq, Eq)]
pub enum EvalError {
    /// A variable was looked up against a name absent from the environment.
    UnboundVariable(String),
    /// A fixpoint's fuel position did not hold an integer literal.
    MalformedFixFuel,
    /// A fixpoint's recursive expression was not a lambda.
    MalformedFixBody,
    /// A fixpoint's fuel was decremented below zero.
    RecursionBudgetExceeded,
    /// An `if` guard did not reduce to a boolean.
    IllTypedGuard,
    /// A `let` binder position was not a bare variable.
    MalformedLet,
    /// A reduced lambda reached a continuation frame it cannot satisfy.
    StuckContinuation,
    /// The driver's step bound ran out before a terminal state was reached.
    StepLimitExceeded,
}

impl EvalError {
    /// The diagnostic text of this error.
    pub open spec fn message_view(self) -> Seq<char> {
        match self {
            EvalError::UnboundVariable(x) => "unbound variable: "@ + x@,
            EvalError::MalformedFixFuel => "No int in fix"@,
            EvalError::MalformedFixBody => "No lambda in fix"@,
            EvalError::RecursionBudgetExceeded => "Too many recursions"@,
            EvalError::IllTypedGuard => "No boolean in if clause"@,
            EvalError::MalformedLet => "No variable in let binding"@,
            EvalError::StuckContinuation => "Continuation is wrong for lambda"@,
            EvalError::StepLimitExceeded => "step limit exceeded"@,
        }
    }

    /// Render the diagnostic text of this error.
    pub fn message(&self) -> (r: String)
        ensures
            r@ == self.message_view(),
    {
        match self {
            EvalError::UnboundVariable(x) => {
                let mut m = String::from_str("unbound variable: ");
                m.append(x.as_str());
                m
            }
            EvalError::MalformedFixFuel => String::from_str("No int in fix"),
            EvalError::MalformedFixBody => String::from_str("No lambda in fix"),
            EvalError::RecursionBudgetExceeded => String::from_str("Too many recursions"),
            EvalError::IllTypedGuard => String::from_str("No boolean in if clause"),
            EvalError::MalformedLet => String::from_str("No variable in let binding"),
            EvalError::StuckContinuation => String::from_str(
                "Continuation is wrong for lambda",
            ),
            EvalError::StepLimitExceeded => String::from_str("step limit exceeded"),
        }
    }
}

/// A reified continuation: a linked stack of pending computations. Each frame
/// owns the rest of the stack, so the machine never relies on a host call
/// stack.
#[derive(Debug, PartialEq, Eq)]
pub enum Continuation {
    /// Terminal: evaluation finished successfully; no further work.
    Done,
    /// The callee has been reduced to a value; now evaluate the argument
    /// expression in its captured environment.
    EvalArg(Exp, Env, Box<Continuation>),
    /// The argument has been reduced to a value; bind it as the carried
    /// lambda's parameter and continue in the carried environment.
    Call(Exp, Env, Box<Continuation>),
    /// The guard has been reduced to a boolean; pick one of the two branches
    /// and continue in the carried environment.
    Decide(Exp, Exp, Env, Box<Continuation>),
    /// Terminal: evaluation aborted with a diagnostic.
    Failed(EvalError),
}

} // verus!
