//! The single-step transition function of the machine.
//!
//! `step_spec` is the transition relation written as a total spec function;
//! its rules are tried in order of pattern specificity, and the most specific
//! match wins. `step` is the executable transition, proved to return exactly
//! `step_spec` of its input, which makes the machine total and deterministic
//! by contract.

use vstd::prelude::*;

use crate::ast::Continuation;
use crate::ast::Env;
use crate::ast::EvalError;
use crate::ast::Exp;
use crate::ast::Value;

verus! {

/// A machine state: the control expression, the environment it is evaluated
/// in, and the continuation holding all pending work. A state whose
/// continuation is `Done` or `Failed` is terminal: the driver stops there.
#[derive(Debug, PartialEq, Eq)]
pub struct State {
    /// The expression under evaluation.
    pub control: Exp,
    /// The bindings in effect for `control`.
    pub env: Env,
    /// The pending work, outermost frame first.
    pub cont: Continuation,
}

/// The transition for a `Var` control: look the name up and either jump into
/// the bound closure, reify a bound literal back into control, or unfold a
/// bound fixpoint when its fuel, less one, is still non-negative.
pub open spec fn step_var_spec(x: String, env: Env, cont: Continuation) -> State {
    match env.lookup(x@) {
        None => State {
            control: Exp::Var(x),
            env,
            cont: Continuation::Failed(EvalError::UnboundVariable(x)),
        },
        Some(v) => match v {
            Value::Closure(t, e2) => State { control: *t, env: *e2, cont },
            Value::Int(n) => State { control: Exp::Int(n), env, cont },
            Value::Bool(b) => State { control: Exp::Bool(b), env, cont },
            Value::Fix(f, fuel, l) => match *fuel {
                Exp::Int(i) => if i >= 1 {
                    State { control: *l, env, cont }
                } else {
                    State {
                        control: Exp::Var(x),
                        env,
                        cont: Continuation::Failed(EvalError::RecursionBudgetExceeded),
                    }
                },
                _ => State {
                    control: Exp::Var(x),
                    env,
                    cont: Continuation::Failed(EvalError::MalformedFixFuel),
                },
            },
        },
    }
}

/// The transition for a `Lam` control: switch to the argument under an
/// `EvalArg` frame, bind the parameter of a `Call` frame's lambda to a
/// closure over the current environment, and fail on any other frame.
pub open spec fn step_lam_spec(x: String, t: Box<Exp>, env: Env, cont: Continuation) -> State {
    match cont {
        Continuation::EvalArg(t2, e2, k) => State {
            control: t2,
            env: e2,
            cont: Continuation::Call(Exp::Lam(x, t), env, k),
        },
        Continuation::Call(lam, e1, k) => match lam {
            Exp::Lam(x1, t1) => State {
                control: *t1,
                env: Env::Bind(
                    x1,
                    Value::Closure(Box::new(Exp::Lam(x, t)), Box::new(env)),
                    Box::new(e1),
                ),
                cont: *k,
            },
            _ => State {
                control: Exp::Lam(x, t),
                env,
                cont: Continuation::Failed(EvalError::StuckContinuation),
            },
        },
        _ => State {
            control: Exp::Lam(x, t),
            env,
            cont: Continuation::Failed(EvalError::StuckContinuation),
        },
    }
}

/// The transition for an `Int` control: bind it as the parameter of a `Call`
/// frame's lambda, fail on a `Decide` frame, and otherwise terminate cleanly
/// carrying the literal as the final answer.
pub open spec fn step_int_spec(n: i32, env: Env, cont: Continuation) -> State {
    match cont {
        Continuation::Call(lam, e1, k) => match lam {
            Exp::Lam(x1, t1) => State {
                control: *t1,
                env: Env::Bind(x1, Value::Int(n), Box::new(e1)),
                cont: *k,
            },
            _ => State { control: Exp::Int(n), env, cont: Continuation::Done },
        },
        Continuation::Decide(t2, t3, e2, k) => State {
            control: Exp::Int(n),
            env,
            cont: Continuation::Failed(EvalError::IllTypedGuard),
        },
        _ => State { control: Exp::Int(n), env, cont: Continuation::Done },
    }
}

/// The transition for a `Bool` control: bind it as the parameter of a `Call`
/// frame's lambda, pick the branch of a `Decide` frame, and otherwise
/// terminate cleanly carrying the literal as the final answer.
pub open spec fn step_bool_spec(b: bool, env: Env, cont: Continuation) -> State {
    match cont {
        Continuation::Call(lam, e1, k) => match lam {
            Exp::Lam(x1, t1) => State {
                control: *t1,
                env: Env::Bind(x1, Value::Bool(b), Box::new(e1)),
                cont: *k,
            },
            _ => State { control: Exp::Bool(b), env, cont: Continuation::Done },
        },
        Continuation::Decide(t2, t3, e2, k) => if b {
            State { control: t2, env: e2, cont: *k }
        } else {
            State { control: t3, env: e2, cont: *k }
        },
        _ => State { control: Exp::Bool(b), env, cont: Continuation::Done },
    }
}

/// The transition for a `Fix` control: a `Decide` frame claims the control
/// first and fails as a non-boolean guard; otherwise, when the recursive
/// expression is a lambda, bind the fixpoint's name to a suspended fixpoint
/// value and continue with the lambda's body, else fail.
pub open spec fn step_fix_spec(
    f: String,
    fuel: Box<Exp>,
    l: Box<Exp>,
    env: Env,
    cont: Continuation,
) -> State {
    match cont {
        Continuation::Decide(t2, t3, e2, k) => State {
            control: Exp::Fix(f, fuel, l),
            env,
            cont: Continuation::Failed(EvalError::IllTypedGuard),
        },
        _ => match *l {
            Exp::Lam(xp, t) => State {
                control: *t,
                env: Env::Bind(f, Value::Fix(f, fuel, l), Box::new(env)),
                cont,
            },
            _ => State {
                control: Exp::Fix(f, fuel, l),
                env,
                cont: Continuation::Failed(EvalError::MalformedFixBody),
            },
        },
    }
}

/// One transition of the machine: a total function from states to states.
/// Illegal configurations map to a `Failed` continuation, never outside the
/// domain. The rules are tried in this order, most specific pattern first:
/// variable lookup; application; lambda against its frames; integer and
/// boolean against their frames (a `Decide` frame claims any remaining
/// control before the fixpoint rule does); `let` desugaring; conditionals;
/// fixpoint introduction; and finally clean termination of a literal.
pub open spec fn step_spec(s: State) -> State {
    match s {
        State { control, env, cont } => match control {
            Exp::Var(x) => step_var_spec(x, env, cont),
            Exp::App(t1, t2) => State {
                control: *t1,
                env,
                cont: Continuation::EvalArg(*t2, env, Box::new(cont)),
            },
            Exp::Lam(x, t) => step_lam_spec(x, t, env, cont),
            Exp::Int(n) => step_int_spec(n, env, cont),
            Exp::Bool(b) => step_bool_spec(b, env, cont),
            Exp::Let(v, t1, t2) => match *v {
                Exp::Var(x) => State {
                    control: *t1,
                    env,
                    cont: Continuation::Call(Exp::Lam(x, t2), env, Box::new(cont)),
                },
                _ => State {
                    control: Exp::Let(v, t1, t2),
                    env,
                    cont: Continuation::Failed(EvalError::MalformedLet),
                },
            },
            Exp::If(t1, t2, t3) => State {
                control: *t1,
                env,
                cont: Continuation::Decide(*t2, *t3, env, Box::new(cont)),
            },
            Exp::Fix(f, fuel, l) => step_fix_spec(f, fuel, l, env, cont),
        },
    }
}

/// Determinism: the transition is a pure function of the state alone, so any
/// two results that `step` may return for equal input states are equal.
pub proof fn lemma_step_deterministic(s1: State, s2: State, r1: State, r2: State)
    requires
        s1 == s2,
        call_ensures(step, (s1,), r1),
        call_ensures(step, (s2,), r2),
    ensures
        r1 == r2,
{
}

/// The size of an expression tree, counting every node.
spec fn exp_size(e: Exp) -> nat
    decreases e,
{
    match e {
        Exp::Var(_) => 1,
        Exp::Lam(_, t) => 1 + exp_size(*t),
        Exp::App(t1, t2) => 1 + exp_size(*t1) + exp_size(*t2),
        Exp::Int(_) => 1,
        Exp::Bool(_) => 1,
        Exp::Let(v, t1, t2) => 1 + exp_size(*v) + exp_size(*t1) + exp_size(*t2),
        Exp::If(t1, t2, t3) => 1 + exp_size(*t1) + exp_size(*t2) + exp_size(*t3),
        Exp::Fix(_, fuel, l) => 1 + exp_size(*fuel) + exp_size(*l),
    }
}

/// The number of frames on a continuation stack.
spec fn cont_size(k: Continuation) -> nat
    decreases k,
{
    match k {
        Continuation::Done => 0,
        Continuation::Failed(_) => 0,
        Continuation::EvalArg(_, _, rest) => 1 + cont_size(*rest),
        Continuation::Call(_, _, rest) => 1 + cont_size(*rest),
        Continuation::Decide(_, _, _, rest) => 1 + cont_size(*rest),
    }
}

/// The one family of states whose transition reproduces the state itself:
/// the control is a variable whose binding hands evaluation straight back to
/// it — a closure over this very variable and environment, or a fixpoint
/// with fuel to spare whose recursive expression is this very variable.
pub open spec fn lookup_reenters(s: State) -> bool {
    match s.control {
        Exp::Var(x) => match s.env.lookup(x@) {
            Some(v) => match v {
                Value::Closure(t, e2) => *t == s.control && *e2 == s.env,
                Value::Fix(_, fuel, l) => *l == s.control && match *fuel {
                    Exp::Int(i) => i >= 1,
                    _ => false,
                },
                _ => false,
            },
            None => false,
        },
        _ => false,
    }
}

/// The excluded states are genuinely stationary: a re-entering lookup hands
/// back the very state it was made in, whatever the continuation.
pub proof fn lemma_reentering_lookup_is_fixed(s: State)
    requires
        lookup_reenters(s),
    ensures
        step_spec(s) == s,
{
}

/// Progress: from a state with pending work (continuation neither `Done` nor
/// `Failed`) the transition moves — the next state differs from the current
/// one — unless the state is one of the degenerate self-reproducing lookups
/// that `lookup_reenters` names.
pub proof fn lemma_step_progress(s: State)
    requires
        !(s.cont is Done),
        !(s.cont is Failed),
        !lookup_reenters(s),
    ensures
        step_spec(s) != s,
{
    match s {
        State { control, env, cont } => match control {
            Exp::Var(_) => {}
            Exp::App(t1, t2) => {
                assert(cont_size(Continuation::EvalArg(*t2, env, Box::new(cont))) == 1
                    + cont_size(cont));
            }
            Exp::Lam(x, t) => match cont {
                Continuation::Call(lam, e1, k) => match lam {
                    Exp::Lam(x1, t1) => {
                        assert(cont_size(Continuation::Call(Exp::Lam(x1, t1), e1, k)) == 1
                            + cont_size(*k));
                    }
                    _ => {}
                },
                _ => {}
            },
            Exp::Int(n) => match cont {
                Continuation::Call(lam, e1, k) => match lam {
                    Exp::Lam(x1, t1) => {
                        assert(cont_size(Continuation::Call(Exp::Lam(x1, t1), e1, k)) == 1
                            + cont_size(*k));
                    }
                    _ => {}
                },
                _ => {}
            },
            Exp::Bool(b) => match cont {
                Continuation::Call(lam, e1, k) => match lam {
                    Exp::Lam(x1, t1) => {
                        assert(cont_size(Continuation::Call(Exp::Lam(x1, t1), e1, k)) == 1
                            + cont_size(*k));
                    }
                    _ => {}
                },
                Continuation::Decide(t2, t3, e2, k) => {
                    assert(cont_size(Continuation::Decide(t2, t3, e2, k)) == 1 + cont_size(*k));
                }
                _ => {}
            },
            Exp::Let(v, t1, t2) => match *v {
                Exp::Var(x) => {
                    assert(cont_size(Continuation::Call(Exp::Lam(x, t2), env, Box::new(cont)))
                        == 1 + cont_size(cont));
                }
                _ => {}
            },
            Exp::If(t1, t2, t3) => {
                assert(cont_size(Continuation::Decide(*t2, *t3, env, Box::new(cont))) == 1
                    + cont_size(cont));
            }
            Exp::Fix(f, fuel, l) => match cont {
                Continuation::Decide(_, _, _, _) => {}
                _ => match *l {
                    Exp::Lam(xp, t) => {
                        assert(exp_size(Exp::Fix(f, fuel, l)) == 1 + exp_size(*fuel) + exp_size(
                            *l,
                        ));
                        assert(exp_size(Exp::Lam(xp, t)) == 1 + exp_size(*t));
                    }
                    _ => {}
                },
            },
        },
    }
}

/// Apply one transition. Total: any `State` is accepted, and the result is
/// exactly `step_spec` of the input, so two applications to equal states
/// return equal states (the machine is deterministic) and an illegal
/// configuration lands in a `Failed` continuation instead of a panic.
pub fn step(s: State) -> (r: State)
    ensures
        r == step_spec(s),
{
    let State { control, env, cont } = s;
    match control {
        Exp::Var(x) => match env.get(&x) {
            None => State {
                control: Exp::Var(x.clone()),
                env,
                cont: Continuation::Failed(EvalError::UnboundVariable(x)),
            },
            Some(v) => match v {
                Value::Closure(t, e2) => State { control: *t, env: *e2, cont },
                Value::Int(n) => State { control: Exp::Int(n), env, cont },
                Value::Bool(b) => State { control: Exp::Bool(b), env, cont },
                Value::Fix(_f, fuel, l) => match *fuel {
                    Exp::Int(i) => if i >= 1 {
                        State { control: *l, env, cont }
                    } else {
                        State {
                            control: Exp::Var(x),
                            env,
                            cont: Continuation::Failed(EvalError::RecursionBudgetExceeded),
                        }
                    },
                    _ => State {
                        control: Exp::Var(x),
                        env,
                        cont: Continuation::Failed(EvalError::MalformedFixFuel),
                    },
                },
            },
        },
        Exp::App(t1, t2) => {
            let e2 = env.duplicate();
            State {
                control: *t1,
                env: e2,
                cont: Continuation::EvalArg(*t2, env, Box::new(cont)),
            }
        }
        Exp::Lam(x, t) => match cont {
            Continuation::EvalArg(t2, e2, k) => State {
                control: t2,
                env: e2,
                cont: Continuation::Call(Exp::Lam(x, t), env, k),
            },
            Continuation::Call(lam, e1, k) => match lam {
                Exp::Lam(x1, t1) => State {
                    control: *t1,
                    env: Env::Bind(
                        x1,
                        Value::Closure(Box::new(Exp::Lam(x, t)), Box::new(env)),
                        Box::new(e1),
                    ),
                    cont: *k,
                },
                _ => State {
                    control: Exp::Lam(x, t),
                    env,
                    cont: Continuation::Failed(EvalError::StuckContinuation),
                },
            },
            _ => State {
                control: Exp::Lam(x, t),
                env,
                cont: Continuation::Failed(EvalError::StuckContinuation),
            },
        },
        Exp::Int(n) => match cont {
            Continuation::Call(lam, e1, k) => match lam {
                Exp::Lam(x1, t1) => State {
                    control: *t1,
                    env: Env::Bind(x1, Value::Int(n), Box::new(e1)),
                    cont: *k,
                },
                _ => State { control: Exp::Int(n), env, cont: Continuation::Done },
            },
            Continuation::Decide(_t2, _t3, _e2, _k) => State {
                control: Exp::Int(n),
                env,
                cont: Continuation::Failed(EvalError::IllTypedGuard),
            },
            _ => State { control: Exp::Int(n), env, cont: Continuation::Done },
        },
        Exp::Bool(b) => match cont {
            Continuation::Call(lam, e1, k) => match lam {
                Exp::Lam(x1, t1) => State {
                    control: *t1,
                    env: Env::Bind(x1, Value::Bool(b), Box::new(e1)),
                    cont: *k,
                },
                _ => State { control: Exp::Bool(b), env, cont: Continuation::Done },
            },
            Continuation::Decide(t2, t3, e2, k) => if b {
                State { control: t2, env: e2, cont: *k }
            } else {
                State { control: t3, env: e2, cont: *k }
            },
            _ => State { control: Exp::Bool(b), env, cont: Continuation::Done },
        },
        Exp::Let(v, t1, t2) => match *v {
            Exp::Var(x) => {
                let e2 = env.duplicate();
                State {
                    control: *t1,
                    env: e2,
                    cont: Continuation::Call(Exp::Lam(x, t2), env, Box::new(cont)),
                }
            }
            other => State {
                control: Exp::Let(Box::new(other), t1, t2),
                env,
                cont: Continuation::Failed(EvalError::MalformedLet),
            },
        },
        Exp::If(t1, t2, t3) => {
            let e2 = env.duplicate();
            State {
                control: *t1,
                env: e2,
                cont: Continuation::Decide(*t2, *t3, env, Box::new(cont)),
            }
        }
        Exp::Fix(f, fuel, l) => match cont {
            Continuation::Decide(_t2, _t3, _e2, _k) => State {
                control: Exp::Fix(f, fuel, l),
                env,
                cont: Continuation::Failed(EvalError::IllTypedGuard),
            },
            k => match &*l {
                Exp::Lam(_xp, t) => {
                    let body = (**t).duplicate();
                    State {
                        control: body,
                        env: Env::Bind(f.clone(), Value::Fix(f, fuel, l), Box::new(env)),
                        cont: k,
                    }
                }
                _ => State {
                    control: Exp::Fix(f, fuel, l),
                    env,
                    cont: Continuation::Failed(EvalError::MalformedFixBody),
                },
            },
        },
    }
}

} // verus!
