//! The driver: iterate the transition function from an initial state to a
//! terminal state, under a caller-supplied step bound.

use vstd::prelude::*;

use crate::ast::Continuation;
use crate::ast::Env;
use crate::ast::EvalError;
use crate::ast::Exp;
use crate::ast::Value;
use crate::machine::State;
use crate::machine::step;
use crate::machine::step_spec;

verus! {

/// The initial state for a root expression: the expression itself, the empty
/// environment, and no pending work.
pub open spec fn initial_state_spec(root: Exp) -> State {
    State { control: root, env: Env::Empty, cont: Continuation::Done }
}

/// The final value a state carries, if it is a successful terminal state: the
/// continuation is `Done` and the control has come to rest at a literal.
pub open spec fn terminal_value(s: State) -> Option<Value> {
    if s.cont is Done {
        match s.control {
            Exp::Int(n) => Some(Value::Int(n)),
            Exp::Bool(b) => Some(Value::Bool(b)),
            _ => None,
        }
    } else {
        None
    }
}

/// A successfully terminal state is a fixed point of the transition: once a
/// literal has come to rest under `Done`, stepping changes nothing.
pub proof fn lemma_terminal_state_is_fixed(s: State)
    requires
        terminal_value(s) is Some,
    ensures
        step_spec(s) == s,
{
}

/// The outcome of iterating the machine from `s` with `fuel` transitions
/// permitted: the error of a `Failed` state, the literal of a successful
/// terminal state, and otherwise one transition and one unit of fuel less;
/// with the fuel gone, the step bound is reported exceeded.
pub open spec fn run_spec(s: State, fuel: nat) -> Result<Value, EvalError>
    decreases fuel,
{
    match s.cont {
        Continuation::Failed(err) => Err(err),
        _ => match terminal_value(s) {
            Some(v) => Ok(v),
            None => if fuel == 0 {
                Err(EvalError::StepLimitExceeded)
            } else {
                run_spec(step_spec(s), (fuel - 1) as nat)
            },
        },
    }
}

/// Evaluate `root` in the empty environment, applying at most `limit`
/// transitions beyond the terminal checks. Returns the literal of the
/// successful terminal state reached, the error of the `Failed` state
/// reached, or `StepLimitExceeded` when neither arrives within the bound.
pub fn run(root: Exp, limit: u64) -> (r: Result<Value, EvalError>)
    ensures
        r == run_spec(initial_state_spec(root), limit as nat),
{
    let mut s = State { control: root, env: Env::Empty, cont: Continuation::Done };
    let mut n: u64 = limit;
    loop
        invariant
            run_spec(initial_state_spec(root), limit as nat) == run_spec(s, n as nat),
        decreases n,
    {
        let State { control, env, cont } = s;
        match cont {
            Continuation::Failed(err) => {
                return Err(err);
            }
            Continuation::Done => match control {
                Exp::Int(i) => {
                    return Ok(Value::Int(i));
                }
                Exp::Bool(b) => {
                    return Ok(Value::Bool(b));
                }
                c => {
                    if n == 0 {
                        return Err(EvalError::StepLimitExceeded);
                    }
                    s = step(State { control: c, env, cont: Continuation::Done });
                    n = n - 1;
                }
            },
            k => {
                if n == 0 {
                    return Err(EvalError::StepLimitExceeded);
                }
                s = step(State { control, env, cont: k });
                n = n - 1;
            }
        }
    }
}

} // verus!
