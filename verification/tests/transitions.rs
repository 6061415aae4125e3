//! Single transitions of the machine, and the environment's behaviour.

use cek::ast::Continuation;
use cek::ast::Env;
use cek::ast::EvalError;
use cek::ast::Exp;
use cek::ast::Value;
use cek::machine::State;
use cek::machine::step;

fn var(x: &str) -> Exp {
    Exp::Var(x.to_string())
}

fn lam(x: &str, body: Exp) -> Exp {
    Exp::Lam(x.to_string(), Box::new(body))
}

fn app(callee: Exp, arg: Exp) -> Exp {
    Exp::App(Box::new(callee), Box::new(arg))
}

#[test]
fn lookup_round_trip() {
    let env = Env::Empty.extend("x".to_string(), Value::Int(5));
    let next = step(State { control: var("x"), env, cont: Continuation::Done });
    assert_eq!(next.control, Exp::Int(5));
    assert_eq!(next.cont, Continuation::Done);
}

#[test]
fn step_is_deterministic() {
    let make = || State {
        control: app(lam("y", var("y")), Exp::Int(2)),
        env: Env::Empty,
        cont: Continuation::Done,
    };
    assert_eq!(step(make()), step(make()));
}

#[test]
fn latest_binding_shadows_older() {
    let env = Env::Empty
        .extend("x".to_string(), Value::Int(1))
        .extend("x".to_string(), Value::Int(2));
    assert_eq!(env.get(&"x".to_string()), Some(Value::Int(2)));
}

#[test]
fn absent_name_is_unbound() {
    assert_eq!(Env::Empty.get(&"y".to_string()), None);
}

#[test]
fn application_pushes_an_evalarg_frame() {
    let next = step(State {
        control: app(var("f"), Exp::Int(1)),
        env: Env::Empty,
        cont: Continuation::Done,
    });
    assert_eq!(next.control, var("f"));
    assert_eq!(
        next.cont,
        Continuation::EvalArg(Exp::Int(1), Env::Empty, Box::new(Continuation::Done)),
    );
}

#[test]
fn reduced_callee_moves_to_the_argument() {
    let frame = Continuation::EvalArg(Exp::Int(1), Env::Empty, Box::new(Continuation::Done));
    let next = step(State { control: lam("y", var("y")), env: Env::Empty, cont: frame });
    assert_eq!(next.control, Exp::Int(1));
    assert_eq!(
        next.cont,
        Continuation::Call(lam("y", var("y")), Env::Empty, Box::new(Continuation::Done)),
    );
}

#[test]
fn reduced_argument_is_bound_by_the_call_frame() {
    let frame = Continuation::Call(lam("y", var("y")), Env::Empty, Box::new(Continuation::Done));
    let next = step(State { control: Exp::Int(7), env: Env::Empty, cont: frame });
    assert_eq!(next.control, var("y"));
    assert_eq!(next.cont, Continuation::Done);
    assert_eq!(next.env.get(&"y".to_string()), Some(Value::Int(7)));
}

#[test]
fn decide_frame_picks_the_matching_branch() {
    let frame = Continuation::Decide(
        Exp::Int(1),
        Exp::Int(2),
        Env::Empty,
        Box::new(Continuation::Done),
    );
    let next = step(State { control: Exp::Bool(false), env: Env::Empty, cont: frame });
    assert_eq!(next.control, Exp::Int(2));
    assert_eq!(next.cont, Continuation::Done);
}

#[test]
fn decide_frame_claims_a_fixpoint_control() {
    let frame = Continuation::Decide(
        Exp::Int(1),
        Exp::Int(2),
        Env::Empty,
        Box::new(Continuation::Done),
    );
    let fixpoint = Exp::Fix(
        "f".to_string(),
        Box::new(Exp::Int(1)),
        Box::new(lam("x", var("f"))),
    );
    let next = step(State { control: fixpoint, env: Env::Empty, cont: frame });
    assert_eq!(next.cont, Continuation::Failed(EvalError::IllTypedGuard));
}

#[test]
fn fixpoint_binds_its_own_name() {
    let fixpoint = Exp::Fix(
        "f".to_string(),
        Box::new(Exp::Int(3)),
        Box::new(lam("x", Exp::Int(0))),
    );
    let next = step(State { control: fixpoint, env: Env::Empty, cont: Continuation::Done });
    assert_eq!(next.control, Exp::Int(0));
    let bound = next.env.get(&"f".to_string());
    assert_eq!(
        bound,
        Some(Value::Fix(
            "f".to_string(),
            Box::new(Exp::Int(3)),
            Box::new(lam("x", Exp::Int(0))),
        )),
    );
}

#[test]
fn literal_under_a_spent_continuation_comes_to_rest() {
    let next = step(State {
        control: Exp::Int(4),
        env: Env::Empty,
        cont: Continuation::Failed(EvalError::IllTypedGuard),
    });
    assert_eq!(next.control, Exp::Int(4));
    assert_eq!(next.cont, Continuation::Done);
}

#[test]
fn duplicate_preserves_structure() {
    let e = app(lam("x", var("x")), Exp::Int(1));
    assert_eq!(e.duplicate(), e);
    let env = Env::Empty.extend("x".to_string(), Value::Bool(true));
    assert_eq!(env.duplicate(), env);
}

#[test]
fn messages_of_the_error_taxonomy() {
    assert_eq!(
        EvalError::UnboundVariable("q".to_string()).message(),
        "unbound variable: q",
    );
    assert_eq!(EvalError::MalformedFixFuel.message(), "No int in fix");
    assert_eq!(EvalError::MalformedFixBody.message(), "No lambda in fix");
    assert_eq!(
        EvalError::RecursionBudgetExceeded.message(),
        "Too many recursions",
    );
    assert_eq!(EvalError::IllTypedGuard.message(), "No boolean in if clause");
    assert_eq!(EvalError::MalformedLet.message(), "No variable in let binding");
    assert_eq!(
        EvalError::StuckContinuation.message(),
        "Continuation is wrong for lambda",
    );
    assert_eq!(EvalError::StepLimitExceeded.message(), "step limit exceeded");
}
