use den::combinator::{poll_step, Outcome, WrappedPoll};
use den::console::JsVal;
use den::engine::{import_expression, unwrap_awaited, Engine, EngineError, EvalPrep};
use den::loader::{HttpLoader, LoaderChain, MmapScriptLoader, NativeLoader};
use den::resolver::{HttpResolver, NativeResolver, ResolverChain};
use den::supervisor::{App, ShutdownObservation, ShutdownPhase};
use den::transpile::{EasySwcTranspilerError, SyntaxTag};

fn engine(transpile: bool) -> Engine {
    let resolver = ResolverChain::new(NativeResolver::new(), HttpResolver::new());
    let loader = LoaderChain::new(
        NativeLoader::new(),
        HttpLoader::new(true, true),
        MmapScriptLoader::new(transpile, true, false),
    );
    Engine::new(resolver, loader, transpile, true, false)
}

#[test]
fn awaited_object_is_unwrapped_at_the_value_key() {
    let awaited = JsVal::Object(vec![
        (JsVal::Str("other".to_string()), JsVal::Int(9)),
        (JsVal::Str("value".to_string()), JsVal::Int(2)),
    ]);
    assert!(matches!(unwrap_awaited(&awaited), Ok(JsVal::Int(2))));
}

#[test]
fn awaited_object_without_the_key_is_an_error() {
    let awaited = JsVal::Object(vec![(JsVal::Str("other".to_string()), JsVal::Int(9))]);
    assert!(matches!(unwrap_awaited(&awaited), Err(EngineError::Rquickjs(_))));
    assert!(matches!(unwrap_awaited(&JsVal::Int(2)), Err(EngineError::Rquickjs(_))));
}

#[test]
fn prepare_eval_without_transformer_passes_text_through() {
    let e = engine(false);
    match e.prepare_eval("1+1") {
        EvalPrep::Ready(text) => assert_eq!(text, "1+1"),
        EvalPrep::Transform(..) => panic!("no transform expected"),
    }
}

#[test]
fn prepare_eval_with_transformer_uses_the_richest_syntax() {
    let e = engine(true);
    match e.prepare_eval("let x: number = 1") {
        EvalPrep::Transform(text, syntax) => {
            assert_eq!(text, "let x: number = 1");
            assert_eq!(syntax, SyntaxTag::Typescript { tsx: false });
        },
        EvalPrep::Ready(_) => panic!("transform expected"),
    }
}

#[test]
fn transformer_failure_surfaces_as_its_own_kind() {
    let e = engine(true);
    let r = e.finish_transform(Err(EasySwcTranspilerError::SwcParse("unexpected token".to_string())));
    assert_eq!(
        r,
        Err(EngineError::EasySwcTranspiler(EasySwcTranspilerError::SwcParse(
            "unexpected token".to_string()
        )))
    );
    assert_eq!(e.finish_transform(Ok("2".to_string())), Ok("2".to_string()));
}

#[test]
fn files_run_as_awaited_imports() {
    assert_eq!(import_expression("./dir/main.js"), "await import(`./dir/main.js`)");
}

#[test]
fn stop_flips_the_interrupt_hook() {
    let mut e = engine(false);
    assert!(!e.interrupt_poll());
    e.stop();
    assert!(e.interrupt_poll());
    e.stop();
    assert!(e.interrupt_poll());
}

#[test]
fn stop_interrupts_a_blocked_timer_and_shutdown_completes() {
    // A script sits inside an unresolved timer: the timer's operation runs
    // under a child of the root and its poll finds no result yet.
    let mut e = engine(false);
    let timer_token = e.operation_token();
    let waiting = poll_step::<()>(e.tree.is_cancelled(timer_token), None);
    assert_eq!(waiting.answer, WrappedPoll::Pending);

    // stop(): the very next poll of the timer resolves to Interrupted
    // without touching the timer itself.
    e.stop();
    let interrupted = poll_step::<()>(e.tree.is_cancelled(timer_token), None);
    assert_eq!(interrupted.answer, WrappedPoll::Resolved(Outcome::Interrupted));
    assert!(!interrupted.polled_inner);

    // And the supervisor's shutdown sequence runs to completion.
    let mut app = App::new(e);
    let obs = ShutdownObservation {
        root_cancelled: true,
        front_tasks_done: false,
        interpreter_idle: false,
    };
    assert!(!app.run_until_end_step(obs));
    assert_eq!(app.phase, ShutdownPhase::Draining);
    assert!(app.run_until_end_step(obs));
    assert_eq!(app.phase, ShutdownPhase::Done);
}

#[test]
fn orderly_shutdown_waits_for_front_tasks_and_idle() {
    let mut app = App::new(engine(false));
    let waiting = ShutdownObservation {
        root_cancelled: false,
        front_tasks_done: false,
        interpreter_idle: false,
    };
    assert!(!app.run_until_end_step(waiting));
    assert_eq!(app.phase, ShutdownPhase::WaitingFront);

    let front_done = ShutdownObservation {
        root_cancelled: false,
        front_tasks_done: true,
        interpreter_idle: false,
    };
    assert!(!app.run_until_end_step(front_done));
    assert_eq!(app.phase, ShutdownPhase::Draining);

    let still_busy = ShutdownObservation {
        root_cancelled: false,
        front_tasks_done: true,
        interpreter_idle: false,
    };
    assert!(!app.run_until_end_step(still_busy));
    assert_eq!(app.phase, ShutdownPhase::Draining);

    let idle = ShutdownObservation {
        root_cancelled: false,
        front_tasks_done: true,
        interpreter_idle: true,
    };
    assert!(app.run_until_end_step(idle));
    assert_eq!(app.phase, ShutdownPhase::Done);
}

#[test]
fn repl_session_runs_under_the_root() {
    let mut app = App::new(engine(false));
    let session = app.start_repl_session();
    assert!(app.repl);
    assert!(!app.engine.tree.is_cancelled(session));
    app.hook_ctrlc_handler();
    app.hook_ctrlc_handler();
    assert!(app.engine.tree.is_cancelled(session));
}
