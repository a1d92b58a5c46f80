use php_v8::bridge::exit_decision;
use php_v8::bridge::first_arg;
use php_v8::bridge::trampoline_finish;
use php_v8::bridge::CallbackEntry;
use php_v8::bridge::ExitAction;
use php_v8::bridge::TrampolineAction;
use php_v8::engine::BuiltinBridge;
use php_v8::engine::LifeState;
use php_v8::engine::PropertyValue;
use php_v8::engine::RunResult;
use php_v8::engine::V8Js;
use php_v8::governor::should_terminate;
use php_v8::governor::ExecLimits;
use php_v8::value::JsValue;
use php_v8::value::NumVal;
use php_v8::value::PHPValue;
use php_v8::value::PhpInput;

#[test]
fn construction_defaults() {
    let engine = V8Js::__construct(None, None);
    assert_eq!(engine.global_name().as_str(), "PHP");
    assert_eq!(engine.state(), LifeState::Ready);
    assert!(!engine.is_from_snapshot());

    let named = V8Js::__construct(Some("app".to_string()), None);
    assert_eq!(named.global_name().as_str(), "app");
}

#[test]
fn construction_installs_the_bridges() {
    let engine = V8Js::__construct(None, None);
    assert_eq!(engine.builtin(&"var_dump".to_string()), Some(&BuiltinBridge::VarDump));
    assert_eq!(engine.builtin(&"print".to_string()), Some(&BuiltinBridge::VarDump));
    assert_eq!(engine.builtin(&"exit".to_string()), Some(&BuiltinBridge::Exit));
    assert_eq!(engine.builtin(&"sleep".to_string()), Some(&BuiltinBridge::Sleep));
    assert_eq!(engine.builtin(&"other".to_string()), None);
}

#[test]
fn callback_round_trip() {
    let mut engine = V8Js::__construct(None, None);
    let add = CallbackEntry { token: 7, invocable: true };
    engine.__set("add", &PropertyValue::Callable(add));

    // Script side calls add(2, 3): the trampoline resolves the registration
    // and converts both arguments.
    let args = vec![JsValue::Num(NumVal::Int(2)), JsValue::Num(NumVal::Int(3))];
    let action = engine.trampoline(&"add".to_string(), &args);
    assert_eq!(
        action,
        TrampolineAction::Invoke(7, vec![PHPValue::Integer(2), PHPValue::Integer(3)])
    );

    // The host callable returns 5; its result crosses back as a script
    // number, and the execution's value reads back as Integer(5).
    let host_result = PhpInput::Long(5);
    let js_result = trampoline_finish(Some(&host_result));
    assert_eq!(js_result, JsValue::Num(NumVal::Int(5)));
    let outcome = RunResult::Value(js_result);
    assert_eq!(engine.execute_string(&outcome), Ok(PHPValue::Integer(5)));
}

#[test]
fn missing_callback_is_a_silent_undefined() {
    let engine = V8Js::__construct(None, None);
    let args = vec![JsValue::Num(NumVal::Int(1))];
    let action = engine.trampoline(&"missing".to_string(), &args);
    assert_eq!(action, TrampolineAction::ReturnUndefined);
    // The resulting script `undefined` converts to the host's null.
    assert_eq!(PHPValue::from(&JsValue::NullOrUndefined), PHPValue::Null);
}

#[test]
fn non_invocable_callback_is_a_silent_undefined() {
    let mut engine = V8Js::__construct(None, None);
    let broken = CallbackEntry { token: 3, invocable: false };
    engine.__set("broken", &PropertyValue::Callable(broken));
    let action = engine.trampoline(&"broken".to_string(), &vec![]);
    assert_eq!(action, TrampolineAction::ReturnUndefined);
}

#[test]
fn reregistration_overwrites() {
    let mut engine = V8Js::__construct(None, None);
    engine.__set("f", &PropertyValue::Callable(CallbackEntry { token: 1, invocable: true }));
    engine.__set("f", &PropertyValue::Callable(CallbackEntry { token: 2, invocable: true }));
    let action = engine.trampoline(&"f".to_string(), &vec![]);
    assert_eq!(action, TrampolineAction::Invoke(2, vec![]));
}

#[test]
fn callback_failure_is_absorbed() {
    assert_eq!(trampoline_finish(None), JsValue::NullOrUndefined);
}

#[test]
fn bridge_first_argument() {
    let args = vec![JsValue::Str("x".to_string()), JsValue::Bool(true)];
    assert_eq!(first_arg(&args), PHPValue::String("x".to_string()));
    assert_eq!(first_arg(&vec![]), PHPValue::Null);
}

#[test]
fn execution_outcomes() {
    let mut engine = V8Js::__construct(None, None);
    let value = RunResult::Value(JsValue::Str("done".to_string()));
    assert_eq!(engine.execute_string(&value), Ok(PHPValue::String("done".to_string())));
    assert_eq!(engine.execute_string(&RunResult::NoValue), Ok(PHPValue::Null));
    let failed = engine.execute_string(&RunResult::Failed);
    assert!(failed.is_err());
    assert_eq!(failed.unwrap_err().message, "Exception");
}

#[test]
fn time_limit_decision() {
    let limits = ExecLimits { time_limit_ms: Some(50), memory_limit_bytes: None };
    assert!(!should_terminate(&limits, 49, 0));
    assert!(should_terminate(&limits, 50, 0));
    assert!(should_terminate(&limits, 51, 0));
}

#[test]
fn memory_limit_decision() {
    let limits = ExecLimits { time_limit_ms: None, memory_limit_bytes: Some(1 << 20) };
    assert!(!should_terminate(&limits, 10_000, (1 << 20) - 1));
    assert!(should_terminate(&limits, 0, 1 << 20));
}

#[test]
fn unbounded_execution_never_terminates() {
    let limits = ExecLimits { time_limit_ms: None, memory_limit_bytes: None };
    assert!(!should_terminate(&limits, u64::MAX, u64::MAX));
}

#[test]
fn terminated_execution_surfaces_as_failure() {
    let mut engine = V8Js::__construct(None, None);
    let r = engine.execute_string(&RunResult::Terminated);
    assert!(r.is_err());
    assert_eq!(engine.state(), LifeState::Ready);
}

#[test]
fn exit_halts_and_engine_survives() {
    let mut engine = V8Js::__construct(None, None);
    engine.__set("add", &PropertyValue::Callable(CallbackEntry { token: 7, invocable: true }));

    // Script calls exit(): the bridge forces termination and the in-flight
    // execution surfaces as the single exception kind.
    assert_eq!(exit_decision(false), ExitAction::ForceTerminate);
    assert_eq!(exit_decision(true), ExitAction::AlreadyTerminating);
    let r = engine.execute_string(&RunResult::Terminated);
    assert!(r.is_err());

    // The engine is back to Ready, its registry intact: later executions of
    // the same engine still function.
    assert_eq!(engine.state(), LifeState::Ready);
    let action = engine.trampoline(&"add".to_string(), &vec![]);
    assert_eq!(action, TrampolineAction::Invoke(7, vec![]));
    let again = engine.execute_string(&RunResult::Value(JsValue::Num(NumVal::Int(1))));
    assert_eq!(again, Ok(PHPValue::Integer(1)));
}

#[test]
fn snapshot_seeded_engine_is_ready_without_running() {
    let engine = V8Js::__construct(None, Some(vec![1, 2, 3, 4]));
    assert!(engine.is_from_snapshot());
    assert_eq!(engine.state(), LifeState::Ready);
}

#[test]
fn plain_property_assignment_registers_nothing() {
    let mut engine = V8Js::__construct(None, None);
    engine.__set("answer", &PropertyValue::Plain(PhpInput::Long(42)));
    let action = engine.trampoline(&"answer".to_string(), &vec![]);
    assert_eq!(action, TrampolineAction::ReturnUndefined);
}

#[test]
fn module_loader_is_accepted_and_ignored() {
    let mut engine = V8Js::__construct(None, None);
    engine.set_module_loader(&PropertyValue::Plain(PhpInput::Null));
    assert_eq!(engine.state(), LifeState::Ready);
}
