//! The runtime engine and its host-facing surface: one engine owns one
//! isolate's lifecycle, the namespace object bound under its configured
//! global name, the callback registry, and the pre-registered script-visible
//! bridges. The engine's own decisions are verified here; the isolate work
//! they govern (compiling, running, snapshotting) is the host shim's, which
//! hands its outcome back as a [`RunResult`].

use vstd::prelude::*;

use crate::bridge::trampoline_dispatch;
use crate::bridge::CallbackEntry;
use crate::bridge::TrampolineAction;
use crate::convert::js_value_from_zval;
use crate::convert::spec_js_of_input;
use crate::convert::spec_to_host;
use crate::table::NameTable;
use crate::value::HostVal;
use crate::value::JsVal;
use crate::value::JsValue;
use crate::value::PHPValue;
use crate::value::PhpInput;

verus! {

/// The isolate lifecycle. A constructed engine is `Ready`; one execution
/// moves it to `Executing` and back; a forced-termination signal in flight
/// marks it `Terminating` until the execution unwinds; disposal is final.
#[derive(Debug, Clone, Copy, PartialEq, Eq, Structural)]
pub enum LifeState {
    Uninitialized,
    Initializing,
    Ready,
    Executing,
    Terminating,
    Disposed,
}

/// A property of the namespace object: either a plain script value, or the
/// bound function installed for a registered host callable, carrying the
/// registered name as its associated data so the trampoline can resolve it.
#[derive(Debug, PartialEq)]
pub enum NsProperty {
    Value(JsValue),
    BoundFunction(String),
}

/// Mathematical view of a namespace property.
pub enum NsPropV {
    Value(JsVal),
    BoundFunction(Seq<char>),
}

impl View for NsProperty {
    type V = NsPropV;

    open spec fn view(&self) -> NsPropV {
        match *self {
            NsProperty::Value(ref v) => NsPropV::Value(v@),
            NsProperty::BoundFunction(ref s) => NsPropV::BoundFunction(s@),
        }
    }
}

/// One of the three host primitives behind the pre-registered bridges:
/// `var_dump` and `print` both dump a value, `exit` forces termination,
/// `sleep` calls the host's sleep.
#[derive(Debug, Clone, Copy, PartialEq, Eq, Structural)]
pub enum BuiltinBridge {
    VarDump,
    Exit,
    Sleep,
}

/// What a host assigns to a property of the binding surface: a callable to
/// register, or a plain value for the namespace object.
#[derive(Debug, PartialEq)]
pub enum PropertyValue {
    Callable(CallbackEntry),
    Plain(PhpInput),
}

/// The one exception kind surfaced to the host: any compile error, uncaught
/// script exception or forced termination raises it, with a fixed message.
#[derive(Debug, PartialEq)]
pub struct V8JsScriptException {
    pub message: String,
}

/// What one isolate run of a script came to, as the host shim observed it.
#[derive(Debug, PartialEq)]
pub enum RunResult {
    /// The script ran to completion and its last expression had this value.
    Value(JsValue),
    /// The script ran to completion and produced no value.
    NoValue,
    /// A compile error or an uncaught script exception.
    Failed,
    /// The execution was forcibly terminated (a ceiling breach or `exit()`).
    Terminated,
}

/// The runtime engine: the state one isolate's bridge keeps across
/// executions.
pub struct V8Js {
    global_name: String,
    namespace: NameTable<NsProperty>,
    callbacks: NameTable<CallbackEntry>,
    global_functions: NameTable<BuiltinBridge>,
    state: LifeState,
    from_snapshot: bool,
}

impl V8Js {
    /// The name under which the namespace object is bound as a script global.
    pub closed spec fn spec_global_name(&self) -> Seq<char> {
        self.global_name@
    }

    /// The namespace object's properties.
    pub closed spec fn spec_namespace(&self) -> Map<Seq<char>, NsPropV> {
        self.namespace@.map_values(|p: NsProperty| p@)
    }

    /// The callback registry.
    pub closed spec fn spec_callbacks(&self) -> Map<Seq<char>, CallbackEntry> {
        self.callbacks@
    }

    /// The pre-registered script-visible global functions.
    pub closed spec fn spec_globals(&self) -> Map<Seq<char>, BuiltinBridge> {
        self.global_functions@
    }

    /// The lifecycle state.
    pub closed spec fn spec_state(&self) -> LifeState {
        self.state
    }

    /// Whether the isolate was seeded from a snapshot at construction.
    pub closed spec fn spec_from_snapshot(&self) -> bool {
        self.from_snapshot
    }

    /// The fixed global name used when the host names none.
    pub open spec fn default_global_name() -> Seq<char> {
        "PHP"@
    }

    /// Constructs the engine: the isolate is created (seeded from the
    /// snapshot bytes when given), an empty namespace object is bound under
    /// the configured name (or the fixed default), the registry starts empty,
    /// and the pre-registered bridges are installed. The engine comes up
    /// `Ready` without running any script: a snapshot-seeded isolate already
    /// holds the pre-executed heap.
    pub fn __construct(object_name: Option<String>, snapshot_blob: Option<Vec<u8>>) -> (r: Self)
        ensures
            r.spec_global_name() == (match object_name {
                Some(n) => n@,
                Option::None => Self::default_global_name(),
            }),
            r.spec_namespace() == Map::<Seq<char>, NsPropV>::empty(),
            r.spec_callbacks() == Map::<Seq<char>, CallbackEntry>::empty(),
            r.spec_globals() == Map::<Seq<char>, BuiltinBridge>::empty().insert(
                "var_dump"@,
                BuiltinBridge::VarDump,
            ).insert("print"@, BuiltinBridge::VarDump).insert("exit"@, BuiltinBridge::Exit).insert(
                "sleep"@,
                BuiltinBridge::Sleep,
            ),
            r.spec_state() is Ready,
            r.spec_from_snapshot() == snapshot_blob is Some,
    {
        let global_name = match object_name {
            Some(name) => name,
            Option::None => "PHP".to_owned(),
        };
        let from_snapshot = snapshot_blob.is_some();
        let mut global_functions: NameTable<BuiltinBridge> = NameTable::new();
        global_functions.set("var_dump".to_owned(), BuiltinBridge::VarDump);
        global_functions.set("print".to_owned(), BuiltinBridge::VarDump);
        global_functions.set("exit".to_owned(), BuiltinBridge::Exit);
        global_functions.set("sleep".to_owned(), BuiltinBridge::Sleep);
        let r = V8Js {
            global_name,
            namespace: NameTable::new(),
            callbacks: NameTable::new(),
            global_functions,
            state: LifeState::Ready,
            from_snapshot,
        };
        proof {
            assert(r.spec_namespace() =~= Map::<Seq<char>, NsPropV>::empty());
        }
        r
    }

    /// Accepted and ignored: the module-loader hook is a reserved extension
    /// point, not yet wired to anything.
    pub fn set_module_loader(&mut self, _callable: &PropertyValue)
        ensures
            *final(self) == *old(self),
    {
    }

    /// Property assignment on the binding surface. A callable value is
    /// registered in the callback registry under the property name,
    /// overwriting any prior registration, and a bound function carrying that
    /// name is installed on the namespace object; a plain value is converted
    /// and stored on the namespace object. Everything else is untouched.
    pub fn __set(&mut self, property: &str, value: &PropertyValue)
        ensures
            final(self).spec_global_name() == old(self).spec_global_name(),
            final(self).spec_globals() == old(self).spec_globals(),
            final(self).spec_state() == old(self).spec_state(),
            final(self).spec_from_snapshot() == old(self).spec_from_snapshot(),
            match *value {
                PropertyValue::Callable(entry) => final(self).spec_callbacks() == old(
                    self,
                ).spec_callbacks().insert(property@, entry) && final(self).spec_namespace() == old(
                    self,
                ).spec_namespace().insert(property@, NsPropV::BoundFunction(property@)),
                PropertyValue::Plain(ref z) => final(self).spec_callbacks() == old(
                    self,
                ).spec_callbacks() && final(self).spec_namespace() == old(
                    self,
                ).spec_namespace().insert(property@, NsPropV::Value(spec_js_of_input(z@))),
            },
    {
        match value {
            PropertyValue::Callable(entry) => {
                self.namespace.set(
                    property.to_owned(),
                    NsProperty::BoundFunction(property.to_owned()),
                );
                self.callbacks.set(property.to_owned(), *entry);
                proof {
                    assert(self.spec_namespace() =~= old(self).spec_namespace().insert(
                        property@,
                        NsPropV::BoundFunction(property@),
                    ));
                }
            },
            PropertyValue::Plain(z) => {
                let js = js_value_from_zval(z);
                self.namespace.set(property.to_owned(), NsProperty::Value(js));
                proof {
                    assert(self.spec_namespace() =~= old(self).spec_namespace().insert(
                        property@,
                        NsPropV::Value(spec_js_of_input(z@)),
                    ));
                }
            },
        }
    }

    /// One script execution starts: exactly one may be in flight per engine.
    pub fn begin_execute(&mut self)
        requires
            old(self).spec_state() is Ready,
        ensures
            final(self).spec_state() is Executing,
            final(self).spec_global_name() == old(self).spec_global_name(),
            final(self).spec_namespace() == old(self).spec_namespace(),
            final(self).spec_callbacks() == old(self).spec_callbacks(),
            final(self).spec_globals() == old(self).spec_globals(),
            final(self).spec_from_snapshot() == old(self).spec_from_snapshot(),
    {
        self.state = LifeState::Executing;
    }

    /// The one-shot, idempotent termination request: it marks a running
    /// execution as terminating, and delivering it to an idle isolate is a
    /// safe no-op.
    pub fn signal_terminate(&mut self)
        ensures
            old(self).spec_state() is Executing ==> final(self).spec_state() is Terminating,
            !(old(self).spec_state() is Executing) ==> *final(self) == *old(self),
            final(self).spec_global_name() == old(self).spec_global_name(),
            final(self).spec_namespace() == old(self).spec_namespace(),
            final(self).spec_callbacks() == old(self).spec_callbacks(),
            final(self).spec_globals() == old(self).spec_globals(),
            final(self).spec_from_snapshot() == old(self).spec_from_snapshot(),
    {
        if matches!(self.state, LifeState::Executing) {
            self.state = LifeState::Terminating;
        }
    }

    /// One script execution ends, and the engine is ready again whatever came
    /// of it: a value converts to a host value, no value becomes the host's
    /// null, and a failure or a forced termination surfaces as the single
    /// exception kind. The namespace, the registry and the installed bridges
    /// survive every outcome, a forced termination included.
    pub fn finish_execute(&mut self, outcome: &RunResult) -> (r: Result<
        PHPValue,
        V8JsScriptException,
    >)
        requires
            old(self).spec_state() is Executing || old(self).spec_state() is Terminating,
        ensures
            final(self).spec_state() is Ready,
            final(self).spec_global_name() == old(self).spec_global_name(),
            final(self).spec_namespace() == old(self).spec_namespace(),
            final(self).spec_callbacks() == old(self).spec_callbacks(),
            final(self).spec_globals() == old(self).spec_globals(),
            final(self).spec_from_snapshot() == old(self).spec_from_snapshot(),
            match *outcome {
                RunResult::Value(ref js) => r matches Ok(v) && v@ == spec_to_host(js@),
                RunResult::NoValue => r matches Ok(v) && v@ == HostVal::Null,
                RunResult::Failed => r matches Err(e) && e.message@ == "Exception"@,
                RunResult::Terminated => r matches Err(e) && e.message@ == "Exception"@,
            },
    {
        self.state = LifeState::Ready;
        match outcome {
            RunResult::Value(js) => Ok(PHPValue::from(js)),
            RunResult::NoValue => Ok(PHPValue::Null),
            RunResult::Failed => Err(
                V8JsScriptException { message: "Exception".to_owned() },
            ),
            RunResult::Terminated => Err(
                V8JsScriptException { message: "Exception".to_owned() },
            ),
        }
    }

    /// String execution as the host calls it, around one isolate run whose
    /// outcome the host shim hands in: the run is bracketed by the lifecycle
    /// moves, a forced termination passes through the termination signal, and
    /// the outcome maps exactly as [`Self::finish_execute`] states.
    pub fn execute_string(&mut self, outcome: &RunResult) -> (r: Result<
        PHPValue,
        V8JsScriptException,
    >)
        requires
            old(self).spec_state() is Ready,
        ensures
            final(self).spec_state() is Ready,
            final(self).spec_global_name() == old(self).spec_global_name(),
            final(self).spec_namespace() == old(self).spec_namespace(),
            final(self).spec_callbacks() == old(self).spec_callbacks(),
            final(self).spec_globals() == old(self).spec_globals(),
            final(self).spec_from_snapshot() == old(self).spec_from_snapshot(),
            match *outcome {
                RunResult::Value(ref js) => r matches Ok(v) && v@ == spec_to_host(js@),
                RunResult::NoValue => r matches Ok(v) && v@ == HostVal::Null,
                RunResult::Failed => r matches Err(e) && e.message@ == "Exception"@,
                RunResult::Terminated => r matches Err(e) && e.message@ == "Exception"@,
            },
    {
        self.begin_execute();
        if matches!(outcome, RunResult::Terminated) {
            self.signal_terminate();
        }
        self.finish_execute(outcome)
    }

    /// The trampoline's dispatch against this engine's registry; see
    /// [`trampoline_dispatch`].
    pub fn trampoline(&self, callback_name: &String, args: &Vec<JsValue>) -> (r: TrampolineAction)
        ensures
            !self.spec_callbacks().contains_key(callback_name@) ==> r is ReturnUndefined,
            self.spec_callbacks().contains_key(callback_name@)
                && !self.spec_callbacks()[callback_name@].invocable ==> r is ReturnUndefined,
            self.spec_callbacks().contains_key(callback_name@)
                && self.spec_callbacks()[callback_name@].invocable ==> (
            r matches TrampolineAction::Invoke(token, vs) && token
                == self.spec_callbacks()[callback_name@].token && vs@.len() == args@.len()
                && forall|i: int|
                0 <= i < args@.len() ==> (#[trigger] vs@[i])@ == spec_to_host(args@[i]@)),
    {
        trampoline_dispatch(&self.callbacks, callback_name, args)
    }

    /// The pre-registered bridge installed under a script-global name, if
    /// any: this is how a builtin call site resolves to its host primitive.
    pub fn builtin(&self, name: &String) -> (r: Option<&BuiltinBridge>)
        ensures
            match r {
                Some(b) => self.spec_globals().contains_key(name@) && *b
                    == self.spec_globals()[name@],
                Option::None => !self.spec_globals().contains_key(name@),
            },
    {
        self.global_functions.get(name)
    }

    /// The configured global name.
    pub fn global_name(&self) -> (r: &String)
        ensures
            r@ == self.spec_global_name(),
    {
        &self.global_name
    }

    /// The lifecycle state.
    pub fn state(&self) -> (r: LifeState)
        ensures
            r == self.spec_state(),
    {
        self.state
    }

    /// Whether the isolate was seeded from a snapshot at construction.
    pub fn is_from_snapshot(&self) -> (r: bool)
        ensures
            r == self.spec_from_snapshot(),
    {
        self.from_snapshot
    }
}

} // verus!
