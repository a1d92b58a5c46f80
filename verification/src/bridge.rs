//! The callback bridge: the registry entry for a host callable and the
//! trampoline's dispatch rules, which let script code call into the host
//! without any failure ever unwinding back through the engine's call frames.

use vstd::prelude::*;

use crate::convert::js_value_from_zval;
use crate::convert::spec_js_of_input;
use crate::convert::spec_to_host;
use crate::table::NameTable;
use crate::value::HostVal;
use crate::value::JsVal;
use crate::value::JsValue;
use crate::value::PHPValue;
use crate::value::PhpInput;

verus! {

broadcast use vstd::std_specs::vec::group_vec_axioms;

/// A registry entry for a host callable: an opaque token under which the host
/// shim finds the callable itself, and whether the stored value is actually
/// invocable (the trampoline re-checks this at call time, as a host may have
/// registered something that has since stopped being callable).
#[derive(Debug, Clone, Copy, PartialEq, Eq, Structural)]
pub struct CallbackEntry {
    pub token: u64,
    pub invocable: bool,
}

/// What the trampoline decides when script code calls a bound function:
/// either the call silently yields script `undefined` (the registry has no
/// usable entry under the bound name), or the host callable behind `token` is
/// to be invoked with the converted arguments, left to right.
#[derive(Debug, PartialEq)]
pub enum TrampolineAction {
    ReturnUndefined,
    Invoke(u64, Vec<PHPValue>),
}

/// The trampoline's dispatch: resolves the bound name in the registry. A
/// missing or non-invocable entry is a silent no-op yielding script
/// `undefined`, never an engine-level failure; a usable entry has every
/// argument converted to a host value, in order, for the host call.
#[verifier::loop_isolation(false)]
pub fn trampoline_dispatch(
    callbacks: &NameTable<CallbackEntry>,
    callback_name: &String,
    args: &Vec<JsValue>,
) -> (r: TrampolineAction)
    ensures
        !callbacks@.contains_key(callback_name@) ==> r is ReturnUndefined,
        callbacks@.contains_key(callback_name@) && !callbacks@[callback_name@].invocable ==> r
            is ReturnUndefined,
        callbacks@.contains_key(callback_name@) && callbacks@[callback_name@].invocable ==> (
        r matches TrampolineAction::Invoke(token, vs) && token
            == callbacks@[callback_name@].token && vs@.len() == args@.len() && forall|i: int|
            0 <= i < args@.len() ==> (#[trigger] vs@[i])@ == spec_to_host(args@[i]@)),
{
    let entry = match callbacks.get(callback_name) {
        Some(e) => *e,
        Option::None => {
            return TrampolineAction::ReturnUndefined;
        },
    };
    if !entry.invocable {
        return TrampolineAction::ReturnUndefined;
    }
    let mut php_args: Vec<PHPValue> = Vec::new();
    let mut idx: usize = 0;
    while idx < args.len()
        invariant
            idx <= args.len(),
            php_args@.len() == idx,
            forall|k: int| 0 <= k < idx ==> (#[trigger] php_args@[k])@ == spec_to_host(args@[k]@),
        decreases args.len() - idx,
    {
        let v = PHPValue::from(&args[idx]);
        php_args.push(v);
        idx += 1;
    }
    TrampolineAction::Invoke(entry.token, php_args)
}

/// The trampoline's return path: the host callable's result crosses back as a
/// script value; a host-side failure is absorbed into an empty script value
/// (null), because nothing may unwind past the engine's call frames.
pub fn trampoline_finish(host_result: Option<&PhpInput>) -> (r: JsValue)
    ensures
        match host_result {
            Some(z) => r@ == spec_js_of_input(z@),
            Option::None => r@ == JsVal::NullOrUndef,
        },
{
    match host_result {
        Some(z) => js_value_from_zval(z),
        Option::None => JsValue::NullOrUndefined,
    }
}

/// The single argument a diagnostic or sleep bridge hands its host primitive:
/// the first script argument converted to a host value, or null when the call
/// site passed none (the engine supplies `undefined` for a missing argument).
pub fn first_arg(args: &Vec<JsValue>) -> (r: PHPValue)
    ensures
        args@.len() > 0 ==> r@ == spec_to_host(args@[0]@),
        args@.len() == 0 ==> r@ == HostVal::Null,
{
    if args.len() > 0 {
        PHPValue::from(&args[0])
    } else {
        PHPValue::Null
    }
}

/// What the exit bridge does when script calls `exit()`.
#[derive(Debug, Clone, Copy, PartialEq, Eq, Structural)]
pub enum ExitAction {
    /// Termination is already in flight: do nothing.
    AlreadyTerminating,
    /// Request isolate termination, then run a trivial infinite loop so the
    /// engine observes the request and unwinds: the engine has no synchronous
    /// stop primitive.
    ForceTerminate,
}

/// The exit bridge's decision: force termination unless the isolate is
/// already terminating.
pub fn exit_decision(execution_terminating: bool) -> (r: ExitAction)
    ensures
        r is ForceTerminate <==> !execution_terminating,
{
    if execution_terminating {
        ExitAction::AlreadyTerminating
    } else {
        ExitAction::ForceTerminate
    }
}

} // verus!
