//! The value converter: the pure, total, bidirectional mapping between host
//! values and script values, with its full functional specification and the
//! round-trip and totality laws.
//!
//! Script-to-host follows the engine's classification order (string, then
//! null/undefined, boolean, 32-bit integer, general number, array, callable,
//! object, and a string coercion as the last resort). Host-to-script goes
//! through the raw property shape a host hands over: integers and doubles both
//! become script numbers, an array with only index keys becomes a dense script
//! array, and an array with any name key becomes a plain script object whose
//! index keys are spelled out in decimal.

use vstd::prelude::*;

use crate::value::ArrayKey;
use crate::value::HostVal;
use crate::value::InputV;
use crate::value::JsVal;
use crate::value::JsValue;
use crate::value::KeyV;
use crate::value::NumVal;
use crate::value::PHPValue;
use crate::value::PhpInput;

verus! {

broadcast use vstd::std_specs::vec::group_vec_axioms;

/// A script number of exactly this integer value is stored by the engine as an
/// immediate 32-bit integer; anything wider is a boxed double.
pub open spec fn in_i32_range(i: i64) -> bool {
    i32::MIN <= i <= i32::MAX
}

/// What `toHostValue` returns, on the view of a script value: the engine's
/// classification decides the variant, every class has a target, and the
/// conversion never fails.
pub open spec fn spec_to_host(j: JsVal) -> HostVal
    decreases j,
{
    match j {
        JsVal::Str(s) => HostVal::Str(s),
        JsVal::NullOrUndef => HostVal::Null,
        JsVal::Bool(b) => HostVal::Bool(b),
        JsVal::Num(NumVal::Int(i)) => if in_i32_range(i) {
            HostVal::Int(i)
        } else {
            HostVal::Float(NumVal::Int(i))
        },
        JsVal::Num(NumVal::Bits(b)) => HostVal::Float(NumVal::Bits(b)),
        JsVal::Arr(es) => HostVal::Arr(spec_to_hosts(es)),
        JsVal::Func => HostVal::Str("Function"@),
        JsVal::Obj(es) => HostVal::Obj(spec_to_host_pairs(es)),
        JsVal::Other(s) => HostVal::Str(s),
    }
}

pub open spec fn spec_to_hosts(s: Seq<JsVal>) -> Seq<HostVal>
    decreases s,
{
    if s.len() == 0 {
        Seq::empty()
    } else {
        seq![spec_to_host(s[0])] + spec_to_hosts(s.subrange(1, s.len() as int))
    }
}

pub open spec fn spec_to_host_pairs(s: Seq<(Seq<char>, JsVal)>) -> Seq<(Seq<char>, HostVal)>
    decreases s,
{
    if s.len() == 0 {
        Seq::empty()
    } else {
        seq![(s[0].0, spec_to_host(s[0].1))] + spec_to_host_pairs(s.subrange(1, s.len() as int))
    }
}

pub broadcast proof fn lemma_spec_to_hosts(s: Seq<JsVal>)
    ensures
        (#[trigger] spec_to_hosts(s)).len() == s.len(),
        forall|i: int| 0 <= i < s.len() ==> spec_to_hosts(s)[i] == spec_to_host(s[i]),
    decreases s,
{
    if s.len() > 0 {
        lemma_spec_to_hosts(s.subrange(1, s.len() as int));
    }
}

pub broadcast proof fn lemma_spec_to_host_pairs(s: Seq<(Seq<char>, JsVal)>)
    ensures
        (#[trigger] spec_to_host_pairs(s)).len() == s.len(),
        forall|i: int| 0 <= i < s.len() ==> spec_to_host_pairs(s)[i] == (
            s[i].0,
            spec_to_host(s[i].1),
        ),
    decreases s,
{
    if s.len() > 0 {
        lemma_spec_to_host_pairs(s.subrange(1, s.len() as int));
    }
}

/// The decimal digit character for `d` (0 to 9).
pub open spec fn dec_digit(d: nat) -> char {
    if d == 0 {
        '0'
    } else if d == 1 {
        '1'
    } else if d == 2 {
        '2'
    } else if d == 3 {
        '3'
    } else if d == 4 {
        '4'
    } else if d == 5 {
        '5'
    } else if d == 6 {
        '6'
    } else if d == 7 {
        '7'
    } else if d == 8 {
        '8'
    } else {
        '9'
    }
}

/// The decimal spelling of `n`, most significant digit first, no leading zero
/// except for zero itself.
pub open spec fn dec_str(n: nat) -> Seq<char>
    decreases n,
{
    if n < 10 {
        seq![dec_digit(n)]
    } else {
        dec_str(n / 10).push(dec_digit(n % 10))
    }
}

/// Appends the decimal spelling of `n` to `s`.
fn push_dec(s: &mut String, n: u64)
    ensures
        final(s)@ == old(s)@ + dec_str(n as nat),
    decreases n,
{
    if n >= 10 {
        push_dec(s, n / 10);
    }
    let d: u64 = n % 10;
    let c: &'static str = if d == 0 {
        "0"
    } else if d == 1 {
        "1"
    } else if d == 2 {
        "2"
    } else if d == 3 {
        "3"
    } else if d == 4 {
        "4"
    } else if d == 5 {
        "5"
    } else if d == 6 {
        "6"
    } else if d == 7 {
        "7"
    } else if d == 8 {
        "8"
    } else {
        "9"
    };
    proof {
        reveal_strlit("0");
        reveal_strlit("1");
        reveal_strlit("2");
        reveal_strlit("3");
        reveal_strlit("4");
        reveal_strlit("5");
        reveal_strlit("6");
        reveal_strlit("7");
        reveal_strlit("8");
        reveal_strlit("9");
        assert(c@ =~= seq![dec_digit((n % 10) as nat)]);
    }
    s.append(c);
    proof {
        if n >= 10 {
            assert(old(s)@ + dec_str((n / 10) as nat) + c@ =~= old(s)@ + dec_str(n as nat));
        } else {
            assert(old(s)@ + c@ =~= old(s)@ + dec_str(n as nat));
        }
    }
}

/// The decimal spelling of `n`, as the host writes an index key when a mixed
/// array crosses into a script object.
pub fn u64_to_string(n: u64) -> (r: String)
    ensures
        r@ == dec_str(n as nat),
{
    let mut s = String::new();
    push_dec(&mut s, n);
    proof {
        assert(s@ =~= dec_str(n as nat));
    }
    s
}

/// The property name under which an array slot crosses into a script object:
/// a name key as itself, an index key spelled in decimal.
pub open spec fn spec_key_string(k: KeyV) -> Seq<char> {
    match k {
        KeyV::Index(i) => dec_str(i as nat),
        KeyV::Name(s) => s,
    }
}

/// Some slot of the array carries a name key, so the array crosses into a
/// script object rather than a dense script array.
pub open spec fn has_name_key(es: Seq<(KeyV, InputV)>) -> bool {
    exists|i: int| 0 <= i < es.len() && es[i].0 is Name
}

/// What the host-to-script conversion returns, on the view of a raw host
/// value.
pub open spec fn spec_js_of_input(z: InputV) -> JsVal
    decreases z,
{
    match z {
        InputV::Str(s) => JsVal::Str(s),
        InputV::Long(i) => JsVal::Num(NumVal::Int(i)),
        InputV::Double(n) => JsVal::Num(n),
        InputV::Bool(b) => JsVal::Bool(b),
        InputV::Null => JsVal::NullOrUndef,
        InputV::Arr(es) => if has_name_key(es) {
            JsVal::Obj(spec_js_entry_pairs(es))
        } else {
            JsVal::Arr(spec_js_entry_values(es))
        },
        InputV::Callable => JsVal::NullOrUndef,
        InputV::Opaque => JsVal::NullOrUndef,
    }
}

pub open spec fn spec_js_entry_values(es: Seq<(KeyV, InputV)>) -> Seq<JsVal>
    decreases es,
{
    if es.len() == 0 {
        Seq::empty()
    } else {
        seq![spec_js_of_input(es[0].1)] + spec_js_entry_values(es.subrange(1, es.len() as int))
    }
}

pub open spec fn spec_js_entry_pairs(es: Seq<(KeyV, InputV)>) -> Seq<(Seq<char>, JsVal)>
    decreases es,
{
    if es.len() == 0 {
        Seq::empty()
    } else {
        seq![(spec_key_string(es[0].0), spec_js_of_input(es[0].1))] + spec_js_entry_pairs(
            es.subrange(1, es.len() as int),
        )
    }
}

pub broadcast proof fn lemma_spec_js_entry_values(es: Seq<(KeyV, InputV)>)
    ensures
        (#[trigger] spec_js_entry_values(es)).len() == es.len(),
        forall|i: int| 0 <= i < es.len() ==> spec_js_entry_values(es)[i] == spec_js_of_input(
            es[i].1,
        ),
    decreases es,
{
    if es.len() > 0 {
        lemma_spec_js_entry_values(es.subrange(1, es.len() as int));
    }
}

pub broadcast proof fn lemma_spec_js_entry_pairs(es: Seq<(KeyV, InputV)>)
    ensures
        (#[trigger] spec_js_entry_pairs(es)).len() == es.len(),
        forall|i: int| 0 <= i < es.len() ==> spec_js_entry_pairs(es)[i] == (
            spec_key_string(es[i].0),
            spec_js_of_input(es[i].1),
        ),
    decreases es,
{
    if es.len() > 0 {
        lemma_spec_js_entry_pairs(es.subrange(1, es.len() as int));
    }
}

/// The raw property shape in which a host value crosses the boundary: an
/// ordered sequence becomes an array with consecutive index keys from zero, a
/// keyed map an array with name keys.
pub open spec fn spec_to_input(h: HostVal) -> InputV
    decreases h,
{
    match h {
        HostVal::Str(s) => InputV::Str(s),
        HostVal::Null => InputV::Null,
        HostVal::Bool(b) => InputV::Bool(b),
        HostVal::Float(n) => InputV::Double(n),
        HostVal::Int(i) => InputV::Long(i),
        HostVal::Arr(es) => InputV::Arr(spec_to_input_items(es, 0)),
        HostVal::Obj(es) => InputV::Arr(spec_to_input_pairs(es)),
    }
}

pub open spec fn spec_to_input_items(es: Seq<HostVal>, start: u64) -> Seq<(KeyV, InputV)>
    decreases es,
{
    if es.len() == 0 {
        Seq::empty()
    } else {
        seq![(KeyV::Index(start), spec_to_input(es[0]))] + spec_to_input_items(
            es.subrange(1, es.len() as int),
            (start + 1) as u64,
        )
    }
}

pub open spec fn spec_to_input_pairs(es: Seq<(Seq<char>, HostVal)>) -> Seq<(KeyV, InputV)>
    decreases es,
{
    if es.len() == 0 {
        Seq::empty()
    } else {
        seq![(KeyV::Name(es[0].0), spec_to_input(es[0].1))] + spec_to_input_pairs(
            es.subrange(1, es.len() as int),
        )
    }
}

pub broadcast proof fn lemma_spec_to_input_items(es: Seq<HostVal>, start: u64)
    ensures
        (#[trigger] spec_to_input_items(es, start)).len() == es.len(),
        forall|i: int| 0 <= i < es.len() ==> (#[trigger] spec_to_input_items(es, start)[i]).0
            is Index && spec_to_input_items(es, start)[i].1 == spec_to_input(es[i]),
    decreases es,
{
    if es.len() > 0 {
        lemma_spec_to_input_items(es.subrange(1, es.len() as int), (start + 1) as u64);
    }
}

pub proof fn lemma_spec_to_input_items_exact(es: Seq<HostVal>, start: u64)
    requires
        start + es.len() <= u64::MAX,
    ensures
        spec_to_input_items(es, start).len() == es.len(),
        forall|i: int| 0 <= i < es.len() ==> spec_to_input_items(es, start)[i] == (
            KeyV::Index(((start + i) as u64)),
            spec_to_input(es[i]),
        ),
    decreases es,
{
    if es.len() > 0 {
        lemma_spec_to_input_items_exact(es.subrange(1, es.len() as int), (start + 1) as u64);
    }
}

pub broadcast proof fn lemma_spec_to_input_pairs(es: Seq<(Seq<char>, HostVal)>)
    ensures
        (#[trigger] spec_to_input_pairs(es)).len() == es.len(),
        forall|i: int| 0 <= i < es.len() ==> spec_to_input_pairs(es)[i] == (
            KeyV::Name(es[i].0),
            spec_to_input(es[i].1),
        ),
    decreases es,
{
    if es.len() > 0 {
        lemma_spec_to_input_pairs(es.subrange(1, es.len() as int));
    }
}

/// What `toScriptValue` returns, on the view of a host value: the composition
/// of the raw crossing shape with the host-to-script conversion.
pub open spec fn spec_to_script(h: HostVal) -> JsVal {
    spec_js_of_input(spec_to_input(h))
}

impl PHPValue {
    /// `toHostValue`: translates a script value into a host value, following
    /// the engine's classification order. Total: every script value has a
    /// defined target, callables degrade to a fixed placeholder string, and
    /// any remaining exotic value degrades to its string coercion.
    #[verifier::loop_isolation(false)]
    pub fn from(result: &JsValue) -> (r: PHPValue)
        ensures
            r@ == spec_to_host(result@),
        decreases result,
    {
        broadcast use crate::value::lemma_js_values_view, crate::value::lemma_js_pairs_view, crate::value::lemma_php_values_view, crate::value::lemma_php_pairs_view, lemma_spec_to_hosts, lemma_spec_to_host_pairs;

        match result {
            JsValue::Str(s) => PHPValue::String(s.clone()),
            JsValue::NullOrUndefined => PHPValue::Null,
            JsValue::Bool(b) => PHPValue::Boolean(*b),
            JsValue::Num(NumVal::Int(i)) => {
                if *i >= i32::MIN as i64 && *i <= i32::MAX as i64 {
                    PHPValue::Integer(*i)
                } else {
                    PHPValue::Float(NumVal::Int(*i))
                }
            },
            JsValue::Num(NumVal::Bits(b)) => PHPValue::Float(NumVal::Bits(*b)),
            JsValue::Array(a) => {
                let mut vec: Vec<PHPValue> = Vec::new();
                let mut idx: usize = 0;
                while idx < a.len()
                    invariant
                        idx <= a.len(),
                        vec@.len() == idx,
                        forall|k: int| 0 <= k < idx ==> (#[trigger] vec@[k])@ == spec_to_host(
                            a@[k]@,
                        ),
                    decreases a.len() - idx,
                {
                    let v = PHPValue::from(&a[idx]);
                    vec.push(v);
                    idx += 1;
                }
                proof {
                    assert(crate::value::php_values_view(vec@) =~= spec_to_hosts(
                        crate::value::js_values_view(a@),
                    ));
                }
                PHPValue::Array(vec)
            },
            JsValue::Function => PHPValue::String(String::from_str("Function")),
            JsValue::Object(o) => {
                let mut entries: Vec<(String, PHPValue)> = Vec::new();
                let mut idx: usize = 0;
                while idx < o.len()
                    invariant
                        idx <= o.len(),
                        entries@.len() == idx,
                        forall|k: int| 0 <= k < idx ==> (#[trigger] entries@[k]).0@ == o@[k].0@
                            && entries@[k].1@ == spec_to_host(o@[k].1@),
                    decreases o.len() - idx,
                {
                    let key = o[idx].0.clone();
                    let v = PHPValue::from(&o[idx].1);
                    entries.push((key, v));
                    idx += 1;
                }
                proof {
                    assert(crate::value::php_pairs_view(entries@) =~= spec_to_host_pairs(
                        crate::value::js_pairs_view(o@),
                    ));
                }
                PHPValue::Object(entries)
            },
            JsValue::Other(s) => PHPValue::String(s.clone()),
        }
    }

    /// The raw property shape in which this host value crosses the boundary:
    /// an ordered sequence becomes an array slot list with consecutive index
    /// keys, a keyed map one with name keys.
    #[verifier::loop_isolation(false)]
    pub fn to_input(&self) -> (r: PhpInput)
        ensures
            r@ == spec_to_input(self@),
        decreases self,
    {
        broadcast use crate::value::lemma_php_values_view, crate::value::lemma_php_pairs_view, crate::value::lemma_php_input_pairs_view;

        match self {
            PHPValue::String(s) => PhpInput::Str(s.clone()),
            PHPValue::Null => PhpInput::Null,
            PHPValue::Boolean(b) => PhpInput::Bool(*b),
            PHPValue::Float(n) => PhpInput::Double(*n),
            PHPValue::Integer(i) => PhpInput::Long(*i),
            PHPValue::Array(a) => {
                let mut items: Vec<(ArrayKey, PhpInput)> = Vec::new();
                let mut idx: usize = 0;
                while idx < a.len()
                    invariant
                        idx <= a.len(),
                        items@.len() == idx,
                        forall|k: int| 0 <= k < idx ==> (#[trigger] items@[k]).0@ == KeyV::Index(
                            k as u64,
                        ) && items@[k].1@ == spec_to_input(a@[k]@),
                    decreases a.len() - idx,
                {
                    let v = a[idx].to_input();
                    items.push((ArrayKey::Index(idx as u64), v));
                    idx += 1;
                }
                proof {
                    lemma_spec_to_input_items_exact(crate::value::php_values_view(a@), 0);
                    assert(crate::value::php_input_pairs_view(items@) =~= spec_to_input_items(
                        crate::value::php_values_view(a@),
                        0,
                    ));
                }
                PhpInput::Array(items)
            },
            PHPValue::Object(o) => {
                let mut items: Vec<(ArrayKey, PhpInput)> = Vec::new();
                let mut idx: usize = 0;
                while idx < o.len()
                    invariant
                        idx <= o.len(),
                        items@.len() == idx,
                        forall|k: int| 0 <= k < idx ==> (#[trigger] items@[k]).0@ == KeyV::Name(
                            o@[k].0@,
                        ) && items@[k].1@ == spec_to_input(o@[k].1@),
                    decreases o.len() - idx,
                {
                    let key = o[idx].0.clone();
                    let v = o[idx].1.to_input();
                    items.push((ArrayKey::Name(key), v));
                    idx += 1;
                }
                proof {
                    lemma_spec_to_input_pairs(crate::value::php_pairs_view(o@));
                    assert(crate::value::php_input_pairs_view(items@) =~= spec_to_input_pairs(
                        crate::value::php_pairs_view(o@),
                    ));
                }
                PhpInput::Array(items)
            },
        }
    }
}

/// Translates a raw host value into a script value. Strings, numbers, booleans
/// and null map to their native counterparts; an array with only index keys
/// becomes a dense script array; an array with any name key becomes a plain
/// script object whose index keys are spelled in decimal; anything else maps
/// to script null.
#[verifier::loop_isolation(false)]
pub fn js_value_from_zval(zval: &PhpInput) -> (r: JsValue)
    ensures
        r@ == spec_js_of_input(zval@),
    decreases zval,
{
    broadcast use crate::value::lemma_php_input_pairs_view, crate::value::lemma_js_values_view, crate::value::lemma_js_pairs_view, lemma_spec_js_entry_values, lemma_spec_js_entry_pairs;

    match zval {
        PhpInput::Str(s) => JsValue::Str(s.clone()),
        PhpInput::Long(i) => JsValue::Num(NumVal::Int(*i)),
        PhpInput::Double(n) => JsValue::Num(*n),
        PhpInput::Bool(b) => JsValue::Bool(*b),
        PhpInput::Null => JsValue::NullOrUndefined,
        PhpInput::Array(entries) => {
            let ghost entries_v = crate::value::php_input_pairs_view(entries@);
            let mut has_string_keys = false;
            let mut idx: usize = 0;
            while idx < entries.len()
                invariant
                    idx <= entries.len(),
                    entries_v == crate::value::php_input_pairs_view(entries@),
                    has_string_keys == exists|j: int|
                        0 <= j < idx && (#[trigger] entries_v[j]).0 is Name,
                decreases entries.len() - idx,
            {
                if matches!(&entries[idx].0, ArrayKey::Name(_)) {
                    proof {
                        assert(entries_v[idx as int].0 is Name);
                    }
                    has_string_keys = true;
                }
                idx += 1;
            }
            proof {
                assert(has_string_keys == has_name_key(entries_v));
            }
            if has_string_keys {
                let mut pairs: Vec<(String, JsValue)> = Vec::new();
                let mut i: usize = 0;
                while i < entries.len()
                    invariant
                        i <= entries.len(),
                        pairs@.len() == i,
                        forall|k: int| 0 <= k < i ==> (#[trigger] pairs@[k]).0@
                            == spec_key_string(entries@[k].0@) && pairs@[k].1@ == spec_js_of_input(
                            entries@[k].1@,
                        ),
                    decreases entries.len() - i,
                {
                    let key = match &entries[i].0 {
                        ArrayKey::Name(s) => s.clone(),
                        ArrayKey::Index(n) => u64_to_string(*n),
                    };
                    let v = js_value_from_zval(&entries[i].1);
                    pairs.push((key, v));
                    i += 1;
                }
                proof {
                    assert(crate::value::js_pairs_view(pairs@) =~= spec_js_entry_pairs(entries_v));
                }
                JsValue::Object(pairs)
            } else {
                let mut values: Vec<JsValue> = Vec::new();
                let mut i: usize = 0;
                while i < entries.len()
                    invariant
                        i <= entries.len(),
                        values@.len() == i,
                        forall|k: int| 0 <= k < i ==> (#[trigger] values@[k])@ == spec_js_of_input(
                            entries@[k].1@,
                        ),
                    decreases entries.len() - i,
                {
                    let v = js_value_from_zval(&entries[i].1);
                    values.push(v);
                    i += 1;
                }
                proof {
                    assert(crate::value::js_values_view(values@) =~= spec_js_entry_values(
                        entries_v,
                    ));
                }
                JsValue::Array(values)
            }
        },
        PhpInput::Callable => JsValue::NullOrUndefined,
        PhpInput::Opaque => JsValue::NullOrUndefined,
    }
}

/// `toScriptValue`: translates a host value into a script value, through the
/// raw shape in which the host hands it over.
pub fn to_script_value(value: &PHPValue) -> (r: JsValue)
    ensures
        r@ == spec_to_script(value@),
{
    let input = value.to_input();
    js_value_from_zval(&input)
}

} // verus!
