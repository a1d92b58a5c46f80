//! The data model of the bridge: host (PHP-side) values, script (JavaScript-side)
//! values, and the raw property values a host hands across the boundary, each
//! with a mathematical view used by every contract in the crate.

use vstd::prelude::*;

verus! {

/// Model of a script-engine number. The engine stores a number either as a
/// boxed IEEE-754 double or, for integers in 32-bit range, as an immediate
/// integer; the conversion logic only ever branches on that classification.
/// `Int(i)` models a number holding exactly the integer `i`; `Bits(b)` models
/// any other number by its IEEE-754 bit pattern, carried verbatim and never
/// interpreted here (NaN and the infinities pass through unchanged). Rounding
/// of integers too wide for a double's 53-bit mantissa happens inside the
/// engine and is below this model's granularity.
#[derive(Debug, Clone, Copy, PartialEq, Eq, Structural)]
pub enum NumVal {
    Int(i64),
    Bits(u64),
}

/// Mathematical view of a host value.
pub enum HostVal {
    Str(Seq<char>),
    Null,
    Bool(bool),
    Float(NumVal),
    Int(i64),
    Arr(Seq<HostVal>),
    Obj(Seq<(Seq<char>, HostVal)>),
}

/// A host (PHP-side) value: the closed tagged union every script result is
/// translated into. Immutable, owned by the caller, built fresh on each
/// conversion. Doubles are carried as `NumVal` (the host shim converts to and
/// from the native float); the keyed map is carried as an ordered list of
/// pairs whose keys are unique (see [`host_wf`]), standing for the host's
/// unordered string-keyed map.
#[derive(Debug, PartialEq)]
pub enum PHPValue {
    String(String),
    Null,
    Boolean(bool),
    Float(NumVal),
    Integer(i64),
    Array(Vec<PHPValue>),
    Object(Vec<(String, PHPValue)>),
}

pub open spec fn php_value_view(v: PHPValue) -> HostVal
    decreases v,
{
    match v {
        PHPValue::String(s) => HostVal::Str(s@),
        PHPValue::Null => HostVal::Null,
        PHPValue::Boolean(b) => HostVal::Bool(b),
        PHPValue::Float(n) => HostVal::Float(n),
        PHPValue::Integer(i) => HostVal::Int(i),
        PHPValue::Array(a) => HostVal::Arr(php_values_view(a@)),
        PHPValue::Object(o) => HostVal::Obj(php_pairs_view(o@)),
    }
}

pub open spec fn php_values_view(s: Seq<PHPValue>) -> Seq<HostVal>
    decreases s,
{
    if s.len() == 0 {
        Seq::empty()
    } else {
        seq![php_value_view(s[0])] + php_values_view(s.subrange(1, s.len() as int))
    }
}

pub open spec fn php_pairs_view(s: Seq<(String, PHPValue)>) -> Seq<(Seq<char>, HostVal)>
    decreases s,
{
    if s.len() == 0 {
        Seq::empty()
    } else {
        seq![(s[0].0@, php_value_view(s[0].1))] + php_pairs_view(s.subrange(1, s.len() as int))
    }
}

pub broadcast proof fn lemma_php_values_view(s: Seq<PHPValue>)
    ensures
        (#[trigger] php_values_view(s)).len() == s.len(),
        forall|i: int| 0 <= i < s.len() ==> php_values_view(s)[i] == php_value_view(s[i]),
    decreases s,
{
    if s.len() > 0 {
        lemma_php_values_view(s.subrange(1, s.len() as int));
    }
}

pub broadcast proof fn lemma_php_pairs_view(s: Seq<(String, PHPValue)>)
    ensures
        (#[trigger] php_pairs_view(s)).len() == s.len(),
        forall|i: int| 0 <= i < s.len() ==> php_pairs_view(s)[i] == (
            s[i].0@,
            php_value_view(s[i].1),
        ),
    decreases s,
{
    if s.len() > 0 {
        lemma_php_pairs_view(s.subrange(1, s.len() as int));
    }
}

impl View for PHPValue {
    type V = HostVal;

    open spec fn view(&self) -> HostVal {
        php_value_view(*self)
    }
}

/// Mathematical view of a script value.
pub enum JsVal {
    Str(Seq<char>),
    NullOrUndef,
    Bool(bool),
    Num(NumVal),
    Arr(Seq<JsVal>),
    Func,
    Obj(Seq<(Seq<char>, JsVal)>),
    Other(Seq<char>),
}

/// A script (JavaScript-side) value, at the granularity the bridge reads it:
/// the engine's classification of a handle, with the data each class exposes.
/// `Func` stands for any callable; `Other` stands for any remaining exotic
/// value, carrying its engine string coercion. An `Object`'s entries are its
/// own properties in the engine's enumeration order; own property names are
/// unique (see [`js_wf`]).
#[derive(Debug, PartialEq)]
pub enum JsValue {
    Str(String),
    NullOrUndefined,
    Bool(bool),
    Num(NumVal),
    Array(Vec<JsValue>),
    Function,
    Object(Vec<(String, JsValue)>),
    Other(String),
}

pub open spec fn js_value_view(v: JsValue) -> JsVal
    decreases v,
{
    match v {
        JsValue::Str(s) => JsVal::Str(s@),
        JsValue::NullOrUndefined => JsVal::NullOrUndef,
        JsValue::Bool(b) => JsVal::Bool(b),
        JsValue::Num(n) => JsVal::Num(n),
        JsValue::Array(a) => JsVal::Arr(js_values_view(a@)),
        JsValue::Function => JsVal::Func,
        JsValue::Object(o) => JsVal::Obj(js_pairs_view(o@)),
        JsValue::Other(s) => JsVal::Other(s@),
    }
}

pub open spec fn js_values_view(s: Seq<JsValue>) -> Seq<JsVal>
    decreases s,
{
    if s.len() == 0 {
        Seq::empty()
    } else {
        seq![js_value_view(s[0])] + js_values_view(s.subrange(1, s.len() as int))
    }
}

pub open spec fn js_pairs_view(s: Seq<(String, JsValue)>) -> Seq<(Seq<char>, JsVal)>
    decreases s,
{
    if s.len() == 0 {
        Seq::empty()
    } else {
        seq![(s[0].0@, js_value_view(s[0].1))] + js_pairs_view(s.subrange(1, s.len() as int))
    }
}

pub broadcast proof fn lemma_js_values_view(s: Seq<JsValue>)
    ensures
        (#[trigger] js_values_view(s)).len() == s.len(),
        forall|i: int| 0 <= i < s.len() ==> js_values_view(s)[i] == js_value_view(s[i]),
    decreases s,
{
    if s.len() > 0 {
        lemma_js_values_view(s.subrange(1, s.len() as int));
    }
}

pub broadcast proof fn lemma_js_pairs_view(s: Seq<(String, JsValue)>)
    ensures
        (#[trigger] js_pairs_view(s)).len() == s.len(),
        forall|i: int| 0 <= i < s.len() ==> js_pairs_view(s)[i] == (
            s[i].0@,
            js_value_view(s[i].1),
        ),
    decreases s,
{
    if s.len() > 0 {
        lemma_js_pairs_view(s.subrange(1, s.len() as int));
    }
}

impl View for JsValue {
    type V = JsVal;

    open spec fn view(&self) -> JsVal {
        js_value_view(*self)
    }
}

/// A key of a host array slot: PHP arrays interleave integer indices and
/// string names, and the conversion to a script value branches on which kinds
/// occur.
#[derive(Debug, Clone, PartialEq)]
pub enum ArrayKey {
    Index(u64),
    Name(String),
}

/// Mathematical view of an [`ArrayKey`].
pub enum KeyV {
    Index(u64),
    Name(Seq<char>),
}

impl View for ArrayKey {
    type V = KeyV;

    open spec fn view(&self) -> KeyV {
        match *self {
            ArrayKey::Index(i) => KeyV::Index(i),
            ArrayKey::Name(ref s) => KeyV::Name(s@),
        }
    }
}

/// Mathematical view of a raw host property value.
pub enum InputV {
    Str(Seq<char>),
    Long(i64),
    Double(NumVal),
    Bool(bool),
    Null,
    Arr(Seq<(KeyV, InputV)>),
    Callable,
    Opaque,
}

/// A raw value as the host hands it across the boundary (the shape of a PHP
/// zval, at the granularity the bridge reads it): the host's type tag with the
/// data each tag exposes. `Callable` stands for a non-string callable;
/// `Opaque` for any remaining host type, which the bridge maps to script null.
#[derive(Debug, PartialEq)]
pub enum PhpInput {
    Str(String),
    Long(i64),
    Double(NumVal),
    Bool(bool),
    Null,
    Array(Vec<(ArrayKey, PhpInput)>),
    Callable,
    Opaque,
}

pub open spec fn php_input_view(v: PhpInput) -> InputV
    decreases v,
{
    match v {
        PhpInput::Str(s) => InputV::Str(s@),
        PhpInput::Long(i) => InputV::Long(i),
        PhpInput::Double(n) => InputV::Double(n),
        PhpInput::Bool(b) => InputV::Bool(b),
        PhpInput::Null => InputV::Null,
        PhpInput::Array(a) => InputV::Arr(php_input_pairs_view(a@)),
        PhpInput::Callable => InputV::Callable,
        PhpInput::Opaque => InputV::Opaque,
    }
}

pub open spec fn php_input_pairs_view(s: Seq<(ArrayKey, PhpInput)>) -> Seq<(KeyV, InputV)>
    decreases s,
{
    if s.len() == 0 {
        Seq::empty()
    } else {
        seq![(s[0].0@, php_input_view(s[0].1))] + php_input_pairs_view(
            s.subrange(1, s.len() as int),
        )
    }
}

pub broadcast proof fn lemma_php_input_pairs_view(s: Seq<(ArrayKey, PhpInput)>)
    ensures
        (#[trigger] php_input_pairs_view(s)).len() == s.len(),
        forall|i: int| 0 <= i < s.len() ==> php_input_pairs_view(s)[i] == (
            s[i].0@,
            php_input_view(s[i].1),
        ),
    decreases s,
{
    if s.len() > 0 {
        lemma_php_input_pairs_view(s.subrange(1, s.len() as int));
    }
}

impl View for PhpInput {
    type V = InputV;

    open spec fn view(&self) -> InputV {
        php_input_view(*self)
    }
}

/// Keys of an association list are pairwise distinct.
pub open spec fn keys_unique<T>(es: Seq<(Seq<char>, T)>) -> bool {
    forall|i: int, j: int| 0 <= i < j < es.len() ==> es[i].0 != es[j].0
}

/// Well-formedness of a script value: every object level lists each own
/// property name once, as the engine's own-property enumeration guarantees.
pub open spec fn js_wf(v: JsVal) -> bool
    decreases v,
{
    match v {
        JsVal::Arr(es) => forall|i: int| 0 <= i < es.len() ==> js_wf(#[trigger] es[i]),
        JsVal::Obj(es) => keys_unique(es) && forall|i: int|
            0 <= i < es.len() ==> js_wf(#[trigger] es[i].1),
        _ => true,
    }
}

/// Well-formedness of a host value: every keyed-map level has no duplicate
/// keys, the invariant the host's map type enforces.
pub open spec fn host_wf(v: HostVal) -> bool
    decreases v,
{
    match v {
        HostVal::Arr(es) => forall|i: int| 0 <= i < es.len() ==> host_wf(#[trigger] es[i]),
        HostVal::Obj(es) => keys_unique(es) && forall|i: int|
            0 <= i < es.len() ==> host_wf(#[trigger] es[i].1),
        _ => true,
    }
}

} // verus!
