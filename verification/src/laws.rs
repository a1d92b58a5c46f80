//! The laws of the value converter: totality of the script-to-host direction
//! and the round-trip guarantee for host values with no unrepresentable part.

use vstd::prelude::*;

use crate::convert::has_name_key;
use crate::convert::in_i32_range;
use crate::convert::lemma_spec_js_entry_pairs;
use crate::convert::lemma_spec_js_entry_values;
use crate::convert::lemma_spec_to_host_pairs;
use crate::convert::lemma_spec_to_hosts;
use crate::convert::lemma_spec_to_input_items;
use crate::convert::lemma_spec_to_input_pairs;
use crate::convert::spec_js_entry_pairs;
use crate::convert::spec_js_entry_values;
use crate::convert::spec_to_host;
use crate::convert::spec_to_host_pairs;
use crate::convert::spec_to_hosts;
use crate::convert::spec_to_input_items;
use crate::convert::spec_to_input_pairs;
use crate::convert::spec_to_script;
use crate::value::host_wf;
use crate::value::js_wf;
use crate::value::keys_unique;
use crate::value::HostVal;
use crate::value::JsVal;
use crate::value::NumVal;

verus! {

/// A decimal digit character.
pub open spec fn is_dec_digit(c: char) -> bool {
    '0' <= c && c <= '9'
}

/// A map key the host's array type would silently turn into an index key: the
/// canonical decimal spelling of an integer, with or without a leading minus.
/// Such a key would cross the boundary as an index slot rather than a name
/// slot, so a map that uses one is not faithfully representable. (The host
/// leaves the spellings of integers too wide for its word size as names; that
/// corner is excluded here conservatively.)
pub open spec fn integer_like_key(s: Seq<char>) -> bool {
    ||| (s.len() > 0 && (forall|i: int| 0 <= i < s.len() ==> is_dec_digit(#[trigger] s[i])) && (
    s[0] != '0' || s.len() == 1))
    ||| (s.len() > 1 && s[0] == '-' && s[1] != '0' && (forall|i: int|
        1 <= i < s.len() ==> is_dec_digit(#[trigger] s[i])))
}

/// A host value with no unrepresentable part, so that converting it to a
/// script value and back returns it exactly:
/// - an integer must fit the engine's immediate 32-bit class (a wider one
///   crosses as a double and reads back as a float);
/// - a float holding an exact integer in that class reads back as an integer,
///   so it is excluded;
/// - a keyed map must be non-empty (an empty one crosses as an empty array and
///   reads back as a sequence), its keys must be unique and none may be
///   integer-like;
/// - every nested value must be representable in turn.
pub open spec fn representable(h: HostVal) -> bool
    decreases h,
{
    match h {
        HostVal::Str(_) => true,
        HostVal::Null => true,
        HostVal::Bool(_) => true,
        HostVal::Int(i) => in_i32_range(i),
        HostVal::Float(NumVal::Int(i)) => !in_i32_range(i),
        HostVal::Float(NumVal::Bits(_)) => true,
        HostVal::Arr(es) => forall|i: int| 0 <= i < es.len() ==> representable(#[trigger] es[i]),
        HostVal::Obj(es) => es.len() > 0 && keys_unique(es) && (forall|i: int|
            0 <= i < es.len() ==> !integer_like_key(#[trigger] es[i].0)) && (forall|i: int|
            0 <= i < es.len() ==> representable(#[trigger] es[i].1)),
    }
}

/// Totality of `toHostValue`, stated on well-formedness: the conversion is
/// defined for every script value (it is a total function and the executable
/// conversion has no precondition), and on every well-formed script value it
/// yields a well-formed host value, however deeply nested.
pub proof fn lemma_to_host_total(j: JsVal)
    requires
        js_wf(j),
    ensures
        host_wf(spec_to_host(j)),
    decreases j,
{
    broadcast use lemma_spec_to_hosts, lemma_spec_to_host_pairs;

    match j {
        JsVal::Arr(es) => {
            assert forall|i: int| 0 <= i < es.len() implies host_wf(
                #[trigger] spec_to_hosts(es)[i],
            ) by {
                lemma_to_host_total(es[i]);
            }
        },
        JsVal::Obj(es) => {
            assert forall|i: int| 0 <= i < es.len() implies host_wf(
                #[trigger] spec_to_host_pairs(es)[i].1,
            ) by {
                lemma_to_host_total(es[i].1);
            }
            assert(keys_unique(spec_to_host_pairs(es)));
        },
        _ => {},
    }
}

/// The round-trip law: a host value with no unrepresentable part converts to a
/// script value and back to exactly itself.
pub proof fn lemma_round_trip(h: HostVal)
    requires
        representable(h),
    ensures
        spec_to_host(spec_to_script(h)) == h,
    decreases h,
{
    broadcast use lemma_spec_to_hosts, lemma_spec_to_host_pairs, lemma_spec_to_input_items, lemma_spec_to_input_pairs, lemma_spec_js_entry_values, lemma_spec_js_entry_pairs;

    match h {
        HostVal::Arr(es) => {
            let items = spec_to_input_items(es, 0);
            assert(!has_name_key(items));
            let vals = spec_js_entry_values(items);
            assert forall|i: int| 0 <= i < es.len() implies (#[trigger] spec_to_hosts(vals)[i])
                == es[i] by {
                lemma_round_trip(es[i]);
                assert(vals[i] == spec_to_script(es[i]));
            }
            assert(spec_to_hosts(vals) =~= es);
        },
        HostVal::Obj(es) => {
            let items = spec_to_input_pairs(es);
            assert(items[0].0 is Name);
            assert(has_name_key(items));
            let pairs = spec_js_entry_pairs(items);
            assert forall|i: int| 0 <= i < es.len() implies (#[trigger] spec_to_host_pairs(
                pairs,
            )[i]) == es[i] by {
                lemma_round_trip(es[i].1);
                assert(spec_to_host_pairs(pairs)[i].1 == spec_to_host(spec_to_script(es[i].1)));
            }
            assert(spec_to_host_pairs(pairs) =~= es);
        },
        _ => {},
    }
}

/// The missing-callback law's conversion half: the script `undefined` a
/// failed dispatch yields reads back as the host's null. (That an
/// unregistered or non-invocable name yields `undefined` without raising is
/// stated by the trampoline dispatch's own contract.)
pub proof fn lemma_undefined_reads_as_null()
    ensures
        spec_to_host(JsVal::NullOrUndef) == HostVal::Null,
{
}

/// The ordering law: converting an ordered sequence to a script value and back
/// yields the same elements in the same order.
pub proof fn lemma_ordering(es: Seq<HostVal>)
    requires
        forall|i: int| 0 <= i < es.len() ==> representable(#[trigger] es[i]),
    ensures
        spec_to_host(spec_to_script(HostVal::Arr(es))) matches HostVal::Arr(r) && r.len()
            == es.len() && forall|i: int| 0 <= i < es.len() ==> r[i] == es[i],
{
    lemma_round_trip(HostVal::Arr(es));
}

} // verus!
