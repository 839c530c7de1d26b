//! Resolving the delivery envelope from the form's "envelope" field.
//!
//! The field holds JSON of the shape `{"to": [string...], "from": string}`.
//! The text is parsed by serde_json behind a small trusted surface: the
//! parse result is modelled by the [`Jv`] tree, and the verified code here
//! walks the parsed value and extracts the envelope exactly as
//! [`envelope_of_jv`] says.

use crate::errors::RelayError;
use crate::models::{Envelope, EnvelopeModel};
use vstd::prelude::*;

verus! {

/// The shape of a parsed JSON value, as far as the envelope reads it:
/// strings, arrays and objects are modelled; every other kind of value is
/// [`Jv::Other`].
pub enum Jv {
    /// A JSON string, as its characters.
    Str(Seq<char>),
    /// A JSON array, element by element.
    Arr(Seq<Jv>),
    /// A JSON object, keyed by member name; a repeated name keeps one entry.
    Obj(Map<Seq<char>, Jv>),
    /// A null, boolean or number, none of which the envelope reads.
    Other,
}

#[verifier::external_type_specification]
#[verifier::external_body]
pub struct ExValue(serde_json::Value);

/// What parsing the given JSON text yields, or `None` when the text is not
/// valid JSON. The result depends on the text alone.
pub uninterp spec fn json_parse(s: Seq<char>) -> Option<Jv>;

/// The [`Jv`] tree that a parsed `serde_json::Value` holds.
pub uninterp spec fn jv_of(v: serde_json::Value) -> Jv;

/// Relies on serde_json::from_str::<serde_json::Value>: parses JSON text
/// into a value tree; the result depends on the text alone.
#[verifier::external_body]
fn parse_json_text(s: &str) -> (r: Option<serde_json::Value>)
    ensures
        r is Some <==> json_parse(s@) is Some,
        r is Some ==> jv_of(r->Some_0) == json_parse(s@)->Some_0,
{
    serde_json::from_str::<serde_json::Value>(s).ok()
}

/// True for a character that keeps a one-token JSON Pointer plain: no
/// nested token, no escape, and no array index.
pub open spec fn plain_pointer_char(c: char) -> bool {
    c != '/' && c != '~' && c != '-' && !('0' as int <= c as int && c as int <= '9' as int)
}

/// True for a JSON Pointer of one plain token: "/" followed by a member
/// name free of separators, escapes and array indices. On such a pointer,
/// lookup reads one object member and nothing else.
pub open spec fn plain_pointer(p: Seq<char>) -> bool {
    &&& p.len() >= 2
    &&& p[0] == '/'
    &&& forall|i: int| 1 <= i < p.len() ==> plain_pointer_char(#[trigger] p[i])
}

/// Relies on serde_json::Value::pointer: on a one-token pointer free of
/// escapes and array indices, it returns the named member of an object and
/// nothing of any other value.
pub assume_specification<'a>[ serde_json::Value::pointer ](
    v: &'a serde_json::Value,
    pointer: &str,
) -> (r: Option<&'a serde_json::Value>)
    requires
        plain_pointer(pointer@),
    ensures
        (match jv_of(*v) {
            Jv::Obj(m) => {
                &&& r is Some <==> m.contains_key(pointer@.skip(1))
                &&& r is Some ==> jv_of(*r->Some_0) == m[pointer@.skip(1)]
            },
            _ => r is None,
        }),
;

/// Relies on serde_json::Value::as_array: returns the elements exactly of
/// an array value.
pub assume_specification<'a>[ serde_json::Value::as_array ](v: &'a serde_json::Value) -> (r:
    Option<&'a Vec<serde_json::Value>>)
    ensures
        r is Some <==> jv_of(*v) is Arr,
        r is Some ==> r->Some_0@.map_values(|e: serde_json::Value| jv_of(e)) == jv_of(*v)->Arr_0,
;

/// Relies on serde_json::Value::as_str: returns the characters exactly of
/// a string value.
pub assume_specification<'a>[ serde_json::Value::as_str ](v: &'a serde_json::Value) -> (r: Option<
    &'a str,
>)
    ensures
        r is Some <==> jv_of(*v) is Str,
        r is Some ==> r->Some_0@ == jv_of(*v)->Str_0,
;

/// True when every element of the sequence is a JSON string.
pub open spec fn string_items(items: Seq<Jv>) -> bool {
    forall|i: int| 0 <= i < items.len() ==> (#[trigger] items[i]) is Str
}

/// The characters of a JSON string value; any other value reads as empty.
pub open spec fn str_of(e: Jv) -> Seq<char> {
    match e {
        Jv::Str(s) => s,
        _ => Seq::empty(),
    }
}

/// The characters of each element of a sequence of JSON string values.
pub open spec fn strs_of(items: Seq<Jv>) -> Seq<Seq<char>> {
    Seq::new(items.len(), |k: int| str_of(items[k]))
}

/// The envelope a parsed JSON value holds: the value must be an object
/// whose "to" member is an array of strings and whose "from" member is a
/// string; anything else is no envelope. Members besides "to" and "from"
/// are ignored.
pub open spec fn envelope_of_jv(j: Jv) -> Option<EnvelopeModel> {
    match j {
        Jv::Obj(m) => {
            if m.contains_key("to"@) && m.contains_key("from"@) {
                match (m["to"@], m["from"@]) {
                    (Jv::Arr(items), Jv::Str(f)) => {
                        if string_items(items) {
                            Some(EnvelopeModel { to: strs_of(items), from: f })
                        } else {
                            None
                        }
                    },
                    _ => None,
                }
            } else {
                None
            }
        },
        _ => None,
    }
}

/// The envelope the given JSON text holds, or `None` when the text is not
/// valid JSON or not of the envelope shape.
pub open spec fn parse_envelope_spec(s: Seq<char>) -> Option<EnvelopeModel> {
    match json_parse(s) {
        None => None,
        Some(j) => envelope_of_jv(j),
    }
}

/// Decodes the form's "envelope" text into an [`Envelope`], exactly as
/// [`parse_envelope_spec`] says; any other text is rejected as a failed
/// envelope parse.
#[verifier::loop_isolation(false)]
pub fn parse_envelope(text: &str) -> (r: Result<Envelope, RelayError>)
    ensures
        r is Ok <==> parse_envelope_spec(text@) is Some,
        r is Ok ==> r->Ok_0@ == parse_envelope_spec(text@)->Some_0,
        r is Err ==> r->Err_0 == RelayError::FailedToParseEnvelope,
{
    proof {
        reveal_strlit("/to");
        reveal_strlit("/from");
        reveal_strlit("to");
        reveal_strlit("from");
    }
    let v = match parse_json_text(text) {
        Some(v) => v,
        None => {
            return Err(RelayError::FailedToParseEnvelope);
        },
    };
    proof {
        assert(plain_pointer("/to"@)) by {
            assert("/to"@[1] == 't' && "/to"@[2] == 'o');
        }
        assert(plain_pointer("/from"@)) by {
            assert("/from"@[1] == 'f' && "/from"@[2] == 'r' && "/from"@[3] == 'o' && "/from"@[4]
                == 'm');
        }
        assert("/to"@.skip(1) =~= "to"@);
        assert("/from"@.skip(1) =~= "from"@);
    }
    let to_value = match v.pointer("/to") {
        Some(t) => t,
        None => {
            return Err(RelayError::FailedToParseEnvelope);
        },
    };
    let arr = match to_value.as_array() {
        Some(a) => a,
        None => {
            return Err(RelayError::FailedToParseEnvelope);
        },
    };
    let ghost items = jv_of(*to_value)->Arr_0;
    let mut to: Vec<String> = Vec::new();
    let mut i: usize = 0;
    proof {
        assert(to.deep_view() =~= strs_of(items.take(0)));
    }
    while i < arr.len()
        invariant
            i <= arr.len(),
            jv_of(*to_value) is Arr,
            items == jv_of(*to_value)->Arr_0,
            arr@.map_values(|e: serde_json::Value| jv_of(e)) == items,
            string_items(items.take(i as int)),
            to.deep_view() == strs_of(items.take(i as int)),
        decreases arr.len() - i,
    {
        let element = &arr[i];
        proof {
            assert(jv_of(arr@[i as int]) == items[i as int]);
        }
        let s = match element.as_str() {
            Some(s) => s,
            None => {
                proof {
                    assert(!string_items(items)) by {
                        assert(items[i as int] !is Str);
                    }
                }
                return Err(RelayError::FailedToParseEnvelope);
            },
        };
        let owned = s.to_owned();
        let ghost old_to = to@;
        let ghost old_dv = to.deep_view();
        to.push(owned);
        proof {
            assert(old_dv.len() == i);
            assert(old_to.len() == i);
            assert(string_items(items.take(i + 1))) by {
                assert(forall|k: int|
                    0 <= k < i + 1 ==> (#[trigger] items.take(i + 1)[k]) == items[k]);
            }
            assert forall|k: int| 0 <= k < to@.len() implies to.deep_view()[k] == strs_of(
                items.take(i + 1),
            )[k] by {
                assert(items.take(i + 1)[k] == items[k]);
                if k < i as int {
                    assert(to@[k] == old_to[k]);
                    assert(old_dv[k] == strs_of(items.take(i as int))[k]);
                    assert(strs_of(items.take(i as int))[k] == str_of(items[k]));
                } else {
                    assert(to@[k]@ == str_of(items[i as int]));
                }
            }
            assert(to.deep_view() =~= strs_of(items.take(i + 1)));
        }
        i = i + 1;
    }
    proof {
        assert(items.take(items.len() as int) =~= items);
    }
    let from_value = match v.pointer("/from") {
        Some(f) => f,
        None => {
            return Err(RelayError::FailedToParseEnvelope);
        },
    };
    let from = match from_value.as_str() {
        Some(f) => f,
        None => {
            return Err(RelayError::FailedToParseEnvelope);
        },
    };
    let envelope = Envelope { to, from: from.to_owned() };
    proof {
        assert(envelope@.to =~= strs_of(items));
    }
    Ok(envelope)
}

} // verus!
