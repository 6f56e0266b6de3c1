//! A JSON document as plain library data, and the trusted bridge that
//! reads one out of a text frame.
//!
//! Venue frames arrive as JSON text. The text is parsed by serde_json
//! behind one trusted function; everything that then inspects the
//! document — classification, field extraction, quote construction — is
//! verified code over this tree.
use vstd::prelude::*;

verus! {

/// A parsed JSON document. Numbers keep the decimal text serde_json
/// renders for them, since venues quote prices as strings anyway and the
/// library's own decimal parser decides what they mean.
#[derive(Debug)]
pub enum JsonValue {
    Null,
    Bool(bool),
    Num(String),
    Str(String),
    Arr(Vec<JsonValue>),
    Obj(Vec<(String, JsonValue)>),
}

/// First binding of `key` among the pairs of an object.
pub open spec fn spec_pairs_get(pairs: Seq<(String, JsonValue)>, key: Seq<char>) -> Option<
    JsonValue,
>
    decreases pairs.len(),
{
    if pairs.len() == 0 {
        None
    } else if pairs[0].0@ == key {
        Some(pairs[0].1)
    } else {
        spec_pairs_get(pairs.drop_first(), key)
    }
}

impl JsonValue {
    /// Object member lookup; `None` on anything that is not an object.
    pub open spec fn spec_get(self, key: Seq<char>) -> Option<JsonValue> {
        match self {
            JsonValue::Obj(pairs) => spec_pairs_get(pairs@, key),
            _ => None,
        }
    }

    pub open spec fn spec_str(self) -> Option<Seq<char>> {
        match self {
            JsonValue::Str(s) => Some(s@),
            _ => None,
        }
    }

    pub open spec fn spec_bool(self) -> Option<bool> {
        match self {
            JsonValue::Bool(b) => Some(b),
            _ => None,
        }
    }

    pub open spec fn spec_arr(self) -> Option<Seq<JsonValue>> {
        match self {
            JsonValue::Arr(items) => Some(items@),
            _ => None,
        }
    }

    /// Reads a JSON document out of a text frame; `None` on malformed
    /// text.
    pub fn parse_document(s: &str) -> (r: Option<JsonValue>)
        ensures
            r == parsed_json(s@),
    {
        parse_json(s)
    }

    /// The member `key` of an object, when the object holds it.
    #[verifier::loop_isolation(false)]
    pub fn get<'a>(&'a self, key: &str) -> (r: Option<&'a JsonValue>)
        ensures
            match r {
                Some(v) => self.spec_get(key@) == Some(*v),
                None => self.spec_get(key@) is None,
            },
    {
        match self {
            JsonValue::Obj(pairs) => {
                let n = pairs.len();
                let mut i: usize = 0;
                proof {
                    assert(pairs@.skip(0) =~= pairs@);
                }
                while i < n
                    invariant
                        n == pairs@.len(),
                        i <= n,
                        spec_pairs_get(pairs@, key@) == spec_pairs_get(
                            pairs@.skip(i as int),
                            key@,
                        ),
                    decreases n - i,
                {
                    proof {
                        assert(pairs@.skip(i as int)[0] == pairs@[i as int]);
                        assert(pairs@.skip(i as int).drop_first() =~= pairs@.skip(i + 1));
                    }
                    if crate::strutil::str_eq(pairs[i].0.as_str(), key) {
                        proof {
                            assert(pairs@.skip(i as int)[0].0@ == key@);
                            assert(spec_pairs_get(pairs@.skip(i as int), key@) == Some(
                                pairs@[i as int].1,
                            ));
                        }
                        return Some(&pairs[i].1);
                    }
                    i += 1;
                }
                proof {
                    assert(pairs@.skip(n as int) =~= Seq::<(String, JsonValue)>::empty());
                }
                None
            },
            _ => None,
        }
    }

    /// The characters of a string value.
    pub fn as_str<'a>(&'a self) -> (r: Option<&'a str>)
        ensures
            match r {
                Some(s) => self.spec_str() == Some(s@),
                None => self.spec_str() is None,
            },
    {
        match self {
            JsonValue::Str(s) => Some(s.as_str()),
            _ => None,
        }
    }

    pub fn as_bool(&self) -> (r: Option<bool>)
        ensures
            r == self.spec_bool(),
    {
        match self {
            JsonValue::Bool(b) => Some(*b),
            _ => None,
        }
    }

    /// The items of an array value.
    pub fn as_arr<'a>(&'a self) -> (r: Option<&'a Vec<JsonValue>>)
        ensures
            match r {
                Some(items) => self.spec_arr() == Some(items@),
                None => self.spec_arr() is None,
            },
    {
        match self {
            JsonValue::Arr(items) => Some(items),
            _ => None,
        }
    }
}

/// serde_json's document tree, declared so the conversion below can take
/// it; nothing in the library inspects a value of it.
#[verifier::external_type_specification]
#[verifier::external_body]
pub struct ExSerdeJsonValue(serde_json::Value);

/// What serde_json reads out of a text, rebuilt as a `JsonValue`. JSON
/// parsing depends on the text alone: serde_json's default configuration
/// keys objects with a sorted map and renders numbers deterministically.
pub uninterp spec fn parsed_json(s: Seq<char>) -> Option<JsonValue>;

/// Moves serde_json's tree into the library's own type: one arm per
/// variant, fields carried over, numbers kept as serde_json renders them.
#[verifier::external_body]
fn json_tree(v: serde_json::Value) -> JsonValue {
    match v {
        serde_json::Value::Null => JsonValue::Null,
        serde_json::Value::Bool(b) => JsonValue::Bool(b),
        serde_json::Value::Number(n) => JsonValue::Num(n.to_string()),
        serde_json::Value::String(s) => JsonValue::Str(s),
        serde_json::Value::Array(a) => JsonValue::Arr(a.into_iter().map(json_tree).collect()),
        serde_json::Value::Object(o) => JsonValue::Obj(
            o.into_iter().map(|(k, x)| (k, json_tree(x))).collect(),
        ),
    }
}

/// Relies on serde_json::from_str::<serde_json::Value>: turns a JSON text
/// into its document tree, `None` on malformed text; `json_tree` above
/// only moves the result, variant by variant, into the library's own type.
#[verifier::external_body]
pub(crate) fn parse_json(s: &str) -> (r: Option<JsonValue>)
    ensures
        r == parsed_json(s@),
{
    serde_json::from_str::<serde_json::Value>(s).ok().map(json_tree)
}

} // verus!
