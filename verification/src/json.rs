//! JSON values as the library sees them, and reading them from text.
//!
//! The text is parsed by `serde_json`; what it yields is carried over into
//! `JsonValue`, a plain value that verified code can take apart.
use vstd::prelude::*;
use crate::text::{str_chars, chars_eq};
use crate::table::pairs_map;

verus! {

#[verifier::external_type_specification]
#[verifier::external_body]
pub struct ExSerdeJsonValue(serde_json::Value);

/// A JSON value. A number is kept as the text `serde_json` writes for it;
/// an object keeps its members in the order `serde_json`'s map yields them
/// (sorted by key, each key once).
pub enum JsonValue {
    Null,
    Bool(bool),
    Number(String),
    Str(String),
    Array(Vec<JsonValue>),
    Object(Vec<(String, JsonValue)>),
}

/// The abstract value of a JSON value.
pub enum JsonValueView {
    Null,
    Bool(bool),
    Number(Seq<char>),
    Str(Seq<char>),
    Array(Seq<JsonValueView>),
    Object(Seq<(Seq<char>, JsonValueView)>),
}

/// The abstract value of a JSON value.
pub open spec fn json_view(v: JsonValue) -> JsonValueView
    decreases v,
{
    match v {
        JsonValue::Null => JsonValueView::Null,
        JsonValue::Bool(b) => JsonValueView::Bool(b),
        JsonValue::Number(n) => JsonValueView::Number(n@),
        JsonValue::Str(s) => JsonValueView::Str(s@),
        JsonValue::Array(items) => JsonValueView::Array(json_views(items@)),
        JsonValue::Object(members) => JsonValueView::Object(json_member_views(members@)),
    }
}

/// The abstract values of a list of JSON values.
pub open spec fn json_views(s: Seq<JsonValue>) -> Seq<JsonValueView>
    decreases s,
{
    if s.len() == 0 {
        Seq::empty()
    } else {
        json_views(s.subrange(0, s.len() - 1)).push(json_view(s[s.len() - 1]))
    }
}

/// The abstract values of a list of object members.
pub open spec fn json_member_views(s: Seq<(String, JsonValue)>) -> Seq<(Seq<char>, JsonValueView)>
    decreases s,
{
    if s.len() == 0 {
        Seq::empty()
    } else {
        json_member_views(s.subrange(0, s.len() - 1)).push(
            (s[s.len() - 1].0@, json_view(s[s.len() - 1].1)),
        )
    }
}

impl View for JsonValue {
    type V = JsonValueView;

    open spec fn view(&self) -> JsonValueView {
        json_view(*self)
    }
}

impl DeepView for JsonValue {
    type V = JsonValueView;

    open spec fn deep_view(&self) -> JsonValueView {
        json_view(*self)
    }
}

/// Each value of a list is viewed in its place.
pub proof fn lemma_json_views(s: Seq<JsonValue>)
    ensures
        json_views(s).len() == s.len(),
        forall|i: int| 0 <= i < s.len() ==> #[trigger] json_views(s)[i] == json_view(s[i]),
    decreases s.len(),
{
    if s.len() > 0 {
        let t = s.subrange(0, s.len() - 1);
        lemma_json_views(t);
        assert forall|i: int| 0 <= i < s.len() implies #[trigger] json_views(s)[i] == json_view(s[i]) by {
            if i < s.len() - 1 {
                assert(t[i] == s[i]);
            }
        }
    }
}

/// Each member of a list is viewed in its place.
pub proof fn lemma_json_member_views(s: Seq<(String, JsonValue)>)
    ensures
        json_member_views(s).len() == s.len(),
        forall|i: int|
            0 <= i < s.len() ==> #[trigger] json_member_views(s)[i] == (s[i].0@, json_view(s[i].1)),
    decreases s.len(),
{
    if s.len() > 0 {
        let t = s.subrange(0, s.len() - 1);
        lemma_json_member_views(t);
        assert forall|i: int| 0 <= i < s.len() implies #[trigger] json_member_views(s)[i] == (
            s[i].0@,
            json_view(s[i].1),
        ) by {
            if i < s.len() - 1 {
                assert(t[i] == s[i]);
            }
        }
    }
}

/// What `serde_json` reads from `text` as a JSON value: the value, or the
/// message of the syntax error.
pub uninterp spec fn json_of_text(text: Seq<char>) -> Result<JsonValueView, Seq<char>>;

/// The value `serde_json` read, carried over one for one.
#[verifier::external_body]
fn json_from_serde(v: serde_json::Value) -> JsonValue {
    match v {
        serde_json::Value::Null => JsonValue::Null,
        serde_json::Value::Bool(b) => JsonValue::Bool(b),
        serde_json::Value::Number(n) => JsonValue::Number(n.to_string()),
        serde_json::Value::String(s) => JsonValue::Str(s),
        serde_json::Value::Array(a) => JsonValue::Array(a.into_iter().map(json_from_serde).collect()),
        serde_json::Value::Object(o) => JsonValue::Object(
            o.into_iter().map(|(k, v)| (k, json_from_serde(v))).collect(),
        ),
    }
}

/// Reads `text` as JSON with `serde_json::from_str` into a
/// `serde_json::Value`: the value read (see `json_of_text`), or the error's
/// message.
#[verifier::external_body]
pub(crate) fn parse_json(text: &str) -> (r: Result<JsonValue, String>)
    ensures
        match r {
            Ok(v) => json_of_text(text@) == Ok::<JsonValueView, Seq<char>>(v@),
            Err(m) => json_of_text(text@) == Err::<JsonValueView, Seq<char>>(m@),
        },
{
    match serde_json::from_str::<serde_json::Value>(text) {
        Ok(v) => Ok(json_from_serde(v)),
        Err(e) => Err(e.to_string()),
    }
}

/// The member `key` of an object, as `serde_json::Value::get` finds it
/// (the last member of that name); none for any other value.
pub open spec fn json_member(v: JsonValueView, key: Seq<char>) -> Option<JsonValueView> {
    match v {
        JsonValueView::Object(m) => if pairs_map(m).dom().contains(key) {
            Some(pairs_map(m)[key])
        } else {
            None
        },
        _ => None,
    }
}

/// The member `key` of an object when it is a string.
pub open spec fn json_str_member(v: JsonValueView, key: Seq<char>) -> Option<Seq<char>> {
    match json_member(v, key) {
        Some(JsonValueView::Str(s)) => Some(s),
        _ => None,
    }
}

/// The last pair of `s` with key `k` gives the map's value for `k`.
pub proof fn lemma_pairs_map_last<V>(s: Seq<(Seq<char>, V)>, k: Seq<char>, i: int)
    requires
        0 <= i < s.len(),
        s[i].0 == k,
        forall|j: int| i < j < s.len() ==> #[trigger] s[j].0 != k,
    ensures
        pairs_map(s).dom().contains(k),
        pairs_map(s)[k] == s[i].1,
    decreases s.len(),
{
    if i < s.len() - 1 {
        let t = s.drop_last();
        assert forall|j: int| i < j < t.len() implies #[trigger] t[j].0 != k by {
            assert(t[j] == s[j]);
        }
        assert(t[i] == s[i]);
        lemma_pairs_map_last(t, k, i);
    }
}

/// No pair of `s` has key `k`: the map has no value for it.
pub proof fn lemma_pairs_map_absent<V>(s: Seq<(Seq<char>, V)>, k: Seq<char>)
    requires
        forall|j: int| 0 <= j < s.len() ==> #[trigger] s[j].0 != k,
    ensures
        !pairs_map(s).dom().contains(k),
    decreases s.len(),
{
    if s.len() > 0 {
        let t = s.drop_last();
        assert forall|j: int| 0 <= j < t.len() implies #[trigger] t[j].0 != k by {
            assert(t[j] == s[j]);
        }
        lemma_pairs_map_absent(t, k);
    }
}

/// A copy of a JSON value.
pub fn copy_json(v: &JsonValue) -> (r: JsonValue)
    ensures
        r@ == v@,
    decreases v,
{
    match v {
        JsonValue::Null => JsonValue::Null,
        JsonValue::Bool(b) => JsonValue::Bool(*b),
        JsonValue::Number(n) => JsonValue::Number(n.clone()),
        JsonValue::Str(s) => JsonValue::Str(s.clone()),
        JsonValue::Array(items) => {
            let mut out: Vec<JsonValue> = Vec::new();
            let mut i: usize = 0;
            while i < items.len()
                invariant
                    i <= items@.len(),
                    *v == JsonValue::Array(*items),
                    out@.len() == i,
                    forall|j: int| 0 <= j < i ==> json_view(#[trigger] out@[j]) == json_view(items@[j]),
                decreases items@.len() - i,
            {
                proof {
                    assert(decreases_to!(*v => (*v)->Array_0));
                    assert(decreases_to!(*items => items@));
                    assert(decreases_to!(items@ => items@[i as int]));
                }
                out.push(copy_json(&items[i]));
                i = i + 1;
            }
            proof {
                lemma_json_views(out@);
                lemma_json_views(items@);
                assert(json_views(out@) =~= json_views(items@));
            }
            JsonValue::Array(out)
        },
        JsonValue::Object(members) => {
            let mut out: Vec<(String, JsonValue)> = Vec::new();
            let mut i: usize = 0;
            while i < members.len()
                invariant
                    i <= members@.len(),
                    *v == JsonValue::Object(*members),
                    out@.len() == i,
                    forall|j: int|
                        0 <= j < i ==> #[trigger] out@[j].0@ == members@[j].0@ && out@[j].1@
                            == members@[j].1@,
                decreases members@.len() - i,
            {
                let k = members[i].0.clone();
                proof {
                    assert(decreases_to!(*v => (*v)->Object_0));
                    assert(decreases_to!(*members => members@));
                    assert(decreases_to!(members@ => members@[i as int]));
                    assert(decreases_to!(members@[i as int] => members@[i as int].1));
                }
                let m = copy_json(&members[i].1);
                out.push((k, m));
                i = i + 1;
            }
            proof {
                lemma_json_member_views(out@);
                lemma_json_member_views(members@);
                assert(json_member_views(out@) =~= json_member_views(members@));
            }
            JsonValue::Object(out)
        },
    }
}

/// The member `key` of `v` (see `json_member`).
pub fn member<'a>(v: &'a JsonValue, key: &str) -> (r: Option<&'a JsonValue>)
    ensures
        match r {
            Some(m) => json_member(v@, key@) == Some(m@),
            None => json_member(v@, key@) is None,
        },
{
    match v {
        JsonValue::Object(members) => {
            let ghost ms = json_member_views(members@);
            proof {
                lemma_json_member_views(members@);
            }
            let target = str_chars(key);
            let mut i: usize = members.len();
            while i > 0
                invariant
                    i <= members@.len(),
                    ms == json_member_views(members@),
                    ms.len() == members@.len(),
                    v@ == JsonValueView::Object(ms),
                    forall|j: int|
                        0 <= j < members@.len() ==> #[trigger] ms[j] == (
                            members@[j].0@,
                            json_view(members@[j].1),
                        ),
                    target@ == key@,
                    forall|j: int| i <= j < members@.len() ==> #[trigger] ms[j].0 != key@,
                decreases i,
            {
                i = i - 1;
                let k = str_chars(members[i].0.as_str());
                if chars_eq(k.as_slice(), target.as_slice()) {
                    proof {
                        lemma_pairs_map_last(ms, key@, i as int);
                    }
                    return Some(&members[i].1);
                }
            }
            proof {
                lemma_pairs_map_absent(ms, key@);
            }
            None
        },
        _ => None,
    }
}

} // verus!
