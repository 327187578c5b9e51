//! TOML documents as the library sees them, and reading them from text.
//!
//! The text is parsed by the `toml` crate; what it yields is carried over
//! into `TomlValue`, a plain value that verified code can take apart.
use vstd::prelude::*;
use crate::text::{str_chars, chars_eq};
use crate::table::pairs_map;
use crate::json::{lemma_pairs_map_last, lemma_pairs_map_absent};

verus! {

#[verifier::external_type_specification]
#[verifier::external_body]
pub struct ExTomlValue(toml::Value);

/// A TOML value. A float and a date-time are kept as the text the `toml`
/// crate writes for them; a table keeps its entries in the order the
/// crate's map yields them, each key once.
pub enum TomlValue {
    Str(String),
    Integer(i64),
    Float(String),
    Boolean(bool),
    Datetime(String),
    Array(Vec<TomlValue>),
    Table(Vec<(String, TomlValue)>),
}

/// The abstract value of a TOML value.
pub enum TomlValueView {
    Str(Seq<char>),
    Integer(i64),
    Float(Seq<char>),
    Boolean(bool),
    Datetime(Seq<char>),
    Array(Seq<TomlValueView>),
    Table(Seq<(Seq<char>, TomlValueView)>),
}

/// The abstract value of a TOML value.
pub open spec fn toml_view(v: TomlValue) -> TomlValueView
    decreases v,
{
    match v {
        TomlValue::Str(s) => TomlValueView::Str(s@),
        TomlValue::Integer(i) => TomlValueView::Integer(i),
        TomlValue::Float(f) => TomlValueView::Float(f@),
        TomlValue::Boolean(b) => TomlValueView::Boolean(b),
        TomlValue::Datetime(d) => TomlValueView::Datetime(d@),
        TomlValue::Array(items) => TomlValueView::Array(toml_views(items@)),
        TomlValue::Table(entries) => TomlValueView::Table(toml_entry_views(entries@)),
    }
}

/// The abstract values of a list of TOML values.
pub open spec fn toml_views(s: Seq<TomlValue>) -> Seq<TomlValueView>
    decreases s,
{
    if s.len() == 0 {
        Seq::empty()
    } else {
        toml_views(s.subrange(0, s.len() - 1)).push(toml_view(s[s.len() - 1]))
    }
}

/// The abstract values of a list of table entries.
pub open spec fn toml_entry_views(s: Seq<(String, TomlValue)>) -> Seq<(Seq<char>, TomlValueView)>
    decreases s,
{
    if s.len() == 0 {
        Seq::empty()
    } else {
        toml_entry_views(s.subrange(0, s.len() - 1)).push((s[s.len() - 1].0@, toml_view(s[s.len() - 1].1)))
    }
}

impl View for TomlValue {
    type V = TomlValueView;

    open spec fn view(&self) -> TomlValueView {
        toml_view(*self)
    }
}

/// Each entry of a list is viewed in its place.
pub proof fn lemma_toml_entry_views(s: Seq<(String, TomlValue)>)
    ensures
        toml_entry_views(s).len() == s.len(),
        forall|i: int| 0 <= i < s.len() ==> #[trigger] toml_entry_views(s)[i] == (s[i].0@, toml_view(s[i].1)),
    decreases s.len(),
{
    if s.len() > 0 {
        let t = s.subrange(0, s.len() - 1);
        lemma_toml_entry_views(t);
        assert forall|i: int| 0 <= i < s.len() implies #[trigger] toml_entry_views(s)[i] == (
            s[i].0@,
            toml_view(s[i].1),
        ) by {
            if i < s.len() - 1 {
                assert(t[i] == s[i]);
            }
        }
    }
}

/// What the `toml` crate reads from `text` as a document: its top-level
/// table, or the message of the error.
pub uninterp spec fn toml_of_text(text: Seq<char>) -> Result<TomlValueView, Seq<char>>;

/// The value the `toml` crate read, carried over one for one.
#[verifier::external_body]
fn toml_from_value(v: toml::Value) -> TomlValue {
    match v {
        toml::Value::String(s) => TomlValue::Str(s),
        toml::Value::Integer(i) => TomlValue::Integer(i),
        toml::Value::Float(f) => TomlValue::Float(f.to_string()),
        toml::Value::Boolean(b) => TomlValue::Boolean(b),
        toml::Value::Datetime(d) => TomlValue::Datetime(d.to_string()),
        toml::Value::Array(a) => TomlValue::Array(a.into_iter().map(toml_from_value).collect()),
        toml::Value::Table(t) => TomlValue::Table(t.into_iter().map(|(k, v)| (k, toml_from_value(v))).collect()),
    }
}

/// Reads `text` as a TOML document with `toml::from_str` into a
/// `toml::Table`: the table read (see `toml_of_text`), or the error's
/// message.
#[verifier::external_body]
pub(crate) fn parse_toml(text: &str) -> (r: Result<TomlValue, String>)
    ensures
        match r {
            Ok(v) => toml_of_text(text@) == Ok::<TomlValueView, Seq<char>>(v@),
            Err(m) => toml_of_text(text@) == Err::<TomlValueView, Seq<char>>(m@),
        },
{
    match toml::from_str::<toml::Table>(text) {
        Ok(t) => Ok(toml_from_value(toml::Value::Table(t))),
        Err(e) => Err(e.to_string()),
    }
}

/// The entry `key` of a table, as `toml::Value::get` finds it; none for any
/// other value.
pub open spec fn toml_member(v: TomlValueView, key: Seq<char>) -> Option<TomlValueView> {
    match v {
        TomlValueView::Table(m) => if pairs_map(m).dom().contains(key) {
            Some(pairs_map(m)[key])
        } else {
            None
        },
        _ => None,
    }
}

/// The entry `key` of a table when it is a string.
pub open spec fn toml_str_member(v: TomlValueView, key: Seq<char>) -> Option<Seq<char>> {
    match toml_member(v, key) {
        Some(TomlValueView::Str(s)) => Some(s),
        _ => None,
    }
}

/// The entry `key` of `v` (see `toml_member`).
pub fn member<'a>(v: &'a TomlValue, key: &str) -> (r: Option<&'a TomlValue>)
    ensures
        match r {
            Some(m) => toml_member(v@, key@) == Some(m@),
            None => toml_member(v@, key@) is None,
        },
{
    match v {
        TomlValue::Table(entries) => {
            let ghost ms = toml_entry_views(entries@);
            proof {
                lemma_toml_entry_views(entries@);
            }
            let target = str_chars(key);
            let mut i: usize = entries.len();
            while i > 0
                invariant
                    i <= entries@.len(),
                    ms == toml_entry_views(entries@),
                    ms.len() == entries@.len(),
                    v@ == TomlValueView::Table(ms),
                    forall|j: int|
                        0 <= j < entries@.len() ==> #[trigger] ms[j] == (entries@[j].0@, toml_view(entries@[j].1)),
                    target@ == key@,
                    forall|j: int| i <= j < entries@.len() ==> #[trigger] ms[j].0 != key@,
                decreases i,
            {
                i = i - 1;
                let k = str_chars(entries[i].0.as_str());
                if chars_eq(k.as_slice(), target.as_slice()) {
                    proof {
                        lemma_pairs_map_last(ms, key@, i as int);
                    }
                    return Some(&entries[i].1);
                }
            }
            proof {
                lemma_pairs_map_absent(ms, key@);
            }
            None
        },
        _ => None,
    }
}

/// The string entry `key` of `v` (see `toml_str_member`).
pub fn str_member(v: &TomlValue, key: &str) -> (r: Option<String>)
    ensures
        r.deep_view() == toml_str_member(v@, key@),
{
    match member(v, key) {
        Some(TomlValue::Str(s)) => Some(s.clone()),
        _ => None,
    }
}

} // verus!
