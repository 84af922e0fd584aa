//! Reading the members of a JSON object by the rules of the data model, and
//! building objects member by member.

use crate::json::{distinct_keys, json_view, member, object, object_of, Json};
use serde_json::Value;
use vstd::prelude::*;
use vstd::string::*;

verus! {

impl Json {
    /// A member that must be there and must be a string.
    pub open spec fn text(self, key: Seq<char>) -> Option<Seq<char>> {
        match self.member(key) {
            Some(Json::Str(s)) => Some(s),
            _ => None,
        }
    }

    /// A string member that is empty where it is absent or null. A member
    /// of any other kind does not fit.
    pub open spec fn text_or_empty(self, key: Seq<char>) -> Option<Seq<char>> {
        match self.member(key) {
            None => Some(Seq::empty()),
            Some(Json::Null) => Some(Seq::empty()),
            Some(Json::Str(s)) => Some(s),
            _ => None,
        }
    }

    /// A string member that may be absent or null. A member of any other
    /// kind does not fit.
    pub open spec fn optional_text(self, key: Seq<char>) -> Option<Option<Seq<char>>> {
        match self.member(key) {
            None => Some(None),
            Some(Json::Null) => Some(None),
            Some(Json::Str(s)) => Some(Some(s)),
            _ => None,
        }
    }

    /// A boolean member that is `false` where it is absent or null. A
    /// member of any other kind does not fit.
    pub open spec fn flag_or_false(self, key: Seq<char>) -> Option<bool> {
        match self.member(key) {
            None => Some(false),
            Some(Json::Null) => Some(false),
            Some(Json::Bool(b)) => Some(b),
            _ => None,
        }
    }

    /// A member that must be there and must be an integer of 32 signed bits.
    pub open spec fn int32(self, key: Seq<char>) -> Option<i32> {
        match self.member(key) {
            Some(Json::Int(n)) => if i32::MIN <= n <= i32::MAX {
                Some(n as i32)
            } else {
                None
            },
            _ => None,
        }
    }

    /// A member that may be absent or null, taken as it is.
    pub open spec fn present(self, key: Seq<char>) -> Option<Json> {
        match self.member(key) {
            None => None,
            Some(Json::Null) => None,
            Some(m) => Some(m),
        }
    }
}

/// Reads a required string member.
pub fn read_text(v: &Value, key: &str) -> (r: Option<String>)
    ensures
        r.deep_view() == json_view(*v).text(key@),
{
    match member(v, key) {
        Some(m) => match m.as_str() {
            Some(s) => Some(String::from_str(s)),
            None => None,
        },
        None => None,
    }
}

/// Reads a string member that is empty where it is absent or null.
pub fn read_text_or_empty(v: &Value, key: &str) -> (r: Option<String>)
    ensures
        r.deep_view() == json_view(*v).text_or_empty(key@),
{
    match member(v, key) {
        Some(m) => {
            if m.is_null() {
                Some(String::new())
            } else {
                match m.as_str() {
                    Some(s) => Some(String::from_str(s)),
                    None => None,
                }
            }
        },
        None => Some(String::new()),
    }
}

/// Reads a string member that may be absent or null.
pub fn read_optional_text(v: &Value, key: &str) -> (r: Option<Option<String>>)
    ensures
        r.deep_view() == json_view(*v).optional_text(key@),
{
    match member(v, key) {
        Some(m) => {
            if m.is_null() {
                Some(None)
            } else {
                match m.as_str() {
                    Some(s) => Some(Some(String::from_str(s))),
                    None => None,
                }
            }
        },
        None => Some(None),
    }
}

/// Reads a boolean member that is `false` where it is absent or null.
pub fn read_flag_or_false(v: &Value, key: &str) -> (r: Option<bool>)
    ensures
        r == json_view(*v).flag_or_false(key@),
{
    match member(v, key) {
        Some(m) => {
            if m.is_null() {
                Some(false)
            } else {
                m.as_bool()
            }
        },
        None => Some(false),
    }
}

/// Reads a required integer member of 32 signed bits.
pub fn read_int32(v: &Value, key: &str) -> (r: Option<i32>)
    ensures
        r == json_view(*v).int32(key@),
{
    match member(v, key) {
        Some(m) => match m.as_i64() {
            Some(n) => {
                if i32::MIN as i64 <= n && n <= i32::MAX as i64 {
                    Some(n as i32)
                } else {
                    None
                }
            },
            None => None,
        },
        None => None,
    }
}

/// Finds a member that may be absent or null.
pub fn read_present<'a>(v: &'a Value, key: &str) -> (r: Option<&'a Value>)
    ensures
        match json_view(*v).present(key@) {
            Some(m) => r is Some && json_view(*r.unwrap()) == m,
            None => r is None,
        },
{
    match member(v, key) {
        Some(m) => {
            if m.is_null() {
                None
            } else {
                Some(m)
            }
        },
        None => None,
    }
}

/// Every key of a list of entries is a key of the object built from it.
proof fn lemma_object_has_keys(entries: Seq<(String, Value)>, i: int)
    requires
        0 <= i < entries.len(),
    ensures
        object_of(entries).contains_key(entries[i].0@),
    decreases entries.len(),
{
    if i < entries.len() - 1 {
        lemma_object_has_keys(entries.drop_last(), i);
    }
}

/// An object under construction. No key is added twice.
pub(crate) struct ObjectBuilder {
    entries: Vec<(String, Value)>,
}

impl ObjectBuilder {
    #[verifier::type_invariant]
    spec fn keys_differ(self) -> bool {
        distinct_keys(self.entries@)
    }

    /// The members added so far.
    pub(crate) closed spec fn fields(self) -> Map<Seq<char>, Json> {
        object_of(self.entries@)
    }

    /// Starts an object without members.
    pub(crate) fn new() -> (b: Self)
        ensures
            b.fields() == Map::<Seq<char>, Json>::empty(),
    {
        ObjectBuilder { entries: Vec::new() }
    }

    /// Adds a member under a key that the object does not have yet.
    pub(crate) fn with(self, key: &str, value: Value) -> (b: Self)
        requires
            !self.fields().contains_key(key@),
        ensures
            b.fields() == self.fields().insert(key@, json_view(value)),
    {
        proof {
            use_type_invariant(&self);
        }
        let mut entries = self.entries;
        let ghost before = entries@;
        entries.push((String::from_str(key), value));
        proof {
            assert(entries@.drop_last() =~= before);
            assert forall|i: int, j: int| 0 <= i < j < entries@.len() implies (
            #[trigger] entries@[i]).0@ != (#[trigger] entries@[j]).0@ by {
                if j == before.len() {
                    lemma_object_has_keys(before, i);
                }
            }
        }
        ObjectBuilder { entries }
    }

    /// The finished object.
    pub(crate) fn finish(self) -> (v: Value)
        ensures
            json_view(v) == Json::Object(self.fields()),
    {
        proof {
            use_type_invariant(&self);
        }
        object(self.entries)
    }
}

} // verus!
