//! The JSON documents that the node and the PoDA service exchange with the
//! client, as plain values, with the lookups that the client performs on them.
use vstd::prelude::*;

verus! {

/// A JSON number as the node reports it: a non-negative integer, a negative
/// integer, or a floating-point value kept by its IEEE-754 bit pattern.
#[derive(Clone, Copy, Debug, PartialEq, Eq, Structural)]
pub enum JsonNumber {
    PosInt(u64),
    NegInt(i64),
    Float(u64),
}

/// A JSON document. Object members are kept in the order in which they are
/// given (a document read by the transport gives them in key order); a
/// lookup by key finds the first member with that key.
#[derive(Debug)]
pub enum JsonValue {
    Null,
    Bool(bool),
    Number(JsonNumber),
    String(String),
    Array(Vec<JsonValue>),
    Object(Vec<(String, JsonValue)>),
}

/// The position of the first member of `entries`, at `i` or later, whose key is `key`.
pub open spec fn key_index_from(entries: Seq<(String, JsonValue)>, key: Seq<char>, i: int) -> Option<int>
    decreases entries.len() - i,
{
    if i < 0 || i >= entries.len() {
        None
    } else if entries[i].0@ == key {
        Some(i)
    } else {
        key_index_from(entries, key, i + 1)
    }
}

/// The position of the first member of `entries` whose key is `key`.
pub open spec fn key_index(entries: Seq<(String, JsonValue)>, key: Seq<char>) -> Option<int> {
    key_index_from(entries, key, 0)
}

/// The value of the first member of `entries` whose key is `key`.
pub open spec fn entries_get(entries: Seq<(String, JsonValue)>, key: Seq<char>) -> Option<JsonValue> {
    match key_index(entries, key) {
        Some(i) => Some(entries[i].1),
        None => None,
    }
}

/// `v[key]` for an object `v`; `None` for any other value or a missing key.
pub open spec fn value_get(v: JsonValue, key: Seq<char>) -> Option<JsonValue> {
    match v {
        JsonValue::Object(entries) => entries_get(entries@, key),
        _ => None,
    }
}

/// The value as a `u64`, if it is a non-negative integer.
pub open spec fn value_as_u64(v: JsonValue) -> Option<u64> {
    match v {
        JsonValue::Number(JsonNumber::PosInt(n)) => Some(n),
        _ => None,
    }
}

/// The value as a `bool`, if it is one.
pub open spec fn value_as_bool(v: JsonValue) -> Option<bool> {
    match v {
        JsonValue::Bool(b) => Some(b),
        _ => None,
    }
}

/// The text of the value, if it is a string.
pub open spec fn value_as_text(v: JsonValue) -> Option<Seq<char>> {
    match v {
        JsonValue::String(s) => Some(s@),
        _ => None,
    }
}

/// `o.and_then(as_u64)`.
pub open spec fn opt_as_u64(o: Option<JsonValue>) -> Option<u64> {
    match o {
        Some(v) => value_as_u64(v),
        None => None,
    }
}

/// `o.and_then(as_bool)`.
pub open spec fn opt_as_bool(o: Option<JsonValue>) -> Option<bool> {
    match o {
        Some(v) => value_as_bool(v),
        None => None,
    }
}

/// `o.and_then(as_str)`.
pub open spec fn opt_as_text(o: Option<JsonValue>) -> Option<Seq<char>> {
    match o {
        Some(v) => value_as_text(v),
        None => None,
    }
}

/// `v` is an object whose first member named `key` is at position `i` and holds `x`.
pub open spec fn first_member_at(v: JsonValue, key: Seq<char>, i: int, x: JsonValue) -> bool {
    &&& v matches JsonValue::Object(entries)
    &&& 0 <= i < entries@.len()
    &&& entries@[i].0@ == key
    &&& entries@[i].1 == x
    &&& forall|j: int| 0 <= j < i ==> entries@[j].0@ != key
}

/// `v` is an object with no member named `key`.
pub open spec fn has_no_member(v: JsonValue, key: Seq<char>) -> bool {
    &&& v matches JsonValue::Object(entries)
    &&& forall|j: int| 0 <= j < entries@.len() ==> entries@[j].0@ != key
}

proof fn lemma_key_index_from_first(entries: Seq<(String, JsonValue)>, key: Seq<char>, i: int, k: int)
    requires
        0 <= k <= i < entries.len(),
        entries[i].0@ == key,
        forall|j: int| 0 <= j < i ==> entries[j].0@ != key,
    ensures
        key_index_from(entries, key, k) == Some(i),
    decreases i - k,
{
    if k < i {
        lemma_key_index_from_first(entries, key, i, k + 1);
    }
}

proof fn lemma_key_index_from_none(entries: Seq<(String, JsonValue)>, key: Seq<char>, k: int)
    requires
        0 <= k,
        forall|j: int| 0 <= j < entries.len() ==> entries[j].0@ != key,
    ensures
        key_index_from(entries, key, k) is None,
    decreases entries.len() - k,
{
    if k < entries.len() {
        lemma_key_index_from_none(entries, key, k + 1);
    }
}

/// A lookup by key finds the value of the first member with that key.
pub proof fn lemma_first_member_found(v: JsonValue, key: Seq<char>, i: int, x: JsonValue)
    requires
        first_member_at(v, key, i, x),
    ensures
        value_get(v, key) == Some(x),
{
    if let JsonValue::Object(entries) = v {
        lemma_key_index_from_first(entries@, key, i, 0);
    }
}

/// A lookup by a key that no member has finds nothing.
pub proof fn lemma_no_member_found(v: JsonValue, key: Seq<char>)
    requires
        has_no_member(v, key),
    ensures
        value_get(v, key) is None,
{
    if let JsonValue::Object(entries) = v {
        lemma_key_index_from_none(entries@, key, 0);
    }
}

/// The position of the first member of `entries` whose key is `key`.
pub fn find_key(entries: &Vec<(String, JsonValue)>, key: &str) -> (res: Option<usize>)
    ensures
        match res {
            Some(i) => key_index(entries@, key@) == Some(i as int),
            None => key_index(entries@, key@) is None,
        },
        res matches Some(i) ==> i < entries@.len() && entries@[i as int].0@ == key@,
{
    let k = String::from_str(key);
    let n = entries.len();
    let mut i: usize = 0;
    while i < n
        invariant
            n == entries@.len(),
            i <= n,
            k@ == key@,
            key_index(entries@, key@) == key_index_from(entries@, key@, i as int),
        decreases n - i,
    {
        if entries[i].0 == k {
            return Some(i);
        }
        i = i + 1;
    }
    None
}

impl JsonValue {
    /// `self[key]` for an object; `None` for any other value or a missing key.
    pub fn get(&self, key: &str) -> (res: Option<&JsonValue>)
        ensures
            match res {
                Some(r) => value_get(*self, key@) == Some(*r),
                None => value_get(*self, key@) is None,
            },
    {
        match self {
            JsonValue::Object(entries) => match find_key(entries, key) {
                Some(i) => Some(&entries[i].1),
                None => None,
            },
            _ => None,
        }
    }

    /// The value as a `u64`, if it is a non-negative integer.
    pub fn as_u64(&self) -> (res: Option<u64>)
        ensures
            res == value_as_u64(*self),
    {
        match self {
            JsonValue::Number(JsonNumber::PosInt(n)) => Some(*n),
            _ => None,
        }
    }

    /// The value as a `bool`, if it is one.
    pub fn as_bool(&self) -> (res: Option<bool>)
        ensures
            res == value_as_bool(*self),
    {
        match self {
            JsonValue::Bool(b) => Some(*b),
            _ => None,
        }
    }

    /// The text of the value, if it is a string.
    pub fn as_str(&self) -> (res: Option<&str>)
        ensures
            match res {
                Some(s) => value_as_text(*self) == Some(s@),
                None => value_as_text(*self) is None,
            },
    {
        match self {
            JsonValue::String(s) => Some(s.as_str()),
            _ => None,
        }
    }

    /// Whether the value is `null`.
    pub fn is_null(&self) -> (res: bool)
        ensures
            res == (*self is Null),
    {
        match self {
            JsonValue::Null => true,
            _ => false,
        }
    }
}

/// A JSON string holding `s`.
pub fn json_text(s: &str) -> (res: JsonValue)
    ensures
        res matches JsonValue::String(t) && t@ == s@,
{
    JsonValue::String(String::from_str(s))
}

} // verus!
