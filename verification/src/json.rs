use vstd::prelude::*;

use serde_json::Value;

use crate::text::str_eq;

verus! {

/// A JSON number as a parsed document classifies it: a non-negative integer,
/// a negative integer, or any other number, kept as the bits of its `f64`.
#[derive(Clone, Copy, Debug, PartialEq, Eq, Structural)]
pub enum JsonNumber {
    PosInt(u64),
    NegInt(i64),
    Float(u64),
}

/// A JSON document. [`parse_json`] lists the entries of an object in the
/// order of their keys, each key once; where a list of entries holds a key
/// more than once, a lookup takes the first entry with it.
#[derive(Debug)]
pub enum Json {
    Null,
    Bool(bool),
    Number(JsonNumber),
    Str(String),
    Array(Vec<Json>),
    Object(Vec<(String, Json)>),
}

/// The value stored under `key` among the entries of an object: that of the
/// first entry with that key, if there is one.
pub open spec fn entry_lookup(entries: Seq<(String, Json)>, key: Seq<char>) -> Option<Json>
    decreases entries.len(),
{
    if entries.len() == 0 {
        None
    } else if entries[0].0@ == key {
        Some(entries[0].1)
    } else {
        entry_lookup(entries.drop_first(), key)
    }
}

/// The characters of an optional string.
pub open spec fn opt_str_view(o: Option<String>) -> Option<Seq<char>> {
    match o {
        Some(s) => Some(s@),
        None => None,
    }
}

impl Json {
    /// `value[key]`: the member `key` of an object; `Null` for a missing
    /// member or a value that is not an object.
    pub open spec fn field(self, key: Seq<char>) -> Json {
        match self {
            Json::Object(entries) => match entry_lookup(entries@, key) {
                Some(v) => v,
                None => Json::Null,
            },
            _ => Json::Null,
        }
    }

    /// `value[i]`: the `i`-th element of an array; `Null` past its end or for
    /// a value that is not an array.
    pub open spec fn item(self, i: int) -> Json {
        match self {
            Json::Array(items) => if 0 <= i < items@.len() {
                items@[i]
            } else {
                Json::Null
            },
            _ => Json::Null,
        }
    }

    /// `value.as_str()`.
    pub open spec fn str_of(self) -> Option<Seq<char>> {
        match self {
            Json::Str(s) => Some(s@),
            _ => None,
        }
    }

    /// `value.as_u64()`: only a non-negative integer has one.
    pub open spec fn u64_of(self) -> Option<u64> {
        match self {
            Json::Number(JsonNumber::PosInt(n)) => Some(n),
            _ => None,
        }
    }

    /// `value.as_bool()`.
    pub open spec fn bool_of(self) -> Option<bool> {
        match self {
            Json::Bool(b) => Some(b),
            _ => None,
        }
    }

    /// The number a value holds; `value.as_f64()` is `Some` exactly for these.
    pub open spec fn number_of(self) -> Option<JsonNumber> {
        match self {
            Json::Number(n) => Some(n),
            _ => None,
        }
    }

    /// `value.as_array()`.
    pub open spec fn array_of(self) -> Option<Seq<Json>> {
        match self {
            Json::Array(items) => Some(items@),
            _ => None,
        }
    }

    /// `value.as_object()`.
    pub open spec fn object_of(self) -> Option<Seq<(String, Json)>> {
        match self {
            Json::Object(entries) => Some(entries@),
            _ => None,
        }
    }

    /// `value[key]`.
    pub fn index_key<'a>(&'a self, key: &str) -> (r: &'a Json)
        ensures
            *r == self.field(key@),
    {
        match self {
            Json::Object(entries) => match get_entry(entries, key) {
                Some(v) => v,
                None => &Json::Null,
            },
            _ => &Json::Null,
        }
    }

    /// `value[i]`.
    pub fn index_pos<'a>(&'a self, i: usize) -> (r: &'a Json)
        ensures
            *r == self.item(i as int),
    {
        match self {
            Json::Array(items) => if i < items.len() {
                &items[i]
            } else {
                &Json::Null
            },
            _ => &Json::Null,
        }
    }

    /// `value.as_str().map(|x| x.to_string())`.
    pub fn as_string(&self) -> (r: Option<String>)
        ensures
            opt_str_view(r) == self.str_of(),
    {
        match self {
            Json::Str(s) => Some(s.clone()),
            _ => None,
        }
    }

    /// `value.as_u64()`.
    pub fn as_u64(&self) -> (r: Option<u64>)
        ensures
            r == self.u64_of(),
    {
        match self {
            Json::Number(JsonNumber::PosInt(n)) => Some(*n),
            _ => None,
        }
    }

    /// `value.as_bool()`.
    pub fn as_bool(&self) -> (r: Option<bool>)
        ensures
            r == self.bool_of(),
    {
        match self {
            Json::Bool(b) => Some(*b),
            _ => None,
        }
    }

    /// The number a value holds, if it is one.
    pub fn as_number(&self) -> (r: Option<JsonNumber>)
        ensures
            r == self.number_of(),
    {
        match self {
            Json::Number(n) => Some(*n),
            _ => None,
        }
    }

    /// `value.as_array()`.
    pub fn as_array(&self) -> (r: Option<&Vec<Json>>)
        ensures
            match r {
                Some(items) => self.array_of() == Some(items@),
                None => self.array_of() is None,
            },
    {
        match self {
            Json::Array(items) => Some(items),
            _ => None,
        }
    }

    /// `value.as_object()`.
    pub fn as_object(&self) -> (r: Option<&Vec<(String, Json)>>)
        ensures
            match r {
                Some(entries) => self.object_of() == Some(entries@),
                None => self.object_of() is None,
            },
    {
        match self {
            Json::Object(entries) => Some(entries),
            _ => None,
        }
    }
}

/// `map.get(key)`: the value of the first entry with key `key`.
pub fn get_entry<'a>(entries: &'a Vec<(String, Json)>, key: &str) -> (r: Option<&'a Json>)
    ensures
        match r {
            Some(v) => entry_lookup(entries@, key@) == Some(*v),
            None => entry_lookup(entries@, key@) is None,
        },
{
    let mut i: usize = 0;
    assert(entries@.skip(0) =~= entries@);
    while i < entries.len()
        invariant
            i <= entries@.len(),
            entry_lookup(entries@, key@) == entry_lookup(entries@.skip(i as int), key@),
        decreases entries@.len() - i,
    {
        assert(entries@.skip(i as int).drop_first() =~= entries@.skip(i + 1));
        if str_eq(entries[i].0.as_str(), key) {
            return Some(&entries[i].1);
        }
        i = i + 1;
    }
    None
}

/// `map.contains_key(key)`.
pub fn contains_key(entries: &Vec<(String, Json)>, key: &str) -> (r: bool)
    ensures
        r == (entry_lookup(entries@, key@) is Some),
{
    get_entry(entries, key).is_some()
}

/// `map[key]` for a key that the map holds (indexing a map by a missing key
/// panics).
pub fn index_entry<'a>(entries: &'a Vec<(String, Json)>, key: &str) -> (r: &'a Json)
    requires
        entry_lookup(entries@, key@) is Some,
    ensures
        entry_lookup(entries@, key@) == Some(*r),
{
    match get_entry(entries, key) {
        Some(v) => v,
        None => &Json::Null,
    }
}

/// A lookup among the entries of an object finds the value of the first
/// entry that has the key.
pub proof fn lemma_lookup_first(entries: Seq<(String, Json)>, key: Seq<char>, i: int)
    requires
        0 <= i < entries.len(),
        entries[i].0@ == key,
        forall|j: int| 0 <= j < i ==> #[trigger] entries[j].0@ != key,
    ensures
        entry_lookup(entries, key) == Some(entries[i].1),
    decreases i,
{
    if i > 0 {
        assert(entries[0].0@ != key);
        let rest = entries.drop_first();
        assert forall|j: int| 0 <= j < i - 1 implies #[trigger] rest[j].0@ != key by {
            assert(rest[j] == entries[j + 1]);
        }
        lemma_lookup_first(rest, key, i - 1);
    }
}

/// A lookup finds something exactly when some entry has the key.
pub proof fn lemma_lookup_found(entries: Seq<(String, Json)>, key: Seq<char>)
    ensures
        entry_lookup(entries, key) is Some <==> exists|j: int|
            0 <= j < entries.len() && #[trigger] entries[j].0@ == key,
    decreases entries.len(),
{
    if entries.len() > 0 {
        let rest = entries.drop_first();
        lemma_lookup_found(rest, key);
        if entry_lookup(rest, key) is Some {
            let j = choose|j: int| 0 <= j < rest.len() && #[trigger] rest[j].0@ == key;
            assert(entries[j + 1] == rest[j]);
        }
        if exists|j: int| 0 <= j < entries.len() && #[trigger] entries[j].0@ == key {
            let j = choose|j: int| 0 <= j < entries.len() && #[trigger] entries[j].0@ == key;
            if j > 0 {
                assert(rest[j - 1] == entries[j]);
            }
        }
    }
}

/// How values are looked into: `value[key]` of an object is the value of its
/// first entry with that key and `null` when no entry has it; `value[key]`
/// of anything else is `null`.
pub proof fn lemma_field(v: Json, key: Seq<char>, i: int)
    ensures
        v.object_of() is None ==> v.field(key) == Json::Null,
        v.object_of() matches Some(entries) ==> (0 <= i < entries.len() && entries[i].0@ == key
            && (forall|j: int| 0 <= j < i ==> #[trigger] entries[j].0@ != key) ==> v.field(key)
            == entries[i].1),
        v.object_of() matches Some(entries) ==> ((forall|j: int|
            0 <= j < entries.len() ==> #[trigger] entries[j].0@ != key) ==> v.field(key)
            == Json::Null),
{
    if let Json::Object(entries) = v {
        let es = entries@;
        if 0 <= i < es.len() && es[i].0@ == key && (forall|j: int|
            0 <= j < i ==> #[trigger] es[j].0@ != key) {
            lemma_lookup_first(es, key, i);
        }
        lemma_lookup_found(es, key);
    }
}

/// `value[i]` of an array is its `i`-th element, and `null` past its end;
/// `value[i]` of anything else is `null`.
pub proof fn lemma_item(v: Json, i: int)
    ensures
        v.array_of() is None ==> v.item(i) == Json::Null,
        v.array_of() matches Some(items) ==> (0 <= i < items.len() ==> v.item(i) == items[i]),
        v.array_of() matches Some(items) ==> (!(0 <= i < items.len()) ==> v.item(i)
            == Json::Null),
{
}

/// What the plain readers give: a string only for a string, a `u64` only for
/// a non-negative integer, a boolean only for a boolean, an array only for
/// an array, and each gives back what the value holds.
pub proof fn lemma_scalars(v: Json, s: Seq<char>, n: u64, b: bool)
    ensures
        v.str_of() == Some(s) <==> (v matches Json::Str(t) && t@ == s),
        v.u64_of() == Some(n) <==> v == Json::Number(JsonNumber::PosInt(n)),
        v.bool_of() == Some(b) <==> v == Json::Bool(b),
        v.array_of() is Some <==> v is Array,
        v.object_of() is Some <==> v is Object,
        v.number_of() is Some <==> v is Number,
        v is Null ==> v.str_of() is None && v.u64_of() is None && v.bool_of() is None,
{
}

/// `serde_json::Value`, which a parse hands over to be read into [`Json`].
#[verifier::external_type_specification]
#[verifier::external_body]
pub struct ExValue(Value);

/// What `serde_json` reads from a JSON text: the document, or the text of
/// its error (which tells what went wrong and where) for a text that is not
/// JSON.
pub uninterp spec fn parsed_json(text: Seq<char>) -> Result<Json, Seq<char>>;

/// A `serde_json` document in the library's terms, variant by variant: a
/// number is a `PosInt` where `as_u64` gives one, a `NegInt` where `as_i64`
/// does, and otherwise the bits of its `as_f64`.
#[verifier::external_body]
fn json_from_value(v: Value) -> Json {
    match v {
        Value::Null => Json::Null,
        Value::Bool(b) => Json::Bool(b),
        Value::Number(n) => Json::Number(match (n.as_u64(), n.as_i64()) {
            (Some(u), _) => JsonNumber::PosInt(u),
            (None, Some(i)) => JsonNumber::NegInt(i),
            _ => JsonNumber::Float(n.as_f64().map(|x| x.to_bits()).unwrap_or(0)),
        }),
        Value::String(s) => Json::Str(s),
        Value::Array(a) => Json::Array(a.into_iter().map(json_from_value).collect()),
        Value::Object(m) => Json::Object(m.into_iter().map(|(k, x)| (k, json_from_value(x))).collect()),
    }
}

/// Parses a JSON text with `serde_json::from_str::<serde_json::Value>`,
/// giving the `Display` text of its error where it fails. Claimed: the
/// outcome depends on the text alone (`parsed_json`); what a given text gives
/// is left to `serde_json` and not stated.
#[verifier::external_body]
pub fn parse_json(text: &str) -> (r: Result<Json, String>)
    ensures
        match r {
            Ok(doc) => parsed_json(text@) == Ok::<Json, Seq<char>>(doc),
            Err(message) => parsed_json(text@) == Err::<Json, Seq<char>>(message@),
        },
{
    serde_json::from_str::<Value>(text).map(json_from_value).map_err(|e| e.to_string())
}

} // verus!
