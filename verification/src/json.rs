//! JSON documents as plain trees, and the decoding of records from them.

use crate::text::{parse_unsigned, same_text, unsigned_of};
use serde_json::Value;
use vstd::prelude::*;

verus! {

/// A JSON document held as a tree of plain values.
#[derive(Debug)]
pub enum Json {
    Null,
    Bool(bool),
    /// A number, kept as the text that denotes it.
    Number(String),
    Text(String),
    Array(Vec<Json>),
    /// The members of an object, in document order.
    Object(Vec<(String, Json)>),
}

/// The mathematical value of a [`Json`] tree.
pub enum JsonValue {
    Null,
    Bool(bool),
    Number(Seq<char>),
    Text(Seq<char>),
    Array(Seq<JsonValue>),
    Object(Seq<(Seq<char>, JsonValue)>),
}

impl View for Json {
    type V = JsonValue;

    open spec fn view(&self) -> JsonValue
        decreases self,
    {
        match self {
            Json::Null => JsonValue::Null,
            Json::Bool(b) => JsonValue::Bool(*b),
            Json::Number(t) => JsonValue::Number(t@),
            Json::Text(t) => JsonValue::Text(t@),
            Json::Array(items) => JsonValue::Array(
                Seq::new(
                    items@.len(),
                    |i: int|
                        if 0 <= i < items@.len() {
                            items@[i]@
                        } else {
                            JsonValue::Null
                        },
                ),
            ),
            Json::Object(members) => JsonValue::Object(
                Seq::new(
                    members@.len(),
                    |i: int|
                        {
                            let value = if 0 <= i < members@.len() {
                                members@[i].1@
                            } else {
                                JsonValue::Null
                            };
                            (members@[i].0@, value)
                        },
                ),
            ),
        }
    }
}

/// The value of the first member named `key` among `members`.
pub open spec fn lookup(members: Seq<(Seq<char>, JsonValue)>, key: Seq<char>) -> Option<JsonValue>
    decreases members.len(),
{
    if members.len() == 0 {
        None
    } else if members[0].0 == key {
        Some(members[0].1)
    } else {
        lookup(members.drop_first(), key)
    }
}

impl JsonValue {
    /// The member named `key`, where this value is an object that has one.
    pub open spec fn member(self, key: Seq<char>) -> Option<JsonValue> {
        match self {
            JsonValue::Object(members) => lookup(members, key),
            _ => None,
        }
    }
}

/// The document that serde_json reads from `bytes`, or `None` where it rejects them.
pub uninterp spec fn json_document(bytes: Seq<u8>) -> Option<JsonValue>;

/// The bytes that serde_json writes for `value`, or `None` where it cannot write it.
pub uninterp spec fn json_text(value: JsonValue) -> Option<Seq<u8>>;

/// serde_json's tree of a document.
#[verifier::external_type_specification]
#[verifier::external_body]
pub struct ExTree(serde_json::Value);

/// Moves a `serde_json::Value` into a [`Json`], node for node; a number becomes the text that
/// serde_json prints for it.
#[verifier::external_body]
fn lift(tree: Value) -> Json {
    match tree {
        Value::Null => Json::Null,
        Value::Bool(b) => Json::Bool(b),
        Value::Number(n) => Json::Number(n.to_string()),
        Value::String(s) => Json::Text(s),
        Value::Array(items) => Json::Array(items.into_iter().map(lift).collect()),
        Value::Object(members) => Json::Object(
            members.into_iter().map(|(k, v)| (k, lift(v))).collect(),
        ),
    }
}

/// Moves a [`Json`] into a `serde_json::Value`, node for node; a number is read back from its
/// text by `serde_json::from_str`, whose error is handed on as the text that it displays.
#[verifier::external_body]
fn lower(tree: &Json) -> Result<Value, String> {
    Ok(match tree {
        Json::Null => Value::Null,
        Json::Bool(b) => Value::Bool(*b),
        Json::Number(t) => Value::Number(serde_json::from_str(t).map_err(|e| e.to_string())?),
        Json::Text(t) => Value::String(t.clone()),
        Json::Array(items) => Value::Array(
            items.iter().map(lower).collect::<Result<_, _>>()?,
        ),
        Json::Object(members) => Value::Object(
            members.iter().map(|(k, v)| Ok((k.clone(), lower(v)?))).collect::<Result<_, String>>()?,
        ),
    })
}

/// `serde_json::from_slice` at type `serde_json::Value`: the result is the document that
/// [`json_document`] names for these bytes, and an error exactly where it names none. The error
/// is the text that serde_json's error displays.
#[verifier::external_body]
fn read_document(bytes: &[u8]) -> (r: Result<Json, String>)
    ensures
        match r {
            Ok(tree) => json_document(bytes@) == Some(tree@),
            Err(_) => json_document(bytes@) is None,
        },
{
    serde_json::from_slice::<Value>(bytes).map(lift).map_err(|e| e.to_string())
}

/// `serde_json::to_vec`: the result is the byte string that [`json_text`] names for this tree,
/// and an error exactly where it names none. The error is the text that serde_json's error
/// displays.
#[verifier::external_body]
fn write_document(tree: &Json) -> (r: Result<Vec<u8>, String>)
    ensures
        match r {
            Ok(bytes) => json_text(tree@) == Some(bytes@),
            Err(_) => json_text(tree@) is None,
        },
{
    serde_json::to_vec(&lower(tree)?).map_err(|e| e.to_string())
}

impl Json {
    /// Reads a JSON document. The error says in words where the bytes stop being JSON.
    pub fn parse(bytes: &[u8]) -> (r: Result<Json, String>)
        ensures
            match r {
                Ok(tree) => json_document(bytes@) == Some(tree@),
                Err(_) => json_document(bytes@) is None,
            },
    {
        read_document(bytes)
    }

    /// Writes this tree as JSON text. The error says in words what could not be written.
    pub fn to_bytes(&self) -> (r: Result<Vec<u8>, String>)
        ensures
            match r {
                Ok(bytes) => json_text(self@) == Some(bytes@),
                Err(_) => json_text(self@) is None,
            },
    {
        write_document(self)
    }

    /// Whether this is an object.
    pub fn is_object(&self) -> (r: bool)
        ensures
            r == (self@ is Object),
    {
        match self {
            Json::Object(_) => true,
            _ => false,
        }
    }

    /// The first member named `key`, where this is an object that has one.
    pub fn member(&self, key: &str) -> (r: Option<&Json>)
        ensures
            match self@.member(key@) {
                Some(v) => r matches Some(found) && found@ == v,
                None => r is None,
            },
    {
        match self {
            Json::Object(members) => {
                let ghost all = self@->Object_0;
                assert(all.skip(0) =~= all);
                let mut i: usize = 0;
                while i < members.len()
                    invariant
                        0 <= i <= members.len(),
                        self@ == JsonValue::Object(all),
                        all.len() == members.len(),
                        forall|k: int|
                            0 <= k < all.len() ==> #[trigger] all[k] == (
                                members@[k].0@,
                                members@[k].1@,
                            ),
                        lookup(all, key@) == lookup(all.skip(i as int), key@),
                    decreases members.len() - i,
                {
                    proof {
                        let rest = all.skip(i as int);
                        assert(rest[0] == all[i as int]);
                        assert(rest.drop_first() =~= all.skip(i + 1));
                    }
                    if same_text(members[i].0.as_str(), key) {
                        assert(all[i as int].0 == key@);
                        assert(lookup(all.skip(i as int), key@) == Some(all[i as int].1));
                        return Some(&members[i].1);
                    }
                    i = i + 1;
                }
                None
            },
            _ => None,
        }
    }
}

/// A type that can be decoded from a JSON value.
pub trait FromJson: Sized + DeepView {
    /// What `value` decodes to, or `None` where it has the wrong shape.
    spec fn decoded(value: JsonValue) -> Option<Self::V>;

    /// Decodes a value of this type from `tree`.
    fn from_json(tree: &Json) -> (r: Option<Self>)
        ensures
            match Self::decoded(tree@) {
                Some(m) => r matches Some(x) && x.deep_view() == m,
                None => r is None,
            },
    ;
}

impl FromJson for String {
    open spec fn decoded(value: JsonValue) -> Option<Seq<char>> {
        match value {
            JsonValue::Text(t) => Some(t),
            _ => None,
        }
    }

    fn from_json(tree: &Json) -> (r: Option<String>) {
        match tree {
            Json::Text(t) => Some(t.clone()),
            _ => None,
        }
    }
}

impl FromJson for bool {
    open spec fn decoded(value: JsonValue) -> Option<bool> {
        match value {
            JsonValue::Bool(b) => Some(b),
            _ => None,
        }
    }

    fn from_json(tree: &Json) -> (r: Option<bool>) {
        match tree {
            Json::Bool(b) => Some(*b),
            _ => None,
        }
    }
}

impl FromJson for usize {
    open spec fn decoded(value: JsonValue) -> Option<usize> {
        match value {
            JsonValue::Number(t) => match unsigned_of(t) {
                Some(n) if n <= usize::MAX => Some(n as usize),
                _ => None,
            },
            _ => None,
        }
    }

    fn from_json(tree: &Json) -> (r: Option<usize>) {
        match tree {
            Json::Number(t) => parse_unsigned(t.as_str()),
            _ => None,
        }
    }
}

/// A value that may be absent: `null` decodes to `None`, anything else as `T` does.
impl<T: FromJson> FromJson for Option<T> {
    open spec fn decoded(value: JsonValue) -> Option<Option<T::V>> {
        match value {
            JsonValue::Null => Some(None),
            _ => match T::decoded(value) {
                Some(m) => Some(Some(m)),
                None => None,
            },
        }
    }

    fn from_json(tree: &Json) -> (r: Option<Option<T>>) {
        match tree {
            Json::Null => Some(None),
            _ => match T::from_json(tree) {
                Some(x) => Some(Some(x)),
                None => None,
            },
        }
    }
}

/// An array whose items all decode as `T`, in document order.
impl<T: FromJson> FromJson for Vec<T> {
    open spec fn decoded(value: JsonValue) -> Option<Seq<T::V>> {
        match value {
            JsonValue::Array(items) => if forall|i: int|
                0 <= i < items.len() ==> (#[trigger] T::decoded(items[i])) is Some {
                Some(Seq::new(items.len(), |i: int| T::decoded(items[i])->0))
            } else {
                None
            },
            _ => None,
        }
    }

    fn from_json(tree: &Json) -> (r: Option<Vec<T>>) {
        match tree {
            Json::Array(items) => {
                let ghost all = tree@->Array_0;
                let mut out: Vec<T> = Vec::new();
                let mut i: usize = 0;
                while i < items.len()
                    invariant
                        0 <= i <= items.len(),
                        tree@ == JsonValue::Array(all),
                        all.len() == items.len(),
                        forall|k: int| 0 <= k < all.len() ==> all[k] == #[trigger] items@[k]@,
                        out.len() == i,
                        forall|k: int| 0 <= k < i ==> (#[trigger] T::decoded(all[k])) is Some,
                        forall|k: int|
                            0 <= k < i ==> (#[trigger] out@[k]).deep_view() == T::decoded(
                                all[k],
                            )->0,
                    decreases items.len() - i,
                {
                    match T::from_json(&items[i]) {
                        Some(x) => {
                            out.push(x);
                        },
                        None => {
                            assert(T::decoded(all[i as int]) is None);
                            return None;
                        },
                    }
                    i = i + 1;
                }
                assert(out.deep_view() =~= Self::decoded(tree@)->0);
                Some(out)
            },
            _ => None,
        }
    }
}

/// What the member `key` of `value` decodes to as a `T`; `None` where the member is missing.
pub open spec fn field<T: FromJson>(value: JsonValue, key: Seq<char>) -> Option<T::V> {
    match value.member(key) {
        Some(v) => T::decoded(v),
        None => None,
    }
}

/// As [`field`], but a missing member decodes to `None` like `null` does.
pub open spec fn optional_field<T: FromJson>(value: JsonValue, key: Seq<char>) -> Option<
    Option<T::V>,
> {
    match value.member(key) {
        Some(v) => Option::<T>::decoded(v),
        None => Some(None),
    }
}

/// Decodes the member `key` of `tree`, which must be there.
pub fn read_field<T: FromJson>(tree: &Json, key: &str) -> (r: Option<T>)
    ensures
        match field::<T>(tree@, key@) {
            Some(m) => r matches Some(x) && x.deep_view() == m,
            None => r is None,
        },
{
    match tree.member(key) {
        Some(v) => T::from_json(v),
        None => None,
    }
}

/// Decodes the member `key` of `tree`, which may be missing or `null`.
pub fn read_optional_field<T: FromJson>(tree: &Json, key: &str) -> (r: Option<Option<T>>)
    ensures
        match optional_field::<T>(tree@, key@) {
            Some(m) => r matches Some(x) && x.deep_view() == m,
            None => r is None,
        },
{
    match tree.member(key) {
        Some(v) => Option::<T>::from_json(v),
        None => Some(None),
    }
}

} // verus!
