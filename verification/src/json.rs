//! JSON documents: the tree the decoders read and the encoders write, its
//! mathematical model, and the reading of a document from text.

use crate::text::{decimal, decimal_string, same_text};
use vstd::prelude::*;

verus! {

/// A JSON document.
///
/// An object keeps its members in the order of the document. Where a name
/// occurs more than once, readers take the first member of that name.
#[derive(Debug, PartialEq, Eq)]
pub enum Json {
    Null,
    Bool(bool),
    /// A number, as the text of its numeral. The data model holds counts
    /// and ids only, so its decoders read the numerals themselves and accept
    /// those that [`decimal`] writes.
    Number(String),
    Text(String),
    List(Vec<Json>),
    Object(Vec<(String, Json)>),
}

/// The mathematical value of a [`Json`] document.
pub enum JsonModel {
    Null,
    Bool(bool),
    Number(Seq<char>),
    Text(Seq<char>),
    List(Seq<JsonModel>),
    Object(Seq<(Seq<char>, JsonModel)>),
}

/// The members of an object, each name with the model of its value.
pub open spec fn fields_model(fields: Seq<(String, Json)>) -> Seq<(Seq<char>, JsonModel)> {
    Seq::new(fields.len(), |i: int| (fields[i].0@, fields[i].1.model()))
}

/// The models of the elements of a list.
pub open spec fn items_model(items: Seq<Json>) -> Seq<JsonModel> {
    Seq::new(items.len(), |i: int| items[i].model())
}

/// The value of the first member named `key` among `fields[i..]`.
pub open spec fn lookup_from(
    fields: Seq<(Seq<char>, JsonModel)>,
    key: Seq<char>,
    i: int,
) -> Option<JsonModel>
    decreases fields.len() - i,
{
    if 0 <= i < fields.len() {
        if fields[i].0 == key {
            Some(fields[i].1)
        } else {
            lookup_from(fields, key, i + 1)
        }
    } else {
        None
    }
}

/// The value of the first member named `key`, or `None` where the object
/// has no member of that name.
pub open spec fn lookup(fields: Seq<(Seq<char>, JsonModel)>, key: Seq<char>) -> Option<JsonModel> {
    lookup_from(fields, key, 0)
}

impl Json {
    /// The mathematical value of the document.
    pub open spec fn model(self) -> JsonModel
        decreases self,
    {
        match self {
            Json::Null => JsonModel::Null,
            Json::Bool(b) => JsonModel::Bool(b),
            Json::Number(t) => JsonModel::Number(t@),
            Json::Text(t) => JsonModel::Text(t@),
            Json::List(items) => JsonModel::List(
                Seq::new(
                    items@.len(),
                    |i: int|
                        if 0 <= i < items@.len() {
                            items@[i].model()
                        } else {
                            JsonModel::Null
                        },
                ),
            ),
            Json::Object(fields) => JsonModel::Object(
                Seq::new(
                    fields@.len(),
                    |i: int|
                        if 0 <= i < fields@.len() {
                            (fields@[i].0@, fields@[i].1.model())
                        } else {
                            (Seq::empty(), JsonModel::Null)
                        },
                ),
            ),
        }
    }

    /// The model of an object is made of the models of its members.
    pub proof fn lemma_object_model(fields: Vec<(String, Json)>)
        ensures
            Json::Object(fields).model() == JsonModel::Object(fields_model(fields@)),
    {
        assert(Json::Object(fields).model()->Object_0 =~= fields_model(fields@));
    }

    /// The model of a list is made of the models of its elements.
    pub proof fn lemma_list_model(items: Vec<Json>)
        ensures
            Json::List(items).model() == JsonModel::List(items_model(items@)),
    {
        assert(Json::List(items).model()->List_0 =~= items_model(items@));
    }

    /// The members of the document, where it is an object.
    pub fn as_object(&self) -> (r: Option<&Vec<(String, Json)>>)
        ensures
            match r {
                Some(fields) => self.model() == JsonModel::Object(fields_model(fields@)),
                None => !(self.model() is Object),
            },
    {
        match self {
            Json::Object(fields) => {
                proof {
                    Json::lemma_object_model(*fields);
                }
                Some(fields)
            },
            _ => None,
        }
    }

    /// The elements of the document, where it is a list.
    pub fn as_list(&self) -> (r: Option<&Vec<Json>>)
        ensures
            match r {
                Some(items) => self.model() == JsonModel::List(items_model(items@)),
                None => !(self.model() is List),
            },
    {
        match self {
            Json::List(items) => {
                proof {
                    Json::lemma_list_model(*items);
                }
                Some(items)
            },
            _ => None,
        }
    }

    /// The object with the given members.
    pub fn object(fields: Vec<(String, Json)>) -> (doc: Json)
        ensures
            doc.model() == JsonModel::Object(fields_model(fields@)),
    {
        proof {
            Json::lemma_object_model(fields);
        }
        Json::Object(fields)
    }

    /// The list with the given elements.
    pub fn list(items: Vec<Json>) -> (doc: Json)
        ensures
            doc.model() == JsonModel::List(items_model(items@)),
    {
        proof {
            Json::lemma_list_model(items);
        }
        Json::List(items)
    }

    /// The number `n`.
    pub fn number(n: u64) -> (doc: Json)
        ensures
            doc.model() == JsonModel::Number(decimal(n as nat)),
    {
        Json::Number(decimal_string(n))
    }
}

/// The value of the first member named `key`, or `None` where there is no
/// member of that name.
pub fn get<'a>(fields: &'a Vec<(String, Json)>, key: &str) -> (r: Option<&'a Json>)
    ensures
        match r {
            Some(value) => lookup(fields_model(fields@), key@) == Some(value.model()),
            None => lookup(fields_model(fields@), key@) is None,
        },
{
    let mut i: usize = 0;
    while i < fields.len()
        invariant
            0 <= i <= fields.len(),
            lookup(fields_model(fields@), key@) == lookup_from(
                fields_model(fields@),
                key@,
                i as int,
            ),
        decreases fields.len() - i,
    {
        if same_text(fields[i].0.as_str(), key) {
            return Some(&fields[i].1);
        }
        i = i + 1;
    }
    None
}

/// The members of an object that has none.
pub fn no_fields() -> (fields: Vec<(String, Json)>)
    ensures
        fields_model(fields@) == Seq::<(Seq<char>, JsonModel)>::empty(),
{
    Vec::new()
}

/// Appends the member `name: value` to `fields`.
pub fn put(fields: &mut Vec<(String, Json)>, name: &str, value: Json)
    ensures
        fields_model(final(fields)@) == fields_model(old(fields)@).push((name@, value.model())),
{
    fields.push((name.to_owned(), value));
}

/// `serde_json::Value`, the tree that `serde_json` reads a text into. Its
/// inside is not looked at here: [`lift`] copies it into a [`Json`].
#[verifier::external_type_specification]
#[verifier::external_body]
pub struct ExValue(serde_json::Value);

/// The document that `serde_json::from_str` reads from `text` as a
/// `serde_json::Value`, or `None` where it reports an error.
pub uninterp spec fn parsed(text: Seq<char>) -> Option<JsonModel>;

/// The document that a `serde_json::Value` holds.
pub uninterp spec fn value_model(v: serde_json::Value) -> JsonModel;

/// `serde_json::from_str` at the type `serde_json::Value`: whether it
/// succeeds and what it reads depend on the text alone. An error of any kind
/// (syntax, premature end, nesting deeper than the parser allows) gives
/// `None`.
#[verifier::external_body]
fn read_value(text: &str) -> (r: Option<serde_json::Value>)
    ensures
        match r {
            Some(v) => parsed(text@) == Some(value_model(v)),
            None => parsed(text@) is None,
        },
{
    serde_json::from_str::<serde_json::Value>(text).ok()
}

/// Copies a `serde_json::Value` into a [`Json`], variant for variant. A
/// number becomes the text that `Number`'s `Display` writes. The members of
/// an object come in the order in which `Map::iter` yields them.
#[verifier::external_body]
fn lift(v: &serde_json::Value) -> (doc: Json)
    ensures
        doc.model() == value_model(*v),
{
    match v {
        serde_json::Value::Null => Json::Null,
        serde_json::Value::Bool(b) => Json::Bool(*b),
        serde_json::Value::Number(n) => Json::Number(n.to_string()),
        serde_json::Value::String(s) => Json::Text(s.clone()),
        serde_json::Value::Array(a) => Json::List(a.iter().map(lift).collect()),
        serde_json::Value::Object(o) => Json::Object(
            o.iter().map(|(k, v)| (k.clone(), lift(v))).collect(),
        ),
    }
}

/// Reads a JSON document from text.
///
/// The result is `None` exactly when the text is not a JSON document.
pub fn parse_json(text: &str) -> (r: Option<Json>)
    ensures
        match r {
            Some(doc) => parsed(text@) == Some(doc.model()),
            None => parsed(text@) is None,
        },
{
    match read_value(text) {
        Some(v) => Some(lift(&v)),
        None => None,
    }
}

} // verus!
