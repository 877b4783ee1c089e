//! The mapping between the data model and JSON documents: what every type
//! of the model states about its wire form, the reading and writing of the
//! members of an object, and the wire forms of numbers, flags, strings and
//! lists.

use crate::json::{fields_model, get, items_model, lookup, Json, JsonModel};
use crate::text::{
    decimal, decimal_string, decimal_value, lemma_decimal_value_of_decimal, parse_u32,
};
use vstd::prelude::*;

verus! {

/// The path of a value inside the value at `outer`: the two joined by a dot,
/// or `outer` alone where `inner` is empty and so names the value itself.
pub open spec fn nested(outer: Seq<char>, inner: Seq<char>) -> Seq<char> {
    if inner.len() == 0 {
        outer
    } else {
        outer + seq!['.'] + inner
    }
}

/// Executable form of [`nested`].
pub fn nest(outer: &str, inner: &str) -> (path: String)
    ensures
        path@ == nested(outer@, inner@),
{
    let mut path = outer.to_owned();
    if !inner.is_empty() {
        path.push('.');
        path.append(inner);
    }
    path
}

/// Whether an executable result says what the model expects: the same
/// value, or a failure at the same path.
pub open spec fn agrees<T: DeepView>(
    r: Result<T, String>,
    expected: Result<T::V, Seq<char>>,
) -> bool {
    match r {
        Ok(value) => expected == Ok::<T::V, Seq<char>>(value.deep_view()),
        Err(path) => expected == Err::<T::V, Seq<char>>(path@),
    }
}

/// A type with a wire form.
///
/// Decoding fails with the path of the first value, in the order of the
/// type's declaration, that is missing or of the wrong kind. The path is
/// made of the model's field names and list positions, joined by dots, and
/// is empty where the document itself is of the wrong kind.
pub trait Wire: Sized + DeepView {
    /// What a document decodes to.
    spec fn decoded(doc: JsonModel) -> Result<Self::V, Seq<char>>;

    /// The document that stands for a value.
    spec fn encoded(value: Self::V) -> JsonModel;

    /// Decodes a document.
    fn from_json(doc: &Json) -> (r: Result<Self, String>)
        ensures
            agrees(r, Self::decoded(doc.model())),
    ;

    /// Encodes a value.
    fn to_json(&self) -> (doc: Json)
        ensures
            doc.model() == Self::encoded(self.deep_view()),
    ;

    /// Decoding what was encoded gives the value back, and no value is
    /// encoded as `null`.
    proof fn lemma_round_trip(value: Self::V)
        ensures
            Self::decoded(Self::encoded(value)) == Ok::<Self::V, Seq<char>>(value),
            !(Self::encoded(value) is Null),
    ;
}

/// The value of the required member `wire`, reported under `name` where it
/// is missing or does not decode.
pub open spec fn required<T: Wire>(
    fields: Seq<(Seq<char>, JsonModel)>,
    wire: Seq<char>,
    name: Seq<char>,
) -> Result<T::V, Seq<char>> {
    match lookup(fields, wire) {
        None => Err(name),
        Some(doc) => match T::decoded(doc) {
            Ok(value) => Ok(value),
            Err(path) => Err(nested(name, path)),
        },
    }
}

/// The value of the optional member `wire`: absent where the object has no
/// such member or has `null` for it, present where the member decodes.
pub open spec fn optional<T: Wire>(
    fields: Seq<(Seq<char>, JsonModel)>,
    wire: Seq<char>,
    name: Seq<char>,
) -> Result<Option<T::V>, Seq<char>> {
    match lookup(fields, wire) {
        None => Ok(None),
        Some(doc) => if doc is Null {
            Ok(None)
        } else {
            match T::decoded(doc) {
                Ok(value) => Ok(Some(value)),
                Err(path) => Err(nested(name, path)),
            }
        },
    }
}

/// The document written for an optional member: `null` where it is absent.
pub open spec fn encoded_optional<T: Wire>(value: Option<T::V>) -> JsonModel {
    match value {
        Some(v) => T::encoded(v),
        None => JsonModel::Null,
    }
}

/// Reads a required member of an object.
pub fn read_required<T: Wire>(fields: &Vec<(String, Json)>, wire: &str, name: &str) -> (r: Result<
    T,
    String,
>)
    ensures
        agrees(r, required::<T>(fields_model(fields@), wire@, name@)),
{
    match get(fields, wire) {
        None => Err(name.to_owned()),
        Some(doc) => match T::from_json(doc) {
            Ok(value) => Ok(value),
            Err(path) => Err(nest(name, path.as_str())),
        },
    }
}

/// Reads an optional member of an object.
pub fn read_optional<T: Wire>(fields: &Vec<(String, Json)>, wire: &str, name: &str) -> (r: Result<
    Option<T>,
    String,
>)
    ensures
        agrees(r, optional::<T>(fields_model(fields@), wire@, name@)),
{
    match get(fields, wire) {
        None => Ok(None),
        Some(doc) => match doc {
            Json::Null => Ok(None),
            _ => match T::from_json(doc) {
                Ok(value) => Ok(Some(value)),
                Err(path) => Err(nest(name, path.as_str())),
            },
        },
    }
}

/// Writes an optional member.
pub fn write_optional<T: Wire>(value: &Option<T>) -> (doc: Json)
    ensures
        doc.model() == encoded_optional::<T>(value.deep_view()),
{
    match value {
        Some(v) => v.to_json(),
        None => Json::Null,
    }
}

/// An optional member that the object leaves out, or gives as `null`, is
/// absent.
pub proof fn lemma_absent_member<T: Wire>(
    fields: Seq<(Seq<char>, JsonModel)>,
    wire: Seq<char>,
    name: Seq<char>,
)
    requires
        lookup(fields, wire) is None || lookup(fields, wire) == Some(JsonModel::Null),
    ensures
        optional::<T>(fields, wire, name) == Ok::<Option<T::V>, Seq<char>>(None),
{
}

/// An optional list that the object gives as an empty list is present and
/// empty: it is not taken for an absent one.
pub proof fn lemma_empty_list_member<T: Wire>(
    fields: Seq<(Seq<char>, JsonModel)>,
    wire: Seq<char>,
    name: Seq<char>,
)
    requires
        lookup(fields, wire) == Some(JsonModel::List(Seq::empty())),
    ensures
        optional::<Vec<T>>(fields, wire, name) == Ok::<Option<Seq<T::V>>, Seq<char>>(
            Some(Seq::empty()),
        ),
{
}

/// An optional member that was encoded decodes to what it was, whatever
/// stands around it in the object.
pub proof fn lemma_optional_round_trip<T: Wire>(
    fields: Seq<(Seq<char>, JsonModel)>,
    wire: Seq<char>,
    name: Seq<char>,
    value: Option<T::V>,
)
    requires
        lookup(fields, wire) == Some(encoded_optional::<T>(value)),
    ensures
        optional::<T>(fields, wire, name) == Ok::<Option<T::V>, Seq<char>>(value),
{
    if let Some(v) = value {
        T::lemma_round_trip(v);
    }
}

/// A required member that was encoded decodes to what it was.
pub proof fn lemma_required_round_trip<T: Wire>(
    fields: Seq<(Seq<char>, JsonModel)>,
    wire: Seq<char>,
    name: Seq<char>,
    value: T::V,
)
    requires
        lookup(fields, wire) == Some(T::encoded(value)),
    ensures
        required::<T>(fields, wire, name) == Ok::<T::V, Seq<char>>(value),
{
    T::lemma_round_trip(value);
}

impl Wire for bool {
    open spec fn decoded(doc: JsonModel) -> Result<bool, Seq<char>> {
        match doc {
            JsonModel::Bool(b) => Ok(b),
            _ => Err(Seq::empty()),
        }
    }

    open spec fn encoded(value: bool) -> JsonModel {
        JsonModel::Bool(value)
    }

    fn from_json(doc: &Json) -> (r: Result<bool, String>) {
        match doc {
            Json::Bool(b) => Ok(*b),
            _ => Err(String::new()),
        }
    }

    fn to_json(&self) -> (doc: Json) {
        Json::Bool(*self)
    }

    proof fn lemma_round_trip(value: bool) {
    }
}

impl Wire for u8 {
    open spec fn decoded(doc: JsonModel) -> Result<u8, Seq<char>> {
        match doc {
            JsonModel::Number(numeral) => match decimal_value(numeral) {
                Some(n) => if n <= u8::MAX {
                    Ok(n as u8)
                } else {
                    Err(Seq::empty())
                },
                None => Err(Seq::empty()),
            },
            _ => Err(Seq::empty()),
        }
    }

    open spec fn encoded(value: u8) -> JsonModel {
        JsonModel::Number(decimal(value as nat))
    }

    fn from_json(doc: &Json) -> (r: Result<u8, String>) {
        match doc {
            Json::Number(numeral) => match parse_u32(numeral.as_str()) {
                Some(n) => if n <= 0xff {
                    Ok(n as u8)
                } else {
                    Err(String::new())
                },
                None => Err(String::new()),
            },
            _ => Err(String::new()),
        }
    }

    fn to_json(&self) -> (doc: Json) {
        Json::number(*self as u64)
    }

    proof fn lemma_round_trip(value: u8) {
        lemma_decimal_value_of_decimal(value as nat);
    }
}

impl Wire for u16 {
    open spec fn decoded(doc: JsonModel) -> Result<u16, Seq<char>> {
        match doc {
            JsonModel::Number(numeral) => match decimal_value(numeral) {
                Some(n) => if n <= u16::MAX {
                    Ok(n as u16)
                } else {
                    Err(Seq::empty())
                },
                None => Err(Seq::empty()),
            },
            _ => Err(Seq::empty()),
        }
    }

    open spec fn encoded(value: u16) -> JsonModel {
        JsonModel::Number(decimal(value as nat))
    }

    fn from_json(doc: &Json) -> (r: Result<u16, String>) {
        match doc {
            Json::Number(numeral) => match parse_u32(numeral.as_str()) {
                Some(n) => if n <= 0xffff {
                    Ok(n as u16)
                } else {
                    Err(String::new())
                },
                None => Err(String::new()),
            },
            _ => Err(String::new()),
        }
    }

    fn to_json(&self) -> (doc: Json) {
        Json::number(*self as u64)
    }

    proof fn lemma_round_trip(value: u16) {
        lemma_decimal_value_of_decimal(value as nat);
    }
}

impl Wire for u32 {
    open spec fn decoded(doc: JsonModel) -> Result<u32, Seq<char>> {
        match doc {
            JsonModel::Number(numeral) => match decimal_value(numeral) {
                Some(n) => if n <= u32::MAX {
                    Ok(n as u32)
                } else {
                    Err(Seq::empty())
                },
                None => Err(Seq::empty()),
            },
            _ => Err(Seq::empty()),
        }
    }

    open spec fn encoded(value: u32) -> JsonModel {
        JsonModel::Number(decimal(value as nat))
    }

    fn from_json(doc: &Json) -> (r: Result<u32, String>) {
        match doc {
            Json::Number(numeral) => match parse_u32(numeral.as_str()) {
                Some(n) => Ok(n),
                None => Err(String::new()),
            },
            _ => Err(String::new()),
        }
    }

    fn to_json(&self) -> (doc: Json) {
        Json::number(*self as u64)
    }

    proof fn lemma_round_trip(value: u32) {
        lemma_decimal_value_of_decimal(value as nat);
    }
}

impl Wire for String {
    open spec fn decoded(doc: JsonModel) -> Result<Seq<char>, Seq<char>> {
        match doc {
            JsonModel::Text(t) => Ok(t),
            _ => Err(Seq::empty()),
        }
    }

    open spec fn encoded(value: Seq<char>) -> JsonModel {
        JsonModel::Text(value)
    }

    fn from_json(doc: &Json) -> (r: Result<String, String>) {
        match doc {
            Json::Text(t) => Ok(t.clone()),
            _ => Err(String::new()),
        }
    }

    fn to_json(&self) -> (doc: Json) {
        Json::Text(self.clone())
    }

    proof fn lemma_round_trip(value: Seq<char>) {
    }
}

/// What the elements of a list decode to. Of two elements that do not
/// decode, the earlier is reported, under its position in the list.
pub open spec fn decoded_items<T: Wire>(items: Seq<JsonModel>) -> Result<Seq<T::V>, Seq<char>>
    decreases items.len(),
{
    if items.len() == 0 {
        Ok(Seq::empty())
    } else {
        match decoded_items::<T>(items.drop_last()) {
            Err(path) => Err(path),
            Ok(front) => match T::decoded(items.last()) {
                Err(path) => Err(nested(decimal((items.len() - 1) as nat), path)),
                Ok(value) => Ok(front.push(value)),
            },
        }
    }
}

/// The documents that stand for the elements of a list.
pub open spec fn encoded_items<T: Wire>(values: Seq<T::V>) -> Seq<JsonModel> {
    Seq::new(values.len(), |i: int| T::encoded(values[i]))
}

/// A failure among the first elements of a list is the failure of the list.
proof fn lemma_decoded_items_failure<T: Wire>(items: Seq<JsonModel>, k: int)
    requires
        0 <= k <= items.len(),
        decoded_items::<T>(items.take(k)) is Err,
    ensures
        decoded_items::<T>(items) == decoded_items::<T>(items.take(k)),
    decreases items.len() - k,
{
    if k == items.len() {
        assert(items.take(k) =~= items);
    } else {
        assert(items.drop_last().take(k) =~= items.take(k));
        lemma_decoded_items_failure::<T>(items.drop_last(), k);
    }
}

/// The elements that were encoded decode to what they were.
proof fn lemma_items_round_trip<T: Wire>(values: Seq<T::V>)
    ensures
        decoded_items::<T>(encoded_items::<T>(values)) == Ok::<Seq<T::V>, Seq<char>>(values),
    decreases values.len(),
{
    let items = encoded_items::<T>(values);
    if values.len() > 0 {
        lemma_items_round_trip::<T>(values.drop_last());
        T::lemma_round_trip(values.last());
        assert(items.drop_last() =~= encoded_items::<T>(values.drop_last()));
        assert(values.drop_last().push(values.last()) =~= values);
    } else {
        assert(values =~= Seq::<T::V>::empty());
    }
}

impl<T: Wire> Wire for Vec<T> {
    open spec fn decoded(doc: JsonModel) -> Result<Seq<T::V>, Seq<char>> {
        match doc {
            JsonModel::List(items) => decoded_items::<T>(items),
            _ => Err(Seq::empty()),
        }
    }

    open spec fn encoded(value: Seq<T::V>) -> JsonModel {
        JsonModel::List(encoded_items::<T>(value))
    }

    fn from_json(doc: &Json) -> (r: Result<Vec<T>, String>) {
        match doc.as_list() {
            None => Err(String::new()),
            Some(items) => {
                let ghost all = items_model(items@);
                let mut out: Vec<T> = Vec::new();
                let mut i: usize = 0;
                proof {
                    assert(out.deep_view() =~= Seq::<T::V>::empty());
                }
                while i < items.len()
                    invariant
                        0 <= i <= items.len(),
                        all == items_model(items@),
                        doc.model() == JsonModel::List(all),
                        decoded_items::<T>(all.take(i as int)) == Ok::<Seq<T::V>, Seq<char>>(
                            out.deep_view(),
                        ),
                    decreases items.len() - i,
                {
                    proof {
                        assert(all.take(i + 1).drop_last() =~= all.take(i as int));
                    }
                    match T::from_json(&items[i]) {
                        Err(path) => {
                            let index = decimal_string(i as u64);
                            proof {
                                assert(decoded_items::<T>(all.take(i + 1)) == Err::<
                                    Seq<T::V>,
                                    Seq<char>,
                                >(nested(decimal(i as nat), path@)));
                                lemma_decoded_items_failure::<T>(all, i + 1);
                            }
                            return Err(nest(index.as_str(), path.as_str()));
                        },
                        Ok(value) => {
                            let ghost before = out.deep_view();
                            out.push(value);
                            proof {
                                assert(out.deep_view() =~= before.push(value.deep_view()));
                            }
                        },
                    }
                    i = i + 1;
                }
                proof {
                    assert(all.take(items.len() as int) =~= all);
                }
                Ok(out)
            },
        }
    }

    fn to_json(&self) -> (doc: Json) {
        let mut items: Vec<Json> = Vec::new();
        let mut i: usize = 0;
        while i < self.len()
            invariant
                0 <= i <= self.len(),
                items_model(items@) == encoded_items::<T>(self.deep_view()).take(i as int),
            decreases self.len() - i,
        {
            let item = self[i].to_json();
            let ghost before = items_model(items@);
            items.push(item);
            proof {
                assert(encoded_items::<T>(self.deep_view()).take(i + 1) =~= before.push(
                    item.model(),
                ));
            }
            i = i + 1;
        }
        proof {
            let all = encoded_items::<T>(self.deep_view());
            assert(all.take(self.len() as int) =~= all);
        }
        Json::list(items)
    }

    proof fn lemma_round_trip(value: Seq<T::V>) {
        lemma_items_round_trip::<T>(value);
    }
}

} // verus!
