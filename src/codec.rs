use vstd::prelude::*;
use vstd::utf8::{decode_utf8, valid_utf8};

use crate::error::DecodeError;

verus! {

/// An epoch commitment record, as published on the data-availability layer.
#[derive(Debug, Clone)]
pub struct EpochJson {
    pub height: u64,
    pub prev_commitment: String,
    pub current_commitment: String,
}

/// The mathematical content of an epoch record: height and the two commitments.
pub type EpochModel = (u64, Seq<char>, Seq<char>);

impl View for EpochJson {
    type V = EpochModel;

    open spec fn view(&self) -> EpochModel {
        (self.height, self.prev_commitment@, self.current_commitment@)
    }
}

/// A member value of a JSON object, as far as epoch records read it.
#[derive(Debug, Clone)]
pub enum JsonField {
    /// A number that is a non-negative integer fitting in 64 bits.
    Unsigned(u64),
    /// A string.
    Text(String),
    /// Anything else (null, boolean, negative or fractional number, array, object).
    Other,
}

/// The content of a `JsonField`.
pub enum FieldModel {
    Unsigned(u64),
    Text(Seq<char>),
    Other,
}

impl View for JsonField {
    type V = FieldModel;

    open spec fn view(&self) -> FieldModel {
        match self {
            JsonField::Unsigned(n) => FieldModel::Unsigned(*n),
            JsonField::Text(s) => FieldModel::Text(s@),
            JsonField::Other => FieldModel::Other,
        }
    }
}

/// The members of a JSON object: key and value, in the parser's order.
pub type ObjectModel = Seq<(Seq<char>, FieldModel)>;

pub open spec fn object_view(fields: Seq<(String, JsonField)>) -> ObjectModel {
    fields.map_values(|p: (String, JsonField)| (p.0@, p.1@))
}

/// The members of the JSON object that `text` holds, or `None` where `text`
/// is not a JSON object.
pub uninterp spec fn json_object_members(text: Seq<char>) -> Option<ObjectModel>;

/// Relies on `String::from_utf8`: it succeeds exactly on valid UTF-8, and the
/// string holds the decoded characters.
#[verifier::external_body]
fn utf8_text(bytes: &[u8]) -> (r: Option<String>)
    ensures
        r is Some <==> valid_utf8(bytes@),
        r matches Some(s) ==> s@ == decode_utf8(bytes@),
{
    String::from_utf8(bytes.to_vec()).ok()
}

/// Relies on `serde_json::from_str` into a `serde_json::Value`, a function of
/// the text alone: where the text is a JSON object, its members are handed out
/// in the map's order, each value told apart by variant, and a number read
/// through `Number::as_u64`.
#[verifier::external_body]
fn parse_object(text: &str) -> (r: Option<Vec<(String, JsonField)>>)
    ensures
        r is Some <==> json_object_members(text@) is Some,
        r matches Some(v) ==> json_object_members(text@) == Some(object_view(v@)),
{
    match serde_json::from_str::<serde_json::Value>(text) {
        Ok(serde_json::Value::Object(m)) => Some(m.into_iter().map(|(k, v)| (k, match v {
            serde_json::Value::Number(n) => n.as_u64().map_or(JsonField::Other, JsonField::Unsigned),
            serde_json::Value::String(s) => JsonField::Text(s),
            _ => JsonField::Other,
        })).collect()),
        _ => None,
    }
}

/// The value of the first member named `key`.
pub open spec fn member(obj: ObjectModel, key: Seq<char>) -> Option<FieldModel>
    decreases obj.len(),
{
    if obj.len() == 0 {
        None
    } else if obj[0].0 == key {
        Some(obj[0].1)
    } else {
        member(obj.drop_first(), key)
    }
}

pub open spec fn height_key() -> Seq<char> {
    seq!['h', 'e', 'i', 'g', 'h', 't']
}

pub open spec fn prev_key() -> Seq<char> {
    seq!['p', 'r', 'e', 'v', '_', 'c', 'o', 'm', 'm', 'i', 't', 'm', 'e', 'n', 't']
}

pub open spec fn current_key() -> Seq<char> {
    seq!['c', 'u', 'r', 'r', 'e', 'n', 't', '_', 'c', 'o', 'm', 'm', 'i', 't', 'm', 'e', 'n', 't']
}

/// The record that an object describes: it has exactly three members, the
/// height as an unsigned integer and the two commitments as strings.
pub open spec fn record_of(obj: ObjectModel) -> Option<EpochModel> {
    if obj.len() == 3 {
        match (member(obj, height_key()), member(obj, prev_key()), member(obj, current_key())) {
            (
                Some(FieldModel::Unsigned(h)),
                Some(FieldModel::Text(p)),
                Some(FieldModel::Text(c)),
            ) => Some((h, p, c)),
            _ => None,
        }
    } else {
        None
    }
}

/// What decoding a payload yields.
pub open spec fn decoded(payload: Seq<u8>) -> Result<EpochModel, DecodeError> {
    if !valid_utf8(payload) {
        Err(DecodeError::Encoding)
    } else {
        match json_object_members(decode_utf8(payload)) {
            Some(obj) => match record_of(obj) {
                Some(rec) => Ok(rec),
                None => Err(DecodeError::Schema),
            },
            None => Err(DecodeError::Schema),
        }
    }
}

pub open spec fn record_result_view(r: Result<EpochJson, DecodeError>) -> Result<EpochModel, DecodeError> {
    match r {
        Ok(e) => Ok(e@),
        Err(e) => Err(e),
    }
}

/// Bytes that are not valid UTF-8 never decode: they give `Encoding`.
pub proof fn lemma_invalid_utf8_is_encoding_error(payload: Seq<u8>)
    requires
        !valid_utf8(payload),
    ensures
        decoded(payload) == Err::<EpochModel, DecodeError>(DecodeError::Encoding),
{
}

/// A UTF-8 JSON object that lacks one of the three members, or holds one
/// with the wrong type, gives `Schema`.
pub proof fn lemma_bad_object_is_schema_error(payload: Seq<u8>, obj: ObjectModel)
    requires
        valid_utf8(payload),
        json_object_members(decode_utf8(payload)) == Some(obj),
        !(member(obj, height_key()) matches Some(FieldModel::Unsigned(_)))
            || !(member(obj, prev_key()) matches Some(FieldModel::Text(_)))
            || !(member(obj, current_key()) matches Some(FieldModel::Text(_))),
    ensures
        decoded(payload) == Err::<EpochModel, DecodeError>(DecodeError::Schema),
{
}

proof fn lemma_member_skip(obj: ObjectModel, key: Seq<char>, i: int)
    requires
        0 <= i <= obj.len(),
        forall|j: int| 0 <= j < i ==> obj[j].0 != key,
    ensures
        member(obj, key) == member(obj.subrange(i, obj.len() as int), key),
    decreases i,
{
    if i > 0 {
        let rest = obj.drop_first();
        assert forall|j: int| 0 <= j < i - 1 implies rest[j].0 != key by {
            assert(rest[j] == obj[j + 1]);
        }
        lemma_member_skip(rest, key, i - 1);
        assert(rest.subrange(i - 1, rest.len() as int) =~= obj.subrange(i, obj.len() as int));
    } else {
        assert(obj.subrange(0, obj.len() as int) =~= obj);
    }
}

/// The position of the first member named `key`.
fn find_member(fields: &Vec<(String, JsonField)>, key: &String) -> (r: Option<usize>)
    ensures
        match r {
            Some(i) => i < fields@.len() && member(object_view(fields@), key@) == Some(fields@[i as int].1@),
            None => member(object_view(fields@), key@) is None,
        },
{
    let ghost obj = object_view(fields@);
    let mut i: usize = 0;
    while i < fields.len()
        invariant
            i <= fields@.len(),
            obj == object_view(fields@),
            forall|j: int| 0 <= j < i ==> obj[j].0 != key@,
        decreases fields@.len() - i,
    {
        if fields[i].0 == *key {
            proof {
                lemma_member_skip(obj, key@, i as int);
                assert(obj.subrange(i as int, obj.len() as int)[0] == obj[i as int]);
            }
            return Some(i);
        }
        i = i + 1;
    }
    proof {
        lemma_member_skip(obj, key@, i as int);
    }
    None
}

/// Builds the record that a JSON object's members describe.
pub fn record_from_members(fields: &Vec<(String, JsonField)>) -> (r: Result<EpochJson, DecodeError>)
    ensures
        record_result_view(r) == match record_of(object_view(fields@)) {
            Some(rec) => Ok(rec),
            None => Err(DecodeError::Schema),
        },
{
    let ghost obj = object_view(fields@);
    if fields.len() != 3 {
        return Err(DecodeError::Schema);
    }
    let height_name = "height".to_owned();
    let prev_name = "prev_commitment".to_owned();
    let current_name = "current_commitment".to_owned();
    proof {
        reveal_strlit("height");
        reveal_strlit("prev_commitment");
        reveal_strlit("current_commitment");
        assert(height_name@ =~= height_key());
        assert(prev_name@ =~= prev_key());
        assert(current_name@ =~= current_key());
    }
    let hi = find_member(fields, &height_name);
    let pi = find_member(fields, &prev_name);
    let ci = find_member(fields, &current_name);
    match (hi, pi, ci) {
        (Some(hi), Some(pi), Some(ci)) => {
            match (&fields[hi].1, &fields[pi].1, &fields[ci].1) {
                (JsonField::Unsigned(h), JsonField::Text(p), JsonField::Text(c)) => {
                    Ok(EpochJson { height: *h, prev_commitment: p.clone(), current_commitment: c.clone() })
                },
                _ => Err(DecodeError::Schema),
            }
        },
        _ => Err(DecodeError::Schema),
    }
}

/// Decodes a raw payload into an epoch record: UTF-8 text holding a JSON
/// object with exactly the members `height`, `prev_commitment` and
/// `current_commitment`.
pub fn decode(payload: &[u8]) -> (r: Result<EpochJson, DecodeError>)
    ensures
        record_result_view(r) == decoded(payload@),
{
    match utf8_text(payload) {
        None => Err(DecodeError::Encoding),
        Some(text) => match parse_object(text.as_str()) {
            None => Err(DecodeError::Schema),
            Some(fields) => record_from_members(&fields),
        },
    }
}

} // verus!
