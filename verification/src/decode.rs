//! Decoding of a response body into a list of records or, failing that, a
//! single scalar value.

use vstd::prelude::*;
use vstd::string::*;
use crate::json::{parse_json, parsed_value, Json};
use crate::text::{back_cut, front_cut, strip_quotes, unquoted, unquoted_is_inner_part};

verus! {

/// One name/value pair of a record.
#[derive(Debug, PartialEq, Eq)]
pub struct Property {
    pub name: String,
    pub value: String,
}

/// A record: its properties in the order in which they arrived. Names may
/// repeat.
#[derive(Debug, PartialEq, Eq)]
pub struct Record {
    pub properties: Vec<Property>,
}

/// The model of a record: its pairs of name and value.
pub type RecordModel = Seq<(Seq<char>, Seq<char>)>;

impl View for Property {
    type V = (Seq<char>, Seq<char>);

    open spec fn view(&self) -> (Seq<char>, Seq<char>) {
        (self.name@, self.value@)
    }
}

impl View for Record {
    type V = RecordModel;

    open spec fn view(&self) -> RecordModel {
        self.properties@.map_values(|p: Property| p@)
    }
}

/// The two shapes a response can take.
#[derive(Debug, PartialEq, Eq)]
pub enum Decoded {
    /// The body matched the schema.
    Records(Vec<Record>),
    /// The body did not: what is left of it after stripping quotes.
    Scalar(String),
}

/// The model of a decoded response.
pub enum DecodedModel {
    Records(Seq<RecordModel>),
    Scalar(Seq<char>),
}

impl View for Decoded {
    type V = DecodedModel;

    open spec fn view(&self) -> DecodedModel {
        match self {
            Decoded::Records(rs) => DecodedModel::Records(rs@.map_values(|r: Record| r@)),
            Decoded::Scalar(s) => DecodedModel::Scalar(s@),
        }
    }
}

/// The name of the list of records in a response.
pub open spec fn list_key() -> Seq<char> {
    "embryo_list"@
}

/// The name of the list of properties in a record.
pub open spec fn properties_key() -> Seq<char> {
    "properties"@
}

/// The name under which a property holds its name.
pub open spec fn name_key() -> Seq<char> {
    "name"@
}

/// The name under which a property holds its value.
pub open spec fn value_key() -> Seq<char> {
    "value"@
}

/// The member of an object under `key`: the last one, where several have it.
pub open spec fn member(members: Seq<(String, Json)>, key: Seq<char>) -> Option<Json>
    decreases members.len(),
{
    if members.len() == 0 {
        None
    } else if members.last().0@ == key {
        Some(members.last().1)
    } else {
        member(members.drop_last(), key)
    }
}

/// The string member of the object `j` under `key`.
pub open spec fn text_member(j: Json, key: Seq<char>) -> Option<Seq<char>> {
    match j {
        Json::Object(members) => match member(members@, key) {
            Some(Json::Text(s)) => Some(s@),
            _ => None,
        },
        _ => None,
    }
}

/// The array member of the object `j` under `key`.
pub open spec fn array_member(j: Json, key: Seq<char>) -> Option<Seq<Json>> {
    match j {
        Json::Object(members) => match member(members@, key) {
            Some(Json::Array(items)) => Some(items@),
            _ => None,
        },
        _ => None,
    }
}

/// A property is an object with a string under each of the two keys.
pub open spec fn property_of(j: Json) -> Option<(Seq<char>, Seq<char>)> {
    match (text_member(j, name_key()), text_member(j, value_key())) {
        (Some(n), Some(v)) => Some((n, v)),
        _ => None,
    }
}

/// A record is an object with an array of properties.
pub open spec fn record_of(j: Json) -> Option<RecordModel> {
    match array_member(j, properties_key()) {
        Some(items) => if forall|i: int| 0 <= i < items.len() ==> (#[trigger] property_of(
            items[i],
        )) is Some {
            Some(items.map_values(|p: Json| property_of(p)->0))
        } else {
            None
        },
        None => None,
    }
}

/// A response matches the schema when it is an object with an array of
/// records; it then holds one record for each element of that array.
pub open spec fn records_of(j: Json) -> Option<Seq<RecordModel>> {
    match array_member(j, list_key()) {
        Some(items) => if forall|i: int| 0 <= i < items.len() ==> (#[trigger] record_of(
            items[i],
        )) is Some {
            Some(items.map_values(|r: Json| record_of(r)->0))
        } else {
            None
        },
        None => None,
    }
}

/// What a body decodes to, given what the parser made of it.
pub open spec fn decoded(parsed: Option<Json>, raw: Seq<char>) -> DecodedModel {
    match parsed {
        Some(j) => match records_of(j) {
            Some(rs) => DecodedModel::Records(rs),
            None => DecodedModel::Scalar(unquoted(raw)),
        },
        None => DecodedModel::Scalar(unquoted(raw)),
    }
}

/// The member of an object under `key`, if it has one.
fn find_member<'a>(members: &'a Vec<(String, Json)>, key: &str) -> (r: Option<&'a Json>)
    ensures
        match r {
            Some(j) => member(members@, key@) == Some(*j),
            None => member(members@, key@) is None,
        },
{
    let wanted = String::from_str(key);
    let mut i: usize = members.len();
    assert(members@.take(i as int) =~= members@);
    while i > 0
        invariant
            i <= members.len(),
            wanted@ == key@,
            member(members@, key@) == member(members@.take(i as int), key@),
        decreases i,
    {
        assert(members@.take(i as int).drop_last() =~= members@.take(i - 1));
        if members[i - 1].0 == wanted {
            return Some(&members[i - 1].1);
        }
        i = i - 1;
    }
    None
}

/// The string that the object `j` holds under `key`, if any.
fn find_text(j: &Json, key: &str) -> (r: Option<String>)
    ensures
        match r {
            Some(s) => text_member(*j, key@) == Some(s@),
            None => text_member(*j, key@) is None,
        },
{
    match j {
        Json::Object(members) => match find_member(members, key) {
            Some(Json::Text(s)) => Some(s.clone()),
            _ => None,
        },
        _ => None,
    }
}

/// The array that the object `j` holds under `key`, if any.
fn find_array<'a>(j: &'a Json, key: &str) -> (r: Option<&'a Vec<Json>>)
    ensures
        match r {
            Some(items) => array_member(*j, key@) == Some(items@),
            None => array_member(*j, key@) is None,
        },
{
    match j {
        Json::Object(members) => match find_member(members, key) {
            Some(Json::Array(items)) => Some(items),
            _ => None,
        },
        _ => None,
    }
}

/// Reads one property out of a JSON value.
pub fn property_from_json(j: &Json) -> (r: Option<Property>)
    ensures
        match r {
            Some(p) => property_of(*j) == Some(p@),
            None => property_of(*j) is None,
        },
{
    match find_text(j, "name") {
        Some(name) => match find_text(j, "value") {
            Some(value) => Some(Property { name, value }),
            None => None,
        },
        None => None,
    }
}

/// Reads one record out of a JSON value.
pub fn record_from_json(j: &Json) -> (r: Option<Record>)
    ensures
        match r {
            Some(rec) => record_of(*j) == Some(rec@),
            None => record_of(*j) is None,
        },
{
    match find_array(j, "properties") {
        Some(items) => {
            let mut properties: Vec<Property> = Vec::new();
            let mut i: usize = 0;
            while i < items.len()
                invariant
                    i <= items.len(),
                    properties.len() == i,
                    array_member(*j, properties_key()) == Some(items@),
                    forall|k: int| 0 <= k < i ==> property_of(items@[k]) == Some(
                        #[trigger] properties@[k]@,
                    ),
                decreases items.len() - i,
            {
                match property_from_json(&items[i]) {
                    Some(p) => {
                        properties.push(p);
                    },
                    None => {
                        return None;
                    },
                }
                i = i + 1;
            }
            let rec = Record { properties };
            assert forall|k: int| 0 <= k < items@.len() implies (#[trigger] property_of(
                items@[k],
            )) is Some by {
                assert(property_of(items@[k]) == Some(rec.properties@[k]@));
            }
            assert(rec@ =~= items@.map_values(|p: Json| property_of(p)->0));
            Some(rec)
        },
        None => None,
    }
}

/// Reads the list of records out of a parsed response, where it matches the
/// schema. The list holds one record for each element of the response's
/// array, in the same order.
pub fn records_from_json(j: &Json) -> (r: Option<Vec<Record>>)
    ensures
        match r {
            Some(rs) => records_of(*j) == Some(rs@.map_values(|r: Record| r@)),
            None => records_of(*j) is None,
        },
        r matches Some(rs) ==> array_member(*j, list_key()) matches Some(items) && rs.len()
            == items.len(),
{
    match find_array(j, "embryo_list") {
        Some(items) => {
            let mut records: Vec<Record> = Vec::new();
            let mut i: usize = 0;
            while i < items.len()
                invariant
                    i <= items.len(),
                    records.len() == i,
                    array_member(*j, list_key()) == Some(items@),
                    forall|k: int| 0 <= k < i ==> record_of(items@[k]) == Some(
                        #[trigger] records@[k]@,
                    ),
                decreases items.len() - i,
            {
                match record_from_json(&items[i]) {
                    Some(rec) => {
                        records.push(rec);
                    },
                    None => {
                        return None;
                    },
                }
                i = i + 1;
            }
            assert forall|k: int| 0 <= k < items@.len() implies (#[trigger] record_of(
                items@[k],
            )) is Some by {
                assert(record_of(items@[k]) == Some(records@[k]@));
            }
            assert(records@.map_values(|r: Record| r@) =~= items@.map_values(
                |r: Json| record_of(r)->0,
            ));
            Some(records)
        },
        None => None,
    }
}

/// Decodes a body of which the parser's outcome is known: the records where
/// it parsed and matches the schema, else the body stripped of its quotes.
pub fn decode_parsed(parsed: Option<Json>, raw: &str) -> (r: Decoded)
    ensures
        r@ == decoded(parsed, raw@),
{
    match parsed {
        Some(j) => match records_from_json(&j) {
            Some(rs) => Decoded::Records(rs),
            None => Decoded::Scalar(strip_quotes(raw)),
        },
        None => Decoded::Scalar(strip_quotes(raw)),
    }
}

/// Decodes a response body. This never fails: a body that is no JSON, or no
/// JSON of the expected shape, comes back as a scalar.
pub fn decode(raw: &str) -> (r: Decoded)
    ensures
        r@ == decoded(parsed_value(raw@), raw@),
{
    decode_parsed(parse_json(raw), raw)
}

/// A response that matches the schema decodes to a list of records with
/// one record for each element of the response's list.
pub proof fn record_count_is_list_length(j: Json, raw: Seq<char>)
    requires
        records_of(j) is Some,
    ensures
        array_member(j, list_key()) is Some,
        decoded(Some(j), raw) == DecodedModel::Records(records_of(j)->0),
        records_of(j)->0.len() == array_member(j, list_key())->0.len(),
{
}

/// A body that is no JSON, or JSON of another shape, decodes to a scalar:
/// the body less at most one double quote at its front and at most one at
/// its back.
pub proof fn fallback_is_the_unquoted_body(parsed: Option<Json>, raw: Seq<char>)
    requires
        parsed is None || records_of(parsed->0) is None,
    ensures
        decoded(parsed, raw) == DecodedModel::Scalar(unquoted(raw)),
        0 <= front_cut(raw) <= 1,
        0 <= back_cut(raw) <= 1,
        unquoted(raw) == raw.subrange(front_cut(raw), raw.len() - back_cut(raw)),
{
    unquoted_is_inner_part(raw);
}

} // verus!
