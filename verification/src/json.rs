//! Structured documents: what a provider is configured with and what it
//! captures. A document is a null, a truth value, a number, a text, a list of
//! documents, or a record of named documents.
use crate::error::{invalid_data, CoreError, CoreErrorView, CoreResult, IoKind};
use crate::text::same_text;
use crate::views;
use vstd::prelude::*;

verus! {

/// A document.
#[derive(Debug, PartialEq, Eq)]
pub enum JsonValue {
    Null,
    Bool(bool),
    /// A whole number below zero.
    Int(i64),
    /// A whole number that is not below zero.
    UInt(u64),
    /// Any other number, as the bit pattern of its double-precision form.
    Real(u64),
    String(String),
    Array(Vec<JsonValue>),
    /// Named fields, in the order in which they are written.
    Object(Vec<(String, JsonValue)>),
}

/// A document as mathematics sees it.
pub enum Json {
    Null,
    Bool(bool),
    Int(i64),
    UInt(u64),
    Real(u64),
    String(Seq<char>),
    Array(Seq<Json>),
    Object(Seq<(Seq<char>, Json)>),
}

impl View for JsonValue {
    type V = Json;

    open spec fn view(&self) -> Json {
        json_of(*self)
    }
}

/// The document that a value holds.
pub open spec fn json_of(value: JsonValue) -> Json
    decreases value,
{
    match value {
        JsonValue::Null => Json::Null,
        JsonValue::Bool(b) => Json::Bool(b),
        JsonValue::Int(n) => Json::Int(n),
        JsonValue::UInt(n) => Json::UInt(n),
        JsonValue::Real(bits) => Json::Real(bits),
        JsonValue::String(s) => Json::String(s@),
        JsonValue::Array(items) => Json::Array(item_views(items@)),
        JsonValue::Object(fields) => Json::Object(field_views(fields@)),
    }
}

/// The views of the items of a list, in order.
pub open spec fn item_views(items: Seq<JsonValue>) -> Seq<Json>
    decreases items,
{
    if items.len() == 0 {
        Seq::empty()
    } else {
        item_views(items.drop_last()).push(json_of(items.last()))
    }
}

/// The views of the fields of a record, in order.
pub open spec fn field_views(fields: Seq<(String, JsonValue)>) -> Seq<(Seq<char>, Json)>
    decreases fields,
{
    if fields.len() == 0 {
        Seq::empty()
    } else {
        field_views(fields.drop_last()).push((fields.last().0@, json_of(fields.last().1)))
    }
}

/// The views of a list's items are the items' views, one for one.
pub proof fn lemma_item_views(items: Seq<JsonValue>)
    ensures
        item_views(items) == views(items),
    decreases items.len(),
{
    if items.len() > 0 {
        lemma_item_views(items.drop_last());
    }
    assert(item_views(items) =~= views(items));
}

/// The views of a record's fields are the fields' names and views, one for
/// one.
pub proof fn lemma_field_views(fields: Seq<(String, JsonValue)>)
    ensures
        field_views(fields).len() == fields.len(),
        forall|i: int|
            0 <= i < fields.len() ==> #[trigger] field_views(fields)[i] == (
                fields[i].0@,
                fields[i].1@,
            ),
    decreases fields.len(),
{
    if fields.len() > 0 {
        lemma_field_views(fields.drop_last());
    }
}

/// The first field called `key` among `fields`, if there is one.
pub open spec fn field_of(fields: Seq<(Seq<char>, Json)>, key: Seq<char>) -> Option<Json>
    decreases fields.len(),
{
    if fields.len() == 0 {
        None
    } else if fields[0].0 == key {
        Some(fields[0].1)
    } else {
        field_of(fields.drop_first(), key)
    }
}

/// The error for a configuration that lacks the field `key`.
pub open spec fn missing_field(key: Seq<char>) -> CoreErrorView {
    invalid_data("missing field `"@ + key + "`"@)
}

/// The error for a configuration whose field `key` holds a document of the
/// wrong kind.
pub open spec fn wrong_type(key: Seq<char>) -> CoreErrorView {
    invalid_data("invalid type for field `"@ + key + "`"@)
}

impl Json {
    /// The document for a whole number between the least `i64` and the
    /// greatest `u64`: `UInt` from zero up, `Int` below.
    pub open spec fn integer(n: int) -> Json {
        if n >= 0 {
            Json::UInt(n as u64)
        } else {
            Json::Int(n as i64)
        }
    }

    /// The text in the field `key`, which has to be there.
    pub open spec fn required_text(self, key: Seq<char>) -> Result<Seq<char>, CoreErrorView> {
        match self.field(key) {
            None => Err(missing_field(key)),
            Some(doc) => match doc.text() {
                Some(text) => Ok(text),
                None => Err(wrong_type(key)),
            },
        }
    }

    /// The text in the field `key`, or `default` where there is no such
    /// field.
    pub open spec fn optional_text(self, key: Seq<char>, default: Seq<char>) -> Result<
        Seq<char>,
        CoreErrorView,
    > {
        match self.field(key) {
            None => Ok(default),
            Some(doc) => match doc.text() {
                Some(text) => Ok(text),
                None => Err(wrong_type(key)),
            },
        }
    }

    /// The truth value in the field `key`, or `default` where there is no
    /// such field.
    pub open spec fn optional_bool(self, key: Seq<char>, default: bool) -> Result<
        bool,
        CoreErrorView,
    > {
        match self.field(key) {
            None => Ok(default),
            Some(doc) => match doc.truth() {
                Some(truth) => Ok(truth),
                None => Err(wrong_type(key)),
            },
        }
    }

    /// The field called `key` of a record; nothing for a document that is no
    /// record or has no such field.
    pub open spec fn field(self, key: Seq<char>) -> Option<Json> {
        match self {
            Json::Object(fields) => field_of(fields, key),
            _ => None,
        }
    }

    /// The text of a document that is a text.
    pub open spec fn text(self) -> Option<Seq<char>> {
        match self {
            Json::String(s) => Some(s),
            _ => None,
        }
    }

    /// The truth value of a document that is one.
    pub open spec fn truth(self) -> Option<bool> {
        match self {
            Json::Bool(b) => Some(b),
            _ => None,
        }
    }
}

/// Copies of the items of a list.
fn duplicate_items(items: &Vec<JsonValue>) -> (copies: Vec<JsonValue>)
    ensures
        item_views(copies@) == item_views(items@),
    decreases items,
{
    let mut copies: Vec<JsonValue> = Vec::new();
    let mut i: usize = 0;
    while i < items.len()
        invariant
            i <= items.len(),
            copies.len() == i,
            forall|j: int| 0 <= j < i ==> copies[j]@ == items[j]@,
        decreases items.len() - i,
    {
        proof {
            vstd::std_specs::vec::axiom_vec_index_decreases(*items, i as int);
        }
        copies.push(items[i].duplicate());
        i = i + 1;
    }
    proof {
        lemma_item_views(copies@);
        lemma_item_views(items@);
        assert(views(copies@) =~= views(items@));
    }
    copies
}

/// Copies of the fields of a record.
fn duplicate_fields(fields: &Vec<(String, JsonValue)>) -> (copies: Vec<(String, JsonValue)>)
    ensures
        field_views(copies@) == field_views(fields@),
    decreases fields,
{
    let mut copies: Vec<(String, JsonValue)> = Vec::new();
    let mut i: usize = 0;
    while i < fields.len()
        invariant
            i <= fields.len(),
            copies.len() == i,
            forall|j: int|
                0 <= j < i ==> copies[j].0@ == fields[j].0@ && copies[j].1@ == fields[j].1@,
        decreases fields.len() - i,
    {
        proof {
            vstd::std_specs::vec::axiom_vec_index_decreases(*fields, i as int);
        }
        copies.push((fields[i].0.clone(), fields[i].1.duplicate()));
        i = i + 1;
    }
    proof {
        lemma_field_views(copies@);
        lemma_field_views(fields@);
        assert(field_views(copies@) =~= field_views(fields@));
    }
    copies
}

impl Clone for JsonValue {
    fn clone(&self) -> (copy: JsonValue)
        ensures
            copy@ == self@,
    {
        self.duplicate()
    }
}

impl JsonValue {
    /// A copy of this document.
    pub fn duplicate(&self) -> (copy: JsonValue)
        ensures
            copy@ == self@,
        decreases self,
    {
        match self {
            JsonValue::Null => JsonValue::Null,
            JsonValue::Bool(b) => JsonValue::Bool(*b),
            JsonValue::Int(n) => JsonValue::Int(*n),
            JsonValue::UInt(n) => JsonValue::UInt(*n),
            JsonValue::Real(bits) => JsonValue::Real(*bits),
            JsonValue::String(s) => JsonValue::String(s.clone()),
            JsonValue::Array(items) => JsonValue::Array(duplicate_items(items)),
            JsonValue::Object(fields) => JsonValue::Object(duplicate_fields(fields)),
        }
    }

    /// The document for a whole number: `UInt` from zero up, `Int` below.
    pub fn integer(n: i64) -> (doc: JsonValue)
        ensures
            doc@ == Json::integer(n as int),
    {
        if n >= 0 {
            JsonValue::UInt(n as u64)
        } else {
            JsonValue::Int(n)
        }
    }

    /// A text document.
    pub fn string(text: &str) -> (doc: JsonValue)
        ensures
            doc@ == Json::String(text@),
    {
        JsonValue::String(String::from_str(text))
    }

    /// A record of the given fields.
    pub fn object(fields: Vec<(String, JsonValue)>) -> (doc: JsonValue)
        ensures
            doc@ == Json::Object(field_views(fields@)),
    {
        JsonValue::Object(fields)
    }

    /// A list of the given documents.
    pub fn array(items: Vec<JsonValue>) -> (doc: JsonValue)
        ensures
            doc@ == Json::Array(views(items@)),
    {
        proof {
            lemma_item_views(items@);
        }
        JsonValue::Array(items)
    }

    /// The field called `key`, where this document is a record that has one.
    pub fn get(&self, key: &str) -> (found: Option<&JsonValue>)
        ensures
            match found {
                Some(doc) => self@.field(key@) == Some(doc@),
                None => self@.field(key@) is None,
            },
    {
        match self {
            JsonValue::Object(fields) => {
                let ghost all = self@->Object_0;
                proof {
                    lemma_field_views(fields@);
                    assert(all.skip(0) =~= all);
                }
                let mut i: usize = 0;
                while i < fields.len()
                    invariant
                        i <= fields.len(),
                        self@ == Json::Object(all),
                        all.len() == fields@.len(),
                        forall|j: int|
                            0 <= j < all.len() ==> all[j] == (fields@[j].0@, fields@[j].1@),
                        field_of(all, key@) == field_of(all.skip(i as int), key@),
                    decreases fields.len() - i,
                {
                    proof {
                        assert(all.skip(i as int).drop_first() =~= all.skip(i + 1));
                    }
                    if same_text(fields[i].0.as_str(), key) {
                        return Some(&fields[i].1);
                    }
                    i = i + 1;
                }
                None
            },
            _ => None,
        }
    }

    /// The error for a field that holds a document of the wrong kind.
    fn wrong_type_error(key: &str) -> (e: CoreError)
        ensures
            e@ == wrong_type(key@),
    {
        let mut message = String::from_str("invalid type for field `");
        message.append(key);
        message.append("`");
        CoreError::Io { path: None, kind: IoKind::InvalidData, message }
    }

    /// The text in the field `key`, which has to be there.
    pub fn required_text(&self, key: &str) -> (r: CoreResult<String>)
        ensures
            match r {
                Ok(text) => self@.required_text(key@) == Ok::<Seq<char>, CoreErrorView>(text@),
                Err(e) => self@.required_text(key@) == Err::<Seq<char>, CoreErrorView>(e@),
            },
    {
        match self.get(key) {
            None => {
                let mut message = String::from_str("missing field `");
                message.append(key);
                message.append("`");
                Err(CoreError::Io { path: None, kind: IoKind::InvalidData, message })
            },
            Some(doc) => match doc.as_str() {
                Some(text) => Ok(String::from_str(text)),
                None => Err(Self::wrong_type_error(key)),
            },
        }
    }

    /// The text in the field `key`, or `default` where there is no such
    /// field.
    pub fn optional_text(&self, key: &str, default: &str) -> (r: CoreResult<String>)
        ensures
            match r {
                Ok(text) => self@.optional_text(key@, default@) == Ok::<Seq<char>, CoreErrorView>(
                    text@,
                ),
                Err(e) => self@.optional_text(key@, default@) == Err::<Seq<char>, CoreErrorView>(
                    e@,
                ),
            },
    {
        match self.get(key) {
            None => Ok(String::from_str(default)),
            Some(doc) => match doc.as_str() {
                Some(text) => Ok(String::from_str(text)),
                None => Err(Self::wrong_type_error(key)),
            },
        }
    }

    /// The truth value in the field `key`, or `default` where there is no
    /// such field.
    pub fn optional_bool(&self, key: &str, default: bool) -> (r: CoreResult<bool>)
        ensures
            match r {
                Ok(truth) => self@.optional_bool(key@, default) == Ok::<bool, CoreErrorView>(truth),
                Err(e) => self@.optional_bool(key@, default) == Err::<bool, CoreErrorView>(e@),
            },
    {
        match self.get(key) {
            None => Ok(default),
            Some(doc) => match doc.as_bool() {
                Some(truth) => Ok(truth),
                None => Err(Self::wrong_type_error(key)),
            },
        }
    }

    /// The text of this document, where it is a text.
    pub fn as_str(&self) -> (text: Option<&str>)
        ensures
            match text {
                Some(s) => self@.text() == Some(s@),
                None => self@.text() is None,
            },
    {
        match self {
            JsonValue::String(s) => Some(s.as_str()),
            _ => None,
        }
    }

    /// The truth value of this document, where it is one.
    pub fn as_bool(&self) -> (truth: Option<bool>)
        ensures
            truth == self@.truth(),
    {
        match self {
            JsonValue::Bool(b) => Some(*b),
            _ => None,
        }
    }
}

} // verus!
