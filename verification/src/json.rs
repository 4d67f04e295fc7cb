//! JSON values as the library reads them.

use serde_json::Value;
use vstd::prelude::*;

use crate::text::{decimal, decimal_of, same};

verus! {

/// A JSON value.
#[derive(Debug, PartialEq, Eq)]
pub enum Json {
    Null,
    Bool(bool),
    /// A number: its value where it is an integer of sixty-four bits, and how it is written.
    Number { unsigned: Option<u64>, signed: Option<i64>, text: String },
    Text(String),
    List(Vec<Json>),
    Object(Vec<(String, Json)>),
}

/// What a JSON value says.
#[verifier::ext_equal]
pub enum JsonView {
    Null,
    Bool(bool),
    Number { unsigned: Option<u64>, signed: Option<i64>, text: Seq<char> },
    Text(Seq<char>),
    List(Seq<JsonView>),
    Object(Seq<(Seq<char>, JsonView)>),
}

/// What `value` says.
pub open spec fn json_view(value: Json) -> JsonView
    decreases value,
{
    match value {
        Json::Null => JsonView::Null,
        Json::Bool(b) => JsonView::Bool(b),
        Json::Number { unsigned, signed, text } => JsonView::Number {
            unsigned,
            signed,
            text: text@,
        },
        Json::Text(s) => JsonView::Text(s@),
        Json::List(items) => JsonView::List(
            Seq::new(
                items@.len(),
                |i: int|
                    if 0 <= i < items@.len() {
                        json_view(items@[i])
                    } else {
                        JsonView::Null
                    },
            ),
        ),
        Json::Object(fields) => JsonView::Object(
            Seq::new(
                fields@.len(),
                |i: int|
                    if 0 <= i < fields@.len() {
                        (fields@[i].0@, json_view(fields@[i].1))
                    } else {
                        (Seq::empty(), JsonView::Null)
                    },
            ),
        ),
    }
}

impl DeepView for Json {
    type V = JsonView;

    open spec fn deep_view(&self) -> JsonView {
        json_view(*self)
    }
}

/// The place of the first field named `key`, at or behind `from`.
pub open spec fn field_place(
    fields: Seq<(Seq<char>, JsonView)>,
    key: Seq<char>,
    from: int,
) -> Option<int>
    decreases fields.len() - from,
{
    if from < 0 || from >= fields.len() {
        None
    } else if fields[from].0 == key {
        Some(from)
    } else {
        field_place(fields, key, from + 1)
    }
}

impl JsonView {
    /// The value of the field `key`, where this is an object that has one.
    pub open spec fn field(self, key: Seq<char>) -> Option<JsonView> {
        match self {
            JsonView::Object(fields) => match field_place(fields, key, 0) {
                Some(i) => Some(fields[i].1),
                None => None,
            },
            _ => None,
        }
    }

    /// The text, where this is one.
    pub open spec fn text(self) -> Option<Seq<char>> {
        match self {
            JsonView::Text(s) => Some(s),
            _ => None,
        }
    }

    /// The items, where this is a list.
    pub open spec fn items(self) -> Option<Seq<JsonView>> {
        match self {
            JsonView::List(items) => Some(items),
            _ => None,
        }
    }

    /// The number, where this is one that is an integer from 0 up to 2^64 - 1.
    pub open spec fn unsigned(self) -> Option<u64> {
        match self {
            JsonView::Number { unsigned, .. } => unsigned,
            _ => None,
        }
    }

    /// The number, where this is one that is an integer from -2^63 up to 2^63 - 1.
    pub open spec fn signed(self) -> Option<i64> {
        match self {
            JsonView::Number { signed, .. } => signed,
            _ => None,
        }
    }

    /// The text of the field `key`.
    pub open spec fn text_at(self, key: Seq<char>) -> Option<Seq<char>> {
        match self.field(key) {
            Some(v) => v.text(),
            None => None,
        }
    }

    /// The items of the field `key`.
    pub open spec fn items_at(self, key: Seq<char>) -> Option<Seq<JsonView>> {
        match self.field(key) {
            Some(v) => v.items(),
            None => None,
        }
    }

    /// The unsigned number in the field `key`.
    pub open spec fn unsigned_at(self, key: Seq<char>) -> Option<u64> {
        match self.field(key) {
            Some(v) => v.unsigned(),
            None => None,
        }
    }

    /// The field `inner` of the field `outer`.
    pub open spec fn field2(self, outer: Seq<char>, inner: Seq<char>) -> Option<JsonView> {
        match self.field(outer) {
            Some(v) => v.field(inner),
            None => None,
        }
    }
}

/// What an optional reference to a value says.
pub open spec fn ref_view(r: Option<&Json>) -> Option<JsonView> {
    match r {
        Some(v) => Some(json_view(*v)),
        None => None,
    }
}

/// What an optional reference to a text holds.
pub open spec fn str_view(r: Option<&str>) -> Option<Seq<char>> {
    match r {
        Some(v) => Some(v@),
        None => None,
    }
}

/// What `json_view` makes of a list of values.
pub open spec fn list_view(items: Seq<Json>) -> Seq<JsonView> {
    items.map_values(|v: Json| json_view(v))
}

/// What an optional reference to a list holds.
pub open spec fn items_view(r: Option<&Vec<Json>>) -> Option<Seq<JsonView>> {
    match r {
        Some(v) => Some(list_view(v@)),
        None => None,
    }
}

impl Json {
    /// The value of the field `key`, where this is an object that has one.
    pub fn get(&self, key: &str) -> (r: Option<&Json>)
        ensures
            ref_view(r) == self.deep_view().field(key@),
    {
        match self {
            Json::Object(fields) => {
                let ghost seen = self.deep_view()->Object_0;
                assert(seen.len() == fields@.len());
                let mut i: usize = 0;
                while i < fields.len()
                    invariant
                        i <= fields.len(),
                        self.deep_view() == JsonView::Object(seen),
                        seen.len() == fields@.len(),
                        forall|j: int|
                            0 <= j < fields@.len() ==> #[trigger] seen[j] == (
                                fields@[j].0@,
                                json_view(fields@[j].1),
                            ),
                        field_place(seen, key@, 0) == field_place(seen, key@, i as int),
                    decreases fields.len() - i,
                {
                    if same(fields[i].0.as_str(), key) {
                        return Some(&fields[i].1);
                    }
                    i = i + 1;
                }
                None
            },
            _ => None,
        }
    }

    /// The text, where this is one.
    pub fn as_str(&self) -> (r: Option<&str>)
        ensures
            str_view(r) == self.deep_view().text(),
    {
        match self {
            Json::Text(s) => Some(s.as_str()),
            _ => None,
        }
    }

    /// The items, where this is a list.
    pub fn as_array(&self) -> (r: Option<&Vec<Json>>)
        ensures
            items_view(r) == self.deep_view().items(),
    {
        match self {
            Json::List(items) => {
                assert(self.deep_view()->List_0 =~= list_view(items@));
                Some(items)
            },
            _ => None,
        }
    }

    /// The number, where this is one that is an integer from 0 up to 2^64 - 1.
    pub fn as_u64(&self) -> (r: Option<u64>)
        ensures
            r == self.deep_view().unsigned(),
    {
        match self {
            Json::Number { unsigned, .. } => *unsigned,
            _ => None,
        }
    }

    /// The number, where this is one that is an integer from -2^63 up to 2^63 - 1.
    pub fn as_i64(&self) -> (r: Option<i64>)
        ensures
            r == self.deep_view().signed(),
    {
        match self {
            Json::Number { signed, .. } => *signed,
            _ => None,
        }
    }

    /// The text of the field `key`.
    pub fn text_at(&self, key: &str) -> (r: Option<&str>)
        ensures
            str_view(r) == self.deep_view().text_at(key@),
    {
        match self.get(key) {
            Some(v) => v.as_str(),
            None => None,
        }
    }

    /// The items of the field `key`.
    pub fn items_at(&self, key: &str) -> (r: Option<&Vec<Json>>)
        ensures
            items_view(r) == self.deep_view().items_at(key@),
    {
        match self.get(key) {
            Some(v) => v.as_array(),
            None => None,
        }
    }

    /// The unsigned number in the field `key`.
    pub fn unsigned_at(&self, key: &str) -> (r: Option<u64>)
        ensures
            r == self.deep_view().unsigned_at(key@),
    {
        match self.get(key) {
            Some(v) => v.as_u64(),
            None => None,
        }
    }

    /// The field `inner` of the field `outer`.
    pub fn get2(&self, outer: &str, inner: &str) -> (r: Option<&Json>)
        ensures
            ref_view(r) == self.deep_view().field2(outer@, inner@),
    {
        match self.get(outer) {
            Some(v) => v.get(inner),
            None => None,
        }
    }
}

impl JsonView {
    /// An object without fields.
    pub open spec fn nothing() -> JsonView {
        JsonView::Object(Seq::empty())
    }

    /// The object with one more field.
    pub open spec fn with(self, key: Seq<char>, value: JsonView) -> JsonView {
        match self {
            JsonView::Object(fields) => JsonView::Object(fields.push((key, value))),
            _ => JsonView::Object(seq![(key, value)]),
        }
    }

    /// A list of one item.
    pub open spec fn only(item: JsonView) -> JsonView {
        JsonView::List(seq![item])
    }

    /// A number.
    pub open spec fn number(n: u64) -> JsonView {
        JsonView::Number {
            unsigned: Some(n),
            signed: if n <= i64::MAX {
                Some(n as i64)
            } else {
                None
            },
            text: decimal(n as nat),
        }
    }

    /// A list of texts.
    pub open spec fn texts(items: Seq<Seq<char>>) -> JsonView {
        JsonView::List(items.map_values(|s: Seq<char>| JsonView::Text(s)))
    }
}

impl Json {
    /// An object without fields.
    pub fn nothing() -> (r: Json)
        ensures
            r.deep_view() == JsonView::nothing(),
    {
        let r = Json::Object(Vec::new());
        assert(r.deep_view()->Object_0 =~= Seq::empty());
        r
    }

    /// The object with one more field.
    pub fn with(self, key: &str, value: Json) -> (r: Json)
        ensures
            r.deep_view() == self.deep_view().with(key@, value.deep_view()),
    {
        match self {
            Json::Object(fields) => {
                let ghost before = self.deep_view()->Object_0;
                let mut fields = fields;
                fields.push((key.to_owned(), value));
                let r = Json::Object(fields);
                assert(r.deep_view()->Object_0 =~= before.push((key@, value.deep_view())));
                r
            },
            _ => {
                let mut fields: Vec<(String, Json)> = Vec::new();
                fields.push((key.to_owned(), value));
                let r = Json::Object(fields);
                assert(r.deep_view()->Object_0 =~= seq![(key@, value.deep_view())]);
                r
            },
        }
    }

    /// A list of one item.
    pub fn only(item: Json) -> (r: Json)
        ensures
            r.deep_view() == JsonView::only(item.deep_view()),
    {
        let mut items: Vec<Json> = Vec::new();
        items.push(item);
        let r = Json::List(items);
        assert(r.deep_view()->List_0 =~= seq![item.deep_view()]);
        r
    }

    /// A text.
    pub fn text(s: &str) -> (r: Json)
        ensures
            r.deep_view() == JsonView::Text(s@),
    {
        Json::Text(s.to_owned())
    }

    /// A number.
    pub fn number(n: u64) -> (r: Json)
        ensures
            r.deep_view() == JsonView::number(n),
    {
        Json::Number {
            unsigned: Some(n),
            signed: if n <= 0x7FFF_FFFF_FFFF_FFFF {
                Some(n as i64)
            } else {
                None
            },
            text: decimal_of(n),
        }
    }

    /// A list of texts.
    pub fn texts(items: &Vec<String>) -> (r: Json)
        ensures
            r.deep_view() == JsonView::texts(items.deep_view()),
    {
        let mut list: Vec<Json> = Vec::new();
        let mut i: usize = 0;
        while i < items.len()
            invariant
                i <= items.len(),
                list@.len() == i,
                forall|j: int|
                    0 <= j < i ==> (#[trigger] list@[j]).deep_view() == JsonView::Text(
                        items@[j]@,
                    ),
            decreases items.len() - i,
        {
            list.push(Json::Text(items[i].clone()));
            i = i + 1;
        }
        let r = Json::List(list);
        assert(r.deep_view()->List_0 =~= items.deep_view().map_values(
            |s: Seq<char>| JsonView::Text(s),
        ));
        r
    }
}

/// The texts in a list, where every item is one.
pub open spec fn text_list(value: JsonView) -> Option<Seq<Seq<char>>> {
    match value {
        JsonView::List(items) if forall|i: int|
            0 <= i < items.len() ==> (#[trigger] items[i]).text() is Some => Some(
            Seq::new(items.len(), |i: int| items[i].text()->0),
        ),
        _ => None,
    }
}

/// The unsigned numbers in a list, where every item is one.
pub open spec fn number_list(value: JsonView) -> Option<Seq<u64>> {
    match value {
        JsonView::List(items) if forall|i: int|
            0 <= i < items.len() ==> (#[trigger] items[i]).unsigned() is Some => Some(
            Seq::new(items.len(), |i: int| items[i].unsigned()->0),
        ),
        _ => None,
    }
}

/// A list of texts is read back.
pub proof fn texts_are_read_back(items: Seq<Seq<char>>)
    ensures
        text_list(JsonView::texts(items)) == Some(items),
{
    assert(text_list(JsonView::texts(items))->0 =~= items);
}

/// Reads a list of texts.
pub fn read_text_list(value: &Json) -> (r: Option<Vec<String>>)
    ensures
        r.deep_view() == text_list(value.deep_view()),
{
    match value.as_array() {
        Some(items) => {
            let ghost all = list_view(items@);
            assert(value.deep_view() == JsonView::List(all));
            let mut texts: Vec<String> = Vec::new();
            let mut i: usize = 0;
            while i < items.len()
                invariant
                    i <= items.len(),
                    all == list_view(items@),
                    value.deep_view() == JsonView::List(all),
                    texts.deep_view() == Seq::new(i as nat, |j: int| all[j].text()->0),
                    forall|j: int| 0 <= j < i ==> (#[trigger] all[j]).text() is Some,
                decreases items.len() - i,
            {
                assert(all[i as int] == items@[i as int].deep_view());
                match items[i].as_str() {
                    Some(s) => {
                        let text: String = s.to_owned();
                        let ghost before = texts.deep_view();
                        texts.push(text);
                        assert(texts.deep_view() =~= before.push(text@));
                    },
                    None => {
                        return None;
                    },
                }
                i = i + 1;
                assert(texts.deep_view() =~= Seq::new(i as nat, |j: int| all[j].text()->0));
            }
            Some(texts)
        },
        None => None,
    }
}

/// Reads a list of unsigned numbers.
pub fn read_number_list(value: &Json) -> (r: Option<Vec<u64>>)
    ensures
        (match r {
            Some(v) => Some(v@),
            None => None,
        }) == number_list(value.deep_view()),
{
    match value.as_array() {
        Some(items) => {
            let ghost all = list_view(items@);
            assert(value.deep_view() == JsonView::List(all));
            let mut numbers: Vec<u64> = Vec::new();
            let mut i: usize = 0;
            while i < items.len()
                invariant
                    i <= items.len(),
                    all == list_view(items@),
                    value.deep_view() == JsonView::List(all),
                    numbers@ == Seq::new(i as nat, |j: int| all[j].unsigned()->0),
                    forall|j: int| 0 <= j < i ==> (#[trigger] all[j]).unsigned() is Some,
                decreases items.len() - i,
            {
                assert(all[i as int] == items@[i as int].deep_view());
                match items[i].as_u64() {
                    Some(n) => {
                        numbers.push(n);
                    },
                    None => {
                        return None;
                    },
                }
                i = i + 1;
                assert(numbers@ =~= Seq::new(i as nat, |j: int| all[j].unsigned()->0));
            }
            Some(numbers)
        },
        None => None,
    }
}

/// What `serde_json::from_slice` makes of the bytes: a value, or the message of its error.
pub uninterp spec fn json_reading(bytes: Seq<u8>) -> Result<JsonView, Seq<char>>;

/// The value that the bytes write, if they are JSON.
pub open spec fn json_of(bytes: Seq<u8>) -> Option<JsonView> {
    json_reading(bytes).ok()
}

/// The value that a text writes in UTF-8, if it is JSON.
pub open spec fn json_of_text(s: Seq<char>) -> Option<JsonView> {
    json_of(vstd::utf8::encode_utf8(s))
}

/// A JSON value as `serde_json` reads it.
#[verifier::external_type_specification]
#[verifier::external_body]
pub struct ExValue(Value);

/// What a `serde_json::Value` holds: nothing, a boolean, a number with its integer values and its
/// text, a text, a list, or an object with its fields in their order.
pub uninterp spec fn held(value: Value) -> JsonView;

/// `serde_json::from_slice`: the value that it reads holds what the bytes write; its error is given
/// as text.
#[verifier::external_body]
fn read_value(bytes: &[u8]) -> (r: Result<Value, String>)
    ensures
        (match r {
            Ok(v) => Ok(held(v)),
            Err(e) => Err(e@),
        }) == json_reading(bytes@),
{
    serde_json::from_slice(bytes).map_err(|e| e.to_string())
}

/// `serde_json::Value`, taken over variant by variant, with `serde_json::Number::as_u64`, `as_i64`
/// and `to_string` for a number, and with the values inside a list or an object in turn: what it
/// gives says what the value holds.
#[verifier::external_body]
fn take_over(value: Value) -> (r: Json)
    ensures
        r.deep_view() == held(value),
{
    match value {
        Value::Null => Json::Null,
        Value::Bool(b) => Json::Bool(b),
        Value::Number(n) => Json::Number { unsigned: n.as_u64(), signed: n.as_i64(),
            text: n.to_string() },
        Value::String(s) => Json::Text(s),
        Value::Array(a) => Json::List(a.into_iter().map(take_over).collect()),
        Value::Object(o) => Json::Object(o.into_iter().map(|(k, v)| (k, take_over(v))).collect()),
    }
}

/// The value that the bytes write, or why they are not JSON.
pub(crate) fn read_json(bytes: &[u8]) -> (r: Result<Json, String>)
    ensures
        (match r {
            Ok(v) => Ok(v.deep_view()),
            Err(e) => Err(e@),
        }) == json_reading(bytes@),
{
    match read_value(bytes) {
        Ok(value) => Ok(take_over(value)),
        Err(e) => Err(e),
    }
}

/// The value that the bytes write, if they are JSON.
pub(crate) fn parse_json(bytes: &[u8]) -> (r: Option<Json>)
    ensures
        r.deep_view() == json_of(bytes@),
{
    match read_json(bytes) {
        Ok(v) => Some(v),
        Err(_) => None,
    }
}

} // verus!
