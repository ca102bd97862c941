//! The JSON values that discovery payloads, manifests and configuration carry,
//! with the field accessors that the protocol reads them through.
//!
//! A value is built and read here; turning JSON text into a value and back is
//! the codec's job (serde_json, outside this library).
use vstd::prelude::*;
use crate::text::{str_eq, string_views};

verus! {

/// A JSON number, kept in the three forms that a JSON reader distinguishes:
/// a non-negative integer that fits in `u64`, a negative integer that fits in
/// `i64`, and any other number, kept as its decimal text.
pub enum JsonNumber {
    PosInt(u64),
    NegInt(i64),
    Float(String),
}

/// A JSON value. Object members keep their order; a key is looked up at its
/// first occurrence.
pub enum JsonValue {
    Null,
    Bool(bool),
    Number(JsonNumber),
    Str(String),
    Array(Vec<JsonValue>),
    Object(Vec<(String, JsonValue)>),
}

/// The mathematical model of a [`JsonNumber`].
pub enum NumberModel {
    PosInt(u64),
    NegInt(i64),
    Float(Seq<char>),
}

/// The mathematical model of a [`JsonValue`].
pub enum JsonModel {
    Null,
    Bool(bool),
    Number(NumberModel),
    Str(Seq<char>),
    Array(Seq<JsonModel>),
    Object(Seq<(Seq<char>, JsonModel)>),
}

pub open spec fn number_model(n: JsonNumber) -> NumberModel {
    match n {
        JsonNumber::PosInt(u) => NumberModel::PosInt(u),
        JsonNumber::NegInt(i) => NumberModel::NegInt(i),
        JsonNumber::Float(s) => NumberModel::Float(s@),
    }
}

pub open spec fn json_model(v: JsonValue) -> JsonModel
    decreases v,
{
    match v {
        JsonValue::Null => JsonModel::Null,
        JsonValue::Bool(b) => JsonModel::Bool(b),
        JsonValue::Number(n) => JsonModel::Number(number_model(n)),
        JsonValue::Str(s) => JsonModel::Str(s@),
        JsonValue::Array(items) => JsonModel::Array(items_model(items@)),
        JsonValue::Object(members) => JsonModel::Object(members_model(members@)),
    }
}

pub open spec fn items_model(items: Seq<JsonValue>) -> Seq<JsonModel>
    decreases items,
{
    if items.len() == 0 {
        Seq::empty()
    } else {
        items_model(items.drop_last()).push(json_model(items.last()))
    }
}

pub open spec fn members_model(members: Seq<(String, JsonValue)>) -> Seq<(Seq<char>, JsonModel)>
    decreases members,
{
    if members.len() == 0 {
        Seq::empty()
    } else {
        members_model(members.drop_last()).push(
            (members.last().0@, json_model(members.last().1)),
        )
    }
}

impl View for JsonValue {
    type V = JsonModel;

    open spec fn view(&self) -> JsonModel {
        json_model(*self)
    }
}


/// The value that `key` maps to in the object members `ms` (first occurrence).
pub open spec fn members_get(ms: Seq<(Seq<char>, JsonModel)>, key: Seq<char>) -> Option<JsonModel>
    decreases ms.len(),
{
    if ms.len() == 0 {
        None
    } else if ms[0].0 == key {
        Some(ms[0].1)
    } else {
        members_get(ms.drop_first(), key)
    }
}

/// `value.get(key)` for a string key: the member's value if `v` is an object
/// that has the key, `None` otherwise.
pub open spec fn get_field(v: JsonModel, key: Seq<char>) -> Option<JsonModel> {
    match v {
        JsonModel::Object(ms) => members_get(ms, key),
        _ => None,
    }
}

/// `value.as_str()`.
pub open spec fn model_as_str(v: JsonModel) -> Option<Seq<char>> {
    match v {
        JsonModel::Str(s) => Some(s),
        _ => None,
    }
}

/// `value.as_u64()`.
pub open spec fn model_as_u64(v: JsonModel) -> Option<u64> {
    match v {
        JsonModel::Number(NumberModel::PosInt(u)) => Some(u),
        _ => None,
    }
}

/// The strings among `items`, in order (`filter_map(as_str)`).
pub open spec fn str_items(items: Seq<JsonModel>) -> Seq<Seq<char>>
    decreases items.len(),
{
    if items.len() == 0 {
        Seq::empty()
    } else {
        match items.last() {
            JsonModel::Str(s) => str_items(items.drop_last()).push(s),
            _ => str_items(items.drop_last()),
        }
    }
}

/// The string at `key`, or `default` when the key is missing or not a string.
pub open spec fn str_field_or(v: JsonModel, key: Seq<char>, default: Seq<char>) -> Seq<char> {
    match get_field(v, key) {
        Some(JsonModel::Str(s)) => s,
        _ => default,
    }
}

/// The non-negative integer at `key`, or `default` when the key is missing or
/// holds anything else.
pub open spec fn u64_field_or(v: JsonModel, key: Seq<char>, default: u64) -> u64 {
    match get_field(v, key) {
        Some(JsonModel::Number(NumberModel::PosInt(u))) => u,
        _ => default,
    }
}

/// The strings of the array at `key`, or nothing when the key is missing or
/// not an array.
pub open spec fn str_list_field(v: JsonModel, key: Seq<char>) -> Seq<Seq<char>> {
    match get_field(v, key) {
        Some(JsonModel::Array(items)) => str_items(items),
        _ => Seq::empty(),
    }
}

/// The value at `key`, or `null`.
pub open spec fn field_or_null(v: JsonModel, key: Seq<char>) -> JsonModel {
    match get_field(v, key) {
        Some(x) => x,
        None => JsonModel::Null,
    }
}

/// A JSON array of the strings `s`.
pub open spec fn str_array(s: Seq<Seq<char>>) -> JsonModel {
    JsonModel::Array(Seq::new(s.len(), |i: int| JsonModel::Str(s[i])))
}

pub proof fn lemma_items_model(items: Seq<JsonValue>)
    ensures
        items_model(items).len() == items.len(),
        forall|i: int| 0 <= i < items.len() ==> #[trigger] items_model(items)[i] == json_model(items[i]),
    decreases items.len(),
{
    if items.len() > 0 {
        lemma_items_model(items.drop_last());
    }
}

pub proof fn lemma_members_model(ms: Seq<(String, JsonValue)>)
    ensures
        members_model(ms).len() == ms.len(),
        forall|i: int|
            0 <= i < ms.len() ==> #[trigger] members_model(ms)[i] == (ms[i].0@, json_model(ms[i].1)),
    decreases ms.len(),
{
    if ms.len() > 0 {
        lemma_members_model(ms.drop_last());
    }
}

proof fn lemma_members_get_skip(ms: Seq<(Seq<char>, JsonModel)>, key: Seq<char>, i: int)
    requires
        0 <= i < ms.len(),
        ms[i].0 != key,
    ensures
        members_get(ms.skip(i), key) == members_get(ms.skip(i + 1), key),
{
    assert(ms.skip(i).drop_first() =~= ms.skip(i + 1));
}

/// The strings of a sequence made only of strings are that sequence.
pub proof fn lemma_str_items_of_strings(s: Seq<Seq<char>>)
    ensures
        str_items(Seq::new(s.len(), |i: int| JsonModel::Str(s[i]))) == s,
    decreases s.len(),
{
    let m = Seq::new(s.len(), |i: int| JsonModel::Str(s[i]));
    if s.len() > 0 {
        lemma_str_items_of_strings(s.drop_last());
        assert(m.drop_last() =~= Seq::new(s.drop_last().len(), |i: int| JsonModel::Str(s.drop_last()[i])));
        assert(s.drop_last().push(s.last()) =~= s);
    }
}

proof fn lemma_str_items_push(items: Seq<JsonModel>, x: JsonModel)
    ensures
        str_items(items.push(x)) == match x {
            JsonModel::Str(s) => str_items(items).push(s),
            _ => str_items(items),
        },
{
    assert(items.push(x).drop_last() =~= items);
}

/// A key found at position `i`, and at no earlier position, is looked up there.
pub proof fn lemma_members_get_at(ms: Seq<(Seq<char>, JsonModel)>, key: Seq<char>, i: int)
    requires
        0 <= i < ms.len(),
        ms[i].0 == key,
        forall|j: int| 0 <= j < i ==> ms[j].0 != key,
    ensures
        members_get(ms, key) == Some(ms[i].1),
    decreases i,
{
    if i > 0 {
        lemma_members_get_at(ms.drop_first(), key, i - 1);
    }
}

/// A key found nowhere is not found.
pub proof fn lemma_members_get_absent(ms: Seq<(Seq<char>, JsonModel)>, key: Seq<char>)
    requires
        forall|j: int| 0 <= j < ms.len() ==> ms[j].0 != key,
    ensures
        members_get(ms, key) is None,
    decreases ms.len(),
{
    if ms.len() > 0 {
        lemma_members_get_absent(ms.drop_first(), key);
    }
}

impl JsonNumber {
    pub fn copy(&self) -> (r: JsonNumber)
        ensures
            number_model(r) == number_model(*self),
    {
        match self {
            JsonNumber::PosInt(u) => JsonNumber::PosInt(*u),
            JsonNumber::NegInt(i) => JsonNumber::NegInt(*i),
            JsonNumber::Float(s) => JsonNumber::Float(s.clone()),
        }
    }
}

impl JsonValue {
    /// A JSON string.
    pub fn string(s: &str) -> (r: JsonValue)
        ensures
            r@ == JsonModel::Str(s@),
    {
        JsonValue::Str(s.to_owned())
    }

    /// A JSON non-negative integer.
    pub fn uint(n: u64) -> (r: JsonValue)
        ensures
            r@ == JsonModel::Number(NumberModel::PosInt(n)),
    {
        JsonValue::Number(JsonNumber::PosInt(n))
    }

    /// A JSON array of the given strings.
    pub fn str_array(items: &[String]) -> (r: JsonValue)
        ensures
            r@ == str_array(string_views(items@)),
    {
        let mut v: Vec<JsonValue> = Vec::new();
        let mut i: usize = 0;
        while i < items.len()
            invariant
                i <= items@.len(),
                v@.len() == i,
                forall|j: int| 0 <= j < i ==> #[trigger] json_model(v@[j]) == JsonModel::Str(items@[j]@),
            decreases items@.len() - i,
        {
            v.push(JsonValue::Str(items[i].clone()));
            i = i + 1;
        }
        proof {
            lemma_items_model(v@);
            assert(items_model(v@) =~= Seq::new(
                string_views(items@).len(),
                |j: int| JsonModel::Str(string_views(items@)[j]),
            ));
        }
        JsonValue::Array(v)
    }

    /// A deep copy.
    pub fn copy(&self) -> (r: JsonValue)
        ensures
            r@ == self@,
        decreases self,
    {
        match self {
            JsonValue::Null => JsonValue::Null,
            JsonValue::Bool(b) => JsonValue::Bool(*b),
            JsonValue::Number(n) => JsonValue::Number(n.copy()),
            JsonValue::Str(s) => JsonValue::Str(s.clone()),
            JsonValue::Array(items) => {
                let mut v: Vec<JsonValue> = Vec::new();
                let mut i: usize = 0;
                while i < items.len()
                    invariant
                        i <= items@.len(),
                        v@.len() == i,
                        forall|j: int| 0 <= j < i ==> #[trigger] json_model(v@[j]) == json_model(items@[j]),
                        *self == JsonValue::Array(*items),
                    decreases items@.len() - i,
                {
                    assert(decreases_to!(*self => (*self)->Array_0));
                    assert(decreases_to!(*items => items@));
                    assert(decreases_to!(items@ => items@[i as int]));
                    let c = items[i].copy();
                    v.push(c);
                    i = i + 1;
                }
                proof {
                    lemma_items_model(v@);
                    lemma_items_model(items@);
                    assert(items_model(v@) =~= items_model(items@));
                }
                JsonValue::Array(v)
            },
            JsonValue::Object(members) => {
                let mut v: Vec<(String, JsonValue)> = Vec::new();
                let mut i: usize = 0;
                while i < members.len()
                    invariant
                        i <= members@.len(),
                        v@.len() == i,
                        forall|j: int|
                            #![trigger v@[j]]
                            0 <= j < i ==> v@[j].0@ == members@[j].0@ && json_model(v@[j].1)
                                == json_model(members@[j].1),
                        *self == JsonValue::Object(*members),
                    decreases members@.len() - i,
                {
                    assert(decreases_to!(*self => (*self)->Object_0));
                    assert(decreases_to!(*members => members@));
                    assert(decreases_to!(members@ => members@[i as int]));
                    assert(decreases_to!(members@[i as int] => members@[i as int].1));
                    let k = members[i].0.clone();
                    let c = members[i].1.copy();
                    v.push((k, c));
                    i = i + 1;
                }
                proof {
                    lemma_members_model(v@);
                    lemma_members_model(members@);
                    assert(members_model(v@) =~= members_model(members@));
                }
                JsonValue::Object(v)
            },
        }
    }

    /// `self.get(key)`: the value of member `key` when `self` is an object.
    pub fn get(&self, key: &str) -> (r: Option<&JsonValue>)
        ensures
            match r {
                Some(x) => get_field(self@, key@) == Some(x@),
                None => get_field(self@, key@) is None,
            },
    {
        match self {
            JsonValue::Object(members) => {
                let ghost ms = members_model(members@);
                proof {
                    lemma_members_model(members@);
                    assert(ms.skip(0) =~= ms);
                }
                let mut i: usize = 0;
                while i < members.len()
                    invariant
                        i <= members@.len(),
                        ms == members_model(members@),
                        ms.len() == members@.len(),
                        forall|j: int| 0 <= j < ms.len() ==> #[trigger] ms[j] == (members@[j].0@, json_model(members@[j].1)),
                        members_get(ms, key@) == members_get(ms.skip(i as int), key@),
                        *self == JsonValue::Object(*members),
                    decreases members@.len() - i,
                {
                    if str_eq(members[i].0.as_str(), key) {
                        assert(ms.skip(i as int)[0] == ms[i as int]);
                        assert(ms[i as int].0 == key@);
                        assert(self@ == JsonModel::Object(ms));
                        assert(members_get(ms.skip(i as int), key@) == Some(ms[i as int].1));
                        return Some(&members[i].1);
                    }
                    proof {
                        lemma_members_get_skip(ms, key@, i as int);
                    }
                    i = i + 1;
                }
                None
            },
            _ => None,
        }
    }

    /// `self.as_str()`.
    pub fn as_str(&self) -> (r: Option<&String>)
        ensures
            match r {
                Some(s) => model_as_str(self@) == Some(s@),
                None => model_as_str(self@) is None,
            },
    {
        match self {
            JsonValue::Str(s) => Some(s),
            _ => None,
        }
    }

    /// `self.as_u64()`.
    pub fn as_u64(&self) -> (r: Option<u64>)
        ensures
            r == model_as_u64(self@),
    {
        match self {
            JsonValue::Number(JsonNumber::PosInt(u)) => Some(*u),
            _ => None,
        }
    }

    /// The string at `key`, or `default`.
    pub fn str_field_or(&self, key: &str, default: &str) -> (r: String)
        ensures
            r@ == str_field_or(self@, key@, default@),
    {
        match self.get(key) {
            Some(v) => match v.as_str() {
                Some(s) => s.clone(),
                None => default.to_owned(),
            },
            None => default.to_owned(),
        }
    }

    /// The non-negative integer at `key`, or `default`.
    pub fn u64_field_or(&self, key: &str, default: u64) -> (r: u64)
        ensures
            r == u64_field_or(self@, key@, default),
    {
        match self.get(key) {
            Some(v) => match v.as_u64() {
                Some(u) => u,
                None => default,
            },
            None => default,
        }
    }

    /// The strings of the array at `key`, skipping its other elements.
    pub fn str_list_field(&self, key: &str) -> (r: Vec<String>)
        ensures
            string_views(r@) == str_list_field(self@, key@),
    {
        let mut r: Vec<String> = Vec::new();
        match self.get(key) {
            Some(JsonValue::Array(items)) => {
                let ghost m = items_model(items@);
                proof {
                    lemma_items_model(items@);
                }
                let mut i: usize = 0;
                while i < items.len()
                    invariant
                        i <= items@.len(),
                        m == items_model(items@),
                        m.len() == items@.len(),
                        forall|j: int| 0 <= j < m.len() ==> #[trigger] m[j] == json_model(items@[j]),
                        string_views(r@) =~= str_items(m.take(i as int)),
                    decreases items@.len() - i,
                {
                    proof {
                        assert(m.take(i + 1) =~= m.take(i as int).push(m[i as int]));
                        lemma_str_items_push(m.take(i as int), m[i as int]);
                    }
                    match &items[i] {
                        JsonValue::Str(s) => {
                            r.push(s.clone());
                        },
                        _ => {},
                    }
                    i = i + 1;
                }
                assert(m.take(items@.len() as int) =~= m);
                r
            },
            _ => r,
        }
    }
}

} // verus!
