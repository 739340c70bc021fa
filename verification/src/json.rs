//! A model of JSON values, and the parser that produces them.

use crate::text::text_eq;
use vstd::prelude::*;

verus! {

/// A JSON number, kept in the form in which it was written.
#[derive(Clone, Copy, Debug, PartialEq, Eq, Structural)]
pub enum JsonNumber {
    /// A non-negative integer.
    PosInt(u128),
    /// A negative integer.
    NegInt(i64),
    /// Any other number, as the bit pattern of its double-precision value.
    Float(u64),
}

/// A JSON value.
#[derive(Debug, PartialEq, Eq)]
pub enum Json {
    Null,
    Bool(bool),
    Number(JsonNumber),
    Text(String),
    Array(Vec<Json>),
    Object(Vec<Member>),
}

/// One member of a JSON object.
#[derive(Debug, PartialEq, Eq)]
pub struct Member {
    pub key: String,
    pub value: Json,
}

/// The mathematical value of a `Json`: strings are sequences of characters,
/// arrays are sequences of values, objects are sequences of key-value pairs.
pub enum JsonView {
    Null,
    Bool(bool),
    Number(JsonNumber),
    Text(Seq<char>),
    Array(Seq<JsonView>),
    Object(Seq<(Seq<char>, JsonView)>),
}

/// The value that `json` stands for.
pub open spec fn json_view(json: Json) -> JsonView
    decreases json,
{
    match json {
        Json::Null => JsonView::Null,
        Json::Bool(b) => JsonView::Bool(b),
        Json::Number(n) => JsonView::Number(n),
        Json::Text(s) => JsonView::Text(s@),
        Json::Array(items) => JsonView::Array(
            Seq::new(
                items@.len(),
                |i: int|
                    if 0 <= i < items@.len() {
                        json_view(items@[i])
                    } else {
                        JsonView::Null
                    },
            ),
        ),
        Json::Object(members) => JsonView::Object(
            Seq::new(
                members@.len(),
                |i: int|
                    if 0 <= i < members@.len() {
                        (members@[i].key@, json_view(members@[i].value))
                    } else {
                        (Seq::empty(), JsonView::Null)
                    },
            ),
        ),
    }
}

impl View for Json {
    type V = JsonView;

    open spec fn view(&self) -> JsonView {
        json_view(*self)
    }
}

impl View for Member {
    type V = (Seq<char>, JsonView);

    open spec fn view(&self) -> (Seq<char>, JsonView) {
        (self.key@, self.value@)
    }
}

/// The value of the first member of `members` whose key is `key`.
pub open spec fn lookup(members: Seq<(Seq<char>, JsonView)>, key: Seq<char>) -> Option<JsonView>
    decreases members.len(),
{
    if members.len() == 0 {
        None
    } else if members[0].0 == key {
        Some(members[0].1)
    } else {
        lookup(members.drop_first(), key)
    }
}

/// The number that stands for the integer `n`.
pub open spec fn integer_number(n: i64) -> JsonNumber {
    if n < 0 {
        JsonNumber::NegInt(n)
    } else {
        JsonNumber::PosInt(n as u128)
    }
}

impl JsonView {
    /// The member `key` of an object; `None` for a missing member and for
    /// anything that is not an object.
    pub open spec fn field(self, key: Seq<char>) -> Option<JsonView> {
        match self {
            JsonView::Object(members) => lookup(members, key),
            _ => None,
        }
    }
}

/// Members that do not carry the key can be skipped.
pub proof fn lemma_lookup_skip(members: Seq<(Seq<char>, JsonView)>, key: Seq<char>, n: int)
    requires
        0 <= n <= members.len(),
        forall|k: int| 0 <= k < n ==> members[k].0 != key,
    ensures
        lookup(members, key) == lookup(members.skip(n), key),
    decreases n,
{
    if n == 0 {
        assert(members.skip(0) =~= members);
    } else {
        let rest = members.drop_first();
        assert forall|k: int| 0 <= k < n - 1 implies rest[k].0 != key by {
            assert(rest[k] == members[k + 1]);
        }
        lemma_lookup_skip(rest, key, n - 1);
        assert(rest.skip(n - 1) =~= members.skip(n));
    }
}

/// The first member that carries the key is the one that `lookup` finds.
pub proof fn lemma_lookup_found(members: Seq<(Seq<char>, JsonView)>, key: Seq<char>, n: int)
    requires
        0 <= n < members.len(),
        members[n].0 == key,
        forall|k: int| 0 <= k < n ==> members[k].0 != key,
    ensures
        lookup(members, key) == Some(members[n].1),
{
    lemma_lookup_skip(members, key, n);
    assert(members.skip(n)[0] == members[n]);
}

impl Clone for Json {
    #[verifier::loop_isolation(false)]
    fn clone(&self) -> (res: Self)
        ensures
            res@ == self@,
        decreases self,
    {
        match self {
            Json::Null => Json::Null,
            Json::Bool(b) => Json::Bool(*b),
            Json::Number(n) => Json::Number(*n),
            Json::Text(s) => Json::Text(s.clone()),
            Json::Array(items) => {
                let mut copy: Vec<Json> = Vec::new();
                let mut i: usize = 0;
                while i < items.len()
                    invariant
                        i <= items.len(),
                        copy.len() == i,
                        forall|k: int| 0 <= k < i ==> copy[k]@ == items[k]@,
                    decreases items.len() - i,
                {
                    proof {
                        vstd::std_specs::vec::axiom_vec_index_decreases(*items, i as int);
                    }
                    copy.push(items[i].clone());
                    i += 1;
                }
                let res = Json::Array(copy);
                assert(res@->Array_0 =~= self@->Array_0);
                res
            },
            Json::Object(members) => {
                let mut copy: Vec<Member> = Vec::new();
                let mut i: usize = 0;
                while i < members.len()
                    invariant
                        i <= members.len(),
                        copy.len() == i,
                        forall|k: int| 0 <= k < i ==> copy[k]@ == members[k]@,
                    decreases members.len() - i,
                {
                    proof {
                        vstd::std_specs::vec::axiom_vec_index_decreases(*members, i as int);
                    }
                    copy.push(
                        Member { key: members[i].key.clone(), value: members[i].value.clone() },
                    );
                    i += 1;
                }
                let res = Json::Object(copy);
                assert(res@->Object_0 =~= self@->Object_0);
                res
            },
        }
    }
}

impl Clone for Member {
    fn clone(&self) -> (res: Self)
        ensures
            res@ == self@,
    {
        Member { key: self.key.clone(), value: self.value.clone() }
    }
}

impl Member {
    /// The member that gives `key` the value `value`.
    pub fn new(key: &str, value: Json) -> (r: Member)
        ensures
            r@ == (key@, value@),
    {
        Member { key: String::from_str(key), value }
    }
}

impl Json {
    /// The JSON string that holds `text`.
    pub fn text(text: &str) -> (r: Json)
        ensures
            r@ == JsonView::Text(text@),
    {
        Json::Text(String::from_str(text))
    }

    /// The JSON number of a non-negative integer.
    pub fn unsigned(n: u128) -> (r: Json)
        ensures
            r@ == JsonView::Number(JsonNumber::PosInt(n)),
    {
        Json::Number(JsonNumber::PosInt(n))
    }

    /// The JSON number of an integer.
    pub fn integer(n: i64) -> (r: Json)
        ensures
            r@ == JsonView::Number(integer_number(n)),
    {
        if n < 0 {
            Json::Number(JsonNumber::NegInt(n))
        } else {
            Json::Number(JsonNumber::PosInt(n as u128))
        }
    }

    /// The JSON array of `items`.
    pub fn array(items: Vec<Json>) -> (r: Json)
        ensures
            r@ == JsonView::Array(items@.map_values(|item: Json| item@)),
    {
        let r = Json::Array(items);
        assert(r@->Array_0 =~= items@.map_values(|item: Json| item@));
        r
    }

    /// The JSON object of `members`.
    pub fn object(members: Vec<Member>) -> (r: Json)
        ensures
            r@ == JsonView::Object(members@.map_values(|member: Member| member@)),
    {
        let r = Json::Object(members);
        assert(r@->Object_0 =~= members@.map_values(|member: Member| member@));
        r
    }

    /// The member `key` of an object.
    pub fn get(&self, key: &str) -> (r: Option<&Json>)
        ensures
            match r {
                Some(value) => self@.field(key@) == Some(value@),
                None => self@.field(key@) is None,
            },
    {
        match self {
            Json::Object(members) => {
                let mut i: usize = 0;
                while i < members.len()
                    invariant
                        i <= members.len(),
                        self@ is Object,
                        self@->Object_0.len() == members.len(),
                        forall|k: int| 0 <= k < members.len() ==> self@->Object_0[k] == members[k]@,
                        forall|k: int| 0 <= k < i ==> self@->Object_0[k].0 != key@,
                    decreases members.len() - i,
                {
                    if text_eq(members[i].key.as_str(), key) {
                        proof {
                            lemma_lookup_skip(self@->Object_0, key@, i as int);
                        }
                        return Some(&members[i].value);
                    }
                    i += 1;
                }
                proof {
                    lemma_lookup_skip(self@->Object_0, key@, i as int);
                }
                None
            },
            _ => None,
        }
    }

    /// Reads one JSON value from `bytes`: `None` where the bytes are not the
    /// text of exactly one JSON value.
    pub fn parse(bytes: &[u8]) -> (r: Option<Json>)
        ensures
            parsed_json(bytes@) == (match r {
                Some(json) => Some(json@),
                None => None,
            }),
    {
        parse_json(bytes)
    }
}

/// `serde_json::Value`, as the parser hands it over. Nothing is known of
/// what is inside.
#[verifier::external_type_specification]
#[verifier::external_body]
pub struct ExSerdeValue(serde_json::Value);

/// The value that the JSON text `bytes` holds, if it is the text of one JSON
/// value and nothing else.
pub uninterp spec fn parsed_json(bytes: Seq<u8>) -> Option<JsonView>;

/// `serde_json::from_slice`, read as a `serde_json::Value` and moved into a
/// `Json`. The claim is that the outcome depends on the bytes alone:
/// `parsed_json` names it.
#[verifier::external_body]
fn parse_json(bytes: &[u8]) -> (r: Option<Json>)
    ensures
        parsed_json(bytes@) == (match r {
            Some(json) => Some(json@),
            None => None,
        }),
{
    serde_json::from_slice::<serde_json::Value>(bytes).ok().map(json_from_value)
}

/// Moves a `serde_json::Value` into a `Json`, variant by variant. The members
/// of an object come in the order in which its map hands them out.
#[verifier::external_body]
fn json_from_value(value: serde_json::Value) -> Json {
    match value {
        serde_json::Value::Null => Json::Null,
        serde_json::Value::Bool(b) => Json::Bool(b),
        serde_json::Value::Number(_) => Json::Number(number_from_value(&value)),
        serde_json::Value::String(s) => Json::Text(s),
        serde_json::Value::Array(a) => Json::Array(a.into_iter().map(json_from_value).collect()),
        serde_json::Value::Object(o) => Json::Object(
            o.into_iter().map(|(key, v)| Member { key, value: json_from_value(v) }).collect(),
        ),
    }
}

/// The number in a `serde_json::Value`: `as_u64` decides for a non-negative
/// integer, then `as_i64` for a negative one; what is left is kept as the
/// bits of `as_f64`.
#[verifier::external_body]
fn number_from_value(value: &serde_json::Value) -> JsonNumber {
    match (value.as_u64(), value.as_i64()) {
        (Some(u), _) => JsonNumber::PosInt(u.into()),
        (_, Some(i)) => JsonNumber::NegInt(i),
        _ => JsonNumber::Float(value.as_f64().map_or(0, |x| x.to_bits())),
    }
}

} // verus!
