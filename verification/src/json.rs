//! JSON values as the library reads them, and their parsing.

use vstd::prelude::*;

use crate::text::same_text;

verus! {

/// What a JSON value holds.
#[verifier::ext_equal]
pub enum JsonView {
    Null,
    Bool(bool),
    /// A number: its value as an unsigned and as a signed integer, where it
    /// has one.
    Number { unsigned: Option<u64>, signed: Option<i64> },
    Text(Seq<char>),
    Array(Seq<JsonView>),
    Object(Map<Seq<char>, JsonView>),
}

impl JsonView {
    /// The member `key` of an object.
    pub open spec fn get(self, key: Seq<char>) -> Option<JsonView> {
        match self {
            JsonView::Object(members) => if members.contains_key(key) {
                Some(members[key])
            } else {
                None
            },
            _ => None,
        }
    }

    /// The text of a string.
    pub open spec fn text(self) -> Option<Seq<char>> {
        match self {
            JsonView::Text(text) => Some(text),
            _ => None,
        }
    }

    /// The text of the string member `key` of an object.
    pub open spec fn text_at(self, key: Seq<char>) -> Option<Seq<char>> {
        match self.get(key) {
            Some(member) => member.text(),
            None => None,
        }
    }

    /// The text of the string member `key` of the object member `outer`.
    pub open spec fn text_at2(self, outer: Seq<char>, key: Seq<char>) -> Option<Seq<char>> {
        match self.get(outer) {
            Some(member) => member.text_at(key),
            None => None,
        }
    }

    /// The value of a number that is an unsigned integer.
    pub open spec fn unsigned(self) -> Option<u64> {
        match self {
            JsonView::Number { unsigned, signed } => unsigned,
            _ => None,
        }
    }

    /// The value of a number that is a signed integer.
    pub open spec fn signed(self) -> Option<i64> {
        match self {
            JsonView::Number { unsigned, signed } => signed,
            _ => None,
        }
    }

    /// The unsigned integer in the member `key` of an object.
    pub open spec fn unsigned_at(self, key: Seq<char>) -> Option<u64> {
        match self.get(key) {
            Some(member) => member.unsigned(),
            None => None,
        }
    }

    /// The items of an array.
    pub open spec fn items(self) -> Option<Seq<JsonView>> {
        match self {
            JsonView::Array(items) => Some(items),
            _ => None,
        }
    }

    /// The items of the array member `key` of an object.
    pub open spec fn items_at(self, key: Seq<char>) -> Option<Seq<JsonView>> {
        match self.get(key) {
            Some(member) => member.items(),
            None => None,
        }
    }
}

/// A JSON value. Of two members of an object with one name the later counts.
#[derive(Debug)]
pub enum Json {
    Null,
    Bool(bool),
    Number { unsigned: Option<u64>, signed: Option<i64> },
    Text(String),
    Array(Vec<Json>),
    Object(Vec<(String, Json)>),
}

/// What `json` holds.
pub open spec fn json_view(json: Json) -> JsonView
    decreases json,
{
    match json {
        Json::Null => JsonView::Null,
        Json::Bool(b) => JsonView::Bool(b),
        Json::Number { unsigned, signed } => JsonView::Number { unsigned, signed },
        Json::Text(s) => JsonView::Text(s@),
        Json::Array(items) => JsonView::Array(items_view(items@)),
        Json::Object(members) => JsonView::Object(members_view(members@)),
    }
}

/// What the items of an array hold.
pub open spec fn items_view(items: Seq<Json>) -> Seq<JsonView>
    decreases items,
{
    if items.len() == 0 {
        seq![]
    } else {
        items_view(items.drop_last()).push(json_view(items.last()))
    }
}

/// What the members of an object hold.
pub open spec fn members_view(members: Seq<(String, Json)>) -> Map<Seq<char>, JsonView>
    decreases members,
{
    if members.len() == 0 {
        Map::empty()
    } else {
        members_view(members.drop_last()).insert(
            members.last().0@,
            json_view(members.last().1),
        )
    }
}

impl View for Json {
    type V = JsonView;

    open spec fn view(&self) -> JsonView {
        json_view(*self)
    }
}

pub proof fn lemma_items_view(items: Seq<Json>)
    ensures
        items_view(items).len() == items.len(),
        forall|i: int| 0 <= i < items.len() ==> #[trigger] items_view(items)[i] == items[i]@,
    decreases items.len(),
{
    if items.len() > 0 {
        lemma_items_view(items.drop_last());
        assert forall|i: int| 0 <= i < items.len() implies #[trigger] items_view(items)[i]
            == items[i]@ by {
            if i < items.len() - 1 {
                assert(items_view(items)[i] == items_view(items.drop_last())[i]);
                assert(items.drop_last()[i] == items[i]);
            }
        }
    }
}

impl Json {
    /// The member `key` of an object.
    pub fn get(&self, key: &str) -> (member: Option<&Json>)
        ensures
            member is Some <==> self@.get(key@) is Some,
            member matches Some(m) ==> m@ == self@.get(key@)->0,
    {
        match self {
            Json::Object(members) => {
                let mut at: usize = members.len();
                assert(members@.take(at as int) == members@);
                while at > 0
                    invariant
                        self@ == JsonView::Object(members_view(members@)),
                        at <= members@.len(),
                        self@.get(key@) == JsonView::Object(
                            members_view(members@.take(at as int)),
                        ).get(key@),
                    decreases at,
                {
                    let ghost front = members@.take(at as int);
                    at = at - 1;
                    assert(front.drop_last() == members@.take(at as int));
                    assert(front.last() == members@[at as int]);
                    if same_text(members[at].0.as_str(), key) {
                        return Some(&members[at].1);
                    }
                }
                assert(members@.take(0) =~= seq![]);
                None
            },
            _ => None,
        }
    }

    /// The text of a string.
    pub fn as_str(&self) -> (text: Option<&str>)
        ensures
            text is Some <==> self@.text() is Some,
            text matches Some(t) ==> t@ == self@.text()->0,
    {
        match self {
            Json::Text(s) => Some(s.as_str()),
            _ => None,
        }
    }

    /// The value of a number that is an unsigned integer.
    pub fn as_u64(&self) -> (n: Option<u64>)
        ensures
            n == self@.unsigned(),
    {
        match self {
            Json::Number { unsigned, signed: _ } => *unsigned,
            _ => None,
        }
    }

    /// The value of a number that is a signed integer.
    pub fn as_i64(&self) -> (n: Option<i64>)
        ensures
            n == self@.signed(),
    {
        match self {
            Json::Number { unsigned: _, signed } => *signed,
            _ => None,
        }
    }

    /// The items of an array.
    pub fn as_array(&self) -> (items: Option<&Vec<Json>>)
        ensures
            items is Some <==> self@.items() is Some,
            items matches Some(i) ==> items_view(i@) == self@.items()->0,
    {
        match self {
            Json::Array(items) => Some(items),
            _ => None,
        }
    }

    /// The text of the string member `key` of an object.
    pub fn str_at(&self, key: &str) -> (text: Option<&str>)
        ensures
            text is Some <==> self@.text_at(key@) is Some,
            text matches Some(t) ==> t@ == self@.text_at(key@)->0,
    {
        match self.get(key) {
            Some(member) => member.as_str(),
            None => None,
        }
    }

    /// The text of the string member `key` of the object member `outer`.
    pub fn str_at2(&self, outer: &str, key: &str) -> (text: Option<&str>)
        ensures
            text is Some <==> self@.text_at2(outer@, key@) is Some,
            text matches Some(t) ==> t@ == self@.text_at2(outer@, key@)->0,
    {
        match self.get(outer) {
            Some(member) => member.str_at(key),
            None => None,
        }
    }

    /// The unsigned integer in the member `key` of an object.
    pub fn u64_at(&self, key: &str) -> (n: Option<u64>)
        ensures
            n == self@.unsigned_at(key@),
    {
        match self.get(key) {
            Some(member) => member.as_u64(),
            None => None,
        }
    }

    /// The items of the array member `key` of an object.
    pub fn array_at(&self, key: &str) -> (items: Option<&Vec<Json>>)
        ensures
            items is Some <==> self@.items_at(key@) is Some,
            items matches Some(i) ==> items_view(i@) == self@.items_at(key@)->0,
    {
        match self.get(key) {
            Some(member) => member.as_array(),
            None => None,
        }
    }
}

/// The parsed values of `serde_json`.
#[verifier::external_type_specification]
#[verifier::external_body]
pub struct ExValue(serde_json::Value);

/// What a parsed value of `serde_json` holds.
pub uninterp spec fn json_of_value(value: serde_json::Value) -> JsonView;

/// What `serde_json::from_str` finds in a text: the value that it spells, or
/// none where it is not JSON.
pub uninterp spec fn json_of_text(text: Seq<char>) -> Option<JsonView>;

/// One level of a parsed value.
enum Node<'a> {
    Null,
    Bool(bool),
    Number(Option<u64>, Option<i64>),
    Text(&'a String),
    Array(&'a Vec<serde_json::Value>),
    Object(Vec<(&'a String, &'a serde_json::Value)>),
}

/// What the members of a parsed object hold.
spec fn object_of(members: Seq<(&String, &serde_json::Value)>) -> Map<Seq<char>, JsonView>
    decreases members.len(),
{
    if members.len() == 0 {
        Map::empty()
    } else {
        object_of(members.drop_last()).insert(members.last().0@, json_of_value(*members.last().1))
    }
}

/// Whether no two members have one name.
spec fn names_differ(members: Seq<(&String, &serde_json::Value)>) -> bool {
    forall|i: int, j: int|
        0 <= i < j < members.len() ==> (#[trigger] members[i]).0@ != (#[trigger] members[j]).0@
}

impl<'a> Node<'a> {
    /// What the value of this node holds.
    spec fn holds(self) -> JsonView {
        match self {
            Node::Null => JsonView::Null,
            Node::Bool(b) => JsonView::Bool(b),
            Node::Number(unsigned, signed) => JsonView::Number { unsigned, signed },
            Node::Text(s) => JsonView::Text(s@),
            Node::Array(items) => JsonView::Array(
                items@.map_values(|item: serde_json::Value| json_of_value(item)),
            ),
            Node::Object(members) => JsonView::Object(object_of(members@)),
        }
    }
}

/// `serde_json::from_str::<Value>`: the value that `text` spells, none where
/// the text is not JSON.
#[verifier::external_body]
fn value_of_text(text: &str) -> (value: Option<serde_json::Value>)
    ensures
        json_of_text(text@) == (match value {
            Some(v) => Some(json_of_value(v)),
            None => None,
        }),
{
    serde_json::from_str::<serde_json::Value>(text).ok()
}

/// The variants of `serde_json::Value`, told apart: a value holds what its one
/// variant carries. A number counts as an unsigned or a signed integer where
/// `Number::as_u64` or `Number::as_i64` gives one; the map of an object lists
/// each of its members once, under names that differ.
#[verifier::external_body]
fn node_of<'a>(value: &'a serde_json::Value) -> (node: Node<'a>)
    ensures
        json_of_value(*value) == node.holds(),
        node matches Node::Object(members) ==> names_differ(members@),
{
    match value {
        serde_json::Value::Null => Node::Null,
        serde_json::Value::Bool(b) => Node::Bool(*b),
        serde_json::Value::Number(n) => Node::Number(n.as_u64(), n.as_i64()),
        serde_json::Value::String(s) => Node::Text(s),
        serde_json::Value::Array(items) => Node::Array(items),
        serde_json::Value::Object(members) => Node::Object(members.iter().collect()),
    }
}

proof fn lemma_object_of(members: Seq<(&String, &serde_json::Value)>)
    requires
        names_differ(members),
    ensures
        object_of(members).dom().finite(),
        forall|i: int|
            0 <= i < members.len() ==> object_of(members).contains_key(
                (#[trigger] members[i]).0@,
            ) && object_of(members)[members[i].0@] == json_of_value(*members[i].1),
    decreases members.len(),
{
    if members.len() > 0 {
        let front = members.drop_last();
        assert(names_differ(front)) by {
            assert forall|i: int, j: int| 0 <= i < j < front.len() implies (
            #[trigger] front[i]).0@ != (#[trigger] front[j]).0@ by {
                assert(front[i] == members[i] && front[j] == members[j]);
            }
        }
        lemma_object_of(front);
        assert forall|i: int| 0 <= i < members.len() implies object_of(members).contains_key(
            (#[trigger] members[i]).0@,
        ) && object_of(members)[members[i].0@] == json_of_value(*members[i].1) by {
            if i < members.len() - 1 {
                assert(front[i] == members[i]);
                assert(members[i].0@ != members[members.len() - 1].0@);
            }
        }
    }
}

/// The value that a parsed value holds.
fn json_from_value(value: &serde_json::Value) -> (json: Json)
    ensures
        json@ == json_of_value(*value),
    decreases json_of_value(*value),
{
    let node = node_of(value);
    match node {
        Node::Null => Json::Null,
        Node::Bool(b) => Json::Bool(b),
        Node::Number(unsigned, signed) => Json::Number { unsigned, signed },
        Node::Text(s) => Json::Text(s.clone()),
        Node::Array(parsed) => {
            let ghost all = json_of_value(*value)->Array_0;
            let mut items: Vec<Json> = Vec::new();
            let mut i: usize = 0;
            while i < parsed.len()
                invariant
                    i <= parsed@.len(),
                    items@.len() == i,
                    json_of_value(*value) == JsonView::Array(all),
                    all == parsed@.map_values(|item: serde_json::Value| json_of_value(item)),
                    items_view(items@) == all.take(i as int),
                decreases parsed.len() - i,
            {
                assert(all[i as int] == json_of_value(parsed@[i as int]));
                assert(decreases_to!(json_of_value(*value) => json_of_value(*value)->Array_0));
                assert(decreases_to!(all => all[i as int]));
                let item: Json = json_from_value(&parsed[i]);
                let ghost before = items@;
                items.push(item);
                i = i + 1;
                assert(items@.drop_last() == before);
                assert(all.take(i as int) == all.take(i - 1).push(all[i - 1]));
            }
            assert(all.take(all.len() as int) == all);
            Json::Array(items)
        },
        Node::Object(parsed) => {
            let ghost all = object_of(parsed@);
            proof {
                lemma_object_of(parsed@);
            }
            let mut members: Vec<(String, Json)> = Vec::new();
            let mut i: usize = 0;
            assert(parsed@.take(0) =~= seq![]);
            while i < parsed.len()
                invariant
                    i <= parsed@.len(),
                    json_of_value(*value) == JsonView::Object(all),
                    all == object_of(parsed@),
                    all.dom().finite(),
                    forall|k: int|
                        0 <= k < parsed@.len() ==> all.contains_key((#[trigger] parsed@[k]).0@)
                            && all[parsed@[k].0@] == json_of_value(*parsed@[k].1),
                    members_view(members@) == object_of(parsed@.take(i as int)),
                decreases parsed.len() - i,
            {
                let ghost name = parsed@[i as int].0@;
                assert(all.contains_key(name));
                assert(decreases_to!(json_of_value(*value) => json_of_value(*value)->Object_0));
                assert(decreases_to!(all => all[name]));
                let item: Json = json_from_value(parsed[i].1);
                let ghost before = members@;
                members.push((parsed[i].0.clone(), item));
                i = i + 1;
                assert(members@.drop_last() == before);
                assert(parsed@.take(i as int).drop_last() == parsed@.take(i - 1));
            }
            assert(parsed@.take(parsed@.len() as int) == parsed@);
            Json::Object(members)
        },
    }
}

/// The value that `text` spells, none where the text is not JSON.
pub fn parse_json(text: &str) -> (json: Option<Json>)
    ensures
        json is Some <==> json_of_text(text@) is Some,
        json matches Some(j) ==> j@ == json_of_text(text@)->0,
{
    match value_of_text(text) {
        Some(value) => Some(json_from_value(&value)),
        None => None,
    }
}

/// What the parts of a value are: the members of objects, the texts of strings,
/// the integers of numbers and the items of arrays, and nothing of any other
/// value.
pub proof fn law_parts_of_values(value: JsonView, key: Seq<char>, outer: Seq<char>)
    ensures
        value.get(key) == if value is Object && (value->Object_0).contains_key(key) {
            Some((value->Object_0)[key])
        } else {
            None
        },
        value.text() == if value is Text { Some(value->Text_0) } else { None },
        value.unsigned() == if value is Number { value->unsigned } else { None },
        value.signed() == if value is Number { value->signed } else { None },
        value.items() == if value is Array { Some(value->Array_0) } else { None },
        value.get(key) is None ==> value.text_at(key) is None && value.unsigned_at(key) is None
            && value.items_at(key) is None,
        value.get(key) matches Some(member) ==> value.text_at(key) == member.text()
            && value.unsigned_at(key) == member.unsigned() && value.items_at(key)
            == member.items(),
        value.get(outer) is None ==> value.text_at2(outer, key) is None,
        value.get(outer) matches Some(member) ==> value.text_at2(outer, key) == member.text_at(
            key,
        ),
{
}

/// A value holds what it is made of. Of two members with one name the later
/// counts.
pub proof fn law_values_hold_what_they_are_made_of(json: Json, i: int)
    ensures
        json is Null ==> json@ is Null,
        json matches Json::Bool(b) ==> json@ == JsonView::Bool(b),
        json matches Json::Number { unsigned, signed } ==> json@ == (JsonView::Number {
            unsigned,
            signed,
        }),
        json matches Json::Text(text) ==> json@ == JsonView::Text(text@),
        json matches Json::Array(items) ==> {
            &&& json@ is Array
            &&& json@.items()->0.len() == items@.len()
            &&& 0 <= i < items@.len() ==> json@.items()->0[i] == items@[i]@
        },
        json matches Json::Object(members) ==> {
            &&& json@ is Object
            &&& 0 <= i < members@.len() && (forall|j: int|
                i < j < members@.len() ==> (#[trigger] members@[j]).0@ != members@[i].0@)
                ==> json@.get(members@[i].0@) == Some(members@[i].1@)
            &&& forall|key: Seq<char>| #[trigger]
                json@.get(key) is Some ==> exists|j: int|
                    0 <= j < members@.len() && (#[trigger] members@[j]).0@ == key
        },
{
    if let Json::Array(items) = json {
        lemma_items_view(items@);
    }
    if let Json::Object(members) = json {
        lemma_members_view(members@, i);
        assert forall|key: Seq<char>| #[trigger] json@.get(key) is Some implies exists|j: int|
            0 <= j < members@.len() && (#[trigger] members@[j]).0@ == key by {
            lemma_member_names(members@, key);
        }
    }
}

proof fn lemma_members_view(members: Seq<(String, Json)>, i: int)
    ensures
        0 <= i < members.len() && (forall|j: int|
            i < j < members.len() ==> (#[trigger] members[j]).0@ != members[i].0@)
            ==> members_view(members).contains_key(members[i].0@) && members_view(
            members,
        )[members[i].0@] == members[i].1@,
    decreases members.len(),
{
    if 0 <= i < members.len() - 1 && (forall|j: int|
        i < j < members.len() ==> (#[trigger] members[j]).0@ != members[i].0@) {
        let front = members.drop_last();
        assert forall|j: int| i < j < front.len() implies (#[trigger] front[j]).0@
            != front[i].0@ by {
            assert(front[j] == members[j] && front[i] == members[i]);
        }
        lemma_members_view(front, i);
        assert(front[i] == members[i]);
        assert(members[members.len() - 1].0@ != members[i].0@);
    }
}

proof fn lemma_member_names(members: Seq<(String, Json)>, key: Seq<char>)
    requires
        members_view(members).contains_key(key),
    ensures
        exists|j: int| 0 <= j < members.len() && (#[trigger] members[j]).0@ == key,
    decreases members.len(),
{
    if members.len() > 0 {
        if members.last().0@ == key {
            assert(members[members.len() - 1].0@ == key);
        } else {
            let front = members.drop_last();
            lemma_member_names(front, key);
            let j = choose|j: int| 0 <= j < front.len() && (#[trigger] front[j]).0@ == key;
            assert(members[j] == front[j]);
        }
    }
}

} // verus!
