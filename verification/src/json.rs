//! JSON documents as plain values.

use vstd::prelude::*;

use crate::text::same_text;

verus! {

/// `serde_json::Value`: a parsed document, read through [`node_of`].
#[verifier::external_type_specification]
#[verifier::external_body]
pub struct ExJsonValue(serde_json::Value);

/// `serde_json::Error`: why a text is no JSON document.
#[verifier::external_type_specification]
#[verifier::external_body]
pub struct ExJsonError(serde_json::Error);

/// A JSON document, mathematically. The members of an object stand in the order in
/// which the object lists them.
pub enum JsonView {
    Null,
    Bool(bool),
    Number(Seq<char>),
    Text(Seq<char>),
    Array(Seq<JsonView>),
    Object(Seq<MemberView>),
}

/// A member of an object, mathematically.
pub struct MemberView {
    pub name: Seq<char>,
    pub value: JsonView,
}

/// What a `serde_json::Value` holds.
pub uninterp spec fn json_contents(value: serde_json::Value) -> JsonView;

/// What `serde_json::from_str` reads from a text, or the error that it displays.
pub uninterp spec fn parsed_json(text: Seq<char>) -> Result<JsonView, Seq<char>>;

/// The text as which a `serde_json::Error` is displayed.
pub uninterp spec fn json_error_text(error: serde_json::Error) -> Seq<char>;

/// The uppermost level of a `serde_json::Value`. A number is kept as its text.
pub enum JsonNode<'a> {
    Null,
    Bool(bool),
    Number(String),
    Text(&'a String),
    Array(&'a Vec<serde_json::Value>),
    Object(Vec<(&'a String, &'a serde_json::Value)>),
}

/// The document that a level and what hangs below it make up.
pub open spec fn node_contents(node: JsonNode) -> JsonView {
    match node {
        JsonNode::Null => JsonView::Null,
        JsonNode::Bool(flag) => JsonView::Bool(flag),
        JsonNode::Number(digits) => JsonView::Number(digits@),
        JsonNode::Text(text) => JsonView::Text(text@),
        JsonNode::Array(items) => JsonView::Array(
            Seq::new(items@.len(), |i: int| json_contents(items@[i])),
        ),
        JsonNode::Object(members) => JsonView::Object(
            Seq::new(
                members@.len(),
                |i: int|
                    MemberView {
                        name: members@[i].0@,
                        value: json_contents(*members@[i].1),
                    },
            ),
        ),
    }
}

/// `serde_json::from_str`, read as a `serde_json::Value`: succeeds or fails, holds what it
/// holds, and displays the error that it displays, by the text alone.
#[verifier::external_body]
fn value_of_text(text: &str) -> (result: Result<serde_json::Value, serde_json::Error>)
    ensures
        result is Ok <==> parsed_json(text@) is Ok,
        result matches Ok(value) ==> json_contents(value) == parsed_json(text@)->Ok_0,
        result matches Err(error) ==> json_error_text(error) == parsed_json(text@)->Err_0,
{
    serde_json::from_str(text)
}

/// The display of a `serde_json::Error`, as a string.
#[verifier::external_body]
fn display_json_error(error: &serde_json::Error) -> (text: String)
    ensures
        text@ == json_error_text(*error),
{
    error.to_string()
}

/// The variants of `serde_json::Value`, told apart. The contents of a value are those of
/// its uppermost level; the text of a number is what `serde_json::Number` displays.
#[verifier::external_body]
fn node_of<'a>(value: &'a serde_json::Value) -> (node: JsonNode<'a>)
    ensures
        node_contents(node) == json_contents(*value),
{
    match value {
        serde_json::Value::Null => JsonNode::Null,
        serde_json::Value::Bool(flag) => JsonNode::Bool(*flag),
        serde_json::Value::Number(number) => JsonNode::Number(number.to_string()),
        serde_json::Value::String(text) => JsonNode::Text(text),
        serde_json::Value::Array(items) => JsonNode::Array(items),
        serde_json::Value::Object(members) => JsonNode::Object(members.iter().collect()),
    }
}

/// Why a text is no JSON document.
#[derive(Debug, PartialEq, Eq)]
pub struct JsonError {
    pub message: String,
}

/// A JSON document.
#[derive(Debug)]
pub enum Json {
    Null,
    Bool(bool),
    Number(String),
    Text(String),
    Array(Vec<Json>),
    Object(Vec<Member>),
}

/// A member of a JSON object.
#[derive(Debug)]
pub struct Member {
    pub name: String,
    pub value: Json,
}

impl View for Json {
    type V = JsonView;

    open spec fn view(&self) -> JsonView
        decreases self,
    {
        match self {
            Json::Null => JsonView::Null,
            Json::Bool(flag) => JsonView::Bool(*flag),
            Json::Number(digits) => JsonView::Number(digits@),
            Json::Text(text) => JsonView::Text(text@),
            Json::Array(items) => JsonView::Array(
                Seq::new(
                    items@.len(),
                    |i: int|
                        if 0 <= i < items@.len() {
                            items@[i].view()
                        } else {
                            JsonView::Null
                        },
                ),
            ),
            Json::Object(members) => JsonView::Object(
                Seq::new(
                    members@.len(),
                    |i: int|
                        if 0 <= i < members@.len() {
                            MemberView { name: members@[i].name@, value: members@[i].value.view() }
                        } else {
                            MemberView { name: Seq::empty(), value: JsonView::Null }
                        },
                ),
            ),
        }
    }
}

/// The first member named `key`.
pub open spec fn member_named(members: Seq<MemberView>, key: Seq<char>) -> Option<
    JsonView,
>
    decreases members.len(),
{
    if members.len() == 0 {
        None
    } else if members[0].name == key {
        Some(members[0].value)
    } else {
        member_named(members.drop_first(), key)
    }
}

impl JsonView {
    /// The value of the member `key`; `None` for anything but an object that has it.
    pub open spec fn member(self, key: Seq<char>) -> Option<JsonView> {
        match self {
            JsonView::Object(members) => member_named(members, key),
            _ => None,
        }
    }

    /// The characters of a string; `None` for anything else.
    pub open spec fn text(self) -> Option<Seq<char>> {
        match self {
            JsonView::Text(text) => Some(text),
            _ => None,
        }
    }

    /// The string that is the value of the member `key`.
    pub open spec fn text_member(self, key: Seq<char>) -> Option<Seq<char>> {
        match self.member(key) {
            Some(value) => value.text(),
            None => None,
        }
    }
}

impl Json {
    /// Reads a JSON document.
    pub fn parse(text: &str) -> (result: Result<Json, JsonError>)
        ensures
            (match parsed_json(text@) {
                Ok(contents) => result matches Ok(json) && json@ == contents,
                Err(message) => result matches Err(error) && error.message@ == message,
            }),
    {
        match value_of_text(text) {
            Ok(value) => Ok(Json::from_value(&value)),
            Err(error) => Err(JsonError { message: display_json_error(&error) }),
        }
    }

    /// The document that a `serde_json::Value` holds.
    pub fn from_value(value: &serde_json::Value) -> (json: Json)
        ensures
            json@ == json_contents(*value),
        decreases json_contents(*value),
    {
        match node_of(value) {
            JsonNode::Null => Json::Null,
            JsonNode::Bool(flag) => Json::Bool(flag),
            JsonNode::Number(digits) => Json::Number(digits),
            JsonNode::Text(text) => Json::Text(text.clone()),
            JsonNode::Array(items) => {
                let mut parts: Vec<Json> = Vec::new();
                for i in 0..items.len()
                    invariant
                        json_contents(*value) == node_contents(JsonNode::Array(items)),
                        parts@.len() == i,
                        forall|j: int|
                            0 <= j < i ==> (#[trigger] parts@[j])@ == json_contents(items@[j]),
                {
                    assert(json_contents(*value)->Array_0[i as int] == json_contents(
                        items@[i as int],
                    ));
                    parts.push(Json::from_value(&items[i]));
                }
                let json = Json::Array(parts);
                assert(json@->Array_0 == json_contents(*value)->Array_0);
                json
            },
            JsonNode::Object(members) => {
                let mut parts: Vec<Member> = Vec::new();
                for i in 0..members.len()
                    invariant
                        json_contents(*value) == node_contents(JsonNode::Object(members)),
                        parts@.len() == i,
                        forall|j: int|
                            #![trigger parts@[j]]
                            0 <= j < i ==> parts@[j].name@ == members@[j].0@ && parts@[j].value@
                                == json_contents(*members@[j].1),
                {
                    assert(json_contents(*value)->Object_0[i as int].value == json_contents(
                        *members@[i as int].1,
                    ));
                    let (name, part) = members[i];
                    parts.push(Member { name: name.clone(), value: Json::from_value(part) });
                }
                let json = Json::Object(parts);
                assert(json@->Object_0 == json_contents(*value)->Object_0);
                json
            },
        }
    }

    /// The value of the member `key`; `None` for anything but an object that has it.
    pub fn get(&self, key: &str) -> (value: Option<&Json>)
        ensures
            (match value {
                Some(json) => self@.member(key@) == Some(json@),
                None => self@.member(key@) is None,
            }),
    {
        if let Json::Object(members) = self {
            let ghost views = self@->Object_0;
            assert(views.skip(0) == views);
            for i in 0..members.len()
                invariant
                    self@ == JsonView::Object(views),
                    views.len() == members@.len(),
                    forall|j: int|
                        #![trigger views[j]]
                        0 <= j < views.len() ==> views[j].name == members@[j].name@
                            && views[j].value == members@[j].value@,
                    member_named(views, key@) == member_named(views.skip(i as int), key@),
            {
                assert(views.skip(i as int)[0] == views[i as int]);
                if same_text(members[i].name.as_str(), key) {
                    return Some(&members[i].value);
                }
                assert(views.skip(i as int).drop_first() == views.skip(i + 1));
            }
        }
        None
    }

    /// The characters of a string; `None` for anything else.
    pub fn as_str(&self) -> (text: Option<&str>)
        ensures
            (match text {
                Some(chars) => self@.text() == Some(chars@),
                None => self@.text() is None,
            }),
    {
        match self {
            Json::Text(text) => Some(text.as_str()),
            _ => None,
        }
    }

    /// The items of an array; `None` for anything else.
    pub fn as_array(&self) -> (items: Option<&Vec<Json>>)
        ensures
            (match items {
                Some(list) => *self == Json::Array(*list),
                None => !(self is Array),
            }),
    {
        match self {
            Json::Array(items) => Some(items),
            _ => None,
        }
    }
}

/// The place of the first member of a name, or any number if there is none.
pub proof fn first_place(members: Seq<MemberView>, key: Seq<char>) -> (place: int)
    ensures
        (match JsonView::Object(members).member(key) {
            Some(value) => {
                &&& 0 <= place < members.len()
                &&& members[place] == MemberView { name: key, value }
                &&& forall|i: int| 0 <= i < place ==> (#[trigger] members[i]).name != key
            },
            None => forall|i: int| 0 <= i < members.len() ==> (#[trigger] members[i]).name != key,
        }),
    decreases members.len(),
{
    if members.len() == 0 || members[0].name == key {
        0
    } else {
        let rest = members.drop_first();
        let place = first_place(rest, key);
        assert(forall|i: int| 0 < i < members.len() ==> #[trigger] members[i] == rest[i - 1]);
        place + 1
    }
}

/// The first member of a name is the one that is found.
pub proof fn first_member_is_found(members: Seq<MemberView>, key: Seq<char>, place: int)
    requires
        0 <= place < members.len(),
        members[place].name == key,
        forall|i: int| 0 <= i < place ==> (#[trigger] members[i]).name != key,
    ensures
        JsonView::Object(members).member(key) == Some(members[place].value),
{
    let found = first_place(members, key);
    if found < place {
        assert(members[found].name != key);
    }
}

/// A document is seen as what it is: each part by its kind, in its place.
pub proof fn parts_of_a_document_keep_their_places(json: Json)
    ensures
        (match json {
            Json::Null => json@ == JsonView::Null,
            Json::Bool(flag) => json@ == JsonView::Bool(flag),
            Json::Number(digits) => json@ == JsonView::Number(digits@),
            Json::Text(text) => json@ == JsonView::Text(text@),
            Json::Array(items) => {
                &&& json@ matches JsonView::Array(views)
                &&& views.len() == items@.len()
                &&& forall|i: int| 0 <= i < items@.len() ==> #[trigger] views[i] == items@[i]@
            },
            Json::Object(members) => {
                &&& json@ matches JsonView::Object(views)
                &&& views.len() == members@.len()
                &&& forall|i: int|
                    0 <= i < members@.len() ==> #[trigger] views[i] == (MemberView {
                        name: members@[i].name@,
                        value: members@[i].value@,
                    })
            },
        }),
{
}

/// A member of an object is had by its name: the first one, if there are several. Nothing but
/// an object has members.
pub proof fn members_are_had_by_name(json: &Json, key: &str, value: Option<&Json>)
    requires
        call_ensures(Json::get, (json, key), value),
    ensures
        (match *json {
            Json::Object(members) => {
                &&& value is Some <==> exists|i: int|
                    0 <= i < members@.len() && (#[trigger] members@[i]).name@ == key@
                &&& forall|i: int|
                    {
                        &&& 0 <= i < members@.len()
                        &&& (#[trigger] members@[i]).name@ == key@
                        &&& forall|j: int| 0 <= j < i ==> (#[trigger] members@[j]).name@ != key@
                    } ==> (value matches Some(found) && found@ == members@[i].value@)
            },
            _ => value is None,
        }),
{
    if let Json::Object(members) = *json {
        let views = json@->Object_0;
        assert(forall|i: int|
            0 <= i < members@.len() ==> (#[trigger] views[i]).name == members@[i].name@
                && views[i].value == members@[i].value@);
        let place = first_place(views, key@);
        if value is Some {
            assert(views[place].name == members@[place].name@);
        }
        assert forall|i: int|
            {
                &&& 0 <= i < members@.len()
                &&& (#[trigger] members@[i]).name@ == key@
                &&& forall|j: int| 0 <= j < i ==> (#[trigger] members@[j]).name@ != key@
            } implies (value matches Some(found) && found@ == members@[i].value@) by {
            assert(views[i].name == key@);
            assert forall|j: int| 0 <= j < i implies (#[trigger] views[j]).name != key@ by {
                assert(members@[j].name@ != key@);
            }
            first_member_is_found(views, key@, i);
        }
        if exists|i: int| 0 <= i < members@.len() && (#[trigger] members@[i]).name@ == key@ {
            let i = choose|i: int|
                0 <= i < members@.len() && (#[trigger] members@[i]).name@ == key@;
            assert(views[i].name == key@);
        }
    }
}

/// A string, and nothing else, is read as a string, with all its characters.
pub proof fn only_strings_are_read_as_strings(json: &Json, text: Option<&str>)
    requires
        call_ensures(Json::as_str, (json,), text),
    ensures
        (match *json {
            Json::Text(whole) => text matches Some(chars) && chars@ == whole@,
            _ => text is None,
        }),
{
}

} // verus!
