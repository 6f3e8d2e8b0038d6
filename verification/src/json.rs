//! JSON documents as trees.

use serde_json::{Number, Value};
use vstd::prelude::*;
use vstd::string::StringExecFns;

verus! {

/// A JSON document.
#[derive(Debug, PartialEq, Eq)]
pub enum Json {
    Null,
    Bool(bool),
    /// A number that is a whole number from zero to `u64::MAX`.
    Unsigned(u64),
    /// Any other number: one below zero, or one with a fraction or an
    /// exponent. Its value is not kept.
    OtherNumber,
    Text(String),
    List(Vec<Json>),
    /// An object: its members, in order.
    Record(Vec<Member>),
}

/// A member of an object.
#[derive(Debug, PartialEq, Eq)]
pub struct Member {
    pub name: String,
    pub value: Json,
}

/// The mathematical value of a [`Json`].
pub enum JsonView {
    Null,
    Bool(bool),
    Unsigned(u64),
    OtherNumber,
    Text(Seq<char>),
    List(Seq<JsonView>),
    Record(Seq<(Seq<char>, JsonView)>),
}

/// The value of a tree.
pub open spec fn json_view(tree: Json) -> JsonView
    decreases tree,
{
    match tree {
        Json::Null => JsonView::Null,
        Json::Bool(flag) => JsonView::Bool(flag),
        Json::Unsigned(number) => JsonView::Unsigned(number),
        Json::OtherNumber => JsonView::OtherNumber,
        Json::Text(text) => JsonView::Text(text@),
        Json::List(items) => JsonView::List(
            Seq::new(
                items@.len(),
                |i: int|
                    if 0 <= i < items@.len() {
                        json_view(items@[i])
                    } else {
                        JsonView::Null
                    },
            ),
        ),
        Json::Record(members) => JsonView::Record(
            Seq::new(
                members@.len(),
                |i: int|
                    if 0 <= i < members@.len() {
                        (members@[i].name@, json_view(members@[i].value))
                    } else {
                        (Seq::empty(), JsonView::Null)
                    },
            ),
        ),
    }
}

impl View for Json {
    type V = JsonView;

    open spec fn view(&self) -> JsonView {
        json_view(*self)
    }
}

/// The values of a list of trees, one for one.
pub open spec fn items_view(items: Seq<Json>) -> Seq<JsonView> {
    Seq::new(items.len(), |i: int| items[i]@)
}

/// The values of a list of members, one for one: each a name and a tree.
pub open spec fn members_view(members: Seq<Member>) -> Seq<(Seq<char>, JsonView)> {
    Seq::new(members.len(), |i: int| (members[i].name@, members[i].value@))
}

/// The value of a list is the list of the values of its items.
pub proof fn lemma_list_view(items: Vec<Json>)
    ensures
        Json::List(items)@ == JsonView::List(items_view(items@)),
{
    assert(Json::List(items)@->List_0 =~= items_view(items@));
}

/// The value of an object is the list of the values of its members.
pub proof fn lemma_record_view(members: Vec<Member>)
    ensures
        Json::Record(members)@ == JsonView::Record(members_view(members@)),
{
    assert(Json::Record(members)@->Record_0 =~= members_view(members@));
}

/// The values of a list that grew by one tree.
pub proof fn lemma_items_view_push(items: Seq<Json>, item: Json)
    ensures
        items_view(items.push(item)) == items_view(items).push(item@),
{
    assert(items_view(items.push(item)) =~= items_view(items).push(item@));
}

/// A list of the given items.
pub fn list(items: Vec<Json>) -> (tree: Json)
    ensures
        tree@ == JsonView::List(items_view(items@)),
{
    proof {
        lemma_list_view(items);
    }
    Json::List(items)
}

/// An object of the given members.
pub fn record(members: Vec<Member>) -> (tree: Json)
    ensures
        tree@ == JsonView::Record(members_view(members@)),
{
    proof {
        lemma_record_view(members);
    }
    Json::Record(members)
}

/// A string.
pub fn text(content: &str) -> (tree: Json)
    ensures
        tree@ == JsonView::Text(content@),
{
    Json::Text(String::from_str(content))
}

/// A member with the given name.
pub fn member(name: &str, value: Json) -> (made: Member)
    ensures
        made.name@ == name@,
        made.value == value,
{
    Member { name: String::from_str(name), value }
}

/// A tree that can be written: one without a number whose value was not kept.
pub open spec fn printable(tree: JsonView) -> bool
    decreases tree,
{
    match tree {
        JsonView::OtherNumber => false,
        JsonView::List(items) => forall|i: int|
            0 <= i < items.len() ==> printable(#[trigger] items[i]),
        JsonView::Record(members) => forall|i: int|
            0 <= i < members.len() ==> printable((#[trigger] members[i]).1),
        _ => true,
    }
}

/// `serde_json::Value`, declared so that a value can be passed from one call
/// into the crate to the next. Nothing inside it is visible here.
#[verifier::external_type_specification]
#[verifier::external_body]
pub struct ExValue(serde_json::Value);

/// What `serde_json::from_str` makes of a text: the document, or the message
/// of the error with which it refuses the text.
pub uninterp spec fn parsed_value(text: Seq<char>) -> Result<Value, Seq<char>>;

/// The tree that a `serde_json::Value` holds.
pub uninterp spec fn value_tree(value: Value) -> JsonView;

/// The `serde_json::Value` that is built from a tree.
pub uninterp spec fn tree_value(tree: JsonView) -> Value;

/// The compact text that `serde_json` writes for a value.
pub uninterp spec fn value_text(value: Value) -> Seq<char>;

/// Calls `serde_json::from_str` for a `serde_json::Value`, and turns an
/// error into its message. What comes back depends on the text alone; the
/// contract gives it its name and claims nothing else.
#[verifier::external_body]
fn parse_value(text: &str) -> (parsed: Result<Value, String>)
    ensures
        match parsed {
            Ok(value) => parsed_value(text@) == Ok::<Value, Seq<char>>(value),
            Err(message) => parsed_value(text@) == Err::<Value, Seq<char>>(message@),
        },
{
    serde_json::from_str::<Value>(text).map_err(|error| error.to_string())
}

/// Copies a `serde_json::Value` into a tree, variant for variant. A number
/// becomes `Unsigned` where `serde_json::Number::as_u64` gives its value, and
/// `OtherNumber` where it gives none. The members of an object come in the
/// order in which `serde_json::Map::iter` hands them out. The contract names
/// the result and claims nothing else.
#[verifier::external_body]
fn tree_of_value(value: &Value) -> (tree: Json)
    ensures
        tree@ == value_tree(*value),
{
    match value {
        Value::Null => Json::Null,
        Value::Bool(flag) => Json::Bool(*flag),
        Value::Number(number) => number.as_u64().map_or(Json::OtherNumber, Json::Unsigned),
        Value::String(text) => Json::Text(text.clone()),
        Value::Array(items) => Json::List(items.iter().map(tree_of_value).collect()),
        Value::Object(map) => Json::Record(
            map.iter()
                .map(|(name, value)| Member { name: name.clone(), value: tree_of_value(value) })
                .collect(),
        ),
    }
}

/// Builds a `serde_json::Value` from a tree, variant for variant; the
/// members of an object are collected into a `serde_json::Map`. A tree with
/// an `OtherNumber` has no value and is left out by the `requires`. The
/// contract names the result and claims nothing else.
#[verifier::external_body]
fn value_of_tree(tree: &Json) -> (value: Value)
    requires
        printable(tree@),
    ensures
        value == tree_value(tree@),
{
    match tree {
        Json::Null | Json::OtherNumber => Value::Null,
        Json::Bool(flag) => Value::Bool(*flag),
        Json::Unsigned(number) => Value::Number(Number::from(*number)),
        Json::Text(text) => Value::String(text.clone()),
        Json::List(items) => Value::Array(items.iter().map(value_of_tree).collect()),
        Json::Record(members) => Value::Object(
            members.iter()
                .map(|member| (member.name.clone(), value_of_tree(&member.value)))
                .collect(),
        ),
    }
}

/// Writes a value through the `Display` of `serde_json::Value`, which gives
/// the compact form. The contract names the text and claims nothing else.
#[verifier::external_body]
fn print_value(value: &Value) -> (text: String)
    ensures
        text@ == value_text(*value),
{
    value.to_string()
}

/// What reading a text gives: the tree of the document, or the message of
/// the error.
pub open spec fn parse_model(text: Seq<char>) -> Result<JsonView, Seq<char>> {
    match parsed_value(text) {
        Ok(value) => Ok(value_tree(value)),
        Err(message) => Err(message),
    }
}

/// The text that is written for a tree.
pub open spec fn print_model(tree: JsonView) -> Seq<char> {
    value_text(tree_value(tree))
}

/// The text of a parse result.
pub open spec fn parse_result_view(parsed: Result<Json, String>) -> Result<JsonView, Seq<char>> {
    match parsed {
        Ok(tree) => Ok(tree@),
        Err(message) => Err(message@),
    }
}

/// Reads a JSON document from `text`. Blank space around the document is
/// accepted; anything else that is not one document is an error, which
/// comes back as its message.
pub fn parse(text: &str) -> (parsed: Result<Json, String>)
    ensures
        parse_result_view(parsed) == parse_model(text@),
{
    match parse_value(text) {
        Ok(value) => Ok(tree_of_value(&value)),
        Err(message) => Err(message),
    }
}

/// Whether every tree of a list can be written.
pub open spec fn all_printable(items: Seq<JsonView>) -> bool {
    forall|i: int| 0 <= i < items.len() ==> printable(#[trigger] items[i])
}

/// Whether the tree of every member of a list can be written.
pub open spec fn all_members_printable(members: Seq<(Seq<char>, JsonView)>) -> bool {
    forall|i: int| 0 <= i < members.len() ==> printable((#[trigger] members[i]).1)
}

/// A list can be written exactly if each of its items can, and an object
/// exactly if the tree of each of its members can.
pub proof fn lemma_printable_parts(items: Seq<JsonView>, members: Seq<(Seq<char>, JsonView)>)
    ensures
        printable(JsonView::List(items)) == all_printable(items),
        printable(JsonView::Record(members)) == all_members_printable(members),
{
    assert(JsonView::List(items)->List_0 == items);
    assert(JsonView::Record(members)->Record_0 == members);
}

/// Whether a tree can be written.
pub fn is_printable(tree: &Json) -> (can: bool)
    ensures
        can == printable(tree@),
    decreases tree,
{
    match tree {
        Json::OtherNumber => false,
        Json::List(items) => {
            proof {
                lemma_list_view(*items);
            }
            let mut i: usize = 0;
            while i < items.len()
                invariant
                    i <= items.len(),
                    *tree == Json::List(*items),
                    tree@ == JsonView::List(items_view(items@)),
                    forall|j: int| 0 <= j < i ==> printable(#[trigger] items_view(items@)[j]),
                decreases items.len() - i,
            {
                if !is_printable(&items[i]) {
                    proof {
                        lemma_printable_parts(items_view(items@), Seq::empty());
                        assert(!printable(items_view(items@)[i as int]));
                    }
                    return false;
                }
                i += 1;
            }
            true
        },
        Json::Record(members) => {
            proof {
                lemma_record_view(*members);
            }
            let mut i: usize = 0;
            while i < members.len()
                invariant
                    i <= members.len(),
                    *tree == Json::Record(*members),
                    tree@ == JsonView::Record(members_view(members@)),
                    forall|j: int|
                        0 <= j < i ==> printable((#[trigger] members_view(members@)[j]).1),
                decreases members.len() - i,
            {
                if !is_printable(&members[i].value) {
                    proof {
                        lemma_printable_parts(Seq::empty(), members_view(members@));
                        assert(!printable(members_view(members@)[i as int].1));
                    }
                    return false;
                }
                i += 1;
            }
            true
        },
        _ => true,
    }
}

/// Writes a tree as compact JSON text, on one line.
pub fn print(tree: &Json) -> (text: String)
    requires
        printable(tree@),
    ensures
        text@ == print_model(tree@),
{
    let value = value_of_tree(tree);
    print_value(&value)
}

/// Writes a tree as compact JSON text if it can be written: `None` exactly
/// where the tree holds a number whose value was not kept.
pub fn try_print(tree: &Json) -> (text: Option<String>)
    ensures
        text is Some <==> printable(tree@),
        text matches Some(written) ==> written@ == print_model(tree@),
{
    if is_printable(tree) {
        Some(print(tree))
    } else {
        None
    }
}

} // verus!
