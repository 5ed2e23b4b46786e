//! The list as stored text: reading it from a JSON document and writing it
//! as one.

use crate::json::{
    elements, field_of, flag, flag_of, items_of, json_of, jsons_of, member, parse_document,
    parsed_json, quote, string_literal, text, text_of, Json,
};
use crate::todo::{Todo, TodoList, TodoView};
use serde_json::Value;
use vstd::prelude::*;

verus! {

/// The todo that two members make, as far as they were found: the text
/// under `text` and the flag under `completed`. `None` where either is
/// missing.
pub open spec fn fields_todo(text: Option<Seq<char>>, completed: Option<bool>) -> Option<
    TodoView,
> {
    match (text, completed) {
        (Some(words), Some(flag)) => Some(TodoView { text: words, completed: flag }),
        _ => None,
    }
}

/// The string that a document holds under `key`; `None` where it is no
/// object, has no such member, or the member is no string.
pub open spec fn member_text(record: Json, key: Seq<char>) -> Option<Seq<char>> {
    match member(record, key) {
        Some(found) => text(found),
        None => None,
    }
}

/// The boolean that a document holds under `key`; `None` where it is no
/// object, has no such member, or the member is no boolean.
pub open spec fn member_flag(record: Json, key: Seq<char>) -> Option<bool> {
    match member(record, key) {
        Some(found) => flag(found),
        None => None,
    }
}

/// The todo that a document stands for: an object with a string under
/// `text` and a boolean under `completed`. Other members do not count.
/// `None` for every other document.
pub open spec fn record_todo(record: Json) -> Option<TodoView> {
    fields_todo(member_text(record, "text"@), member_flag(record, "completed"@))
}

/// The list that a document stands for: an array whose elements all stand
/// for todos, taken in order. `None` for every other document.
pub open spec fn document_todos(document: Json) -> Option<Seq<TodoView>> {
    match elements(document) {
        Some(records) => if forall|i: int|
            0 <= i < records.len() ==> (#[trigger] record_todo(records[i])) is Some {
            Some(Seq::new(records.len(), |i: int| record_todo(records[i]).unwrap()))
        } else {
            None
        },
        None => None,
    }
}

/// The list that a stored text holds; the empty list where the text is no
/// JSON or its document stands for no list.
pub open spec fn stored_todos(contents: Seq<char>) -> Seq<TodoView> {
    match parsed_json(contents) {
        Some(document) => match document_todos(document) {
            Some(list) => list,
            None => Seq::empty(),
        },
        None => Seq::empty(),
    }
}

/// The list that a file gives which held `contents`, or did not exist.
pub open spec fn loaded_todos(contents: Option<Seq<char>>) -> Seq<TodoView> {
    match contents {
        Some(text) => stored_todos(text),
        None => Seq::empty(),
    }
}

/// `true` and `false` as JSON writes them.
pub open spec fn flag_text(completed: bool) -> Seq<char> {
    if completed {
        "true"@
    } else {
        "false"@
    }
}

/// One todo as a stored record: an object on four lines, indented by two
/// spaces, its members by four, the text as the literal that is given.
pub open spec fn record_text(literal: Seq<char>, completed: bool) -> Seq<char> {
    "  {\n    \"text\": "@ + literal + ",\n    \"completed\": "@ + flag_text(completed) + "\n  }"@
}

/// Whether every text of the list can be written as a JSON string.
pub open spec fn writable(list: Seq<TodoView>) -> bool {
    forall|i: int| 0 <= i < list.len() ==> string_literal(#[trigger] list[i].text) is Some
}

/// The records of a list, a comma and a line break between one and the
/// next.
pub open spec fn records_text(list: Seq<TodoView>) -> Seq<char>
    decreases list.len(),
{
    if list.len() == 0 {
        Seq::empty()
    } else if list.len() == 1 {
        record_text(string_literal(list[0].text).unwrap(), list[0].completed)
    } else {
        records_text(list.drop_last()) + ",\n"@ + record_text(
            string_literal(list.last().text).unwrap(),
            list.last().completed,
        )
    }
}

/// The stored text of a list: `[]` for the empty list, else the records
/// between a bracket line above and a bracket line below.
pub open spec fn document_text(list: Seq<TodoView>) -> Seq<char> {
    if list.len() == 0 {
        "[]"@
    } else {
        "[\n"@ + records_text(list) + "\n]"@
    }
}

/// What is to be written for a list: its stored text, or `None` where one
/// of its texts cannot be written.
pub open spec fn saved_text(list: Seq<TodoView>) -> Option<Seq<char>> {
    if writable(list) {
        Some(document_text(list))
    } else {
        None
    }
}

/// The object that holds a todo's text under `text` and its flag under
/// `completed`, and nothing else.
pub open spec fn todo_record(todo: TodoView) -> Json {
    Json::Object(
        map!["text"@ => Json::Text(todo.text), "completed"@ => Json::Bool(todo.completed)],
    )
}

/// The array of the records of a list, in order.
pub open spec fn list_document(list: Seq<TodoView>) -> Json {
    Json::Array(Seq::new(list.len(), |i: int| todo_record(list[i])))
}

/// The array of a list's records stands for that list: every todo comes
/// back with its text and its flag, at its place.
pub proof fn lemma_document_reads_back(list: Seq<TodoView>)
    ensures
        document_todos(list_document(list)) == Some(list),
{
    reveal_strlit("text");
    reveal_strlit("completed");
    assert("text"@.len() != "completed"@.len());
    let records = Seq::new(list.len(), |i: int| todo_record(list[i]));
    assert forall|i: int| 0 <= i < records.len() implies (#[trigger] record_todo(records[i]))
        == Some(list[i]) by {
        assert(member(records[i], "text"@) == Some(Json::Text(list[i].text)));
        assert(member(records[i], "completed"@) == Some(Json::Bool(list[i].completed)));
    }
    assert(document_todos(list_document(list)).unwrap() =~= list);
}

/// A file that does not exist gives the empty list.
pub proof fn lemma_missing_file_is_empty()
    ensures
        loaded_todos(None) == Seq::<TodoView>::empty(),
{
}

/// Contents that are no JSON, or whose document stands for no list, give
/// the empty list.
pub proof fn lemma_unreadable_contents_are_empty(contents: Seq<char>)
    requires
        parsed_json(contents) matches Some(document) ==> document_todos(document) is None,
    ensures
        stored_todos(contents) == Seq::<TodoView>::empty(),
        loaded_todos(Some(contents)) == Seq::<TodoView>::empty(),
{
}

/// The todo that two members make: the text found under `text` and the
/// flag found under `completed`. `None` where either was not found.
pub fn todo_from_fields(text: Option<&str>, completed: Option<bool>) -> (todo: Option<Todo>)
    ensures
        todo.deep_view() == fields_todo(text.deep_view(), completed),
{
    match (text, completed) {
        (Some(words), Some(flag)) => Some(Todo { text: words.to_owned(), completed: flag }),
        _ => None,
    }
}

/// The todo that a JSON value stands for, if it stands for one.
pub fn todo_from_record(record: &Value) -> (todo: Option<Todo>)
    ensures
        todo.deep_view() == record_todo(json_of(*record)),
{
    let text = match field_of(record, "text") {
        Some(member) => text_of(member),
        None => None,
    };
    let completed = match field_of(record, "completed") {
        Some(member) => flag_of(member),
        None => None,
    };
    todo_from_fields(text, completed)
}

/// The list that a JSON document stands for, if it stands for one: every
/// element of the array must stand for a todo.
pub fn todos_from_document(document: &Value) -> (todos: Option<TodoList>)
    ensures
        todos.deep_view() == document_todos(json_of(*document)),
{
    match items_of(document) {
        Some(items) => {
            let mut list = TodoList::new();
            let mut i: usize = 0;
            while i < items.len()
                invariant
                    i <= items.len(),
                    elements(json_of(*document)) == Some(jsons_of(items@)),
                    list@.len() == i,
                    forall|j: int|
                        0 <= j < i ==> (#[trigger] record_todo(jsons_of(items@)[j])) == Some(
                            list@[j],
                        ),
                decreases items.len() - i,
            {
                assert(jsons_of(items@)[i as int] == json_of(items@[i as int]));
                match todo_from_record(&items[i]) {
                    Some(todo) => {
                        list.put(todo);
                    },
                    None => {
                        return None;
                    },
                }
                i += 1;
            }
            Some(list)
        },
        None => None,
    }
}

/// The list that a stored text holds. A text that is no JSON, or that
/// stands for no list, gives the empty list.
pub fn parse_todos(text: &str) -> (todos: TodoList)
    ensures
        todos@ == stored_todos(text@),
{
    match parse_document(text) {
        Some(document) => match todos_from_document(&document) {
            Some(list) => list,
            None => TodoList::new(),
        },
        None => TodoList::new(),
    }
}

/// The list to start from, given what the file held: `None` stands for a
/// file that does not exist and gives the empty list, as does a file whose
/// contents hold no list.
pub fn load_todos(contents: Option<&str>) -> (todos: TodoList)
    ensures
        todos@ == loaded_todos(contents.deep_view()),
{
    match contents {
        Some(text) => parse_todos(text),
        None => TodoList::new(),
    }
}

/// Writes one record at the end of `out`, given the literal of its text.
pub fn push_record(out: &mut String, literal: &str, completed: bool)
    ensures
        final(out)@ == old(out)@ + record_text(literal@, completed),
{
    out.append("  {\n    \"text\": ");
    out.append(literal);
    out.append(",\n    \"completed\": ");
    out.append(if completed {
        "true"
    } else {
        "false"
    });
    out.append("\n  }");
}

/// The text to write for the list, or `None` where a text of the list
/// cannot be written as a JSON string; nothing is to be written then.
pub fn save_todos(todos: &TodoList) -> (text: Option<String>)
    ensures
        text.deep_view() == saved_text(todos@),
{
    let count = todos.len();
    if count == 0 {
        return Some("[]".to_owned());
    }
    let mut out = "[\n".to_owned();
    let mut i: usize = 0;
    while i < count
        invariant
            i <= count,
            count == todos@.len(),
            count > 0,
            writable(todos@.take(i as int)),
            out@ == "[\n"@ + records_text(todos@.take(i as int)),
        decreases count - i,
    {
        match todos.get(i) {
            Some(todo) => {
                match quote(todo.text.as_str()) {
                    Some(literal) => {
                        if i > 0 {
                            out.append(",\n");
                        }
                        push_record(&mut out, literal.as_str(), todo.completed);
                        proof {
                            let before = todos@.take(i as int);
                            let after = todos@.take(i + 1);
                            assert(after.drop_last() =~= before);
                            assert forall|j: int| 0 <= j < after.len() implies string_literal(
                                #[trigger] after[j].text,
                            ) is Some by {
                                if j < i {
                                    assert(after[j] == before[j]);
                                }
                            }
                        }
                    },
                    None => {
                        assert(string_literal(todos@[i as int].text) is None);
                        return None;
                    },
                }
            },
            None => {},
        }
        i += 1;
    }
    assert(todos@.take(count as int) =~= todos@);
    out.append("\n]");
    Some(out)
}

} // verus!
