use serde_json::Value;
use todos::store::{
    load_todos, parse_todos, push_record, save_todos, todo_from_fields, todo_from_record,
    todos_from_document,
};
use todos::todo::{Todo, TodoList};

fn todo(text: &str, completed: bool) -> Todo {
    Todo { text: text.to_string(), completed }
}

fn list(items: Vec<Todo>) -> TodoList {
    TodoList::from_items(items)
}

fn document(text: &str) -> Value {
    serde_json::from_str::<Value>(text).unwrap()
}

const CANONICAL: &str = "[\n  {\n    \"text\": \"buy milk\",\n    \"completed\": false\n  },\n  {\n    \"text\": \"water plants\",\n    \"completed\": true\n  }\n]";

#[test]
fn missing_file_gives_empty_list() {
    assert_eq!(load_todos(None), TodoList::new());
}

#[test]
fn contents_that_are_no_json_give_empty_list() {
    assert_eq!(load_todos(Some("not json")), TodoList::new());
    assert_eq!(load_todos(Some("")), TodoList::new());
    assert_eq!(load_todos(Some("[")), TodoList::new());
    assert_eq!(load_todos(Some("[] trailing")), TodoList::new());
    assert_eq!(parse_todos("\u{0}\u{1}\u{2}"), TodoList::new());
}

#[test]
fn canonical_text_is_read() {
    let expected = list(vec![todo("buy milk", false), todo("water plants", true)]);
    assert_eq!(load_todos(Some(CANONICAL)), expected);
    assert_eq!(parse_todos(CANONICAL), expected);
}

#[test]
fn canonical_text_is_written() {
    let todos = list(vec![todo("buy milk", false), todo("water plants", true)]);
    assert_eq!(save_todos(&todos), Some(CANONICAL.to_string()));
}

#[test]
fn empty_list_is_written_as_empty_array() {
    assert_eq!(save_todos(&TodoList::new()), Some("[]".to_string()));
    assert_eq!(load_todos(Some("[]")), TodoList::new());
}

#[test]
fn single_todo_is_written_without_comma() {
    let todos = list(vec![todo("x", false)]);
    assert_eq!(
        save_todos(&todos),
        Some("[\n  {\n    \"text\": \"x\",\n    \"completed\": false\n  }\n]".to_string())
    );
}

#[test]
fn written_text_matches_serde_json_layout() {
    let todos = list(vec![todo("a \"quoted\" one", true), todo("tab\there", false)]);
    let written = save_todos(&todos).unwrap();
    let parsed = document(&written);
    assert_eq!(parsed.as_array().unwrap().len(), 2);
    assert_eq!(parsed[0]["text"].as_str(), Some("a \"quoted\" one"));
    assert_eq!(parsed[0]["completed"].as_bool(), Some(true));
    assert_eq!(parsed[1]["text"].as_str(), Some("tab\there"));
    assert_eq!(parsed[1]["completed"].as_bool(), Some(false));
}

#[test]
fn texts_are_escaped_when_written() {
    let todos = list(vec![todo("say \"hi\"\\\n", false)]);
    assert_eq!(
        save_todos(&todos),
        Some(
            "[\n  {\n    \"text\": \"say \\\"hi\\\"\\\\\\n\",\n    \"completed\": false\n  }\n]"
                .to_string()
        )
    );
}

#[test]
fn save_then_load_gives_the_list_back() {
    let cases = vec![
        vec![],
        vec![todo("buy milk", false)],
        vec![todo("a", false), todo("b", true), todo("c", false)],
        vec![todo("same", true), todo("same", true)],
        vec![todo("", false)],
        vec![todo("quote \" backslash \\ slash / newline \n tab \t bell \u{7}", true)],
        vec![todo("\u{2705} caf\u{e9} \u{1F600} \u{7f}", false), todo("1. not a number", true)],
        vec![todo("  spaces kept  ", false), todo("[{\"text\":\"x\",\"completed\":true}]", false)],
    ];
    for items in cases {
        let todos = list(items);
        let written = save_todos(&todos).unwrap();
        assert_eq!(load_todos(Some(&written)), todos);
    }
}

#[test]
fn saving_twice_gives_the_same_text() {
    let todos = list(vec![todo("a", false), todo("b", true)]);
    assert_eq!(save_todos(&todos), save_todos(&todos));
}

#[test]
fn whitespace_and_field_order_do_not_matter_on_read() {
    let expected = list(vec![todo("a", true), todo("b", false)]);
    assert_eq!(
        parse_todos("[{\"completed\":true,\"text\":\"a\"},{\"text\":\"b\",\"completed\":false}]"),
        expected
    );
    assert_eq!(
        parse_todos(
            " \n[ {\t\"text\" : \"a\" ,\r\n \"completed\" : true } , { \"text\":\"b\", \"completed\":false } ]\n "
        ),
        expected
    );
}

#[test]
fn escapes_are_read() {
    assert_eq!(
        parse_todos("[{\"text\":\"a\\u0041\\n\\\"\",\"completed\":false}]"),
        list(vec![todo("aA\n\"", false)])
    );
}

#[test]
fn other_members_of_a_record_are_passed_over() {
    assert_eq!(
        parse_todos("[{\"id\":7,\"text\":\"a\",\"tags\":[\"x\"],\"completed\":true}]"),
        list(vec![todo("a", true)])
    );
}

#[test]
fn documents_of_another_shape_give_empty_list() {
    let shapes = vec![
        "{}",
        "null",
        "true",
        "3",
        "\"text\"",
        "{\"text\":\"a\",\"completed\":false}",
        "[1]",
        "[null]",
        "[\"a\"]",
        "[[]]",
        "[{}]",
        "[{\"text\":\"a\"}]",
        "[{\"completed\":false}]",
        "[{\"text\":1,\"completed\":false}]",
        "[{\"text\":null,\"completed\":false}]",
        "[{\"text\":\"a\",\"completed\":\"false\"}]",
        "[{\"text\":\"a\",\"completed\":0}]",
        "[{\"text\":\"a\",\"completed\":null}]",
        "[{\"Text\":\"a\",\"Completed\":false}]",
    ];
    for shape in shapes {
        assert_eq!(parse_todos(shape), TodoList::new(), "{}", shape);
    }
}

#[test]
fn one_bad_record_spoils_the_whole_list() {
    assert_eq!(
        parse_todos("[{\"text\":\"a\",\"completed\":false},{\"text\":\"b\"}]"),
        TodoList::new()
    );
    assert_eq!(
        parse_todos("[{\"text\":\"a\"},{\"text\":\"b\",\"completed\":true}]"),
        TodoList::new()
    );
}

#[test]
fn record_is_read_from_a_document() {
    assert_eq!(
        todo_from_record(&document("{\"text\":\"a\",\"completed\":true}")),
        Some(todo("a", true))
    );
    assert_eq!(
        todo_from_record(&document("{\"completed\":false,\"text\":\"\"}")),
        Some(todo("", false))
    );
    assert_eq!(todo_from_record(&document("{\"text\":\"a\"}")), None);
    assert_eq!(todo_from_record(&document("{\"text\":\"a\",\"completed\":1}")), None);
    assert_eq!(todo_from_record(&document("{\"text\":[],\"completed\":true}")), None);
    assert_eq!(todo_from_record(&document("[\"a\",true]")), None);
    assert_eq!(todo_from_record(&document("\"a\"")), None);
    assert_eq!(todo_from_record(&Value::Null), None);
}

#[test]
fn list_is_read_from_a_document() {
    assert_eq!(todos_from_document(&document("[]")), Some(TodoList::new()));
    assert_eq!(
        todos_from_document(&document(
            "[{\"text\":\"a\",\"completed\":true},{\"text\":\"b\",\"completed\":false}]"
        )),
        Some(list(vec![todo("a", true), todo("b", false)]))
    );
    assert_eq!(todos_from_document(&document("{}")), None);
    assert_eq!(todos_from_document(&document("[{\"text\":\"a\"}]")), None);
    assert_eq!(todos_from_document(&Value::Bool(true)), None);
    let built = Value::Array(vec![document("{\"text\":\"x\",\"completed\":false}")]);
    assert_eq!(todos_from_document(&built), Some(list(vec![todo("x", false)])));
}

#[test]
fn corrupt_file_is_replaced_by_the_next_save() {
    let mut todos = load_todos(Some("not json"));
    assert_eq!(todos, TodoList::new());
    todos.add("x".to_string());
    let written = save_todos(&todos).unwrap();
    assert_eq!(load_todos(Some(&written)), list(vec![todo("x", false)]));
}

#[test]
fn todo_needs_both_members() {
    assert_eq!(todo_from_fields(Some("a"), Some(true)), Some(todo("a", true)));
    assert_eq!(todo_from_fields(Some(""), Some(false)), Some(todo("", false)));
    assert_eq!(todo_from_fields(None, Some(true)), None);
    assert_eq!(todo_from_fields(Some("a"), None), None);
    assert_eq!(todo_from_fields(None, None), None);
}

#[test]
fn record_is_written_on_four_lines() {
    let mut out = "[\n".to_string();
    push_record(&mut out, "\"a\"", true);
    assert_eq!(out, "[\n  {\n    \"text\": \"a\",\n    \"completed\": true\n  }");
    let mut other = String::new();
    push_record(&mut other, "\"\"", false);
    assert_eq!(other, "  {\n    \"text\": \"\",\n    \"completed\": false\n  }");
}
