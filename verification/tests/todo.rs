use todos::todo::{Todo, TodoList};

fn todo(text: &str, completed: bool) -> Todo {
    Todo { text: text.to_string(), completed }
}

fn abc() -> TodoList {
    TodoList::from_items(vec![todo("a", false), todo("b", false), todo("c", false)])
}

#[test]
fn new_list_is_empty() {
    let list = TodoList::new();
    assert_eq!(list.len(), 0);
    assert!(list.is_empty());
    assert_eq!(list.get(0), None);
    assert_eq!(list.items(), &Vec::<Todo>::new());
}

#[test]
fn added_todos_are_open_and_keep_their_order() {
    let mut list = TodoList::new();
    list.add("t1".to_string());
    list.add("t2".to_string());
    list.add("t1".to_string());
    assert_eq!(list.items(), &vec![todo("t1", false), todo("t2", false), todo("t1", false)]);
    assert_eq!(list.len(), 3);
    assert!(!list.is_empty());
}

#[test]
fn text_is_kept_as_entered() {
    let mut list = TodoList::new();
    list.add("  padded \t".to_string());
    list.add("".to_string());
    assert_eq!(list.get(0), Some(&todo("  padded \t", false)));
    assert_eq!(list.get(1), Some(&todo("", false)));
}

#[test]
fn put_keeps_the_todo_as_it_is() {
    let mut list = TodoList::new();
    list.put(todo("done", true));
    assert_eq!(list.items(), &vec![todo("done", true)]);
}

#[test]
fn toggle_flips_one_entry() {
    let mut list = abc();
    assert_eq!(list.toggle(1), Some(true));
    assert_eq!(list.items(), &vec![todo("a", false), todo("b", true), todo("c", false)]);
}

#[test]
fn toggle_twice_restores_the_list() {
    for index in 0..3 {
        let mut list = abc();
        assert_eq!(list.toggle(index), Some(true));
        assert_eq!(list.toggle(index), Some(false));
        assert_eq!(list, abc());
    }
}

#[test]
fn toggle_outside_the_list_changes_nothing() {
    let mut list = abc();
    assert_eq!(list.toggle(3), None);
    assert_eq!(list.toggle(usize::MAX), None);
    assert_eq!(list, abc());
    let mut empty = TodoList::new();
    assert_eq!(empty.toggle(0), None);
    assert_eq!(empty, TodoList::new());
}

#[test]
fn remove_shifts_later_entries_down() {
    let mut list = abc();
    assert_eq!(list.remove(1), Some(todo("b", false)));
    assert_eq!(list.items(), &vec![todo("a", false), todo("c", false)]);
    assert_eq!(list.len(), 2);
    assert_eq!(list.get(1), Some(&todo("c", false)));
}

#[test]
fn remove_first_and_last() {
    let mut list = abc();
    assert_eq!(list.remove(0), Some(todo("a", false)));
    assert_eq!(list.remove(1), Some(todo("c", false)));
    assert_eq!(list.items(), &vec![todo("b", false)]);
    assert_eq!(list.remove(0), Some(todo("b", false)));
    assert!(list.is_empty());
}

#[test]
fn remove_outside_the_list_changes_nothing() {
    let mut list = abc();
    assert_eq!(list.remove(3), None);
    assert_eq!(list, abc());
}

#[test]
fn clone_is_equal() {
    let item = todo("a", true);
    assert_eq!(item.clone(), item);
    let list = abc();
    assert_eq!(list.clone(), list);
}
