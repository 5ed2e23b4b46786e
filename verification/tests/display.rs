use todos::display::{chosen_index, display_line, display_lines, field_end, status_marker};
use todos::number::chars_of;
use todos::todo::{Todo, TodoList};

fn todo(text: &str, completed: bool) -> Todo {
    Todo { text: text.to_string(), completed }
}

#[test]
fn markers_are_check_and_square() {
    assert_eq!(status_marker(true), "\u{2705}");
    assert_eq!(status_marker(false), "\u{2B1C}");
}

#[test]
fn line_shows_number_marker_and_text() {
    assert_eq!(display_line(1, &todo("buy milk", false)), "1. \u{2B1C} buy milk");
    assert_eq!(display_line(12, &todo("water plants", true)), "12. \u{2705} water plants");
    assert_eq!(display_line(3, &todo("", false)), "3. \u{2B1C} ");
    assert_eq!(display_line(2, &todo("  a.b  ", true)), "2. \u{2705}   a.b  ");
}

#[test]
fn lines_are_numbered_from_one() {
    let list = TodoList::from_items(vec![todo("a", false), todo("b", true), todo("c", false)]);
    assert_eq!(
        display_lines(&list),
        vec![
            "1. \u{2B1C} a".to_string(),
            "2. \u{2705} b".to_string(),
            "3. \u{2B1C} c".to_string(),
        ]
    );
    assert_eq!(display_lines(&TodoList::new()), Vec::<String>::new());
}

#[test]
fn field_ends_at_the_first_period() {
    assert_eq!(field_end(&chars_of("12. a.b")), 2);
    assert_eq!(field_end(&chars_of(".x")), 0);
    assert_eq!(field_end(&chars_of("abc")), 3);
    assert_eq!(field_end(&chars_of("")), 0);
    assert_eq!(field_end(&chars_of("\u{2705}\u{2705}.")), 2);
}

#[test]
fn chosen_line_names_its_position() {
    assert_eq!(chosen_index("1. \u{2B1C} buy milk", 1), Some(0));
    assert_eq!(chosen_index("1. \u{2705} buy milk", 1), Some(0));
    assert_eq!(chosen_index("2. \u{2B1C} b", 3), Some(1));
    assert_eq!(chosen_index("3. \u{2B1C} 1. x", 3), Some(2));
    assert_eq!(chosen_index("10. \u{2705} a.b.c", 10), Some(9));
    assert_eq!(chosen_index("3", 3), Some(2));
    assert_eq!(chosen_index("+2. x", 2), Some(1));
    assert_eq!(chosen_index("02. x", 2), Some(1));
}

#[test]
fn line_outside_the_list_names_nothing() {
    assert_eq!(chosen_index("0. x", 3), None);
    assert_eq!(chosen_index("4. x", 3), None);
    assert_eq!(chosen_index("1. x", 0), None);
    assert_eq!(chosen_index("99999999999999999999999999. x", usize::MAX), None);
}

#[test]
fn line_without_leading_number_names_nothing() {
    for line in ["", ".", ". 1", "a. x", " 1. x", "1 . x", "-1. x", "1a. x", "\u{2B1C} 1. x", "one. x"] {
        assert_eq!(chosen_index(line, 5), None, "{:?}", line);
    }
}

#[test]
fn every_shown_line_leads_back_to_its_entry() {
    let mut items = Vec::new();
    for i in 0..120 {
        items.push(todo(&format!("{}. task.{}", 120 - i, i), i % 3 == 0));
    }
    let list = TodoList::from_items(items);
    let shown = display_lines(&list);
    assert_eq!(shown.len(), 120);
    for (i, line) in shown.iter().enumerate() {
        assert_eq!(chosen_index(line, list.len()), Some(i));
    }
}
