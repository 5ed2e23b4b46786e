//! How the list is shown as numbered lines, and how a chosen line leads
//! back to its entry.

use crate::number::{
    chars_of, decimal, decimal_text, is_digit, lemma_decimal_reads_back, numeral_value,
    parse_prefix,
};
use crate::todo::{Todo, TodoList, TodoView};
use vstd::prelude::*;

verus! {

/// The glyph in front of a todo's text: a green check mark for a done
/// entry, a white square for an open one.
pub open spec fn marker(completed: bool) -> Seq<char> {
    if completed {
        "\u{2705}"@
    } else {
        "\u{2B1C}"@
    }
}

/// The line that shows a todo under its number: the number, a period, the
/// marker and the text, single spaces between them.
pub open spec fn line(number: nat, todo: TodoView) -> Seq<char> {
    decimal(number) + ". "@ + marker(todo.completed) + " "@ + todo.text
}

/// The lines that show a list: one per entry, in order, numbered from one.
pub open spec fn lines(list: Seq<TodoView>) -> Seq<Seq<char>> {
    Seq::new(list.len(), |i: int| line((i + 1) as nat, list[i]))
}

/// How many characters stand before the first period of `s`; its whole
/// length where it has no period.
pub open spec fn field_len(s: Seq<char>) -> nat
    decreases s.len(),
{
    if s.len() == 0 || s[0] == '.' {
        0
    } else {
        1 + field_len(s.skip(1))
    }
}

/// What stands before the first period of `s`.
pub open spec fn leading_field(s: Seq<char>) -> Seq<char> {
    s.take(field_len(s) as int)
}

/// The position that a chosen line names in a list of `len` entries: what
/// stands before its first period, read as a number counted from one, where
/// that number lies within the list. `None` for every other line.
pub open spec fn chosen(selected: Seq<char>, len: nat) -> Option<nat> {
    match numeral_value(leading_field(selected)) {
        Some(number) => if 1 <= number <= len {
            Some((number - 1) as nat)
        } else {
            None
        },
        None => None,
    }
}

/// `field_len` is the one position that has no period before it and either
/// a period at it or the end of the text.
pub proof fn lemma_field_len(s: Seq<char>, k: int)
    requires
        0 <= k <= s.len(),
        forall|j: int| 0 <= j < k ==> s[j] != '.',
        k == s.len() || s[k] == '.',
    ensures
        field_len(s) == k,
    decreases k,
{
    if k > 0 {
        lemma_field_len(s.skip(1), k - 1);
    }
}

/// Each line that shows a list leads back to the position of the entry it
/// was made for.
pub proof fn lemma_shown_line_leads_back(list: Seq<TodoView>, index: int)
    requires
        0 <= index < list.len(),
    ensures
        chosen(lines(list)[index], list.len()) == Some(index as nat),
{
    let number = (index + 1) as nat;
    let numeral = decimal(number);
    let shown = line(number, list[index]);
    lemma_decimal_reads_back(number);
    reveal_strlit(". ");
    assert forall|j: int| 0 <= j < numeral.len() implies shown[j] != '.' by {
        assert(is_digit(numeral[j]));
    }
    lemma_field_len(shown, numeral.len() as int);
    assert(leading_field(shown) =~= numeral);
}

/// The marker for a done or an open entry.
pub fn status_marker(completed: bool) -> (glyph: &'static str)
    ensures
        glyph@ == marker(completed),
{
    if completed {
        "\u{2705}"
    } else {
        "\u{2B1C}"
    }
}

/// The line that shows `todo` under `number`.
pub fn display_line(number: usize, todo: &Todo) -> (text: String)
    ensures
        text@ == line(number as nat, todo@),
{
    let mut text = decimal_text(number);
    text.append(". ");
    text.append(status_marker(todo.completed));
    text.append(" ");
    text.append(todo.text.as_str());
    text
}

/// The lines that show the whole list, numbered from one.
pub fn display_lines(list: &TodoList) -> (shown: Vec<String>)
    ensures
        shown.deep_view() == lines(list@),
{
    let mut shown: Vec<String> = Vec::new();
    let count = list.len();
    let mut i: usize = 0;
    while i < count
        invariant
            i <= count,
            count == list@.len(),
            shown@.len() == i,
            forall|j: int| 0 <= j < i ==> (#[trigger] shown@[j])@ == line((j + 1) as nat, list@[j]),
        decreases count - i,
    {
        match list.get(i) {
            Some(todo) => {
                shown.push(display_line(i + 1, todo));
            },
            None => {},
        }
        i += 1;
    }
    shown
}

/// Where the first period of the text stands; the length of the text where
/// it has none.
pub fn field_end(chars: &Vec<char>) -> (end: usize)
    ensures
        end == field_len(chars@),
        end <= chars.len(),
{
    let mut end: usize = 0;
    while end < chars.len() && chars[end] != '.'
        invariant
            end <= chars.len(),
            forall|j: int| 0 <= j < end ==> chars@[j] != '.',
        decreases chars.len() - end,
    {
        end += 1;
    }
    proof {
        lemma_field_len(chars@, end as int);
    }
    end
}

/// The position that a chosen line names in a list of `len` entries, or
/// `None` where the line names none: it does not begin with a number, or the
/// number is zero or lies beyond the list.
pub fn chosen_index(selected: &str, len: usize) -> (index: Option<usize>)
    ensures
        match index {
            Some(position) => chosen(selected@, len as nat) == Some(position as nat),
            None => chosen(selected@, len as nat) is None,
        },
{
    let chars = chars_of(selected);
    let end = field_end(&chars);
    match parse_prefix(&chars, end) {
        Some(number) => {
            if 1 <= number && number <= len {
                Some(number - 1)
            } else {
                None
            }
        },
        None => None,
    }
}

} // verus!
