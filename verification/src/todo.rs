//! Todos and the ordered list that holds them.

use vstd::prelude::*;

verus! {

/// One entry of the list: a text and whether it is done.
#[derive(Debug, PartialEq, Eq)]
pub struct Todo {
    pub text: String,
    pub completed: bool,
}

/// A todo as contracts speak of it.
pub struct TodoView {
    pub text: Seq<char>,
    pub completed: bool,
}

impl View for Todo {
    type V = TodoView;

    open spec fn view(&self) -> TodoView {
        TodoView { text: self.text@, completed: self.completed }
    }
}

impl DeepView for Todo {
    type V = TodoView;

    open spec fn deep_view(&self) -> TodoView {
        self@
    }
}

impl Clone for Todo {
    fn clone(&self) -> (copy: Self)
        ensures
            copy@ == self@,
    {
        Todo { text: self.text.clone(), completed: self.completed }
    }
}

/// The list after a fresh, open todo with the given text was put at its end.
pub open spec fn appended(list: Seq<TodoView>, text: Seq<char>) -> Seq<TodoView> {
    list.push(TodoView { text, completed: false })
}

/// The list after the entry at `index` changed sides between open and done.
/// An index outside the list changes nothing.
pub open spec fn toggled(list: Seq<TodoView>, index: int) -> Seq<TodoView> {
    if 0 <= index < list.len() {
        list.update(index, TodoView { text: list[index].text, completed: !list[index].completed })
    } else {
        list
    }
}

/// The list after the entry at `index` was taken out and the later entries
/// moved up by one. An index outside the list changes nothing.
pub open spec fn removed(list: Seq<TodoView>, index: int) -> Seq<TodoView> {
    if 0 <= index < list.len() {
        list.remove(index)
    } else {
        list
    }
}

/// Toggling the same entry twice gives back the list as it was.
pub proof fn lemma_toggle_twice(list: Seq<TodoView>, index: int)
    ensures
        toggled(toggled(list, index), index) == list,
{
}

/// Removing the entry at `index` leaves a list shorter by one: the entries
/// before `index` stay where they were, and each entry behind it stands one
/// place lower.
pub proof fn lemma_remove_shifts(list: Seq<TodoView>, index: int)
    requires
        0 <= index < list.len(),
    ensures
        removed(list, index).len() == list.len() - 1,
        forall|j: int| 0 <= j < index ==> removed(list, index)[j] == list[j],
        forall|j: int| index <= j < list.len() - 1 ==> removed(list, index)[j] == list[j + 1],
{
}

/// An ordered list of todos. Entries are known by their position alone, and
/// two entries may hold the same text.
#[derive(Debug, PartialEq, Eq)]
pub struct TodoList {
    items: Vec<Todo>,
}

impl View for TodoList {
    type V = Seq<TodoView>;

    closed spec fn view(&self) -> Seq<TodoView> {
        self.items@.map_values(|todo: Todo| todo@)
    }
}

impl DeepView for TodoList {
    type V = Seq<TodoView>;

    open spec fn deep_view(&self) -> Seq<TodoView> {
        self@
    }
}

impl Clone for TodoList {
    fn clone(&self) -> (copy: Self)
        ensures
            copy@ == self@,
    {
        let mut items: Vec<Todo> = Vec::new();
        let mut i: usize = 0;
        while i < self.items.len()
            invariant
                i <= self.items.len(),
                items@.len() == i,
                forall|j: int| 0 <= j < i ==> (#[trigger] items@[j])@ == self.items@[j]@,
            decreases self.items.len() - i,
        {
            items.push(self.items[i].clone());
            i += 1;
        }
        let copy = TodoList { items };
        assert(copy@ =~= self@);
        copy
    }
}

impl TodoList {
    /// The empty list.
    pub fn new() -> (list: Self)
        ensures
            list@ == Seq::<TodoView>::empty(),
    {
        TodoList { items: Vec::new() }
    }

    /// The list that holds the given todos in their order.
    pub fn from_items(items: Vec<Todo>) -> (list: Self)
        ensures
            list@ == Seq::new(items@.len(), |i: int| items@[i]@),
    {
        let list = TodoList { items };
        list
    }

    /// The todos of the list in their order.
    pub fn items(&self) -> (items: &Vec<Todo>)
        ensures
            self@ == Seq::new(items@.len(), |i: int| items@[i]@),
    {
        &self.items
    }

    /// How many entries the list holds.
    pub fn len(&self) -> (count: usize)
        ensures
            count == self@.len(),
    {
        self.items.len()
    }

    /// Whether the list holds nothing.
    pub fn is_empty(&self) -> (empty: bool)
        ensures
            empty == (self@.len() == 0),
    {
        self.items.len() == 0
    }

    /// The entry at `index`, or `None` where the list ends before it.
    pub fn get(&self, index: usize) -> (entry: Option<&Todo>)
        ensures
            match entry {
                Some(todo) => index < self@.len() && todo@ == self@[index as int],
                None => index >= self@.len(),
            },
    {
        if index < self.items.len() {
            Some(&self.items[index])
        } else {
            None
        }
    }

    /// Puts a fresh, open todo with the given text at the end.
    pub fn add(&mut self, text: String)
        ensures
            final(self)@ == appended(old(self)@, text@),
    {
        self.items.push(Todo { text, completed: false });
    }

    /// Puts a todo at the end as it is.
    pub fn put(&mut self, todo: Todo)
        ensures
            final(self)@ == old(self)@.push(todo@),
    {
        self.items.push(todo);
    }

    /// Flips the entry at `index` between open and done and reports its new
    /// state. An index outside the list changes nothing and gives `None`.
    pub fn toggle(&mut self, index: usize) -> (now: Option<bool>)
        ensures
            final(self)@ == toggled(old(self)@, index as int),
            now == if index < old(self)@.len() {
                Some(!old(self)@[index as int].completed)
            } else {
                None
            },
    {
        if index < self.items.len() {
            let now = !self.items[index].completed;
            self.items[index].completed = now;
            Some(now)
        } else {
            None
        }
    }

    /// Takes the entry at `index` out and hands it back; the entries behind
    /// it move up by one. An index outside the list changes nothing and gives
    /// `None`.
    pub fn remove(&mut self, index: usize) -> (gone: Option<Todo>)
        ensures
            final(self)@ == removed(old(self)@, index as int),
            match gone {
                Some(todo) => index < old(self)@.len() && todo@ == old(self)@[index as int],
                None => index >= old(self)@.len(),
            },
    {
        if index < self.items.len() {
            let todo = self.items.remove(index);
            Some(todo)
        } else {
            None
        }
    }
}

} // verus!
