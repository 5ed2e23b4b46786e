//! One run of the program as a machine of states: what it asks next, and
//! what each answer does to the list.

use crate::display::{
    chosen, chosen_index, display_lines, lemma_shown_line_leads_back, lines, marker,
    status_marker,
};
use crate::todo::{appended, removed, toggled, TodoList, TodoView};
use vstd::prelude::*;

verus! {

/// What a session waits for.
#[derive(Debug, Clone, Copy, PartialEq, Eq, Structural)]
pub enum Pending {
    /// A choice from the menu.
    Menu,
    /// The text of a new todo.
    NewText,
    /// The line of the todo to toggle.
    ToggleChoice,
    /// The line of the todo to delete.
    DeleteChoice,
    /// Nothing: the session is over.
    Closed,
}

/// An action of the menu.
#[derive(Debug, Clone, Copy, PartialEq, Eq, Structural)]
pub enum Action {
    Make,
    View,
    Mark,
    Delete,
    Exit,
}

/// A question to put to the user.
#[derive(Debug, PartialEq, Eq)]
pub enum Prompt {
    /// Pick one of `options`, which are shown in this order.
    Select { question: String, options: Vec<String> },
    /// Enter a line of text.
    Text { question: String },
}

/// A question as contracts speak of it.
pub enum PromptView {
    Select { question: Seq<char>, options: Seq<Seq<char>> },
    Text { question: Seq<char> },
}

impl View for Prompt {
    type V = PromptView;

    open spec fn view(&self) -> PromptView {
        match self {
            Prompt::Select { question, options } => PromptView::Select {
                question: question@,
                options: options.deep_view(),
            },
            Prompt::Text { question } => PromptView::Text { question: question@ },
        }
    }
}

/// What the program does after an answer: the lines to print, in order,
/// and then whether to write the list to its file.
#[derive(Debug, PartialEq, Eq)]
pub struct Reaction {
    pub lines: Vec<String>,
    pub save: bool,
}

/// A reaction as contracts speak of it.
pub struct ReactionView {
    pub lines: Seq<Seq<char>>,
    pub save: bool,
}

impl View for Reaction {
    type V = ReactionView;

    open spec fn view(&self) -> ReactionView {
        ReactionView { lines: self.lines.deep_view(), save: self.save }
    }
}

/// A session as contracts speak of it: the list and what is awaited.
pub struct SessionView {
    pub todos: Seq<TodoView>,
    pub pending: Pending,
}

/// The label under which the menu offers an action.
pub open spec fn label(action: Action) -> Seq<char> {
    match action {
        Action::Make => "Make todo"@,
        Action::View => "View all todos"@,
        Action::Mark => "Mark todo completed/uncompleted"@,
        Action::Delete => "Delete a todo"@,
        Action::Exit => "Exit"@,
    }
}

/// The labels of the menu in the order in which it shows them.
pub open spec fn menu_labels() -> Seq<Seq<char>> {
    seq![
        label(Action::Make),
        label(Action::View),
        label(Action::Mark),
        label(Action::Delete),
        label(Action::Exit),
    ]
}

/// The action that a label of the menu stands for; `None` for a text that
/// is none of the labels.
pub open spec fn labelled(text: Seq<char>) -> Option<Action> {
    if text == label(Action::Make) {
        Some(Action::Make)
    } else if text == label(Action::View) {
        Some(Action::View)
    } else if text == label(Action::Mark) {
        Some(Action::Mark)
    } else if text == label(Action::Delete) {
        Some(Action::Delete)
    } else if text == label(Action::Exit) {
        Some(Action::Exit)
    } else {
        None
    }
}

/// What the view action prints: a line that says so for the empty list,
/// else a heading and the numbered lines.
pub open spec fn listing(todos: Seq<TodoView>) -> Seq<Seq<char>> {
    if todos.len() == 0 {
        seq!["No todos yet."@]
    } else {
        seq!["Your todos:"@] + lines(todos)
    }
}

/// The line that reports a toggle: the text of the entry and its new state.
pub open spec fn toggle_notice(text: Seq<char>, now: bool) -> Seq<char> {
    "Toggled: "@ + text + " \u{2192} "@ + marker(now) + if now {
        " completed"@
    } else {
        " uncompleted"@
    }
}

/// The line that reports a deletion: the text of the entry that went.
pub open spec fn delete_notice(text: Seq<char>) -> Seq<char> {
    "Deleted: "@ + text
}

/// The session that waits at the menu with the given list.
pub open spec fn at_menu(todos: Seq<TodoView>) -> SessionView {
    SessionView { todos, pending: Pending::Menu }
}

/// The reaction that prints nothing and saves nothing.
pub open spec fn silence() -> ReactionView {
    ReactionView { lines: Seq::empty(), save: false }
}

/// The reaction that prints one line and saves nothing.
pub open spec fn remark(line: Seq<char>) -> ReactionView {
    ReactionView { lines: seq![line], save: false }
}

/// The reaction that prints one line and then saves.
pub open spec fn report(line: Seq<char>) -> ReactionView {
    ReactionView { lines: seq![line], save: true }
}

/// What is asked in a state: `None` once the session is over.
pub open spec fn asked(state: SessionView) -> Option<PromptView> {
    match state.pending {
        Pending::Menu => Some(
            PromptView::Select { question: "Choose an action:"@, options: menu_labels() },
        ),
        Pending::NewText => Some(PromptView::Text { question: "Enter your todo:"@ }),
        Pending::ToggleChoice => Some(
            PromptView::Select {
                question: "Select a todo to toggle:"@,
                options: lines(state.todos),
            },
        ),
        Pending::DeleteChoice => Some(
            PromptView::Select {
                question: "Select a todo to delete:"@,
                options: lines(state.todos),
            },
        ),
        Pending::Closed => None,
    }
}

/// At the menu. A failed read ends the session without saving. Make asks
/// for a text; view prints the list; mark and delete ask for a line, unless
/// the list is empty, which they say; exit says goodbye, saves and ends the
/// session. A text that is no label does nothing.
pub open spec fn menu_step(todos: Seq<TodoView>, reply: Option<Seq<char>>) -> (
    SessionView,
    ReactionView,
) {
    match reply {
        None => (
            SessionView { todos, pending: Pending::Closed },
            remark("There was an error reading your input."@),
        ),
        Some(text) => match labelled(text) {
            Some(Action::Make) => (SessionView { todos, pending: Pending::NewText }, silence()),
            Some(Action::View) => (
                at_menu(todos),
                ReactionView { lines: listing(todos), save: false },
            ),
            Some(Action::Mark) => if todos.len() == 0 {
                (at_menu(todos), remark("No todos to mark."@))
            } else {
                (SessionView { todos, pending: Pending::ToggleChoice }, silence())
            },
            Some(Action::Delete) => if todos.len() == 0 {
                (at_menu(todos), remark("No todos to delete."@))
            } else {
                (SessionView { todos, pending: Pending::DeleteChoice }, silence())
            },
            Some(Action::Exit) => (
                SessionView { todos, pending: Pending::Closed },
                report("Saving todos... Goodbye!"@),
            ),
            None => (at_menu(todos), silence()),
        },
    }
}

/// Waiting for the text of a new todo. The text goes to the end of the
/// list as an open todo, as it was entered, and the list is saved. A
/// failed read is reported and changes nothing.
pub open spec fn text_step(todos: Seq<TodoView>, reply: Option<Seq<char>>) -> (
    SessionView,
    ReactionView,
) {
    match reply {
        Some(text) => (at_menu(appended(todos, text)), report("Added a new todo!"@)),
        None => (at_menu(todos), remark("Failed to read todo."@)),
    }
}

/// Waiting for the line of the todo to toggle. A line that names an entry
/// flips it, reports its new state and saves. A failed read, or a line that
/// names no entry, changes nothing and prints nothing.
pub open spec fn toggle_step(todos: Seq<TodoView>, reply: Option<Seq<char>>) -> (
    SessionView,
    ReactionView,
) {
    match reply {
        Some(selected) => match chosen(selected, todos.len()) {
            Some(index) => (
                at_menu(toggled(todos, index as int)),
                report(toggle_notice(todos[index as int].text, !todos[index as int].completed)),
            ),
            None => (at_menu(todos), silence()),
        },
        None => (at_menu(todos), silence()),
    }
}

/// Waiting for the line of the todo to delete. A line that names an entry
/// reports its text, takes it out and saves. A failed read, or a line that
/// names no entry, changes nothing and prints nothing.
pub open spec fn delete_step(todos: Seq<TodoView>, reply: Option<Seq<char>>) -> (
    SessionView,
    ReactionView,
) {
    match reply {
        Some(selected) => match chosen(selected, todos.len()) {
            Some(index) => (
                at_menu(removed(todos, index as int)),
                report(delete_notice(todos[index as int].text)),
            ),
            None => (at_menu(todos), silence()),
        },
        None => (at_menu(todos), silence()),
    }
}

/// The state after an answer, and the reaction to it. `None` stands for an
/// answer that could not be read or that the user gave up. A session that
/// is over stays as it is.
pub open spec fn step(state: SessionView, reply: Option<Seq<char>>) -> (
    SessionView,
    ReactionView,
) {
    match state.pending {
        Pending::Menu => menu_step(state.todos, reply),
        Pending::NewText => text_step(state.todos, reply),
        Pending::ToggleChoice => toggle_step(state.todos, reply),
        Pending::DeleteChoice => delete_step(state.todos, reply),
        Pending::Closed => (state, silence()),
    }
}

/// The session after one make action: the choice at the menu, then the
/// text.
pub open spec fn made(state: SessionView, text: Seq<char>) -> SessionView {
    step(step(state, Some(label(Action::Make))).0, Some(text)).0
}

/// The session after one make action for each of the texts, in order.
pub open spec fn made_all(state: SessionView, texts: Seq<Seq<char>>) -> SessionView
    decreases texts.len(),
{
    if texts.len() == 0 {
        state
    } else {
        made(made_all(state, texts.drop_last()), texts.last())
    }
}

/// One open todo for each of the texts, in order.
pub open spec fn open_todos(texts: Seq<Seq<char>>) -> Seq<TodoView> {
    Seq::new(texts.len(), |i: int| TodoView { text: texts[i], completed: false })
}

/// Whether a state offers lines to choose from only where the list has
/// some.
pub open spec fn consistent(state: SessionView) -> bool {
    (state.pending is ToggleChoice || state.pending is DeleteChoice) ==> state.todos.len() > 0
}

/// Make actions put their texts at the end of the list, in the order in
/// which they were entered, each as an open todo.
pub proof fn lemma_makes_append_in_order(todos: Seq<TodoView>, texts: Seq<Seq<char>>)
    ensures
        made_all(at_menu(todos), texts) == at_menu(todos + open_todos(texts)),
    decreases texts.len(),
{
    if texts.len() > 0 {
        let earlier = texts.drop_last();
        lemma_makes_append_in_order(todos, earlier);
        assert(appended(todos + open_todos(earlier), texts.last()) =~= todos + open_todos(texts));
    }
}

/// Make actions on the empty list leave exactly one open todo for each
/// text, in the order in which the texts were entered.
pub proof fn lemma_makes_from_empty(texts: Seq<Seq<char>>)
    ensures
        made_all(at_menu(Seq::empty()), texts) == at_menu(open_todos(texts)),
{
    lemma_makes_append_in_order(Seq::empty(), texts);
}

/// An answer that could not be read, where a text or a line was asked for,
/// leaves the list as it was and asks for no save.
pub proof fn lemma_cancel_changes_nothing(state: SessionView)
    requires
        state.pending is NewText || state.pending is ToggleChoice || state.pending is DeleteChoice,
    ensures
        step(state, None).0 == at_menu(state.todos),
        !step(state, None).1.save,
{
}

/// Whenever an answer changes the list, the reaction asks for a save.
pub proof fn lemma_change_is_saved(state: SessionView, reply: Option<Seq<char>>)
    ensures
        step(state, reply).0.todos != state.todos ==> step(state, reply).1.save,
{
}

/// A session that starts at the menu is consistent.
pub proof fn lemma_starts_consistent(todos: Seq<TodoView>)
    ensures
        consistent(at_menu(todos)),
{
}

/// Every answer keeps a consistent session consistent.
pub proof fn lemma_stays_consistent(state: SessionView, reply: Option<Seq<char>>)
    requires
        consistent(state),
    ensures
        consistent(step(state, reply).0),
{
}

/// Choosing one of the lines that are offered acts on the entry that the
/// line was made for: toggling flips that entry, deleting takes it out.
pub proof fn lemma_offered_line_picks_its_entry(state: SessionView, index: int)
    requires
        0 <= index < state.todos.len(),
    ensures
        state.pending is ToggleChoice ==> step(state, Some(lines(state.todos)[index])).0
            == at_menu(toggled(state.todos, index)),
        state.pending is DeleteChoice ==> step(state, Some(lines(state.todos)[index])).0
            == at_menu(removed(state.todos, index)),
{
    lemma_shown_line_leads_back(state.todos, index);
}

/// Whether two strings hold the same text.
pub fn same_text(left: &str, right: &str) -> (same: bool)
    ensures
        same == (left@ == right@),
{
    let a = left.to_owned();
    let b = right.to_owned();
    a == b
}

/// The label under which the menu offers an action.
pub fn action_label(action: Action) -> (text: &'static str)
    ensures
        text@ == label(action),
{
    match action {
        Action::Make => "Make todo",
        Action::View => "View all todos",
        Action::Mark => "Mark todo completed/uncompleted",
        Action::Delete => "Delete a todo",
        Action::Exit => "Exit",
    }
}

/// The labels of the menu in the order in which it shows them.
pub fn menu_options() -> (options: Vec<String>)
    ensures
        options.deep_view() == menu_labels(),
{
    let mut options: Vec<String> = Vec::new();
    options.push(action_label(Action::Make).to_owned());
    options.push(action_label(Action::View).to_owned());
    options.push(action_label(Action::Mark).to_owned());
    options.push(action_label(Action::Delete).to_owned());
    options.push(action_label(Action::Exit).to_owned());
    options
}

/// The action that a label of the menu stands for.
pub fn chosen_action(text: &str) -> (action: Option<Action>)
    ensures
        action == labelled(text@),
{
    if same_text(text, action_label(Action::Make)) {
        Some(Action::Make)
    } else if same_text(text, action_label(Action::View)) {
        Some(Action::View)
    } else if same_text(text, action_label(Action::Mark)) {
        Some(Action::Mark)
    } else if same_text(text, action_label(Action::Delete)) {
        Some(Action::Delete)
    } else if same_text(text, action_label(Action::Exit)) {
        Some(Action::Exit)
    } else {
        None
    }
}

/// The reaction that prints nothing and saves nothing.
fn keep_silent() -> (reaction: Reaction)
    ensures
        reaction@ == silence(),
{
    let reaction = Reaction { lines: Vec::new(), save: false };
    assert(reaction.lines.deep_view() =~= Seq::<Seq<char>>::empty());
    reaction
}

/// The reaction that prints one line, and saves where `save` says so.
fn say(line: String, save: bool) -> (reaction: Reaction)
    ensures
        reaction@ == (ReactionView { lines: seq![line@], save }),
{
    let mut lines: Vec<String> = Vec::new();
    lines.push(line);
    assert(lines.deep_view() =~= seq![line@]);
    Reaction { lines, save }
}

/// What the view action prints for the list.
pub fn list_lines(todos: &TodoList) -> (shown: Vec<String>)
    ensures
        shown.deep_view() == listing(todos@),
{
    if todos.is_empty() {
        let mut shown: Vec<String> = Vec::new();
        shown.push("No todos yet.".to_owned());
        shown
    } else {
        let mut shown: Vec<String> = Vec::new();
        shown.push("Your todos:".to_owned());
        let mut rest = display_lines(todos);
        shown.append(&mut rest);
        shown
    }
}

/// The line that reports a toggle.
pub fn toggle_message(text: &str, now: bool) -> (line: String)
    ensures
        line@ == toggle_notice(text@, now),
{
    let mut line = "Toggled: ".to_owned();
    line.append(text);
    line.append(" \u{2192} ");
    line.append(status_marker(now));
    line.append(if now {
        " completed"
    } else {
        " uncompleted"
    });
    line
}

/// The line that reports a deletion.
pub fn delete_message(text: &str) -> (line: String)
    ensures
        line@ == delete_notice(text@),
{
    let mut line = "Deleted: ".to_owned();
    line.append(text);
    line
}

/// One run of the program: the list, and what the program waits for.
#[derive(Debug, PartialEq, Eq)]
pub struct Session {
    todos: TodoList,
    pending: Pending,
}

impl View for Session {
    type V = SessionView;

    closed spec fn view(&self) -> SessionView {
        SessionView { todos: self.todos@, pending: self.pending }
    }
}

impl Session {
    /// A session that starts at the menu with the given list.
    pub fn new(todos: TodoList) -> (session: Self)
        ensures
            session@ == at_menu(todos@),
    {
        Session { todos, pending: Pending::Menu }
    }

    /// The list as it stands.
    pub fn todos(&self) -> (todos: &TodoList)
        ensures
            todos@ == self@.todos,
    {
        &self.todos
    }

    /// What the session waits for.
    pub fn pending(&self) -> (pending: Pending)
        ensures
            pending == self@.pending,
    {
        self.pending
    }

    /// Whether the session is over.
    pub fn is_closed(&self) -> (closed: bool)
        ensures
            closed == (self@.pending is Closed),
    {
        match self.pending {
            Pending::Closed => true,
            _ => false,
        }
    }

    /// The question to ask next, or `None` once the session is over. The
    /// lines offered for toggling and deleting are those of the list as it
    /// stands.
    pub fn prompt(&self) -> (prompt: Option<Prompt>)
        ensures
            match prompt {
                Some(question) => asked(self@) == Some(question@),
                None => asked(self@) is None,
            },
    {
        match self.pending {
            Pending::Menu => Some(
                Prompt::Select {
                    question: "Choose an action:".to_owned(),
                    options: menu_options(),
                },
            ),
            Pending::NewText => Some(Prompt::Text { question: "Enter your todo:".to_owned() }),
            Pending::ToggleChoice => Some(
                Prompt::Select {
                    question: "Select a todo to toggle:".to_owned(),
                    options: display_lines(&self.todos),
                },
            ),
            Pending::DeleteChoice => Some(
                Prompt::Select {
                    question: "Select a todo to delete:".to_owned(),
                    options: display_lines(&self.todos),
                },
            ),
            Pending::Closed => None,
        }
    }

    /// Takes the answer to the question last asked and says what to print
    /// and whether to save. `None` stands for an answer that could not be
    /// read or that the user gave up.
    pub fn answer(&mut self, reply: Option<String>) -> (reaction: Reaction)
        ensures
            (final(self)@, reaction@) == step(old(self)@, reply.deep_view()),
    {
        match self.pending {
            Pending::Menu => self.answer_menu(reply),
            Pending::NewText => self.answer_text(reply),
            Pending::ToggleChoice => self.answer_toggle(reply),
            Pending::DeleteChoice => self.answer_delete(reply),
            Pending::Closed => keep_silent(),
        }
    }

    fn answer_menu(&mut self, reply: Option<String>) -> (reaction: Reaction)
        ensures
            (final(self)@, reaction@) == menu_step(old(self)@.todos, reply.deep_view()),
    {
        match reply {
            None => {
                self.pending = Pending::Closed;
                say("There was an error reading your input.".to_owned(), false)
            },
            Some(text) => match chosen_action(text.as_str()) {
                Some(Action::Make) => {
                    self.pending = Pending::NewText;
                    keep_silent()
                },
                Some(Action::View) => {
                    self.pending = Pending::Menu;
                    Reaction { lines: list_lines(&self.todos), save: false }
                },
                Some(Action::Mark) => {
                    if self.todos.is_empty() {
                        self.pending = Pending::Menu;
                        say("No todos to mark.".to_owned(), false)
                    } else {
                        self.pending = Pending::ToggleChoice;
                        keep_silent()
                    }
                },
                Some(Action::Delete) => {
                    if self.todos.is_empty() {
                        self.pending = Pending::Menu;
                        say("No todos to delete.".to_owned(), false)
                    } else {
                        self.pending = Pending::DeleteChoice;
                        keep_silent()
                    }
                },
                Some(Action::Exit) => {
                    self.pending = Pending::Closed;
                    say("Saving todos... Goodbye!".to_owned(), true)
                },
                None => {
                    self.pending = Pending::Menu;
                    keep_silent()
                },
            },
        }
    }

    fn answer_text(&mut self, reply: Option<String>) -> (reaction: Reaction)
        ensures
            (final(self)@, reaction@) == text_step(old(self)@.todos, reply.deep_view()),
    {
        self.pending = Pending::Menu;
        match reply {
            Some(text) => {
                self.todos.add(text);
                say("Added a new todo!".to_owned(), true)
            },
            None => say("Failed to read todo.".to_owned(), false),
        }
    }

    fn answer_toggle(&mut self, reply: Option<String>) -> (reaction: Reaction)
        ensures
            (final(self)@, reaction@) == toggle_step(old(self)@.todos, reply.deep_view()),
    {
        self.pending = Pending::Menu;
        let index = match reply {
            Some(selected) => chosen_index(selected.as_str(), self.todos.len()),
            None => None,
        };
        match index {
            Some(position) => {
                match self.todos.toggle(position) {
                    Some(now) => match self.todos.get(position) {
                        Some(todo) => say(toggle_message(todo.text.as_str(), now), true),
                        None => keep_silent(),
                    },
                    None => keep_silent(),
                }
            },
            None => keep_silent(),
        }
    }

    fn answer_delete(&mut self, reply: Option<String>) -> (reaction: Reaction)
        ensures
            (final(self)@, reaction@) == delete_step(old(self)@.todos, reply.deep_view()),
    {
        self.pending = Pending::Menu;
        let index = match reply {
            Some(selected) => chosen_index(selected.as_str(), self.todos.len()),
            None => None,
        };
        match index {
            Some(position) => match self.todos.remove(position) {
                Some(todo) => say(delete_message(todo.text.as_str()), true),
                None => keep_silent(),
            },
            None => keep_silent(),
        }
    }
}

} // verus!
