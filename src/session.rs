//! The interactive session: input modes, the command line, the active command,
//! the notice overlay, and the table; one key at a time.

use vstd::prelude::*;
use tui_input::{Input, InputRequest};
use crate::command::{
    CMD_LIST_TOPICS, Command, create_list_topics_table_definition, handle_key_event as list_topics_key,
    selected_topic_names, table_from, topic_row, topic_widths, topics_header, deletion_notice,
    deletion_notification,
};
use crate::order::{is_reordering, names_sorted, views};
use crate::table::{LocalTable, TableData, Row, Cell, cell_view, row_view, cursor_up, cursor_down};
use crate::topics::{TopicMetadata, entry_names, list_topics, summary_of, topic_in_range};

verus! {

/// A key the user pressed.
#[derive(Debug, Clone, Copy, PartialEq, Eq, Structural)]
pub enum Key {
    /// A printable character, without Ctrl or Alt.
    Char(char),
    /// Ctrl-C.
    CtrlC,
    Esc,
    Enter,
    Up,
    Down,
    Left,
    Right,
    Home,
    End,
    Backspace,
    Delete,
    /// Any other key.
    Other,
}

/// What the session asks its runner to do with the cluster after a key.
#[derive(Debug, Clone, PartialEq, Eq)]
pub enum Action {
    Nothing,
    /// Fetch topic metadata and watermarks, then hand them to
    /// `App::complete_list_topics`.
    FetchTopics,
    /// Delete these topics, then hand the outcome to `App::complete_topic_deletion`.
    DeleteTopics(Vec<String>),
}

/// Kind of notice.
#[derive(Debug, Clone, Copy, PartialEq, Eq, Structural)]
pub enum PopupType {
    ERROR,
    SUCCESS,
}

/// A notice shown over the session until it is dismissed.
#[derive(Debug, Clone, PartialEq, Eq)]
pub struct Notification {
    pub kind: PopupType,
    pub message: String,
}

/// Whether keys go to the view or to the command line.
#[derive(Debug, Clone, Copy, PartialEq, Eq, Structural)]
pub enum InputMode {
    DEFAULT,
    COMMAND,
}

#[verifier::external_type_specification]
#[verifier::external_body]
pub struct ExInput(Input);

/// The text held by a command line.
pub uninterp spec fn input_value(i: Input) -> Seq<char>;

/// The cursor of a command line, counted in characters.
pub uninterp spec fn input_cursor(i: Input) -> nat;

/// An edit of the command line.
#[derive(Debug, Clone, Copy, PartialEq, Eq)]
pub enum EditRequest {
    InsertChar(char),
    GoToPrevChar,
    GoToNextChar,
    GoToStart,
    GoToEnd,
    DeletePrevChar,
    DeleteNextChar,
}

/// Text and cursor after an edit of `value` with the cursor at `cursor`.
pub open spec fn edited(value: Seq<char>, cursor: nat, req: EditRequest) -> (Seq<char>, nat) {
    match req {
        EditRequest::InsertChar(c) => (value.take(cursor as int) + seq![c] + value.skip(cursor as int), cursor + 1),
        EditRequest::GoToPrevChar => (value, if cursor == 0 { 0 } else { (cursor - 1) as nat }),
        EditRequest::GoToNextChar => (value, if cursor == value.len() { cursor } else { cursor + 1 }),
        EditRequest::GoToStart => (value, 0),
        EditRequest::GoToEnd => (value, value.len()),
        EditRequest::DeletePrevChar => if cursor == 0 {
            (value, cursor)
        } else {
            (value.remove(cursor - 1), (cursor - 1) as nat)
        },
        EditRequest::DeleteNextChar => if cursor == value.len() {
            (value, cursor)
        } else {
            (value.remove(cursor as int), cursor)
        },
    }
}

/// Relies on `tui_input::Input::default`: empty text, cursor at the start.
#[verifier::external_body]
fn new_input() -> (r: Input)
    ensures
        input_value(r) == Seq::<char>::empty(),
        input_cursor(r) == 0,
{
    Input::default()
}

/// Relies on `tui_input::Input::value`: the text held.
#[verifier::external_body]
fn input_text(i: &Input) -> (r: &str)
    ensures
        r@ == input_value(*i),
{
    i.value()
}

/// Relies on `tui_input::Input::reset`: empty text, cursor at the start.
#[verifier::external_body]
fn reset_input(i: &mut Input)
    ensures
        input_value(*final(i)) == Seq::<char>::empty(),
        input_cursor(*final(i)) == 0,
{
    i.reset();
}

/// Relies on `tui_input::Input::handle`: how each request changes the text and the
/// cursor, which never passes the end of the text.
#[verifier::external_body]
fn edit_input(i: &mut Input, req: EditRequest)
    requires
        input_cursor(*old(i)) <= input_value(*old(i)).len(),
    ensures
        (input_value(*final(i)), input_cursor(*final(i))) == edited(input_value(*old(i)), input_cursor(*old(i)), req),
{
    let req = match req {
        EditRequest::InsertChar(c) => InputRequest::InsertChar(c),
        EditRequest::GoToPrevChar => InputRequest::GoToPrevChar,
        EditRequest::GoToNextChar => InputRequest::GoToNextChar,
        EditRequest::GoToStart => InputRequest::GoToStart,
        EditRequest::GoToEnd => InputRequest::GoToEnd,
        EditRequest::DeletePrevChar => InputRequest::DeletePrevChar,
        EditRequest::DeleteNextChar => InputRequest::DeleteNextChar,
    };
    i.handle(req);
}

/// The edit of the command line that a key makes, if any.
pub open spec fn edit_request(key: Key) -> Option<EditRequest> {
    match key {
        Key::Char(c) => Some(EditRequest::InsertChar(c)),
        Key::Backspace => Some(EditRequest::DeletePrevChar),
        Key::Delete => Some(EditRequest::DeleteNextChar),
        Key::Left => Some(EditRequest::GoToPrevChar),
        Key::Right => Some(EditRequest::GoToNextChar),
        Key::Home => Some(EditRequest::GoToStart),
        Key::End => Some(EditRequest::GoToEnd),
        _ => None,
    }
}

fn edit_request_of(key: Key) -> (r: Option<EditRequest>)
    ensures
        r == edit_request(key),
{
    match key {
        Key::Char(c) => Some(EditRequest::InsertChar(c)),
        Key::Backspace => Some(EditRequest::DeletePrevChar),
        Key::Delete => Some(EditRequest::DeleteNextChar),
        Key::Left => Some(EditRequest::GoToPrevChar),
        Key::Right => Some(EditRequest::GoToNextChar),
        Key::Home => Some(EditRequest::GoToStart),
        Key::End => Some(EditRequest::GoToEnd),
        _ => None,
    }
}

/// The console's state between two keys.
#[derive(Debug)]
pub struct App {
    pub input_mode: InputMode,
    pub input: Input,
    pub command: Command,
    pub notification: Option<Notification>,
    pub table: LocalTable,
    pub exit: bool,
}

/// The table of a freshly activated topic listing: topic headers and no rows yet.
pub open spec fn cleared_for_topics(t: LocalTable) -> bool {
    &&& t.wf()
    &&& t.definition.header@.map_values(|c: Cell| cell_view(c)) == topics_header()
    &&& t.definition.selectable
    &&& t.data.rows@.len() == 0
    &&& t.data.widths@.len() == 0
    &&& t.cursor is None
    &&& t.selection() == Set::<int>::empty()
}

/// The notice for text that names no command.
pub open spec fn unknown_command_message(text: Seq<char>) -> Seq<char> {
    "Unknown command '"@ + text + "'"@
}

/// Enter on the command line: a known command becomes active with fresh state,
/// the line is cleared and the mode returns to normal; unknown text only raises
/// an error notice.
pub open spec fn submit_step(pre: App, post: App, action: Action) -> bool {
    if input_value(pre.input) == CMD_LIST_TOPICS@ {
        &&& post.input_mode == InputMode::DEFAULT
        &&& input_value(post.input) == Seq::<char>::empty()
        &&& input_cursor(post.input) == 0
        &&& post.notification is None
        &&& post.command is ListTopics
        &&& post.command->ListTopics_0.topics@.len() == 0
        &&& cleared_for_topics(post.table)
        &&& post.exit == pre.exit
        &&& action == Action::FetchTopics
    } else {
        &&& post == (App { notification: post.notification, ..pre })
        &&& post.notification is Some
        &&& post.notification->Some_0.kind == PopupType::ERROR
        &&& post.notification->Some_0.message@ == unknown_command_message(input_value(pre.input))
        &&& action == Action::Nothing
    }
}

/// Up and Down move the cursor, Space selects or unselects the row under it;
/// other keys leave the table as it is.
pub open spec fn navigated(pre: LocalTable, key: Key, post: LocalTable) -> bool {
    if key == Key::Up {
        post == (LocalTable { cursor: cursor_up(pre.cursor, pre.row_count()), ..pre })
    } else if key == Key::Down {
        post == (LocalTable { cursor: cursor_down(pre.cursor, pre.row_count()), ..pre })
    } else if key == Key::Char(' ') {
        &&& post.definition == pre.definition
        &&& post.data == pre.data
        &&& post.cursor == pre.cursor
        &&& post.selected@ == match pre.cursor {
            Some(i) => pre.selected@.update(i as int, !pre.selected@[i as int]),
            None => pre.selected@,
        }
    } else {
        post == pre
    }
}

/// What one key does to the session, and what it asks of the cluster.
pub open spec fn key_step(pre: App, key: Key, post: App, action: Action) -> bool {
    if key == Key::CtrlC {
        post == (App { exit: true, ..pre }) && action == Action::Nothing
    } else if pre.notification is Some {
        &&& action == Action::Nothing
        &&& post == if key == Key::Esc {
            App { notification: None, ..pre }
        } else {
            pre
        }
    } else if pre.input_mode == InputMode::COMMAND {
        if key == Key::Esc {
            &&& post == (App { input_mode: InputMode::DEFAULT, input: post.input, ..pre })
            &&& input_value(post.input) == Seq::<char>::empty()
            &&& input_cursor(post.input) == 0
            &&& action == Action::Nothing
        } else if key == Key::Enter {
            submit_step(pre, post, action)
        } else {
            &&& action == Action::Nothing
            &&& match edit_request(key) {
                Some(req) => {
                    &&& post == (App { input: post.input, ..pre })
                    &&& (input_value(post.input), input_cursor(post.input)) == edited(
                        input_value(pre.input),
                        input_cursor(pre.input),
                        req,
                    )
                },
                None => post == pre,
            }
        }
    } else if key == Key::Char('q') {
        post == (App { exit: true, ..pre }) && action == Action::Nothing
    } else if key == Key::Char(':') {
        post == (App { input_mode: InputMode::COMMAND, ..pre }) && action == Action::Nothing
    } else {
        match pre.command {
            Command::Idle => post == pre && action == Action::Nothing,
            Command::ListTopics(state) => {
                &&& post == (App { table: post.table, ..pre })
                &&& navigated(pre.table, key, post.table)
                &&& if key == Key::Char('d') {
                    &&& action is DeleteTopics
                    &&& views(action->DeleteTopics_0@) == selected_topic_names(post.table.selected@, state.topics@)
                } else {
                    action == Action::Nothing
                }
            },
        }
    }
}

/// The topic listing after its fetch: on success it keeps the summaries, sorted
/// by name, and shows one row each with nothing selected; on failure the table
/// stays empty and an error notice says why.
pub open spec fn list_topics_step(pre: App, result: Result<Vec<TopicMetadata>, String>, post: App) -> bool {
    &&& post.input_mode == pre.input_mode
    &&& post.input == pre.input
    &&& post.exit == pre.exit
    &&& match result {
        Ok(topics) => {
            &&& post.notification == pre.notification
            &&& post.command is ListTopics
            &&& names_sorted(entry_names(post.command->ListTopics_0.topics@))
            &&& is_reordering(
                post.command->ListTopics_0.topics@,
                topics@.map_values(|t: TopicMetadata| summary_of(t)),
            )
            &&& post.table.wf()
            &&& post.table.definition.header@.map_values(|c: Cell| cell_view(c)) == topics_header()
            &&& post.table.definition.selectable
            &&& post.table.data.rows@.map_values(|row: Row| row_view(row))
                == post.command->ListTopics_0.topics@.map_values(|e: crate::types::ListTopicEntry| topic_row(e))
            &&& post.table.data.widths@ == topic_widths(post.command->ListTopics_0.topics@)
            &&& post.table.cursor is None
            &&& post.table.selection() == Set::<int>::empty()
        },
        Err(message) => {
            &&& post.command == pre.command
            &&& post.notification == Some(Notification { kind: PopupType::ERROR, message })
            &&& cleared_for_topics(post.table)
        },
    }
}

impl App {
    /// The cursor of the command line stays within its text, and the table is
    /// well formed.
    pub open spec fn wf(&self) -> bool {
        &&& self.table.wf()
        &&& input_cursor(self.input) <= input_value(self.input).len()
    }

    /// Normal mode, an empty command line, no command, no notice, an empty table.
    pub fn new() -> (r: Self)
        ensures
            r.wf(),
            r.input_mode == InputMode::DEFAULT,
            input_value(r.input) == Seq::<char>::empty(),
            r.command == Command::Idle,
            r.notification is None,
            r.table.row_count() == 0,
            r.table.cursor is None,
            !r.exit,
    {
        App {
            input_mode: InputMode::DEFAULT,
            input: new_input(),
            command: Command::Idle,
            notification: None,
            table: LocalTable::new(),
            exit: false,
        }
    }

    /// Submits the command line: see `submit_step`.
    pub fn execute_command(&mut self) -> (action: Action)
        requires
            old(self).wf(),
            old(self).notification is None,
        ensures
            final(self).wf(),
            submit_step(*old(self), *final(self), action),
    {
        let text = String::from_str(input_text(&self.input));
        match Command::parse(text) {
            Some(cmd) => {
                reset_input(&mut self.input);
                self.input_mode = InputMode::DEFAULT;
                self.notification = None;
                self.table.set_content(create_list_topics_table_definition(), TableData::empty());
                self.command = cmd;
                Action::FetchTopics
            },
            None => {
                let mut message = String::from_str("Unknown command '");
                message.append(input_text(&self.input));
                message.append("'");
                self.notification = Some(Notification { kind: PopupType::ERROR, message });
                Action::Nothing
            },
        }
    }

    /// Handles one key press.
    pub fn handle_key_event(&mut self, key: Key) -> (action: Action)
        requires
            old(self).wf(),
        ensures
            final(self).wf(),
            key_step(*old(self), key, *final(self), action),
    {
        if key == Key::CtrlC {
            self.exit = true;
            return Action::Nothing;
        }
        if self.notification.is_some() {
            if key == Key::Esc {
                self.notification = None;
            }
            return Action::Nothing;
        }
        match self.input_mode {
            InputMode::COMMAND => {
                if key == Key::Esc {
                    self.input_mode = InputMode::DEFAULT;
                    reset_input(&mut self.input);
                    Action::Nothing
                } else if key == Key::Enter {
                    self.execute_command()
                } else {
                    match edit_request_of(key) {
                        Some(req) => edit_input(&mut self.input, req),
                        None => {},
                    }
                    Action::Nothing
                }
            },
            InputMode::DEFAULT => {
                if key == Key::Char('q') {
                    self.exit = true;
                    Action::Nothing
                } else if key == Key::Char(':') {
                    self.input_mode = InputMode::COMMAND;
                    Action::Nothing
                } else {
                    match &self.command {
                        Command::Idle => Action::Nothing,
                        Command::ListTopics(state) => {
                            if key == Key::Up {
                                self.table.select_previous();
                            } else if key == Key::Down {
                                self.table.select_next();
                            } else if key == Key::Char(' ') {
                                self.table.toggle_selected();
                            }
                            list_topics_key(key, &self.table, state)
                        },
                    }
                }
            },
        }
    }

    /// Takes the outcome of the fetch that activating the topic listing asked for.
    pub fn complete_list_topics(&mut self, result: Result<Vec<TopicMetadata>, String>)
        requires
            old(self).wf(),
            old(self).command is ListTopics,
            result is Ok ==> forall|k: int|
                0 <= k < result->Ok_0@.len() ==> topic_in_range(#[trigger] result->Ok_0@[k]),
        ensures
            final(self).wf(),
            list_topics_step(*old(self), result, *final(self)),
    {
        match result {
            Ok(metadata) => {
                let topics = list_topics(&metadata);
                let data = table_from(&topics);
                self.table.set_content(create_list_topics_table_definition(), data);
                match &mut self.command {
                    Command::ListTopics(state) => state.set_topics(topics),
                    Command::Idle => {},
                }
            },
            Err(message) => {
                self.table.set_content(create_list_topics_table_definition(), TableData::empty());
                self.notification = Some(Notification { kind: PopupType::ERROR, message });
            },
        }
    }

    /// Takes the outcome of a topic deletion: a notice says how it went. The rows
    /// stay as they were until the listing runs again.
    pub fn complete_topic_deletion(&mut self, result: Result<Vec<crate::types::DeleteOutcome>, String>)
        requires
            old(self).wf(),
        ensures
            final(self).wf(),
            *final(self) == (App { notification: final(self).notification, ..*old(self) }),
            final(self).notification is Some,
            (final(self).notification->Some_0.kind, final(self).notification->Some_0.message@)
                == deletion_notice(result),
    {
        self.notification = Some(deletion_notification(result));
    }

    pub fn input_mode(&self) -> (r: InputMode)
        ensures
            r == self.input_mode,
    {
        self.input_mode
    }

    /// The text of the command line.
    pub fn input_text(&self) -> (r: &str)
        ensures
            r@ == input_value(self.input),
    {
        input_text(&self.input)
    }

    pub fn command(&self) -> (r: &Command)
        ensures
            *r == self.command,
    {
        &self.command
    }

    pub fn notification(&self) -> (r: &Option<Notification>)
        ensures
            *r == self.notification,
    {
        &self.notification
    }

    pub fn table(&self) -> (r: &LocalTable)
        ensures
            *r == self.table,
    {
        &self.table
    }

    /// Whether the session has ended.
    pub fn should_exit(&self) -> (r: bool)
        ensures
            r == self.exit,
    {
        self.exit
    }
}

/// A notice that can be opened over a view and closed again.
pub trait PopupWidget {
    /// The notice shown, if any: its kind and its text.
    spec fn popup(&self) -> Option<(PopupType, Seq<char>)>;

    /// Shows a notice, replacing any other.
    fn open(&mut self, popup_type: PopupType, message: String)
        ensures
            final(self).popup() == Some((popup_type, message@)),
    ;

    /// Dismisses the notice.
    fn close(&mut self)
        ensures
            final(self).popup() is None,
    ;

    /// Whether a notice is shown.
    fn is_open(&self) -> (r: bool)
        ensures
            r == self.popup() is Some,
    ;
}

impl PopupWidget for App {
    open spec fn popup(&self) -> Option<(PopupType, Seq<char>)> {
        match self.notification {
            Some(n) => Some((n.kind, n.message@)),
            None => None,
        }
    }

    fn open(&mut self, popup_type: PopupType, message: String) {
        self.notification = Some(Notification { kind: popup_type, message });
    }

    fn close(&mut self) {
        self.notification = None;
    }

    fn is_open(&self) -> (r: bool) {
        self.notification.is_some()
    }
}

/// Every selected row is a row of the current table, whatever key comes next;
/// and activating a command, the same one again included, leaves nothing
/// selected, both when it is submitted and when its rows arrive.
pub proof fn lemma_selection_stays_in_rows(
    pre: App,
    key: Key,
    post: App,
    action: Action,
    result: Result<Vec<TopicMetadata>, String>,
    loaded: App,
)
    requires
        pre.wf(),
        post.wf(),
        key_step(pre, key, post, action),
    ensures
        forall|i: int| #[trigger] post.table.selection().contains(i) ==> 0 <= i < post.table.row_count(),
        action == Action::FetchTopics ==> post.table.selection() == Set::<int>::empty(),
        list_topics_step(post, result, loaded) ==> loaded.table.selection() == Set::<int>::empty(),
{
}

/// Submitting `list-topics` from the command line returns to normal mode with an
/// empty line; once the fetch succeeds the table shows one row per topic summary,
/// sorted by name.
pub proof fn lemma_submit_list_topics(
    pre: App,
    mid: App,
    action: Action,
    topics: Vec<TopicMetadata>,
    post: App,
)
    requires
        pre.wf(),
        pre.input_mode == InputMode::COMMAND,
        pre.notification is None,
        input_value(pre.input) == CMD_LIST_TOPICS@,
        key_step(pre, Key::Enter, mid, action),
        list_topics_step(mid, Ok(topics), post),
    ensures
        action == Action::FetchTopics,
        mid.input_mode == InputMode::DEFAULT,
        input_value(mid.input) == Seq::<char>::empty(),
        post.input_mode == InputMode::DEFAULT,
        input_value(post.input) == Seq::<char>::empty(),
        post.notification is None,
        post.command is ListTopics,
        is_reordering(post.command->ListTopics_0.topics@, topics@.map_values(|t: TopicMetadata| summary_of(t))),
        post.table.data.rows@.map_values(|row: Row| row_view(row))
            == post.command->ListTopics_0.topics@.map_values(|e: crate::types::ListTopicEntry| topic_row(e)),
{
}

/// Submitting text that names no command keeps the command line open, raises an
/// error notice, and leaves the active command and its table as they were.
pub proof fn lemma_unknown_command(pre: App, post: App, action: Action)
    requires
        pre.input_mode == InputMode::COMMAND,
        pre.notification is None,
        input_value(pre.input) != CMD_LIST_TOPICS@,
        key_step(pre, Key::Enter, post, action),
    ensures
        post.input_mode == InputMode::COMMAND,
        post.notification is Some,
        post.notification->Some_0.kind == PopupType::ERROR,
        post.notification->Some_0.message@ == unknown_command_message(input_value(pre.input)),
        post.command == pre.command,
        post.table == pre.table,
        input_value(post.input) == input_value(pre.input),
        action == Action::Nothing,
{
}

/// The rows the topic listing shows come in ascending byte order of topic name.
pub proof fn lemma_rendered_rows_sorted(pre: App, topics: Vec<TopicMetadata>, post: App)
    requires
        list_topics_step(pre, Ok(topics), post),
    ensures
        forall|i: int, j: int|
            0 <= i < j < post.table.data.rows@.len() ==> crate::order::name_le(
                (#[trigger] post.table.data.rows@[i]).cells@[0].text@,
                (#[trigger] post.table.data.rows@[j]).cells@[0].text@,
            ),
{
    let shown = post.command->ListTopics_0.topics@;
    let rows = post.table.data.rows@;
    assert(rows.map_values(|row: Row| row_view(row)).len() == shown.map_values(
        |e: crate::types::ListTopicEntry| topic_row(e),
    ).len());
    assert(rows.len() == shown.len());
    assert forall|i: int, j: int| 0 <= i < j < rows.len() implies crate::order::name_le(
        (#[trigger] rows[i]).cells@[0].text@,
        (#[trigger] rows[j]).cells@[0].text@,
    ) by {
        assert(rows.map_values(|row: Row| row_view(row))[i] == shown.map_values(
            |e: crate::types::ListTopicEntry| topic_row(e),
        )[i]);
        assert(rows.map_values(|row: Row| row_view(row))[j] == shown.map_values(
            |e: crate::types::ListTopicEntry| topic_row(e),
        )[j]);
        assert(row_view(rows[i]) == topic_row(shown[i]));
        assert(row_view(rows[j]) == topic_row(shown[j]));
        assert(rows[i].cells@.map_values(|c: Cell| cell_view(c)).len() == 5);
        assert(rows[j].cells@.map_values(|c: Cell| cell_view(c)).len() == 5);
        assert(row_view(rows[i]).0[0] == cell_view(rows[i].cells@[0]));
        assert(row_view(rows[j]).0[0] == cell_view(rows[j].cells@[0]));
        assert(entry_names(shown)[i] == shown[i].name@);
        assert(entry_names(shown)[j] == shown[j].name@);
    }
}

} // verus!
