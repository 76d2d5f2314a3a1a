//! The commands of the console, and what the topic listing shows and does.

use vstd::prelude::*;
use crate::order::{has_prefix, name_has_prefix, views};
use crate::session::{Action, Key, Notification, PopupType};
use crate::table::{Cell, Row, TableData, TableDefinition, WidthHint, LocalTable, cell_view, row_view};
use crate::text::{constraint_len_calculator, decimal, decimal_string, display_width};
use crate::types::{DeleteOutcome, ListTopicEntry};

verus! {

/// The text that activates the topic listing.
pub const CMD_LIST_TOPICS: &'static str = "list-topics";

/// Headers of the topic table: the name, then four numeric columns.
pub open spec fn topics_header() -> Seq<(Seq<char>, bool)> {
    seq![
        ("Name"@, false),
        ("Partitions"@, true),
        ("Replication Factor"@, true),
        ("Message Count"@, true),
        ("Size"@, true),
    ]
}

/// Cells of one topic: its name, then its numbers in decimal, aligned right.
pub open spec fn topic_cells(e: ListTopicEntry) -> Seq<(Seq<char>, bool)> {
    seq![
        (e.name@, false),
        (decimal(e.partitions as int), true),
        (decimal(e.replication_factor as int), true),
        (decimal(e.message_count as int), true),
        (decimal(e.size as int), true),
    ]
}

/// The row of one topic; internal topics, whose names start with `_`, are muted.
pub open spec fn topic_row(e: ListTopicEntry) -> (Seq<(Seq<char>, bool)>, bool) {
    (topic_cells(e), name_has_prefix(e.name@, "_"@))
}

/// The widest text of column `col` over the rows, in 16-bit width hints.
pub open spec fn longest(rows: Seq<ListTopicEntry>, col: int) -> u16
    decreases rows.len(),
{
    if rows.len() == 0 {
        0
    } else {
        let rest = longest(rows.drop_last(), col);
        let w = display_width(topic_cells(rows.last())[col].0) as u16;
        if w > rest {
            w
        } else {
            rest
        }
    }
}

/// One column of padding, unless the width is already the largest hint.
pub open spec fn padded(w: u16) -> u16 {
    if w < u16::MAX {
        (w + 1) as u16
    } else {
        w
    }
}

/// Width hints of the topic table: the name column fills the room left, numeric
/// columns fit their widest value plus one column of padding.
pub open spec fn topic_widths(rows: Seq<ListTopicEntry>) -> Seq<WidthHint> {
    seq![
        WidthHint::Fill(1),
        WidthHint::Min(padded(longest(rows, 1))),
        WidthHint::Min(padded(longest(rows, 2))),
        WidthHint::Min(padded(longest(rows, 3))),
        WidthHint::Min(padded(longest(rows, 4))),
    ]
}

fn header_cell(text: &str, right_aligned: bool) -> (r: Cell)
    ensures
        cell_view(r) == (text@, right_aligned),
{
    Cell { text: String::from_str(text), right_aligned }
}

/// Headers of the topic table; its rows can be selected.
pub fn create_list_topics_table_definition() -> (r: TableDefinition)
    ensures
        r.header@.map_values(|c: Cell| cell_view(c)) == topics_header(),
        r.selectable,
{
    let mut header: Vec<Cell> = Vec::new();
    header.push(header_cell("Name", false));
    header.push(header_cell("Partitions", true));
    header.push(header_cell("Replication Factor", true));
    header.push(header_cell("Message Count", true));
    header.push(header_cell("Size", true));
    assert(header@.map_values(|c: Cell| cell_view(c)) =~= topics_header());
    TableDefinition::new(header).selectable(true)
}

fn widest(w: u16, text: &String) -> (r: u16)
    ensures
        r == (if display_width(text@) as u16 > w { display_width(text@) as u16 } else { w }),
{
    let c = constraint_len_calculator(text.as_str());
    if c > w {
        c
    } else {
        w
    }
}

fn pad(w: u16) -> (r: u16)
    ensures
        r == padded(w),
{
    if w < u16::MAX {
        w + 1
    } else {
        w
    }
}

/// The rows of the topic table, one per topic in the given order, with the
/// width hints of its columns.
pub fn table_from(data: &Vec<ListTopicEntry>) -> (r: TableData)
    ensures
        r.rows@.map_values(|row: Row| row_view(row)) == data@.map_values(|e: ListTopicEntry| topic_row(e)),
        r.widths@ == topic_widths(data@),
{
    let mut rows: Vec<Row> = Vec::new();
    let mut w1: u16 = 0;
    let mut w2: u16 = 0;
    let mut w3: u16 = 0;
    let mut w4: u16 = 0;
    let mut i: usize = 0;
    while i < data.len()
        invariant
            i <= data@.len(),
            rows@.len() == i,
            forall|k: int| 0 <= k < i ==> row_view(#[trigger] rows@[k]) == topic_row(data@[k]),
            w1 == longest(data@.subrange(0, i as int), 1),
            w2 == longest(data@.subrange(0, i as int), 2),
            w3 == longest(data@.subrange(0, i as int), 3),
            w4 == longest(data@.subrange(0, i as int), 4),
        decreases data@.len() - i,
    {
        let e = &data[i];
        assert(data@.subrange(0, i + 1).drop_last() =~= data@.subrange(0, i as int));
        assert(data@.subrange(0, i + 1).last() == *e);
        let partitions = decimal_string(e.partitions as i64);
        let replication_factor = decimal_string(e.replication_factor as i64);
        let message_count = decimal_string(e.message_count);
        let size = decimal_string(e.size);
        w1 = widest(w1, &partitions);
        w2 = widest(w2, &replication_factor);
        w3 = widest(w3, &message_count);
        w4 = widest(w4, &size);
        let mut cells: Vec<Cell> = Vec::new();
        cells.push(Cell { text: e.name.clone(), right_aligned: false });
        cells.push(Cell { text: partitions, right_aligned: true });
        cells.push(Cell { text: replication_factor, right_aligned: true });
        cells.push(Cell { text: message_count, right_aligned: true });
        cells.push(Cell { text: size, right_aligned: true });
        let muted = has_prefix(e.name.as_str(), "_");
        let row = Row { cells, muted };
        assert(row.cells@.map_values(|c: Cell| cell_view(c)) =~= topic_cells(*e));
        rows.push(row);
        i = i + 1;
    }
    assert(data@.subrange(0, data@.len() as int) =~= data@);
    let mut widths: Vec<WidthHint> = Vec::new();
    widths.push(WidthHint::Fill(1));
    widths.push(WidthHint::Min(pad(w1)));
    widths.push(WidthHint::Min(pad(w2)));
    widths.push(WidthHint::Min(pad(w3)));
    widths.push(WidthHint::Min(pad(w4)));
    assert(widths@ =~= topic_widths(data@));
    assert(rows@.map_values(|row: Row| row_view(row)) =~= data@.map_values(|e: ListTopicEntry| topic_row(e)));
    TableData::new(rows, widths)
}

/// What the topic listing keeps: the topics it shows, row for row.
#[derive(Debug, Clone, PartialEq, Eq)]
pub struct ListTopicsState {
    pub topics: Vec<ListTopicEntry>,
}

impl ListTopicsState {
    /// No topics yet.
    pub fn new() -> (r: Self)
        ensures
            r.topics@.len() == 0,
    {
        ListTopicsState { topics: Vec::new() }
    }

    pub fn set_topics(&mut self, topics: Vec<ListTopicEntry>)
        ensures
            final(self).topics == topics,
    {
        self.topics = topics;
    }
}

/// The command that is active, with what it keeps.
#[derive(Debug, Clone, PartialEq, Eq)]
pub enum Command {
    /// No command has been run yet.
    Idle,
    ListTopics(ListTopicsState),
}

impl Command {
    /// The command that `s` names, fresh; `None` for text that names none.
    pub fn parse(s: String) -> (r: Option<Command>)
        ensures
            r is Some <==> s@ == CMD_LIST_TOPICS@,
            r is Some ==> (r->Some_0 is ListTopics && r->Some_0->ListTopics_0.topics@.len() == 0),
    {
        let list_topics = String::from_str(CMD_LIST_TOPICS);
        if s == list_topics {
            Some(Command::ListTopics(ListTopicsState::new()))
        } else {
            None
        }
    }

    /// The name shown above the command's view.
    pub fn name(self) -> (r: String)
        ensures
            self is ListTopics ==> r@ == CMD_LIST_TOPICS@,
            self is Idle ==> r@ == "none"@,
    {
        match self {
            Command::ListTopics(_) => String::from_str(CMD_LIST_TOPICS),
            Command::Idle => String::from_str("none"),
        }
    }
}

/// Names of the selected rows, in row order, looked up among the topics the
/// listing keeps; a row with no topic behind it gives none.
pub open spec fn selected_topic_names(selected: Seq<bool>, topics: Seq<ListTopicEntry>) -> Seq<Seq<char>>
    decreases selected.len(),
{
    if selected.len() == 0 {
        Seq::empty()
    } else {
        let rest = selected_topic_names(selected.drop_last(), topics);
        let i = selected.len() - 1;
        if selected.last() && i < topics.len() {
            rest.push(topics[i].name@)
        } else {
            rest
        }
    }
}

/// What the topic listing does with a key: `d` asks to delete the selected topics.
pub fn handle_key_event(key: Key, table: &LocalTable, state: &ListTopicsState) -> (r: Action)
    ensures
        key == Key::Char('d') ==> r is DeleteTopics && views(r->DeleteTopics_0@) == selected_topic_names(
            table.selected@,
            state.topics@,
        ),
        key != Key::Char('d') ==> r is Nothing,
{
    match key {
        Key::Char('d') => {
            let mut names: Vec<String> = Vec::new();
            let mut i: usize = 0;
            while i < table.selected.len()
                invariant
                    i <= table.selected@.len(),
                    views(names@) == selected_topic_names(table.selected@.subrange(0, i as int), state.topics@),
                decreases table.selected@.len() - i,
            {
                let ghost before = names@;
                assert(table.selected@.subrange(0, i + 1).drop_last() =~= table.selected@.subrange(0, i as int));
                if table.selected[i] && i < state.topics.len() {
                    names.push(state.topics[i].name.clone());
                    assert(views(names@) =~= views(before).push(state.topics@[i as int].name@));
                }
                i = i + 1;
            }
            assert(table.selected@.subrange(0, table.selected@.len() as int) =~= table.selected@);
            Action::DeleteTopics(names)
        },
        _ => Action::Nothing,
    }
}

/// `name, reason` for each failed deletion, in order.
pub open spec fn failed_items(outcomes: Seq<DeleteOutcome>) -> Seq<Seq<char>>
    decreases outcomes.len(),
{
    if outcomes.len() == 0 {
        Seq::empty()
    } else {
        let rest = failed_items(outcomes.drop_last());
        match outcomes.last().error {
            Some(e) => rest.push(outcomes.last().name@ + ", "@ + e@),
            None => rest,
        }
    }
}

/// The items joined, with `sep` between each two.
pub open spec fn joined(items: Seq<Seq<char>>, sep: Seq<char>) -> Seq<char>
    decreases items.len(),
{
    if items.len() == 0 {
        Seq::empty()
    } else if items.len() == 1 {
        items[0]
    } else {
        joined(items.drop_last(), sep) + sep + items.last()
    }
}

/// The notice after a topic deletion: success when every topic went; else an
/// error listing each failure, one per line; or the error of the whole request.
pub open spec fn deletion_notice(result: Result<Vec<DeleteOutcome>, String>) -> (PopupType, Seq<char>) {
    match result {
        Ok(outcomes) => {
            let items = failed_items(outcomes@);
            if items.len() == 0 {
                (PopupType::SUCCESS, "Topics deleted successfully"@)
            } else {
                (PopupType::ERROR, "Failed to delete topics:\n"@ + joined(items, "\n"@))
            }
        },
        Err(e) => (PopupType::ERROR, e@),
    }
}

/// Builds the notice that reports a topic deletion.
pub fn deletion_notification(result: Result<Vec<DeleteOutcome>, String>) -> (r: Notification)
    ensures
        (r.kind, r.message@) == deletion_notice(result),
{
    match result {
        Ok(outcomes) => {
            let mut message = String::from_str("Failed to delete topics:\n");
            let mut count: usize = 0;
            let mut i: usize = 0;
            while i < outcomes.len()
                invariant
                    i <= outcomes@.len(),
                    count == failed_items(outcomes@.subrange(0, i as int)).len(),
                    count <= i,
                    message@ == "Failed to delete topics:\n"@ + joined(
                        failed_items(outcomes@.subrange(0, i as int)),
                        "\n"@,
                    ),
                decreases outcomes@.len() - i,
            {
                assert(outcomes@.subrange(0, i + 1).drop_last() =~= outcomes@.subrange(0, i as int));
                let o = &outcomes[i];
                match &o.error {
                    Some(e) => {
                        let ghost items = failed_items(outcomes@.subrange(0, i as int));
                        if count > 0 {
                            message.append("\n");
                        }
                        message.append(o.name.as_str());
                        message.append(", ");
                        message.append(e.as_str());
                        count = count + 1;
                        proof {
                            let item = o.name@ + ", "@ + e@;
                            let next = items.push(item);
                            assert(next.drop_last() =~= items);
                            if items.len() == 0 {
                                assert(joined(next, "\n"@) == item);
                            }
                        }
                        assert(message@ =~= "Failed to delete topics:\n"@ + joined(
                            failed_items(outcomes@.subrange(0, i + 1)),
                            "\n"@,
                        ));
                    },
                    None => {},
                }
                i = i + 1;
            }
            assert(outcomes@.subrange(0, outcomes@.len() as int) =~= outcomes@);
            if count == 0 {
                Notification { kind: PopupType::SUCCESS, message: String::from_str("Topics deleted successfully") }
            } else {
                Notification { kind: PopupType::ERROR, message }
            }
        },
        Err(e) => Notification { kind: PopupType::ERROR, message: e },
    }
}

} // verus!
