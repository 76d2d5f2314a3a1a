use kafka_console::command::{
    create_list_topics_table_definition, deletion_notification, handle_key_event, table_from, Command,
    ListTopicsState,
};
use kafka_console::session::{Action, App, InputMode, Key, PopupType, PopupWidget};
use kafka_console::table::{LocalTable, WidthHint};
use kafka_console::topics::{PartitionMetadata, TopicMetadata};
use kafka_console::types::{DeleteOutcome, ListTopicEntry};

fn type_text(app: &mut App, text: &str) {
    for c in text.chars() {
        assert_eq!(app.handle_key_event(Key::Char(c)), Action::Nothing);
    }
}

fn sample_topics() -> Vec<TopicMetadata> {
    vec![
        TopicMetadata {
            name: "orders".to_string(),
            partitions: vec![
                PartitionMetadata { id: 0, replicas: vec![1, 2], watermarks: Some((0, 100)) },
                PartitionMetadata { id: 1, replicas: vec![2, 1], watermarks: Some((10, 60)) },
            ],
        },
        TopicMetadata { name: "_schemas".to_string(), partitions: vec![] },
        TopicMetadata {
            name: "audit".to_string(),
            partitions: vec![PartitionMetadata { id: 0, replicas: vec![3], watermarks: None }],
        },
    ]
}

fn app_listing_topics() -> App {
    let mut app = App::new();
    app.handle_key_event(Key::Char(':'));
    type_text(&mut app, "list-topics");
    assert_eq!(app.handle_key_event(Key::Enter), Action::FetchTopics);
    app.complete_list_topics(Ok(sample_topics()));
    app
}

fn entry(name: &str, partitions: i32, rf: i32, count: i64) -> ListTopicEntry {
    ListTopicEntry { name: name.to_string(), partitions, replication_factor: rf, message_count: count, size: 0 }
}

#[test]
fn new_session_starts_idle() {
    let app = App::new();
    assert_eq!(app.input_mode(), InputMode::DEFAULT);
    assert_eq!(app.input_text(), "");
    assert_eq!(*app.command(), Command::Idle);
    assert!(app.notification().is_none());
    assert!(!app.should_exit());
    assert_eq!(app.table().data().rows.len(), 0);
}

#[test]
fn submitting_list_topics_activates_the_listing() {
    let mut app = App::new();
    app.handle_key_event(Key::Char(':'));
    assert_eq!(app.input_mode(), InputMode::COMMAND);
    type_text(&mut app, "list-topics");
    assert_eq!(app.input_text(), "list-topics");
    assert_eq!(app.handle_key_event(Key::Enter), Action::FetchTopics);
    assert_eq!(app.input_mode(), InputMode::DEFAULT);
    assert_eq!(app.input_text(), "");
    assert!(matches!(app.command(), Command::ListTopics(_)));
    app.complete_list_topics(Ok(sample_topics()));
    let rows = &app.table().data().rows;
    let first: Vec<&str> = rows.iter().map(|r| r.cells[0].text.as_str()).collect();
    assert_eq!(first, vec!["_schemas", "audit", "orders"]);
    assert_eq!(rows[2].cells[3].text, "150");
    assert!(rows[0].muted);
    assert!(!rows[1].muted);
    match app.command() {
        Command::ListTopics(state) => {
            assert_eq!(state.topics, vec![entry("_schemas", 0, 0, 0), entry("audit", 1, 1, 0), entry("orders", 2, 2, 150)])
        }
        Command::Idle => panic!("the listing is not active"),
    }
}

#[test]
fn unknown_command_keeps_entry_mode_and_table() {
    let mut app = app_listing_topics();
    let before = app.table().clone();
    app.handle_key_event(Key::Char(':'));
    type_text(&mut app, "list-foo");
    assert_eq!(app.handle_key_event(Key::Enter), Action::Nothing);
    assert_eq!(app.input_mode(), InputMode::COMMAND);
    let n = app.notification().clone().unwrap();
    assert_eq!(n.kind, PopupType::ERROR);
    assert_eq!(n.message, "Unknown command 'list-foo'");
    assert_eq!(*app.table(), before);
    assert!(matches!(app.command(), Command::ListTopics(_)));
    assert_eq!(app.input_text(), "list-foo");
}

#[test]
fn escape_dismisses_notice_before_leaving_entry_mode() {
    let mut app = App::new();
    app.handle_key_event(Key::Char(':'));
    type_text(&mut app, "nope");
    app.handle_key_event(Key::Enter);
    assert!(app.is_open());
    type_text(&mut app, "x");
    assert_eq!(app.input_text(), "nope");
    app.handle_key_event(Key::Esc);
    assert!(!app.is_open());
    assert_eq!(app.input_mode(), InputMode::COMMAND);
    app.handle_key_event(Key::Esc);
    assert_eq!(app.input_mode(), InputMode::DEFAULT);
    assert_eq!(app.input_text(), "");
}

#[test]
fn command_line_editing_keys() {
    let mut app = App::new();
    app.handle_key_event(Key::Char(':'));
    type_text(&mut app, "lst");
    app.handle_key_event(Key::Left);
    app.handle_key_event(Key::Left);
    type_text(&mut app, "i");
    assert_eq!(app.input_text(), "list");
    app.handle_key_event(Key::End);
    app.handle_key_event(Key::Backspace);
    assert_eq!(app.input_text(), "lis");
    app.handle_key_event(Key::Home);
    app.handle_key_event(Key::Delete);
    assert_eq!(app.input_text(), "is");
}

#[test]
fn quit_and_ctrl_c_end_the_session() {
    let mut app = App::new();
    app.handle_key_event(Key::Char('q'));
    assert!(app.should_exit());
    let mut app = App::new();
    app.handle_key_event(Key::Char(':'));
    app.handle_key_event(Key::CtrlC);
    assert!(app.should_exit());
}

#[test]
fn selection_is_cleared_when_the_listing_runs_again() {
    let mut app = app_listing_topics();
    app.handle_key_event(Key::Down);
    app.handle_key_event(Key::Char(' '));
    app.handle_key_event(Key::Down);
    app.handle_key_event(Key::Char(' '));
    assert!(app.table().is_selected(0));
    assert!(app.table().is_selected(1));
    assert!(!app.table().is_selected(2));
    assert!(!app.table().is_selected(7));
    app.handle_key_event(Key::Char(':'));
    type_text(&mut app, "list-topics");
    app.handle_key_event(Key::Enter);
    assert!(!app.table().is_selected(0));
    app.complete_list_topics(Ok(sample_topics()));
    for i in 0..3 {
        assert!(!app.table().is_selected(i));
    }
    assert_eq!(app.table().cursor(), None);
}

#[test]
fn cursor_stays_within_rows() {
    let mut app = app_listing_topics();
    app.handle_key_event(Key::Up);
    assert_eq!(app.table().cursor(), Some(2));
    app.handle_key_event(Key::Down);
    assert_eq!(app.table().cursor(), Some(2));
    for _ in 0..5 {
        app.handle_key_event(Key::Up);
    }
    assert_eq!(app.table().cursor(), Some(0));
}

#[test]
fn delete_key_asks_to_delete_selected_topics() {
    let mut app = app_listing_topics();
    app.handle_key_event(Key::Down);
    app.handle_key_event(Key::Down);
    app.handle_key_event(Key::Down);
    app.handle_key_event(Key::Char(' '));
    app.handle_key_event(Key::Up);
    app.handle_key_event(Key::Char(' '));
    let action = app.handle_key_event(Key::Char('d'));
    assert_eq!(action, Action::DeleteTopics(vec!["audit".to_string(), "orders".to_string()]));
    app.complete_topic_deletion(Ok(vec![
        DeleteOutcome { name: "audit".to_string(), error: None },
        DeleteOutcome { name: "orders".to_string(), error: None },
    ]));
    let n = app.notification().clone().unwrap();
    assert_eq!(n.kind, PopupType::SUCCESS);
    assert_eq!(n.message, "Topics deleted successfully");
    assert_eq!(app.table().data().rows.len(), 3);
}

#[test]
fn failed_topic_deletions_are_listed() {
    let n = deletion_notification(Ok(vec![
        DeleteOutcome { name: "a".to_string(), error: Some("denied".to_string()) },
        DeleteOutcome { name: "b".to_string(), error: None },
        DeleteOutcome { name: "c".to_string(), error: Some("timeout".to_string()) },
    ]));
    assert_eq!(n.kind, PopupType::ERROR);
    assert_eq!(n.message, "Failed to delete topics:\na, denied\nc, timeout");
    let n = deletion_notification(Err("broker down".to_string()));
    assert_eq!(n.kind, PopupType::ERROR);
    assert_eq!(n.message, "broker down");
}

#[test]
fn failed_fetch_leaves_an_empty_table_and_an_error() {
    let mut app = app_listing_topics();
    app.handle_key_event(Key::Char(':'));
    type_text(&mut app, "list-topics");
    app.handle_key_event(Key::Enter);
    app.complete_list_topics(Err("metadata timeout".to_string()));
    assert_eq!(app.table().data().rows.len(), 0);
    let n = app.notification().clone().unwrap();
    assert_eq!(n.kind, PopupType::ERROR);
    assert_eq!(n.message, "metadata timeout");
}

#[test]
fn keys_without_command_change_nothing() {
    let mut app = App::new();
    assert_eq!(app.handle_key_event(Key::Char('d')), Action::Nothing);
    assert_eq!(app.handle_key_event(Key::Down), Action::Nothing);
    assert_eq!(app.table().cursor(), None);
}

#[test]
fn popup_opens_and_closes() {
    let mut app = App::new();
    app.open(PopupType::SUCCESS, "done".to_string());
    assert!(app.is_open());
    app.close();
    assert!(!app.is_open());
}

#[test]
fn command_parse_and_name() {
    assert!(matches!(Command::parse("list-topics".to_string()), Some(Command::ListTopics(_))));
    assert!(Command::parse("List-Topics".to_string()).is_none());
    assert!(Command::parse("list-foo".to_string()).is_none());
    assert_eq!(Command::ListTopics(ListTopicsState::new()).name(), "list-topics");
    assert_eq!(Command::Idle.name(), "none");
}

#[test]
fn topic_table_rows_and_widths() {
    let data = vec![entry("_offsets", 50, 3, 123456), entry("b", 7, 10, -5)];
    let t = table_from(&data);
    assert_eq!(t.widths, vec![WidthHint::Fill(1), WidthHint::Min(3), WidthHint::Min(3), WidthHint::Min(7), WidthHint::Min(2)]);
    let texts: Vec<&str> = t.rows[1].cells.iter().map(|c| c.text.as_str()).collect();
    assert_eq!(texts, vec!["b", "7", "10", "-5", "0"]);
    assert!(t.rows[0].muted);
    assert!(!t.rows[1].cells[0].right_aligned);
    assert!(t.rows[1].cells[1].right_aligned);
    let empty = table_from(&vec![]);
    assert_eq!(empty.widths, vec![WidthHint::Fill(1), WidthHint::Min(1), WidthHint::Min(1), WidthHint::Min(1), WidthHint::Min(1)]);
}

#[test]
fn topic_table_definition_headers() {
    let d = create_list_topics_table_definition();
    let headers: Vec<&str> = d.header.iter().map(|c| c.text.as_str()).collect();
    assert_eq!(headers, vec!["Name", "Partitions", "Replication Factor", "Message Count", "Size"]);
    assert!(d.selectable);
}

#[test]
fn handler_resolves_selected_rows_through_kept_topics() {
    let mut state = ListTopicsState::new();
    state.set_topics(vec![entry("x", 1, 1, 0)]);
    let mut table = LocalTable::new();
    table.set_content(create_list_topics_table_definition(), table_from(&vec![entry("x", 1, 1, 0), entry("y", 1, 1, 0)]));
    table.select_next();
    table.toggle_selected();
    table.select_next();
    table.toggle_selected();
    assert_eq!(handle_key_event(Key::Char('d'), &table, &state), Action::DeleteTopics(vec!["x".to_string()]));
    assert_eq!(handle_key_event(Key::Char('x'), &table, &state), Action::Nothing);
}

#[test]
fn table_shows_extreme_counts_in_decimal() {
    let t = table_from(&vec![entry("t", 0, 0, i64::MIN)]);
    assert_eq!(t.rows[0].cells[3].text, "-9223372036854775808");
    assert_eq!(t.rows[0].cells[1].text, "0");
    assert_eq!(t.widths[3], WidthHint::Min(21));
}
