use kafka_console::args::{
    ClusterArgs, ClusterCommands, ConsumerArgs, ConsumerCommands, DeleteConsumerArgs, ListConsumerArgs,
    TopicsArgs, TopicsCommands,
};
use kafka_console::brokers::list_brokers;
use kafka_console::config::create_config;
use kafka_console::types::ListBrokerEntry;
use kafka_console::data::generate_fake_names;
use kafka_console::text::constraint_len_calculator;

#[test]
fn config_sets_bootstrap_servers() {
    let c = create_config("localhost:9092".to_string(), false);
    assert_eq!(c.get("bootstrap.servers"), Some("localhost:9092"));
    assert_eq!(c.get("security.protocol"), None);
}

#[test]
fn config_with_iam_uses_oauthbearer() {
    let c = create_config("b:9098".to_string(), true);
    assert_eq!(c.get("bootstrap.servers"), Some("b:9098"));
    assert_eq!(c.get("security.protocol"), Some("sasl_ssl"));
    assert_eq!(c.get("sasl.mechanisms"), Some("OAUTHBEARER"));
}

#[test]
fn width_of_text() {
    assert_eq!(constraint_len_calculator(""), 0);
    assert_eq!(constraint_len_calculator("orders"), 6);
    assert_eq!(constraint_len_calculator("日本"), 4);
}

#[test]
fn fake_names_are_sorted() {
    let people = generate_fake_names();
    assert_eq!(people.len(), 20);
    for w in people.windows(2) {
        assert!(w[0].name().as_bytes() <= w[1].name().as_bytes());
    }
    for p in &people {
        assert!(p.address().contains('\n'));
        assert!(!p.email().is_empty());
    }
}

#[test]
fn subcommand_defaults() {
    assert_eq!(ClusterArgs { command: None }.command_or_default(), ClusterCommands::Brokers);
    assert_eq!(
        ConsumerArgs { command: None }.command_or_default(),
        ConsumerCommands::List(ListConsumerArgs { consumer_group: None })
    );
    let delete = ConsumerCommands::Delete(DeleteConsumerArgs { consumer_group: Some("p".to_string()) });
    assert_eq!(ConsumerArgs { command: Some(delete.clone()) }.command_or_default(), delete);
    assert_eq!(TopicsArgs { command: None }.command_or_default(), TopicsCommands::List);
}

#[test]
fn broker_line_shows_id_host_and_port() {
    let b = ListBrokerEntry { id: 3, host: "b-3.kafka".to_string(), port: 9092 };
    assert_eq!(b.line(), "[3] b-3.kafka:9092");
}

#[test]
fn brokers_are_sorted_by_id() {
    let b = |id: i32, host: &str| ListBrokerEntry { id, host: host.to_string(), port: 9092 };
    let sorted = list_brokers(&vec![b(3, "c"), b(1, "a"), b(2, "b"), b(1, "a2")]);
    let got: Vec<(i32, &str)> = sorted.iter().map(|x| (x.id, x.host.as_str())).collect();
    assert_eq!(got, vec![(1, "a"), (1, "a2"), (2, "b"), (3, "c")]);
    assert!(list_brokers(&vec![]).is_empty());
}

#[test]
fn decimal_text_of_extreme_values() {
    let b = ListBrokerEntry { id: i32::MIN, host: "h".to_string(), port: 0 };
    assert_eq!(b.line(), "[-2147483648] h:0");
    let b = ListBrokerEntry { id: i32::MAX, host: "h".to_string(), port: 10 };
    assert_eq!(b.line(), "[2147483647] h:10");
}
