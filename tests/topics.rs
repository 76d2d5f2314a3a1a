use kafka_console::args::TopicsDeleteArgs;
use kafka_console::topics::{
    deletion_failures, list_topics, list_topics_names, matching_topics, plan_topic_deletion, summarize_topic,
    topic_fits, topics_fit, PartitionMetadata, TopicDeletion, TopicMetadata,
};
use kafka_console::types::DeleteOutcome;

fn partition(id: i32, replicas: Vec<i32>, watermarks: Option<(i64, i64)>) -> PartitionMetadata {
    PartitionMetadata { id, replicas, watermarks }
}

fn topic(name: &str, partitions: Vec<PartitionMetadata>) -> TopicMetadata {
    TopicMetadata { name: name.to_string(), partitions }
}

fn names(v: &[&str]) -> Vec<String> {
    v.iter().map(|s| s.to_string()).collect()
}

#[test]
fn message_count_sums_known_watermarks() {
    let orders = topic(
        "orders",
        vec![
            partition(0, vec![1, 2, 3], Some((0, 100))),
            partition(1, vec![2, 3, 1], Some((10, 60))),
        ],
    );
    let s = summarize_topic(&orders);
    assert_eq!(s.message_count, 150);
    assert_eq!(s.partitions, 2);
    assert_eq!(s.size, 0);
}

#[test]
fn failed_watermark_fetch_contributes_nothing() {
    let orders = topic(
        "orders",
        vec![
            partition(0, vec![1], Some((0, 100))),
            partition(1, vec![1], Some((10, 60))),
            partition(2, vec![1], None),
        ],
    );
    let s = summarize_topic(&orders);
    assert_eq!(s.name, "orders");
    assert_eq!(s.message_count, 150);
    assert_eq!(s.partitions, 3);
}

#[test]
fn replication_factor_is_longest_replica_list() {
    let t = topic(
        "payments",
        vec![
            partition(0, vec![7, 8], Some((0, 1))),
            partition(1, vec![1, 2, 3], Some((0, 1))),
            partition(2, vec![4], Some((0, 1))),
        ],
    );
    assert_eq!(summarize_topic(&t).replication_factor, 3);
}

#[test]
fn topic_without_partitions_has_replication_factor_zero() {
    let t = topic("empty", vec![]);
    let s = summarize_topic(&t);
    assert_eq!(s.replication_factor, 0);
    assert_eq!(s.partitions, 0);
    assert_eq!(s.message_count, 0);
}

#[test]
fn listed_topics_are_sorted_by_name() {
    let topics = vec![
        topic("orders", vec![partition(0, vec![1], Some((0, 5)))]),
        topic("_internal", vec![]),
        topic("Zeta", vec![]),
        topic("alpha", vec![partition(0, vec![1, 2], None)]),
    ];
    let rows = list_topics(&topics);
    let got: Vec<&str> = rows.iter().map(|r| r.name.as_str()).collect();
    assert_eq!(got, vec!["Zeta", "_internal", "alpha", "orders"]);
    assert_eq!(rows[3].message_count, 5);
    assert_eq!(rows[2].replication_factor, 2);
}

#[test]
fn listed_topic_names_are_sorted_bytewise() {
    let sorted = list_topics_names(&names(&["b", "a", "B", "ab", "é", "z"]));
    assert_eq!(sorted, names(&["B", "a", "ab", "b", "z", "é"]));
}

#[test]
fn range_check_rejects_overflowing_counts() {
    let ok = topic("t", vec![partition(0, vec![1], Some((0, i64::MAX)))]);
    assert!(topic_fits(&ok));
    let too_many = topic(
        "t",
        vec![partition(0, vec![1], Some((0, i64::MAX))), partition(1, vec![1], Some((0, 1)))],
    );
    assert!(!topic_fits(&too_many));
    let wide = topic("t", vec![partition(0, vec![1], Some((i64::MIN, 1)))]);
    assert!(!topic_fits(&wide));
    assert!(topics_fit(&vec![ok.clone()]));
    assert!(!topics_fit(&vec![ok, too_many]));
}

#[test]
fn dry_run_shows_what_a_run_would_delete() {
    let all = names(&["orders", "orders-dlq", "payments", "Orders"]);
    let filter = Some("orders".to_string());
    let dry = plan_topic_deletion(&all, &TopicsDeleteArgs { topic_name: filter.clone(), run: false });
    let real = plan_topic_deletion(&all, &TopicsDeleteArgs { topic_name: filter, run: true });
    let expected = names(&["orders", "orders-dlq"]);
    assert_eq!(dry, TopicDeletion::DryRun(expected.clone()));
    assert_eq!(real, TopicDeletion::Delete(expected));
}

#[test]
fn deletion_without_filter_targets_every_topic() {
    let all = names(&["a", "b"]);
    let plan = plan_topic_deletion(&all, &TopicsDeleteArgs { topic_name: None, run: false });
    assert_eq!(plan, TopicDeletion::DryRun(all.clone()));
    assert_eq!(matching_topics(&all, &None), all);
}

#[test]
fn failed_deletions_are_reported_one_line_each() {
    let outcomes = vec![
        DeleteOutcome { name: "a".to_string(), error: None },
        DeleteOutcome { name: "b".to_string(), error: Some("UnknownTopicOrPartition".to_string()) },
        DeleteOutcome { name: "c".to_string(), error: Some("Timeout".to_string()) },
    ];
    assert_eq!(
        deletion_failures(&outcomes),
        names(&["Unable to delete topic b: UnknownTopicOrPartition", "Unable to delete topic c: Timeout"])
    );
    assert!(deletion_failures(&vec![]).is_empty());
}
