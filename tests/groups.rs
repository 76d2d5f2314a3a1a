use kafka_console::groups::{groups_to_delete, list};
use kafka_console::order::filter_group;
use kafka_console::types::ListConsumerGroupEntry;

fn group(name: &str, state: &str) -> ListConsumerGroupEntry {
    ListConsumerGroupEntry { name: name.to_string(), state: state.to_string() }
}

#[test]
fn group_filter_is_a_case_sensitive_prefix() {
    assert!(filter_group("payments-v1", &Some("payments".to_string())));
    assert!(!filter_group("payments-v1", &Some("Payments".to_string())));
    assert!(!filter_group("payments-v1", &Some("v1".to_string())));
    assert!(filter_group("payments-v1", &None));
    assert!(filter_group("payments-v1", &Some(String::new())));
}

#[test]
fn groups_are_filtered_and_sorted() {
    let groups = vec![group("payments-v2", "Stable"), group("orders", "Empty"), group("payments-v1", "Dead")];
    let listed = list(&groups, &Some("payments".to_string()));
    assert_eq!(listed, vec![group("payments-v1", "Dead"), group("payments-v2", "Stable")]);
    let all = list(&groups, &None);
    let names: Vec<&str> = all.iter().map(|g| g.name.as_str()).collect();
    assert_eq!(names, vec!["orders", "payments-v1", "payments-v2"]);
}

#[test]
fn deleting_groups_without_filter_targets_all() {
    let groups = vec![group("b", "Stable"), group("a", "Empty")];
    assert_eq!(groups_to_delete(&groups, &None), vec!["a".to_string(), "b".to_string()]);
    assert_eq!(groups_to_delete(&groups, &Some("b".to_string())), vec!["b".to_string()]);
    assert!(groups_to_delete(&groups, &Some("c".to_string())).is_empty());
}
