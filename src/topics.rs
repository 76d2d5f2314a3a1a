//! Topic statistics from partition facts, topic listings and deletion plans.

use vstd::prelude::*;
use crate::args::TopicsDeleteArgs;
use crate::order::{
    filter_group, filter_view, is_permutation, is_reordering, matching_names, name_order,
    names_sorted, views,
};
use crate::types::DeleteOutcome;
use crate::types::ListTopicEntry;

verus! {

/// One partition of a topic: its id, the brokers holding its replicas, and its
/// `(low, high)` watermark offsets, `None` when fetching them failed.
#[derive(Debug, Clone, PartialEq, Eq)]
pub struct PartitionMetadata {
    pub id: i32,
    pub replicas: Vec<i32>,
    pub watermarks: Option<(i64, i64)>,
}

/// A topic and its partitions, as the cluster reported them.
#[derive(Debug, Clone, PartialEq, Eq)]
pub struct TopicMetadata {
    pub name: String,
    pub partitions: Vec<PartitionMetadata>,
}

/// Messages a partition holds: `high - low`, or 0 when its watermarks are unknown.
pub open spec fn partition_messages(p: PartitionMetadata) -> int {
    match p.watermarks {
        Some((low, high)) => high - low,
        None => 0,
    }
}

/// Messages over all partitions whose watermarks are known.
pub open spec fn message_total(parts: Seq<PartitionMetadata>) -> int
    decreases parts.len(),
{
    if parts.len() == 0 {
        0
    } else {
        message_total(parts.drop_last()) + partition_messages(parts.last())
    }
}

/// The longest replica list among the partitions; 0 when there are none.
pub open spec fn max_replicas(parts: Seq<PartitionMetadata>) -> int
    decreases parts.len(),
{
    if parts.len() == 0 {
        0
    } else {
        let rest = max_replicas(parts.drop_last());
        let last = parts.last().replicas@.len() as int;
        if last > rest {
            last
        } else {
            rest
        }
    }
}

/// Counts of the topic fit the summary's integer fields, and so does the message
/// count summed in partition order.
pub open spec fn topic_in_range(t: TopicMetadata) -> bool {
    let parts = t.partitions@;
    &&& parts.len() <= i32::MAX
    &&& forall|k: int| 0 <= k < parts.len() ==> (#[trigger] parts[k]).replicas@.len() <= i32::MAX
    &&& forall|k: int| 0 <= k < parts.len() ==> i64::MIN <= partition_messages(#[trigger] parts[k]) <= i64::MAX
    &&& forall|k: int| 0 <= k <= parts.len() ==> i64::MIN <= #[trigger] message_total(parts.subrange(0, k)) <= i64::MAX
}

/// The summary row of a topic.
pub open spec fn summary_of(t: TopicMetadata) -> ListTopicEntry {
    ListTopicEntry {
        name: t.name,
        partitions: t.partitions@.len() as i32,
        replication_factor: max_replicas(t.partitions@) as i32,
        message_count: message_total(t.partitions@) as i64,
        size: 0,
    }
}

/// A partition whose watermarks could not be fetched adds no messages, and does
/// not stop the others from counting.
pub proof fn lemma_unknown_watermarks_add_nothing(parts: Seq<PartitionMetadata>, p: PartitionMetadata)
    requires
        p.watermarks is None,
    ensures
        message_total(parts.push(p)) == message_total(parts),
{
    assert(parts.push(p).drop_last() =~= parts);
}

/// The replication factor is the length of the longest replica list: no
/// partition has more replicas, one has exactly that many, and a topic without
/// partitions has 0.
pub proof fn lemma_replication_factor_is_max(parts: Seq<PartitionMetadata>)
    ensures
        forall|k: int| 0 <= k < parts.len() ==> (#[trigger] parts[k]).replicas@.len() <= max_replicas(parts),
        parts.len() == 0 ==> max_replicas(parts) == 0,
        parts.len() > 0 ==> exists|k: int| 0 <= k < parts.len() && max_replicas(parts) == (#[trigger] parts[k]).replicas@.len(),
    decreases parts.len(),
{
    if parts.len() > 0 {
        let rest = parts.drop_last();
        lemma_replication_factor_is_max(rest);
        assert forall|k: int| 0 <= k < parts.len() implies (#[trigger] parts[k]).replicas@.len() <= max_replicas(parts) by {
            if k < parts.len() - 1 {
                assert(parts[k] == rest[k]);
            }
        }
        if parts.last().replicas@.len() as int > max_replicas(rest) {
            assert(max_replicas(parts) == parts[parts.len() - 1].replicas@.len());
        } else if rest.len() == 0 {
            assert(max_replicas(parts) == parts[parts.len() - 1].replicas@.len());
        } else {
            let k = choose|k: int| 0 <= k < rest.len() && max_replicas(rest) == (#[trigger] rest[k]).replicas@.len();
            assert(parts[k] == rest[k]);
        }
    }
}

/// Names of a sequence of topic rows.
pub open spec fn entry_names(rows: Seq<ListTopicEntry>) -> Seq<Seq<char>> {
    rows.map_values(|e: ListTopicEntry| e.name@)
}

/// Whether the topic's counts fit its summary (see `topic_in_range`).
pub fn topic_fits(t: &TopicMetadata) -> (r: bool)
    ensures
        r == topic_in_range(*t),
{
    let parts = &t.partitions;
    if parts.len() > i32::MAX as usize {
        return false;
    }
    let mut total: i64 = 0;
    let mut i: usize = 0;
    assert(parts@.subrange(0, 0) =~= Seq::<PartitionMetadata>::empty());
    while i < parts.len()
        invariant
            parts == &t.partitions,
            parts@.len() <= i32::MAX,
            i <= parts@.len(),
            total as int == message_total(parts@.subrange(0, i as int)),
            forall|k: int| 0 <= k < i ==> (#[trigger] parts@[k]).replicas@.len() <= i32::MAX,
            forall|k: int| 0 <= k < i ==> i64::MIN <= partition_messages(#[trigger] parts@[k]) <= i64::MAX,
            forall|k: int| 0 <= k <= i ==> i64::MIN <= #[trigger] message_total(parts@.subrange(0, k)) <= i64::MAX,
        decreases parts@.len() - i,
    {
        let p = &parts[i];
        assert(parts@.subrange(0, i + 1).drop_last() =~= parts@.subrange(0, i as int));
        if p.replicas.len() > i32::MAX as usize {
            return false;
        }
        match p.watermarks {
            Some((low, high)) => {
                let diff: i128 = high as i128 - low as i128;
                if diff < i64::MIN as i128 || diff > i64::MAX as i128 {
                    return false;
                }
                let next: i128 = total as i128 + diff;
                if next < i64::MIN as i128 || next > i64::MAX as i128 {
                    assert(parts@.subrange(0, i + 1).last() == parts@[i as int]);
                    assert(message_total(parts@.subrange(0, i + 1)) == next);
                    return false;
                }
                total = next as i64;
            },
            None => {},
        }
        i = i + 1;
    }
    assert(parts@.subrange(0, parts@.len() as int) =~= parts@);
    true
}

/// Whether every topic's counts fit its summary.
pub fn topics_fit(topics: &Vec<TopicMetadata>) -> (r: bool)
    ensures
        r == forall|k: int| 0 <= k < topics@.len() ==> topic_in_range(#[trigger] topics@[k]),
{
    let mut i: usize = 0;
    while i < topics.len()
        invariant
            i <= topics@.len(),
            forall|k: int| 0 <= k < i ==> topic_in_range(#[trigger] topics@[k]),
        decreases topics@.len() - i,
    {
        if !topic_fits(&topics[i]) {
            return false;
        }
        i = i + 1;
    }
    true
}

/// The summary of one topic.
pub fn summarize_topic(t: &TopicMetadata) -> (r: ListTopicEntry)
    requires
        topic_in_range(*t),
    ensures
        r == summary_of(*t),
{
    let parts = &t.partitions;
    let mut total: i64 = 0;
    let mut longest: usize = 0;
    let mut i: usize = 0;
    assert(parts@.subrange(0, 0) =~= Seq::<PartitionMetadata>::empty());
    while i < parts.len()
        invariant
            topic_in_range(*t),
            parts == &t.partitions,
            i <= parts@.len(),
            total as int == message_total(parts@.subrange(0, i as int)),
            longest as int == max_replicas(parts@.subrange(0, i as int)),
            longest <= i32::MAX,
        decreases parts@.len() - i,
    {
        let p = &parts[i];
        assert(parts@.subrange(0, i + 1).drop_last() =~= parts@.subrange(0, i as int));
        assert(topic_in_range(*t) ==> i64::MIN <= message_total(parts@.subrange(0, i + 1)) <= i64::MAX);
        assert(i64::MIN <= partition_messages(parts@[i as int]) <= i64::MAX);
        match p.watermarks {
            Some((low, high)) => {
                total = total + (high - low);
            },
            None => {},
        }
        if p.replicas.len() > longest {
            longest = p.replicas.len();
        }
        i = i + 1;
    }
    assert(parts@.subrange(0, parts@.len() as int) =~= parts@);
    ListTopicEntry {
        name: t.name.clone(),
        partitions: parts.len() as i32,
        replication_factor: longest as i32,
        message_count: total,
        size: 0,
    }
}

/// One summary row per topic, in ascending byte order of name.
pub fn list_topics(topics: &Vec<TopicMetadata>) -> (r: Vec<ListTopicEntry>)
    requires
        forall|k: int| 0 <= k < topics@.len() ==> topic_in_range(#[trigger] topics@[k]),
    ensures
        names_sorted(entry_names(r@)),
        r@.len() == topics@.len(),
        is_reordering(r@, topics@.map_values(|t: TopicMetadata| summary_of(t))),
{
    let mut names: Vec<String> = Vec::new();
    let mut i: usize = 0;
    while i < topics.len()
        invariant
            i <= topics@.len(),
            names@.len() == i,
            forall|k: int| 0 <= k < i ==> #[trigger] names@[k] == topics@[k].name,
        decreases topics@.len() - i,
    {
        names.push(topics[i].name.clone());
        i = i + 1;
    }
    let order = name_order(&names);
    let ghost summaries = topics@.map_values(|t: TopicMetadata| summary_of(t));
    let mut r: Vec<ListTopicEntry> = Vec::new();
    let mut k: usize = 0;
    while k < order.len()
        invariant
            forall|j: int| 0 <= j < topics@.len() ==> topic_in_range(#[trigger] topics@[j]),
            names@.len() == topics@.len(),
            forall|j: int| 0 <= j < names@.len() ==> #[trigger] names@[j] == topics@[j].name,
            is_permutation(order@.map_values(|x: usize| x as int), names@.len()),
            k <= order@.len(),
            r@.len() == k,
            forall|j: int| 0 <= j < k ==> #[trigger] r@[j] == summaries[order@[j] as int],
            summaries == topics@.map_values(|t: TopicMetadata| summary_of(t)),
        decreases order@.len() - k,
    {
        assert(order@.map_values(|x: usize| x as int)[k as int] == order@[k as int] as int);
        r.push(summarize_topic(&topics[order[k]]));
        k = k + 1;
    }
    proof {
        let p = order@.map_values(|x: usize| x as int);
        assert forall|j: int| 0 <= j < r@.len() implies r@[j] == summaries[#[trigger] p[j]] by {}
        assert(is_permutation(p, summaries.len()));
        assert forall|a: int, b: int| 0 <= a < b < r@.len() implies crate::order::name_le(
            #[trigger] entry_names(r@)[a],
            #[trigger] entry_names(r@)[b],
        ) by {
            assert(p[a] == order@[a] as int && p[b] == order@[b] as int);
            assert(r@[a] == summary_of(topics@[p[a]]));
            assert(r@[b] == summary_of(topics@[p[b]]));
            assert(names@[order@[a] as int]@ == r@[a].name@);
            assert(names@[order@[b] as int]@ == r@[b].name@);
        }
    }
    r
}

/// The topic names in ascending byte order.
pub fn list_topics_names(names: &Vec<String>) -> (r: Vec<String>)
    ensures
        names_sorted(views(r@)),
        is_reordering(views(r@), views(names@)),
{
    let order = name_order(names);
    let mut r: Vec<String> = Vec::new();
    let mut k: usize = 0;
    while k < order.len()
        invariant
            is_permutation(order@.map_values(|x: usize| x as int), names@.len()),
            k <= order@.len(),
            r@.len() == k,
            forall|j: int| 0 <= j < k ==> #[trigger] r@[j] == names@[order@[j] as int],
        decreases order@.len() - k,
    {
        assert(order@.map_values(|x: usize| x as int)[k as int] == order@[k as int] as int);
        r.push(names[order[k]].clone());
        k = k + 1;
    }
    proof {
        let p = order@.map_values(|x: usize| x as int);
        assert forall|j: int| 0 <= j < r@.len() implies views(r@)[j] == views(names@)[#[trigger] p[j]] by {
            assert(p[j] == order@[j] as int);
        }
        assert(is_permutation(p, views(names@).len()));
        assert forall|a: int, b: int| 0 <= a < b < r@.len() implies crate::order::name_le(
            #[trigger] views(r@)[a],
            #[trigger] views(r@)[b],
        ) by {}
    }
    r
}

/// The names, in their order, that start with the filter; all of them without one.
pub fn matching_topics(names: &Vec<String>, filter: &Option<String>) -> (r: Vec<String>)
    ensures
        views(r@) == matching_names(views(names@), filter_view(*filter)),
{
    let mut r: Vec<String> = Vec::new();
    let mut i: usize = 0;
    while i < names.len()
        invariant
            i <= names@.len(),
            views(r@) == matching_names(views(names@).subrange(0, i as int), filter_view(*filter)),
        decreases names@.len() - i,
    {
        let ghost before = r@;
        assert(views(names@).subrange(0, i + 1).drop_last() =~= views(names@).subrange(0, i as int));
        if filter_group(names[i].as_str(), filter) {
            r.push(names[i].clone());
            assert(views(r@) =~= views(before).push(names@[i as int]@));
        }
        i = i + 1;
    }
    assert(views(names@).subrange(0, names@.len() as int) =~= views(names@));
    r
}

/// What a topic deletion does: only show the candidates, or delete them.
#[derive(Debug, Clone, PartialEq, Eq)]
pub enum TopicDeletion {
    DryRun(Vec<String>),
    Delete(Vec<String>),
}

/// Whether the plan deletes, and the names it covers.
pub open spec fn deletion_view(d: TopicDeletion) -> (bool, Seq<Seq<char>>) {
    match d {
        TopicDeletion::DryRun(c) => (false, views(c@)),
        TopicDeletion::Delete(c) => (true, views(c@)),
    }
}

/// The plan for deleting topics: those among `names` that pass `filter`, deleted
/// only when `run` holds.
pub open spec fn planned_deletion(names: Seq<Seq<char>>, filter: Option<Seq<char>>, run: bool) -> (
    bool,
    Seq<Seq<char>>,
) {
    (run, matching_names(names, filter))
}

/// Plans `topics delete` over the current topic names.
pub fn plan_topic_deletion(topic_names: &Vec<String>, args: &TopicsDeleteArgs) -> (r: TopicDeletion)
    ensures
        deletion_view(r) == planned_deletion(views(topic_names@), filter_view(args.topic_name), args.run),
{
    let candidates = matching_topics(topic_names, &args.topic_name);
    if args.run {
        TopicDeletion::Delete(candidates)
    } else {
        TopicDeletion::DryRun(candidates)
    }
}

/// A dry run deletes nothing and shows exactly the topics that the same request
/// with `run` set would delete.
pub proof fn lemma_dry_run_matches_run(names: Seq<Seq<char>>, filter: Option<Seq<char>>)
    ensures
        !planned_deletion(names, filter, false).0,
        planned_deletion(names, filter, true).0,
        planned_deletion(names, filter, false).1 == planned_deletion(names, filter, true).1,
{
}

/// The line that reports one failed deletion.
pub open spec fn failure_line(name: Seq<char>, error: Seq<char>) -> Seq<char> {
    "Unable to delete topic "@ + name + ": "@ + error
}

/// One line per failed deletion, in order.
pub open spec fn failure_lines(outcomes: Seq<DeleteOutcome>) -> Seq<Seq<char>>
    decreases outcomes.len(),
{
    if outcomes.len() == 0 {
        Seq::empty()
    } else {
        let rest = failure_lines(outcomes.drop_last());
        match outcomes.last().error {
            Some(e) => rest.push(failure_line(outcomes.last().name@, e@)),
            None => rest,
        }
    }
}

/// Reports the deletions that failed, one line each.
pub fn deletion_failures(outcomes: &Vec<DeleteOutcome>) -> (r: Vec<String>)
    ensures
        views(r@) == failure_lines(outcomes@),
{
    let mut r: Vec<String> = Vec::new();
    let mut i: usize = 0;
    while i < outcomes.len()
        invariant
            i <= outcomes@.len(),
            views(r@) == failure_lines(outcomes@.subrange(0, i as int)),
        decreases outcomes@.len() - i,
    {
        let ghost before = r@;
        assert(outcomes@.subrange(0, i + 1).drop_last() =~= outcomes@.subrange(0, i as int));
        let o = &outcomes[i];
        match &o.error {
            Some(e) => {
                let mut line = String::from_str("Unable to delete topic ");
                line.append(o.name.as_str());
                line.append(": ");
                line.append(e.as_str());
                r.push(line);
                assert(views(r@) =~= views(before).push(failure_line(o.name@, e@)));
            },
            None => {},
        }
        i = i + 1;
    }
    assert(outcomes@.subrange(0, outcomes@.len() as int) =~= outcomes@);
    r
}

} // verus!
