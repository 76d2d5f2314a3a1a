//! Records that describe what the cluster holds.

use vstd::prelude::*;
use crate::text::{decimal, decimal_string};

verus! {

/// Statistics of one topic.
#[derive(Debug, Clone, PartialEq, Eq)]
pub struct ListTopicEntry {
    pub name: String,
    pub partitions: i32,
    pub replication_factor: i32,
    pub message_count: i64,
    /// Not computed: always 0.
    pub size: i64,
}

/// Statistics of one topic, under a shorter name.
pub type ListedTopic = ListTopicEntry;

/// One consumer group and the state the cluster reports for it.
#[derive(Debug, Clone, PartialEq, Eq)]
pub struct ListConsumerGroupEntry {
    pub name: String,
    pub state: String,
}

/// A consumer group and its state, under a shorter name.
pub type ListedConsumerGroup = ListConsumerGroupEntry;

/// One broker of the cluster.
#[derive(Debug, Clone, PartialEq, Eq)]
pub struct ListBrokerEntry {
    pub id: i32,
    pub host: String,
    pub port: i32,
}

impl ListBrokerEntry {
    /// The broker as `[id] host:port`.
    pub fn line(&self) -> (r: String)
        ensures
            r@ == "["@ + decimal(self.id as int) + "] "@ + self.host@ + ":"@ + decimal(self.port as int),
    {
        let mut line = String::from_str("[");
        let id = decimal_string(self.id as i64);
        line.append(id.as_str());
        line.append("] ");
        line.append(self.host.as_str());
        line.append(":");
        let port = decimal_string(self.port as i64);
        line.append(port.as_str());
        line
    }
}

/// A broker of the cluster, under a shorter name.
pub type Broker = ListBrokerEntry;

/// What a deletion request reported for one name: `None` when it succeeded,
/// else the reason it failed.
#[derive(Debug, Clone, PartialEq, Eq)]
pub struct DeleteOutcome {
    pub name: String,
    pub error: Option<String>,
}

} // verus!
