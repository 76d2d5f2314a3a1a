//! Options of the command-line tools, as plain values.

use vstd::prelude::*;

verus! {

/// Options of the interactive console: where the cluster is and how to reach it.
#[derive(Debug, Clone, PartialEq, Eq)]
pub struct Cli {
    pub bootstrap_servers: String,
    pub iam_auth: bool,
    /// Request timeout in milliseconds.
    pub timeout: u64,
    pub aws_region: String,
}

/// `cluster` subcommand.
#[derive(Debug, Clone, PartialEq, Eq)]
pub struct ClusterArgs {
    pub command: Option<ClusterCommands>,
}

#[derive(Debug, Clone, Copy, PartialEq, Eq)]
pub enum ClusterCommands {
    Brokers,
}

/// `consumers` subcommand.
#[derive(Debug, Clone, PartialEq, Eq)]
pub struct ConsumerArgs {
    pub command: Option<ConsumerCommands>,
}

#[derive(Debug, Clone, PartialEq, Eq)]
pub enum ConsumerCommands {
    List(ListConsumerArgs),
    Delete(DeleteConsumerArgs),
}

/// `consumers list`: an optional prefix that group names must start with.
#[derive(Debug, Clone, PartialEq, Eq)]
pub struct ListConsumerArgs {
    pub consumer_group: Option<String>,
}

/// `consumers delete`: an optional prefix; without one every group is deleted.
#[derive(Debug, Clone, PartialEq, Eq)]
pub struct DeleteConsumerArgs {
    pub consumer_group: Option<String>,
}

/// `topics` subcommand.
#[derive(Debug, Clone, PartialEq, Eq)]
pub struct TopicsArgs {
    pub command: Option<TopicsCommands>,
}

#[derive(Debug, Clone, PartialEq, Eq)]
pub enum TopicsCommands {
    List,
    Delete(TopicsDeleteArgs),
}

/// `topics list` takes no options.
#[derive(Debug, Clone, PartialEq, Eq)]
pub struct TopicsListArgs {}

/// `topics delete`: an optional name prefix, and whether to delete for real
/// rather than only show what would go.
#[derive(Debug, Clone, PartialEq, Eq)]
pub struct TopicsDeleteArgs {
    pub topic_name: Option<String>,
    pub run: bool,
}

impl ClusterArgs {
    /// The subcommand to run: `brokers` when none was given.
    pub fn command_or_default(&self) -> (r: ClusterCommands)
        ensures
            r == ClusterCommands::Brokers,
    {
        match self.command {
            Some(c) => c,
            None => ClusterCommands::Brokers,
        }
    }
}

impl ConsumerArgs {
    /// The subcommand to run: listing every group when none was given.
    pub fn command_or_default(self) -> (r: ConsumerCommands)
        ensures
            self.command is Some ==> r == self.command->Some_0,
            self.command is None ==> r == ConsumerCommands::List(ListConsumerArgs { consumer_group: None }),
    {
        match self.command {
            Some(c) => c,
            None => ConsumerCommands::List(ListConsumerArgs { consumer_group: None }),
        }
    }
}

impl TopicsArgs {
    /// The subcommand to run: listing when none was given.
    pub fn command_or_default(self) -> (r: TopicsCommands)
        ensures
            self.command is Some ==> r == self.command->Some_0,
            self.command is None ==> r == TopicsCommands::List,
    {
        match self.command {
            Some(c) => c,
            None => TopicsCommands::List,
        }
    }
}

} // verus!
