use vstd::prelude::*;

verus! {

/// An instant in UTC: whole seconds since the Unix epoch and the nanoseconds
/// past that second (1_000_000_000 and more stand for a leap second).
#[derive(Debug, Clone, Copy, PartialEq, Eq, Structural)]
pub struct Timestamp {
    pub secs: i64,
    pub nanos: u32,
}

/// A poll as stored and served.
#[derive(Debug, Clone, PartialEq, Eq)]
pub struct Poll {
    pub poll_id: String,
    pub username: String,
    pub title: String,
    pub options: Vec<OptionItem>,
    pub is_active: bool,
    pub voters: Vec<VoteHistory>,
    pub created_at: Timestamp,
    pub updated_at: Timestamp,
}

/// One option of a poll and the votes it has.
#[derive(Debug, Clone, PartialEq, Eq)]
pub struct OptionItem {
    pub option_id: String,
    pub text: String,
    pub votes: u32,
}

/// The record that a user voted for an option.
#[derive(Debug, Clone, PartialEq, Eq)]
pub struct VoteHistory {
    pub username: String,
    pub option_id: String,
}

/// The results of a poll as published to clients.
#[derive(Debug, Clone, PartialEq, Eq)]
pub struct PollResults {
    pub poll_id: String,
    pub title: String,
    pub options: Vec<ResultsOptionItem>,
    pub total_votes: u32,
    pub time_elapsed: String,
}

/// One option in the results of a poll.
#[derive(Debug, Clone, PartialEq, Eq)]
pub struct ResultsOptionItem {
    pub option_id: String,
    pub text: String,
    pub votes: u32,
    pub percentage: u32,
}

/// The filters that a request for results may carry.
#[derive(Debug, Clone, PartialEq, Eq)]
pub struct PollQueryParams {
    pub live: Option<bool>,
    pub closed: Option<bool>,
    pub creator: Option<String>,
}

/// The body of a request that creates a poll.
#[derive(Debug, Clone, PartialEq, Eq)]
pub struct PollCreation {
    pub title: String,
    pub username: String,
    pub options: Vec<String>,
}

/// The body of a request that casts a vote.
#[derive(Debug, Clone, PartialEq, Eq)]
pub struct VoteOption {
    pub username: String,
    pub option_id: String,
}

/// The body of a request that names the user who makes it.
#[derive(Debug, Clone, PartialEq, Eq)]
pub struct UserNameRequest {
    pub username: String,
}

} // verus!
