use vstd::prelude::*;
use vstd::string::StringExecFns;

use crate::models::Poll;

verus! {

/// The HTTP statuses that the poll endpoints answer with.
#[derive(Debug, Clone, Copy, PartialEq, Eq, Structural)]
pub enum Status {
    Success,
    BadRequest,
    NotFound,
    Conflict,
    InternalServerError,
}

/// The numeric code of each status.
pub open spec fn status_code(s: Status) -> u16 {
    match s {
        Status::Success => 200,
        Status::BadRequest => 400,
        Status::NotFound => 404,
        Status::Conflict => 409,
        Status::InternalServerError => 500,
    }
}

impl Status {
    /// The numeric HTTP code of the status.
    pub fn code(&self) -> (c: u16)
        ensures
            c == status_code(*self),
    {
        match self {
            Status::Success => 200,
            Status::BadRequest => 400,
            Status::NotFound => 404,
            Status::Conflict => 409,
            Status::InternalServerError => 500,
        }
    }
}

/// The plain-text messages of the poll endpoints. A variant that holds a
/// `String` holds the text of an error reported by the store.
#[derive(Debug, Clone, PartialEq, Eq)]
pub enum Message {
    NoPollWithGivenId,
    NoPollWithTheGivenId,
    InternalServerError,
    ClosedPollVote,
    VoteCheckFailed,
    VoteChangeFailed(String),
    VoteCastFailed(String),
    VoteChanged,
    VoteCast,
    VoteRecorded,
    CloseFailed(String),
    PollClosed,
    ResetFailed(String),
    PollReset,
    PollCreated,
    StoreError(String),
    StatusMismatch,
    CreatorMismatch,
}

/// The text of each message.
pub open spec fn message_text(m: Message) -> Seq<char> {
    match m {
        Message::NoPollWithGivenId => "No poll found with given id."@,
        Message::NoPollWithTheGivenId => "No poll found with the given ID."@,
        Message::InternalServerError => "Internal server error."@,
        Message::ClosedPollVote => "Cannot vote to a closed poll"@,
        Message::VoteCheckFailed => "Error accessing poll"@,
        Message::VoteChangeFailed(e) => e@,
        Message::VoteCastFailed(e) => "Error voting to the poll "@ + e@,
        Message::VoteChanged => "Successfully changed your option."@,
        Message::VoteCast => "Successfully voted for the option."@,
        Message::VoteRecorded => "Successfully voted to the poll."@,
        Message::CloseFailed(e) => "Error closing poll : "@ + e@,
        Message::PollClosed => "Closed poll successfully."@,
        Message::ResetFailed(e) => "Error resetting poll : "@ + e@,
        Message::PollReset => "Poll reset successfully."@,
        Message::PollCreated => "New poll created successfully."@,
        Message::StoreError(e) => e@,
        Message::StatusMismatch => "Query parameters mismatch, poll status is not specified correctly."@,
        Message::CreatorMismatch => "Query parameters mismatch, provided creator is not owner of this poll."@,
    }
}

impl Message {
    /// The text of the message, as sent in a reply body.
    pub fn text(&self) -> (t: String)
        ensures
            t@ == message_text(*self),
    {
        match self {
            Message::NoPollWithGivenId => String::from_str("No poll found with given id."),
            Message::NoPollWithTheGivenId => String::from_str("No poll found with the given ID."),
            Message::InternalServerError => String::from_str("Internal server error."),
            Message::ClosedPollVote => String::from_str("Cannot vote to a closed poll"),
            Message::VoteCheckFailed => String::from_str("Error accessing poll"),
            Message::VoteChangeFailed(e) => e.clone(),
            Message::VoteCastFailed(e) => String::from_str("Error voting to the poll ").concat(e.as_str()),
            Message::VoteChanged => String::from_str("Successfully changed your option."),
            Message::VoteCast => String::from_str("Successfully voted for the option."),
            Message::VoteRecorded => String::from_str("Successfully voted to the poll."),
            Message::CloseFailed(e) => String::from_str("Error closing poll : ").concat(e.as_str()),
            Message::PollClosed => String::from_str("Closed poll successfully."),
            Message::ResetFailed(e) => String::from_str("Error resetting poll : ").concat(e.as_str()),
            Message::PollReset => String::from_str("Poll reset successfully."),
            Message::PollCreated => String::from_str("New poll created successfully."),
            Message::StoreError(e) => e.clone(),
            Message::StatusMismatch => String::from_str(
                "Query parameters mismatch, poll status is not specified correctly.",
            ),
            Message::CreatorMismatch => String::from_str(
                "Query parameters mismatch, provided creator is not owner of this poll.",
            ),
        }
    }
}

/// What a reply carries.
#[derive(Debug, Clone, PartialEq, Eq)]
pub enum Body {
    /// A plain-text message.
    Text(Message),
    /// Every poll, as JSON.
    Polls(Vec<Poll>),
    /// One poll, as JSON.
    Poll(Poll),
    /// The results of this poll, as JSON; they are also sent to the clients
    /// that follow live updates.
    Results(Poll),
}

/// An HTTP reply: a status and a body.
#[derive(Debug, Clone, PartialEq, Eq)]
pub struct Reply {
    pub status: Status,
    pub body: Body,
}

/// A reply with a plain-text message.
pub open spec fn text_reply(status: Status, m: Message) -> Reply {
    Reply { status, body: Body::Text(m) }
}

/// The HTTP code of each status, and no two statuses share one.
pub proof fn status_codes()
    ensures
        status_code(Status::Success) == 200,
        status_code(Status::BadRequest) == 400,
        status_code(Status::NotFound) == 404,
        status_code(Status::Conflict) == 409,
        status_code(Status::InternalServerError) == 500,
        forall|a: Status, b: Status| status_code(a) == status_code(b) ==> a == b,
{
}

/// The texts of the messages: fixed texts for the outcomes, and for a failed
/// store the store's own error, after a fixed prefix where the endpoint has
/// one.
pub proof fn message_texts(e: String)
    ensures
        message_text(Message::NoPollWithGivenId) == "No poll found with given id."@,
        message_text(Message::NoPollWithTheGivenId) == "No poll found with the given ID."@,
        message_text(Message::InternalServerError) == "Internal server error."@,
        message_text(Message::ClosedPollVote) == "Cannot vote to a closed poll"@,
        message_text(Message::VoteCheckFailed) == "Error accessing poll"@,
        message_text(Message::VoteChangeFailed(e)) == e@,
        message_text(Message::VoteCastFailed(e)) == "Error voting to the poll "@ + e@,
        message_text(Message::VoteChanged) == "Successfully changed your option."@,
        message_text(Message::VoteCast) == "Successfully voted for the option."@,
        message_text(Message::VoteRecorded) == "Successfully voted to the poll."@,
        message_text(Message::CloseFailed(e)) == "Error closing poll : "@ + e@,
        message_text(Message::PollClosed) == "Closed poll successfully."@,
        message_text(Message::ResetFailed(e)) == "Error resetting poll : "@ + e@,
        message_text(Message::PollReset) == "Poll reset successfully."@,
        message_text(Message::PollCreated) == "New poll created successfully."@,
        message_text(Message::StoreError(e)) == e@,
        message_text(Message::StatusMismatch) == "Query parameters mismatch, poll status is not specified correctly."@,
        message_text(Message::CreatorMismatch) == "Query parameters mismatch, provided creator is not owner of this poll."@,
{
}

} // verus!
