use vstd::prelude::*;

use crate::ids::{is_id_char, random_id, utc_now};
use crate::models::{OptionItem, Poll, PollCreation, PollQueryParams, Timestamp, VoteHistory};
use crate::reply::{text_reply, Body, Message, Reply, Status};

verus! {

/// The number of characters of a poll's or an option's identifier.
pub const ID_LENGTH: usize = 10;

/// An identifier as the service makes them: `ID_LENGTH` characters of
/// nanoid's `SAFE` alphabet.
pub open spec fn is_generated_id(s: Seq<char>) -> bool {
    &&& s.len() == ID_LENGTH
    &&& forall|i: int| 0 <= i < s.len() ==> is_id_char(#[trigger] s[i])
}

/// The poll that a lookup in the store gives: the poll where it was found,
/// `None` where it was not found and where the store failed.
pub fn poll_from_lookup<E>(lookup: Result<Option<Poll>, E>) -> (found: Option<Poll>)
    ensures
        found == match lookup {
            Ok(p) => p,
            Err(_) => None,
        },
{
    match lookup {
        Ok(p) => p,
        Err(_) => None,
    }
}

/// The reply to a request for every poll.
pub open spec fn all_polls_reply_spec(outcome: Result<Vec<Poll>, String>) -> Reply {
    match outcome {
        Ok(polls) => Reply { status: Status::Success, body: Body::Polls(polls) },
        Err(e) => text_reply(Status::InternalServerError, Message::StoreError(e)),
    }
}

/// Answers a request for every poll, given what the store returned.
pub fn all_polls_reply(outcome: Result<Vec<Poll>, String>) -> (r: Reply)
    ensures
        r == all_polls_reply_spec(outcome),
{
    match outcome {
        Ok(polls) => Reply { status: Status::Success, body: Body::Polls(polls) },
        Err(e) => Reply { status: Status::InternalServerError, body: Body::Text(Message::StoreError(e)) },
    }
}

/// The reply to a request for one poll, given what the store returned: the
/// poll where found, 404 where not, 500 with the store's error where the
/// store failed.
pub open spec fn poll_details_reply_spec(lookup: Result<Option<Poll>, String>) -> Reply {
    match lookup {
        Ok(Some(p)) => Reply { status: Status::Success, body: Body::Poll(p) },
        Ok(None) => text_reply(Status::NotFound, Message::NoPollWithGivenId),
        Err(e) => text_reply(Status::InternalServerError, Message::StoreError(e)),
    }
}

/// Answers a request for one poll, given what the store returned.
pub fn poll_details_reply(lookup: Result<Option<Poll>, String>) -> (r: Reply)
    ensures
        r == poll_details_reply_spec(lookup),
{
    match lookup {
        Ok(Some(p)) => Reply { status: Status::Success, body: Body::Poll(p) },
        Ok(None) => Reply { status: Status::NotFound, body: Body::Text(Message::NoPollWithGivenId) },
        Err(e) => Reply { status: Status::InternalServerError, body: Body::Text(Message::StoreError(e)) },
    }
}

/// Whether every filter that the request gives agrees with the poll: `closed`
/// with the poll being closed, `live` with it being open, `creator` with the
/// user who made it.
pub open spec fn filters_agree(poll: Poll, params: PollQueryParams) -> bool {
    &&& params.closed matches Some(c) ==> c == !poll.is_active
    &&& params.live matches Some(l) ==> l == poll.is_active
    &&& params.creator matches Some(u) ==> u@ == poll.username@
}

/// The refusal of a request for results, if any: a filter that disagrees
/// with the poll is a query mismatch (400). The filters are checked in the
/// order `closed`, `live`, `creator`; the first that disagrees decides the
/// message.
pub open spec fn results_refusal(poll: Poll, params: PollQueryParams) -> Option<Reply> {
    if params.closed matches Some(c) && c == poll.is_active {
        Some(text_reply(Status::BadRequest, Message::StatusMismatch))
    } else if params.live matches Some(l) && l != poll.is_active {
        Some(text_reply(Status::BadRequest, Message::StatusMismatch))
    } else if params.creator matches Some(u) && u@ != poll.username@ {
        Some(text_reply(Status::BadRequest, Message::CreatorMismatch))
    } else {
        None
    }
}

/// Checks the filters of a request for results against the poll.
pub fn check_results_query(poll: &Poll, params: &PollQueryParams) -> (r: Option<Reply>)
    ensures
        r == results_refusal(*poll, *params),
{
    if let Some(c) = params.closed {
        if c == poll.is_active {
            return Some(Reply { status: Status::BadRequest, body: Body::Text(Message::StatusMismatch) });
        }
    }
    if let Some(l) = params.live {
        if l != poll.is_active {
            return Some(Reply { status: Status::BadRequest, body: Body::Text(Message::StatusMismatch) });
        }
    }
    if let Some(u) = &params.creator {
        if *u != poll.username {
            return Some(Reply { status: Status::BadRequest, body: Body::Text(Message::CreatorMismatch) });
        }
    }
    None
}

/// The reply to a request for the results of a poll.
pub open spec fn results_reply_spec(lookup: Result<Option<Poll>, String>, params: PollQueryParams) -> Reply {
    match lookup {
        Ok(Some(p)) => match results_refusal(p, params) {
            Some(r) => r,
            None => Reply { status: Status::Success, body: Body::Results(p) },
        },
        Ok(None) => text_reply(Status::NotFound, Message::NoPollWithTheGivenId),
        Err(e) => text_reply(Status::InternalServerError, Message::StoreError(e)),
    }
}

/// Answers a request for the results of a poll, given what the store
/// returned for the poll and the filters of the request.
pub fn results_reply(lookup: Result<Option<Poll>, String>, params: PollQueryParams) -> (r: Reply)
    ensures
        r == results_reply_spec(lookup, params),
{
    match lookup {
        Ok(Some(p)) => match check_results_query(&p, &params) {
            Some(r) => r,
            None => Reply { status: Status::Success, body: Body::Results(p) },
        },
        Ok(None) => Reply { status: Status::NotFound, body: Body::Text(Message::NoPollWithTheGivenId) },
        Err(e) => Reply { status: Status::InternalServerError, body: Body::Text(Message::StoreError(e)) },
    }
}

/// Results are given exactly for a poll that was found and whose filters all
/// agree with it; with no filter, a poll that was found always gets them.
pub proof fn results_only_for_agreeing_filters(lookup: Result<Option<Poll>, String>, params: PollQueryParams)
    ensures
        (results_reply_spec(lookup, params).body is Results) <==> (lookup matches Ok(Some(p)) && filters_agree(p, params)),
        results_reply_spec(lookup, params).body is Results ==> lookup == Ok::<Option<Poll>, String>(
            Some(results_reply_spec(lookup, params).body->Results_0),
        ),
        (params.closed is None && params.live is None && params.creator is None && lookup is Ok
            && lookup->Ok_0 is Some) ==> results_reply_spec(lookup, params) == (Reply {
            status: Status::Success,
            body: Body::Results(lookup->Ok_0->Some_0),
        }),
{
}

/// How a request for one poll is answered, for every outcome of the lookup: a
/// poll that was found is served as itself, open or closed, whatever its
/// fields; one that is not in the store is answered 404 "No poll found with
/// given id."; a failing store, 500 with its error.
pub proof fn poll_details_by_lookup(lookup: Result<Option<Poll>, String>)
    ensures
        lookup matches Ok(Some(p)) ==> poll_details_reply_spec(lookup) == (Reply { status: Status::Success, body: Body::Poll(p) }),
        lookup == Ok::<Option<Poll>, String>(None) ==> poll_details_reply_spec(lookup) == (Reply {
            status: Status::NotFound,
            body: Body::Text(Message::NoPollWithGivenId),
        }),
        lookup matches Err(e) ==> poll_details_reply_spec(lookup) == (Reply {
            status: Status::InternalServerError,
            body: Body::Text(Message::StoreError(e)),
        }),
        (poll_details_reply_spec(lookup).status == Status::Success) <==> (lookup matches Ok(Some(_))),
{
}

/// How a request for results is answered, for every lookup and every set of
/// filters. A poll that is not in the store is answered 404 "No poll found
/// with the given ID.", whatever the filters; a failing store, 500 with its
/// error. A found poll gets its results exactly when each filter given
/// agrees with it (`closed` with it being closed, `live` with it being open,
/// `creator` with its creator); otherwise the reply is 400, with the status
/// message where `closed` or `live` disagrees and the creator message where
/// only `creator` does.
pub proof fn results_by_lookup_and_filters(lookup: Result<Option<Poll>, String>, params: PollQueryParams)
    ensures
        lookup == Ok::<Option<Poll>, String>(None) ==> results_reply_spec(lookup, params) == (Reply {
            status: Status::NotFound,
            body: Body::Text(Message::NoPollWithTheGivenId),
        }),
        lookup matches Err(e) ==> results_reply_spec(lookup, params) == (Reply {
            status: Status::InternalServerError,
            body: Body::Text(Message::StoreError(e)),
        }),
        lookup matches Ok(Some(p)) ==> {
            let status_ok = (params.closed matches Some(c) ==> c == !p.is_active)
                && (params.live matches Some(l) ==> l == p.is_active);
            let creator_ok = params.creator matches Some(u) ==> u@ == p.username@;
            &&& (status_ok && creator_ok) ==> results_reply_spec(lookup, params) == (Reply {
                status: Status::Success,
                body: Body::Results(p),
            })
            &&& !status_ok ==> results_reply_spec(lookup, params) == (Reply {
                status: Status::BadRequest,
                body: Body::Text(Message::StatusMismatch),
            })
            &&& (status_ok && !creator_ok) ==> results_reply_spec(lookup, params) == (Reply {
                status: Status::BadRequest,
                body: Body::Text(Message::CreatorMismatch),
            })
        },
{
}

/// How a request for every poll is answered: all the polls the store gave,
/// in its order, or 500 with the store's error.
pub proof fn all_polls_by_outcome(outcome: Result<Vec<Poll>, String>)
    ensures
        outcome matches Ok(ps) ==> all_polls_reply_spec(outcome) == (Reply { status: Status::Success, body: Body::Polls(ps) }),
        outcome matches Err(e) ==> all_polls_reply_spec(outcome) == (Reply {
            status: Status::InternalServerError,
            body: Body::Text(Message::StoreError(e)),
        }),
{
}

/// How a creation request is answered once the poll is stored: 200 "New poll
/// created successfully.", or 500 with the store's error.
pub proof fn poll_created_by_outcome(outcome: Result<(), String>)
    ensures
        outcome is Ok ==> poll_created_reply_spec(outcome) == (Reply {
            status: Status::Success,
            body: Body::Text(Message::PollCreated),
        }),
        outcome matches Err(e) ==> poll_created_reply_spec(outcome) == (Reply {
            status: Status::InternalServerError,
            body: Body::Text(Message::StoreError(e)),
        }),
{
}

/// The poll that a creation request makes, with the given identifiers and
/// time: open, without voters, each option with the text given, in order,
/// and no votes.
pub open spec fn is_new_poll(p: Poll, data: PollCreation, poll_id: String, option_ids: Seq<String>, now: Timestamp) -> bool {
    &&& p.poll_id == poll_id
    &&& p.username == data.username
    &&& p.title == data.title
    &&& p.options@.len() == data.options@.len()
    &&& p.options@.len() == option_ids.len()
    &&& forall|i: int| 0 <= i < p.options@.len() ==> {
        &&& (#[trigger] p.options@[i]).option_id == option_ids[i]
        &&& p.options@[i].text == data.options@[i]
        &&& p.options@[i].votes == 0
    }
    &&& p.is_active
    &&& p.voters@.len() == 0
    &&& p.created_at == now
    &&& p.updated_at == now
}

/// Makes the poll of a creation request from the identifiers and the time
/// given.
pub fn assemble_poll(data: PollCreation, poll_id: String, option_ids: Vec<String>, now: Timestamp) -> (p: Poll)
    requires
        option_ids@.len() == data.options@.len(),
    ensures
        is_new_poll(p, data, poll_id, option_ids@, now),
        p.poll_id == poll_id,
        p.username == data.username,
        p.title == data.title,
        p.options@.len() == data.options@.len(),
        forall|i: int| 0 <= i < p.options@.len() ==> {
            &&& (#[trigger] p.options@[i]).option_id == option_ids@[i]
            &&& p.options@[i].text == data.options@[i]
            &&& p.options@[i].votes == 0
        },
        p.is_active,
        p.voters@.len() == 0,
        p.created_at == now,
        p.updated_at == now,
{
    let mut options: Vec<OptionItem> = Vec::new();
    let n = data.options.len();
    let mut i: usize = 0;
    while i < n
        invariant
            n == data.options@.len(),
            n == option_ids@.len(),
            i <= n,
            options@.len() == i,
            forall|j: int| 0 <= j < i ==> {
                &&& (#[trigger] options@[j]).option_id == option_ids@[j]
                &&& options@[j].text == data.options@[j]
                &&& options@[j].votes == 0
            },
        decreases n - i,
    {
        let item = OptionItem {
            option_id: option_ids[i].clone(),
            text: data.options[i].clone(),
            votes: 0,
        };
        options.push(item);
        i = i + 1;
    }
    let voters: Vec<VoteHistory> = Vec::new();
    Poll {
        poll_id,
        username: data.username,
        title: data.title,
        options,
        is_active: true,
        voters,
        created_at: now,
        updated_at: now,
    }
}

/// Makes the poll of a creation request: a random identifier for the poll,
/// then one for each option, in order, and the current time (read once) for
/// both timestamps.
pub fn create_new_poll(data: PollCreation) -> (p: Poll)
    ensures
        exists|option_ids: Seq<String>| is_new_poll(p, data, p.poll_id, option_ids, p.created_at),
        p.username == data.username,
        p.title == data.title,
        p.options@.len() == data.options@.len(),
        forall|i: int| 0 <= i < p.options@.len() ==> {
            &&& (#[trigger] p.options@[i]).text == data.options@[i]
            &&& p.options@[i].votes == 0
        },
        p.is_active,
        p.voters@.len() == 0,
        p.updated_at == p.created_at,
        is_generated_id(p.poll_id@),
        p.poll_id@.len() == 10,
        forall|i: int| 0 <= i < p.options@.len() ==> is_generated_id((#[trigger] p.options@[i]).option_id@),
        forall|i: int| 0 <= i < p.options@.len() ==> (#[trigger] p.options@[i]).option_id@.len() == 10,
        p.created_at.secs >= 0,
        p.created_at.nanos < 1_000_000_000,
{
    let poll_id = random_id(ID_LENGTH);
    let n = data.options.len();
    let mut option_ids: Vec<String> = Vec::new();
    let mut i: usize = 0;
    while i < n
        invariant
            i <= n,
            option_ids@.len() == i,
            forall|j: int| 0 <= j < i ==> is_generated_id((#[trigger] option_ids@[j])@),
        decreases n - i,
    {
        option_ids.push(random_id(ID_LENGTH));
        i = i + 1;
    }
    let now = utc_now();
    let ghost ids = option_ids@;
    let p = assemble_poll(data, poll_id, option_ids, now);
    assert(is_new_poll(p, data, p.poll_id, ids, p.created_at));
    p
}

/// The reply to a creation request, given the outcome of storing the poll.
pub open spec fn poll_created_reply_spec(outcome: Result<(), String>) -> Reply {
    match outcome {
        Ok(_) => text_reply(Status::Success, Message::PollCreated),
        Err(e) => text_reply(Status::InternalServerError, Message::StoreError(e)),
    }
}

/// Answers a creation request, given the outcome of storing the poll.
pub fn poll_created_reply(outcome: Result<(), String>) -> (r: Reply)
    ensures
        r == poll_created_reply_spec(outcome),
{
    match outcome {
        Ok(_) => Reply { status: Status::Success, body: Body::Text(Message::PollCreated) },
        Err(e) => Reply { status: Status::InternalServerError, body: Body::Text(Message::StoreError(e)) },
    }
}

} // verus!
