use vstd::prelude::*;

use crate::models::Poll;
use crate::reply::{text_reply, Body, Message, Reply, Status};

verus! {

/// What a vote request asks for: a vote of `username` for the option
/// `option_id` of the poll `poll_id`.
#[derive(Debug, Clone, PartialEq, Eq)]
pub struct VoteRequest {
    pub poll_id: String,
    pub username: String,
    pub option_id: String,
}

/// Where a vote request stands. The flow reads the poll, asks whether the
/// user has voted already, stores the vote (a change or a first vote), reads
/// the poll again and publishes it.
#[derive(Debug, Clone, PartialEq, Eq)]
pub enum VoteFlow {
    /// The poll is being read.
    AwaitingPoll { request: VoteRequest },
    /// The poll is open; whether the user has voted is being asked.
    AwaitingVoteCheck { request: VoteRequest },
    /// The vote is being stored; `changed` tells whether it replaces an
    /// earlier vote of the user.
    AwaitingWrite { request: VoteRequest, changed: bool },
    /// The vote is stored; the poll is being read again.
    AwaitingRefresh { request: VoteRequest, message: Message },
    /// The request has been answered.
    Finished,
}

/// What the store reported for the last action.
#[derive(Debug, PartialEq, Eq)]
pub enum VoteEvent {
    /// The outcome of reading the poll: the poll, `None` where it was not
    /// found, or the store's error.
    PollRead(Result<Option<Poll>, String>),
    /// Whether the user has voted in the poll, or the store's error.
    VoteChecked(Result<bool, String>),
    /// The outcome of storing the vote.
    VoteStored(Result<(), String>),
}

/// What the caller is to do next.
#[derive(Debug, Clone, PartialEq, Eq)]
pub enum VoteAction {
    /// Read the poll `poll_id`.
    ReadPoll { poll_id: String },
    /// Ask whether `username` has voted in the poll `poll_id`.
    CheckVote { username: String, poll_id: String },
    /// Move the earlier vote of `username` in the poll `poll_id` to `option_id`.
    ChangeVote { poll_id: String, option_id: String, username: String },
    /// Record the first vote of `username` in the poll `poll_id`, for `option_id`.
    CastVote { poll_id: String, option_id: String, username: String },
    /// Send this poll and its results to the live clients, then give the reply.
    Publish(Poll, Reply),
    /// Give the reply.
    Respond(Reply),
}

/// Whether the flow, in state `s`, expects the event `e`.
pub open spec fn vote_accepts(s: VoteFlow, e: VoteEvent) -> bool {
    match (s, e) {
        (VoteFlow::AwaitingPoll { .. }, VoteEvent::PollRead(_)) => true,
        (VoteFlow::AwaitingVoteCheck { .. }, VoteEvent::VoteChecked(_)) => true,
        (VoteFlow::AwaitingWrite { .. }, VoteEvent::VoteStored(_)) => true,
        (VoteFlow::AwaitingRefresh { .. }, VoteEvent::PollRead(_)) => true,
        _ => false,
    }
}

/// The next state and action of the vote flow, for an expected event.
pub open spec fn vote_transition(s: VoteFlow, e: VoteEvent) -> (VoteFlow, VoteAction) {
    match (s, e) {
        (VoteFlow::AwaitingPoll { request }, VoteEvent::PollRead(read)) => match read {
            Err(_) => (
                VoteFlow::Finished,
                VoteAction::Respond(
                    text_reply(Status::InternalServerError, Message::InternalServerError),
                ),
            ),
            Ok(None) => (
                VoteFlow::Finished,
                VoteAction::Respond(text_reply(Status::NotFound, Message::NoPollWithGivenId)),
            ),
            Ok(Some(p)) => if p.is_active {
                (
                    VoteFlow::AwaitingVoteCheck { request },
                    VoteAction::CheckVote { username: request.username, poll_id: request.poll_id },
                )
            } else {
                (
                    VoteFlow::Finished,
                    VoteAction::Respond(text_reply(Status::Conflict, Message::ClosedPollVote)),
                )
            },
        },
        (VoteFlow::AwaitingVoteCheck { request }, VoteEvent::VoteChecked(checked)) => match checked {
            Err(_) => (
                VoteFlow::Finished,
                VoteAction::Respond(
                    text_reply(Status::InternalServerError, Message::VoteCheckFailed),
                ),
            ),
            Ok(true) => (
                VoteFlow::AwaitingWrite { request, changed: true },
                VoteAction::ChangeVote {
                    poll_id: request.poll_id,
                    option_id: request.option_id,
                    username: request.username,
                },
            ),
            Ok(false) => (
                VoteFlow::AwaitingWrite { request, changed: false },
                VoteAction::CastVote {
                    poll_id: request.poll_id,
                    option_id: request.option_id,
                    username: request.username,
                },
            ),
        },
        (VoteFlow::AwaitingWrite { request, changed }, VoteEvent::VoteStored(stored)) => match stored {
            Err(err) => (
                VoteFlow::Finished,
                VoteAction::Respond(
                    text_reply(
                        Status::InternalServerError,
                        if changed {
                            Message::VoteChangeFailed(err)
                        } else {
                            Message::VoteCastFailed(err)
                        },
                    ),
                ),
            ),
            Ok(_) => (
                VoteFlow::AwaitingRefresh {
                    request,
                    message: if changed {
                        Message::VoteChanged
                    } else {
                        Message::VoteCast
                    },
                },
                VoteAction::ReadPoll { poll_id: request.poll_id },
            ),
        },
        (VoteFlow::AwaitingRefresh { request, message }, VoteEvent::PollRead(read)) => match read {
            Ok(Some(p)) => (
                VoteFlow::Finished,
                VoteAction::Publish(p, text_reply(Status::Success, Message::VoteRecorded)),
            ),
            _ => (VoteFlow::Finished, VoteAction::Respond(text_reply(Status::Success, message))),
        },
        _ => (s, VoteAction::Respond(text_reply(Status::InternalServerError, Message::InternalServerError))),
    }
}

impl VoteFlow {
    /// Starts a vote request: the poll is read first.
    pub fn begin(request: VoteRequest) -> (r: (VoteFlow, VoteAction))
        ensures
            r == (VoteFlow::AwaitingPoll { request }, VoteAction::ReadPoll { poll_id: request.poll_id }),
    {
        let poll_id = request.poll_id.clone();
        (VoteFlow::AwaitingPoll { request }, VoteAction::ReadPoll { poll_id })
    }

    /// Whether the flow expects `event` now.
    pub fn accepts(&self, event: &VoteEvent) -> (b: bool)
        ensures
            b == vote_accepts(*self, *event),
    {
        match (self, event) {
            (VoteFlow::AwaitingPoll { .. }, VoteEvent::PollRead(_)) => true,
            (VoteFlow::AwaitingVoteCheck { .. }, VoteEvent::VoteChecked(_)) => true,
            (VoteFlow::AwaitingWrite { .. }, VoteEvent::VoteStored(_)) => true,
            (VoteFlow::AwaitingRefresh { .. }, VoteEvent::PollRead(_)) => true,
            _ => false,
        }
    }

    /// Takes the store's report of the last action and gives the next state
    /// and the next action.
    pub fn step(self, event: VoteEvent) -> (r: (VoteFlow, VoteAction))
        requires
            vote_accepts(self, event),
        ensures
            r == vote_transition(self, event),
    {
        match (self, event) {
            (VoteFlow::AwaitingPoll { request }, VoteEvent::PollRead(read)) => match read {
                Err(_) => (
                    VoteFlow::Finished,
                    VoteAction::Respond(Reply {
                        status: Status::InternalServerError,
                        body: Body::Text(Message::InternalServerError),
                    }),
                ),
                Ok(None) => (
                    VoteFlow::Finished,
                    VoteAction::Respond(Reply {
                        status: Status::NotFound,
                        body: Body::Text(Message::NoPollWithGivenId),
                    }),
                ),
                Ok(Some(p)) => if p.is_active {
                    let action = VoteAction::CheckVote {
                        username: request.username.clone(),
                        poll_id: request.poll_id.clone(),
                    };
                    (VoteFlow::AwaitingVoteCheck { request }, action)
                } else {
                    (
                        VoteFlow::Finished,
                        VoteAction::Respond(Reply {
                            status: Status::Conflict,
                            body: Body::Text(Message::ClosedPollVote),
                        }),
                    )
                },
            },
            (VoteFlow::AwaitingVoteCheck { request }, VoteEvent::VoteChecked(checked)) => match checked {
                Err(_) => (
                    VoteFlow::Finished,
                    VoteAction::Respond(Reply {
                        status: Status::InternalServerError,
                        body: Body::Text(Message::VoteCheckFailed),
                    }),
                ),
                Ok(voted) => {
                    let poll_id = request.poll_id.clone();
                    let option_id = request.option_id.clone();
                    let username = request.username.clone();
                    if voted {
                        (
                            VoteFlow::AwaitingWrite { request, changed: true },
                            VoteAction::ChangeVote { poll_id, option_id, username },
                        )
                    } else {
                        (
                            VoteFlow::AwaitingWrite { request, changed: false },
                            VoteAction::CastVote { poll_id, option_id, username },
                        )
                    }
                },
            },
            (VoteFlow::AwaitingWrite { request, changed }, VoteEvent::VoteStored(stored)) => match stored {
                Err(err) => {
                    let message = if changed {
                        Message::VoteChangeFailed(err)
                    } else {
                        Message::VoteCastFailed(err)
                    };
                    (
                        VoteFlow::Finished,
                        VoteAction::Respond(Reply {
                            status: Status::InternalServerError,
                            body: Body::Text(message),
                        }),
                    )
                },
                Ok(_) => {
                    let message = if changed {
                        Message::VoteChanged
                    } else {
                        Message::VoteCast
                    };
                    let poll_id = request.poll_id.clone();
                    (VoteFlow::AwaitingRefresh { request, message }, VoteAction::ReadPoll { poll_id })
                },
            },
            (VoteFlow::AwaitingRefresh { request, message }, VoteEvent::PollRead(read)) => match read {
                Ok(Some(p)) => (
                    VoteFlow::Finished,
                    VoteAction::Publish(
                        p,
                        Reply { status: Status::Success, body: Body::Text(Message::VoteRecorded) },
                    ),
                ),
                _ => (
                    VoteFlow::Finished,
                    VoteAction::Respond(Reply { status: Status::Success, body: Body::Text(message) }),
                ),
            },
            (s, _) => (
                s,
                VoteAction::Respond(Reply {
                    status: Status::InternalServerError,
                    body: Body::Text(Message::InternalServerError),
                }),
            ),
        }
    }
}

/// The state reached from `s` through `events`, with the action given after
/// each event; `None` where an event comes that the flow does not expect.
pub open spec fn vote_run(s: VoteFlow, events: Seq<VoteEvent>) -> Option<(VoteFlow, Seq<VoteAction>)>
    decreases events.len(),
{
    if events.len() == 0 {
        Some((s, Seq::empty()))
    } else if !vote_accepts(s, events[0]) {
        None
    } else {
        let (next, action) = vote_transition(s, events[0]);
        match vote_run(next, events.drop_first()) {
            Some((last, actions)) => Some((last, seq![action] + actions)),
            None => None,
        }
    }
}

/// The actions that store a vote.
pub open spec fn is_vote_write(a: VoteAction) -> bool {
    a is ChangeVote || a is CastVote
}

/// The actions that answer the request.
pub open spec fn is_vote_answer(a: VoteAction) -> bool {
    a is Publish || a is Respond
}

/// How far the flow has gone.
spec fn vote_stage(s: VoteFlow) -> nat {
    match s {
        VoteFlow::AwaitingPoll { .. } => 0,
        VoteFlow::AwaitingVoteCheck { .. } => 1,
        VoteFlow::AwaitingWrite { .. } => 2,
        VoteFlow::AwaitingRefresh { .. } => 3,
        VoteFlow::Finished => 4,
    }
}

/// The request that a flow still in progress serves.
spec fn flow_request(s: VoteFlow) -> VoteRequest
    recommends
        s != VoteFlow::Finished,
{
    match s {
        VoteFlow::AwaitingPoll { request } => request,
        VoteFlow::AwaitingVoteCheck { request } => request,
        VoteFlow::AwaitingWrite { request, .. } => request,
        VoteFlow::AwaitingRefresh { request, .. } => request,
        VoteFlow::Finished => arbitrary(),
    }
}

/// Whether the action, where it calls the store, names the poll, the user
/// and the option of the request `r` (each that the call takes).
pub open spec fn serves_request(a: VoteAction, r: VoteRequest) -> bool {
    match a {
        VoteAction::ReadPoll { poll_id } => poll_id == r.poll_id,
        VoteAction::CheckVote { username, poll_id } => username == r.username && poll_id == r.poll_id,
        VoteAction::ChangeVote { poll_id, option_id, username } =>
            poll_id == r.poll_id && option_id == r.option_id && username == r.username,
        VoteAction::CastVote { poll_id, option_id, username } =>
            poll_id == r.poll_id && option_id == r.option_id && username == r.username,
        _ => true,
    }
}

proof fn lemma_vote_run(s: VoteFlow, events: Seq<VoteEvent>)
    requires
        vote_run(s, events) is Some,
    ensures
        ({
            let (last, acts) = vote_run(s, events).unwrap();
            &&& acts.len() == events.len()
            &&& events.len() + vote_stage(s) <= 4
            &&& vote_stage(s) >= 2 ==> forall|i: int| 0 <= i < acts.len() ==> !is_vote_write(#[trigger] acts[i])
            &&& forall|i: int| 0 <= i < acts.len() ==> serves_request(#[trigger] acts[i], flow_request(s))
            &&& forall|i: int| 0 <= i < acts.len() && is_vote_write(#[trigger] acts[i]) ==> {
                &&& i == 0 ==> s is AwaitingVoteCheck
                &&& i >= 1 ==> (events[i - 1] matches VoteEvent::PollRead(Ok(Some(p))) && p.is_active)
                &&& events[i] matches VoteEvent::VoteChecked(Ok(voted))
                &&& (acts[i] is ChangeVote <==> voted)
            }
            &&& forall|i: int, j: int| 0 <= i < acts.len() && 0 <= j < acts.len() && is_vote_write(#[trigger] acts[i]) && is_vote_write(#[trigger] acts[j]) ==> i == j
            &&& forall|i: int| 0 <= i < acts.len() && is_vote_answer(#[trigger] acts[i]) ==> i == acts.len() - 1
            &&& (last == VoteFlow::Finished && events.len() > 0) ==> is_vote_answer(acts[acts.len() - 1])
            &&& s == VoteFlow::Finished ==> events.len() == 0
        }),
    decreases events.len(),
{
    if events.len() > 0 {
        let (next, action) = vote_transition(s, events[0]);
        let tail = events.drop_first();
        lemma_vote_run(next, tail);
        let (last, tacts) = vote_run(next, tail).unwrap();
        let acts = seq![action] + tacts;
        assert(vote_run(s, events).unwrap() == (last, acts));
        assert forall|i: int| 1 <= i < acts.len() implies acts[i] == tacts[i - 1] && events[i] == tail[i - 1] by {}
        assert(vote_stage(next) > vote_stage(s));
        assert(next != VoteFlow::Finished ==> flow_request(next) == flow_request(s));
        assert(is_vote_answer(action) ==> next == VoteFlow::Finished);
        assert(is_vote_write(action) ==> vote_stage(next) == 2);
        assert(next is AwaitingVoteCheck ==> (events[0] matches VoteEvent::PollRead(Ok(Some(p))) && p.is_active));
    }
}

/// A vote is stored only for a poll that was read and found open, right
/// after the store answered whether the user had voted; the vote replaces an
/// earlier one exactly when the user had voted. Every call to the store
/// names the poll, the user and the option of the request.
pub proof fn vote_written_only_to_open_poll(request: VoteRequest, events: Seq<VoteEvent>)
    requires
        vote_run(VoteFlow::AwaitingPoll { request }, events) is Some,
    ensures
        ({
            let acts = vote_run(VoteFlow::AwaitingPoll { request }, events).unwrap().1;
            &&& forall|i: int| 0 <= i < acts.len() ==> serves_request(#[trigger] acts[i], request)
            &&& forall|i: int| 0 <= i < acts.len() && is_vote_write(#[trigger] acts[i]) ==> {
                &&& 1 <= i
                &&& events[i - 1] matches VoteEvent::PollRead(Ok(Some(p))) && p.is_active
                &&& events[i] matches VoteEvent::VoteChecked(Ok(voted))
                &&& (acts[i] is ChangeVote <==> voted)
            }
        }),
{
    lemma_vote_run(VoteFlow::AwaitingPoll { request }, events);
}

/// A vote request takes at most four reports of the store, stores at most
/// one vote and is answered once: an answer is always the last action, a
/// finished flow has answered, and it expects nothing more.
pub proof fn vote_request_answered_once(request: VoteRequest, events: Seq<VoteEvent>)
    requires
        vote_run(VoteFlow::AwaitingPoll { request }, events) is Some,
    ensures
        ({
            let (last, acts) = vote_run(VoteFlow::AwaitingPoll { request }, events).unwrap();
            &&& acts.len() == events.len()
            &&& events.len() <= 4
            &&& forall|i: int, j: int| 0 <= i < acts.len() && 0 <= j < acts.len() && is_vote_write(#[trigger] acts[i]) && is_vote_write(#[trigger] acts[j]) ==> i == j
            &&& forall|i: int| 0 <= i < acts.len() && is_vote_answer(#[trigger] acts[i]) ==> i == acts.len() - 1
            &&& last == VoteFlow::Finished ==> events.len() > 0 && is_vote_answer(acts[acts.len() - 1])
            &&& last == VoteFlow::Finished ==> forall|e: VoteEvent| !vote_accepts(last, e)
        }),
{
    lemma_vote_run(VoteFlow::AwaitingPoll { request }, events);
}

/// How the first read of the poll decides a vote request. An open poll goes
/// on to the vote check, for the request's user and poll, whatever its
/// options and voters; the vote is refused as for a closed poll (409
/// "Cannot vote to a closed poll") exactly when the poll read is closed; a
/// poll that is not in the store is answered 404, and a store that fails,
/// 500.
pub proof fn vote_first_read_decides(request: VoteRequest, read: Result<Option<Poll>, String>)
    ensures
        ({
            let (next, action) = vote_transition(VoteFlow::AwaitingPoll { request }, VoteEvent::PollRead(read));
            &&& (read matches Ok(Some(p)) && p.is_active) ==> {
                &&& next == VoteFlow::AwaitingVoteCheck { request }
                &&& action == VoteAction::CheckVote { username: request.username, poll_id: request.poll_id }
            }
            &&& (read matches Ok(Some(p)) && !p.is_active) ==> {
                &&& next == VoteFlow::Finished
                &&& action == VoteAction::Respond(Reply { status: Status::Conflict, body: Body::Text(Message::ClosedPollVote) })
            }
            &&& read == Ok::<Option<Poll>, String>(None) ==> {
                &&& next == VoteFlow::Finished
                &&& action == VoteAction::Respond(Reply { status: Status::NotFound, body: Body::Text(Message::NoPollWithGivenId) })
            }
            &&& read is Err ==> {
                &&& next == VoteFlow::Finished
                &&& action == VoteAction::Respond(Reply {
                    status: Status::InternalServerError,
                    body: Body::Text(Message::InternalServerError),
                })
            }
            &&& (action is Respond && action->Respond_0.status == Status::Conflict) <==> (read matches Ok(Some(p)) && !p.is_active)
            &&& (action is CheckVote) <==> (read matches Ok(Some(p)) && p.is_active)
        }),
{
}

/// How the store's answer to "has the user voted?" decides the write: an
/// earlier vote is changed, otherwise a first vote is cast, each for the
/// request's poll, option and user; a failed check is answered 500 "Error
/// accessing poll" and stores nothing.
pub proof fn vote_check_decides_write(request: VoteRequest, checked: Result<bool, String>)
    ensures
        ({
            let (next, action) = vote_transition(VoteFlow::AwaitingVoteCheck { request }, VoteEvent::VoteChecked(checked));
            &&& checked == Ok::<bool, String>(true) ==> {
                &&& next == VoteFlow::AwaitingWrite { request, changed: true }
                &&& action == VoteAction::ChangeVote {
                    poll_id: request.poll_id,
                    option_id: request.option_id,
                    username: request.username,
                }
            }
            &&& checked == Ok::<bool, String>(false) ==> {
                &&& next == VoteFlow::AwaitingWrite { request, changed: false }
                &&& action == VoteAction::CastVote {
                    poll_id: request.poll_id,
                    option_id: request.option_id,
                    username: request.username,
                }
            }
            &&& checked is Err ==> {
                &&& next == VoteFlow::Finished
                &&& action == VoteAction::Respond(Reply {
                    status: Status::InternalServerError,
                    body: Body::Text(Message::VoteCheckFailed),
                })
            }
        }),
{
}

/// After the write: a stored vote leads to reading the request's poll again,
/// remembering whether the vote was a change; a failed write is answered 500
/// with the store's error ("Error voting to the poll ..." for a first vote).
pub proof fn vote_write_outcome(request: VoteRequest, changed: bool, stored: Result<(), String>)
    ensures
        ({
            let (next, action) = vote_transition(VoteFlow::AwaitingWrite { request, changed }, VoteEvent::VoteStored(stored));
            &&& stored is Ok ==> {
                &&& next == VoteFlow::AwaitingRefresh {
                    request,
                    message: if changed { Message::VoteChanged } else { Message::VoteCast },
                }
                &&& action == VoteAction::ReadPoll { poll_id: request.poll_id }
            }
            &&& stored matches Err(e) ==> {
                &&& next == VoteFlow::Finished
                &&& action == VoteAction::Respond(Reply {
                    status: Status::InternalServerError,
                    body: Body::Text(if changed { Message::VoteChangeFailed(e) } else { Message::VoteCastFailed(e) }),
                })
            }
        }),
{
}

/// After a stored vote, the poll read again is published to the live clients
/// with 200 "Successfully voted to the poll.", whatever its contents; where
/// it cannot be read again the request is still answered 200, with the
/// message of the write.
pub proof fn vote_refresh_outcome(request: VoteRequest, message: Message, read: Result<Option<Poll>, String>)
    ensures
        ({
            let (next, action) = vote_transition(VoteFlow::AwaitingRefresh { request, message }, VoteEvent::PollRead(read));
            &&& next == VoteFlow::Finished
            &&& read matches Ok(Some(p)) ==> action == VoteAction::Publish(
                p,
                Reply { status: Status::Success, body: Body::Text(Message::VoteRecorded) },
            )
            &&& !(read matches Ok(Some(_))) ==> action == VoteAction::Respond(Reply {
                status: Status::Success,
                body: Body::Text(message),
            })
        }),
{
}

} // verus!
