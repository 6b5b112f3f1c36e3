use vstd::prelude::*;

use crate::models::Poll;
use crate::reply::{text_reply, Body, Message, Reply, Status};

verus! {

/// The changes that the creator of a poll may ask for.
#[derive(Debug, Clone, Copy, PartialEq, Eq, Structural)]
pub enum PollChange {
    /// Close the poll to further votes.
    Close,
    /// Clear the votes of the poll.
    Reset,
}

/// Where a close or reset request stands: the change asked for the poll
/// `poll_id` by `username`. The flow stores the change, reads the poll again
/// and publishes it.
#[derive(Debug, Clone, PartialEq, Eq)]
pub enum ManageFlow {
    /// The change is being stored.
    AwaitingChange { change: PollChange, poll_id: String, username: String },
    /// The change is stored; the poll is being read again.
    AwaitingPoll { change: PollChange, poll_id: String },
    /// The request has been answered.
    Finished,
}

/// What the store reported for the last action.
#[derive(Debug, PartialEq, Eq)]
pub enum ManageEvent {
    /// The outcome of storing the change.
    ChangeStored(Result<(), String>),
    /// The poll as read again (`None` where it was not found or could not
    /// be read).
    PollRead(Option<Poll>),
}

/// What the caller is to do next.
#[derive(Debug, Clone, PartialEq, Eq)]
pub enum ManageAction {
    /// Store the change to the poll `poll_id`, on behalf of `username`.
    Apply { change: PollChange, poll_id: String, username: String },
    /// Read the poll `poll_id`.
    ReadPoll { poll_id: String },
    /// Send this poll and its results to the live clients, then give the reply.
    Publish(Poll, Reply),
    /// Give the reply.
    Respond(Reply),
}

/// The message of a failed change, with the store's error.
pub open spec fn change_failed(change: PollChange, err: String) -> Message {
    match change {
        PollChange::Close => Message::CloseFailed(err),
        PollChange::Reset => Message::ResetFailed(err),
    }
}

/// The message of a change that was made.
pub open spec fn change_done(change: PollChange) -> Message {
    match change {
        PollChange::Close => Message::PollClosed,
        PollChange::Reset => Message::PollReset,
    }
}

/// Whether the flow, in state `s`, expects the event `e`.
pub open spec fn manage_accepts(s: ManageFlow, e: ManageEvent) -> bool {
    match (s, e) {
        (ManageFlow::AwaitingChange { .. }, ManageEvent::ChangeStored(_)) => true,
        (ManageFlow::AwaitingPoll { .. }, ManageEvent::PollRead(_)) => true,
        _ => false,
    }
}

/// The next state and action of the flow, for an expected event.
pub open spec fn manage_transition(s: ManageFlow, e: ManageEvent) -> (ManageFlow, ManageAction) {
    match (s, e) {
        (ManageFlow::AwaitingChange { change, poll_id, username }, ManageEvent::ChangeStored(stored)) => match stored {
            Err(err) => (
                ManageFlow::Finished,
                ManageAction::Respond(
                    text_reply(Status::InternalServerError, change_failed(change, err)),
                ),
            ),
            Ok(_) => (ManageFlow::AwaitingPoll { change, poll_id }, ManageAction::ReadPoll { poll_id }),
        },
        (ManageFlow::AwaitingPoll { change, .. }, ManageEvent::PollRead(found)) => match found {
            None => (
                ManageFlow::Finished,
                ManageAction::Respond(text_reply(Status::NotFound, Message::NoPollWithGivenId)),
            ),
            Some(p) => (
                ManageFlow::Finished,
                ManageAction::Publish(p, text_reply(Status::Success, change_done(change))),
            ),
        },
        _ => (s, ManageAction::Respond(text_reply(Status::InternalServerError, Message::InternalServerError))),
    }
}

impl ManageFlow {
    /// Starts a request of `username` to make `change` to the poll
    /// `poll_id`: the change is stored first.
    pub fn begin(change: PollChange, poll_id: String, username: String) -> (r: (ManageFlow, ManageAction))
        ensures
            r == (
                ManageFlow::AwaitingChange { change, poll_id, username },
                ManageAction::Apply { change, poll_id, username },
            ),
    {
        let action = ManageAction::Apply { change, poll_id: poll_id.clone(), username: username.clone() };
        (ManageFlow::AwaitingChange { change, poll_id, username }, action)
    }

    /// Whether the flow expects `event` now.
    pub fn accepts(&self, event: &ManageEvent) -> (b: bool)
        ensures
            b == manage_accepts(*self, *event),
    {
        match (self, event) {
            (ManageFlow::AwaitingChange { .. }, ManageEvent::ChangeStored(_)) => true,
            (ManageFlow::AwaitingPoll { .. }, ManageEvent::PollRead(_)) => true,
            _ => false,
        }
    }

    /// Takes the store's report of the last action and gives the next state
    /// and the next action.
    pub fn step(self, event: ManageEvent) -> (r: (ManageFlow, ManageAction))
        requires
            manage_accepts(self, event),
        ensures
            r == manage_transition(self, event),
    {
        match (self, event) {
            (ManageFlow::AwaitingChange { change, poll_id, .. }, ManageEvent::ChangeStored(stored)) => match stored {
                Err(err) => {
                    let message = match change {
                        PollChange::Close => Message::CloseFailed(err),
                        PollChange::Reset => Message::ResetFailed(err),
                    };
                    (
                        ManageFlow::Finished,
                        ManageAction::Respond(Reply {
                            status: Status::InternalServerError,
                            body: Body::Text(message),
                        }),
                    )
                },
                Ok(_) => {
                    let read = ManageAction::ReadPoll { poll_id: poll_id.clone() };
                    (ManageFlow::AwaitingPoll { change, poll_id }, read)
                },
            },
            (ManageFlow::AwaitingPoll { change, .. }, ManageEvent::PollRead(found)) => match found {
                None => (
                    ManageFlow::Finished,
                    ManageAction::Respond(Reply {
                        status: Status::NotFound,
                        body: Body::Text(Message::NoPollWithGivenId),
                    }),
                ),
                Some(p) => {
                    let message = match change {
                        PollChange::Close => Message::PollClosed,
                        PollChange::Reset => Message::PollReset,
                    };
                    (
                        ManageFlow::Finished,
                        ManageAction::Publish(p, Reply { status: Status::Success, body: Body::Text(message) }),
                    )
                },
            },
            (s, _) => (
                s,
                ManageAction::Respond(Reply {
                    status: Status::InternalServerError,
                    body: Body::Text(Message::InternalServerError),
                }),
            ),
        }
    }
}

/// The state reached from `s` through `events`, with the action given after
/// each event; `None` where an event comes that the flow does not expect.
pub open spec fn manage_run(s: ManageFlow, events: Seq<ManageEvent>) -> Option<(ManageFlow, Seq<ManageAction>)>
    decreases events.len(),
{
    if events.len() == 0 {
        Some((s, Seq::empty()))
    } else if !manage_accepts(s, events[0]) {
        None
    } else {
        let (next, action) = manage_transition(s, events[0]);
        match manage_run(next, events.drop_first()) {
            Some((last, actions)) => Some((last, seq![action] + actions)),
            None => None,
        }
    }
}

/// A close or reset request stores the change asked for, to the poll and on
/// behalf of the user asked for; it reads that poll again only after the
/// change was stored, and publishes it only then, as it was read, with the
/// change's success reply. It answers once: it takes at most two reports of
/// the store, an answer is its last action, and a finished flow has
/// answered and expects nothing more.
pub proof fn poll_published_only_after_change(
    change: PollChange,
    poll_id: String,
    username: String,
    events: Seq<ManageEvent>,
)
    requires
        manage_run(ManageFlow::AwaitingChange { change, poll_id, username }, events) is Some,
    ensures
        ({
            let (last, acts) = manage_run(ManageFlow::AwaitingChange { change, poll_id, username }, events).unwrap();
            &&& acts.len() == events.len()
            &&& events.len() <= 2
            &&& forall|i: int| 0 <= i < acts.len() && (#[trigger] acts[i] is ReadPoll) ==> {
                &&& i == 0
                &&& events[0] matches ManageEvent::ChangeStored(Ok(_))
                &&& acts[i] == ManageAction::ReadPoll { poll_id }
            }
            &&& forall|i: int| 0 <= i < acts.len() && (#[trigger] acts[i] is Publish) ==> {
                &&& i == 1
                &&& events[0] matches ManageEvent::ChangeStored(Ok(_))
                &&& events[1] == ManageEvent::PollRead(Some(acts[i]->Publish_0))
                &&& acts[i]->Publish_1 == text_reply(Status::Success, change_done(change))
            }
            &&& forall|i: int| 0 <= i < acts.len() ==> !(#[trigger] acts[i] is Apply)
            &&& forall|i: int| 0 <= i < acts.len() && (#[trigger] acts[i] is Publish || acts[i] is Respond) ==> i == acts.len() - 1
            &&& last == ManageFlow::Finished ==> events.len() > 0 && (acts[acts.len() - 1] is Publish || acts[acts.len() - 1] is Respond)
            &&& last == ManageFlow::Finished ==> forall|e: ManageEvent| !manage_accepts(last, e)
        }),
{
    let s0 = ManageFlow::AwaitingChange { change, poll_id, username };
    if events.len() > 0 {
        let (s1, a0) = manage_transition(s0, events[0]);
        let t1 = events.drop_first();
        if t1.len() > 0 {
            let (s2, a1) = manage_transition(s1, t1[0]);
            let t2 = t1.drop_first();
            assert(t2.len() == 0) by {
                if t2.len() > 0 {
                    assert(!manage_accepts(s2, t2[0]));
                }
            }
            assert(manage_run(s2, t2) == Some((s2, Seq::<ManageAction>::empty())));
            assert(manage_run(s1, t1) == Some((s2, seq![a1])));
            assert(events[1] == t1[0]);
            assert(seq![a0] + seq![a1] =~= seq![a0, a1]);
            assert(manage_run(s0, events) == Some((s2, seq![a0, a1])));
            assert(!(a0 is Publish) && !(a0 is Respond));
        } else {
            assert(manage_run(s1, t1) == Some((s1, Seq::<ManageAction>::empty())));
            assert(seq![a0] + Seq::<ManageAction>::empty() =~= seq![a0]);
            assert(manage_run(s0, events) == Some((s1, seq![a0])));
            assert(!(a0 is Publish));
        }
    }
}

/// How a close or reset goes on from the store's answer to the change: a
/// stored change leads to reading the same poll again; a failed one is
/// answered 500 with the store's error ("Error closing poll : ..." or
/// "Error resetting poll : ...") and nothing is read or published.
pub proof fn change_outcome(change: PollChange, poll_id: String, username: String, stored: Result<(), String>)
    ensures
        ({
            let (next, action) = manage_transition(
                ManageFlow::AwaitingChange { change, poll_id, username },
                ManageEvent::ChangeStored(stored),
            );
            &&& stored is Ok ==> {
                &&& next == ManageFlow::AwaitingPoll { change, poll_id }
                &&& action == ManageAction::ReadPoll { poll_id }
            }
            &&& stored matches Err(e) ==> {
                &&& next == ManageFlow::Finished
                &&& action == ManageAction::Respond(Reply {
                    status: Status::InternalServerError,
                    body: Body::Text(match change {
                        PollChange::Close => Message::CloseFailed(e),
                        PollChange::Reset => Message::ResetFailed(e),
                    }),
                })
            }
        }),
{
}

/// After a stored change, a poll that is found again is always published,
/// as read and whatever its contents, with 200 "Closed poll successfully." or
/// "Poll reset successfully."; 404 "No poll found with given id." is given
/// exactly when the poll is not found again.
pub proof fn changed_poll_published_when_found(change: PollChange, poll_id: String, found: Option<Poll>)
    ensures
        ({
            let (next, action) = manage_transition(ManageFlow::AwaitingPoll { change, poll_id }, ManageEvent::PollRead(found));
            &&& next == ManageFlow::Finished
            &&& found matches Some(p) ==> action == ManageAction::Publish(
                p,
                Reply {
                    status: Status::Success,
                    body: Body::Text(match change {
                        PollChange::Close => Message::PollClosed,
                        PollChange::Reset => Message::PollReset,
                    }),
                },
            )
            &&& found is None ==> action == ManageAction::Respond(Reply {
                status: Status::NotFound,
                body: Body::Text(Message::NoPollWithGivenId),
            })
            &&& (action is Respond && action->Respond_0.status == Status::NotFound) <==> found is None
        }),
{
}

} // verus!
