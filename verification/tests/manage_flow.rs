use polling_backend::manage_flow::{ManageAction, ManageEvent, ManageFlow, PollChange};
use polling_backend::models::{Poll, Timestamp};
use polling_backend::reply::{Body, Message, Reply, Status};

fn sample_poll(active: bool) -> Poll {
    Poll {
        poll_id: "p9".to_string(),
        username: "carol".to_string(),
        title: "Trip".to_string(),
        options: vec![],
        is_active: active,
        voters: vec![],
        created_at: Timestamp { secs: 10, nanos: 0 },
        updated_at: Timestamp { secs: 20, nanos: 0 },
    }
}

fn text(status: Status, m: Message) -> Reply {
    Reply { status, body: Body::Text(m) }
}

fn run(change: PollChange, events: Vec<ManageEvent>) -> (ManageFlow, Vec<ManageAction>) {
    let (mut flow, first) = ManageFlow::begin(change, "p9".to_string(), "carol".to_string());
    let mut actions = vec![first];
    for e in events {
        assert!(flow.accepts(&e));
        let (next, a) = flow.step(e);
        flow = next;
        actions.push(a);
    }
    (flow, actions)
}

#[test]
fn close_succeeds_and_publishes() {
    let (flow, actions) = run(
        PollChange::Close,
        vec![ManageEvent::ChangeStored(Ok(())), ManageEvent::PollRead(Some(sample_poll(false)))],
    );
    assert_eq!(flow, ManageFlow::Finished);
    assert_eq!(
        actions,
        vec![
            ManageAction::Apply { change: PollChange::Close, poll_id: "p9".to_string(), username: "carol".to_string() },
            ManageAction::ReadPoll { poll_id: "p9".to_string() },
            ManageAction::Publish(sample_poll(false), text(Status::Success, Message::PollClosed)),
        ]
    );
}

#[test]
fn reset_succeeds_and_publishes() {
    let (_, actions) = run(
        PollChange::Reset,
        vec![ManageEvent::ChangeStored(Ok(())), ManageEvent::PollRead(Some(sample_poll(true)))],
    );
    assert_eq!(
        actions[0],
        ManageAction::Apply { change: PollChange::Reset, poll_id: "p9".to_string(), username: "carol".to_string() }
    );
    assert_eq!(actions[2], ManageAction::Publish(sample_poll(true), text(Status::Success, Message::PollReset)));
}

#[test]
fn change_failure_replies_with_error() {
    let (flow, actions) = run(PollChange::Close, vec![ManageEvent::ChangeStored(Err("denied".to_string()))]);
    assert_eq!(flow, ManageFlow::Finished);
    assert_eq!(
        actions[1],
        ManageAction::Respond(text(Status::InternalServerError, Message::CloseFailed("denied".to_string())))
    );
    let (_, actions) = run(PollChange::Reset, vec![ManageEvent::ChangeStored(Err("denied".to_string()))]);
    assert_eq!(
        actions[1],
        ManageAction::Respond(text(Status::InternalServerError, Message::ResetFailed("denied".to_string())))
    );
}

#[test]
fn poll_gone_after_change_is_not_found() {
    let (_, actions) = run(PollChange::Reset, vec![ManageEvent::ChangeStored(Ok(())), ManageEvent::PollRead(None)]);
    assert_eq!(actions[2], ManageAction::Respond(text(Status::NotFound, Message::NoPollWithGivenId)));
    let (_, actions) = run(PollChange::Close, vec![ManageEvent::ChangeStored(Ok(())), ManageEvent::PollRead(None)]);
    assert_eq!(actions[2].clone(), ManageAction::Respond(text(Status::NotFound, Message::NoPollWithGivenId)));
}

#[test]
fn finished_flow_expects_nothing() {
    let (flow, _) = run(PollChange::Close, vec![ManageEvent::ChangeStored(Err("x".to_string()))]);
    assert!(!flow.accepts(&ManageEvent::PollRead(None)));
    assert!(!flow.accepts(&ManageEvent::ChangeStored(Ok(()))));
    let (start, _) = ManageFlow::begin(PollChange::Close, "p".to_string(), "u".to_string());
    assert!(!start.accepts(&ManageEvent::PollRead(None)));
}
