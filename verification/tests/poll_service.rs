use polling_backend::models::{OptionItem, Poll, PollCreation, PollQueryParams, Timestamp, VoteHistory};
use polling_backend::poll_service::{
    all_polls_reply, assemble_poll, check_results_query, create_new_poll, poll_created_reply,
    poll_details_reply, poll_from_lookup, results_reply, ID_LENGTH,
};
use polling_backend::reply::{Body, Message, Reply, Status};

fn sample_poll(active: bool) -> Poll {
    Poll {
        poll_id: "p1".to_string(),
        username: "alice".to_string(),
        title: "Lunch".to_string(),
        options: vec![OptionItem { option_id: "o1".to_string(), text: "Pizza".to_string(), votes: 2 }],
        is_active: active,
        voters: vec![VoteHistory { username: "bob".to_string(), option_id: "o1".to_string() }],
        created_at: Timestamp { secs: 1, nanos: 5 },
        updated_at: Timestamp { secs: 2, nanos: 0 },
    }
}

fn params(live: Option<bool>, closed: Option<bool>, creator: Option<&str>) -> PollQueryParams {
    PollQueryParams { live, closed, creator: creator.map(|s| s.to_string()) }
}

fn text(status: Status, m: Message) -> Reply {
    Reply { status, body: Body::Text(m) }
}

fn is_id(s: &str) -> bool {
    s.chars().count() == ID_LENGTH
        && s.chars().all(|c| c == '_' || c == '-' || c.is_ascii_digit() || c.is_ascii_alphabetic())
}

#[test]
fn lookup_found_missing_and_failed() {
    assert_eq!(poll_from_lookup::<String>(Ok(Some(sample_poll(true)))), Some(sample_poll(true)));
    assert_eq!(poll_from_lookup::<String>(Ok(None)), None);
    assert_eq!(poll_from_lookup(Err("db down".to_string())), None);
}

#[test]
fn all_polls_ok_and_error() {
    let r = all_polls_reply(Ok(vec![sample_poll(true), sample_poll(false)]));
    assert_eq!(r, Reply { status: Status::Success, body: Body::Polls(vec![sample_poll(true), sample_poll(false)]) });
    let e = all_polls_reply(Err("timeout".to_string()));
    assert_eq!(e, text(Status::InternalServerError, Message::StoreError("timeout".to_string())));
    assert_eq!(e.status.code(), 500);
}

#[test]
fn poll_details_found_missing_and_failed() {
    assert_eq!(
        poll_details_reply(Ok(Some(sample_poll(true)))),
        Reply { status: Status::Success, body: Body::Poll(sample_poll(true)) }
    );
    let r = poll_details_reply(Ok(None));
    assert_eq!(r, text(Status::NotFound, Message::NoPollWithGivenId));
    assert_eq!(r.status.code(), 404);
    let r = poll_details_reply(Err("gone".to_string()));
    assert_eq!(r, text(Status::InternalServerError, Message::StoreError("gone".to_string())));
    assert_eq!(r.status.code(), 500);
}

#[test]
fn results_without_filters() {
    let r = results_reply(Ok(Some(sample_poll(true))), params(None, None, None));
    assert_eq!(r, Reply { status: Status::Success, body: Body::Results(sample_poll(true)) });
    let r = results_reply(Ok(Some(sample_poll(false))), params(None, None, None));
    assert_eq!(r, Reply { status: Status::Success, body: Body::Results(sample_poll(false)) });
}

#[test]
fn results_poll_missing_or_store_failed() {
    let r = results_reply(Ok(None), params(Some(true), None, None));
    assert_eq!(r, text(Status::NotFound, Message::NoPollWithTheGivenId));
    assert_eq!(r.status.code(), 404);
    let r = results_reply(Err("broken".to_string()), params(None, None, None));
    assert_eq!(r, text(Status::InternalServerError, Message::StoreError("broken".to_string())));
}

#[test]
fn results_closed_filter() {
    // a closed poll asked for with closed = true passes
    let r = results_reply(Ok(Some(sample_poll(false))), params(None, Some(true), None));
    assert_eq!(r.body, Body::Results(sample_poll(false)));
    // an open poll asked for with closed = true is refused
    let r = results_reply(Ok(Some(sample_poll(true))), params(None, Some(true), None));
    assert_eq!(r, text(Status::BadRequest, Message::StatusMismatch));
    let r = results_reply(Ok(Some(sample_poll(false))), params(None, Some(false), None));
    assert_eq!(r, text(Status::BadRequest, Message::StatusMismatch));
    let r = results_reply(Ok(Some(sample_poll(true))), params(None, Some(false), None));
    assert_eq!(r.body, Body::Results(sample_poll(true)));
}

#[test]
fn results_live_filter() {
    let r = results_reply(Ok(Some(sample_poll(false))), params(Some(true), None, None));
    assert_eq!(r, text(Status::BadRequest, Message::StatusMismatch));
    assert_eq!(r.status.code(), 400);
    let r = results_reply(Ok(Some(sample_poll(true))), params(Some(false), None, None));
    assert_eq!(r, text(Status::BadRequest, Message::StatusMismatch));
    let r = results_reply(Ok(Some(sample_poll(true))), params(Some(true), None, None));
    assert_eq!(r.body, Body::Results(sample_poll(true)));
}

#[test]
fn results_creator_filter() {
    let r = results_reply(Ok(Some(sample_poll(true))), params(None, None, Some("mallory")));
    assert_eq!(r, text(Status::BadRequest, Message::CreatorMismatch));
    assert_eq!(r.status.code(), 400);
    let r = results_reply(Ok(Some(sample_poll(true))), params(None, None, Some("alice")));
    assert_eq!(r.body, Body::Results(sample_poll(true)));
}

#[test]
fn results_filters_checked_in_order() {
    // every filter disagrees: the status filter's message comes first
    let r = results_reply(Ok(Some(sample_poll(true))), params(Some(false), Some(true), Some("x")));
    assert_eq!(r, text(Status::BadRequest, Message::StatusMismatch));
    // closed agrees, live and creator disagree: live decides
    let r = results_reply(Ok(Some(sample_poll(true))), params(Some(false), Some(false), Some("x")));
    assert_eq!(r, text(Status::BadRequest, Message::StatusMismatch));
    assert_eq!(
        check_results_query(&sample_poll(true), &params(Some(true), Some(false), Some("x"))),
        Some(text(Status::BadRequest, Message::CreatorMismatch))
    );
    assert_eq!(check_results_query(&sample_poll(true), &params(Some(true), Some(false), Some("alice"))), None);
}

#[test]
fn assembled_poll_shape() {
    let data = PollCreation {
        title: "Lunch".to_string(),
        username: "alice".to_string(),
        options: vec!["Pizza".to_string(), "Sushi".to_string()],
    };
    let now = Timestamp { secs: 1234, nanos: 567 };
    let p = assemble_poll(data, "P".to_string(), vec!["a".to_string(), "b".to_string()], now);
    assert_eq!(
        p,
        Poll {
            poll_id: "P".to_string(),
            username: "alice".to_string(),
            title: "Lunch".to_string(),
            options: vec![
                OptionItem { option_id: "a".to_string(), text: "Pizza".to_string(), votes: 0 },
                OptionItem { option_id: "b".to_string(), text: "Sushi".to_string(), votes: 0 },
            ],
            is_active: true,
            voters: vec![],
            created_at: now,
            updated_at: now,
        }
    );
}

#[test]
fn created_poll_has_fresh_ids_and_time() {
    let data = PollCreation {
        title: "Color".to_string(),
        username: "bob".to_string(),
        options: vec!["Red".to_string(), "Blue".to_string(), "Green".to_string()],
    };
    let p = create_new_poll(data);
    assert!(is_id(&p.poll_id));
    assert_eq!(p.options.len(), 3);
    for (o, t) in p.options.iter().zip(["Red", "Blue", "Green"]) {
        assert!(is_id(&o.option_id));
        assert_eq!(o.text, t);
        assert_eq!(o.votes, 0);
    }
    assert!(p.is_active);
    assert!(p.voters.is_empty());
    assert_eq!(p.created_at, p.updated_at);
    // the clock is read: any time after September 2020
    assert!(p.created_at.secs > 1_600_000_000);
    assert!(p.created_at.nanos < 1_000_000_000);
    assert_eq!(p.username, "bob");
    assert_eq!(p.title, "Color");
}

#[test]
fn created_poll_without_options() {
    let data = PollCreation { title: "Empty".to_string(), username: "c".to_string(), options: vec![] };
    let p = create_new_poll(data);
    assert!(is_id(&p.poll_id));
    assert!(p.options.is_empty());
}

#[test]
fn poll_created_replies() {
    assert_eq!(poll_created_reply(Ok(())), text(Status::Success, Message::PollCreated));
    assert_eq!(
        poll_created_reply(Err("dup key".to_string())),
        text(Status::InternalServerError, Message::StoreError("dup key".to_string()))
    );
}
