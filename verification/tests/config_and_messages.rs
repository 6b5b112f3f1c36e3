use polling_backend::config::AppConfig;
use polling_backend::reply::{Message, Status};
use polling_backend::user_config::Error;
use polling_backend::user_repository::get_user_credentials;

#[test]
fn config_defaults_when_unset() {
    let cfg = AppConfig::from_env_values(None, None, None);
    assert_eq!(cfg.mongodb_uri, "mongodb://localhost:27017");
    assert_eq!(cfg.database_name, "polling_application");
    assert_eq!(cfg.jwt_secret, "whatmightbeyoursecret");
}

#[test]
fn config_takes_given_values() {
    let cfg = AppConfig::from_env_values(
        Some("mongodb://db:1".to_string()),
        Some("polls".to_string()),
        Some("s3".to_string()),
    );
    assert_eq!(cfg.mongodb_uri, "mongodb://db:1");
    assert_eq!(cfg.database_name, "polls");
    assert_eq!(cfg.jwt_secret, "s3");
    let mixed = AppConfig::from_env_values(None, Some("x".to_string()), None);
    assert_eq!(mixed.mongodb_uri, "mongodb://localhost:27017");
    assert_eq!(mixed.database_name, "x");
    assert_eq!(mixed.jwt_secret, "whatmightbeyoursecret");
}

#[test]
fn status_codes() {
    assert_eq!(Status::Success.code(), 200);
    assert_eq!(Status::BadRequest.code(), 400);
    assert_eq!(Status::NotFound.code(), 404);
    assert_eq!(Status::Conflict.code(), 409);
    assert_eq!(Status::InternalServerError.code(), 500);
}

#[test]
fn message_texts() {
    assert_eq!(Message::NoPollWithGivenId.text(), "No poll found with given id.");
    assert_eq!(Message::NoPollWithTheGivenId.text(), "No poll found with the given ID.");
    assert_eq!(Message::InternalServerError.text(), "Internal server error.");
    assert_eq!(Message::ClosedPollVote.text(), "Cannot vote to a closed poll");
    assert_eq!(Message::VoteCheckFailed.text(), "Error accessing poll");
    assert_eq!(Message::VoteChangeFailed("boom".to_string()).text(), "boom");
    assert_eq!(Message::VoteCastFailed("boom".to_string()).text(), "Error voting to the poll boom");
    assert_eq!(Message::VoteChanged.text(), "Successfully changed your option.");
    assert_eq!(Message::VoteCast.text(), "Successfully voted for the option.");
    assert_eq!(Message::VoteRecorded.text(), "Successfully voted to the poll.");
    assert_eq!(Message::CloseFailed("x".to_string()).text(), "Error closing poll : x");
    assert_eq!(Message::PollClosed.text(), "Closed poll successfully.");
    assert_eq!(Message::ResetFailed("y".to_string()).text(), "Error resetting poll : y");
    assert_eq!(Message::PollReset.text(), "Poll reset successfully.");
    assert_eq!(Message::PollCreated.text(), "New poll created successfully.");
    assert_eq!(Message::StoreError("down".to_string()).text(), "down");
    assert_eq!(
        Message::StatusMismatch.text(),
        "Query parameters mismatch, poll status is not specified correctly."
    );
    assert_eq!(
        Message::CreatorMismatch.text(),
        "Query parameters mismatch, provided creator is not owner of this poll."
    );
}

#[test]
fn user_credentials_found() {
    let r = get_user_credentials(Ok(Some(7u32)), "alice");
    assert_eq!(r, Ok(7));
}

#[test]
fn user_credentials_not_found() {
    let r: Result<u32, Error> = get_user_credentials(Ok(None), "alice");
    assert_eq!(r, Err(Error::UserNotFound("alice".to_string())));
}

#[test]
fn user_credentials_store_error() {
    let r: Result<u32, Error> = get_user_credentials(Err(Error::MongoError("net".to_string())), "alice");
    assert_eq!(r, Err(Error::MongoError("net".to_string())));
}
