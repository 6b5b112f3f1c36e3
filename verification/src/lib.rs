//! Request handling rules of the polling service: configuration defaults,
//! poll records, the replies of the poll endpoints and the flows that vote,
//! close and reset a poll.
pub mod config;
pub mod models;
pub mod reply;
pub mod vote_flow;
pub mod manage_flow;
pub mod ids;
pub mod poll_service;
pub mod user_config;
pub mod user_repository;
pub mod api_docs;
