pub mod auth;
pub mod create_poll;
pub mod edit_poll;
pub mod get_poll;
pub mod health;
pub mod list_polls;
pub mod stream_results;
pub mod teams;
pub mod vote;
