//! Verified core of the kudos API: the rules that decide who may do what, how request
//! payloads are checked and normalised, how database rows become responses, and what each
//! error says to the client.
pub mod api;
pub mod clock;
pub mod dedup;
pub mod filters;
pub mod status;
pub mod text;
pub mod types;
