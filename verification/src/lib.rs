//! A typed client library for the Synapse administration API.
//!
//! The library builds the request for each endpoint (URL, query string,
//! JSON body) and decodes the three-way response envelope that the API
//! uses (success payload, structured error, unrecognized shape). The
//! HTTP transport itself lives outside the library; callers hand the
//! response body back as a [`json::JsonValue`] and get a typed result.

pub mod account_validity;
pub mod background_updates;
pub mod client;
pub mod envelope;
pub mod error;
pub mod event_reports;
pub mod json;
pub mod media;
pub mod purge_history;
pub mod registration_tokens;
pub mod room_membership;
pub mod rooms;
pub mod server_notices;
pub mod server_version;
pub mod statistics;
pub mod strconv;
pub mod timestamp;
