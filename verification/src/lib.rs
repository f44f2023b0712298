//! A library for reporting a user's public activity feed.
//!
//! The library validates a username against the provider's grammar, builds the
//! request URL, classifies HTTP status codes, and renders decoded activity
//! events as human-readable lines. Network access, credential loading and JSON
//! decoding are left to the surrounding application.

use vstd::prelude::*;

pub mod api;
pub mod error;
pub mod event;
pub mod report;
pub mod text;
pub mod username;

verus! {

/// Command-line arguments: the username to query, and two switches that ask
/// for profile counts instead of the activity feed.
pub struct Args {
    pub user_name: String,
    pub followers: bool,
    pub public_gists: bool,
}

} // verus!
