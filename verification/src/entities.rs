//! The server-independent entity types that server-specific data converts
//! into.

use vstd::prelude::*;

verus! {

/// An account, as far as instance data refers to one.
#[derive(Clone, Debug)]
pub struct Account {
    pub id: String,
    pub username: String,
    pub acct: String,
    pub display_name: String,
}

/// URLs an instance publishes.
#[derive(Clone, Debug)]
pub struct URLs {
    pub streaming_api: String,
}

/// Counters an instance publishes.
#[derive(Clone, Debug)]
pub struct Stats {
    pub user_count: u32,
    pub status_count: u64,
    pub domain_count: u32,
}

/// Limits on statuses.
#[derive(Clone, Debug)]
pub struct Statuses {
    pub max_characters: u32,
    pub max_media_attachments: Option<u32>,
    pub characters_reserved_per_url: Option<u32>,
}

/// Limits on polls.
#[derive(Clone, Debug)]
pub struct Polls {
    pub max_options: u32,
    pub max_characters_per_option: u32,
    pub min_expiration: u32,
    pub max_expiration: u32,
}

/// Configuration limits of an instance.
#[derive(Clone, Debug)]
pub struct InstanceConfig {
    pub statuses: Statuses,
    pub polls: Option<Polls>,
}

/// A rule of an instance.
#[derive(Clone, Debug)]
pub struct InstanceRule {
    pub id: String,
    pub text: String,
}

/// Information about an instance.
#[derive(Clone, Debug)]
pub struct Instance {
    pub uri: String,
    pub title: String,
    pub description: String,
    pub email: String,
    pub version: String,
    pub thumbnail: Option<String>,
    pub urls: Option<URLs>,
    pub stats: Stats,
    pub languages: Vec<String>,
    pub registrations: bool,
    pub approval_required: bool,
    pub invites_enabled: Option<bool>,
    pub configuration: InstanceConfig,
    pub contact_account: Option<Account>,
    pub rules: Option<Vec<InstanceRule>>,
}

} // verus!
