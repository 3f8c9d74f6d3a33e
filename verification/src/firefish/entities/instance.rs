//! Instance information as a Firefish server describes it, and its
//! conversion into the shared entity types.

use vstd::prelude::*;
use crate::entities as shared;

verus! {

/// Instance information from a Firefish server.
#[derive(Debug, Clone)]
pub struct Instance {
    pub uri: String,
    pub title: String,
    pub short_description: String,
    pub description: String,
    pub email: String,
    pub version: String,
    pub thumbnail: Option<String>,
    pub urls: URLs,
    pub stats: Stats,
    pub languages: Vec<String>,
    pub registrations: bool,
    pub approval_required: bool,
    pub invites_enabled: bool,
    pub max_toot_chars: Option<u32>,
    pub configuration: InstanceConfig,
    pub contact_account: shared::Account,
}

impl From<Instance> for shared::Instance {
    fn from(val: Instance) -> (r: Self) {
        shared::Instance {
            uri: val.uri,
            title: val.title,
            description: val.description,
            email: val.email,
            version: val.version,
            thumbnail: val.thumbnail,
            urls: Some(shared::URLs::from(val.urls)),
            stats: shared::Stats::from(val.stats),
            languages: val.languages,
            registrations: val.registrations,
            approval_required: val.approval_required,
            invites_enabled: Some(val.invites_enabled),
            configuration: shared::InstanceConfig::from(val.configuration),
            contact_account: Some(val.contact_account),
            rules: None,
        }
    }
}

impl vstd::std_specs::convert::FromSpecImpl<Instance> for shared::Instance {
    open spec fn obeys_from_spec() -> bool {
        true
    }

    /// Every field the shared type has is kept; the short description, the
    /// character limit and the media limits are dropped; invitations and the
    /// contact account become present values; there are no rules.
    open spec fn from_spec(val: Instance) -> shared::Instance {
        shared::Instance {
            uri: val.uri,
            title: val.title,
            description: val.description,
            email: val.email,
            version: val.version,
            thumbnail: val.thumbnail,
            urls: Some(shared::URLs { streaming_api: val.urls.streaming_api }),
            stats: shared::Stats {
                user_count: val.stats.user_count,
                status_count: val.stats.status_count,
                domain_count: val.stats.domain_count,
            },
            languages: val.languages,
            registrations: val.registrations,
            approval_required: val.approval_required,
            invites_enabled: Some(val.invites_enabled),
            configuration: shared::InstanceConfig {
                statuses: shared::Statuses {
                    max_characters: val.configuration.statuses.max_characters,
                    max_media_attachments: Some(val.configuration.statuses.max_media_attachments),
                    characters_reserved_per_url: Some(val.configuration.statuses.characters_reserved_per_url),
                },
                polls: Some(shared::Polls {
                    max_options: val.configuration.polls.max_options,
                    max_characters_per_option: val.configuration.polls.max_characters_per_option,
                    min_expiration: val.configuration.polls.min_expiration,
                    max_expiration: val.configuration.polls.max_expiration,
                }),
            },
            contact_account: Some(val.contact_account),
            rules: None,
        }
    }
}

/// URLs a Firefish instance publishes.
#[derive(Debug, Clone)]
pub struct URLs {
    pub streaming_api: String,
}

impl From<URLs> for shared::URLs {
    fn from(val: URLs) -> (r: Self) {
        shared::URLs { streaming_api: val.streaming_api }
    }
}

impl vstd::std_specs::convert::FromSpecImpl<URLs> for shared::URLs {
    open spec fn obeys_from_spec() -> bool {
        true
    }

    open spec fn from_spec(val: URLs) -> shared::URLs {
        shared::URLs { streaming_api: val.streaming_api }
    }
}

/// Counters of a Firefish instance.
#[derive(Debug, Clone)]
pub struct Stats {
    pub user_count: u32,
    pub status_count: u64,
    pub domain_count: u32,
}

impl From<Stats> for shared::Stats {
    fn from(val: Stats) -> (r: Self) {
        shared::Stats {
            user_count: val.user_count,
            status_count: val.status_count,
            domain_count: val.domain_count,
        }
    }
}

impl vstd::std_specs::convert::FromSpecImpl<Stats> for shared::Stats {
    open spec fn obeys_from_spec() -> bool {
        true
    }

    open spec fn from_spec(val: Stats) -> shared::Stats {
        shared::Stats {
            user_count: val.user_count,
            status_count: val.status_count,
            domain_count: val.domain_count,
        }
    }
}

/// Configuration limits of a Firefish instance.
#[derive(Debug, Clone)]
pub struct InstanceConfig {
    pub statuses: Statuses,
    pub media_attachments: MediaAttachments,
    pub polls: Polls,
}

impl From<InstanceConfig> for shared::InstanceConfig {
    fn from(val: InstanceConfig) -> (r: Self) {
        shared::InstanceConfig {
            statuses: shared::Statuses::from(val.statuses),
            polls: Some(shared::Polls::from(val.polls)),
        }
    }
}

impl vstd::std_specs::convert::FromSpecImpl<InstanceConfig> for shared::InstanceConfig {
    open spec fn obeys_from_spec() -> bool {
        true
    }

    /// The status and poll limits are kept; the media limits are dropped.
    open spec fn from_spec(val: InstanceConfig) -> shared::InstanceConfig {
        shared::InstanceConfig {
            statuses: shared::Statuses {
                max_characters: val.statuses.max_characters,
                max_media_attachments: Some(val.statuses.max_media_attachments),
                characters_reserved_per_url: Some(val.statuses.characters_reserved_per_url),
            },
            polls: Some(shared::Polls {
                max_options: val.polls.max_options,
                max_characters_per_option: val.polls.max_characters_per_option,
                min_expiration: val.polls.min_expiration,
                max_expiration: val.polls.max_expiration,
            }),
        }
    }
}

/// Limits on statuses of a Firefish instance.
#[derive(Debug, Clone)]
pub struct Statuses {
    pub max_characters: u32,
    pub max_media_attachments: u32,
    pub characters_reserved_per_url: u32,
}

impl From<Statuses> for shared::Statuses {
    fn from(val: Statuses) -> (r: Self) {
        shared::Statuses {
            max_characters: val.max_characters,
            max_media_attachments: Some(val.max_media_attachments),
            characters_reserved_per_url: Some(val.characters_reserved_per_url),
        }
    }
}

impl vstd::std_specs::convert::FromSpecImpl<Statuses> for shared::Statuses {
    open spec fn obeys_from_spec() -> bool {
        true
    }

    open spec fn from_spec(val: Statuses) -> shared::Statuses {
        shared::Statuses {
            max_characters: val.max_characters,
            max_media_attachments: Some(val.max_media_attachments),
            characters_reserved_per_url: Some(val.characters_reserved_per_url),
        }
    }
}

/// Limits on media attachments of a Firefish instance.
#[derive(Debug, Clone)]
pub struct MediaAttachments {
    pub supported_mime_types: Vec<String>,
    pub image_size_limit: u32,
    pub image_matrix_limit: u32,
    pub video_size_limit: u32,
    pub video_frame_rate_limit: u32,
    pub video_matrix_limit: u32,
}

/// Limits on polls of a Firefish instance.
#[derive(Debug, Clone)]
pub struct Polls {
    pub max_options: u32,
    pub max_characters_per_option: u32,
    pub min_expiration: u32,
    pub max_expiration: u32,
}

impl From<Polls> for shared::Polls {
    fn from(val: Polls) -> (r: Self) {
        shared::Polls {
            max_options: val.max_options,
            max_characters_per_option: val.max_characters_per_option,
            min_expiration: val.min_expiration,
            max_expiration: val.max_expiration,
        }
    }
}

impl vstd::std_specs::convert::FromSpecImpl<Polls> for shared::Polls {
    open spec fn obeys_from_spec() -> bool {
        true
    }

    open spec fn from_spec(val: Polls) -> shared::Polls {
        shared::Polls {
            max_options: val.max_options,
            max_characters_per_option: val.max_characters_per_option,
            min_expiration: val.min_expiration,
            max_expiration: val.max_expiration,
        }
    }
}

} // verus!
