//! The inputs of the API calls: optional parameters, the closed sets of
//! words some parameters take, instants, and application data.

use vstd::prelude::*;
use crate::external::{rfc3339, rfc3339_text};

verus! {

/// Where a filter applies.
#[derive(PartialEq, Eq, Structural, Clone, Copy, Debug)]
pub enum FilterContext {
    Home,
    Notifications,
    Public,
    Thread,
    Account,
}

/// The word a filter context is sent as.
pub open spec fn filter_context_text(c: FilterContext) -> Seq<char> {
    match c {
        FilterContext::Home => "home"@,
        FilterContext::Notifications => "notifications"@,
        FilterContext::Public => "public"@,
        FilterContext::Thread => "thread"@,
        FilterContext::Account => "account"@,
    }
}

impl FilterContext {
    /// The word this context is sent as.
    pub fn as_str(&self) -> (r: &'static str)
        ensures
            r@ == filter_context_text(*self),
    {
        match self {
            FilterContext::Home => "home",
            FilterContext::Notifications => "notifications",
            FilterContext::Public => "public",
            FilterContext::Thread => "thread",
            FilterContext::Account => "account",
        }
    }
}

/// Who may see a status.
#[derive(PartialEq, Eq, Structural, Clone, Copy, Debug)]
pub enum StatusVisibility {
    Public,
    Unlisted,
    Private,
    Direct,
    Local,
}

/// The word a visibility is sent as.
pub open spec fn visibility_text(v: StatusVisibility) -> Seq<char> {
    match v {
        StatusVisibility::Public => "public"@,
        StatusVisibility::Unlisted => "unlisted"@,
        StatusVisibility::Private => "private"@,
        StatusVisibility::Direct => "direct"@,
        StatusVisibility::Local => "local"@,
    }
}

impl StatusVisibility {
    /// The word this visibility is sent as.
    pub fn as_str(&self) -> (r: &'static str)
        ensures
            r@ == visibility_text(*self),
    {
        match self {
            StatusVisibility::Public => "public",
            StatusVisibility::Unlisted => "unlisted",
            StatusVisibility::Private => "private",
            StatusVisibility::Direct => "direct",
            StatusVisibility::Local => "local",
        }
    }
}

/// What a search looks for.
#[derive(PartialEq, Eq, Structural, Clone, Copy, Debug)]
pub enum SearchType {
    Accounts,
    Hashtags,
    Statuses,
}

/// The word a search type is sent as.
pub open spec fn search_type_text(t: SearchType) -> Seq<char> {
    match t {
        SearchType::Accounts => "accounts"@,
        SearchType::Hashtags => "hashtags"@,
        SearchType::Statuses => "statuses"@,
    }
}

impl SearchType {
    /// The word this search type is sent as.
    pub fn as_str(&self) -> (r: &'static str)
        ensures
            r@ == search_type_text(*self),
    {
        match self {
            SearchType::Accounts => "accounts",
            SearchType::Hashtags => "hashtags",
            SearchType::Statuses => "statuses",
        }
    }
}

/// The order of the profile directory.
#[derive(PartialEq, Eq, Structural, Clone, Copy, Debug)]
pub enum Order {
    Active,
    New,
}

/// The word an order is sent as.
pub open spec fn order_text(o: Order) -> Seq<char> {
    match o {
        Order::Active => "active"@,
        Order::New => "new"@,
    }
}

impl Order {
    /// The word this order is sent as.
    pub fn as_str(&self) -> (r: &'static str)
        ensures
            r@ == order_text(*self),
    {
        match self {
            Order::Active => "active",
            Order::New => "new",
        }
    }
}

/// An instant in UTC: whole seconds since the Unix epoch and the
/// nanoseconds within that second. It lies between the first second of the
/// year -262143 and the last second of the year 262142; the nanoseconds
/// reach past one second only in a leap second, which follows a second
/// ending in :59.
#[derive(Clone, Copy, Debug)]
pub struct UtcDateTime {
    secs: i64,
    nanos: u32,
}

/// The first second that [`UtcDateTime`] holds: -262143-01-01T00:00:00Z.
pub const MIN_INSTANT_SECS: i64 = -8_334_601_228_800;

/// The last second that [`UtcDateTime`] holds: 262142-12-31T23:59:59Z.
pub const MAX_INSTANT_SECS: i64 = 8_210_266_876_799;

/// Whether an instant lies in the range [`UtcDateTime`] holds.
pub open spec fn instant_in_range(secs: i64, nanos: u32) -> bool {
    &&& MIN_INSTANT_SECS <= secs <= MAX_INSTANT_SECS
    &&& nanos < 2_000_000_000
    &&& (nanos < 1_000_000_000 || secs % 60 == 59)
}

impl UtcDateTime {
    #[verifier::type_invariant]
    closed spec fn in_range(self) -> bool {
        instant_in_range(self.secs, self.nanos)
    }

    /// The seconds since the epoch.
    pub closed spec fn spec_secs(self) -> i64 {
        self.secs
    }

    /// The nanoseconds within the second.
    pub closed spec fn spec_nanos(self) -> u32 {
        self.nanos
    }

    /// The instant `secs` seconds and `nanos` nanoseconds after the epoch,
    /// when it lies in range.
    pub fn from_timestamp(secs: i64, nanos: u32) -> (r: Option<UtcDateTime>)
        ensures
            r is Some <==> instant_in_range(secs, nanos),
            r matches Some(t) ==> t.spec_secs() == secs && t.spec_nanos() == nanos,
    {
        if secs < MIN_INSTANT_SECS || secs > MAX_INSTANT_SECS || nanos >= 2_000_000_000 {
            return None;
        }
        let since_min: u64 = (secs - MIN_INSTANT_SECS) as u64;
        assert(since_min % 60 == secs % 60) by (nonlinear_arith)
            requires
                since_min == secs - MIN_INSTANT_SECS,
                MIN_INSTANT_SECS == -8_334_601_228_800,
        ;
        if nanos >= 1_000_000_000 && since_min % 60 != 59 {
            None
        } else {
            Some(UtcDateTime { secs, nanos })
        }
    }

    /// The seconds since the epoch.
    pub fn secs(&self) -> (r: i64)
        ensures
            r == self.spec_secs(),
    {
        self.secs
    }

    /// The nanoseconds within the second.
    pub fn nanos(&self) -> (r: u32)
        ensures
            r == self.spec_nanos(),
    {
        self.nanos
    }

    /// The RFC 3339 text of this instant.
    pub fn to_rfc3339(&self) -> (r: String)
        ensures
            r@ == rfc3339_text(self.spec_secs(), self.spec_nanos()),
    {
        proof {
            use_type_invariant(self);
        }
        match rfc3339(self.secs, self.nanos) {
            Some(s) => s,
            None => String::new(),
        }
    }
}

/// The RFC 3339 text of an optional instant.
pub open spec fn instant_text(t: Option<UtcDateTime>) -> Option<Seq<char>> {
    match t {
        Some(x) => Some(rfc3339_text(x.spec_secs(), x.spec_nanos())),
        None => None,
    }
}

/// Options for registering an application.
#[derive(Clone, Debug)]
pub struct AppInputOptions {
    pub scopes: Option<Vec<String>>,
    pub redirect_uris: Option<String>,
    pub website: Option<String>,
}

/// A registered application.
#[derive(Clone, Debug)]
pub struct AppData {
    pub id: String,
    pub name: String,
    pub website: Option<String>,
    pub redirect_uri: String,
    pub client_id: String,
    pub client_secret: String,
    pub url: Option<String>,
}

/// Options for updating the account's credentials. `source` and
/// `fields_attributes` hold the JSON text of those objects.
#[derive(Clone, Debug)]
pub struct UpdateCredentialsInputOptions {
    pub discoverable: Option<bool>,
    pub bot: Option<bool>,
    pub display_name: Option<String>,
    pub note: Option<String>,
    pub avatar: Option<String>,
    pub header: Option<String>,
    pub locked: Option<bool>,
    pub source: Option<String>,
    pub fields_attributes: Option<String>,
}

/// Options for listing an account's statuses.
#[derive(Clone, Debug)]
pub struct GetAccountStatusesInputOptions {
    pub limit: Option<u32>,
    pub max_id: Option<String>,
    pub since_id: Option<String>,
    pub pinned: Option<bool>,
    pub exclude_replies: Option<bool>,
    pub exclude_reblogs: Option<bool>,
    pub only_media: Option<bool>,
}

/// Options for listing followers or followed accounts.
#[derive(Clone, Debug)]
pub struct AccountFollowersInputOptions {
    pub limit: Option<u32>,
    pub max_id: Option<String>,
    pub since_id: Option<String>,
}

/// Options for following an account.
#[derive(Clone, Debug)]
pub struct FollowAccountInputOptions {
    pub reblog: Option<bool>,
}

/// Options for searching accounts.
#[derive(Clone, Debug)]
pub struct SearchAccountInputOptions {
    pub following: Option<bool>,
    pub resolve: Option<bool>,
    pub limit: Option<u32>,
    pub max_id: Option<String>,
    pub since_id: Option<String>,
}

/// Options for listing bookmarks.
#[derive(Clone, Debug)]
pub struct GetBookmarksInputOptions {
    pub limit: Option<u32>,
    pub max_id: Option<String>,
    pub since_id: Option<String>,
    pub min_id: Option<String>,
}

/// Options for paging by limit, `max_id` and `min_id` (favourites, mutes,
/// blocks, domain blocks, accounts in a list).
#[derive(Clone, Debug)]
pub struct PageInputOptions {
    pub limit: Option<u32>,
    pub max_id: Option<String>,
    pub min_id: Option<String>,
}

/// Options for listing favourites.
pub type GetFavouritesInputOptions = PageInputOptions;
/// Options for listing muted accounts.
pub type GetMutesInputOptions = PageInputOptions;
/// Options for listing blocked accounts.
pub type GetBlocksInputOptions = PageInputOptions;
/// Options for listing blocked domains.
pub type GetDomainBlocksInputOptions = PageInputOptions;
/// Options for listing the accounts of a list.
pub type GetAccountsInListInputOptions = PageInputOptions;

/// Options of a filter.
#[derive(Clone, Debug)]
pub struct FilterInputOptions {
    pub irreversible: Option<bool>,
    pub whole_word: Option<bool>,
    pub expires_in: Option<u64>,
}

/// Options of a report.
#[derive(Clone, Debug)]
pub struct ReportInputOptions {
    pub status_ids: Option<Vec<String>>,
    pub forward: Option<bool>,
}

/// Options for listing endorsements.
pub type GetEndorsementsInputOptions = AccountFollowersInputOptions;
/// Options for the context of a status.
pub type GetStatusContextInputOptions = AccountFollowersInputOptions;

/// Options of a new status. `poll` holds the JSON text of the poll.
#[derive(Clone, Debug)]
pub struct PostStatusInputOptions {
    pub media_ids: Option<Vec<String>>,
    pub poll: Option<String>,
    pub in_reply_to_id: Option<String>,
    pub sensitive: Option<bool>,
    pub spoiler_text: Option<String>,
    pub visibility: Option<StatusVisibility>,
    pub scheduled_at: Option<UtcDateTime>,
    pub language: Option<String>,
}

/// Options for uploading media.
#[derive(Clone, Debug)]
pub struct UploadMediaInputOptions {
    pub description: Option<String>,
    pub focus: Option<String>,
}

/// Options for updating media.
#[derive(Clone, Debug)]
pub struct UpdateMediaInputOptions {
    pub file_path: Option<String>,
    pub description: Option<String>,
    pub focus: Option<String>,
}

/// Options for paging by limit, `max_id`, `since_id` and `min_id`.
pub type GetScheduledStatusesInputOptions = GetBookmarksInputOptions;
/// Options for a list's timeline.
pub type GetListTimelineInputOptions = GetBookmarksInputOptions;
/// Options for the conversation timeline.
pub type GetConversationTimelineInputOptions = GetBookmarksInputOptions;

/// Options for the public and local timelines.
#[derive(Clone, Debug)]
pub struct GetPublicTimelineInputOptions {
    pub only_media: Option<bool>,
    pub limit: Option<u32>,
    pub max_id: Option<String>,
    pub since_id: Option<String>,
    pub min_id: Option<String>,
}

/// Options for the local timeline.
pub type GetLocalTimelineInputOptions = GetPublicTimelineInputOptions;

/// Options for the tag and home timelines.
#[derive(Clone, Debug)]
pub struct GetTagTimelineInputOptions {
    pub local: Option<bool>,
    pub only_media: Option<bool>,
    pub limit: Option<u32>,
    pub max_id: Option<String>,
    pub since_id: Option<String>,
    pub min_id: Option<String>,
}

/// Options for the home timeline.
pub type GetHomeTimelineInputOptions = GetTagTimelineInputOptions;

/// Markers to save; each holds the JSON text of its marker.
#[derive(Clone, Debug)]
pub struct SaveMarkersInputOptions {
    pub home: Option<String>,
    pub notifications: Option<String>,
}

/// Options for listing notifications. `exclude_types` holds the names of
/// the notification types to leave out.
#[derive(Clone, Debug)]
pub struct GetNotificationsInputOptions {
    pub limit: Option<u32>,
    pub max_id: Option<String>,
    pub since_id: Option<String>,
    pub min_id: Option<String>,
    pub exclude_types: Option<Vec<String>>,
    pub account_id: Option<String>,
}

/// Options of a search.
#[derive(Clone, Debug)]
pub struct SearchInputOptions {
    pub account_id: Option<String>,
    pub max_id: Option<String>,
    pub min_id: Option<String>,
    pub resolve: Option<bool>,
    pub limit: Option<u32>,
    pub offset: Option<u32>,
    pub following: Option<bool>,
    pub exclude_unreviewed: Option<bool>,
}

/// Options for the profile directory.
#[derive(Clone, Debug)]
pub struct GetInstanceDirectoryInputOptions {
    pub limit: Option<u32>,
    pub offset: Option<u32>,
    pub order: Option<Order>,
    pub local: Option<bool>,
}

} // verus!
