//! Calls about accounts: registration, credentials, relationships, searches
//! and the lists of accounts and statuses around an account.

use vstd::prelude::*;
use vstd::string::StringExecFns;
use crate::form::{Form, set_opt};
use crate::options::{AccountFollowersInputOptions, FollowAccountInputOptions, GetAccountStatusesInputOptions, GetBlocksInputOptions, GetBookmarksInputOptions, GetDomainBlocksInputOptions, GetEndorsementsInputOptions, GetFavouritesInputOptions, GetMutesInputOptions, PageInputOptions, SearchAccountInputOptions, UpdateCredentialsInputOptions};
use crate::pleroma::Pleroma;
use crate::query::{Query, join, opt_item, with_query};
use crate::request::{self, Method, Request, form_view, get_view, no_fields};
use crate::text::{bool_of, bool_text, cat2, cat3, num32_of, text_of};

verus! {

/// The fields of a credentials update.
pub open spec fn credentials_fields(options: Option<&UpdateCredentialsInputOptions>) -> Map<Seq<char>, Seq<char>> {
    match options {
        Some(o) => {
            let m = set_opt(no_fields(), "discoverable"@, bool_of(o.discoverable));
            let m = set_opt(m, "bot"@, bool_of(o.bot));
            let m = set_opt(m, "display_name"@, text_of(o.display_name));
            let m = set_opt(m, "note"@, text_of(o.note));
            let m = set_opt(m, "avatar"@, text_of(o.avatar));
            let m = set_opt(m, "header"@, text_of(o.header));
            let m = set_opt(m, "locked"@, bool_of(o.locked));
            let m = set_opt(m, "source"@, text_of(o.source));
            set_opt(m, "fields_attributes"@, text_of(o.fields_attributes))
        },
        None => no_fields(),
    }
}

/// The fields of an account registration.
pub open spec fn registration_fields(username: Seq<char>, email: Seq<char>, password: Seq<char>, agreement: Seq<char>, locale: Seq<char>, reason: Option<Seq<char>>) -> Map<Seq<char>, Seq<char>> {
    set_opt(
        no_fields().insert("username"@, username).insert("email"@, email).insert("password"@, password).insert(
            "agreement"@,
            agreement,
        ).insert("locale"@, locale),
        "reason"@,
        reason,
    )
}

/// The fields of a follow: `reblog` when given.
pub open spec fn follow_fields(options: Option<&FollowAccountInputOptions>) -> Map<Seq<char>, Seq<char>> {
    match options {
        Some(o) => set_opt(no_fields(), "reblog"@, bool_of(o.reblog)),
        None => no_fields(),
    }
}

/// The query items of an account's statuses.
pub open spec fn account_statuses_items(options: Option<&GetAccountStatusesInputOptions>) -> Seq<Seq<char>> {
    match options {
        Some(o) => opt_item("limit="@, num32_of(o.limit)) + opt_item("max_id="@, text_of(o.max_id)) + opt_item(
            "since_id="@,
            text_of(o.since_id),
        ) + opt_item("pinned="@, bool_of(o.pinned)) + opt_item("exclude_replies="@, bool_of(o.exclude_replies))
            + opt_item("exclude_reblogs="@, bool_of(o.exclude_reblogs)) + opt_item("only_media="@, bool_of(o.only_media)),
        None => Seq::empty(),
    }
}

/// The query items of limit, `max_id` and `since_id`.
pub open spec fn follower_items(options: Option<&AccountFollowersInputOptions>) -> Seq<Seq<char>> {
    match options {
        Some(o) => opt_item("limit="@, num32_of(o.limit)) + opt_item("max_id="@, text_of(o.max_id)) + opt_item(
            "since_id="@,
            text_of(o.since_id),
        ),
        None => Seq::empty(),
    }
}

/// The query items of an account search.
pub open spec fn search_account_items(q: Seq<char>, options: Option<&SearchAccountInputOptions>) -> Seq<Seq<char>> {
    seq!["q="@ + q] + match options {
        Some(o) => opt_item("following="@, bool_of(o.following)) + opt_item("resolve="@, bool_of(o.resolve)) + opt_item(
            "limit="@,
            num32_of(o.limit),
        ) + opt_item("max_id="@, text_of(o.max_id)) + opt_item("since_id="@, text_of(o.since_id)),
        None => Seq::empty(),
    }
}

/// The query items of a relationships lookup: `id[]=` each id.
pub open spec fn relationship_items(ids: Seq<String>) -> Seq<Seq<char>> {
    ids.map_values(|id: String| "id[]="@ + id@)
}

/// The items of limit, `max_id`, `since_id` and `min_id`.
pub open spec fn bookmark_items(options: Option<&GetBookmarksInputOptions>) -> Seq<Seq<char>> {
    match options {
        Some(o) => opt_item("limit="@, num32_of(o.limit)) + opt_item("max_id="@, text_of(o.max_id)) + opt_item(
            "since_id="@,
            text_of(o.since_id),
        ) + opt_item("min_id="@, text_of(o.min_id)),
        None => Seq::empty(),
    }
}

/// The items of limit, `max_id` and `min_id`.
pub open spec fn page_items(options: Option<&PageInputOptions>) -> Seq<Seq<char>> {
    match options {
        Some(o) => opt_item("limit="@, num32_of(o.limit)) + opt_item("max_id="@, text_of(o.max_id)) + opt_item(
            "min_id="@,
            text_of(o.min_id),
        ),
        None => Seq::empty(),
    }
}

/// The item of a limit.
pub open spec fn limit_items(limit: Option<u32>) -> Seq<Seq<char>> {
    opt_item("limit="@, num32_of(limit))
}

/// Query items of limit, `max_id` and `since_id`.
pub fn follower_query(options: Option<&AccountFollowersInputOptions>) -> (r: Query)
    ensures
        r@ == follower_items(options),
{
    let mut q = Query::new();
    match options {
        Some(o) => {
            q.push_opt_u32("limit=", o.limit);
            q.push_opt_text("max_id=", &o.max_id);
            q.push_opt_text("since_id=", &o.since_id);
        },
        None => {},
    }
    assert(q@ =~= follower_items(options));
    q
}

/// Query items of limit, `max_id`, `since_id` and `min_id`.
pub fn bookmark_query(options: Option<&GetBookmarksInputOptions>) -> (r: Query)
    ensures
        r@ == bookmark_items(options),
{
    let mut q = Query::new();
    match options {
        Some(o) => {
            q.push_opt_u32("limit=", o.limit);
            q.push_opt_text("max_id=", &o.max_id);
            q.push_opt_text("since_id=", &o.since_id);
            q.push_opt_text("min_id=", &o.min_id);
        },
        None => {},
    }
    assert(q@ =~= bookmark_items(options));
    q
}

/// Query items of limit, `max_id` and `min_id`.
pub fn page_query(options: Option<&PageInputOptions>) -> (r: Query)
    ensures
        r@ == page_items(options),
{
    let mut q = Query::new();
    match options {
        Some(o) => {
            q.push_opt_u32("limit=", o.limit);
            q.push_opt_text("max_id=", &o.max_id);
            q.push_opt_text("min_id=", &o.min_id);
        },
        None => {},
    }
    assert(q@ =~= page_items(options));
    q
}

/// The query item of a limit.
pub fn limit_query(limit: Option<u32>) -> (r: Query)
    ensures
        r@ == limit_items(limit),
{
    let mut q = Query::new();
    q.push_opt_u32("limit=", limit);
    assert(q@ =~= limit_items(limit));
    q
}

/// A POST of `prefix` + `id` + `suffix` with no fields.
pub fn post_on(prefix: &str, id: &str, suffix: &str) -> (r: Request)
    ensures
        r@ == form_view(Method::Post, prefix@ + id@ + suffix@, no_fields()),
{
    request::with_empty_form(Method::Post, cat3(prefix, id, suffix))
}

impl Pleroma {
    /// The request that checks the application's credentials.
    pub fn verify_app_credentials(&self) -> (r: Request)
        ensures
            r@ == get_view("/api/v1/apps/verify_credentials"@),
    {
        request::get(String::from_str("/api/v1/apps/verify_credentials"))
    }

    /// The request that registers an account; the reason is sent when given.
    pub fn register_account(
        &self,
        username: String,
        email: String,
        password: String,
        agreement: String,
        locale: String,
        reason: Option<String>,
    ) -> (r: Request)
        ensures
            r@ == form_view(
                Method::Post,
                "/api/v1/accounts"@,
                registration_fields(username@, email@, password@, agreement@, locale@, text_of(reason)),
            ),
    {
        let mut form = Form::new();
        form.insert("username", username);
        form.insert("email", email);
        form.insert("password", password);
        form.insert("agreement", agreement);
        form.insert("locale", locale);
        form.insert_opt_text("reason", &reason);
        request::with_form(Method::Post, String::from_str("/api/v1/accounts"), form)
    }

    /// The request that checks the account's credentials.
    pub fn verify_account_credentials(&self) -> (r: Request)
        ensures
            r@ == get_view("/api/v1/accounts/verify_credentials"@),
    {
        request::get(String::from_str("/api/v1/accounts/verify_credentials"))
    }

    /// The request that updates the account's credentials with the given
    /// fields.
    pub fn update_credentials(&self, options: Option<&UpdateCredentialsInputOptions>) -> (r: Request)
        ensures
            r@ == form_view(Method::Patch, "/api/v1/accounts/update_credentials"@, credentials_fields(options)),
    {
        let mut form = Form::new();
        match options {
            Some(o) => {
                form.insert_opt_bool("discoverable", o.discoverable);
                form.insert_opt_bool("bot", o.bot);
                form.insert_opt_text("display_name", &o.display_name);
                form.insert_opt_text("note", &o.note);
                form.insert_opt_text("avatar", &o.avatar);
                form.insert_opt_text("header", &o.header);
                form.insert_opt_bool("locked", o.locked);
                form.insert_opt_text("source", &o.source);
                form.insert_opt_text("fields_attributes", &o.fields_attributes);
            },
            None => {},
        }
        request::with_form(Method::Patch, String::from_str("/api/v1/accounts/update_credentials"), form)
    }

    /// The request for an account.
    pub fn get_account(&self, id: String) -> (r: Request)
        ensures
            r@ == get_view("/api/v1/accounts/"@ + id@),
    {
        request::get(cat2("/api/v1/accounts/", id.as_str()))
    }

    /// The request for an account's statuses.
    pub fn get_account_statuses(&self, id: String, options: Option<&GetAccountStatusesInputOptions>) -> (r: Request)
        ensures
            r@ == get_view(with_query("/api/v1/accounts/"@ + id@ + "/statuses"@, account_statuses_items(options))),
    {
        let mut q = Query::new();
        match options {
            Some(o) => {
                q.push_opt_u32("limit=", o.limit);
                q.push_opt_text("max_id=", &o.max_id);
                q.push_opt_text("since_id=", &o.since_id);
                q.push_opt_bool("pinned=", o.pinned);
                q.push_opt_bool("exclude_replies=", o.exclude_replies);
                q.push_opt_bool("exclude_reblogs=", o.exclude_reblogs);
                q.push_opt_bool("only_media=", o.only_media);
            },
            None => {},
        }
        assert(q@ =~= account_statuses_items(options));
        request::get(q.render(cat3("/api/v1/accounts/", id.as_str(), "/statuses")))
    }

    /// The request that subscribes to an account's statuses.
    pub fn subscribe_account(&self, id: String) -> (r: Request)
        ensures
            r@ == form_view(Method::Post, "/api/v1/pleroma/accounts/"@ + id@ + "/subscribe"@, no_fields()),
    {
        post_on("/api/v1/pleroma/accounts/", id.as_str(), "/subscribe")
    }

    /// The request that unsubscribes from an account's statuses.
    pub fn unsubscribe_account(&self, id: String) -> (r: Request)
        ensures
            r@ == form_view(Method::Post, "/api/v1/pleroma/accounts/"@ + id@ + "/unsubscribe"@, no_fields()),
    {
        post_on("/api/v1/pleroma/accounts/", id.as_str(), "/unsubscribe")
    }

    /// The request for an account's followers.
    pub fn get_account_followers(&self, id: String, options: Option<&AccountFollowersInputOptions>) -> (r: Request)
        ensures
            r@ == get_view(with_query("/api/v1/accounts/"@ + id@ + "/followers"@, follower_items(options))),
    {
        let q = follower_query(options);
        request::get(q.render(cat3("/api/v1/accounts/", id.as_str(), "/followers")))
    }

    /// The request for the accounts an account follows.
    pub fn get_account_following(&self, id: String, options: Option<&AccountFollowersInputOptions>) -> (r: Request)
        ensures
            r@ == get_view(with_query("/api/v1/accounts/"@ + id@ + "/following"@, follower_items(options))),
    {
        let q = follower_query(options);
        request::get(q.render(cat3("/api/v1/accounts/", id.as_str(), "/following")))
    }

    /// The request for the lists that hold an account.
    pub fn get_account_lists(&self, id: String) -> (r: Request)
        ensures
            r@ == get_view("/api/v1/accounts/"@ + id@ + "/lists"@),
    {
        request::get(cat3("/api/v1/accounts/", id.as_str(), "/lists"))
    }

    /// The request for an account's identity proofs.
    pub fn get_identity_proofs(&self, id: String) -> (r: Request)
        ensures
            r@ == get_view("/api/v1/accounts/"@ + id@ + "/identity_proofs"@),
    {
        request::get(cat3("/api/v1/accounts/", id.as_str(), "/identity_proofs"))
    }

    /// The request that follows an account, with `reblog` when given.
    pub fn follow_account(&self, id: String, options: Option<&FollowAccountInputOptions>) -> (r: Request)
        ensures
            r@ == form_view(Method::Post, "/api/v1/accounts/"@ + id@ + "/follow"@, follow_fields(options)),
    {
        let mut form = Form::new();
        match options {
            Some(o) => form.insert_opt_bool("reblog", o.reblog),
            None => {},
        }
        request::with_form(Method::Post, cat3("/api/v1/accounts/", id.as_str(), "/follow"), form)
    }

    /// The request that unfollows an account.
    pub fn unfollow_account(&self, id: String) -> (r: Request)
        ensures
            r@ == form_view(Method::Post, "/api/v1/accounts/"@ + id@ + "/unfollow"@, no_fields()),
    {
        post_on("/api/v1/accounts/", id.as_str(), "/unfollow")
    }

    /// The request that blocks an account.
    pub fn block_account(&self, id: String) -> (r: Request)
        ensures
            r@ == form_view(Method::Post, "/api/v1/accounts/"@ + id@ + "/block"@, no_fields()),
    {
        post_on("/api/v1/accounts/", id.as_str(), "/block")
    }

    /// The request that unblocks an account.
    pub fn unblock_account(&self, id: String) -> (r: Request)
        ensures
            r@ == form_view(Method::Post, "/api/v1/accounts/"@ + id@ + "/unblock"@, no_fields()),
    {
        post_on("/api/v1/accounts/", id.as_str(), "/unblock")
    }

    /// The request that mutes an account, its notifications too when
    /// `notifications` is set.
    pub fn mute_account(&self, id: String, notifications: bool) -> (r: Request)
        ensures
            r@ == form_view(
                Method::Post,
                "/api/v1/accounts/"@ + id@ + "/mute"@,
                no_fields().insert("notifications"@, bool_text(notifications)),
            ),
    {
        let mut form = Form::new();
        form.insert_opt_bool("notifications", Some(notifications));
        request::with_form(Method::Post, cat3("/api/v1/accounts/", id.as_str(), "/mute"), form)
    }

    /// The request that unmutes an account.
    pub fn unmute_account(&self, id: String) -> (r: Request)
        ensures
            r@ == form_view(Method::Post, "/api/v1/accounts/"@ + id@ + "/unmute"@, no_fields()),
    {
        post_on("/api/v1/accounts/", id.as_str(), "/unmute")
    }

    /// The request that endorses an account.
    pub fn pin_account(&self, id: String) -> (r: Request)
        ensures
            r@ == form_view(Method::Post, "/api/v1/accounts/"@ + id@ + "/pin"@, no_fields()),
    {
        post_on("/api/v1/accounts/", id.as_str(), "/pin")
    }

    /// The request that stops endorsing an account.
    pub fn unpin_account(&self, id: String) -> (r: Request)
        ensures
            r@ == form_view(Method::Post, "/api/v1/accounts/"@ + id@ + "/unpin"@, no_fields()),
    {
        post_on("/api/v1/accounts/", id.as_str(), "/unpin")
    }

    /// The request for the relationships with the given accounts. The '?'
    /// is always sent, even without ids.
    pub fn get_relationships(&self, ids: Vec<String>) -> (r: Request)
        ensures
            r@ == get_view("/api/v1/accounts/relationships?"@ + join(relationship_items(ids@), "&"@)),
    {
        let mut q = Query::new();
        let n = ids.len();
        let mut i: usize = 0;
        while i < n
            invariant
                n == ids.len(),
                i <= n,
                q@ == relationship_items(ids@.take(i as int)),
            decreases n - i,
        {
            q.push_text("id[]=", ids[i].as_str());
            assert(relationship_items(ids@.take(i + 1)) =~= relationship_items(ids@.take(i as int)).push("id[]="@ + ids@[i as int]@));
            i = i + 1;
        }
        assert(ids@.take(n as int) =~= ids@);
        let mut path = String::from_str("/api/v1/accounts/relationships?");
        let joined = q.joined("&");
        path.append(joined.as_str());
        request::get(path)
    }

    /// The request that searches accounts for `q`.
    pub fn search_account(&self, q: String, options: Option<&SearchAccountInputOptions>) -> (r: Request)
        ensures
            r@ == get_view(with_query("/api/v1/accounts/search"@, search_account_items(q@, options))),
    {
        let mut query = Query::new();
        query.push_text("q=", q.as_str());
        match options {
            Some(o) => {
                query.push_opt_bool("following=", o.following);
                query.push_opt_bool("resolve=", o.resolve);
                query.push_opt_u32("limit=", o.limit);
                query.push_opt_text("max_id=", &o.max_id);
                query.push_opt_text("since_id=", &o.since_id);
            },
            None => {},
        }
        assert(query@ =~= search_account_items(q@, options));
        request::get(query.render(String::from_str("/api/v1/accounts/search")))
    }

    /// The request for the bookmarked statuses.
    pub fn get_bookmarks(&self, options: Option<&GetBookmarksInputOptions>) -> (r: Request)
        ensures
            r@ == get_view(with_query("/api/v1/bookmarks"@, bookmark_items(options))),
    {
        request::get(bookmark_query(options).render(String::from_str("/api/v1/bookmarks")))
    }

    /// The request for the favourited statuses.
    pub fn get_favourites(&self, options: Option<&GetFavouritesInputOptions>) -> (r: Request)
        ensures
            r@ == get_view(with_query("/api/v1/favourites"@, page_items(options))),
    {
        request::get(page_query(options).render(String::from_str("/api/v1/favourites")))
    }

    /// The request for the muted accounts.
    pub fn get_mutes(&self, options: Option<&GetMutesInputOptions>) -> (r: Request)
        ensures
            r@ == get_view(with_query("/api/v1/mutes"@, page_items(options))),
    {
        request::get(page_query(options).render(String::from_str("/api/v1/mutes")))
    }

    /// The request for the blocked accounts.
    pub fn get_blocks(&self, options: Option<&GetBlocksInputOptions>) -> (r: Request)
        ensures
            r@ == get_view(with_query("/api/v1/blocks"@, page_items(options))),
    {
        request::get(page_query(options).render(String::from_str("/api/v1/blocks")))
    }

    /// The request for the blocked domains.
    pub fn get_domain_blocks(&self, options: Option<&GetDomainBlocksInputOptions>) -> (r: Request)
        ensures
            r@ == get_view(with_query("/api/v1/domain_blocks"@, page_items(options))),
    {
        request::get(page_query(options).render(String::from_str("/api/v1/domain_blocks")))
    }

    /// The request that blocks a domain.
    pub fn block_domain(&self, domain: String) -> (r: Request)
        ensures
            r@ == form_view(Method::Post, "/api/v1/domain_blocks"@, no_fields().insert("domain"@, domain@)),
    {
        let mut form = Form::new();
        form.insert("domain", domain);
        request::with_form(Method::Post, String::from_str("/api/v1/domain_blocks"), form)
    }

    /// The request that unblocks a domain.
    pub fn unblock_domain(&self, domain: String) -> (r: Request)
        ensures
            r@ == form_view(Method::Delete, "/api/v1/domain_blocks"@, no_fields().insert("domain"@, domain@)),
    {
        let mut form = Form::new();
        form.insert("domain", domain);
        request::with_form(Method::Delete, String::from_str("/api/v1/domain_blocks"), form)
    }

    /// The request for pending follow requests.
    pub fn get_follow_requests(&self, limit: Option<u32>) -> (r: Request)
        ensures
            r@ == get_view(with_query("/api/v1/follow_requests"@, limit_items(limit))),
    {
        request::get(limit_query(limit).render(String::from_str("/api/v1/follow_requests")))
    }

    /// The request that accepts a follow request.
    pub fn accept_follow_request(&self, id: String) -> (r: Request)
        ensures
            r@ == form_view(Method::Post, "/api/v1/follow_requests/"@ + id@ + "/authorize"@, no_fields()),
    {
        post_on("/api/v1/follow_requests/", id.as_str(), "/authorize")
    }

    /// The request that rejects a follow request.
    pub fn reject_follow_request(&self, id: String) -> (r: Request)
        ensures
            r@ == form_view(Method::Post, "/api/v1/follow_requests/"@ + id@ + "/reject"@, no_fields()),
    {
        post_on("/api/v1/follow_requests/", id.as_str(), "/reject")
    }

    /// The request for the endorsed accounts.
    pub fn get_endorsements(&self, options: Option<&GetEndorsementsInputOptions>) -> (r: Request)
        ensures
            r@ == get_view(with_query("/api/v1/endorsements"@, follower_items(options))),
    {
        request::get(follower_query(options).render(String::from_str("/api/v1/endorsements")))
    }

    /// The request for suggested accounts.
    pub fn get_suggestions(&self, limit: Option<u32>) -> (r: Request)
        ensures
            r@ == get_view(with_query("/api/v1/suggestions"@, limit_items(limit))),
    {
        request::get(limit_query(limit).render(String::from_str("/api/v1/suggestions")))
    }

    /// The request for the account's preferences.
    pub fn get_preferences(&self) -> (r: Request)
        ensures
            r@ == get_view("/api/v1/preferences"@),
    {
        request::get(String::from_str("/api/v1/preferences"))
    }
}

} // verus!
