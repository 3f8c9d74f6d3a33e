//! Calls about timelines, conversations, lists, markers, notifications and
//! push subscriptions.

use vstd::prelude::*;
use vstd::string::StringExecFns;
use crate::external::{json_string_list, json_strings, strings_view};
use crate::form::{Form, set_opt};
use crate::options::{GetAccountsInListInputOptions, GetConversationTimelineInputOptions, GetHomeTimelineInputOptions, GetListTimelineInputOptions, GetLocalTimelineInputOptions, GetNotificationsInputOptions, GetPublicTimelineInputOptions, GetTagTimelineInputOptions, SaveMarkersInputOptions};
use crate::pleroma::Pleroma;
use crate::pleroma::accounts::{bookmark_items, bookmark_query, page_items, page_query, post_on};
use crate::pleroma::statuses::json_list_of;
use crate::query::{Query, opt_item, with_query};
use crate::request::{self, Method, Request, form_view, get_view, no_fields};
use crate::text::{bool_of, bool_text, cat2, cat3, num32_of, text_of};

verus! {

/// The query items of the public or local timeline: `local=` first, then
/// the given options.
pub open spec fn public_timeline_items(local: bool, options: Option<&GetPublicTimelineInputOptions>) -> Seq<Seq<char>> {
    seq!["local="@ + bool_text(local)] + match options {
        Some(o) => opt_item("only_media="@, bool_of(o.only_media)) + opt_item("limit="@, num32_of(o.limit)) + opt_item(
            "max_id="@,
            text_of(o.max_id),
        ) + opt_item("since_id="@, text_of(o.since_id)) + opt_item("min_id="@, text_of(o.min_id)),
        None => Seq::empty(),
    }
}

/// The query items of the tag and home timelines.
pub open spec fn tag_timeline_items(options: Option<&GetTagTimelineInputOptions>) -> Seq<Seq<char>> {
    match options {
        Some(o) => opt_item("only_media="@, bool_of(o.only_media)) + opt_item("limit="@, num32_of(o.limit)) + opt_item(
            "max_id="@,
            text_of(o.max_id),
        ) + opt_item("since_id="@, text_of(o.since_id)) + opt_item("min_id="@, text_of(o.min_id)) + opt_item(
            "local="@,
            bool_of(o.local),
        ),
        None => Seq::empty(),
    }
}

/// The query items of the notifications: the excluded types as a JSON
/// array.
pub open spec fn notification_items(options: Option<&GetNotificationsInputOptions>) -> Seq<Seq<char>> {
    match options {
        Some(o) => opt_item("limit="@, num32_of(o.limit)) + opt_item("max_id="@, text_of(o.max_id)) + opt_item(
            "since_id="@,
            text_of(o.since_id),
        ) + opt_item("min_id="@, text_of(o.min_id)) + opt_item("exclude_types="@, json_list_of(o.exclude_types))
            + opt_item("account_id="@, text_of(o.account_id)),
        None => Seq::empty(),
    }
}

/// The fields of saved markers: each marker that is given.
pub open spec fn markers_fields(options: Option<&SaveMarkersInputOptions>) -> Map<Seq<char>, Seq<char>> {
    match options {
        Some(o) => set_opt(set_opt(no_fields(), "home"@, text_of(o.home)), "notifications"@, text_of(o.notifications)),
        None => no_fields(),
    }
}

/// The fields of a push subscription: the subscription, and the data when
/// given.
pub open spec fn subscription_fields(subscription: Seq<char>, data: Option<Seq<char>>) -> Map<Seq<char>, Seq<char>> {
    set_opt(no_fields().insert("subscription"@, subscription), "data"@, data)
}

/// The fields of a push subscription update: the data, when given.
pub open spec fn push_data_fields(data: Option<Seq<char>>) -> Map<Seq<char>, Seq<char>> {
    set_opt(no_fields(), "data"@, data)
}

/// Query items of the public or local timeline.
fn public_timeline_query(local: bool, options: Option<&GetPublicTimelineInputOptions>) -> (r: Query)
    ensures
        r@ == public_timeline_items(local, options),
{
    let mut q = Query::new();
    q.push_bool("local=", local);
    match options {
        Some(o) => {
            q.push_opt_bool("only_media=", o.only_media);
            q.push_opt_u32("limit=", o.limit);
            q.push_opt_text("max_id=", &o.max_id);
            q.push_opt_text("since_id=", &o.since_id);
            q.push_opt_text("min_id=", &o.min_id);
        },
        None => {},
    }
    assert(q@ =~= public_timeline_items(local, options));
    q
}

/// Query items of the tag and home timelines.
fn tag_timeline_query(options: Option<&GetTagTimelineInputOptions>) -> (r: Query)
    ensures
        r@ == tag_timeline_items(options),
{
    let mut q = Query::new();
    match options {
        Some(o) => {
            q.push_opt_bool("only_media=", o.only_media);
            q.push_opt_u32("limit=", o.limit);
            q.push_opt_text("max_id=", &o.max_id);
            q.push_opt_text("since_id=", &o.since_id);
            q.push_opt_text("min_id=", &o.min_id);
            q.push_opt_bool("local=", o.local);
        },
        None => {},
    }
    assert(q@ =~= tag_timeline_items(options));
    q
}

impl Pleroma {
    /// The request for the public timeline (`local=false`).
    pub fn get_public_timeline(&self, options: Option<&GetPublicTimelineInputOptions>) -> (r: Request)
        ensures
            r@ == get_view(with_query("/api/v1/timelines/public"@, public_timeline_items(false, options))),
    {
        request::get(public_timeline_query(false, options).render(String::from_str("/api/v1/timelines/public")))
    }

    /// The request for the local timeline (`local=true`).
    pub fn get_local_timeline(&self, options: Option<&GetLocalTimelineInputOptions>) -> (r: Request)
        ensures
            r@ == get_view(with_query("/api/v1/timelines/public"@, public_timeline_items(true, options))),
    {
        request::get(public_timeline_query(true, options).render(String::from_str("/api/v1/timelines/public")))
    }

    /// The request for a hashtag's timeline.
    pub fn get_tag_timeline(&self, hashtag: String, options: Option<&GetTagTimelineInputOptions>) -> (r: Request)
        ensures
            r@ == get_view(with_query("/api/v1/timelines/tag/"@ + hashtag@, tag_timeline_items(options))),
    {
        request::get(tag_timeline_query(options).render(cat2("/api/v1/timelines/tag/", hashtag.as_str())))
    }

    /// The request for the home timeline.
    pub fn get_home_timeline(&self, options: Option<&GetHomeTimelineInputOptions>) -> (r: Request)
        ensures
            r@ == get_view(with_query("/api/v1/timelines/home"@, tag_timeline_items(options))),
    {
        request::get(tag_timeline_query(options).render(String::from_str("/api/v1/timelines/home")))
    }

    /// The request for a list's timeline.
    pub fn get_list_timeline(&self, list_id: String, options: Option<&GetListTimelineInputOptions>) -> (r: Request)
        ensures
            r@ == get_view(with_query("/api/v1/timelines/list/"@ + list_id@, bookmark_items(options))),
    {
        request::get(bookmark_query(options).render(cat2("/api/v1/timelines/list/", list_id.as_str())))
    }

    /// The request for the conversations.
    pub fn get_conversation_timeline(&self, options: Option<&GetConversationTimelineInputOptions>) -> (r: Request)
        ensures
            r@ == get_view(with_query("/api/v1/conversations"@, bookmark_items(options))),
    {
        request::get(bookmark_query(options).render(String::from_str("/api/v1/conversations")))
    }

    /// The request that deletes a conversation.
    pub fn delete_conversation(&self, id: String) -> (r: Request)
        ensures
            r@ == form_view(Method::Delete, "/api/v1/conversations/"@ + id@, no_fields()),
    {
        request::with_empty_form(Method::Delete, cat2("/api/v1/conversations/", id.as_str()))
    }

    /// The request that marks a conversation as read.
    pub fn read_conversation(&self, id: String) -> (r: Request)
        ensures
            r@ == form_view(Method::Post, "/api/v1/conversations/"@ + id@ + "/read"@, no_fields()),
    {
        post_on("/api/v1/conversations/", id.as_str(), "/read")
    }

    /// The request for the lists.
    pub fn get_lists(&self) -> (r: Request)
        ensures
            r@ == get_view("/api/v1/lists"@),
    {
        request::get(String::from_str("/api/v1/lists"))
    }

    /// The request for a list.
    pub fn get_list(&self, id: String) -> (r: Request)
        ensures
            r@ == get_view("/api/v1/lists/"@ + id@),
    {
        request::get(cat2("/api/v1/lists/", id.as_str()))
    }

    /// The request that creates a list.
    pub fn create_list(&self, title: String) -> (r: Request)
        ensures
            r@ == form_view(Method::Post, "/api/v1/lists"@, no_fields().insert("title"@, title@)),
    {
        let mut form = Form::new();
        form.insert("title", title);
        request::with_form(Method::Post, String::from_str("/api/v1/lists"), form)
    }

    /// The request that renames a list.
    pub fn update_list(&self, id: String, title: String) -> (r: Request)
        ensures
            r@ == form_view(Method::Put, "/api/v1/lists/"@ + id@, no_fields().insert("title"@, title@)),
    {
        let mut form = Form::new();
        form.insert("title", title);
        request::with_form(Method::Put, cat2("/api/v1/lists/", id.as_str()), form)
    }

    /// The request that deletes a list.
    pub fn delete_list(&self, id: String) -> (r: Request)
        ensures
            r@ == form_view(Method::Delete, "/api/v1/lists/"@ + id@, no_fields()),
    {
        request::with_empty_form(Method::Delete, cat2("/api/v1/lists/", id.as_str()))
    }

    /// The request for the accounts of a list.
    pub fn get_accounts_in_list(&self, id: String, options: Option<&GetAccountsInListInputOptions>) -> (r: Request)
        ensures
            r@ == get_view(with_query("/api/v1/lists/"@ + id@ + "/accounts"@, page_items(options))),
    {
        request::get(page_query(options).render(cat3("/api/v1/lists/", id.as_str(), "/accounts")))
    }

    /// The request that adds accounts to a list, their ids as a JSON array.
    pub fn add_accounts_to_list(&self, id: String, account_ids: Vec<String>) -> (r: Request)
        ensures
            r@ == form_view(
                Method::Post,
                "/api/v1/lists/"@ + id@ + "/accounts"@,
                no_fields().insert("account_ids"@, json_string_list(strings_view(account_ids@))),
            ),
    {
        let mut form = Form::new();
        form.insert("account_ids", json_strings(&account_ids));
        request::with_form(Method::Post, cat3("/api/v1/lists/", id.as_str(), "/accounts"), form)
    }

    /// The request that removes accounts from a list.
    pub fn delete_accounts_from_list(&self, id: String, account_ids: Vec<String>) -> (r: Request)
        ensures
            r@ == form_view(
                Method::Delete,
                "/api/v1/lists/"@ + id@ + "/accounts"@,
                no_fields().insert("account_ids"@, json_string_list(strings_view(account_ids@))),
            ),
    {
        let mut form = Form::new();
        form.insert("account_ids", json_strings(&account_ids));
        request::with_form(Method::Delete, cat3("/api/v1/lists/", id.as_str(), "/accounts"), form)
    }

    /// The request for the markers of the given timelines, named as a JSON
    /// array in the query.
    pub fn get_markers(&self, timeline: Vec<String>) -> (r: Request)
        ensures
            r@ == get_view(with_query("/api/v1/markers"@, seq!["timeline="@ + json_string_list(strings_view(timeline@))])),
    {
        let mut q = Query::new();
        let json = json_strings(&timeline);
        q.push_text("timeline=", json.as_str());
        assert(q@ =~= seq!["timeline="@ + json_string_list(strings_view(timeline@))]);
        request::get(q.render(String::from_str("/api/v1/markers")))
    }

    /// The request that saves markers. It is sent to "/api/v1/markers".
    pub fn save_markers(&self, options: Option<&SaveMarkersInputOptions>) -> (r: Request)
        ensures
            r@ == form_view(
                Method::Post,
                "/api/v1/markers"@,
                markers_fields(options),
            ),
    {
        let mut form = Form::new();
        match options {
            Some(o) => {
                form.insert_opt_text("home", &o.home);
                form.insert_opt_text("notifications", &o.notifications);
            },
            None => {},
        }
        request::with_form(Method::Post, String::from_str("/api/v1/markers"), form)
    }

    /// The request for the notifications.
    pub fn get_notifications(&self, options: Option<&GetNotificationsInputOptions>) -> (r: Request)
        ensures
            r@ == get_view(with_query("/api/v1/notifications"@, notification_items(options))),
    {
        let mut q = Query::new();
        match options {
            Some(o) => {
                q.push_opt_u32("limit=", o.limit);
                q.push_opt_text("max_id=", &o.max_id);
                q.push_opt_text("since_id=", &o.since_id);
                q.push_opt_text("min_id=", &o.min_id);
                match &o.exclude_types {
                    Some(types) => {
                        let json = json_strings(types);
                        q.push_text("exclude_types=", json.as_str());
                    },
                    None => {},
                }
                q.push_opt_text("account_id=", &o.account_id);
            },
            None => {},
        }
        assert(q@ =~= notification_items(options));
        request::get(q.render(String::from_str("/api/v1/notifications")))
    }

    /// The request for a notification.
    pub fn get_notification(&self, id: String) -> (r: Request)
        ensures
            r@ == get_view("/api/v1/notifications/"@ + id@),
    {
        request::get(cat2("/api/v1/notifications/", id.as_str()))
    }

    /// The request that clears all notifications.
    pub fn dismiss_notifications(&self) -> (r: Request)
        ensures
            r@ == form_view(Method::Post, "/api/v1/notifications/clear"@, no_fields()),
    {
        request::with_empty_form(Method::Post, String::from_str("/api/v1/notifications/clear"))
    }

    /// The request that dismisses a notification.
    pub fn dismiss_notification(&self, id: String) -> (r: Request)
        ensures
            r@ == form_view(Method::Post, "/api/v1/notifications/"@ + id@ + "/dismiss"@, no_fields()),
    {
        post_on("/api/v1/notifications/", id.as_str(), "/dismiss")
    }

    /// The request that subscribes to push notifications; `subscription`
    /// and `data` are JSON texts.
    pub fn subscribe_push_notification(&self, subscription: String, data: Option<String>) -> (r: Request)
        ensures
            r@ == form_view(
                Method::Post,
                "/api/v1/push/subscription"@,
                subscription_fields(subscription@, text_of(data)),
            ),
    {
        let mut form = Form::new();
        form.insert("subscription", subscription);
        form.insert_opt_text("data", &data);
        request::with_form(Method::Post, String::from_str("/api/v1/push/subscription"), form)
    }

    /// The request for the push subscription.
    pub fn get_push_subscription(&self) -> (r: Request)
        ensures
            r@ == get_view("/api/v1/push/subscription"@),
    {
        request::get(String::from_str("/api/v1/push/subscription"))
    }

    /// The request that updates the push subscription; `data` is JSON text.
    pub fn update_push_subscription(&self, data: Option<String>) -> (r: Request)
        ensures
            r@ == form_view(Method::Put, "/api/v1/push/subscription"@, push_data_fields(text_of(data))),
    {
        let mut form = Form::new();
        form.insert_opt_text("data", &data);
        request::with_form(Method::Put, String::from_str("/api/v1/push/subscription"), form)
    }

    /// The request that deletes the push subscription.
    pub fn delete_push_subscription(&self) -> (r: Request)
        ensures
            r@ == form_view(Method::Delete, "/api/v1/push/subscription"@, no_fields()),
    {
        request::with_empty_form(Method::Delete, String::from_str("/api/v1/push/subscription"))
    }
}

} // verus!
