//! What each request built from options carries, field by field: every
//! option that is given is sent under its own name with its own value, and
//! nothing is sent for an option that is not given.

use vstd::prelude::*;
use crate::form::carries;
use crate::options::{AppInputOptions, FilterContext, FilterInputOptions, FollowAccountInputOptions, ReportInputOptions, SaveMarkersInputOptions, AccountFollowersInputOptions, GetAccountStatusesInputOptions, GetBookmarksInputOptions, GetInstanceDirectoryInputOptions, GetPublicTimelineInputOptions, GetStatusContextInputOptions, GetTagTimelineInputOptions, PageInputOptions, SearchAccountInputOptions, GetNotificationsInputOptions, PostStatusInputOptions, SearchInputOptions, SearchType, UpdateCredentialsInputOptions, UpdateMediaInputOptions, UploadMediaInputOptions, instant_text, search_type_text};
use crate::pleroma::accounts::{account_statuses_items, bookmark_items, credentials_fields, follow_fields, follower_items, limit_items, page_items, registration_fields, relationship_items, search_account_items};
use crate::pleroma::instance::{directory_items, order_of, search_items, search_option_items};
use crate::pleroma::pleroma::{app_fields, app_scopes, code_token_request, no_redirect, refresh_token_request, revoke_token_request};
use crate::pleroma::statuses::{context_items, contexts_text, filter_fields, json_list_of, report_fields, schedule_fields, scheduled_of, status_fields, update_media_parts, upload_parts, visibility_of};
use crate::pleroma::timelines::{markers_fields, notification_items, public_timeline_items, push_data_fields, subscription_fields, tag_timeline_items};
use crate::query::{Fields, join, given, given_items, is_item_name, item_carries, lemma_given_items_append, lemma_given_items_carry, lemma_given_items_push, names_apart, opt_item};
use crate::request::{BodyView, Method, PartView};
use crate::external::json_string_list;
use crate::text::{bool_of, bool_text, num32_of, num_of, text_of};

verus! {

/// A credentials update sends each given option under the name of that
/// option ("note" carries `note`, "display_name" carries `display_name`,
/// and so on), and no other field.
pub proof fn law_update_credentials_fields(options: Option<&UpdateCredentialsInputOptions>)
    ensures
        forall|k: Seq<char>|
            #[trigger] credentials_fields(options).contains_key(k) ==> k == "discoverable"@ || k == "bot"@ || k == "display_name"@ || k
                == "note"@ || k == "avatar"@ || k == "header"@ || k == "locked"@ || k == "source"@ || k == "fields_attributes"@,
        options is None ==> credentials_fields(options).is_empty(),
        options matches Some(o) ==> {
            let m = credentials_fields(options);
            &&& carries(m, "discoverable"@, bool_of(o.discoverable))
            &&& carries(m, "bot"@, bool_of(o.bot))
            &&& carries(m, "display_name"@, text_of(o.display_name))
            &&& carries(m, "note"@, text_of(o.note))
            &&& carries(m, "avatar"@, text_of(o.avatar))
            &&& carries(m, "header"@, text_of(o.header))
            &&& carries(m, "locked"@, bool_of(o.locked))
            &&& carries(m, "source"@, text_of(o.source))
            &&& carries(m, "fields_attributes"@, text_of(o.fields_attributes))
        },
{
    reveal_strlit("discoverable");
    reveal_strlit("bot");
    reveal_strlit("display_name");
    reveal_strlit("note");
    reveal_strlit("avatar");
    reveal_strlit("header");
    reveal_strlit("locked");
    reveal_strlit("source");
    reveal_strlit("fields_attributes");
    assert("discoverable"@.len() == 12 && "bot"@.len() == 3 && "display_name"@.len() == 12 && "note"@.len() == 4);
    assert("avatar"@.len() == 6 && "header"@.len() == 6 && "locked"@.len() == 6 && "source"@.len() == 6);
    assert("fields_attributes"@.len() == 17);
    assert("discoverable"@[3] != "display_name"@[3]);
    assert("avatar"@[0] != "header"@[0] && "avatar"@[0] != "locked"@[0] && "avatar"@[0] != "source"@[0]);
    assert("header"@[0] != "locked"@[0] && "header"@[0] != "source"@[0] && "locked"@[0] != "source"@[0]);
    if options is None {
        assert(credentials_fields(options) =~= Map::empty());
    }
}

/// A new status sends its text under "status" and each given option under
/// its own name, the scheduled time as the text given for it; no other
/// field is sent.
pub proof fn law_status_fields(status: Seq<char>, options: Option<&PostStatusInputOptions>, scheduled_at: Option<Seq<char>>)
    ensures
        forall|k: Seq<char>|
            #[trigger] status_fields(status, options, scheduled_at).contains_key(k) ==> k == "status"@ || k == "media_ids"@ || k
                == "in_reply_to_id"@ || k == "sensitive"@ || k == "spoiler_text"@ || k == "visibility"@ || k == "scheduled_at"@ || k
                == "language"@ || k == "poll"@,
        carries(status_fields(status, options, scheduled_at), "status"@, Some(status)),
        options is None ==> forall|k: Seq<char>| #[trigger] status_fields(status, options, scheduled_at).contains_key(k) ==> k == "status"@,
        options matches Some(o) ==> {
            let m = status_fields(status, options, scheduled_at);
            &&& carries(m, "media_ids"@, json_list_of(o.media_ids))
            &&& carries(m, "in_reply_to_id"@, text_of(o.in_reply_to_id))
            &&& carries(m, "sensitive"@, bool_of(o.sensitive))
            &&& carries(m, "spoiler_text"@, text_of(o.spoiler_text))
            &&& carries(m, "visibility"@, visibility_of(o.visibility))
            &&& carries(m, "scheduled_at"@, scheduled_at)
            &&& carries(m, "language"@, text_of(o.language))
            &&& carries(m, "poll"@, text_of(o.poll))
        },
{
    reveal_strlit("status");
    reveal_strlit("media_ids");
    reveal_strlit("in_reply_to_id");
    reveal_strlit("sensitive");
    reveal_strlit("spoiler_text");
    reveal_strlit("visibility");
    reveal_strlit("scheduled_at");
    reveal_strlit("language");
    reveal_strlit("poll");
    assert("status"@.len() == 6 && "media_ids"@.len() == 9 && "in_reply_to_id"@.len() == 14 && "sensitive"@.len() == 9);
    assert("spoiler_text"@.len() == 12 && "visibility"@.len() == 10 && "scheduled_at"@.len() == 12 && "language"@.len() == 8);
    assert("poll"@.len() == 4);
    assert("media_ids"@[0] != "sensitive"@[0] && "spoiler_text"@[1] != "scheduled_at"@[1]);
}

/// A posted status sends its text under "status" and each given option
/// under its own name, the scheduled time in RFC 3339; no other field is
/// sent.
pub proof fn law_post_status_fields(status: Seq<char>, options: Option<&PostStatusInputOptions>)
    ensures
        ({
            let m = status_fields(status, options, instant_text(scheduled_of(options)));
            &&& carries(m, "status"@, Some(status))
            &&& options is None ==> forall|k: Seq<char>| #[trigger] m.contains_key(k) ==> k == "status"@
            &&& options matches Some(o) ==> {
                &&& carries(m, "media_ids"@, json_list_of(o.media_ids))
                &&& carries(m, "in_reply_to_id"@, text_of(o.in_reply_to_id))
                &&& carries(m, "sensitive"@, bool_of(o.sensitive))
                &&& carries(m, "spoiler_text"@, text_of(o.spoiler_text))
                &&& carries(m, "visibility"@, visibility_of(o.visibility))
                &&& carries(m, "scheduled_at"@, instant_text(o.scheduled_at))
                &&& carries(m, "language"@, text_of(o.language))
                &&& carries(m, "poll"@, text_of(o.poll))
            }
            &&& forall|k: Seq<char>|
                #[trigger] m.contains_key(k) ==> k == "status"@ || k == "media_ids"@ || k == "in_reply_to_id"@ || k == "sensitive"@ || k
                    == "spoiler_text"@ || k == "visibility"@ || k == "scheduled_at"@ || k == "language"@ || k == "poll"@
        }),
{
    law_status_fields(status, options, instant_text(scheduled_of(options)));
}

/// A media upload sends the file first, then one text part for each of
/// the description and the focus that is given, in that order, each under
/// its own name with its own value, and nothing else.
pub proof fn law_upload_parts(path: Seq<char>, file_name: Seq<char>, options: Option<&UploadMediaInputOptions>)
    ensures
        ({
            let parts = upload_parts(path, file_name, options);
            let (description, focus) = match options {
                Some(o) => (text_of(o.description), text_of(o.focus)),
                None => (None, None),
            };
            &&& parts.len() == 1 + given(description) + given(focus)
            &&& parts[0] == (PartView::File { name: "file"@, path, file_name })
            &&& description matches Some(d) ==> parts[1] == (PartView::Text { name: "description"@, value: d })
            &&& focus matches Some(f) ==> parts.last() == (PartView::Text { name: "focus"@, value: f })
            &&& forall|i: int|
                #![trigger parts[i]]
                1 <= i < parts.len() ==> {
                    ||| description matches Some(d) && parts[i] == (PartView::Text { name: "description"@, value: d })
                    ||| focus matches Some(f) && parts[i] == (PartView::Text { name: "focus"@, value: f })
                }
        }),
{
    let parts = upload_parts(path, file_name, options);
    let (description, focus) = match options {
        Some(o) => (text_of(o.description), text_of(o.focus)),
        None => (None, None),
    };
    if let Some(d) = description {
        assert(parts[1] == (PartView::Text { name: "description"@, value: d }));
    }
    if let Some(f) = focus {
        assert(parts[parts.len() - 1] == (PartView::Text { name: "focus"@, value: f }));
    }
}

/// A media update sends one text part for each of the description and the
/// focus that is given, in that order, each under its own name with its own
/// value, then the new file when a path is given, and nothing else.
pub proof fn law_update_media_parts(options: Option<&UpdateMediaInputOptions>, file_name: Seq<char>)
    ensures
        ({
            let parts = update_media_parts(options, file_name);
            let (description, focus, path) = match options {
                Some(o) => (text_of(o.description), text_of(o.focus), text_of(o.file_path)),
                None => (None, None, None),
            };
            &&& parts.len() == given(description) + given(focus) + given(path)
            &&& description matches Some(d) ==> parts[0] == (PartView::Text { name: "description"@, value: d })
            &&& focus matches Some(f) ==> parts[given(description) as int] == (PartView::Text { name: "focus"@, value: f })
            &&& path matches Some(p) ==> parts.last() == (PartView::File { name: "file"@, path: p, file_name })
            &&& forall|i: int|
                #![trigger parts[i]]
                0 <= i < parts.len() ==> {
                    ||| description matches Some(d) && parts[i] == (PartView::Text { name: "description"@, value: d })
                    ||| focus matches Some(f) && parts[i] == (PartView::Text { name: "focus"@, value: f })
                    ||| path matches Some(p) && parts[i] == (PartView::File { name: "file"@, path: p, file_name })
                }
        }),
{
    let parts = update_media_parts(options, file_name);
    let (description, focus, path) = match options {
        Some(o) => (text_of(o.description), text_of(o.focus), text_of(o.file_path)),
        None => (None, None, None),
    };
    if let Some(d) = description {
        assert(parts[0] == (PartView::Text { name: "description"@, value: d }));
    }
    if let Some(f) = focus {
        assert(parts[given(description) as int] == (PartView::Text { name: "focus"@, value: f }));
    }
}

/// The options of a search as named values, in the order they are sent.
pub open spec fn search_option_fields(options: Option<&SearchInputOptions>) -> Fields {
    match options {
        Some(o) => Fields::empty().push(("limit="@, num32_of(o.limit))).push(("max_id="@, text_of(o.max_id))).push(
            ("min_id="@, text_of(o.min_id)),
        ).push(("resolve="@, bool_of(o.resolve))).push(("offset="@, num32_of(o.offset))).push(("following="@, bool_of(o.following))).push(
            ("account_id="@, text_of(o.account_id)),
        ).push(("exclude_unreviewed="@, bool_of(o.exclude_unreviewed))),
        None => Fields::empty(),
    }
}

/// Everything a search sends as named values: the query, the type, then
/// the options.
pub open spec fn search_fields(q: Seq<char>, search_type: SearchType, options: Option<&SearchInputOptions>) -> Fields {
    Fields::empty().push(("q="@, Some(q))).push(("type="@, Some(search_type_text(search_type)))) + search_option_fields(options)
}

proof fn lemma_search_names_apart(q: Seq<char>, search_type: SearchType, options: Option<&SearchInputOptions>)
    ensures
        names_apart(search_fields(q, search_type, options)),
{
    reveal_strlit("q=");
    reveal_strlit("type=");
    reveal_strlit("limit=");
    reveal_strlit("max_id=");
    reveal_strlit("min_id=");
    reveal_strlit("resolve=");
    reveal_strlit("offset=");
    reveal_strlit("following=");
    reveal_strlit("account_id=");
    reveal_strlit("exclude_unreviewed=");
    assert(is_item_name("q="@) && is_item_name("type="@) && is_item_name("limit="@) && is_item_name("max_id="@));
    assert(is_item_name("min_id="@) && is_item_name("resolve="@) && is_item_name("offset="@));
    assert(is_item_name("following="@) && is_item_name("account_id="@) && is_item_name("exclude_unreviewed="@));
    assert("q="@.len() == 2 && "type="@.len() == 5 && "limit="@.len() == 6 && "max_id="@.len() == 7 && "min_id="@.len() == 7);
    assert("resolve="@.len() == 8 && "offset="@.len() == 7 && "following="@.len() == 10 && "account_id="@.len() == 11);
    assert("exclude_unreviewed="@.len() == 19);
    assert("max_id="@[1] != "min_id="@[1] && "max_id="@[0] != "offset="@[0] && "min_id="@[0] != "offset="@[0]);
}

proof fn lemma_search_items_given(q: Seq<char>, search_type: SearchType, options: Option<&SearchInputOptions>)
    ensures
        search_items(q, search_type, options) == given_items(search_fields(q, search_type, options)),
{
    broadcast use lemma_given_items_push;

    let two = Fields::empty().push(("q="@, Some(q))).push(("type="@, Some(search_type_text(search_type))));
    lemma_given_items_append(two, search_option_fields(options));
    assert(given_items(two) =~= seq!["q="@ + q, "type="@ + search_type_text(search_type)]) by {
        assert(given_items(Fields::empty()) =~= Seq::<Seq<char>>::empty());
    }
    match options {
        Some(o) => {
            assert(Seq::<Seq<char>>::empty() + opt_item("limit="@, num32_of(o.limit)) =~= opt_item("limit="@, num32_of(o.limit)));
            assert(given_items(Fields::empty()) =~= Seq::<Seq<char>>::empty());
        },
        None => {
            assert(given_items(Fields::empty()) =~= Seq::<Seq<char>>::empty());
        },
    }
    assert(search_option_items(options) == given_items(search_option_fields(options)));
}

/// A search sends the query under "q=", the type under "type=" and each
/// given option under its own name, and no other item.
/// The items come in the order of the named values listed above.
pub proof fn law_search_items(q: Seq<char>, search_type: SearchType, options: Option<&SearchInputOptions>)
    ensures
        ({
            let items = search_items(q, search_type, options);
            &&& items == given_items(search_fields(q, search_type, options))
            &&& item_carries(items, "q="@, Some(q))
            &&& item_carries(items, "type="@, Some(search_type_text(search_type)))
            &&& options is None ==> items.len() == 2
            &&& options matches Some(o) ==> {
                &&& item_carries(items, "limit="@, num32_of(o.limit))
                &&& item_carries(items, "max_id="@, text_of(o.max_id))
                &&& item_carries(items, "min_id="@, text_of(o.min_id))
                &&& item_carries(items, "resolve="@, bool_of(o.resolve))
                &&& item_carries(items, "offset="@, num32_of(o.offset))
                &&& item_carries(items, "following="@, bool_of(o.following))
                &&& item_carries(items, "account_id="@, text_of(o.account_id))
                &&& item_carries(items, "exclude_unreviewed="@, bool_of(o.exclude_unreviewed))
                &&& items.len() == 2 + given(num32_of(o.limit)) + given(text_of(o.max_id)) + given(text_of(o.min_id)) + given(
                    bool_of(o.resolve),
                ) + given(num32_of(o.offset)) + given(bool_of(o.following)) + given(text_of(o.account_id)) + given(
                    bool_of(o.exclude_unreviewed),
                )
            }
        }),
{
    broadcast use lemma_given_items_push;

    let fields = search_fields(q, search_type, options);
    let two = Fields::empty().push(("q="@, Some(q))).push(("type="@, Some(search_type_text(search_type))));
    lemma_search_names_apart(q, search_type, options);
    lemma_search_items_given(q, search_type, options);
    lemma_given_items_carry(fields);
    lemma_given_items_append(two, search_option_fields(options));
    let items = search_items(q, search_type, options);
    assert(item_carries(items, fields[0].0, fields[0].1));
    assert(item_carries(items, fields[1].0, fields[1].1));
    if options is Some {
        assert(item_carries(items, fields[2].0, fields[2].1));
        assert(item_carries(items, fields[3].0, fields[3].1));
        assert(item_carries(items, fields[4].0, fields[4].1));
        assert(item_carries(items, fields[5].0, fields[5].1));
        assert(item_carries(items, fields[6].0, fields[6].1));
        assert(item_carries(items, fields[7].0, fields[7].1));
        assert(item_carries(items, fields[8].0, fields[8].1));
        assert(item_carries(items, fields[9].0, fields[9].1));
    }
}

/// The options of an account's statuses as named values, in the order they are sent.
pub open spec fn account_statuses_option_fields(options: Option<&GetAccountStatusesInputOptions>) -> Fields {
    match options {
        Some(o) => Fields::empty().push(("limit="@, num32_of(o.limit))).push(("max_id="@, text_of(o.max_id))).push(("since_id="@, text_of(o.since_id))).push(("pinned="@, bool_of(o.pinned))).push(("exclude_replies="@, bool_of(o.exclude_replies))).push(("exclude_reblogs="@, bool_of(o.exclude_reblogs))).push(("only_media="@, bool_of(o.only_media))),
        None => Fields::empty(),
    }
}

proof fn lemma_account_statuses_names_apart(options: Option<&GetAccountStatusesInputOptions>)
    ensures
        names_apart(account_statuses_option_fields(options)),
{
    reveal_strlit("limit=");
    reveal_strlit("max_id=");
    reveal_strlit("since_id=");
    reveal_strlit("pinned=");
    reveal_strlit("exclude_replies=");
    reveal_strlit("exclude_reblogs=");
    reveal_strlit("only_media=");
    assert("limit="@.len() == 6 && "max_id="@.len() == 7 && "since_id="@.len() == 9 && "pinned="@.len() == 7);
    assert("exclude_replies="@.len() == 16 && "exclude_reblogs="@.len() == 16 && "only_media="@.len() == 11);
    assert("max_id="@[0] != "pinned="@[0]);
    assert("exclude_replies="@[10] != "exclude_reblogs="@[10]);
    assert(is_item_name("limit="@) && is_item_name("max_id="@) && is_item_name("since_id="@) && is_item_name("pinned="@));
    assert(is_item_name("exclude_replies="@) && is_item_name("exclude_reblogs="@) && is_item_name("only_media="@));
}

proof fn lemma_account_statuses_given(options: Option<&GetAccountStatusesInputOptions>)
    ensures
        account_statuses_items(options) == given_items(account_statuses_option_fields(options)),
{
    broadcast use lemma_given_items_push;

    assert(given_items(Fields::empty()) =~= Seq::<Seq<char>>::empty());
    if let Some(o) = options {
        assert(Seq::<Seq<char>>::empty() + opt_item("limit="@, num32_of(o.limit)) =~= opt_item("limit="@, num32_of(o.limit)));
    }
    assert(account_statuses_items(options) =~= given_items(account_statuses_option_fields(options)));
}

/// An account's statuses are asked for with each given option under its own
/// name, and no other item.
/// The items come in the order of the named values listed above.
pub proof fn law_account_statuses_items(options: Option<&GetAccountStatusesInputOptions>)
    ensures
        ({
            let items = account_statuses_items(options);
            &&& items == given_items(account_statuses_option_fields(options))
            &&& options is None ==> items.len() == 0
            &&& options matches Some(o) ==> {
                &&& item_carries(items, "limit="@, num32_of(o.limit))
                &&& item_carries(items, "max_id="@, text_of(o.max_id))
                &&& item_carries(items, "since_id="@, text_of(o.since_id))
                &&& item_carries(items, "pinned="@, bool_of(o.pinned))
                &&& item_carries(items, "exclude_replies="@, bool_of(o.exclude_replies))
                &&& item_carries(items, "exclude_reblogs="@, bool_of(o.exclude_reblogs))
                &&& item_carries(items, "only_media="@, bool_of(o.only_media))
                &&& items.len() == given(num32_of(o.limit)) + given(text_of(o.max_id)) + given(text_of(o.since_id)) + given(bool_of(o.pinned)) + given(bool_of(o.exclude_replies)) + given(bool_of(o.exclude_reblogs)) + given(bool_of(o.only_media))
            }
        }),
{
    let fields = account_statuses_option_fields(options);
    lemma_account_statuses_names_apart(options);
    lemma_account_statuses_given(options);
    lemma_given_items_carry(fields);
    let items = account_statuses_items(options);
    if options is Some {
        assert(item_carries(items, fields[0].0, fields[0].1));
        assert(item_carries(items, fields[1].0, fields[1].1));
        assert(item_carries(items, fields[2].0, fields[2].1));
        assert(item_carries(items, fields[3].0, fields[3].1));
        assert(item_carries(items, fields[4].0, fields[4].1));
        assert(item_carries(items, fields[5].0, fields[5].1));
        assert(item_carries(items, fields[6].0, fields[6].1));
    }
}

/// The paging options of followers as named values, in the order they are sent.
pub open spec fn follower_option_fields(options: Option<&AccountFollowersInputOptions>) -> Fields {
    match options {
        Some(o) => Fields::empty().push(("limit="@, num32_of(o.limit))).push(("max_id="@, text_of(o.max_id))).push(("since_id="@, text_of(o.since_id))),
        None => Fields::empty(),
    }
}

proof fn lemma_follower_names_apart(options: Option<&AccountFollowersInputOptions>)
    ensures
        names_apart(follower_option_fields(options)),
{
    reveal_strlit("limit=");
    reveal_strlit("max_id=");
    reveal_strlit("since_id=");
    assert("limit="@.len() == 6 && "max_id="@.len() == 7 && "since_id="@.len() == 9);
    assert(is_item_name("limit="@) && is_item_name("max_id="@) && is_item_name("since_id="@));
}

proof fn lemma_follower_given(options: Option<&AccountFollowersInputOptions>)
    ensures
        follower_items(options) == given_items(follower_option_fields(options)),
{
    broadcast use lemma_given_items_push;

    assert(given_items(Fields::empty()) =~= Seq::<Seq<char>>::empty());
    if let Some(o) = options {
        assert(Seq::<Seq<char>>::empty() + opt_item("limit="@, num32_of(o.limit)) =~= opt_item("limit="@, num32_of(o.limit)));
    }
    assert(follower_items(options) =~= given_items(follower_option_fields(options)));
}

/// Followers, followed accounts and endorsements are asked for with each
/// given option under its own name, and no other item.
/// The items come in the order of the named values listed above.
pub proof fn law_follower_items(options: Option<&AccountFollowersInputOptions>)
    ensures
        ({
            let items = follower_items(options);
            &&& items == given_items(follower_option_fields(options))
            &&& options is None ==> items.len() == 0
            &&& options matches Some(o) ==> {
                &&& item_carries(items, "limit="@, num32_of(o.limit))
                &&& item_carries(items, "max_id="@, text_of(o.max_id))
                &&& item_carries(items, "since_id="@, text_of(o.since_id))
                &&& items.len() == given(num32_of(o.limit)) + given(text_of(o.max_id)) + given(text_of(o.since_id))
            }
        }),
{
    let fields = follower_option_fields(options);
    lemma_follower_names_apart(options);
    lemma_follower_given(options);
    lemma_given_items_carry(fields);
    let items = follower_items(options);
    if options is Some {
        assert(item_carries(items, fields[0].0, fields[0].1));
        assert(item_carries(items, fields[1].0, fields[1].1));
        assert(item_carries(items, fields[2].0, fields[2].1));
    }
}

/// The options of an account search as named values, in the order they are sent.
pub open spec fn search_account_option_fields(options: Option<&SearchAccountInputOptions>) -> Fields {
    match options {
        Some(o) => Fields::empty().push(("following="@, bool_of(o.following))).push(("resolve="@, bool_of(o.resolve))).push(("limit="@, num32_of(o.limit))).push(("max_id="@, text_of(o.max_id))).push(("since_id="@, text_of(o.since_id))),
        None => Fields::empty(),
    }
}

proof fn lemma_search_account_names_apart(q: Seq<char>, options: Option<&SearchAccountInputOptions>)
    ensures
        names_apart(Fields::empty().push(("q="@, Some(q))) + search_account_option_fields(options)),
{
    reveal_strlit("q=");
    reveal_strlit("following=");
    reveal_strlit("resolve=");
    reveal_strlit("limit=");
    reveal_strlit("max_id=");
    reveal_strlit("since_id=");
    assert("q="@.len() == 2 && "following="@.len() == 10 && "resolve="@.len() == 8 && "limit="@.len() == 6);
    assert("max_id="@.len() == 7 && "since_id="@.len() == 9);
    assert(is_item_name("q="@) && is_item_name("following="@) && is_item_name("resolve="@) && is_item_name("limit="@));
    assert(is_item_name("max_id="@) && is_item_name("since_id="@));
}

proof fn lemma_search_account_given(q: Seq<char>, options: Option<&SearchAccountInputOptions>)
    ensures
        search_account_items(q, options) == given_items(Fields::empty().push(("q="@, Some(q))) + search_account_option_fields(options)),
{
    broadcast use lemma_given_items_push;

    assert(given_items(Fields::empty()) =~= Seq::<Seq<char>>::empty());
    if let Some(o) = options {
        assert(Seq::<Seq<char>>::empty() + opt_item("following="@, bool_of(o.following)) =~= opt_item("following="@, bool_of(o.following)));
    }
    lemma_given_items_append(Fields::empty().push(("q="@, Some(q))), search_account_option_fields(options));
    assert(given_items(Fields::empty().push(("q="@, Some(q)))) =~= seq!["q="@ + q]);
    assert(given_items(search_account_option_fields(options)) =~= match options {
        Some(o) => opt_item("following="@, bool_of(o.following)) + opt_item("resolve="@, bool_of(o.resolve)) + opt_item("limit="@, num32_of(o.limit)) + opt_item("max_id="@, text_of(o.max_id)) + opt_item("since_id="@, text_of(o.since_id)),
        None => Seq::empty(),
    });
    assert(search_account_items(q, options) =~= given_items(Fields::empty().push(("q="@, Some(q))) + search_account_option_fields(options)));
}

/// An account search sends the query under "q=" and each given option
/// under its own name, and no other item.
/// The items come in the order of the named values listed above.
pub proof fn law_search_account_items(q: Seq<char>, options: Option<&SearchAccountInputOptions>)
    ensures
        ({
            let items = search_account_items(q, options);
            &&& items == given_items(Fields::empty().push(("q="@, Some(q))) + search_account_option_fields(options))
            &&& item_carries(items, "q="@, Some(q))
            &&& options is None ==> items.len() == 1
            &&& options matches Some(o) ==> {
                &&& item_carries(items, "following="@, bool_of(o.following))
                &&& item_carries(items, "resolve="@, bool_of(o.resolve))
                &&& item_carries(items, "limit="@, num32_of(o.limit))
                &&& item_carries(items, "max_id="@, text_of(o.max_id))
                &&& item_carries(items, "since_id="@, text_of(o.since_id))
                &&& items.len() == 1 + given(bool_of(o.following)) + given(bool_of(o.resolve)) + given(num32_of(o.limit)) + given(text_of(o.max_id)) + given(text_of(o.since_id))
            }
        }),
{
    let fields = Fields::empty().push(("q="@, Some(q))) + search_account_option_fields(options);
    lemma_search_account_names_apart(q, options);
    lemma_search_account_given(q, options);
    lemma_given_items_carry(fields);
    lemma_given_items_append(Fields::empty().push(("q="@, Some(q))), search_account_option_fields(options));
    let items = search_account_items(q, options);
    assert(item_carries(items, fields[0].0, fields[0].1));
    if options is Some {
        assert(item_carries(items, fields[1].0, fields[1].1));
        assert(item_carries(items, fields[2].0, fields[2].1));
        assert(item_carries(items, fields[3].0, fields[3].1));
        assert(item_carries(items, fields[4].0, fields[4].1));
        assert(item_carries(items, fields[5].0, fields[5].1));
    }
}

/// The paging options of bookmarks as named values, in the order they are sent.
pub open spec fn bookmark_option_fields(options: Option<&GetBookmarksInputOptions>) -> Fields {
    match options {
        Some(o) => Fields::empty().push(("limit="@, num32_of(o.limit))).push(("max_id="@, text_of(o.max_id))).push(("since_id="@, text_of(o.since_id))).push(("min_id="@, text_of(o.min_id))),
        None => Fields::empty(),
    }
}

proof fn lemma_bookmark_names_apart(options: Option<&GetBookmarksInputOptions>)
    ensures
        names_apart(bookmark_option_fields(options)),
{
    reveal_strlit("limit=");
    reveal_strlit("max_id=");
    reveal_strlit("since_id=");
    reveal_strlit("min_id=");
    assert("limit="@.len() == 6 && "max_id="@.len() == 7 && "since_id="@.len() == 9 && "min_id="@.len() == 7);
    assert("max_id="@[1] != "min_id="@[1]);
    assert(is_item_name("limit="@) && is_item_name("max_id="@) && is_item_name("since_id="@) && is_item_name("min_id="@));
}

proof fn lemma_bookmark_given(options: Option<&GetBookmarksInputOptions>)
    ensures
        bookmark_items(options) == given_items(bookmark_option_fields(options)),
{
    broadcast use lemma_given_items_push;

    assert(given_items(Fields::empty()) =~= Seq::<Seq<char>>::empty());
    if let Some(o) = options {
        assert(Seq::<Seq<char>>::empty() + opt_item("limit="@, num32_of(o.limit)) =~= opt_item("limit="@, num32_of(o.limit)));
    }
    assert(bookmark_items(options) =~= given_items(bookmark_option_fields(options)));
}

/// Bookmarks, scheduled statuses, list and conversation timelines are asked
/// for with each given option under its own name, and no other item.
/// The items come in the order of the named values listed above.
pub proof fn law_bookmark_items(options: Option<&GetBookmarksInputOptions>)
    ensures
        ({
            let items = bookmark_items(options);
            &&& items == given_items(bookmark_option_fields(options))
            &&& options is None ==> items.len() == 0
            &&& options matches Some(o) ==> {
                &&& item_carries(items, "limit="@, num32_of(o.limit))
                &&& item_carries(items, "max_id="@, text_of(o.max_id))
                &&& item_carries(items, "since_id="@, text_of(o.since_id))
                &&& item_carries(items, "min_id="@, text_of(o.min_id))
                &&& items.len() == given(num32_of(o.limit)) + given(text_of(o.max_id)) + given(text_of(o.since_id)) + given(text_of(o.min_id))
            }
        }),
{
    let fields = bookmark_option_fields(options);
    lemma_bookmark_names_apart(options);
    lemma_bookmark_given(options);
    lemma_given_items_carry(fields);
    let items = bookmark_items(options);
    if options is Some {
        assert(item_carries(items, fields[0].0, fields[0].1));
        assert(item_carries(items, fields[1].0, fields[1].1));
        assert(item_carries(items, fields[2].0, fields[2].1));
        assert(item_carries(items, fields[3].0, fields[3].1));
    }
}

/// The paging options of a page as named values, in the order they are sent.
pub open spec fn page_option_fields(options: Option<&PageInputOptions>) -> Fields {
    match options {
        Some(o) => Fields::empty().push(("limit="@, num32_of(o.limit))).push(("max_id="@, text_of(o.max_id))).push(("min_id="@, text_of(o.min_id))),
        None => Fields::empty(),
    }
}

proof fn lemma_page_names_apart(options: Option<&PageInputOptions>)
    ensures
        names_apart(page_option_fields(options)),
{
    reveal_strlit("limit=");
    reveal_strlit("max_id=");
    reveal_strlit("min_id=");
    assert("limit="@.len() == 6 && "max_id="@.len() == 7 && "min_id="@.len() == 7);
    assert("max_id="@[1] != "min_id="@[1]);
    assert(is_item_name("limit="@) && is_item_name("max_id="@) && is_item_name("min_id="@));
}

proof fn lemma_page_given(options: Option<&PageInputOptions>)
    ensures
        page_items(options) == given_items(page_option_fields(options)),
{
    broadcast use lemma_given_items_push;

    assert(given_items(Fields::empty()) =~= Seq::<Seq<char>>::empty());
    if let Some(o) = options {
        assert(Seq::<Seq<char>>::empty() + opt_item("limit="@, num32_of(o.limit)) =~= opt_item("limit="@, num32_of(o.limit)));
    }
    assert(page_items(options) =~= given_items(page_option_fields(options)));
}

/// Favourites, mutes, blocks, domain blocks and list members are asked for
/// with each given option under its own name, and no other item.
/// The items come in the order of the named values listed above.
pub proof fn law_page_items(options: Option<&PageInputOptions>)
    ensures
        ({
            let items = page_items(options);
            &&& items == given_items(page_option_fields(options))
            &&& options is None ==> items.len() == 0
            &&& options matches Some(o) ==> {
                &&& item_carries(items, "limit="@, num32_of(o.limit))
                &&& item_carries(items, "max_id="@, text_of(o.max_id))
                &&& item_carries(items, "min_id="@, text_of(o.min_id))
                &&& items.len() == given(num32_of(o.limit)) + given(text_of(o.max_id)) + given(text_of(o.min_id))
            }
        }),
{
    let fields = page_option_fields(options);
    lemma_page_names_apart(options);
    lemma_page_given(options);
    lemma_given_items_carry(fields);
    let items = page_items(options);
    if options is Some {
        assert(item_carries(items, fields[0].0, fields[0].1));
        assert(item_carries(items, fields[1].0, fields[1].1));
        assert(item_carries(items, fields[2].0, fields[2].1));
    }
}

/// The options of the profile directory as named values, in the order they are sent.
pub open spec fn directory_option_fields(options: Option<&GetInstanceDirectoryInputOptions>) -> Fields {
    match options {
        Some(o) => Fields::empty().push(("limit="@, num32_of(o.limit))).push(("offset="@, num32_of(o.offset))).push(("order="@, order_of(o.order))).push(("local="@, bool_of(o.local))),
        None => Fields::empty(),
    }
}

proof fn lemma_directory_names_apart(options: Option<&GetInstanceDirectoryInputOptions>)
    ensures
        names_apart(directory_option_fields(options)),
{
    reveal_strlit("limit=");
    reveal_strlit("offset=");
    reveal_strlit("order=");
    reveal_strlit("local=");
    assert("limit="@.len() == 6 && "offset="@.len() == 7 && "order="@.len() == 6 && "local="@.len() == 6);
    assert("limit="@[0] != "order="@[0]);
    assert("limit="@[1] != "local="@[1]);
    assert("order="@[0] != "local="@[0]);
    assert(is_item_name("limit="@) && is_item_name("offset="@) && is_item_name("order="@) && is_item_name("local="@));
}

proof fn lemma_directory_given(options: Option<&GetInstanceDirectoryInputOptions>)
    ensures
        directory_items(options) == given_items(directory_option_fields(options)),
{
    broadcast use lemma_given_items_push;

    assert(given_items(Fields::empty()) =~= Seq::<Seq<char>>::empty());
    if let Some(o) = options {
        assert(Seq::<Seq<char>>::empty() + opt_item("limit="@, num32_of(o.limit)) =~= opt_item("limit="@, num32_of(o.limit)));
    }
    assert(directory_items(options) =~= given_items(directory_option_fields(options)));
}

/// The profile directory is asked for with each given option under its own
/// name, and no other item.
/// The items come in the order of the named values listed above.
pub proof fn law_directory_items(options: Option<&GetInstanceDirectoryInputOptions>)
    ensures
        ({
            let items = directory_items(options);
            &&& items == given_items(directory_option_fields(options))
            &&& options is None ==> items.len() == 0
            &&& options matches Some(o) ==> {
                &&& item_carries(items, "limit="@, num32_of(o.limit))
                &&& item_carries(items, "offset="@, num32_of(o.offset))
                &&& item_carries(items, "order="@, order_of(o.order))
                &&& item_carries(items, "local="@, bool_of(o.local))
                &&& items.len() == given(num32_of(o.limit)) + given(num32_of(o.offset)) + given(order_of(o.order)) + given(bool_of(o.local))
            }
        }),
{
    let fields = directory_option_fields(options);
    lemma_directory_names_apart(options);
    lemma_directory_given(options);
    lemma_given_items_carry(fields);
    let items = directory_items(options);
    if options is Some {
        assert(item_carries(items, fields[0].0, fields[0].1));
        assert(item_carries(items, fields[1].0, fields[1].1));
        assert(item_carries(items, fields[2].0, fields[2].1));
        assert(item_carries(items, fields[3].0, fields[3].1));
    }
}

/// The options of a status context as named values, in the order they are sent.
pub open spec fn context_option_fields(options: Option<&GetStatusContextInputOptions>) -> Fields {
    match options {
        Some(o) => Fields::empty().push(("limit="@, num32_of(o.limit))).push(("max_id="@, text_of(o.max_id))).push(("since_id="@, text_of(o.since_id))),
        None => Fields::empty(),
    }
}

proof fn lemma_context_names_apart(options: Option<&GetStatusContextInputOptions>)
    ensures
        names_apart(context_option_fields(options)),
{
    reveal_strlit("limit=");
    reveal_strlit("max_id=");
    reveal_strlit("since_id=");
    assert("limit="@.len() == 6 && "max_id="@.len() == 7 && "since_id="@.len() == 9);
    assert(is_item_name("limit="@) && is_item_name("max_id="@) && is_item_name("since_id="@));
}

proof fn lemma_context_given(options: Option<&GetStatusContextInputOptions>)
    ensures
        context_items(options) == given_items(context_option_fields(options)),
{
    broadcast use lemma_given_items_push;

    assert(given_items(Fields::empty()) =~= Seq::<Seq<char>>::empty());
    if let Some(o) = options {
        assert(Seq::<Seq<char>>::empty() + opt_item("limit="@, num32_of(o.limit)) =~= opt_item("limit="@, num32_of(o.limit)));
    }
    assert(context_items(options) =~= given_items(context_option_fields(options)));
}

/// A status context is asked for with each given option under its own
/// name: `since_id` under "since_id=", `max_id` under "max_id="; no other
/// item.
/// The items come in the order of the named values listed above.
pub proof fn law_context_items(options: Option<&GetStatusContextInputOptions>)
    ensures
        ({
            let items = context_items(options);
            &&& items == given_items(context_option_fields(options))
            &&& options is None ==> items.len() == 0
            &&& options matches Some(o) ==> {
                &&& item_carries(items, "limit="@, num32_of(o.limit))
                &&& item_carries(items, "max_id="@, text_of(o.max_id))
                &&& item_carries(items, "since_id="@, text_of(o.since_id))
                &&& items.len() == given(num32_of(o.limit)) + given(text_of(o.max_id)) + given(text_of(o.since_id))
            }
        }),
{
    let fields = context_option_fields(options);
    lemma_context_names_apart(options);
    lemma_context_given(options);
    lemma_given_items_carry(fields);
    let items = context_items(options);
    if options is Some {
        assert(item_carries(items, fields[0].0, fields[0].1));
        assert(item_carries(items, fields[1].0, fields[1].1));
        assert(item_carries(items, fields[2].0, fields[2].1));
    }
}

/// The options of the public timeline as named values, in the order they are sent.
pub open spec fn public_timeline_option_fields(options: Option<&GetPublicTimelineInputOptions>) -> Fields {
    match options {
        Some(o) => Fields::empty().push(("only_media="@, bool_of(o.only_media))).push(("limit="@, num32_of(o.limit))).push(("max_id="@, text_of(o.max_id))).push(("since_id="@, text_of(o.since_id))).push(("min_id="@, text_of(o.min_id))),
        None => Fields::empty(),
    }
}

proof fn lemma_public_timeline_names_apart(local: bool, options: Option<&GetPublicTimelineInputOptions>)
    ensures
        names_apart(Fields::empty().push(("local="@, Some(bool_text(local)))) + public_timeline_option_fields(options)),
{
    reveal_strlit("local=");
    reveal_strlit("only_media=");
    reveal_strlit("limit=");
    reveal_strlit("max_id=");
    reveal_strlit("since_id=");
    reveal_strlit("min_id=");
    assert("local="@.len() == 6 && "only_media="@.len() == 11 && "limit="@.len() == 6 && "max_id="@.len() == 7);
    assert("since_id="@.len() == 9 && "min_id="@.len() == 7);
    assert("local="@[1] != "limit="@[1]);
    assert("max_id="@[1] != "min_id="@[1]);
    assert(is_item_name("local="@) && is_item_name("only_media="@) && is_item_name("limit="@) && is_item_name("max_id="@));
    assert(is_item_name("since_id="@) && is_item_name("min_id="@));
}

proof fn lemma_public_timeline_given(local: bool, options: Option<&GetPublicTimelineInputOptions>)
    ensures
        public_timeline_items(local, options) == given_items(Fields::empty().push(("local="@, Some(bool_text(local)))) + public_timeline_option_fields(options)),
{
    broadcast use lemma_given_items_push;

    assert(given_items(Fields::empty()) =~= Seq::<Seq<char>>::empty());
    if let Some(o) = options {
        assert(Seq::<Seq<char>>::empty() + opt_item("only_media="@, bool_of(o.only_media)) =~= opt_item("only_media="@, bool_of(o.only_media)));
    }
    lemma_given_items_append(Fields::empty().push(("local="@, Some(bool_text(local)))), public_timeline_option_fields(options));
    assert(given_items(Fields::empty().push(("local="@, Some(bool_text(local))))) =~= seq!["local="@ + bool_text(local)]);
    assert(given_items(public_timeline_option_fields(options)) =~= match options {
        Some(o) => opt_item("only_media="@, bool_of(o.only_media)) + opt_item("limit="@, num32_of(o.limit)) + opt_item("max_id="@, text_of(o.max_id)) + opt_item("since_id="@, text_of(o.since_id)) + opt_item("min_id="@, text_of(o.min_id)),
        None => Seq::empty(),
    });
    assert(public_timeline_items(local, options) =~= given_items(Fields::empty().push(("local="@, Some(bool_text(local)))) + public_timeline_option_fields(options)));
}

/// The public and local timelines send whether they are local under
/// "local=" and each given option under its own name, and no other item.
/// The items come in the order of the named values listed above.
pub proof fn law_public_timeline_items(local: bool, options: Option<&GetPublicTimelineInputOptions>)
    ensures
        ({
            let items = public_timeline_items(local, options);
            &&& items == given_items(Fields::empty().push(("local="@, Some(bool_text(local)))) + public_timeline_option_fields(options))
            &&& item_carries(items, "local="@, Some(bool_text(local)))
            &&& options is None ==> items.len() == 1
            &&& options matches Some(o) ==> {
                &&& item_carries(items, "only_media="@, bool_of(o.only_media))
                &&& item_carries(items, "limit="@, num32_of(o.limit))
                &&& item_carries(items, "max_id="@, text_of(o.max_id))
                &&& item_carries(items, "since_id="@, text_of(o.since_id))
                &&& item_carries(items, "min_id="@, text_of(o.min_id))
                &&& items.len() == 1 + given(bool_of(o.only_media)) + given(num32_of(o.limit)) + given(text_of(o.max_id)) + given(text_of(o.since_id)) + given(text_of(o.min_id))
            }
        }),
{
    let fields = Fields::empty().push(("local="@, Some(bool_text(local)))) + public_timeline_option_fields(options);
    lemma_public_timeline_names_apart(local, options);
    lemma_public_timeline_given(local, options);
    lemma_given_items_carry(fields);
    lemma_given_items_append(Fields::empty().push(("local="@, Some(bool_text(local)))), public_timeline_option_fields(options));
    let items = public_timeline_items(local, options);
    assert(item_carries(items, fields[0].0, fields[0].1));
    if options is Some {
        assert(item_carries(items, fields[1].0, fields[1].1));
        assert(item_carries(items, fields[2].0, fields[2].1));
        assert(item_carries(items, fields[3].0, fields[3].1));
        assert(item_carries(items, fields[4].0, fields[4].1));
        assert(item_carries(items, fields[5].0, fields[5].1));
    }
}

/// The options of the tag timeline as named values, in the order they are sent.
pub open spec fn tag_timeline_option_fields(options: Option<&GetTagTimelineInputOptions>) -> Fields {
    match options {
        Some(o) => Fields::empty().push(("only_media="@, bool_of(o.only_media))).push(("limit="@, num32_of(o.limit))).push(("max_id="@, text_of(o.max_id))).push(("since_id="@, text_of(o.since_id))).push(("min_id="@, text_of(o.min_id))).push(("local="@, bool_of(o.local))),
        None => Fields::empty(),
    }
}

proof fn lemma_tag_timeline_names_apart(options: Option<&GetTagTimelineInputOptions>)
    ensures
        names_apart(tag_timeline_option_fields(options)),
{
    reveal_strlit("only_media=");
    reveal_strlit("limit=");
    reveal_strlit("max_id=");
    reveal_strlit("since_id=");
    reveal_strlit("min_id=");
    reveal_strlit("local=");
    assert("only_media="@.len() == 11 && "limit="@.len() == 6 && "max_id="@.len() == 7 && "since_id="@.len() == 9);
    assert("min_id="@.len() == 7 && "local="@.len() == 6);
    assert("limit="@[1] != "local="@[1]);
    assert("max_id="@[1] != "min_id="@[1]);
    assert(is_item_name("only_media="@) && is_item_name("limit="@) && is_item_name("max_id="@) && is_item_name("since_id="@));
    assert(is_item_name("min_id="@) && is_item_name("local="@));
}

proof fn lemma_tag_timeline_given(options: Option<&GetTagTimelineInputOptions>)
    ensures
        tag_timeline_items(options) == given_items(tag_timeline_option_fields(options)),
{
    broadcast use lemma_given_items_push;

    assert(given_items(Fields::empty()) =~= Seq::<Seq<char>>::empty());
    if let Some(o) = options {
        assert(Seq::<Seq<char>>::empty() + opt_item("only_media="@, bool_of(o.only_media)) =~= opt_item("only_media="@, bool_of(o.only_media)));
    }
    assert(tag_timeline_items(options) =~= given_items(tag_timeline_option_fields(options)));
}

/// The tag and home timelines are asked for with each given option under
/// its own name, and no other item.
/// The items come in the order of the named values listed above.
pub proof fn law_tag_timeline_items(options: Option<&GetTagTimelineInputOptions>)
    ensures
        ({
            let items = tag_timeline_items(options);
            &&& items == given_items(tag_timeline_option_fields(options))
            &&& options is None ==> items.len() == 0
            &&& options matches Some(o) ==> {
                &&& item_carries(items, "only_media="@, bool_of(o.only_media))
                &&& item_carries(items, "limit="@, num32_of(o.limit))
                &&& item_carries(items, "max_id="@, text_of(o.max_id))
                &&& item_carries(items, "since_id="@, text_of(o.since_id))
                &&& item_carries(items, "min_id="@, text_of(o.min_id))
                &&& item_carries(items, "local="@, bool_of(o.local))
                &&& items.len() == given(bool_of(o.only_media)) + given(num32_of(o.limit)) + given(text_of(o.max_id)) + given(text_of(o.since_id)) + given(text_of(o.min_id)) + given(bool_of(o.local))
            }
        }),
{
    let fields = tag_timeline_option_fields(options);
    lemma_tag_timeline_names_apart(options);
    lemma_tag_timeline_given(options);
    lemma_given_items_carry(fields);
    let items = tag_timeline_items(options);
    if options is Some {
        assert(item_carries(items, fields[0].0, fields[0].1));
        assert(item_carries(items, fields[1].0, fields[1].1));
        assert(item_carries(items, fields[2].0, fields[2].1));
        assert(item_carries(items, fields[3].0, fields[3].1));
        assert(item_carries(items, fields[4].0, fields[4].1));
        assert(item_carries(items, fields[5].0, fields[5].1));
    }
}

/// The options of the notifications as named values, in the order they are sent.
pub open spec fn notification_option_fields(options: Option<&GetNotificationsInputOptions>) -> Fields {
    match options {
        Some(o) => Fields::empty().push(("limit="@, num32_of(o.limit))).push(("max_id="@, text_of(o.max_id))).push(("since_id="@, text_of(o.since_id))).push(("min_id="@, text_of(o.min_id))).push(("exclude_types="@, json_list_of(o.exclude_types))).push(("account_id="@, text_of(o.account_id))),
        None => Fields::empty(),
    }
}

proof fn lemma_notification_names_apart(options: Option<&GetNotificationsInputOptions>)
    ensures
        names_apart(notification_option_fields(options)),
{
    reveal_strlit("limit=");
    reveal_strlit("max_id=");
    reveal_strlit("since_id=");
    reveal_strlit("min_id=");
    reveal_strlit("exclude_types=");
    reveal_strlit("account_id=");
    assert("limit="@.len() == 6 && "max_id="@.len() == 7 && "since_id="@.len() == 9 && "min_id="@.len() == 7);
    assert("exclude_types="@.len() == 14 && "account_id="@.len() == 11);
    assert("max_id="@[1] != "min_id="@[1]);
    assert(is_item_name("limit="@) && is_item_name("max_id="@) && is_item_name("since_id="@) && is_item_name("min_id="@));
    assert(is_item_name("exclude_types="@) && is_item_name("account_id="@));
}

proof fn lemma_notification_given(options: Option<&GetNotificationsInputOptions>)
    ensures
        notification_items(options) == given_items(notification_option_fields(options)),
{
    broadcast use lemma_given_items_push;

    assert(given_items(Fields::empty()) =~= Seq::<Seq<char>>::empty());
    if let Some(o) = options {
        assert(Seq::<Seq<char>>::empty() + opt_item("limit="@, num32_of(o.limit)) =~= opt_item("limit="@, num32_of(o.limit)));
    }
    assert(notification_items(options) =~= given_items(notification_option_fields(options)));
}

/// The notifications request sends each given option under its own name:
/// `since_id` only under "since_id=", `max_id` only under "max_id=", and
/// so on; no other item is sent.
/// The items come in the order of the named values listed above.
pub proof fn law_notification_items(options: Option<&GetNotificationsInputOptions>)
    ensures
        ({
            let items = notification_items(options);
            &&& items == given_items(notification_option_fields(options))
            &&& options is None ==> items.len() == 0
            &&& options matches Some(o) ==> {
                &&& item_carries(items, "limit="@, num32_of(o.limit))
                &&& item_carries(items, "max_id="@, text_of(o.max_id))
                &&& item_carries(items, "since_id="@, text_of(o.since_id))
                &&& item_carries(items, "min_id="@, text_of(o.min_id))
                &&& item_carries(items, "exclude_types="@, json_list_of(o.exclude_types))
                &&& item_carries(items, "account_id="@, text_of(o.account_id))
                &&& items.len() == given(num32_of(o.limit)) + given(text_of(o.max_id)) + given(text_of(o.since_id)) + given(text_of(o.min_id)) + given(json_list_of(o.exclude_types)) + given(text_of(o.account_id))
            }
        }),
{
    let fields = notification_option_fields(options);
    lemma_notification_names_apart(options);
    lemma_notification_given(options);
    lemma_given_items_carry(fields);
    let items = notification_items(options);
    if options is Some {
        assert(item_carries(items, fields[0].0, fields[0].1));
        assert(item_carries(items, fields[1].0, fields[1].1));
        assert(item_carries(items, fields[2].0, fields[2].1));
        assert(item_carries(items, fields[3].0, fields[3].1));
        assert(item_carries(items, fields[4].0, fields[4].1));
        assert(item_carries(items, fields[5].0, fields[5].1));
    }
}

/// A filter sends its phrase, its contexts as a JSON array of words, and each
/// given option under its own name; no other field.
pub proof fn law_filter_fields(phrase: Seq<char>, context: Seq<FilterContext>, options: Option<&FilterInputOptions>)
    ensures
        forall|k: Seq<char>|
            #[trigger] filter_fields(phrase, context, options).contains_key(k) ==> k == "phrase"@ || k == "context"@ || k == "irreversible"@ || k == "whole_word"@ || k == "expires_in"@,
        carries(filter_fields(phrase, context, options), "phrase"@, Some(phrase)),
        carries(filter_fields(phrase, context, options), "context"@, Some(json_string_list(contexts_text(context)))),
        options is None ==> forall|k: Seq<char>| #[trigger] filter_fields(phrase, context, options).contains_key(k) ==> k == "phrase"@ || k == "context"@,
        options matches Some(o) ==> {
            let m = filter_fields(phrase, context, options);
            &&& carries(m, "irreversible"@, bool_of(o.irreversible))
            &&& carries(m, "whole_word"@, bool_of(o.whole_word))
            &&& carries(m, "expires_in"@, num_of(o.expires_in))
        },
{
    reveal_strlit("phrase");
    reveal_strlit("context");
    reveal_strlit("irreversible");
    reveal_strlit("whole_word");
    reveal_strlit("expires_in");
    assert("phrase"@.len() == 6 && "context"@.len() == 7 && "irreversible"@.len() == 12 && "whole_word"@.len() == 10);
    assert("expires_in"@.len() == 10);
    assert("whole_word"@[0] != "expires_in"@[0]);
}

/// An account registration sends each of its values under its own name, the
/// reason only when given; no other field.
pub proof fn law_registration_fields(username: Seq<char>, email: Seq<char>, password: Seq<char>, agreement: Seq<char>, locale: Seq<char>, reason: Option<Seq<char>>)
    ensures
        forall|k: Seq<char>|
            #[trigger] registration_fields(username, email, password, agreement, locale, reason).contains_key(k) ==> k == "username"@ || k == "email"@ || k == "password"@ || k == "agreement"@ || k == "locale"@ || k == "reason"@,
        carries(registration_fields(username, email, password, agreement, locale, reason), "username"@, Some(username)),
        carries(registration_fields(username, email, password, agreement, locale, reason), "email"@, Some(email)),
        carries(registration_fields(username, email, password, agreement, locale, reason), "password"@, Some(password)),
        carries(registration_fields(username, email, password, agreement, locale, reason), "agreement"@, Some(agreement)),
        carries(registration_fields(username, email, password, agreement, locale, reason), "locale"@, Some(locale)),
        carries(registration_fields(username, email, password, agreement, locale, reason), "reason"@, reason),
{
    reveal_strlit("username");
    reveal_strlit("email");
    reveal_strlit("password");
    reveal_strlit("agreement");
    reveal_strlit("locale");
    reveal_strlit("reason");
    assert("username"@.len() == 8 && "email"@.len() == 5 && "password"@.len() == 8 && "agreement"@.len() == 9);
    assert("locale"@.len() == 6 && "reason"@.len() == 6);
    assert("username"@[0] != "password"@[0]);
    assert("locale"@[0] != "reason"@[0]);
}

/// A follow sends `reblog` under "reblog" when it is given, and nothing else.
pub proof fn law_follow_fields(options: Option<&FollowAccountInputOptions>)
    ensures
        forall|k: Seq<char>|
            #[trigger] follow_fields(options).contains_key(k) ==> k == "reblog"@,
        options is None ==> follow_fields(options).is_empty(),
        options matches Some(o) ==> {
            let m = follow_fields(options);
            &&& carries(m, "reblog"@, bool_of(o.reblog))
        },
{
    reveal_strlit("reblog");
    assert("reblog"@.len() == 6);
    if options is None {
        assert(follow_fields(options) =~= Map::empty());
    }
}

/// A report sends the account and the comment under their own names, then
/// the statuses and the forwarding flag when given; no other field.
pub proof fn law_report_fields(account_id: Seq<char>, comment: Seq<char>, options: Option<&ReportInputOptions>)
    ensures
        forall|k: Seq<char>|
            #[trigger] report_fields(account_id, comment, options).contains_key(k) ==> k == "account_id"@ || k == "comment"@ || k == "status_ids"@ || k == "forward"@,
        carries(report_fields(account_id, comment, options), "account_id"@, Some(account_id)),
        carries(report_fields(account_id, comment, options), "comment"@, Some(comment)),
        options is None ==> forall|k: Seq<char>| #[trigger] report_fields(account_id, comment, options).contains_key(k) ==> k == "account_id"@ || k == "comment"@,
        options matches Some(o) ==> {
            let m = report_fields(account_id, comment, options);
            &&& carries(m, "status_ids"@, json_list_of(o.status_ids))
            &&& carries(m, "forward"@, bool_of(o.forward))
        },
{
    reveal_strlit("account_id");
    reveal_strlit("comment");
    reveal_strlit("status_ids");
    reveal_strlit("forward");
    assert("account_id"@.len() == 10 && "comment"@.len() == 7 && "status_ids"@.len() == 10 && "forward"@.len() == 7);
    assert("account_id"@[0] != "status_ids"@[0]);
    assert("comment"@[0] != "forward"@[0]);
}

/// Moving a scheduled status sends the new time under "scheduled_at" when it
/// is given, and nothing else.
pub proof fn law_schedule_fields(scheduled_at: Option<Seq<char>>)
    ensures
        forall|k: Seq<char>|
            #[trigger] schedule_fields(scheduled_at).contains_key(k) ==> k == "scheduled_at"@,
        carries(schedule_fields(scheduled_at), "scheduled_at"@, scheduled_at),
{
    reveal_strlit("scheduled_at");
    assert("scheduled_at"@.len() == 12);
}

/// Saving markers sends each given marker under its own name, and nothing
/// else.
pub proof fn law_markers_fields(options: Option<&SaveMarkersInputOptions>)
    ensures
        forall|k: Seq<char>|
            #[trigger] markers_fields(options).contains_key(k) ==> k == "home"@ || k == "notifications"@,
        options is None ==> markers_fields(options).is_empty(),
        options matches Some(o) ==> {
            let m = markers_fields(options);
            &&& carries(m, "home"@, text_of(o.home))
            &&& carries(m, "notifications"@, text_of(o.notifications))
        },
{
    reveal_strlit("home");
    reveal_strlit("notifications");
    assert("home"@.len() == 4 && "notifications"@.len() == 13);
    if options is None {
        assert(markers_fields(options) =~= Map::empty());
    }
}

/// A push subscription sends the subscription under "subscription" and the
/// data under "data" when given; no other field.
pub proof fn law_subscription_fields(subscription: Seq<char>, data: Option<Seq<char>>)
    ensures
        forall|k: Seq<char>|
            #[trigger] subscription_fields(subscription, data).contains_key(k) ==> k == "subscription"@ || k == "data"@,
        carries(subscription_fields(subscription, data), "subscription"@, Some(subscription)),
        carries(subscription_fields(subscription, data), "data"@, data),
{
    reveal_strlit("subscription");
    reveal_strlit("data");
    assert("subscription"@.len() == 12 && "data"@.len() == 4);
}

/// A push subscription update sends the data under "data" when given, and
/// nothing else.
pub proof fn law_push_data_fields(data: Option<Seq<char>>)
    ensures
        forall|k: Seq<char>|
            #[trigger] push_data_fields(data).contains_key(k) ==> k == "data"@,
        carries(push_data_fields(data), "data"@, data),
{
    reveal_strlit("data");
    assert("data"@.len() == 4);
}

/// An application registration sends its name, its redirect URI (the given
/// one, or the out-of-band one), its scopes joined by spaces and, when given,
/// its website, each under its own name; no other field.
pub proof fn law_app_fields(client_name: Seq<char>, options: AppInputOptions)
    ensures
        forall|k: Seq<char>|
            #[trigger] app_fields(client_name, options).contains_key(k) ==> k == "client_name"@ || k == "redirect_uris"@ || k == "scopes"@ || k == "website"@,
        carries(app_fields(client_name, options), "client_name"@, Some(client_name)),
        carries(app_fields(client_name, options), "redirect_uris"@, Some(match options.redirect_uris { Some(u) => u@, None => no_redirect() })),
        carries(app_fields(client_name, options), "scopes"@, Some(join(app_scopes(options), " "@))),
        carries(app_fields(client_name, options), "website"@, text_of(options.website)),
{
    reveal_strlit("client_name");
    reveal_strlit("redirect_uris");
    reveal_strlit("scopes");
    reveal_strlit("website");
    assert("client_name"@.len() == 11 && "redirect_uris"@.len() == 13 && "scopes"@.len() == 6 && "website"@.len() == 7);
}

/// Trends, follow requests and suggestions send the limit under "limit="
/// when it is given, and nothing else.
pub proof fn law_limit_items(limit: Option<u32>)
    ensures
        item_carries(limit_items(limit), "limit="@, num32_of(limit)),
        limit_items(limit).len() == given(num32_of(limit)),
{
    let fields = Fields::empty().push(("limit="@, num32_of(limit)));
    assert(names_apart(fields)) by {
        reveal_strlit("limit=");
        assert(is_item_name("limit="@));
    }
    lemma_given_items_carry(fields);
    assert(limit_items(limit) =~= given_items(fields)) by {
        lemma_given_items_push(Fields::empty(), ("limit="@, num32_of(limit)));
        assert(given_items(Fields::empty()) =~= Seq::<Seq<char>>::empty());
    }
    assert(item_carries(limit_items(limit), fields[0].0, fields[0].1));
}

/// A relationships lookup sends one item "id[]=" followed by the id for
/// each id, in the order given, and nothing else.
pub proof fn law_relationship_items(ids: Seq<String>)
    ensures
        relationship_items(ids).len() == ids.len(),
        forall|i: int| 0 <= i < ids.len() ==> #[trigger] relationship_items(ids)[i] == "id[]="@ + ids[i]@,
{
}

/// A token request is a POST to "/oauth/token" that sends the client, its
/// secret, the code and the redirect URI under their own names with the
/// grant type "authorization_code"; no other field.
pub proof fn law_code_token_request(client_id: Seq<char>, client_secret: Seq<char>, code: Seq<char>, redirect_uri: Seq<char>)
    ensures
        ({
            let r = code_token_request(client_id, client_secret, code, redirect_uri);
            &&& r.method == Method::Post
            &&& r.path == "/oauth/token"@
            &&& r.body matches BodyView::Form(m) && {
                &&& forall|k: Seq<char>|
                    #[trigger] m.contains_key(k) ==> k == "client_id"@ || k == "client_secret"@ || k == "code"@ || k == "redirect_uri"@ || k
                        == "grant_type"@
                &&& carries(m, "client_id"@, Some(client_id))
                &&& carries(m, "client_secret"@, Some(client_secret))
                &&& carries(m, "code"@, Some(code))
                &&& carries(m, "redirect_uri"@, Some(redirect_uri))
                &&& carries(m, "grant_type"@, Some("authorization_code"@))
            }
        }),
{
    reveal_strlit("client_id");
    reveal_strlit("client_secret");
    reveal_strlit("code");
    reveal_strlit("redirect_uri");
    reveal_strlit("grant_type");
    assert("client_id"@.len() == 9 && "client_secret"@.len() == 13 && "code"@.len() == 4 && "redirect_uri"@.len() == 12);
    assert("grant_type"@.len() == 10);
}

/// A token refresh is a POST to "/oauth/token" that sends the client, its
/// secret and the refresh token under their own names with the grant type
/// "refresh_token"; no other field.
pub proof fn law_refresh_token_request(client_id: Seq<char>, client_secret: Seq<char>, refresh_token: Seq<char>)
    ensures
        ({
            let r = refresh_token_request(client_id, client_secret, refresh_token);
            &&& r.method == Method::Post
            &&& r.path == "/oauth/token"@
            &&& r.body matches BodyView::Form(m) && {
                &&& forall|k: Seq<char>|
                    #[trigger] m.contains_key(k) ==> k == "client_id"@ || k == "client_secret"@ || k == "refresh_token"@ || k == "grant_type"@
                &&& carries(m, "client_id"@, Some(client_id))
                &&& carries(m, "client_secret"@, Some(client_secret))
                &&& carries(m, "refresh_token"@, Some(refresh_token))
                &&& carries(m, "grant_type"@, Some("refresh_token"@))
            }
        }),
{
    reveal_strlit("client_id");
    reveal_strlit("client_secret");
    reveal_strlit("refresh_token");
    reveal_strlit("grant_type");
    assert("client_id"@.len() == 9 && "client_secret"@.len() == 13 && "refresh_token"@.len() == 13 && "grant_type"@.len() == 10);
    assert("client_secret"@[1] != "refresh_token"@[1]);
}

/// A token revocation is a POST to "/oauth/revoke" that sends the client,
/// its secret and the token under their own names; no other field.
pub proof fn law_revoke_token_request(client_id: Seq<char>, client_secret: Seq<char>, token: Seq<char>)
    ensures
        ({
            let r = revoke_token_request(client_id, client_secret, token);
            &&& r.method == Method::Post
            &&& r.path == "/oauth/revoke"@
            &&& r.body matches BodyView::Form(m) && {
                &&& forall|k: Seq<char>| #[trigger] m.contains_key(k) ==> k == "client_id"@ || k == "client_secret"@ || k == "token"@
                &&& carries(m, "client_id"@, Some(client_id))
                &&& carries(m, "client_secret"@, Some(client_secret))
                &&& carries(m, "token"@, Some(token))
            }
        }),
{
    reveal_strlit("client_id");
    reveal_strlit("client_secret");
    reveal_strlit("token");
    assert("client_id"@.len() == 9 && "client_secret"@.len() == 13 && "token"@.len() == 5);
}

} // verus!
