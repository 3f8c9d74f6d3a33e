//! Calls about statuses, their media and polls, scheduled statuses, filters,
//! reports and featured tags.

use vstd::prelude::*;
use vstd::string::StringExecFns;
use vstd::utf8::encode_utf8;
use crate::external::{hex_encode, hex_lower, json_number_list, json_numbers, json_string_list, json_strings, sha1, sha1_digest, strings_view};
use crate::form::{Form, set_opt};
use crate::laws::{is_lower_hex_char, lemma_hex_lower_shape};
use crate::options::{FilterContext, FilterInputOptions, GetScheduledStatusesInputOptions, GetStatusContextInputOptions, PostStatusInputOptions, ReportInputOptions, UpdateMediaInputOptions, UploadMediaInputOptions, UtcDateTime, filter_context_text, instant_text, visibility_text};
use crate::pleroma::Pleroma;
use crate::pleroma::accounts::{bookmark_items, bookmark_query, post_on};
use crate::query::{Query, opt_item, with_query};
use crate::request::{self, Method, Part, PartView, Request, form_view, get_view, multipart_view, no_fields};
use crate::text::{bool_of, cat2, cat3, num32_of, num_of, text_of};

verus! {

/// The words of filter contexts.
pub open spec fn contexts_text(context: Seq<FilterContext>) -> Seq<Seq<char>> {
    context.map_values(|c: FilterContext| filter_context_text(c))
}

/// The fields of a filter: the phrase, the contexts as a JSON array of
/// words, and the given options.
pub open spec fn filter_fields(phrase: Seq<char>, context: Seq<FilterContext>, options: Option<&FilterInputOptions>) -> Map<Seq<char>, Seq<char>> {
    let m = no_fields().insert("phrase"@, phrase).insert("context"@, json_string_list(contexts_text(context)));
    match options {
        Some(o) => {
            let m = set_opt(m, "irreversible"@, bool_of(o.irreversible));
            let m = set_opt(m, "whole_word"@, bool_of(o.whole_word));
            set_opt(m, "expires_in"@, num_of(o.expires_in))
        },
        None => m,
    }
}

/// The JSON array of an optional list of texts.
pub open spec fn json_list_of(v: Option<Vec<String>>) -> Option<Seq<char>> {
    match v {
        Some(x) => Some(json_string_list(strings_view(x@))),
        None => None,
    }
}

/// The word of an optional visibility.
pub open spec fn visibility_of(v: Option<crate::options::StatusVisibility>) -> Option<Seq<char>> {
    match v {
        Some(x) => Some(visibility_text(x)),
        None => None,
    }
}

/// The fields of a new status, given the text of its scheduled time.
pub open spec fn status_fields(status: Seq<char>, options: Option<&PostStatusInputOptions>, scheduled_at: Option<Seq<char>>) -> Map<Seq<char>, Seq<char>> {
    let m = no_fields().insert("status"@, status);
    match options {
        Some(o) => {
            let m = set_opt(m, "media_ids"@, json_list_of(o.media_ids));
            let m = set_opt(m, "in_reply_to_id"@, text_of(o.in_reply_to_id));
            let m = set_opt(m, "sensitive"@, bool_of(o.sensitive));
            let m = set_opt(m, "spoiler_text"@, text_of(o.spoiler_text));
            let m = set_opt(m, "visibility"@, visibility_of(o.visibility));
            let m = set_opt(m, "scheduled_at"@, scheduled_at);
            let m = set_opt(m, "language"@, text_of(o.language));
            set_opt(m, "poll"@, text_of(o.poll))
        },
        None => m,
    }
}

/// The fields of a report: the account and comment, then the statuses as
/// a JSON array and the forwarding flag when given.
pub open spec fn report_fields(account_id: Seq<char>, comment: Seq<char>, options: Option<&ReportInputOptions>) -> Map<Seq<char>, Seq<char>> {
    let m = no_fields().insert("account_id"@, account_id).insert("comment"@, comment);
    match options {
        Some(o) => set_opt(set_opt(m, "status_ids"@, json_list_of(o.status_ids)), "forward"@, bool_of(o.forward)),
        None => m,
    }
}

/// The fields that move a scheduled status: the new time, when given.
pub open spec fn schedule_fields(scheduled_at: Option<Seq<char>>) -> Map<Seq<char>, Seq<char>> {
    set_opt(no_fields(), "scheduled_at"@, scheduled_at)
}

/// The scheduled time of the options, if any.
pub open spec fn scheduled_of(options: Option<&PostStatusInputOptions>) -> Option<UtcDateTime> {
    match options {
        Some(o) => o.scheduled_at,
        None => None,
    }
}

/// The name a media file is uploaded under: the lowercase hexadecimal SHA-1
/// digest of the UTF-8 bytes of its path.
pub open spec fn media_file_name(path: Seq<char>) -> Seq<char> {
    hex_lower(sha1_digest(encode_utf8(path)))
}

/// A text part when the text is given.
pub open spec fn opt_text_part(name: Seq<char>, v: Option<Seq<char>>) -> Seq<PartView> {
    match v {
        Some(x) => seq![PartView::Text { name, value: x }],
        None => Seq::empty(),
    }
}

/// The parts of a media upload: the file, then the description and focus
/// when given.
pub open spec fn upload_parts(path: Seq<char>, file_name: Seq<char>, options: Option<&UploadMediaInputOptions>) -> Seq<PartView> {
    seq![PartView::File { name: "file"@, path, file_name }] + match options {
        Some(o) => opt_text_part("description"@, text_of(o.description)) + opt_text_part("focus"@, text_of(o.focus)),
        None => Seq::empty(),
    }
}

/// The parts of a media update: description and focus when given, then the
/// new file under `file_name`, when a path is given.
pub open spec fn update_media_parts(options: Option<&UpdateMediaInputOptions>, file_name: Seq<char>) -> Seq<PartView> {
    match options {
        Some(o) => opt_text_part("description"@, text_of(o.description)) + opt_text_part("focus"@, text_of(o.focus))
            + match o.file_path {
            Some(p) => seq![PartView::File { name: "file"@, path: p@, file_name }],
            None => Seq::empty(),
        },
        None => Seq::empty(),
    }
}

/// The path of the new file of a media update, if any.
pub open spec fn update_media_path(options: Option<&UpdateMediaInputOptions>) -> Option<Seq<char>> {
    match options {
        Some(o) => text_of(o.file_path),
        None => None,
    }
}

/// The query items of a status context: `limit`, `max_id` and `since_id`,
/// each when given.
pub open spec fn context_items(options: Option<&GetStatusContextInputOptions>) -> Seq<Seq<char>> {
    match options {
        Some(o) => opt_item("limit="@, num32_of(o.limit)) + opt_item("max_id="@, text_of(o.max_id)) + opt_item(
            "since_id="@,
            text_of(o.since_id),
        ),
        None => Seq::empty(),
    }
}

/// The parts of a multipart body, seen as text.
pub open spec fn parts_view(parts: Seq<Part>) -> Seq<PartView> {
    parts.map_values(|p: Part| p@)
}

fn push_opt_text_part(parts: &mut Vec<Part>, name: &str, v: &Option<String>)
    ensures
        parts_view(final(parts)@) == parts_view(old(parts)@) + opt_text_part(name@, text_of(*v)),
{
    match v {
        Some(x) => {
            parts.push(Part::Text { name: String::from_str(name), value: x.clone() });
        },
        None => {},
    }
    assert(parts_view(parts@) =~= parts_view(old(parts)@) + opt_text_part(name@, text_of(*v)));
}

/// The name a media file is uploaded under: 40 lowercase hexadecimal
/// digits.
pub fn file_name_of(path: &str) -> (r: String)
    ensures
        r@ == media_file_name(path@),
        r@.len() == 40,
        forall|i: int| 0 <= i < r@.len() ==> is_lower_hex_char(#[trigger] r@[i]),
{
    let digest = sha1(path.as_bytes());
    let r = hex_encode(digest.as_slice());
    proof {
        lemma_hex_lower_shape(digest@);
    }
    r
}

/// The words of the contexts, as JSON.
fn contexts_json(context: &Vec<FilterContext>) -> (r: String)
    ensures
        r@ == json_string_list(contexts_text(context@)),
{
    let mut words: Vec<String> = Vec::new();
    let n = context.len();
    let mut i: usize = 0;
    while i < n
        invariant
            n == context.len(),
            i <= n,
            strings_view(words@) == contexts_text(context@.take(i as int)),
        decreases n - i,
    {
        words.push(String::from_str(context[i].as_str()));
        assert(contexts_text(context@.take(i + 1)) =~= contexts_text(context@.take(i as int)).push(filter_context_text(context@[i as int])));
        assert(strings_view(words@) =~= contexts_text(context@.take(i + 1)));
        i = i + 1;
    }
    assert(context@.take(n as int) =~= context@);
    json_strings(&words)
}

/// The form fields of a filter.
fn filter_form(phrase: String, context: &Vec<FilterContext>, options: Option<&FilterInputOptions>) -> (r: Form)
    ensures
        r@ == filter_fields(phrase@, context@, options),
{
    let mut form = Form::new();
    form.insert("phrase", phrase);
    form.insert("context", contexts_json(context));
    match options {
        Some(o) => {
            form.insert_opt_bool("irreversible", o.irreversible);
            form.insert_opt_bool("whole_word", o.whole_word);
            form.insert_opt_num("expires_in", o.expires_in);
        },
        None => {},
    }
    form
}

/// The form fields of a new status, given the text of its scheduled time
/// (which is sent as it is).
fn status_form(status: String, options: Option<&PostStatusInputOptions>, scheduled_at: Option<String>) -> (r: Form)
    ensures
        r@ == status_fields(status@, options, text_of(scheduled_at)),
{
    let mut form = Form::new();
    form.insert("status", status);
    match options {
        Some(o) => {
            match &o.media_ids {
                Some(ids) => form.insert("media_ids", json_strings(ids)),
                None => {},
            }
            form.insert_opt_text("in_reply_to_id", &o.in_reply_to_id);
            form.insert_opt_bool("sensitive", o.sensitive);
            form.insert_opt_text("spoiler_text", &o.spoiler_text);
            match &o.visibility {
                Some(v) => form.insert("visibility", String::from_str(v.as_str())),
                None => {},
            }
            form.insert_opt_text("scheduled_at", &scheduled_at);
            form.insert_opt_text("language", &o.language);
            form.insert_opt_text("poll", &o.poll);
        },
        None => {},
    }
    form
}

/// The parts of a media upload, given the name the file is sent under.
fn upload_media_parts(file_path: String, file_name: String, options: Option<&UploadMediaInputOptions>) -> (r: Vec<Part>)
    ensures
        parts_view(r@) == upload_parts(file_path@, file_name@, options),
{
    let mut parts: Vec<Part> = Vec::new();
    parts.push(Part::File { name: String::from_str("file"), path: file_path, file_name });
    match options {
        Some(o) => {
            push_opt_text_part(&mut parts, "description", &o.description);
            push_opt_text_part(&mut parts, "focus", &o.focus);
        },
        None => {},
    }
    assert(parts_view(parts@) =~= upload_parts(file_path@, file_name@, options));
    parts
}

impl Pleroma {
    /// The request for the filters.
    pub fn get_filters(&self) -> (r: Request)
        ensures
            r@ == get_view("/api/v1/filters"@),
    {
        request::get(String::from_str("/api/v1/filters"))
    }

    /// The request for a filter.
    pub fn get_filter(&self, id: String) -> (r: Request)
        ensures
            r@ == get_view("/api/v1/filters/"@ + id@),
    {
        request::get(cat2("/api/v1/filters/", id.as_str()))
    }

    /// The request that creates a filter.
    pub fn create_filter(&self, phrase: String, context: Vec<FilterContext>, options: Option<&FilterInputOptions>) -> (r: Request)
        ensures
            r@ == form_view(Method::Post, "/api/v1/filters"@, filter_fields(phrase@, context@, options)),
    {
        request::with_form(Method::Post, String::from_str("/api/v1/filters"), filter_form(phrase, &context, options))
    }

    /// The request that replaces a filter.
    pub fn update_filter(&self, id: String, phrase: String, context: Vec<FilterContext>, options: Option<&FilterInputOptions>) -> (r: Request)
        ensures
            r@ == form_view(Method::Put, "/api/v1/filters/"@ + id@, filter_fields(phrase@, context@, options)),
    {
        request::with_form(Method::Put, cat2("/api/v1/filters/", id.as_str()), filter_form(phrase, &context, options))
    }

    /// The request that deletes a filter.
    pub fn delete_filter(&self, id: String) -> (r: Request)
        ensures
            r@ == form_view(Method::Delete, "/api/v1/filters/"@ + id@, no_fields()),
    {
        request::with_empty_form(Method::Delete, cat2("/api/v1/filters/", id.as_str()))
    }

    /// The request that reports an account, with the statuses (as a JSON
    /// array) and the forwarding flag when given.
    pub fn report(&self, account_id: String, comment: String, options: Option<&ReportInputOptions>) -> (r: Request)
        ensures
            r@ == form_view(Method::Post, "/api/v1/reports"@, report_fields(account_id@, comment@, options)),
    {
        let mut form = Form::new();
        form.insert("account_id", account_id);
        form.insert("comment", comment);
        match options {
            Some(o) => {
                match &o.status_ids {
                    Some(ids) => form.insert("status_ids", json_strings(ids)),
                    None => {},
                }
                form.insert_opt_bool("forward", o.forward);
            },
            None => {},
        }
        request::with_form(Method::Post, String::from_str("/api/v1/reports"), form)
    }

    /// The request for the featured tags.
    pub fn get_featured_tags(&self) -> (r: Request)
        ensures
            r@ == get_view("/api/v1/featured_tags"@),
    {
        request::get(String::from_str("/api/v1/featured_tags"))
    }

    /// The request that features a tag.
    pub fn create_featured_tag(&self, name: String) -> (r: Request)
        ensures
            r@ == form_view(Method::Post, "/api/v1/featured_tags"@, no_fields().insert("name"@, name@)),
    {
        let mut form = Form::new();
        form.insert("name", name);
        request::with_form(Method::Post, String::from_str("/api/v1/featured_tags"), form)
    }

    /// The request that stops featuring a tag.
    pub fn delete_featured_tag(&self, id: String) -> (r: Request)
        ensures
            r@ == form_view(Method::Delete, "/api/v1/featured_tags/"@ + id@, no_fields()),
    {
        request::with_empty_form(Method::Delete, cat2("/api/v1/featured_tags/", id.as_str()))
    }

    /// The request for suggested tags.
    pub fn get_suggested_tags(&self) -> (r: Request)
        ensures
            r@ == get_view("/api/v1/featured_tags/suggestions"@),
    {
        request::get(String::from_str("/api/v1/featured_tags/suggestions"))
    }

    /// The request that posts a status; its scheduled time is sent in
    /// RFC 3339.
    pub fn post_status(&self, status: String, options: Option<&PostStatusInputOptions>) -> (r: Request)
        ensures
            r@ == form_view(Method::Post, "/api/v1/statuses"@, status_fields(status@, options, instant_text(scheduled_of(options)))),
    {
        let scheduled_at = match options {
            Some(o) => match &o.scheduled_at {
                Some(t) => Some(t.to_rfc3339()),
                None => None,
            },
            None => None,
        };
        self.post_status_at(status, options, scheduled_at)
    }

    /// The request that posts a status, its scheduled time given as the text
    /// to send (the one in `options` is not read).
    pub fn post_status_at(&self, status: String, options: Option<&PostStatusInputOptions>, scheduled_at: Option<String>) -> (r: Request)
        ensures
            r@ == form_view(Method::Post, "/api/v1/statuses"@, status_fields(status@, options, text_of(scheduled_at))),
    {
        request::with_form(Method::Post, String::from_str("/api/v1/statuses"), status_form(status, options, scheduled_at))
    }

    /// The request for a status.
    pub fn get_status(&self, id: String) -> (r: Request)
        ensures
            r@ == get_view("/api/v1/statuses/"@ + id@),
    {
        request::get(cat2("/api/v1/statuses/", id.as_str()))
    }

    /// The request that deletes a status.
    pub fn delete_status(&self, id: String) -> (r: Request)
        ensures
            r@ == form_view(Method::Delete, "/api/v1/statuses/"@ + id@, no_fields()),
    {
        request::with_empty_form(Method::Delete, cat2("/api/v1/statuses/", id.as_str()))
    }

    /// The request for the context of a status.
    pub fn get_status_context(&self, id: String, options: Option<&GetStatusContextInputOptions>) -> (r: Request)
        ensures
            r@ == get_view(with_query("/api/v1/statuses/"@ + id@ + "/context"@, context_items(options))),
    {
        let mut q = Query::new();
        match options {
            Some(o) => {
                q.push_opt_u32("limit=", o.limit);
                q.push_opt_text("max_id=", &o.max_id);
                q.push_opt_text("since_id=", &o.since_id);
            },
            None => {},
        }
        assert(q@ =~= context_items(options));
        request::get(q.render(cat3("/api/v1/statuses/", id.as_str(), "/context")))
    }

    /// The request for the accounts that reblogged a status.
    pub fn get_status_reblogged_by(&self, id: String) -> (r: Request)
        ensures
            r@ == get_view("/api/v1/statuses/"@ + id@ + "/reblogged_by"@),
    {
        request::get(cat3("/api/v1/statuses/", id.as_str(), "/reblogged_by"))
    }

    /// The request for the accounts that favourited a status.
    pub fn get_status_favourited_by(&self, id: String) -> (r: Request)
        ensures
            r@ == get_view("/api/v1/statuses/"@ + id@ + "/favourited_by"@),
    {
        request::get(cat3("/api/v1/statuses/", id.as_str(), "/favourited_by"))
    }

    /// The request that favourites a status.
    pub fn favourite_status(&self, id: String) -> (r: Request)
        ensures
            r@ == form_view(Method::Post, "/api/v1/statuses/"@ + id@ + "/favourite"@, no_fields()),
    {
        post_on("/api/v1/statuses/", id.as_str(), "/favourite")
    }

    /// The request that removes a favourite.
    pub fn unfavourite_status(&self, id: String) -> (r: Request)
        ensures
            r@ == form_view(Method::Post, "/api/v1/statuses/"@ + id@ + "/unfavourite"@, no_fields()),
    {
        post_on("/api/v1/statuses/", id.as_str(), "/unfavourite")
    }

    /// The request that reblogs a status.
    pub fn reblog_status(&self, id: String) -> (r: Request)
        ensures
            r@ == form_view(Method::Post, "/api/v1/statuses/"@ + id@ + "/reblog"@, no_fields()),
    {
        post_on("/api/v1/statuses/", id.as_str(), "/reblog")
    }

    /// The request that undoes a reblog.
    pub fn unreblog_status(&self, id: String) -> (r: Request)
        ensures
            r@ == form_view(Method::Post, "/api/v1/statuses/"@ + id@ + "/unreblog"@, no_fields()),
    {
        post_on("/api/v1/statuses/", id.as_str(), "/unreblog")
    }

    /// The request that bookmarks a status.
    pub fn bookmark_status(&self, id: String) -> (r: Request)
        ensures
            r@ == form_view(Method::Post, "/api/v1/statuses/"@ + id@ + "/bookmark"@, no_fields()),
    {
        post_on("/api/v1/statuses/", id.as_str(), "/bookmark")
    }

    /// The request that removes a bookmark.
    pub fn unbookmark_status(&self, id: String) -> (r: Request)
        ensures
            r@ == form_view(Method::Post, "/api/v1/statuses/"@ + id@ + "/unbookmark"@, no_fields()),
    {
        post_on("/api/v1/statuses/", id.as_str(), "/unbookmark")
    }

    /// The request that mutes a conversation.
    pub fn mute_status(&self, id: String) -> (r: Request)
        ensures
            r@ == form_view(Method::Post, "/api/v1/statuses/"@ + id@ + "/mute"@, no_fields()),
    {
        post_on("/api/v1/statuses/", id.as_str(), "/mute")
    }

    /// The request that unmutes a conversation.
    pub fn unmute_status(&self, id: String) -> (r: Request)
        ensures
            r@ == form_view(Method::Post, "/api/v1/statuses/"@ + id@ + "/unmute"@, no_fields()),
    {
        post_on("/api/v1/statuses/", id.as_str(), "/unmute")
    }

    /// The request that pins a status.
    pub fn pin_status(&self, id: String) -> (r: Request)
        ensures
            r@ == form_view(Method::Post, "/api/v1/statuses/"@ + id@ + "/pin"@, no_fields()),
    {
        post_on("/api/v1/statuses/", id.as_str(), "/pin")
    }

    /// The request that unpins a status.
    pub fn unpin_status(&self, id: String) -> (r: Request)
        ensures
            r@ == form_view(Method::Post, "/api/v1/statuses/"@ + id@ + "/unpin"@, no_fields()),
    {
        post_on("/api/v1/statuses/", id.as_str(), "/unpin")
    }

    /// The request that uploads the file at `file_path` (sent under the name
    /// [`media_file_name`] gives it) with its description and focus.
    pub fn upload_media(&self, file_path: String, options: Option<&UploadMediaInputOptions>) -> (r: Request)
        ensures
            r@ == multipart_view(Method::Post, "/api/v1/media"@, upload_parts(file_path@, media_file_name(file_path@), options)),
    {
        let file_name = file_name_of(file_path.as_str());
        self.upload_media_as(file_path, file_name, options)
    }

    /// The request that uploads the file at `file_path` under `file_name`.
    pub fn upload_media_as(&self, file_path: String, file_name: String, options: Option<&UploadMediaInputOptions>) -> (r: Request)
        ensures
            r@ == multipart_view(Method::Post, "/api/v1/media"@, upload_parts(file_path@, file_name@, options)),
    {
        let parts = upload_media_parts(file_path, file_name, options);
        request::with_parts(Method::Post, String::from_str("/api/v1/media"), parts)
    }

    /// The request that updates media: its description, focus and, when a
    /// path is given, its file (sent under the name [`media_file_name`]
    /// gives it).
    pub fn update_media(&self, id: String, options: Option<&UpdateMediaInputOptions>) -> (r: Request)
        ensures
            r@ == multipart_view(
                Method::Put,
                "/api/v1/media/"@ + id@,
                update_media_parts(
                    options,
                    match update_media_path(options) {
                        Some(p) => media_file_name(p),
                        None => Seq::empty(),
                    },
                ),
            ),
    {
        let file_name = match options {
            Some(o) => match &o.file_path {
                Some(p) => file_name_of(p.as_str()),
                None => String::new(),
            },
            None => String::new(),
        };
        self.update_media_as(id, options, file_name)
    }

    /// The request that updates media, a new file being sent under
    /// `file_name`.
    pub fn update_media_as(&self, id: String, options: Option<&UpdateMediaInputOptions>, file_name: String) -> (r: Request)
        ensures
            r@ == multipart_view(Method::Put, "/api/v1/media/"@ + id@, update_media_parts(options, file_name@)),
    {
        let mut parts: Vec<Part> = Vec::new();
        match options {
            Some(o) => {
                push_opt_text_part(&mut parts, "description", &o.description);
                push_opt_text_part(&mut parts, "focus", &o.focus);
                match &o.file_path {
                    Some(p) => {
                        parts.push(Part::File { name: String::from_str("file"), path: p.clone(), file_name });
                    },
                    None => {},
                }
            },
            None => {},
        }
        assert(parts_view(parts@) =~= update_media_parts(options, file_name@));
        request::with_parts(Method::Put, cat2("/api/v1/media/", id.as_str()), parts)
    }

    /// The request for a poll.
    pub fn get_poll(&self, id: String) -> (r: Request)
        ensures
            r@ == get_view("/api/v1/polls/"@ + id@),
    {
        request::get(cat2("/api/v1/polls/", id.as_str()))
    }

    /// The request that votes in a poll, the choices sent as a JSON array.
    pub fn vote_poll(&self, id: String, choices: Vec<u32>) -> (r: Request)
        ensures
            r@ == form_view(Method::Post, "/api/v1/polls/"@ + id@ + "/votes"@, no_fields().insert("choices"@, json_number_list(choices@))),
    {
        let mut form = Form::new();
        form.insert("choices", json_numbers(&choices));
        request::with_form(Method::Post, cat3("/api/v1/polls/", id.as_str(), "/votes"), form)
    }

    /// The request for the scheduled statuses.
    pub fn get_scheduled_statuses(&self, options: Option<&GetScheduledStatusesInputOptions>) -> (r: Request)
        ensures
            r@ == get_view(with_query("/api/v1/scheduled_statuses"@, bookmark_items(options))),
    {
        request::get(bookmark_query(options).render(String::from_str("/api/v1/scheduled_statuses")))
    }

    /// The request for a scheduled status.
    pub fn get_scheduled_status(&self, id: String) -> (r: Request)
        ensures
            r@ == get_view("/api/v1/scheduled_statuses/"@ + id@),
    {
        request::get(cat2("/api/v1/scheduled_statuses/", id.as_str()))
    }

    /// The request that moves a scheduled status to `scheduled_at` (sent in
    /// RFC 3339 when given).
    pub fn schedule_status(&self, id: String, scheduled_at: Option<UtcDateTime>) -> (r: Request)
        ensures
            r@ == form_view(Method::Put, "/api/v1/scheduled_statuses/"@ + id@, schedule_fields(instant_text(scheduled_at))),
    {
        let text = match &scheduled_at {
            Some(t) => Some(t.to_rfc3339()),
            None => None,
        };
        self.schedule_status_at(id, text)
    }

    /// The request that moves a scheduled status, its time given as the text
    /// to send.
    pub fn schedule_status_at(&self, id: String, scheduled_at: Option<String>) -> (r: Request)
        ensures
            r@ == form_view(Method::Put, "/api/v1/scheduled_statuses/"@ + id@, schedule_fields(text_of(scheduled_at))),
    {
        let mut form = Form::new();
        form.insert_opt_text("scheduled_at", &scheduled_at);
        request::with_form(Method::Put, cat2("/api/v1/scheduled_statuses/", id.as_str()), form)
    }

    /// The request that cancels a scheduled status.
    pub fn cancel_scheduled_status(&self, id: String) -> (r: Request)
        ensures
            r@ == form_view(Method::Delete, "/api/v1/scheduled_statuses/"@ + id@, no_fields()),
    {
        request::with_empty_form(Method::Delete, cat2("/api/v1/scheduled_statuses/", id.as_str()))
    }
}

} // verus!
