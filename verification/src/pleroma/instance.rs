//! Calls about searching, the instance, and emoji reactions.

use vstd::prelude::*;
use vstd::string::StringExecFns;
use crate::external::{url_encode, url_encoded};
use crate::options::{GetInstanceDirectoryInputOptions, Order, SearchInputOptions, SearchType, order_text, search_type_text};
use crate::pleroma::Pleroma;
use crate::pleroma::accounts::{limit_items, limit_query};
use crate::query::{Query, opt_item, with_query};
use crate::request::{self, Method, Request, form_view, get_view, no_fields};
use crate::text::{bool_of, cat2, num32_of, text_of};

verus! {

/// The query items of a search: the query and type first, then the given
/// options.
pub open spec fn search_items(q: Seq<char>, search_type: SearchType, options: Option<&SearchInputOptions>) -> Seq<Seq<char>> {
    seq!["q="@ + q, "type="@ + search_type_text(search_type)] + search_option_items(options)
}

/// The query items of a search's options.
pub open spec fn search_option_items(options: Option<&SearchInputOptions>) -> Seq<Seq<char>> {
    match options {
        Some(o) => opt_item("limit="@, num32_of(o.limit)) + opt_item("max_id="@, text_of(o.max_id)) + opt_item(
            "min_id="@,
            text_of(o.min_id),
        ) + opt_item("resolve="@, bool_of(o.resolve)) + opt_item("offset="@, num32_of(o.offset)) + opt_item(
            "following="@,
            bool_of(o.following),
        ) + opt_item("account_id="@, text_of(o.account_id)) + opt_item(
            "exclude_unreviewed="@,
            bool_of(o.exclude_unreviewed),
        ),
        None => Seq::empty(),
    }
}

/// The word of an optional order.
pub open spec fn order_of(o: Option<Order>) -> Option<Seq<char>> {
    match o {
        Some(x) => Some(order_text(x)),
        None => None,
    }
}

/// The query items of the profile directory.
pub open spec fn directory_items(options: Option<&GetInstanceDirectoryInputOptions>) -> Seq<Seq<char>> {
    match options {
        Some(o) => opt_item("limit="@, num32_of(o.limit)) + opt_item("offset="@, num32_of(o.offset)) + opt_item(
            "order="@,
            order_of(o.order),
        ) + opt_item("local="@, bool_of(o.local)),
        None => Seq::empty(),
    }
}

/// The path of the reaction `emoji` to status `id`, the emoji
/// percent-encoded.
pub open spec fn reaction_path(id: Seq<char>, emoji: Seq<char>) -> Seq<char> {
    "/api/v1/pleroma/statuses/"@ + id + "/reactions/"@ + url_encoded(emoji)
}

fn push_search_options(q: &mut Query, options: Option<&SearchInputOptions>)
    ensures
        final(q)@ == old(q)@ + search_option_items(options),
{
    match options {
        Some(o) => {
            let ghost q0 = q@;
            q.push_opt_u32("limit=", o.limit);
            q.push_opt_text("max_id=", &o.max_id);
            q.push_opt_text("min_id=", &o.min_id);
            q.push_opt_bool("resolve=", o.resolve);
            let ghost q1 = q@;
            assert(q1 =~= q0 + (opt_item("limit="@, num32_of(o.limit)) + opt_item("max_id="@, text_of(o.max_id)) + opt_item("min_id="@, text_of(o.min_id)) + opt_item("resolve="@, bool_of(o.resolve))));
            q.push_opt_u32("offset=", o.offset);
            q.push_opt_bool("following=", o.following);
            q.push_opt_text("account_id=", &o.account_id);
            q.push_opt_bool("exclude_unreviewed=", o.exclude_unreviewed);
            assert(q@ =~= q1 + (opt_item("offset="@, num32_of(o.offset)) + opt_item("following="@, bool_of(o.following)) + opt_item("account_id="@, text_of(o.account_id)) + opt_item("exclude_unreviewed="@, bool_of(o.exclude_unreviewed))));
            assert(q@ =~= old(q)@ + search_option_items(options));
        },
        None => {
            assert(q@ =~= old(q)@ + search_option_items(options));
        },
    }
}

fn reaction_path_of(id: &str, emoji: &str) -> (r: String)
    ensures
        r@ == reaction_path(id@, emoji@),
{
    let mut path = cat2("/api/v1/pleroma/statuses/", id);
    path.append("/reactions/");
    let encoded = url_encode(emoji);
    path.append(encoded.as_str());
    path
}

impl Pleroma {
    /// The request for a search.
    pub fn search(&self, q: String, search_type: &SearchType, options: Option<&SearchInputOptions>) -> (r: Request)
        ensures
            r@ == get_view(with_query("/api/v2/search"@, search_items(q@, *search_type, options))),
    {
        let mut query = Query::new();
        query.push_text("q=", q.as_str());
        query.push_text("type=", search_type.as_str());
        push_search_options(&mut query, options);
        assert(query@ =~= search_items(q@, *search_type, options));
        request::get(query.render(String::from_str("/api/v2/search")))
    }

    /// The request for the instance's information.
    pub fn get_instance(&self) -> (r: Request)
        ensures
            r@ == get_view("/api/v1/instance"@),
    {
        request::get(String::from_str("/api/v1/instance"))
    }

    /// The request for the instance's peers.
    pub fn get_instance_peers(&self) -> (r: Request)
        ensures
            r@ == get_view("/api/v1/instance/peers"@),
    {
        request::get(String::from_str("/api/v1/instance/peers"))
    }

    /// The request for the instance's weekly activity.
    pub fn get_instance_activity(&self) -> (r: Request)
        ensures
            r@ == get_view("/api/v1/instance/activity"@),
    {
        request::get(String::from_str("/api/v1/instance/activity"))
    }

    /// The request for trending tags.
    pub fn get_instance_trends(&self, limit: Option<u32>) -> (r: Request)
        ensures
            r@ == get_view(with_query("/api/v1/trends"@, limit_items(limit))),
    {
        request::get(limit_query(limit).render(String::from_str("/api/v1/trends")))
    }

    /// The request for the profile directory.
    pub fn get_instance_directory(&self, options: Option<&GetInstanceDirectoryInputOptions>) -> (r: Request)
        ensures
            r@ == get_view(with_query("/api/v1/directory"@, directory_items(options))),
    {
        let mut q = Query::new();
        match options {
            Some(o) => {
                q.push_opt_u32("limit=", o.limit);
                q.push_opt_u32("offset=", o.offset);
                match &o.order {
                    Some(ord) => q.push_text("order=", ord.as_str()),
                    None => {},
                }
                q.push_opt_bool("local=", o.local);
            },
            None => {},
        }
        assert(q@ =~= directory_items(options));
        request::get(q.render(String::from_str("/api/v1/directory")))
    }

    /// The request for the instance's custom emojis.
    pub fn get_instance_custom_emojis(&self) -> (r: Request)
        ensures
            r@ == get_view("/api/v1/custom_emojis"@),
    {
        request::get(String::from_str("/api/v1/custom_emojis"))
    }

    /// The request that reacts to a status with `emoji`.
    pub fn create_emoji_reaction(&self, id: String, emoji: String) -> (r: Request)
        ensures
            r@ == form_view(Method::Put, reaction_path(id@, emoji@), no_fields()),
    {
        request::with_empty_form(Method::Put, reaction_path_of(id.as_str(), emoji.as_str()))
    }

    /// The request that removes the reaction `emoji` from a status.
    pub fn delete_emoji_reaction(&self, id: String, emoji: String) -> (r: Request)
        ensures
            r@ == form_view(Method::Delete, reaction_path(id@, emoji@), no_fields()),
    {
        request::with_empty_form(Method::Delete, reaction_path_of(id.as_str(), emoji.as_str()))
    }

    /// The request for the reactions to a status.
    pub fn get_emoji_reactions(&self, id: String) -> (r: Request)
        ensures
            r@ == get_view("/api/v1/pleroma/statuses/"@ + id@ + "/reactions"@),
    {
        request::get(crate::text::cat3("/api/v1/pleroma/statuses/", id.as_str(), "/reactions"))
    }

    /// The request for the reaction `emoji` to a status.
    pub fn get_emoji_reaction(&self, id: String, emoji: String) -> (r: Request)
        ensures
            r@ == get_view(reaction_path(id@, emoji@)),
    {
        request::get(reaction_path_of(id.as_str(), emoji.as_str()))
    }
}

} // verus!
