use megalodon::form::Form;
use megalodon::options::{
    AccountFollowersInputOptions, AppInputOptions, FilterContext, FilterInputOptions,
    GetAccountStatusesInputOptions, GetInstanceDirectoryInputOptions, GetNotificationsInputOptions,
    GetPublicTimelineInputOptions, GetTagTimelineInputOptions, Order, PageInputOptions,
    PostStatusInputOptions, ReportInputOptions, SaveMarkersInputOptions, SearchAccountInputOptions,
    SearchInputOptions, SearchType, StatusVisibility, UpdateCredentialsInputOptions,
    UpdateMediaInputOptions, UploadMediaInputOptions, UtcDateTime,
};
use megalodon::pleroma::Pleroma;
use megalodon::request::{Body, Method, Part, Request};

fn client() -> Pleroma {
    Pleroma::new("https://pleroma.example".to_string(), Some("token".to_string()), None)
}

fn form_of(r: &Request) -> &Form {
    match &r.body {
        Body::Form(f) => f,
        other => panic!("expected a form body, got {:?}", other),
    }
}

fn field(r: &Request, name: &str) -> Option<String> {
    form_of(r).get(name).cloned()
}

fn parts_of(r: &Request) -> &Vec<Part> {
    match &r.body {
        Body::Multipart(p) => p,
        other => panic!("expected a multipart body, got {:?}", other),
    }
}

#[test]
fn new_keeps_its_arguments() {
    let p = Pleroma::new("https://a.example".to_string(), None, Some("agent".to_string()));
    assert_eq!(p.base_url(), "https://a.example");
    assert_eq!(p.access_token(), &None);
    assert_eq!(p.user_agent(), &Some("agent".to_string()));
}

#[test]
fn get_account_path() {
    let r = client().get_account("42".to_string());
    assert_eq!(r.method, Method::Get);
    assert_eq!(r.path, "/api/v1/accounts/42");
    assert!(matches!(r.body, Body::Empty));
}

#[test]
fn account_statuses_without_options_has_no_query() {
    let r = client().get_account_statuses("7".to_string(), None);
    assert_eq!(r.path, "/api/v1/accounts/7/statuses");
}

#[test]
fn account_statuses_query_in_order() {
    let o = GetAccountStatusesInputOptions {
        limit: Some(20),
        max_id: Some("a".to_string()),
        since_id: None,
        pinned: Some(true),
        exclude_replies: None,
        exclude_reblogs: Some(false),
        only_media: None,
    };
    let r = client().get_account_statuses("7".to_string(), Some(&o));
    assert_eq!(r.path, "/api/v1/accounts/7/statuses?limit=20&max_id=a&pinned=true&exclude_reblogs=false");
}

#[test]
fn empty_options_give_no_query() {
    let o = AccountFollowersInputOptions { limit: None, max_id: None, since_id: None };
    let r = client().get_account_followers("1".to_string(), Some(&o));
    assert_eq!(r.path, "/api/v1/accounts/1/followers");
    let o = AccountFollowersInputOptions { limit: Some(0), max_id: None, since_id: Some("s".to_string()) };
    let r = client().get_account_following("1".to_string(), Some(&o));
    assert_eq!(r.path, "/api/v1/accounts/1/following?limit=0&since_id=s");
}

#[test]
fn limit_extremes_in_decimal() {
    let r = client().get_follow_requests(Some(u32::MAX));
    assert_eq!(r.path, "/api/v1/follow_requests?limit=4294967295");
    let r = client().get_suggestions(Some(0));
    assert_eq!(r.path, "/api/v1/suggestions?limit=0");
    let r = client().get_instance_trends(None);
    assert_eq!(r.path, "/api/v1/trends");
}

#[test]
fn relationships_always_carry_question_mark() {
    let r = client().get_relationships(vec!["1".to_string(), "2".to_string()]);
    assert_eq!(r.path, "/api/v1/accounts/relationships?id[]=1&id[]=2");
    let r = client().get_relationships(vec![]);
    assert_eq!(r.path, "/api/v1/accounts/relationships?");
}

#[test]
fn search_account_starts_with_query() {
    let o = SearchAccountInputOptions {
        following: Some(true),
        resolve: None,
        limit: Some(5),
        max_id: None,
        since_id: None,
    };
    let r = client().search_account("bob".to_string(), Some(&o));
    assert_eq!(r.path, "/api/v1/accounts/search?q=bob&following=true&limit=5");
    let r = client().search_account("bob".to_string(), None);
    assert_eq!(r.path, "/api/v1/accounts/search?q=bob");
}

#[test]
fn search_items_in_order() {
    let o = SearchInputOptions {
        account_id: Some("9".to_string()),
        max_id: None,
        min_id: Some("m".to_string()),
        resolve: Some(true),
        limit: Some(3),
        offset: Some(10),
        following: Some(false),
        exclude_unreviewed: Some(true),
    };
    let r = client().search("cat".to_string(), &SearchType::Hashtags, Some(&o));
    assert_eq!(
        r.path,
        "/api/v2/search?q=cat&type=hashtags&limit=3&min_id=m&resolve=true&offset=10&following=false&account_id=9&exclude_unreviewed=true"
    );
    let r = client().search("x".to_string(), &SearchType::Accounts, None);
    assert_eq!(r.path, "/api/v2/search?q=x&type=accounts");
}

#[test]
fn page_listings() {
    let o = PageInputOptions { limit: Some(2), max_id: Some("x".to_string()), min_id: Some("y".to_string()) };
    assert_eq!(client().get_favourites(Some(&o)).path, "/api/v1/favourites?limit=2&max_id=x&min_id=y");
    assert_eq!(client().get_mutes(None).path, "/api/v1/mutes");
    assert_eq!(client().get_blocks(Some(&o)).path, "/api/v1/blocks?limit=2&max_id=x&min_id=y");
    assert_eq!(client().get_domain_blocks(None).path, "/api/v1/domain_blocks");
    assert_eq!(
        client().get_accounts_in_list("5".to_string(), Some(&o)).path,
        "/api/v1/lists/5/accounts?limit=2&max_id=x&min_id=y"
    );
}

#[test]
fn register_account_fields() {
    let r = client().register_account(
        "u".to_string(),
        "e@x".to_string(),
        "pw".to_string(),
        "true".to_string(),
        "en".to_string(),
        None,
    );
    assert_eq!(r.method, Method::Post);
    assert_eq!(r.path, "/api/v1/accounts");
    assert_eq!(form_of(&r).len(), 5);
    assert_eq!(field(&r, "email"), Some("e@x".to_string()));
    assert_eq!(field(&r, "reason"), None);
    let r = client().register_account(
        "u".to_string(),
        "e@x".to_string(),
        "pw".to_string(),
        "true".to_string(),
        "en".to_string(),
        Some("hi".to_string()),
    );
    assert_eq!(field(&r, "reason"), Some("hi".to_string()));
    assert_eq!(form_of(&r).len(), 6);
}

#[test]
fn update_credentials_fields() {
    let o = UpdateCredentialsInputOptions {
        discoverable: Some(true),
        bot: None,
        display_name: Some("Name".to_string()),
        note: None,
        avatar: None,
        header: None,
        locked: Some(false),
        source: Some("{\"privacy\":\"public\"}".to_string()),
        fields_attributes: None,
    };
    let r = client().update_credentials(Some(&o));
    assert_eq!(r.method, Method::Patch);
    assert_eq!(r.path, "/api/v1/accounts/update_credentials");
    assert_eq!(form_of(&r).len(), 4);
    assert_eq!(field(&r, "discoverable"), Some("true".to_string()));
    assert_eq!(field(&r, "locked"), Some("false".to_string()));
    assert_eq!(field(&r, "source"), Some("{\"privacy\":\"public\"}".to_string()));
    let r = client().update_credentials(None);
    assert_eq!(form_of(&r).len(), 0);
}

#[test]
fn oauth_token_requests() {
    let r = client().fetch_access_token("id".to_string(), "secret".to_string(), "code".to_string(), "urn:x".to_string());
    assert_eq!(r.path, "/oauth/token");
    assert_eq!(field(&r, "grant_type"), Some("authorization_code".to_string()));
    assert_eq!(field(&r, "code"), Some("code".to_string()));
    let r = client().refresh_access_token("id".to_string(), "secret".to_string(), "rt".to_string());
    assert_eq!(r.path, "/oauth/token");
    assert_eq!(field(&r, "refresh_token"), Some("rt".to_string()));
    assert_eq!(field(&r, "grant_type"), Some("refresh_token".to_string()));
    let r = client().revoke_access_token("id".to_string(), "secret".to_string(), "tok".to_string());
    assert_eq!(r.path, "/oauth/revoke");
    assert_eq!(field(&r, "token"), Some("tok".to_string()));
}

#[test]
fn create_app_defaults() {
    let o = AppInputOptions { scopes: None, redirect_uris: None, website: None };
    let r = client().create_app("app".to_string(), &o);
    assert_eq!(r.path, "/api/v1/apps");
    assert_eq!(field(&r, "scopes"), Some("read write follow".to_string()));
    assert_eq!(field(&r, "redirect_uris"), Some("urn:ietf:wg:oauth:2.0:oob".to_string()));
    assert_eq!(field(&r, "website"), None);
    let o = AppInputOptions {
        scopes: Some(vec!["read".to_string()]),
        redirect_uris: Some("https://app.example/cb".to_string()),
        website: Some("https://app.example".to_string()),
    };
    let r = client().create_app("app".to_string(), &o);
    assert_eq!(field(&r, "scopes"), Some("read".to_string()));
    assert_eq!(field(&r, "redirect_uris"), Some("https://app.example/cb".to_string()));
    assert_eq!(field(&r, "website"), Some("https://app.example".to_string()));
}

#[test]
fn mute_and_follow_flags() {
    let r = client().mute_account("3".to_string(), true);
    assert_eq!(r.path, "/api/v1/accounts/3/mute");
    assert_eq!(field(&r, "notifications"), Some("true".to_string()));
    let r = client().follow_account("3".to_string(), None);
    assert_eq!(form_of(&r).len(), 0);
    let o = megalodon::options::FollowAccountInputOptions { reblog: Some(false) };
    let r = client().follow_account("3".to_string(), Some(&o));
    assert_eq!(field(&r, "reblog"), Some("false".to_string()));
}

#[test]
fn unmute_account_path() {
    let r = client().unmute_account("9".to_string());
    assert_eq!(r.path, "/api/v1/accounts/9/unmute");
}

#[test]
fn post_actions_send_empty_forms() {
    let c = client();
    let cases: Vec<(Request, &str)> = vec![
        (c.subscribe_account("1".to_string()), "/api/v1/pleroma/accounts/1/subscribe"),
        (c.unsubscribe_account("1".to_string()), "/api/v1/pleroma/accounts/1/unsubscribe"),
        (c.unfollow_account("1".to_string()), "/api/v1/accounts/1/unfollow"),
        (c.block_account("1".to_string()), "/api/v1/accounts/1/block"),
        (c.unblock_account("1".to_string()), "/api/v1/accounts/1/unblock"),
        (c.pin_account("1".to_string()), "/api/v1/accounts/1/pin"),
        (c.unpin_account("1".to_string()), "/api/v1/accounts/1/unpin"),
        (c.accept_follow_request("1".to_string()), "/api/v1/follow_requests/1/authorize"),
        (c.reject_follow_request("1".to_string()), "/api/v1/follow_requests/1/reject"),
        (c.favourite_status("1".to_string()), "/api/v1/statuses/1/favourite"),
        (c.unfavourite_status("1".to_string()), "/api/v1/statuses/1/unfavourite"),
        (c.reblog_status("1".to_string()), "/api/v1/statuses/1/reblog"),
        (c.unreblog_status("1".to_string()), "/api/v1/statuses/1/unreblog"),
        (c.bookmark_status("1".to_string()), "/api/v1/statuses/1/bookmark"),
        (c.unbookmark_status("1".to_string()), "/api/v1/statuses/1/unbookmark"),
        (c.mute_status("1".to_string()), "/api/v1/statuses/1/mute"),
        (c.unmute_status("1".to_string()), "/api/v1/statuses/1/unmute"),
        (c.pin_status("1".to_string()), "/api/v1/statuses/1/pin"),
        (c.unpin_status("1".to_string()), "/api/v1/statuses/1/unpin"),
        (c.read_conversation("1".to_string()), "/api/v1/conversations/1/read"),
        (c.dismiss_notifications(), "/api/v1/notifications/clear"),
        (c.dismiss_notification("1".to_string()), "/api/v1/notifications/1/dismiss"),
    ];
    for (r, path) in cases {
        assert_eq!(r.method, Method::Post);
        assert_eq!(r.path, path);
        assert_eq!(form_of(&r).len(), 0);
    }
}

#[test]
fn deletes_send_empty_forms() {
    let c = client();
    let cases: Vec<(Request, &str)> = vec![
        (c.delete_filter("2".to_string()), "/api/v1/filters/2"),
        (c.delete_featured_tag("2".to_string()), "/api/v1/featured_tags/2"),
        (c.delete_status("2".to_string()), "/api/v1/statuses/2"),
        (c.cancel_scheduled_status("2".to_string()), "/api/v1/scheduled_statuses/2"),
        (c.delete_conversation("2".to_string()), "/api/v1/conversations/2"),
        (c.delete_list("2".to_string()), "/api/v1/lists/2"),
        (c.delete_push_subscription(), "/api/v1/push/subscription"),
    ];
    for (r, path) in cases {
        assert_eq!(r.method, Method::Delete);
        assert_eq!(r.path, path);
        assert_eq!(form_of(&r).len(), 0);
    }
}

#[test]
fn plain_gets() {
    let c = client();
    let cases: Vec<(Request, &str)> = vec![
        (c.verify_app_credentials(), "/api/v1/apps/verify_credentials"),
        (c.verify_account_credentials(), "/api/v1/accounts/verify_credentials"),
        (c.get_account_lists("4".to_string()), "/api/v1/accounts/4/lists"),
        (c.get_identity_proofs("4".to_string()), "/api/v1/accounts/4/identity_proofs"),
        (c.get_filters(), "/api/v1/filters"),
        (c.get_filter("4".to_string()), "/api/v1/filters/4"),
        (c.get_featured_tags(), "/api/v1/featured_tags"),
        (c.get_suggested_tags(), "/api/v1/featured_tags/suggestions"),
        (c.get_preferences(), "/api/v1/preferences"),
        (c.get_status("4".to_string()), "/api/v1/statuses/4"),
        (c.get_status_reblogged_by("4".to_string()), "/api/v1/statuses/4/reblogged_by"),
        (c.get_status_favourited_by("4".to_string()), "/api/v1/statuses/4/favourited_by"),
        (c.get_poll("4".to_string()), "/api/v1/polls/4"),
        (c.get_scheduled_status("4".to_string()), "/api/v1/scheduled_statuses/4"),
        (c.get_lists(), "/api/v1/lists"),
        (c.get_list("4".to_string()), "/api/v1/lists/4"),
        (c.get_notification("4".to_string()), "/api/v1/notifications/4"),
        (c.get_push_subscription(), "/api/v1/push/subscription"),
        (c.get_instance(), "/api/v1/instance"),
        (c.get_instance_peers(), "/api/v1/instance/peers"),
        (c.get_instance_activity(), "/api/v1/instance/activity"),
        (c.get_instance_custom_emojis(), "/api/v1/custom_emojis"),
        (c.get_emoji_reactions("4".to_string()), "/api/v1/pleroma/statuses/4/reactions"),
        (c.get_bookmarks(None), "/api/v1/bookmarks"),
        (c.get_endorsements(None), "/api/v1/endorsements"),
        (c.get_scheduled_statuses(None), "/api/v1/scheduled_statuses"),
        (c.get_conversation_timeline(None), "/api/v1/conversations"),
        (c.get_list_timeline("4".to_string(), None), "/api/v1/timelines/list/4"),
    ];
    for (r, path) in cases {
        assert_eq!(r.method, Method::Get);
        assert_eq!(r.path, path);
        assert!(matches!(r.body, Body::Empty));
    }
}

#[test]
fn domain_blocks_carry_the_domain() {
    let r = client().block_domain("bad.example".to_string());
    assert_eq!(r.method, Method::Post);
    assert_eq!(field(&r, "domain"), Some("bad.example".to_string()));
    let r = client().unblock_domain("bad.example".to_string());
    assert_eq!(r.method, Method::Delete);
    assert_eq!(r.path, "/api/v1/domain_blocks");
    assert_eq!(field(&r, "domain"), Some("bad.example".to_string()));
}

#[test]
fn filter_context_as_json() {
    let o = FilterInputOptions { irreversible: Some(true), whole_word: None, expires_in: Some(u64::MAX) };
    let r = client().create_filter("spoiler".to_string(), vec![FilterContext::Home, FilterContext::Public], Some(&o));
    assert_eq!(r.path, "/api/v1/filters");
    assert_eq!(field(&r, "context"), Some("[\"home\",\"public\"]".to_string()));
    assert_eq!(field(&r, "phrase"), Some("spoiler".to_string()));
    assert_eq!(field(&r, "irreversible"), Some("true".to_string()));
    assert_eq!(field(&r, "whole_word"), None);
    assert_eq!(field(&r, "expires_in"), Some("18446744073709551615".to_string()));
    let r = client().update_filter("8".to_string(), "p".to_string(), vec![], None);
    assert_eq!(r.method, Method::Put);
    assert_eq!(r.path, "/api/v1/filters/8");
    assert_eq!(field(&r, "context"), Some("[]".to_string()));
    assert_eq!(form_of(&r).len(), 2);
    let r = client().create_filter(
        "p".to_string(),
        vec![FilterContext::Notifications, FilterContext::Thread, FilterContext::Account],
        None,
    );
    assert_eq!(field(&r, "context"), Some("[\"notifications\",\"thread\",\"account\"]".to_string()));
}

#[test]
fn report_status_ids_as_json() {
    let o = ReportInputOptions { status_ids: Some(vec!["1".to_string(), "a\"b".to_string()]), forward: Some(true) };
    let r = client().report("acc".to_string(), "spam".to_string(), Some(&o));
    assert_eq!(r.path, "/api/v1/reports");
    assert_eq!(field(&r, "status_ids"), Some("[\"1\",\"a\\\"b\"]".to_string()));
    assert_eq!(field(&r, "forward"), Some("true".to_string()));
    assert_eq!(field(&r, "comment"), Some("spam".to_string()));
}

#[test]
fn vote_choices_as_json() {
    let r = client().vote_poll("p1".to_string(), vec![0, 2, 4294967295]);
    assert_eq!(r.path, "/api/v1/polls/p1/votes");
    assert_eq!(field(&r, "choices"), Some("[0,2,4294967295]".to_string()));
    let r = client().vote_poll("p1".to_string(), vec![]);
    assert_eq!(field(&r, "choices"), Some("[]".to_string()));
}

#[test]
fn post_status_fields() {
    let o = PostStatusInputOptions {
        media_ids: Some(vec!["m1".to_string()]),
        poll: None,
        in_reply_to_id: Some("r".to_string()),
        sensitive: Some(true),
        spoiler_text: None,
        visibility: Some(StatusVisibility::Unlisted),
        scheduled_at: UtcDateTime::from_timestamp(1431648000, 0),
        language: Some("en".to_string()),
    };
    let r = client().post_status("hello".to_string(), Some(&o));
    assert_eq!(r.path, "/api/v1/statuses");
    assert_eq!(field(&r, "status"), Some("hello".to_string()));
    assert_eq!(field(&r, "media_ids"), Some("[\"m1\"]".to_string()));
    assert_eq!(field(&r, "visibility"), Some("unlisted".to_string()));
    assert_eq!(field(&r, "scheduled_at"), Some("2015-05-15T00:00:00+00:00".to_string()));
    assert_eq!(field(&r, "sensitive"), Some("true".to_string()));
    assert_eq!(field(&r, "spoiler_text"), None);
    assert_eq!(form_of(&r).len(), 7);
    let r = client().post_status("only".to_string(), None);
    assert_eq!(form_of(&r).len(), 1);
}

#[test]
fn post_status_at_sends_the_given_time() {
    let r = client().post_status_at("s".to_string(), None, Some("2020-01-01T00:00:00Z".to_string()));
    assert_eq!(field(&r, "scheduled_at"), None);
    let o = PostStatusInputOptions {
        media_ids: None,
        poll: Some("{\"options\":[\"a\"]}".to_string()),
        in_reply_to_id: None,
        sensitive: None,
        spoiler_text: None,
        visibility: Some(StatusVisibility::Direct),
        scheduled_at: None,
        language: None,
    };
    let r = client().post_status_at("s".to_string(), Some(&o), Some("2020-01-01T00:00:00Z".to_string()));
    assert_eq!(field(&r, "scheduled_at"), Some("2020-01-01T00:00:00Z".to_string()));
    assert_eq!(field(&r, "poll"), Some("{\"options\":[\"a\"]}".to_string()));
    assert_eq!(field(&r, "visibility"), Some("direct".to_string()));
}

#[test]
fn schedule_status_in_rfc3339() {
    let t = UtcDateTime::from_timestamp(1431648000, 500_000_000).unwrap();
    let r = client().schedule_status("s1".to_string(), Some(t));
    assert_eq!(r.method, Method::Put);
    assert_eq!(r.path, "/api/v1/scheduled_statuses/s1");
    assert_eq!(field(&r, "scheduled_at"), Some("2015-05-15T00:00:00.500+00:00".to_string()));
    let r = client().schedule_status("s1".to_string(), None);
    assert_eq!(form_of(&r).len(), 0);
    let r = client().schedule_status_at("s1".to_string(), Some("x".to_string()));
    assert_eq!(field(&r, "scheduled_at"), Some("x".to_string()));
}

#[test]
fn instants_out_of_range_are_refused() {
    assert!(UtcDateTime::from_timestamp(0, 1_000_000_000).is_none());
    assert!(UtcDateTime::from_timestamp(59, 2_000_000_000).is_none());
    assert!(UtcDateTime::from_timestamp(-2, 1_000_000_000).is_none());
    assert!(UtcDateTime::from_timestamp(8_210_266_876_800, 0).is_none());
    assert!(UtcDateTime::from_timestamp(-8_334_601_228_801, 0).is_none());
    assert!(UtcDateTime::from_timestamp(i64::MAX, 0).is_none());
    assert!(UtcDateTime::from_timestamp(i64::MIN, 0).is_none());
    let t = UtcDateTime::from_timestamp(-8_334_601_228_800, 999_999_999).unwrap();
    assert_eq!(t.secs(), -8_334_601_228_800);
    assert_eq!(t.nanos(), 999_999_999);
    let leap = UtcDateTime::from_timestamp(-1, 1_500_000_000).unwrap();
    assert_eq!(leap.nanos(), 1_500_000_000);
    assert_eq!(UtcDateTime::from_timestamp(0, 0).unwrap().to_rfc3339(), "1970-01-01T00:00:00+00:00");
}

#[test]
fn upload_media_names_file_by_digest() {
    let o = UploadMediaInputOptions { description: Some("a cat".to_string()), focus: None };
    let r = client().upload_media("abc".to_string(), Some(&o));
    assert_eq!(r.method, Method::Post);
    assert_eq!(r.path, "/api/v1/media");
    let parts = parts_of(&r);
    assert_eq!(parts.len(), 2);
    match &parts[0] {
        Part::File { name, path, file_name } => {
            assert_eq!(name, "file");
            assert_eq!(path, "abc");
            assert_eq!(file_name, "a9993e364706816aba3e25717850c26c9cd0d89d");
        },
        other => panic!("unexpected part {:?}", other),
    }
    match &parts[1] {
        Part::Text { name, value } => {
            assert_eq!(name, "description");
            assert_eq!(value, "a cat");
        },
        other => panic!("unexpected part {:?}", other),
    }
    let r = client().upload_media_as("abc".to_string(), "given".to_string(), None);
    assert_eq!(parts_of(&r).len(), 1);
}

#[test]
fn update_media_puts_file_last() {
    let o = UpdateMediaInputOptions {
        file_path: Some("abc".to_string()),
        description: None,
        focus: Some("0.5,0.5".to_string()),
    };
    let r = client().update_media("m".to_string(), Some(&o));
    assert_eq!(r.method, Method::Put);
    assert_eq!(r.path, "/api/v1/media/m");
    let parts = parts_of(&r);
    assert_eq!(parts.len(), 2);
    assert!(matches!(&parts[0], Part::Text { name, value } if name == "focus" && value == "0.5,0.5"));
    assert!(matches!(&parts[1], Part::File { file_name, .. } if file_name == "a9993e364706816aba3e25717850c26c9cd0d89d"));
    let r = client().update_media("m".to_string(), None);
    assert_eq!(parts_of(&r).len(), 0);
    let r = client().update_media_as("m".to_string(), Some(&o), "n".to_string());
    assert!(matches!(&parts_of(&r)[1], Part::File { file_name, .. } if file_name == "n"));
}

#[test]
fn status_context_sends_since_id() {
    let o = AccountFollowersInputOptions { limit: None, max_id: None, since_id: Some("5".to_string()) };
    let r = client().get_status_context("s".to_string(), Some(&o));
    assert_eq!(r.path, "/api/v1/statuses/s/context?since_id=5");
}

#[test]
fn public_and_local_timelines() {
    let r = client().get_public_timeline(None);
    assert_eq!(r.path, "/api/v1/timelines/public?local=false");
    let o = GetPublicTimelineInputOptions {
        only_media: Some(true),
        limit: Some(1),
        max_id: None,
        since_id: None,
        min_id: Some("m".to_string()),
    };
    let r = client().get_local_timeline(Some(&o));
    assert_eq!(r.path, "/api/v1/timelines/public?local=true&only_media=true&limit=1&min_id=m");
}

#[test]
fn tag_and_home_timelines() {
    let o = GetTagTimelineInputOptions {
        local: Some(true),
        only_media: None,
        limit: Some(40),
        max_id: None,
        since_id: Some("s".to_string()),
        min_id: None,
    };
    let r = client().get_tag_timeline("rust".to_string(), Some(&o));
    assert_eq!(r.path, "/api/v1/timelines/tag/rust?limit=40&since_id=s&local=true");
    let r = client().get_home_timeline(Some(&o));
    assert_eq!(r.path, "/api/v1/timelines/home?limit=40&since_id=s&local=true");
    assert_eq!(client().get_home_timeline(None).path, "/api/v1/timelines/home");
}

#[test]
fn lists_and_markers() {
    let r = client().create_list("friends".to_string());
    assert_eq!(r.path, "/api/v1/lists");
    assert_eq!(field(&r, "title"), Some("friends".to_string()));
    let r = client().update_list("3".to_string(), "t".to_string());
    assert_eq!(r.method, Method::Put);
    assert_eq!(r.path, "/api/v1/lists/3");
    let r = client().add_accounts_to_list("3".to_string(), vec!["a".to_string(), "b".to_string()]);
    assert_eq!(r.method, Method::Post);
    assert_eq!(field(&r, "account_ids"), Some("[\"a\",\"b\"]".to_string()));
    let r = client().delete_accounts_from_list("3".to_string(), vec!["a".to_string()]);
    assert_eq!(r.method, Method::Delete);
    assert_eq!(r.path, "/api/v1/lists/3/accounts");
    let r = client().get_markers(vec!["home".to_string(), "notifications".to_string()]);
    assert_eq!(r.path, "/api/v1/markers?timeline=[\"home\",\"notifications\"]");
    let o = SaveMarkersInputOptions { home: Some("{\"last_read_id\":\"1\"}".to_string()), notifications: None };
    let r = client().save_markers(Some(&o));
    assert_eq!(r.path, "/api/v1/markers");
    assert_eq!(field(&r, "home"), Some("{\"last_read_id\":\"1\"}".to_string()));
    assert_eq!(form_of(&r).len(), 1);
}

#[test]
fn notifications_query() {
    let o = GetNotificationsInputOptions {
        limit: Some(15),
        max_id: None,
        since_id: None,
        min_id: None,
        exclude_types: Some(vec!["follow".to_string(), "mention".to_string()]),
        account_id: Some("7".to_string()),
    };
    let r = client().get_notifications(Some(&o));
    assert_eq!(r.path, "/api/v1/notifications?limit=15&exclude_types=[\"follow\",\"mention\"]&account_id=7");
}

#[test]
fn push_subscription_fields() {
    let r = client().subscribe_push_notification("{\"endpoint\":\"e\"}".to_string(), None);
    assert_eq!(r.path, "/api/v1/push/subscription");
    assert_eq!(form_of(&r).len(), 1);
    let r = client().update_push_subscription(Some("{}".to_string()));
    assert_eq!(r.method, Method::Put);
    assert_eq!(field(&r, "data"), Some("{}".to_string()));
}

#[test]
fn directory_query() {
    let o = GetInstanceDirectoryInputOptions { limit: Some(10), offset: Some(20), order: Some(Order::New), local: Some(false) };
    let r = client().get_instance_directory(Some(&o));
    assert_eq!(r.path, "/api/v1/directory?limit=10&offset=20&order=new&local=false");
    let o = GetInstanceDirectoryInputOptions { limit: None, offset: None, order: Some(Order::Active), local: None };
    assert_eq!(client().get_instance_directory(Some(&o)).path, "/api/v1/directory?order=active");
}

#[test]
fn emoji_reactions_encode_the_emoji() {
    let r = client().create_emoji_reaction("9".to_string(), "\u{1F44D}".to_string());
    assert_eq!(r.method, Method::Put);
    assert_eq!(r.path, "/api/v1/pleroma/statuses/9/reactions/%F0%9F%91%8D");
    let r = client().delete_emoji_reaction("9".to_string(), "a/b c".to_string());
    assert_eq!(r.method, Method::Delete);
    assert_eq!(r.path, "/api/v1/pleroma/statuses/9/reactions/a%2Fb%20c");
    let r = client().get_emoji_reaction("9".to_string(), "blob_cat-1.x~".to_string());
    assert_eq!(r.method, Method::Get);
    assert_eq!(r.path, "/api/v1/pleroma/statuses/9/reactions/blob_cat-1.x~");
}

#[test]
fn streaming_connections() {
    let c = client();
    let s = c.user_streaming("wss://pleroma.example".to_string());
    assert_eq!(s.url, "wss://pleroma.example/api/v1/streaming");
    assert_eq!(s.stream, "user");
    assert!(s.params.is_empty());
    assert_eq!(s.access_token, Some("token".to_string()));
    assert_eq!(c.public_streaming("w".to_string()).stream, "public");
    assert_eq!(c.local_streaming("w".to_string()).stream, "public:local");
    assert_eq!(c.direct_streaming("w".to_string()).stream, "direct");
    let s = c.tag_streaming("w".to_string(), "rust".to_string());
    assert_eq!(s.stream, "hashtag");
    assert_eq!(s.params, vec!["tag=rust".to_string()]);
    let s = c.list_streaming("w".to_string(), "12".to_string());
    assert_eq!(s.stream, "list");
    assert_eq!(s.params, vec!["list=12".to_string()]);
}
