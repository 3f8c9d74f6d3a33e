use megalodon::entities as shared;
use megalodon::error::Error;
use megalodon::firefish::entities::{Instance, InstanceConfig, MediaAttachments, Polls, Stats, Statuses, URLs};
use megalodon::form::Form;
use megalodon::options::{AppData, AppInputOptions, UtcDateTime};
use megalodon::pleroma::Pleroma;
use megalodon::pleroma::statuses::file_name_of;
use megalodon::query::Query;
use megalodon::text::{bool_str, cat2, cat3, decimal_string};

fn firefish_instance() -> Instance {
    Instance {
        uri: "ff.example".to_string(),
        title: "Firefish".to_string(),
        short_description: "short".to_string(),
        description: "long".to_string(),
        email: "admin@ff.example".to_string(),
        version: "1.0".to_string(),
        thumbnail: None,
        urls: URLs { streaming_api: "wss://ff.example".to_string() },
        stats: Stats { user_count: 3, status_count: 40_000_000_000, domain_count: 7 },
        languages: vec!["en".to_string(), "ja".to_string()],
        registrations: true,
        approval_required: false,
        invites_enabled: true,
        max_toot_chars: Some(3000),
        configuration: InstanceConfig {
            statuses: Statuses { max_characters: 3000, max_media_attachments: 16, characters_reserved_per_url: 23 },
            media_attachments: MediaAttachments {
                supported_mime_types: vec!["image/png".to_string()],
                image_size_limit: 1,
                image_matrix_limit: 2,
                video_size_limit: 3,
                video_frame_rate_limit: 4,
                video_matrix_limit: 5,
            },
            polls: Polls { max_options: 10, max_characters_per_option: 50, min_expiration: 300, max_expiration: 86400 },
        },
        contact_account: shared::Account {
            id: "a1".to_string(),
            username: "admin".to_string(),
            acct: "admin".to_string(),
            display_name: "Admin".to_string(),
        },
    }
}

#[test]
fn instance_converts_field_by_field() {
    let i: shared::Instance = firefish_instance().into();
    assert_eq!(i.uri, "ff.example");
    assert_eq!(i.title, "Firefish");
    assert_eq!(i.description, "long");
    assert_eq!(i.email, "admin@ff.example");
    assert_eq!(i.version, "1.0");
    assert_eq!(i.thumbnail, None);
    assert_eq!(i.urls.as_ref().unwrap().streaming_api, "wss://ff.example");
    assert_eq!(i.stats.user_count, 3);
    assert_eq!(i.stats.status_count, 40_000_000_000);
    assert_eq!(i.stats.domain_count, 7);
    assert_eq!(i.languages, vec!["en".to_string(), "ja".to_string()]);
    assert!(i.registrations);
    assert!(!i.approval_required);
    assert_eq!(i.invites_enabled, Some(true));
    assert_eq!(i.configuration.statuses.max_characters, 3000);
    assert_eq!(i.configuration.statuses.max_media_attachments, Some(16));
    assert_eq!(i.configuration.statuses.characters_reserved_per_url, Some(23));
    let polls = i.configuration.polls.as_ref().unwrap();
    assert_eq!(polls.max_options, 10);
    assert_eq!(polls.max_characters_per_option, 50);
    assert_eq!(polls.min_expiration, 300);
    assert_eq!(polls.max_expiration, 86400);
    assert_eq!(i.contact_account.as_ref().unwrap().username, "admin");
    assert!(i.rules.is_none());
}

#[test]
fn parts_convert_on_their_own() {
    let u: shared::URLs = URLs { streaming_api: "s".to_string() }.into();
    assert_eq!(u.streaming_api, "s");
    let s: shared::Stats = Stats { user_count: 0, status_count: u64::MAX, domain_count: u32::MAX }.into();
    assert_eq!(s.status_count, u64::MAX);
    assert_eq!(s.domain_count, u32::MAX);
    let st: shared::Statuses = Statuses { max_characters: 1, max_media_attachments: 0, characters_reserved_per_url: 2 }.into();
    assert_eq!(st.max_media_attachments, Some(0));
    let p: shared::Polls = Polls { max_options: 1, max_characters_per_option: 2, min_expiration: 3, max_expiration: 4 }.into();
    assert_eq!((p.max_options, p.max_characters_per_option, p.min_expiration, p.max_expiration), (1, 2, 3, 4));
}

#[test]
fn decimal_rendering() {
    assert_eq!(decimal_string(0), "0");
    assert_eq!(decimal_string(7), "7");
    assert_eq!(decimal_string(10), "10");
    assert_eq!(decimal_string(1234567890), "1234567890");
    assert_eq!(decimal_string(u64::MAX), "18446744073709551615");
    for n in [0u64, 9, 99, 100, 65535, 4294967296] {
        assert_eq!(decimal_string(n).parse::<u64>().unwrap(), n);
    }
    assert_eq!(bool_str(true), "true");
    assert_eq!(bool_str(false), "false");
    assert_eq!(cat2("ab", "cd"), "abcd");
    assert_eq!(cat3("a", "", "c"), "ac");
}

#[test]
fn form_replaces_values() {
    let mut f = Form::new();
    assert_eq!(f.len(), 0);
    assert_eq!(f.get("a"), None);
    f.insert("a", "1".to_string());
    f.insert("b", "2".to_string());
    f.insert("a", "3".to_string());
    assert_eq!(f.len(), 2);
    assert_eq!(f.get("a"), Some(&"3".to_string()));
    assert_eq!(f.get("b"), Some(&"2".to_string()));
    assert_eq!(f.entries(), &vec![("a".to_string(), "3".to_string()), ("b".to_string(), "2".to_string())]);
    f.insert_opt_text("c", &None);
    f.insert_opt_bool("d", Some(false));
    f.insert_opt_num("e", Some(12));
    assert_eq!(f.get("c"), None);
    assert_eq!(f.get("d"), Some(&"false".to_string()));
    assert_eq!(f.get("e"), Some(&"12".to_string()));
    assert_eq!(f.len(), 4);
}

#[test]
fn query_rendering() {
    let q = Query::new();
    assert_eq!(q.render("/p".to_string()), "/p");
    let mut q = Query::new();
    q.push_text("a=", "1");
    assert_eq!(q.render("/p".to_string()), "/p?a=1");
    q.push_num("b=", 2);
    q.push_bool("c=", true);
    q.push_opt_text("d=", &None);
    q.push_opt_u32("e=", Some(5));
    q.push_opt_num("f=", None);
    q.push_opt_bool("g=", Some(false));
    assert_eq!(q.len(), 5);
    assert_eq!(q.joined("&"), "a=1&b=2&c=true&e=5&g=false");
    assert_eq!(q.render("/p".to_string()), "/p?a=1&b=2&c=true&e=5&g=false");
}

#[test]
fn media_file_name_is_forty_hex_digits() {
    let name = file_name_of("/tmp/picture.png");
    assert_eq!(name.len(), 40);
    assert!(name.chars().all(|c| c.is_ascii_digit() || ('a'..='f').contains(&c)));
    assert_eq!(file_name_of("abc"), "a9993e364706816aba3e25717850c26c9cd0d89d");
    assert_eq!(file_name_of(""), "da39a3ee5e6b4b0d3255bfef95601890afd80709");
}

#[test]
fn auth_url_for_valid_urls() {
    let p = Pleroma::new("https://pleroma.example".to_string(), None, None);
    let url = p
        .generate_auth_url(
            "cid".to_string(),
            "secret".to_string(),
            vec!["read".to_string(), "write".to_string()],
            "https://app.example/cb".to_string(),
        )
        .unwrap();
    assert!(url.starts_with("https://pleroma.example/oauth/authorize?"));
    assert!(url.contains("response_type=code"));
    assert!(url.contains("client_id=cid"));
    assert!(url.contains("scope=read+write"));
    assert!(url.contains("redirect_uri=https%3A%2F%2Fapp.example%2Fcb"));
    assert!(url.contains("state="));
}

fn without_state(url: &str) -> String {
    let (head, query) = url.split_once('?').unwrap();
    let kept: Vec<&str> = query.split('&').filter(|p| !p.starts_with("state=")).collect();
    format!("{}?{}", head, kept.join("&"))
}

#[test]
fn auth_urls_differ_only_in_state() {
    let p = Pleroma::new("https://pleroma.example".to_string(), None, None);
    let make = || {
        p.generate_auth_url("cid".to_string(), "secret".to_string(), vec!["read".to_string()], "https://app.example/cb".to_string())
            .unwrap()
    };
    let (u1, u2) = (make(), make());
    assert_ne!(u1, u2);
    assert_eq!(without_state(&u1), without_state(&u2));
    assert!(!u1.contains("secret"));
    assert!(!u1.contains("oauth/token"));
}

#[test]
fn auth_url_refuses_bad_urls() {
    let p = Pleroma::new("not a url".to_string(), None, None);
    let r = p.generate_auth_url("c".to_string(), "s".to_string(), vec![], "https://app.example/cb".to_string());
    assert!(matches!(r, Err(Error::UrlParse(_))));
    let p = Pleroma::new("https://pleroma.example".to_string(), None, None);
    let r = p.generate_auth_url("c".to_string(), "s".to_string(), vec![], "relative/path".to_string());
    assert!(matches!(r, Err(Error::UrlParse(_))));
}

#[test]
fn register_app_adds_the_url() {
    let p = Pleroma::new("https://pleroma.example".to_string(), None, None);
    let app = AppData {
        id: "1".to_string(),
        name: "app".to_string(),
        website: None,
        redirect_uri: "urn:ietf:wg:oauth:2.0:oob".to_string(),
        client_id: "cid".to_string(),
        client_secret: "cs".to_string(),
        url: None,
    };
    let o = AppInputOptions { scopes: None, redirect_uris: None, website: None };
    let done = p.register_app(app.clone(), &o).unwrap();
    assert_eq!(done.client_id, "cid");
    assert_eq!(done.redirect_uri, "urn:ietf:wg:oauth:2.0:oob");
    let url = done.url.unwrap();
    assert!(url.contains("scope=read+write+follow"));
    assert!(url.contains("client_id=cid"));
    let mut bad = app;
    bad.redirect_uri = "no scheme".to_string();
    assert!(matches!(p.register_app(bad, &o), Err(Error::UrlParse(_))));
}

#[test]
fn app_scopes_default() {
    let o = AppInputOptions { scopes: None, redirect_uris: None, website: None };
    assert_eq!(Pleroma::app_scopes(&o), vec!["read".to_string(), "write".to_string(), "follow".to_string()]);
    let o = AppInputOptions { scopes: Some(vec![]), redirect_uris: None, website: None };
    assert!(Pleroma::app_scopes(&o).is_empty());
}

#[test]
fn json_escapes_as_serde_json_does() {
    let p = Pleroma::new("https://pleroma.example".to_string(), None, None);
    let r = p.add_accounts_to_list(
        "l".to_string(),
        vec!["a\nb".to_string(), "\u{1}".to_string(), "\\".to_string(), "\u{e9}/".to_string(), "\t\r\u{8}\u{c}\"".to_string()],
    );
    let f = match &r.body {
        megalodon::request::Body::Form(f) => f,
        _ => panic!("expected a form"),
    };
    assert_eq!(
        f.get("account_ids").unwrap(),
        "[\"a\\nb\",\"\\u0001\",\"\\\\\",\"\u{e9}/\",\"\\t\\r\\b\\f\\\"\"]"
    );
}

#[test]
fn url_encoding_of_non_ascii() {
    let p = Pleroma::new("https://pleroma.example".to_string(), None, None);
    let r = p.get_emoji_reaction("1".to_string(), "\u{e9}~ ?#&".to_string());
    assert_eq!(r.path, "/api/v1/pleroma/statuses/1/reactions/%C3%A9~%20%3F%23%26");
    let r = p.get_emoji_reaction("1".to_string(), "".to_string());
    assert_eq!(r.path, "/api/v1/pleroma/statuses/1/reactions/");
}

#[test]
fn rfc3339_at_the_ends_of_the_range() {
    let late = UtcDateTime::from_timestamp(8_210_266_876_799, 999_999_999).unwrap().to_rfc3339();
    assert_eq!(late, "+262142-12-31T23:59:59.999999999+00:00");
    let early = UtcDateTime::from_timestamp(-8_334_601_228_800, 0).unwrap().to_rfc3339();
    assert_eq!(early, "-262143-01-01T00:00:00+00:00");
    let leap = UtcDateTime::from_timestamp(1_483_228_799, 1_000_000_000).unwrap().to_rfc3339();
    assert_eq!(leap, "2016-12-31T23:59:60+00:00");
    assert_eq!(UtcDateTime::from_timestamp(1, 1_000).unwrap().to_rfc3339(), "1970-01-01T00:00:01.000001+00:00");
}
