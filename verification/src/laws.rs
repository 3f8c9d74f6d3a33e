//! Properties of the encodings and builders that hold for every input.

use vstd::prelude::*;
use vstd::utf8::{encode_utf8, is_ascii_chars, is_ascii_chars_encode_utf8};
use crate::external::{authorize_url_text, hex_digit_lower, hex_digit_upper, hex_lower, is_unreserved, json_escaped, json_string, percent_encode_byte, percent_encoded, url_encoded};
use crate::query::{join, with_query};

verus! {

/// Characters that may stand in a percent-encoded text: ASCII letters,
/// digits, `-`, `.`, `_`, `~` and `%`.
pub open spec fn is_url_safe_char(c: char) -> bool {
    let u = c as u32;
    ||| 48 <= u <= 57
    ||| 65 <= u <= 90
    ||| 97 <= u <= 122
    ||| u == 45
    ||| u == 46
    ||| u == 95
    ||| u == 126
    ||| u == 37
}

/// Lowercase hexadecimal digit characters.
pub open spec fn is_lower_hex_char(c: char) -> bool {
    let u = c as u32;
    ||| 48 <= u <= 57
    ||| 97 <= u <= 102
}

/// ASCII characters that percent-encoding leaves as they are.
pub open spec fn is_unreserved_char(c: char) -> bool {
    &&& (c as u32) < 128
    &&& is_unreserved((c as u32) as u8)
}

proof fn lemma_hex_upper_safe(d: u8)
    requires
        d < 16,
    ensures
        is_url_safe_char(hex_digit_upper(d)),
{
    if d < 10 {
        assert(((48 + d) as char) as u32 == 48 + d);
    } else {
        assert(((55 + d) as char) as u32 == 55 + d);
    }
}

proof fn lemma_hex_lower_char(d: u8)
    requires
        d < 16,
    ensures
        is_lower_hex_char(hex_digit_lower(d)),
{
    if d < 10 {
        assert(((48 + d) as char) as u32 == 48 + d);
    } else {
        assert(((87 + d) as char) as u32 == 87 + d);
    }
}

proof fn lemma_percent_encode_byte_safe(b: u8)
    ensures
        forall|i: int| 0 <= i < percent_encode_byte(b).len() ==> is_url_safe_char(#[trigger] percent_encode_byte(b)[i]),
{
    if is_unreserved(b) {
        assert((b as char) as u32 == b);
    } else {
        lemma_hex_upper_safe(b / 16);
        lemma_hex_upper_safe(b % 16);
        assert(('%' as u32) == 37);
        let e = percent_encode_byte(b);
        assert(e[0] == '%' && e[1] == hex_digit_upper(b / 16) && e[2] == hex_digit_upper(b % 16));
    }
}

/// Percent-encoding writes only ASCII letters, digits, `-`, `.`, `_`, `~`
/// and `%`: an encoded text holds no '/', '?', '#' or '&', so it stays
/// within one path segment.
pub proof fn lemma_url_encoded_safe(s: Seq<char>)
    ensures
        forall|i: int| 0 <= i < url_encoded(s).len() ==> is_url_safe_char(#[trigger] url_encoded(s)[i]),
{
    lemma_percent_encoded_safe(encode_utf8(s));
}

proof fn lemma_percent_encoded_safe(bytes: Seq<u8>)
    ensures
        forall|i: int| 0 <= i < percent_encoded(bytes).len() ==> is_url_safe_char(#[trigger] percent_encoded(bytes)[i]),
    decreases bytes.len(),
{
    if bytes.len() > 0 {
        lemma_percent_encode_byte_safe(bytes[0]);
        lemma_percent_encoded_safe(bytes.drop_first());
        let head = percent_encode_byte(bytes[0]);
        let tail = percent_encoded(bytes.drop_first());
        assert forall|i: int| 0 <= i < percent_encoded(bytes).len() implies is_url_safe_char(#[trigger] percent_encoded(bytes)[i]) by {
            if i < head.len() {
                assert(percent_encoded(bytes)[i] == head[i]);
            } else {
                assert(percent_encoded(bytes)[i] == tail[i - head.len()]);
            }
        }
    }
}

proof fn lemma_percent_encoded_plain(bytes: Seq<u8>)
    requires
        forall|i: int| 0 <= i < bytes.len() ==> is_unreserved(#[trigger] bytes[i]),
    ensures
        percent_encoded(bytes) == bytes.map_values(|b: u8| b as char),
    decreases bytes.len(),
{
    if bytes.len() > 0 {
        assert(is_unreserved(bytes[0]));
        lemma_percent_encoded_plain(bytes.drop_first());
        assert(percent_encoded(bytes) =~= bytes.map_values(|b: u8| b as char));
    } else {
        assert(percent_encoded(bytes) =~= bytes.map_values(|b: u8| b as char));
    }
}

proof fn lemma_ascii_char(c: char)
    requires
        (c as u32) < 128,
    ensures
        '\0' <= c <= '\u{7f}',
{
}

/// A text made only of ASCII letters, digits, `-`, `.`, `_` and `~` is left
/// unchanged by percent-encoding.
pub proof fn lemma_url_encoded_plain(s: Seq<char>)
    requires
        forall|i: int| 0 <= i < s.len() ==> is_unreserved_char(#[trigger] s[i]),
    ensures
        url_encoded(s) == s,
{
    assert(is_ascii_chars(s)) by {
        assert forall|i: int| 0 <= i < s.len() implies '\0' <= #[trigger] s[i] <= '\u{7f}' by {
            assert(is_unreserved_char(s[i]));
            lemma_ascii_char(s[i]);
        }
    }
    is_ascii_chars_encode_utf8(s);
    let bytes = encode_utf8(s);
    assert forall|i: int| 0 <= i < bytes.len() implies is_unreserved(#[trigger] bytes[i]) by {
        assert(s[i] as u8 == bytes[i]);
        assert(is_unreserved_char(s[i]));
        assert((s[i] as u32) as u8 == s[i] as u8);
    }
    lemma_percent_encoded_plain(bytes);
    assert forall|i: int| 0 <= i < s.len() implies #[trigger] url_encoded(s)[i] == s[i] by {
        assert(s[i] as u8 == bytes[i]);
        assert(is_unreserved_char(s[i]));
        assert(((s[i] as u8) as char) == s[i]);
    }
    assert(url_encoded(s) =~= s);
}

/// The hexadecimal text of `n` bytes has `2n` characters, all lowercase
/// hexadecimal digits.
pub proof fn lemma_hex_lower_shape(data: Seq<u8>)
    ensures
        hex_lower(data).len() == 2 * data.len(),
        forall|i: int| 0 <= i < hex_lower(data).len() ==> is_lower_hex_char(#[trigger] hex_lower(data)[i]),
    decreases data.len(),
{
    if data.len() > 0 {
        lemma_hex_lower_shape(data.drop_first());
        lemma_hex_lower_char(data[0] / 16);
        lemma_hex_lower_char(data[0] % 16);
        let head = seq![hex_digit_lower(data[0] / 16), hex_digit_lower(data[0] % 16)];
        let tail = hex_lower(data.drop_first());
        assert forall|i: int| 0 <= i < hex_lower(data).len() implies is_lower_hex_char(#[trigger] hex_lower(data)[i]) by {
            if i < 2 {
                assert(hex_lower(data)[i] == head[i]);
            } else {
                assert(hex_lower(data)[i] == tail[i - 2]);
            }
        }
    }
}

/// Characters that JSON strings carry without escaping.
pub open spec fn is_json_plain_char(c: char) -> bool {
    &&& (c as u32) >= 32
    &&& c != '"'
    &&& c != '\\'
}

/// A text without quotes, backslashes or control characters becomes a JSON
/// string literal by putting it in quotes.
pub proof fn lemma_json_string_plain(s: Seq<char>)
    requires
        forall|i: int| 0 <= i < s.len() ==> is_json_plain_char(#[trigger] s[i]),
    ensures
        json_string(s) == seq!['"'] + s + seq!['"'],
{
    lemma_json_escaped_plain(s);
}

proof fn lemma_json_escaped_plain(s: Seq<char>)
    requires
        forall|i: int| 0 <= i < s.len() ==> is_json_plain_char(#[trigger] s[i]),
    ensures
        json_escaped(s) == s,
    decreases s.len(),
{
    if s.len() > 0 {
        assert(is_json_plain_char(s[0]));
        assert((('\u{8}' as u32) == 8) && (('\t' as u32) == 9) && (('\n' as u32) == 10) && (('\u{c}' as u32) == 12) && (('\r' as u32) == 13));
        let t = s.drop_first();
        assert forall|i: int| 0 <= i < t.len() implies is_json_plain_char(#[trigger] t[i]) by {
            assert(t[i] == s[i + 1]);
        }
        lemma_json_escaped_plain(t);
        assert(json_escaped(s) =~= s);
    }
}

/// A query string is only added when there are items: without items the
/// path is sent as it is; with items the path is followed by '?' and the
/// items joined with '&'.
pub proof fn lemma_with_query_shape(path: Seq<char>, items: Seq<Seq<char>>)
    ensures
        items.len() == 0 ==> with_query(path, items) == path,
        items.len() > 0 ==> with_query(path, items).subrange(0, path.len() as int) == path,
        items.len() > 0 ==> with_query(path, items)[path.len() as int] == '?',
        items.len() == 1 ==> with_query(path, items) == path + seq!['?'] + items[0],
{
    reveal_strlit("?");
    if items.len() > 0 {
        let w = with_query(path, items);
        assert(w.subrange(0, path.len() as int) =~= path);
        assert(w[path.len() as int] == "?"@[0]);
        if items.len() == 1 {
            assert(join(items, "&"@) == items[0]);
            assert("?"@ =~= seq!['?']);
        }
    }
}

/// The emoji of a reaction path fills exactly its last segment: after the
/// reactions prefix there is no '/', '?' or '#'.
pub proof fn lemma_reaction_path_segment(id: Seq<char>, emoji: Seq<char>)
    ensures
        ({
            let prefix = "/api/v1/pleroma/statuses/"@ + id + "/reactions/"@;
            let p = crate::pleroma::instance::reaction_path(id, emoji);
            &&& p.subrange(0, prefix.len() as int) == prefix
            &&& forall|i: int| prefix.len() <= i < p.len() ==> #[trigger] p[i] != '/' && p[i] != '?' && p[i] != '#'
        }),
{
    let prefix = "/api/v1/pleroma/statuses/"@ + id + "/reactions/"@;
    let e = url_encoded(emoji);
    let p = crate::pleroma::instance::reaction_path(id, emoji);
    assert(p == prefix + e);
    assert(p.subrange(0, prefix.len() as int) =~= prefix);
    lemma_url_encoded_safe(emoji);
    assert forall|i: int| prefix.len() <= i < p.len() implies #[trigger] p[i] != '/' && p[i] != '?' && p[i] != '#' by {
        assert(p[i] == e[i - prefix.len()]);
        assert(is_url_safe_char(e[i - prefix.len()]));
        assert(('/' as u32) == 47 && ('?' as u32) == 63 && ('#' as u32) == 35);
    }
}

/// Setting a form field and reading it gives back the value set; the other
/// fields keep theirs.
pub proof fn lemma_form_read_after_write(fields: Map<Seq<char>, Seq<char>>, name: Seq<char>, value: Seq<char>, other: Seq<char>)
    ensures
        fields.insert(name, value).dom().contains(name),
        fields.insert(name, value)[name] == value,
        other != name ==> fields.insert(name, value).dom().contains(other) == fields.dom().contains(other),
        other != name && fields.dom().contains(other) ==> fields.insert(name, value)[other] == fields[other],
{
}

/// Two authorization URLs for the same server, client, redirect URI and
/// scopes agree in everything but the CSRF state: each is the URL that
/// [`authorize_url_text`] names for those values and some state, and the
/// same state would give the same URL.
pub proof fn lemma_auth_urls_differ_only_in_state(base: Seq<char>, client_id: Seq<char>, redirect_uri: Seq<char>, scopes: Seq<Seq<char>>, u1: Seq<char>, u2: Seq<char>)
    requires
        exists|st: Seq<char>| u1 == authorize_url_text(base + "/oauth/authorize"@, client_id, redirect_uri, scopes, "code"@, st),
        exists|st: Seq<char>| u2 == authorize_url_text(base + "/oauth/authorize"@, client_id, redirect_uri, scopes, "code"@, st),
    ensures
        exists|s1: Seq<char>, s2: Seq<char>|
            #![trigger authorize_url_text(base + "/oauth/authorize"@, client_id, redirect_uri, scopes, "code"@, s1), authorize_url_text(base + "/oauth/authorize"@, client_id, redirect_uri, scopes, "code"@, s2)]
            {
                &&& u1 == authorize_url_text(base + "/oauth/authorize"@, client_id, redirect_uri, scopes, "code"@, s1)
                &&& u2 == authorize_url_text(base + "/oauth/authorize"@, client_id, redirect_uri, scopes, "code"@, s2)
                &&& s1 == s2 ==> u1 == u2
            },
{
    let s1 = choose|st: Seq<char>| u1 == authorize_url_text(base + "/oauth/authorize"@, client_id, redirect_uri, scopes, "code"@, st);
    let s2 = choose|st: Seq<char>| u2 == authorize_url_text(base + "/oauth/authorize"@, client_id, redirect_uri, scopes, "code"@, st);
    assert(u1 == authorize_url_text(base + "/oauth/authorize"@, client_id, redirect_uri, scopes, "code"@, s1));
    assert(u2 == authorize_url_text(base + "/oauth/authorize"@, client_id, redirect_uri, scopes, "code"@, s2));
}

} // verus!
