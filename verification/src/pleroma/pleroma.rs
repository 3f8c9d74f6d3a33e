//! The client itself, its application registration and authorization URL,
//! and the streaming connections it opens.

use vstd::prelude::*;
use vstd::string::StringExecFns;
use crate::error::Error;
use crate::external::{authorize_url_text, oauth_authorize_url, strings_view, url_parses};
use crate::form::{Form, set_opt};
use crate::options::{AppData, AppInputOptions};
use crate::query::join;
use crate::request::{self, Method, Request, RequestView, form_view, no_fields};
use crate::text::{cat2, text_of};

verus! {

/// The scopes asked for when the caller names none.
pub open spec fn default_scopes() -> Seq<Seq<char>> {
    seq!["read"@, "write"@, "follow"@]
}

/// The redirect URI for applications that cannot receive a redirect.
pub open spec fn no_redirect() -> Seq<char> {
    "urn:ietf:wg:oauth:2.0:oob"@
}

/// The scopes of a registration: the caller's, or the default ones.
pub open spec fn app_scopes(options: AppInputOptions) -> Seq<Seq<char>> {
    match options.scopes {
        Some(s) => strings_view(s@),
        None => default_scopes(),
    }
}

/// The fields of an application registration: its name, its redirect URI
/// (out-of-band by default), its scopes joined by spaces, and its website
/// when given.
pub open spec fn app_fields(client_name: Seq<char>, options: AppInputOptions) -> Map<Seq<char>, Seq<char>> {
    set_opt(
        no_fields().insert("client_name"@, client_name).insert(
            "redirect_uris"@,
            match options.redirect_uris {
                Some(u) => u@,
                None => no_redirect(),
            },
        ).insert("scopes"@, join(app_scopes(options), " "@)),
        "website"@,
        text_of(options.website),
    )
}

/// The request that exchanges an authorization code for a token.
pub open spec fn code_token_request(client_id: Seq<char>, client_secret: Seq<char>, code: Seq<char>, redirect_uri: Seq<char>) -> RequestView {
    form_view(
        Method::Post,
        "/oauth/token"@,
        no_fields().insert("client_id"@, client_id).insert("client_secret"@, client_secret).insert("code"@, code).insert(
            "redirect_uri"@,
            redirect_uri,
        ).insert("grant_type"@, "authorization_code"@),
    )
}

/// The request that refreshes a token.
pub open spec fn refresh_token_request(client_id: Seq<char>, client_secret: Seq<char>, refresh_token: Seq<char>) -> RequestView {
    form_view(
        Method::Post,
        "/oauth/token"@,
        no_fields().insert("client_id"@, client_id).insert("client_secret"@, client_secret).insert(
            "refresh_token"@,
            refresh_token,
        ).insert("grant_type"@, "refresh_token"@),
    )
}

/// The request that revokes a token.
pub open spec fn revoke_token_request(client_id: Seq<char>, client_secret: Seq<char>, token: Seq<char>) -> RequestView {
    form_view(
        Method::Post,
        "/oauth/revoke"@,
        no_fields().insert("client_id"@, client_id).insert("client_secret"@, client_secret).insert("token"@, token),
    )
}

/// A Pleroma client for the server at `base_url`.
#[derive(Debug, Clone)]
pub struct Pleroma {
    base_url: String,
    access_token: Option<String>,
    user_agent: Option<String>,
}

/// Where and how a streaming connection is opened: the endpoint, the
/// stream's name, its extra query items and the access token.
#[derive(Debug, Clone)]
pub struct StreamingConfig {
    pub url: String,
    pub stream: String,
    pub params: Vec<String>,
    pub access_token: Option<String>,
}

impl Pleroma {
    /// The server's base URL.
    pub closed spec fn base(self) -> Seq<char> {
        self.base_url@
    }

    /// The access token, if any.
    pub closed spec fn token(self) -> Option<Seq<char>> {
        text_of(self.access_token)
    }

    /// The user agent, if any.
    pub closed spec fn agent(self) -> Option<Seq<char>> {
        text_of(self.user_agent)
    }

    /// A client for `base_url`, authenticated with `access_token` when one is
    /// given, sending `user_agent` when one is given.
    pub fn new(base_url: String, access_token: Option<String>, user_agent: Option<String>) -> (r: Self)
        ensures
            r.base() == base_url@,
            r.token() == text_of(access_token),
            r.agent() == text_of(user_agent),
    {
        Pleroma { base_url, access_token, user_agent }
    }

    /// The server's base URL.
    pub fn base_url(&self) -> (r: &String)
        ensures
            r@ == self.base(),
    {
        &self.base_url
    }

    /// The access token, if any.
    pub fn access_token(&self) -> (r: &Option<String>)
        ensures
            text_of(*r) == self.token(),
    {
        &self.access_token
    }

    /// The user agent, if any.
    pub fn user_agent(&self) -> (r: &Option<String>)
        ensures
            text_of(*r) == self.agent(),
    {
        &self.user_agent
    }

    /// The scopes a registration asks for: those of `options`, or "read",
    /// "write" and "follow".
    pub fn app_scopes(options: &AppInputOptions) -> (r: Vec<String>)
        ensures
            strings_view(r@) == app_scopes(*options),
    {
        match &options.scopes {
            Some(s) => s.clone(),
            None => {
                let mut v: Vec<String> = Vec::new();
                v.push(String::from_str("read"));
                v.push(String::from_str("write"));
                v.push(String::from_str("follow"));
                assert(strings_view(v@) =~= default_scopes());
                v
            },
        }
    }

    /// The URL at which a user authorizes the application `client_id`: the
    /// server's "/oauth/authorize" endpoint with the client id, the redirect
    /// URI, the given scopes, a response type of "code" and a random state
    /// (the token endpoint is "/oauth/token"). Fails exactly when the
    /// authorize or token endpoint or `redirect_uri` does not parse as a URL.
    pub fn generate_auth_url(&self, client_id: String, client_secret: String, scope: Vec<String>, redirect_uri: String) -> (r: Result<String, Error>)
        ensures
            r.is_ok() == (url_parses(self.base() + "/oauth/authorize"@) && url_parses(self.base() + "/oauth/token"@) && url_parses(redirect_uri@)),
            r matches Ok(u) ==> exists|st: Seq<char>| u@ == authorize_url_text(self.base() + "/oauth/authorize"@, client_id@, redirect_uri@, strings_view(scope@), "code"@, st),
    {
        let auth = cat2(self.base_url.as_str(), "/oauth/authorize");
        let token = cat2(self.base_url.as_str(), "/oauth/token");
        match oauth_authorize_url(auth, token, client_id, client_secret, redirect_uri, scope, String::from_str("code")) {
            Ok(url) => Ok(url),
            Err(e) => Err(Error::UrlParse(e)),
        }
    }

    /// The request that registers an application named `client_name`: its
    /// redirect URI (out-of-band by default), its scopes joined by spaces and
    /// its website when given.
    pub fn create_app(&self, client_name: String, options: &AppInputOptions) -> (r: Request)
        ensures
            r@ == form_view(Method::Post, "/api/v1/apps"@, app_fields(client_name@, *options)),
    {
        let scopes = Self::app_scopes(options);
        let redirect_uris = match &options.redirect_uris {
            Some(u) => u.clone(),
            None => String::from_str("urn:ietf:wg:oauth:2.0:oob"),
        };
        let mut form = Form::new();
        form.insert("client_name", client_name);
        form.insert("redirect_uris", redirect_uris);
        form.insert("scopes", join_strings(&scopes, " "));
        form.insert_opt_text("website", &options.website);
        request::with_form(Method::Post, String::from_str("/api/v1/apps"), form)
    }

    /// Completes a registration: `app` with the authorization URL for its
    /// client, scopes and redirect URI set. Fails as
    /// [`Pleroma::generate_auth_url`] does.
    pub fn register_app(&self, app: AppData, options: &AppInputOptions) -> (r: Result<AppData, Error>)
        ensures
            r.is_ok() == (url_parses(self.base() + "/oauth/authorize"@) && url_parses(self.base() + "/oauth/token"@) && url_parses(app.redirect_uri@)),
            r matches Ok(a) ==> a.url matches Some(u) && exists|st: Seq<char>| u@ == authorize_url_text(self.base() + "/oauth/authorize"@, app.client_id@, app.redirect_uri@, app_scopes(*options), "code"@, st),
            r matches Ok(a) ==> a.id == app.id && a.name == app.name && a.website == app.website && a.redirect_uri == app.redirect_uri && a.client_id == app.client_id && a.client_secret == app.client_secret,
    {
        let scope = Self::app_scopes(options);
        let mut app = app;
        match self.generate_auth_url(app.client_id.clone(), app.client_secret.clone(), scope, app.redirect_uri.clone()) {
            Ok(url) => {
                app.url = Some(url);
                Ok(app)
            },
            Err(e) => Err(e),
        }
    }

    /// The request that exchanges an authorization code for a token.
    pub fn fetch_access_token(&self, client_id: String, client_secret: String, code: String, redirect_uri: String) -> (r: Request)
        ensures
            r@ == code_token_request(client_id@, client_secret@, code@, redirect_uri@),
    {
        let mut form = Form::new();
        form.insert("client_id", client_id);
        form.insert("client_secret", client_secret);
        form.insert("code", code);
        form.insert("redirect_uri", redirect_uri);
        form.insert("grant_type", String::from_str("authorization_code"));
        request::with_form(Method::Post, String::from_str("/oauth/token"), form)
    }

    /// The request that refreshes a token (sent with the grant type
    /// "refresh_token").
    pub fn refresh_access_token(&self, client_id: String, client_secret: String, refresh_token: String) -> (r: Request)
        ensures
            r@ == refresh_token_request(client_id@, client_secret@, refresh_token@),
    {
        let mut form = Form::new();
        form.insert("client_id", client_id);
        form.insert("client_secret", client_secret);
        form.insert("refresh_token", refresh_token);
        form.insert("grant_type", String::from_str("refresh_token"));
        request::with_form(Method::Post, String::from_str("/oauth/token"), form)
    }

    /// The request that revokes a token.
    pub fn revoke_access_token(&self, client_id: String, client_secret: String, access_token: String) -> (r: Request)
        ensures
            r@ == revoke_token_request(client_id@, client_secret@, access_token@),
    {
        let mut form = Form::new();
        form.insert("client_id", client_id);
        form.insert("client_secret", client_secret);
        form.insert("token", access_token);
        request::with_form(Method::Post, String::from_str("/oauth/revoke"), form)
    }

    /// The connection for `stream` with the extra items `params`.
    fn streaming(&self, streaming_url: String, stream: &str, params: Vec<String>) -> (r: StreamingConfig)
        ensures
            r.url@ == streaming_url@ + "/api/v1/streaming"@,
            r.stream@ == stream@,
            r.params == params,
            text_of(r.access_token) == self.token(),
    {
        let mut url = streaming_url;
        url.append("/api/v1/streaming");
        StreamingConfig {
            url,
            stream: String::from_str(stream),
            params,
            access_token: self.access_token.clone(),
        }
    }

    /// The user's own stream.
    pub fn user_streaming(&self, streaming_url: String) -> (r: StreamingConfig)
        ensures
            r.url@ == streaming_url@ + "/api/v1/streaming"@,
            r.stream@ == "user"@,
            r.params@.len() == 0,
            text_of(r.access_token) == self.token(),
    {
        self.streaming(streaming_url, "user", Vec::new())
    }

    /// The public stream.
    pub fn public_streaming(&self, streaming_url: String) -> (r: StreamingConfig)
        ensures
            r.url@ == streaming_url@ + "/api/v1/streaming"@,
            r.stream@ == "public"@,
            r.params@.len() == 0,
            text_of(r.access_token) == self.token(),
    {
        self.streaming(streaming_url, "public", Vec::new())
    }

    /// The local public stream.
    pub fn local_streaming(&self, streaming_url: String) -> (r: StreamingConfig)
        ensures
            r.url@ == streaming_url@ + "/api/v1/streaming"@,
            r.stream@ == "public:local"@,
            r.params@.len() == 0,
            text_of(r.access_token) == self.token(),
    {
        self.streaming(streaming_url, "public:local", Vec::new())
    }

    /// The stream of direct messages.
    pub fn direct_streaming(&self, streaming_url: String) -> (r: StreamingConfig)
        ensures
            r.url@ == streaming_url@ + "/api/v1/streaming"@,
            r.stream@ == "direct"@,
            r.params@.len() == 0,
            text_of(r.access_token) == self.token(),
    {
        self.streaming(streaming_url, "direct", Vec::new())
    }

    /// The stream of a hashtag.
    pub fn tag_streaming(&self, streaming_url: String, tag: String) -> (r: StreamingConfig)
        ensures
            r.url@ == streaming_url@ + "/api/v1/streaming"@,
            r.stream@ == "hashtag"@,
            r.params@.len() == 1,
            r.params@[0]@ == "tag="@ + tag@,
            text_of(r.access_token) == self.token(),
    {
        let mut params: Vec<String> = Vec::new();
        params.push(cat2("tag=", tag.as_str()));
        self.streaming(streaming_url, "hashtag", params)
    }

    /// The stream of a list.
    pub fn list_streaming(&self, streaming_url: String, list_id: String) -> (r: StreamingConfig)
        ensures
            r.url@ == streaming_url@ + "/api/v1/streaming"@,
            r.stream@ == "list"@,
            r.params@.len() == 1,
            r.params@[0]@ == "list="@ + list_id@,
            text_of(r.access_token) == self.token(),
    {
        let mut params: Vec<String> = Vec::new();
        params.push(cat2("list=", list_id.as_str()));
        self.streaming(streaming_url, "list", params)
    }
}

/// The strings joined with `sep`.
pub fn join_strings(items: &Vec<String>, sep: &str) -> (r: String)
    ensures
        r@ == join(items@.map_values(|x: String| x@), sep@),
{
    let ghost v = items@.map_values(|x: String| x@);
    let mut r = String::new();
    let n = items.len();
    let mut i: usize = 0;
    while i < n
        invariant
            n == items.len(),
            i <= n,
            v == items@.map_values(|x: String| x@),
            r@ == join(v.take(i as int), sep@),
        decreases n - i,
    {
        let ghost prev = v.take(i as int);
        if i > 0 {
            r.append(sep);
        }
        r.append(items[i].as_str());
        proof {
            let next = v.take(i + 1);
            assert(next.drop_last() =~= prev);
            assert(next.last() == items@[i as int]@);
            if i == 0 {
                assert(prev =~= Seq::<Seq<char>>::empty());
                assert(r@ =~= next[0]);
            }
        }
        i = i + 1;
    }
    assert(v.take(n as int) =~= v);
    r
}

} // verus!
