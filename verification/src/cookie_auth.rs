//! The per-request session-cookie authentication gate: recognising the
//! exchange callback, deciding whether a request needs validation or a
//! redirect, and building the authorization redirect address.
use vstd::prelude::*;
use vstd::string::StringExecFns;

use crate::auth::OidcAuth;
use crate::text::str_eq_chars;
use crate::text::chars_of;
use std::sync::Arc;

verus! {

/// The key under which the session cookie stores the access token.
pub fn session_auth_key() -> (r: &'static str)
    ensures
        r@ == "auth_r"@,
{
    "auth_r"
}

/// The facts of one inbound request that the middleware decides on.
#[derive(Debug)]
pub struct RequestInfo {
    /// Whether the request method is GET.
    pub method_get: bool,
    /// The path component of the request.
    pub path: String,
    /// The original request URI (path and query), carried as the
    /// post-login target.
    pub uri: String,
    /// The scheme the request arrived on.
    pub scheme: String,
    /// The host the request addressed.
    pub host: String,
}

/// Whether a text parses as an absolute URL.
pub uninterp spec fn url_parse_ok(s: Seq<char>) -> bool;

/// The rendering of a parsed URL after its path is replaced and its query
/// and fragment are cleared.
pub uninterp spec fn rewritten_url(s: Seq<char>, path: Seq<char>) -> Seq<char>;

/// The rendering of a parsed URL after the given query pairs are appended,
/// each percent-encoded.
pub uninterp spec fn url_with_params(base: Seq<char>, pairs: Seq<(Seq<char>, Seq<char>)>) -> Seq<
    char,
>;

/// The character sequences of a list of string pairs.
pub open spec fn pairs_views(ps: Seq<(String, String)>) -> Seq<(Seq<char>, Seq<char>)> {
    ps.map_values(|p: (String, String)| (p.0@, p.1@))
}

/// Relies on url::Url::parse: whether a text parses as a URL is a function
/// of the text alone.
#[verifier::external_body]
fn url_ok(s: &str) -> (r: bool)
    ensures
        r == url_parse_ok(s@),
{
    url::Url::parse(s).is_ok()
}

/// Relies on url::Url::parse, Url::set_path, Url::set_query,
/// Url::set_fragment and the Display rendering of Url: the rendering after
/// replacing the path and clearing query and fragment is a function of the
/// parsed text and the path alone.
#[verifier::external_body]
fn url_rewrite(request_url: &str, path: &str) -> (r: Option<String>)
    ensures
        r is Some <==> url_parse_ok(request_url@),
        r matches Some(u) ==> u@ == rewritten_url(request_url@, path@),
{
    match url::Url::parse(request_url) {
        Ok(mut u) => {
            u.set_path(path);
            u.set_query(None);
            u.set_fragment(None);
            Some(u.to_string())
        },
        Err(_) => None,
    }
}

/// Relies on url::Url::parse, the append_pair of Url::query_pairs_mut and
/// the Display rendering of Url: appending given query pairs to a parsed
/// URL renders a text that is a function of the base and the pairs alone.
#[verifier::external_body]
fn url_append_params(base: &str, pairs: &Vec<(String, String)>) -> (r: Option<String>)
    ensures
        r is Some <==> url_parse_ok(base@),
        r matches Some(u) ==> u@ == url_with_params(base@, pairs_views(pairs@)),
{
    match url::Url::parse(base) {
        Ok(mut u) => {
            {
                let mut qp = u.query_pairs_mut();
                for p in pairs.iter() {
                    qp.append_pair(&p.0, &p.1);
                }
            }
            Some(u.to_string())
        },
        Err(_) => None,
    }
}

/// Why a middleware decision could not be made.
#[derive(Debug, PartialEq)]
pub enum MiddlewareError {
    /// The absolute request address did not parse as a URL.
    BadRequestUrl,
    /// The configured authorization endpoint did not parse as a URL.
    BadAuthorizationEndpoint,
}

/// The absolute address of a request: scheme, host and original URI.
pub open spec fn spec_absolute_request_uri(scheme: Seq<char>, host: Seq<char>, uri: Seq<
    char,
>) -> Seq<char> {
    scheme + "://"@ + host + uri
}

/// Builds the absolute address of a request, as
/// `spec_absolute_request_uri` states it.
pub fn absolute_request_uri(req: &RequestInfo) -> (r: String)
    ensures
        r@ == spec_absolute_request_uri(req.scheme@, req.host@, req.uri@),
{
    let mut s = req.scheme.clone();
    s.append("://");
    s.append(req.host.as_str());
    s.append(req.uri.as_str());
    s
}

/// The canonical exchange-callback address for a request address: the
/// request URL with its path replaced by the callback path and its query
/// and fragment stripped. The authorization server requires this exact
/// address as the `redirect_uri` of the exchange.
pub fn token_exchange_url(token_exchange_path: &str, request_url: &str) -> (r: Result<
    String,
    MiddlewareError,
>)
    ensures
        r is Ok <==> url_parse_ok(request_url@),
        r matches Ok(u) ==> u@ == rewritten_url(request_url@, token_exchange_path@),
        r matches Err(e) ==> e == MiddlewareError::BadRequestUrl,
{
    match url_rewrite(request_url, token_exchange_path) {
        Some(u) => Ok(u),
        None => Err(MiddlewareError::BadRequestUrl),
    }
}

/// The query of an exchange-callback request: the authorization code and
/// the state carried through the flow.
#[derive(Debug, PartialEq)]
pub struct WebTokenExcechangeQuery {
    pub code: String,
    pub state: Option<String>,
}

/// The address the browser is sent to after a successful exchange: the
/// state carried through the flow, or the root path if absent.
pub fn exchange_redirect_target(state: &Option<String>) -> (t: String)
    ensures
        match state {
            Some(s) => t@ == s@,
            None => t@ == "/"@,
        },
{
    match state {
        Some(s) => s.clone(),
        None => String::from_str("/"),
    }
}

/// What the middleware does with the outcome of a code-for-token exchange.
#[derive(Debug, PartialEq)]
pub enum ExchangeResponseAction {
    /// Store the access token in the session under the session key, then
    /// send the browser to `location`.
    StoreTokenAndRedirect { access_token: String, location: String },
    /// Answer with a plain 400 carrying the failure's description.
    BadRequest(String),
}

/// The middleware's answer to an exchange outcome: a successful exchange
/// stores the access token and redirects to the state carried through the
/// flow (the root path if absent); a failed one surfaces the failure's
/// description to the browser.
pub fn exchange_response_action(
    outcome: Result<crate::auth::TokenResponse, crate::Error>,
    state: &Option<String>,
) -> (r: ExchangeResponseAction)
    ensures
        match outcome {
            Ok(t) => r matches ExchangeResponseAction::StoreTokenAndRedirect {
                access_token,
                location,
            } && access_token == t.access_token && location@ == match state {
                Some(s) => s@,
                None => "/"@,
            },
            Err(e) => r matches ExchangeResponseAction::BadRequest(m) && m@
                == crate::spec_message(e),
        },
{
    match outcome {
        Ok(t) => ExchangeResponseAction::StoreTokenAndRedirect {
            access_token: t.access_token,
            location: exchange_redirect_target(state),
        },
        Err(e) => ExchangeResponseAction::BadRequest(e.message()),
    }
}

/// The configuration hooks of the session middleware; the application
/// implements this for its own handler type.
pub trait CookieAuthHandler: Clone {
    /// The client of the authority that issues and validates tokens.
    fn oidc_auth(&self) -> Arc<OidcAuth>;

    /// The OAuth client id sent on redirects and exchanges.
    fn client_id(&self) -> &str;

    /// The authorization endpoint users are redirected to.
    fn auth_uri(&self) -> &str;

    /// The scopes requested on the authorization redirect.
    fn scopes(&self) -> &str {
        "openid"
    }

    /// The path of the exchange callback.
    fn token_exchange_path(&self) -> &str;
}

/// The middleware factory: holds the handler it was built with.
pub struct CookieAuth<H: CookieAuthHandler> {
    pub handler: H,
}

impl<H: CookieAuthHandler> CookieAuth<H> {
    /// A factory around the given handler.
    pub fn new(handler: H) -> (r: CookieAuth<H>)
        ensures
            r.handler == handler,
    {
        CookieAuth { handler }
    }
}

/// What the middleware does next with a request, decided from the request
/// facts, the claims already attached, and the session's stored token.
#[derive(Debug, PartialEq)]
pub enum AuthStep {
    /// The request is the exchange callback: run the code-for-token
    /// exchange.
    TokenExchange,
    /// Claims are already attached: pass the request through.
    Proceed,
    /// The session's stored token must be validated first.
    ValidateToken(String),
    /// Nobody is authenticated: redirect to the authorization server.
    RedirectToAuthServer,
}

/// The per-request decision core of the middleware, holding the resolved
/// handler configuration as plain values.
#[derive(Debug)]
pub struct CookieAuthMiddleware {
    pub client_id: String,
    pub auth_uri: String,
    pub scopes: String,
    pub token_exchange_path: String,
}

impl CookieAuthMiddleware {
    /// A decision core with the given configuration.
    pub fn new(client_id: String, auth_uri: String, scopes: String, token_exchange_path: String) -> (r:
        CookieAuthMiddleware)
        ensures
            r.client_id == client_id,
            r.auth_uri == auth_uri,
            r.scopes == scopes,
            r.token_exchange_path == token_exchange_path,
    {
        CookieAuthMiddleware { client_id, auth_uri, scopes, token_exchange_path }
    }

    /// The first two stages of the per-request gate, in their fixed order:
    /// a GET to the exchange-callback path runs the token exchange; a
    /// request that already carries claims passes through; a session with
    /// a stored token has that token validated; anything else is
    /// redirected to the authorization server.
    pub fn check_requires_auth(
        &self,
        req: &RequestInfo,
        has_claims: bool,
        session_token: Option<String>,
    ) -> (step: AuthStep)
        ensures
            ({
                let is_exchange = req.method_get && req.path@ == self.token_exchange_path@;
                if is_exchange {
                    step == AuthStep::TokenExchange
                } else if has_claims {
                    step == AuthStep::Proceed
                } else {
                    match session_token {
                        Some(t) => step == AuthStep::ValidateToken(t),
                        None => step == AuthStep::RedirectToAuthServer,
                    }
                }
            }),
    {
        let pc = chars_of(&self.token_exchange_path.as_str());
        if req.method_get && str_eq_chars(req.path.as_str(), pc.as_slice()) {
            return AuthStep::TokenExchange;
        }
        if has_claims {
            return AuthStep::Proceed;
        }
        match session_token {
            Some(t) => AuthStep::ValidateToken(t),
            None => AuthStep::RedirectToAuthServer,
        }
    }

    /// Whether a request is sent to the authorization server after the
    /// session stage: exactly when no claims ended up attached, whatever
    /// made the validation fail.
    pub fn must_redirect(claims_attached: bool) -> (redirect: bool)
        ensures
            redirect == !claims_attached,
    {
        !claims_attached
    }

    /// The authorization redirect address for an unauthenticated request:
    /// the configured endpoint with `response_type=code`, this client's
    /// id, the original request URI as `state`, the configured scopes, and
    /// the canonical exchange-callback address as `redirect_uri`. An
    /// unusable authorization endpoint or request address is reported
    /// instead of redirecting.
    pub fn redirect_to_auth_server(&self, req: &RequestInfo) -> (r: Result<
        String,
        MiddlewareError,
    >)
        ensures
            ({
                let abs = spec_absolute_request_uri(req.scheme@, req.host@, req.uri@);
                if !url_parse_ok(self.auth_uri@) {
                    r == Err::<String, _>(MiddlewareError::BadAuthorizationEndpoint)
                } else if !url_parse_ok(abs) {
                    r == Err::<String, _>(MiddlewareError::BadRequestUrl)
                } else {
                    r matches Ok(u) && u@ == url_with_params(
                        self.auth_uri@,
                        seq![
                            ("response_type"@, "code"@),
                            ("client_id"@, self.client_id@),
                            ("state"@, req.uri@),
                            ("scope"@, self.scopes@),
                            ("redirect_uri"@, rewritten_url(abs, self.token_exchange_path@)),
                        ],
                    )
                }
            }),
    {
        if !url_ok(self.auth_uri.as_str()) {
            return Err(MiddlewareError::BadAuthorizationEndpoint);
        }
        let abs = absolute_request_uri(req);
        let callback = match token_exchange_url(self.token_exchange_path.as_str(), abs.as_str()) {
            Ok(u) => u,
            Err(e) => {
                return Err(e);
            },
        };
        let mut pairs: Vec<(String, String)> = Vec::new();
        pairs.push((String::from_str("response_type"), String::from_str("code")));
        pairs.push((String::from_str("client_id"), self.client_id.clone()));
        pairs.push((String::from_str("state"), req.uri.clone()));
        pairs.push((String::from_str("scope"), self.scopes.clone()));
        pairs.push((String::from_str("redirect_uri"), callback));
        proof {
            assert(pairs_views(pairs@) =~= seq![
                ("response_type"@, "code"@),
                ("client_id"@, self.client_id@),
                ("state"@, req.uri@),
                ("scope"@, self.scopes@),
                (
                    "redirect_uri"@,
                    rewritten_url(
                        spec_absolute_request_uri(req.scheme@, req.host@, req.uri@),
                        self.token_exchange_path@,
                    ),
                ),
            ]);
        }
        match url_append_params(self.auth_uri.as_str(), &pairs) {
            Some(u) => Ok(u),
            None => {
                assert(false);
                Err(MiddlewareError::BadAuthorizationEndpoint)
            },
        }
    }
}

} // verus!
