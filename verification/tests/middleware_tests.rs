use resweb::cookie_auth::AuthStep;
use resweb::cookie_auth::CookieAuth;
use resweb::cookie_auth::CookieAuthHandler;
use resweb::cookie_auth::CookieAuthMiddleware;
use resweb::cookie_auth::ExchangeResponseAction;
use resweb::cookie_auth::MiddlewareError;
use resweb::cookie_auth::RequestInfo;
use resweb::cookie_auth::WebTokenExcechangeQuery;
use resweb::cookie_auth::absolute_request_uri;
use resweb::cookie_auth::exchange_redirect_target;
use resweb::cookie_auth::session_auth_key;
use resweb::cookie_auth::token_exchange_url;
use resweb::auth::OidcAuth;
use std::sync::Arc;

const EXCHANGE_PATH: &str = "/web/.exchange-token";

fn middleware() -> CookieAuthMiddleware {
    CookieAuthMiddleware::new(
        "resweb".to_string(),
        "https://auth.example.com/authorize".to_string(),
        "openid".to_string(),
        EXCHANGE_PATH.to_string(),
    )
}

fn get_request(path: &str, uri: &str) -> RequestInfo {
    RequestInfo {
        method_get: true,
        path: path.to_string(),
        uri: uri.to_string(),
        scheme: "https".to_string(),
        host: "gw.example.com".to_string(),
    }
}

#[test]
fn callback_get_runs_token_exchange() {
    let m = middleware();
    let req = get_request(EXCHANGE_PATH, "/web/.exchange-token?code=c&state=%2Fweb");
    let step = m.check_requires_auth(&req, false, None);
    assert_eq!(step, AuthStep::TokenExchange);
}

#[test]
fn callback_post_is_not_an_exchange() {
    let m = middleware();
    let mut req = get_request(EXCHANGE_PATH, EXCHANGE_PATH);
    req.method_get = false;
    let step = m.check_requires_auth(&req, false, None);
    assert_eq!(step, AuthStep::RedirectToAuthServer);
}

#[test]
fn attached_claims_pass_through() {
    let m = middleware();
    let req = get_request("/web/dashboard", "/web/dashboard");
    let step = m.check_requires_auth(&req, true, Some("tok".to_string()));
    assert_eq!(step, AuthStep::Proceed);
}

#[test]
fn stored_token_goes_to_validation() {
    let m = middleware();
    let req = get_request("/web/dashboard", "/web/dashboard");
    let step = m.check_requires_auth(&req, false, Some("tok".to_string()));
    assert_eq!(step, AuthStep::ValidateToken("tok".to_string()));
}

#[test]
fn empty_session_redirects() {
    let m = middleware();
    let req = get_request("/web/dashboard", "/web/dashboard");
    let step = m.check_requires_auth(&req, false, None);
    assert_eq!(step, AuthStep::RedirectToAuthServer);
}

#[test]
fn failed_validation_means_redirect() {
    assert!(CookieAuthMiddleware::must_redirect(false));
    assert!(!CookieAuthMiddleware::must_redirect(true));
}

#[test]
fn redirect_carries_state_and_canonical_callback() {
    let m = middleware();
    let req = get_request("/web/dashboard", "/web/dashboard");
    let url = m.redirect_to_auth_server(&req).expect("redirect should build");
    assert_eq!(
        url,
        "https://auth.example.com/authorize?response_type=code&client_id=resweb&state=%2Fweb%2Fdashboard&scope=openid&redirect_uri=https%3A%2F%2Fgw.example.com%2Fweb%2F.exchange-token"
    );
}

#[test]
fn redirect_rejects_bad_authorization_endpoint() {
    let m = CookieAuthMiddleware::new(
        "resweb".to_string(),
        "not a url".to_string(),
        "openid".to_string(),
        EXCHANGE_PATH.to_string(),
    );
    let req = get_request("/web/dashboard", "/web/dashboard");
    assert_eq!(
        m.redirect_to_auth_server(&req),
        Err(MiddlewareError::BadAuthorizationEndpoint)
    );
}

#[test]
fn token_exchange_url_strips_query_and_fragment() {
    let u = token_exchange_url(
        EXCHANGE_PATH,
        "https://gw.example.com/web/dashboard?x=1#frag",
    )
    .expect("url should rewrite");
    assert_eq!(u, "https://gw.example.com/web/.exchange-token");
}

#[test]
fn token_exchange_url_rejects_bad_request_url() {
    assert_eq!(
        token_exchange_url(EXCHANGE_PATH, "::nonsense::"),
        Err(MiddlewareError::BadRequestUrl)
    );
}

#[test]
fn absolute_request_uri_concatenates() {
    let req = get_request("/web/dashboard", "/web/dashboard?x=1");
    assert_eq!(absolute_request_uri(&req), "https://gw.example.com/web/dashboard?x=1");
}

#[test]
fn exchange_redirect_defaults_to_root() {
    assert_eq!(exchange_redirect_target(&Some("/web/dashboard".to_string())), "/web/dashboard");
    assert_eq!(exchange_redirect_target(&None), "/");
}

#[test]
fn session_key_is_stable() {
    assert_eq!(session_auth_key(), "auth_r");
}

#[test]
fn redirect_flow_round_trip() {
    let m = middleware();
    let original = "/web/dashboard";
    let req = get_request(original, original);

    let step = m.check_requires_auth(&req, false, None);
    assert_eq!(step, AuthStep::RedirectToAuthServer);
    let redirect = m.redirect_to_auth_server(&req).expect("redirect should build");
    assert!(redirect.contains("state=%2Fweb%2Fdashboard"));
    assert!(redirect.contains(
        "redirect_uri=https%3A%2F%2Fgw.example.com%2Fweb%2F.exchange-token"
    ));

    let callback = get_request(EXCHANGE_PATH, "/web/.exchange-token?code=c0de&state=%2Fweb%2Fdashboard");
    assert_eq!(m.check_requires_auth(&callback, false, None), AuthStep::TokenExchange);
    let query = WebTokenExcechangeQuery {
        code: "c0de".to_string(),
        state: Some(original.to_string()),
    };
    assert_eq!(exchange_redirect_target(&query.state), original);
}

#[test]
fn exchange_outcome_drives_the_callback_response() {
    let token = resweb::auth::TokenResponse {
        access_token: "at".to_string(),
        token_type: "Bearer".to_string(),
        refresh_token: "rt".to_string(),
        scope: "openid".to_string(),
    };
    let state = Some("/web/dashboard".to_string());
    assert_eq!(
        resweb::cookie_auth::exchange_response_action(Ok(token), &state),
        ExchangeResponseAction::StoreTokenAndRedirect {
            access_token: "at".to_string(),
            location: "/web/dashboard".to_string(),
        }
    );
    assert_eq!(
        resweb::cookie_auth::exchange_response_action(
            Err(resweb::Error::TokenExchangeFailure("boom".to_string())),
            &None,
        ),
        ExchangeResponseAction::BadRequest(
            "Token exchange with authorization server failed: boom".to_string()
        )
    );
}

#[derive(Clone)]
struct TestHandler {
    auth: Arc<OidcAuth>,
}

impl CookieAuthHandler for TestHandler {
    fn oidc_auth(&self) -> Arc<OidcAuth> {
        self.auth.clone()
    }

    fn client_id(&self) -> &str {
        "resweb"
    }

    fn auth_uri(&self) -> &str {
        "https://auth.example.com/authorize"
    }

    fn token_exchange_path(&self) -> &str {
        EXCHANGE_PATH
    }
}

#[test]
fn handler_scopes_default_to_openid() {
    let handler = TestHandler {
        auth: Arc::new(OidcAuth::new("https://idp".to_string(), "resweb", None)),
    };
    assert_eq!(handler.scopes(), "openid");
    let factory = CookieAuth::new(handler);
    assert_eq!(factory.handler.client_id(), "resweb");
}
