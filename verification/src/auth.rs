//! OpenID-Connect authorization: token validation against a remote key set
//! and the authorization-code-for-token exchange.
use vstd::prelude::*;
use vstd::string::StringExecFns;

use crate::Error;
use crate::json::JsonValue;
use crate::json::spec_get_path;
use crate::text::spec_dec_str;
use crate::text::u16_dec_str;

verus! {

/// Claims extracted from a validated token: a dynamic document with
/// dotted-path lookup.
#[derive(Debug)]
pub struct Claims(pub JsonValue);

impl Claims {
    /// Dotted-path lookup into the claims document: walks nested object
    /// fields by the successive dot-separated keys of `path`. The empty
    /// path consumes no segments and yields the root document.
    pub fn get_path<'a>(&'a self, path: &str) -> (r: Option<&'a JsonValue>)
        ensures
            match r {
                Some(w) => spec_get_path(self.0, path@) == Some(*w),
                None => spec_get_path(self.0, path@) is None,
            },
    {
        self.0.get_path(path)
    }
}

/// The OpenID-Connect configuration discovered from the authority.
#[derive(Debug, PartialEq)]
pub struct OidcConfig {
    pub jwks_uri: String,
    pub token_endpoint: String,
    pub authorization_endpoint: String,
}

/// The body of a successful code-for-token exchange.
#[derive(Debug, PartialEq)]
pub struct TokenResponse {
    pub access_token: String,
    pub token_type: String,
    pub refresh_token: String,
    pub scope: String,
}

/// The structured error an authorization server returns on a rejected
/// exchange.
#[derive(Debug, PartialEq)]
pub struct ErrorResponse {
    pub error: String,
    pub error_description: Option<String>,
    pub error_uri: Option<String>,
}

/// Names the result of alcoholic_jwt::token_kid on a token: `None` when the
/// token's header cannot be decoded, `Some(None)` when it holds no key id.
pub uninterp spec fn token_kid_res(token: Seq<char>) -> Option<Option<Seq<char>>>;

/// Whether a key-set body parses as a JSON Web Key Set.
pub uninterp spec fn jwks_parse_ok(body: Seq<char>) -> bool;

/// Whether a parsed key set holds a key with the given key id.
pub uninterp spec fn jwks_kid_found(body: Seq<char>, kid: Seq<char>) -> bool;

/// Whether the token verifies against the key of the given id in the given
/// key set: its parts decode and its signature checks out under that key.
pub uninterp spec fn jwt_valid_for(token: Seq<char>, body: Seq<char>, kid: Seq<char>) -> bool;

/// The claims document of a token, rendered as JSON text. The claims are
/// decoded from the token's own payload, so they are a function of the
/// token alone.
pub uninterp spec fn jwt_claims_json(token: Seq<char>) -> Seq<char>;

/// Relies on alcoholic_jwt::token_kid: the decoded key id is a function of
/// the token text alone.
#[verifier::external_body]
fn token_kid_w(token: &str) -> (r: Option<Option<String>>)
    ensures
        match r {
            None => token_kid_res(token@) is None,
            Some(None) => token_kid_res(token@) matches Some(k) && k is None,
            Some(Some(k)) => token_kid_res(token@) matches Some(Some(ks)) && ks == k@,
        },
{
    match alcoholic_jwt::token_kid(token) {
        Err(_) => None,
        Ok(o) => Some(o),
    }
}

/// How a signature check against a key set went.
enum SigOutcome {
    /// The key-set body did not parse.
    JwksUnreadable,
    /// The key set holds no key with the requested id.
    KeyMissing,
    /// The signature did not verify under the selected key.
    Rejected,
    /// The signature verified; the token's claims follow as JSON text.
    Accepted(String),
}

/// Relies on serde_json::from_str::<alcoholic_jwt::JWKS>, JWKS::find,
/// alcoholic_jwt::validate and serde_json::Value's to_string: parsing the
/// key set, locating a key by id, verifying the signature and rendering the
/// decoded claims are functions of the token, the key-set body and the key
/// id alone. `validate` is called with no claim validations, so it decides
/// the signature only.
#[verifier::external_body]
fn jwks_validate(token: &str, jwks_body: &str, kid: &str) -> (r: SigOutcome)
    ensures
        r is JwksUnreadable <==> !jwks_parse_ok(jwks_body@),
        jwks_parse_ok(jwks_body@) ==> (r is KeyMissing <==> !jwks_kid_found(jwks_body@, kid@)),
        jwks_parse_ok(jwks_body@) && jwks_kid_found(jwks_body@, kid@) ==> (r is Accepted
            <==> jwt_valid_for(token@, jwks_body@, kid@)),
        r matches SigOutcome::Accepted(c) ==> c@ == jwt_claims_json(token@),
{
    let jwks: alcoholic_jwt::JWKS = match serde_json::from_str(jwks_body) {
        Ok(k) => k,
        Err(_) => return SigOutcome::JwksUnreadable,
    };
    let jwk = match jwks.find(kid) {
        Some(j) => j,
        None => return SigOutcome::KeyMissing,
    };
    match alcoholic_jwt::validate(token, jwk, Vec::new()) {
        Ok(v) => SigOutcome::Accepted(v.claims.to_string()),
        Err(_) => SigOutcome::Rejected,
    }
}

/// Whether a claims document passes the gateway's validation rules against
/// an issuer and a current time: the issuer claim must equal the configured
/// authority exactly, the expiry must lie strictly in the future, and a
/// non-empty subject must be present.
pub open spec fn spec_claims_valid(c: JsonValue, issuer: Seq<char>, now: int) -> bool {
    &&& spec_get_path(c, "iss"@) matches Some(v) && v matches JsonValue::Str(s) && s@ == issuer
    &&& spec_get_path(c, "exp"@) matches Some(v) && v matches JsonValue::Int(e) && e > now
    &&& spec_get_path(c, "sub"@) matches Some(v) && v matches JsonValue::Str(s) && s@.len() > 0
}

/// A claims document whose expiry is not strictly in the future never
/// passes claim validation, whatever its other claims say and however its
/// signature fared.
pub proof fn lemma_expired_claims_rejected(c: JsonValue, issuer: Seq<char>, now: int)
    requires
        match spec_get_path(c, "exp"@) {
            Some(v) => !(v matches JsonValue::Int(e) && e > now),
            None => true,
        },
    ensures
        !spec_claims_valid(c, issuer, now),
{
}

/// The client of one OpenID-Connect authority.
#[derive(Debug)]
pub struct OidcAuth {
    pub client_id: String,
    pub client_secret: Option<String>,
    pub authority_uri: String,
}

impl OidcAuth {
    /// A client for the given authority and credentials.
    pub fn new(authority_uri: String, client_id: &str, client_secret: Option<&str>) -> (r:
        OidcAuth)
        ensures
            r.authority_uri == authority_uri,
            r.client_id@ == client_id@,
            match client_secret {
                Some(s) => r.client_secret matches Some(cs) && cs@ == s@,
                None => r.client_secret is None,
            },
    {
        OidcAuth {
            authority_uri,
            client_id: String::from_str(client_id),
            client_secret: match client_secret {
                Some(s) => Some(String::from_str(s)),
                None => None,
            },
        }
    }

    /// The discovery address of this authority's OpenID configuration.
    pub fn oidc_config_uri(&self) -> (r: String)
        ensures
            r@ == self.authority_uri@ + "/.well-known/openid-configuration"@,
    {
        let mut s = self.authority_uri.clone();
        s.append("/.well-known/openid-configuration");
        s
    }

    /// Resolves the token's signing key in the supplied key-set body and
    /// verifies its signature, returning the decoded claims as JSON text.
    /// A header without a readable key id, an unreadable key set, a missing
    /// key and a failing signature are told apart exactly as stated.
    pub fn check_token_signature(&self, token: &str, jwks_body: &str) -> (r: Result<String, Error>)
        ensures
            match r {
                Ok(c) => {
                    &&& token_kid_res(token@) matches Some(Some(kid))
                    &&& jwks_parse_ok(jwks_body@)
                    &&& jwks_kid_found(jwks_body@, kid)
                    &&& jwt_valid_for(token@, jwks_body@, kid)
                    &&& c@ == jwt_claims_json(token@)
                },
                Err(e) => match e {
                    Error::JWKSFetchError => token_kid_res(token@) is None || (token_kid_res(
                        token@,
                    ) matches Some(Some(kid)) && !jwks_parse_ok(jwks_body@)),
                    Error::MalformedToken => token_kid_res(token@) matches Some(k) && k is None,
                    Error::CannotFindAuthorizationSigningKey(k) => {
                        &&& token_kid_res(token@) matches Some(Some(kid))
                        &&& k@ == kid
                        &&& jwks_parse_ok(jwks_body@)
                        &&& !jwks_kid_found(jwks_body@, kid)
                    },
                    Error::JWTValidationFailed => {
                        &&& token_kid_res(token@) matches Some(Some(kid))
                        &&& jwks_parse_ok(jwks_body@)
                        &&& jwks_kid_found(jwks_body@, kid)
                        &&& !jwt_valid_for(token@, jwks_body@, kid)
                    },
                    _ => false,
                },
            },
    {
        let kid = match token_kid_w(token) {
            None => {
                return Err(Error::JWKSFetchError);
            },
            Some(None) => {
                return Err(Error::MalformedToken);
            },
            Some(Some(k)) => k,
        };
        match jwks_validate(token, jwks_body, kid.as_str()) {
            SigOutcome::JwksUnreadable => Err(Error::JWKSFetchError),
            SigOutcome::KeyMissing => Err(Error::CannotFindAuthorizationSigningKey(kid)),
            SigOutcome::Rejected => Err(Error::JWTValidationFailed),
            SigOutcome::Accepted(claims_json) => Ok(claims_json),
        }
    }

    /// Enforces the validation rules on a decoded claims document: the
    /// issuer must equal this client's authority exactly, the token must
    /// not be expired at `now` (seconds since the epoch), and a non-empty
    /// subject must be present. A token whose expiry is not in the future
    /// is rejected whatever its other claims say.
    pub fn validate_claims(&self, claims: &Claims, now: i64) -> (r: Result<(), Error>)
        ensures
            r is Ok <==> spec_claims_valid(claims.0, self.authority_uri@, now as int),
            r matches Err(e) ==> e is JWTValidationFailed,
    {
        let iss_ok = match claims.get_path("iss") {
            Some(JsonValue::Str(s)) => {
                let a = s.as_str();
                let b = self.authority_uri.as_str();
                str_eq_str(a, b)
            },
            _ => false,
        };
        let exp_ok = match claims.get_path("exp") {
            Some(JsonValue::Int(e)) => *e > now,
            _ => false,
        };
        let sub_ok = match claims.get_path("sub") {
            Some(JsonValue::Str(s)) => !s.as_str().is_empty(),
            _ => false,
        };
        if iss_ok && exp_ok && sub_ok {
            Ok(())
        } else {
            Err(Error::JWTValidationFailed)
        }
    }

    /// The form fields of the code-for-token exchange request, in the order
    /// they are sent: the fixed grant type, this client's id, the code, and
    /// the optional redirect address and state.
    pub fn exchange_params(&self, code: &str, redirect_uri: Option<&str>, state: Option<&str>) -> (ps:
        Vec<(String, String)>)
        ensures
            ps@.len() == 3 + (if redirect_uri is Some {
                1int
            } else {
                0int
            }) + (if state is Some {
                1int
            } else {
                0int
            }),
            ps@[0].0@ == "grant_type"@ && ps@[0].1@ == "authorization_code"@,
            ps@[1].0@ == "client_id"@ && ps@[1].1@ == self.client_id@,
            ps@[2].0@ == "code"@ && ps@[2].1@ == code@,
            redirect_uri matches Some(u) ==> ps@[3].0@ == "redirect_uri"@ && ps@[3].1@ == u@,
            state matches Some(s) ==> ps@[ps@.len() - 1].0@ == "state"@ && ps@[ps@.len() - 1].1@
                == s@,
    {
        let mut ps: Vec<(String, String)> = Vec::new();
        ps.push((String::from_str("grant_type"), String::from_str("authorization_code")));
        ps.push((String::from_str("client_id"), self.client_id.clone()));
        ps.push((String::from_str("code"), String::from_str(code)));
        if let Some(u) = redirect_uri {
            ps.push((String::from_str("redirect_uri"), String::from_str(u)));
        }
        if let Some(s) = state {
            ps.push((String::from_str("state"), String::from_str(s)));
        }
        ps
    }
}

/// Maps the status and parsed body of a token-endpoint response to the
/// exchange's outcome: 200 with a readable body succeeds with that body;
/// 400 with a readable error body surfaces the server's stated reason; an
/// unreadable body carries the parse detail; any other status is a failure
/// naming the status code.
pub fn exchange_outcome(
    status: u16,
    token_parse: Option<TokenResponse>,
    error_parse: Option<ErrorResponse>,
    parse_detail: &str,
) -> (r: Result<TokenResponse, Error>)
    ensures
        status == 200 ==> match token_parse {
            Some(t) => r == Ok::<TokenResponse, Error>(t),
            None => r matches Err(e) && e matches Error::TokenExchangeFailure(m) && m@
                == parse_detail@,
        },
        status == 400 ==> match error_parse {
            Some(er) => r matches Err(e) && e matches Error::TokenExchangeResponseError(got) && got
                == er,
            None => r matches Err(e) && e matches Error::TokenExchangeFailure(m) && m@
                == parse_detail@,
        },
        status != 200 && status != 400 ==> (r matches Err(e) && e
            matches Error::TokenExchangeFailure(m) && m@
            == "invalid auth server token endpoint response status code "@ + spec_dec_str(
            status as int,
        )),
{
    if status == 200 {
        match token_parse {
            Some(t) => Ok(t),
            None => Err(Error::TokenExchangeFailure(String::from_str(parse_detail))),
        }
    } else if status == 400 {
        match error_parse {
            Some(er) => Err(Error::TokenExchangeResponseError(er)),
            None => Err(Error::TokenExchangeFailure(String::from_str(parse_detail))),
        }
    } else {
        let mut m = String::from_str("invalid auth server token endpoint response status code ");
        let num = u16_dec_str(status);
        m.append(num.as_str());
        Err(Error::TokenExchangeFailure(m))
    }
}

fn str_eq_str(a: &str, b: &str) -> (r: bool)
    ensures
        r == (a@ == b@),
{
    let av = crate::text::chars_of(a);
    crate::text::str_eq_chars(b, av.as_slice())
}

} // verus!
