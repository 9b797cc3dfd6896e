use vstd::prelude::*;
use vstd::string::StringExecFns;

use crate::errors::WorkOsError;
use crate::json::json_escape_into;
use crate::json::parse_json;
use crate::json::spec_json;
use crate::json::spec_json_escape;
use crate::model::Connection;
use crate::model::ConnectionView;
use crate::model::Profile;
use crate::model::ProfileAndToken;
use crate::model::ProfileAndTokenView;
use crate::model::ProfileView;
use crate::model::connection_of_json;
use crate::model::profile_and_token_of_json;
use crate::model::profile_of_json;
use crate::model::spec_connection_of_json;
use crate::model::spec_profile_and_token_of_json;
use crate::model::spec_profile_of_json;
use crate::text::spec_decimal;
use crate::text::u16_to_string;
use crate::workos::WorkOs;
use crate::workos::spec_missing_key_message;

verus! {

/// What the HTTP collaborator hands back: the response's status code and its
/// body, as text.
pub struct HttpResponse {
    pub status: u16,
    pub body: String,
}

/// The statuses on which an operation decodes the body instead of failing.
pub open spec fn spec_is_success(status: u16) -> bool {
    200 <= status && status < 300
}

/// The text of the error that a response outside the 2xx range raises.
pub open spec fn spec_status_message(status: u16) -> Seq<char> {
    "Request failed with status: "@ + spec_decimal(status as nat)
}

/// The text of the error that an undecodable body raises.
pub open spec fn spec_decode_failure_message() -> Seq<char> {
    "response body does not match the expected shape"@
}

fn status_message(status: u16) -> (m: String)
    ensures
        m@ == spec_status_message(status),
{
    let mut m = String::from_str("Request failed with status: ");
    let d = u16_to_string(status);
    m.append(d.as_str());
    m
}

fn decode_failure() -> (e: WorkOsError)
    ensures
        e matches WorkOsError::DeserializationError(m) && m@ == spec_decode_failure_message(),
{
    WorkOsError::DeserializationError(
        String::from_str("response body does not match the expected shape"),
    )
}

/// The address of the token-exchange endpoint under the given base URL.
pub fn token_url(base: &str) -> (u: String)
    ensures
        u@ == base@ + "/sso/token"@,
{
    String::from_str(base).concat("/sso/token")
}

/// The address of the profile endpoint under the given base URL.
pub fn profile_url(base: &str) -> (u: String)
    ensures
        u@ == base@ + "/sso/profile"@,
{
    String::from_str(base).concat("/sso/profile")
}

/// The address of the given connection under the given base URL.
pub fn connection_url(base: &str, connection_id: &str) -> (u: String)
    ensures
        u@ == base@ + "/connections/"@ + connection_id@,
{
    String::from_str(base).concat("/connections/").concat(connection_id)
}

/// The value of the `Authorization` header for the given token.
pub fn bearer(token: &str) -> (h: String)
    ensures
        h@ == "Bearer "@ + token@,
{
    String::from_str("Bearer ").concat(token)
}

/// The JSON body that the token exchange sends: the caller's client id, the
/// configured secret, the authorization code, and the fixed grant type.
pub open spec fn spec_token_body(
    client_id: Seq<char>,
    client_secret: Seq<char>,
    code: Seq<char>,
) -> Seq<char> {
    "{\"client_id\":\""@ + spec_json_escape(client_id) + "\",\"client_secret\":\""@
        + spec_json_escape(client_secret) + "\",\"code\":\""@ + spec_json_escape(code)
        + "\",\"grant_type\":\"authorization_code\"}"@
}

/// Writes the JSON body of a token-exchange request.
pub fn token_body(client_id: &str, client_secret: &str, code: &str) -> (b: String)
    ensures
        b@ == spec_token_body(client_id@, client_secret@, code@),
{
    let mut b = String::from_str("{\"client_id\":\"");
    json_escape_into(&mut b, client_id);
    b.append("\",\"client_secret\":\"");
    json_escape_into(&mut b, client_secret);
    b.append("\",\"code\":\"");
    json_escape_into(&mut b, code);
    b.append("\",\"grant_type\":\"authorization_code\"}");
    proof {
        assert(b@ =~= spec_token_body(client_id@, client_secret@, code@));
    }
    b
}

/// The profile that a response body carries, if the body is a well-formed
/// profile document.
pub open spec fn spec_profile_body(body: Seq<char>) -> Option<ProfileView> {
    match spec_json(body) {
        Some(j) => spec_profile_of_json(j),
        None => None,
    }
}

/// The token-exchange payload that a response body carries, if any.
pub open spec fn spec_profile_and_token_body(body: Seq<char>) -> Option<ProfileAndTokenView> {
    match spec_json(body) {
        Some(j) => spec_profile_and_token_of_json(j),
        None => None,
    }
}

/// The connection that a response body carries, if any.
pub open spec fn spec_connection_body(body: Seq<char>) -> Option<ConnectionView> {
    match spec_json(body) {
        Some(j) => spec_connection_of_json(j),
        None => None,
    }
}

/// Turns a raw token-exchange response into a typed result: a non-2xx status
/// fails with a request error whatever the body holds; on a 2xx status the
/// body must carry an access token and a profile, field for field.
pub fn interpret_token_response(resp: &HttpResponse) -> (r: Result<ProfileAndToken, WorkOsError>)
    ensures
        !spec_is_success(resp.status) ==> (r matches Err(e) && (
        e matches WorkOsError::RequestError(m) && m@ == spec_status_message(resp.status))),
        spec_is_success(resp.status) ==> match spec_profile_and_token_body(resp.body@) {
            Some(p) => r matches Ok(v) && v@ == p,
            None => r matches Err(e) && (e matches WorkOsError::DeserializationError(m) && m@
                == spec_decode_failure_message()),
        },
{
    if resp.status < 200 || resp.status >= 300 {
        return Err(WorkOsError::RequestError(status_message(resp.status)));
    }
    let decoded = match parse_json(resp.body.as_str()) {
        Some(j) => profile_and_token_of_json(&j),
        None => None,
    };
    match decoded {
        Some(p) => Ok(p),
        None => Err(decode_failure()),
    }
}

/// Turns a raw profile response into a typed result; the same status and
/// decoding policy as the token exchange, decoding a bare profile.
pub fn interpret_profile_response(resp: &HttpResponse) -> (r: Result<Profile, WorkOsError>)
    ensures
        !spec_is_success(resp.status) ==> (r matches Err(e) && (
        e matches WorkOsError::RequestError(m) && m@ == spec_status_message(resp.status))),
        spec_is_success(resp.status) ==> match spec_profile_body(resp.body@) {
            Some(p) => r matches Ok(v) && v@ == p,
            None => r matches Err(e) && (e matches WorkOsError::DeserializationError(m) && m@
                == spec_decode_failure_message()),
        },
{
    if resp.status < 200 || resp.status >= 300 {
        return Err(WorkOsError::RequestError(status_message(resp.status)));
    }
    let decoded = match parse_json(resp.body.as_str()) {
        Some(j) => profile_of_json(&j),
        None => None,
    };
    match decoded {
        Some(p) => Ok(p),
        None => Err(decode_failure()),
    }
}

/// Turns a raw connection response into a typed result; the same status and
/// decoding policy as the token exchange, decoding a connection record.
pub fn interpret_connection_response(resp: &HttpResponse) -> (r: Result<Connection, WorkOsError>)
    ensures
        !spec_is_success(resp.status) ==> (r matches Err(e) && (
        e matches WorkOsError::RequestError(m) && m@ == spec_status_message(resp.status))),
        spec_is_success(resp.status) ==> match spec_connection_body(resp.body@) {
            Some(c) => r matches Ok(v) && v@ == c,
            None => r matches Err(e) && (e matches WorkOsError::DeserializationError(m) && m@
                == spec_decode_failure_message()),
        },
{
    if resp.status < 200 || resp.status >= 300 {
        return Err(WorkOsError::RequestError(status_message(resp.status)));
    }
    let decoded = match parse_json(resp.body.as_str()) {
        Some(j) => connection_of_json(&j),
        None => None,
    };
    match decoded {
        Some(c) => Ok(c),
        None => Err(decode_failure()),
    }
}

/// Relies on reqwest's blocking client: sends a POST request with a JSON
/// content type and the given body, and hands back the response's status code
/// and body text.  A failure to build the client, to send, or to read the
/// body comes back as a request error; nothing is promised of the response
/// itself, which is whatever the remote end sent.
#[verifier::external_body]
fn http_post_json(url: &str, body: &str) -> (r: Result<HttpResponse, WorkOsError>)
    ensures
        r matches Err(e) ==> e matches WorkOsError::RequestError(_),
{
    let sent = reqwest::blocking::Client::builder().build().and_then(|c| {
        c.post(url).header("content-type", "application/json").body(body.to_string()).send()
    });
    match sent {
        Ok(resp) => {
            let status = resp.status().as_u16();
            match resp.text() {
                Ok(text) => Ok(HttpResponse { status, body: text }),
                Err(e) => Err(WorkOsError::RequestError(e.to_string())),
            }
        },
        Err(e) => Err(WorkOsError::RequestError(e.to_string())),
    }
}

/// Relies on reqwest's blocking client: sends a GET request with the given
/// `Authorization` header value, and hands back the response's status code
/// and body text.  The same failure policy as the POST wrapper.
#[verifier::external_body]
fn http_get_auth(url: &str, auth: &str) -> (r: Result<HttpResponse, WorkOsError>)
    ensures
        r matches Err(e) ==> e matches WorkOsError::RequestError(_),
{
    let sent = reqwest::blocking::Client::builder().build().and_then(|c| {
        c.get(url).header("Authorization", auth).send()
    });
    match sent {
        Ok(resp) => {
            let status = resp.status().as_u16();
            match resp.text() {
                Ok(text) => Ok(HttpResponse { status, body: text }),
                Err(e) => Err(WorkOsError::RequestError(e.to_string())),
            }
        },
        Err(e) => Err(WorkOsError::RequestError(e.to_string())),
    }
}

/// The SSO client: wraps the three remote operations around a configuration
/// holder.
pub struct Sso {
    pub workos: WorkOs,
}

impl Sso {
    /// Builds a client around the given configuration.
    pub fn new(workos: WorkOs) -> (r: Self)
        ensures
            r.workos == workos,
    {
        Self { workos }
    }

    /// Exchanges an authorization code for an access token and its profile:
    /// POSTs the token request to `{base_url}/sso/token` and interprets the
    /// response as [`interpret_token_response`] says.  Never a configuration
    /// error, and every success is the faithful decoding of some response
    /// body.
    pub fn get_profile_and_token(&self, code: &str, client_id: &str) -> (r: Result<
        ProfileAndToken,
        WorkOsError,
    >)
        ensures
            r matches Err(e) ==> !(e matches WorkOsError::ConfigurationError(_)),
            r matches Ok(p) ==> exists|body: Seq<char>|
                spec_profile_and_token_body(body) == Some(p@),
    {
        let url = token_url(self.workos.base_url.as_str());
        let body = token_body(client_id, self.workos.key.as_str(), code);
        match http_post_json(url.as_str(), body.as_str()) {
            Ok(resp) => {
                let r = interpret_token_response(&resp);
                proof {
                    if r is Ok {
                        assert(spec_profile_and_token_body(resp.body@) == Some(r->Ok_0@));
                    }
                }
                r
            },
            Err(e) => Err(e),
        }
    }

    /// Fetches the profile that an access token belongs to: GETs
    /// `{base_url}/sso/profile` with a bearer header and interprets the
    /// response as [`interpret_profile_response`] says.  Never a
    /// configuration error, and every success is the faithful decoding of
    /// some response body.
    pub fn get_profile(&self, access_token: &str) -> (r: Result<Profile, WorkOsError>)
        ensures
            r matches Err(e) ==> !(e matches WorkOsError::ConfigurationError(_)),
            r matches Ok(p) ==> exists|body: Seq<char>| spec_profile_body(body) == Some(p@),
    {
        let url = profile_url(self.workos.base_url.as_str());
        let auth = bearer(access_token);
        match http_get_auth(url.as_str(), auth.as_str()) {
            Ok(resp) => {
                let r = interpret_profile_response(&resp);
                proof {
                    if r is Ok {
                        assert(spec_profile_body(resp.body@) == Some(r->Ok_0@));
                    }
                }
                r
            },
            Err(e) => Err(e),
        }
    }

    /// Fetches a connection by id: requires a configured API key and fails
    /// with exactly the configuration error of the lookup when none is set;
    /// otherwise GETs `{base_url}/connections/{id}` with a bearer header and
    /// interprets the response as [`interpret_connection_response`] says.
    /// Every success is the faithful decoding of some response body.
    pub fn get_connection(&self, connection_id: &str) -> (r: Result<Connection, WorkOsError>)
        ensures
            self.workos@.api_key is None ==> (r matches Err(e) && (
            e matches WorkOsError::ConfigurationError(m) && m@ == spec_missing_key_message())),
            self.workos@.api_key is Some ==> (r matches Err(e) ==> !(
            e matches WorkOsError::ConfigurationError(_))),
            r matches Ok(c) ==> exists|body: Seq<char>| spec_connection_body(body) == Some(c@),
    {
        let api_key = match self.workos.get_api_key() {
            Ok(k) => k,
            Err(e) => {
                return Err(e);
            },
        };
        let url = connection_url(self.workos.base_url.as_str(), connection_id);
        let auth = bearer(api_key.as_str());
        match http_get_auth(url.as_str(), auth.as_str()) {
            Ok(resp) => {
                let r = interpret_connection_response(&resp);
                proof {
                    if r is Ok {
                        assert(spec_connection_body(resp.body@) == Some(r->Ok_0@));
                    }
                }
                r
            },
            Err(e) => Err(e),
        }
    }
}

} // verus!
