//! Signing in to Copilot: the OAuth device flow's messages, how each reply
//! to a token poll is acted on, and when the short-lived Copilot token is
//! fetched again.
use vstd::prelude::*;

use crate::jobs::DeviceCodeInfo;
use crate::text::{append_chars, chars_eq, chars_of, string_of};

verus! {

/// The OAuth application that asks for access.
pub open spec fn client_id_text() -> Seq<char> {
    "Iv1.b507a08c87ecfe98"@
}

/// The access asked for.
pub open spec fn scope_text() -> Seq<char> {
    "read:user"@
}

/// The grant type of a device-code token poll.
pub open spec fn device_grant_text() -> Seq<char> {
    "urn:ietf:params:oauth:grant-type:device_code"@
}

/// The request that starts the device flow.
#[derive(Clone, Debug)]
pub struct DeviceCodeRequest {
    pub client_id: String,
    pub scope: String,
}

/// The service's answer to a device flow start.
#[derive(Clone, Debug)]
pub struct DeviceCodeResponse {
    pub device_code: String,
    pub user_code: String,
    pub verification_uri: String,
    pub interval: u64,
}

/// The answer to one token poll.
#[derive(Clone, Debug)]
pub struct OAuthTokenResponse {
    pub access_token: Option<String>,
    pub token_type: Option<String>,
    pub error: Option<String>,
}

/// A Copilot token and the Unix time at which it expires.
#[derive(Clone, Debug)]
pub struct CopilotTokenResponse {
    pub token: String,
    pub expires_at: i64,
}

/// What is kept on disk after signing in.
#[derive(Clone, Debug)]
pub struct StoredAuth {
    pub oauth_token: String,
}

/// The request that starts the device flow for this application.
pub fn device_code_request() -> (r: DeviceCodeRequest)
    ensures
        r.client_id@ == client_id_text(),
        r.scope@ == scope_text(),
{
    DeviceCodeRequest {
        client_id: string_of(&chars_of("Iv1.b507a08c87ecfe98")),
        scope: string_of(&chars_of("read:user")),
    }
}

/// The form fields of a token poll for `device_code`, in order.
pub fn token_poll_form(device_code: &str) -> (r: Vec<(String, String)>)
    ensures
        r@.len() == 3,
        r@[0].0@ == "client_id"@ && r@[0].1@ == client_id_text(),
        r@[1].0@ == "device_code"@ && r@[1].1@ == device_code@,
        r@[2].0@ == "grant_type"@ && r@[2].1@ == device_grant_text(),
{
    let mut v: Vec<(String, String)> = Vec::new();
    v.push((string_of(&chars_of("client_id")), string_of(&chars_of("Iv1.b507a08c87ecfe98"))));
    v.push((string_of(&chars_of("device_code")), string_of(&chars_of(device_code))));
    v.push(
        (
            string_of(&chars_of("grant_type")),
            string_of(&chars_of("urn:ietf:params:oauth:grant-type:device_code")),
        ),
    );
    v
}

/// What the user is shown to authorize the sign-in.
pub fn device_code_info(response: &DeviceCodeResponse) -> (r: DeviceCodeInfo)
    ensures
        r.user_code == response.user_code,
        r.verification_uri == response.verification_uri,
{
    DeviceCodeInfo {
        user_code: response.user_code.clone(),
        verification_uri: response.verification_uri.clone(),
    }
}

/// Seconds between two polls: the interval the service asked for, at least 5.
pub fn poll_interval_secs(interval: u64) -> (r: u64)
    ensures
        r == (if interval < 5 {
            5
        } else {
            interval
        }),
{
    if interval < 5 {
        5
    } else {
        interval
    }
}

/// How to go on after one token poll.
#[derive(Clone, Debug)]
pub enum PollStep {
    /// The user authorized the sign-in; the OAuth token.
    Authorized(String),
    /// Not authorized yet: poll again after the interval.
    Pending,
    /// Polling too fast: wait 5 more seconds, then poll again.
    SlowDown,
    /// The sign-in failed, with this message.
    Failed(String),
}

/// Acts on the answer to a token poll: a token ends the flow; the errors
/// `authorization_pending` and `slow_down` continue it; any other error fails
/// with `OAuth error: <error>`, an answer with neither with
/// `unexpected OAuth response`.
pub fn poll_step(response: OAuthTokenResponse) -> (r: PollStep)
    ensures
        response.access_token matches Some(t) ==> r == PollStep::Authorized(t),
        response.access_token is None ==> match response.error {
            Some(e) => if e@ == "authorization_pending"@ {
                r is Pending
            } else if e@ == "slow_down"@ {
                r is SlowDown
            } else {
                r matches PollStep::Failed(m) && m@ == "OAuth error: "@ + e@
            },
            None => r matches PollStep::Failed(m) && m@ == "unexpected OAuth response"@,
        },
{
    match response.access_token {
        Some(t) => PollStep::Authorized(t),
        None => match response.error {
            Some(e) => {
                let ec = chars_of(e.as_str());
                if chars_eq(&ec, &chars_of("authorization_pending")) {
                    PollStep::Pending
                } else if chars_eq(&ec, &chars_of("slow_down")) {
                    PollStep::SlowDown
                } else {
                    let mut m = chars_of("OAuth error: ");
                    append_chars(&mut m, &ec);
                    PollStep::Failed(string_of(&m))
                }
            },
            None => PollStep::Failed(string_of(&chars_of("unexpected OAuth response"))),
        },
    }
}

/// Keeps the Copilot token obtained with the user's OAuth token, and fetches
/// a new one when it is missing or expires within five minutes.
pub struct CopilotTokenManager {
    oauth_token: String,
    cached_jwt: Option<String>,
    expires_at: i64,
}

impl CopilotTokenManager {
    /// The OAuth token a Copilot token is fetched with.
    pub closed spec fn oauth(self) -> String {
        self.oauth_token
    }

    /// The Copilot token held, if any.
    pub closed spec fn cached(self) -> Option<String> {
        self.cached_jwt
    }

    /// When the held token expires (Unix seconds).
    pub closed spec fn expiry(self) -> i64 {
        self.expires_at
    }

    /// A new token is fetched when none is held or the held one expires
    /// within 300 seconds of `now`.
    pub open spec fn refresh_due(self, now: i64) -> bool {
        self.cached() is None || now >= self.expiry() - 300
    }

    /// A manager holding no Copilot token yet.
    pub fn new(oauth_token: String) -> (r: CopilotTokenManager)
        ensures
            r.oauth() == oauth_token,
            r.cached() is None,
            r.expiry() == 0,
    {
        CopilotTokenManager { oauth_token, cached_jwt: None, expires_at: 0 }
    }

    /// Whether a new token must be fetched at time `now` (`refresh_due`).
    pub fn needs_refresh(&self, now: i64) -> (r: bool)
        ensures
            r == self.refresh_due(now),
    {
        match &self.cached_jwt {
            None => true,
            Some(_) => now as i128 >= self.expires_at as i128 - 300,
        }
    }

    /// A valid Copilot token at time `now`: the held one, or one fetched by
    /// `exchange` from the OAuth token when a refresh is due. A fetched token
    /// is kept with its expiry; a failed fetch changes nothing and its error
    /// is returned.
    pub fn get_token<F: FnOnce(String) -> Result<CopilotTokenResponse, String>>(
        &mut self,
        now: i64,
        exchange: F,
    ) -> (r: Result<String, String>)
        requires
            old(self).refresh_due(now) ==> call_requires(exchange, (old(self).oauth(),)),
        ensures
            !old(self).refresh_due(now) ==> *final(self) == *old(self) && r == Ok::<String, String>(
                old(self).cached()->0,
            ),
            old(self).refresh_due(now) ==> exists|out: Result<CopilotTokenResponse, String>|
                call_ensures(exchange, (old(self).oauth(),), out) && match out {
                    Ok(t) => final(self).oauth() == old(self).oauth() && final(self).cached() == Some(
                        t.token,
                    ) && final(self).expiry() == t.expires_at && r == Ok::<String, String>(t.token),
                    Err(e) => *final(self) == *old(self) && r == Err::<String, String>(e),
                },
    {
        if self.needs_refresh(now) {
            let out = exchange(self.oauth_token.clone());
            match out {
                Ok(t) => {
                    let token = t.token;
                    self.cached_jwt = Some(token.clone());
                    self.expires_at = t.expires_at;
                    Ok(token)
                },
                Err(e) => Err(e),
            }
        } else {
            match &self.cached_jwt {
                Some(t) => Ok(t.clone()),
                None => Err(string_of(&chars_of("no cached token"))),
            }
        }
    }
}

} // verus!
