//! What is asked of the relay service, and what is made of its answers.
//! Sending a request is not this crate's part: the client says what to
//! send and takes what came back.

use crate::api::plan::{plan_formatted, SubscriptionData};
use crate::api::settings::optional_chars;
use crate::api::usage::{usage_calculated, usage_remaining_tokens, UsageData, UsageView};
use crate::api::ApiConfig;
use crate::text::{occurs_in, push_digits};
use vstd::prelude::*;
use vstd::string::{StrSliceExecFns, StringExecFns};

verus! {

/// Seconds after which a request is given up.
pub const TIMEOUT_SECONDS: u64 = 10;

/// How a request is made.
#[derive(Clone, Copy, Debug, PartialEq, Eq, Structural)]
pub enum Method {
    /// A plain request for the resource.
    Get,
    /// A request with a JSON object as its body.
    Post,
}

/// A request to the relay service. Where the method is `Post`, the body is
/// a JSON object with the one member `model`, or an empty one where
/// `model` is `None`.
#[derive(Debug)]
pub struct Request {
    pub method: Method,
    pub url: String,
    pub authorization: String,
    pub model: Option<String>,
}

/// What a `Request` holds.
pub struct RequestView {
    pub method: Method,
    pub url: Seq<char>,
    pub authorization: Seq<char>,
    pub model: Option<Seq<char>>,
}

impl View for Request {
    type V = RequestView;

    open spec fn view(&self) -> RequestView {
        RequestView {
            method: self.method,
            url: self.url@,
            authorization: self.authorization@,
            model: match self.model {
                Some(name) => Some(name@),
                None => None,
            },
        }
    }
}

/// Why no record was had from the relay service.
#[derive(Clone, Copy, Debug, PartialEq, Eq, Structural)]
pub enum ApiError {
    /// No key is configured: nothing is asked.
    CredentialMissing,
    /// The service was not reached, or did not answer in time.
    TransportFailure,
    /// The service answered with this status, which is not a success.
    UnsuccessfulStatus(u16),
    /// The answer does not have the shape of the record asked for.
    ShapeMismatch,
}

/// What came back for a request.
#[derive(Debug)]
pub enum Reply<T> {
    /// Nothing: the service was not reached, or did not answer in time.
    Failed,
    /// An answer with this status. `record` is what its body holds, `None`
    /// where the body was not read or does not have the shape asked for.
    Answer { status: u16, record: Option<T> },
}

/// The status is one of success.
pub open spec fn is_success(status: u16) -> bool {
    200 <= status <= 299
}

/// What a reply gives: its record, if it has one and its status is one of
/// success; else why not.
pub open spec fn outcome_of<T>(reply: Reply<T>) -> Result<T, ApiError> {
    match reply {
        Reply::Failed => Err(ApiError::TransportFailure),
        Reply::Answer { status, record } => if !is_success(status) {
            Err(ApiError::UnsuccessfulStatus(status))
        } else {
            match record {
                Some(r) => Ok(r),
                None => Err(ApiError::ShapeMismatch),
            }
        },
    }
}

/// The request for the usage record: the second provider is asked with a
/// plain request, the first with the model in a body.
pub open spec fn usage_request_of(
    usage_url: Seq<char>,
    api_key: Seq<char>,
    model: Option<Seq<char>>,
) -> RequestView {
    if occurs_in("packyapi.com"@, usage_url) {
        RequestView {
            method: Method::Get,
            url: usage_url,
            authorization: "Bearer "@ + api_key,
            model: None,
        }
    } else {
        RequestView {
            method: Method::Post,
            url: usage_url,
            authorization: "Bearer "@ + api_key,
            model,
        }
    }
}

/// The text of an error.
pub open spec fn error_text(e: ApiError) -> Seq<char> {
    match e {
        ApiError::CredentialMissing => "API key is not configured"@,
        ApiError::TransportFailure => "API request could not be sent"@,
        ApiError::UnsuccessfulStatus(status) => "API request failed: "@ + crate::text::digits_of(
            status as nat,
        ),
        ApiError::ShapeMismatch => "API JSON parse error"@,
    }
}

impl ApiError {
    /// The text of the error.
    pub fn message(&self) -> (r: String)
        ensures
            r@ == error_text(*self),
    {
        match self {
            ApiError::CredentialMissing => String::from_str("API key is not configured"),
            ApiError::TransportFailure => String::from_str("API request could not be sent"),
            ApiError::UnsuccessfulStatus(status) => {
                let mut text = String::from_str("API request failed: ");
                push_digits(&mut text, *status as u64);
                text
            },
            ApiError::ShapeMismatch => String::from_str("API JSON parse error"),
        }
    }
}

/// Whether the status is one of success.
pub fn status_is_success(status: u16) -> (r: bool)
    ensures
        r == is_success(status),
{
    200 <= status && status <= 299
}

/// What a reply gives.
pub fn outcome<T>(reply: Reply<T>) -> (r: Result<T, ApiError>)
    ensures
        r == outcome_of(reply),
{
    match reply {
        Reply::Failed => Err(ApiError::TransportFailure),
        Reply::Answer { status, record } => {
            if !status_is_success(status) {
                Err(ApiError::UnsuccessfulStatus(status))
            } else {
                match record {
                    Some(r) => Ok(r),
                    None => Err(ApiError::ShapeMismatch),
                }
            }
        },
    }
}

/// The value of the header that carries the key.
pub fn authorization(api_key: &str) -> (r: String)
    ensures
        r@ == "Bearer "@ + api_key@,
{
    let mut value = String::from_str("Bearer ");
    value.append(api_key);
    value
}

/// A copy of a name that may be missing.
fn owned(name: Option<&str>) -> (r: Option<String>)
    ensures
        match r {
            Some(s) => name is Some && s@ == name->0@,
            None => name is None,
        },
{
    match name {
        Some(s) => Some(String::from_str(s)),
        None => None,
    }
}

/// The plans, each with its price label written and its limit filled in.
pub open spec fn all_formatted(plans: Seq<SubscriptionData>, formatted: Seq<SubscriptionData>) -> bool {
    &&& formatted.len() == plans.len()
    &&& forall|i: int| 0 <= i < plans.len() ==> (#[trigger] formatted[i])@ == plan_formatted(plans[i]@)
}

/// Each plan of a list with its price label written and its limit filled in.
pub fn format_all(plans: Vec<SubscriptionData>) -> (r: Vec<SubscriptionData>)
    ensures
        all_formatted(plans@, r@),
{
    let n: usize = plans.len();
    let mut out: Vec<SubscriptionData> = Vec::new();
    let mut i: usize = 0;
    while i < n
        invariant
            n == plans@.len(),
            i <= n,
            out@.len() == i,
            forall|m: int| 0 <= m < i ==> (#[trigger] out@[m])@ == plan_formatted(plans@[m]@),
        decreases n - i,
    {
        let mut plan = plans[i].clone();
        plan.format();
        out.push(plan);
        i = i + 1;
    }
    out
}

/// The client of the relay service: it knows where the service is and
/// holds the key.
#[derive(Debug)]
pub struct ApiClient {
    pub config: ApiConfig,
}

impl ApiClient {
    /// The client for a configuration. There is none without a key.
    pub fn new(config: ApiConfig) -> (r: Result<Self, ApiError>)
        ensures
            match r {
                Ok(client) => config.api_key@.len() > 0 && client.config == config,
                Err(e) => config.api_key@.len() == 0 && e == ApiError::CredentialMissing,
            },
    {
        if config.api_key.as_str().unicode_len() == 0 {
            Err(ApiError::CredentialMissing)
        } else {
            Ok(ApiClient { config })
        }
    }

    /// The request for the usage record.
    pub fn usage_request(&self, model: Option<&str>) -> (r: Request)
        ensures
            r@ == usage_request_of(
                self.config.usage_url@,
                self.config.api_key@,
                optional_chars(model),
            ),
    {
        if self.config.is_packyapi() {
            Request {
                method: Method::Get,
                url: self.config.usage_url.clone(),
                authorization: authorization(self.config.api_key.as_str()),
                model: None,
            }
        } else {
            Request {
                method: Method::Post,
                url: self.config.usage_url.clone(),
                authorization: authorization(self.config.api_key.as_str()),
                model: owned(model),
            }
        }
    }

    /// The request for the list of subscriptions.
    pub fn subscriptions_request(&self, model: Option<&str>) -> (r: Request)
        ensures
            r@ == (RequestView {
                method: Method::Post,
                url: self.config.subscription_url@,
                authorization: "Bearer "@ + self.config.api_key@,
                model: optional_chars(model),
            }),
    {
        Request {
            method: Method::Post,
            url: self.config.subscription_url.clone(),
            authorization: authorization(self.config.api_key.as_str()),
            model: owned(model),
        }
    }

    /// The usage record that a reply gives, normalised; or why it gives
    /// none.
    pub fn get_usage(&self, reply: Reply<UsageData>) -> (r: Result<UsageData, ApiError>)
        ensures
            match outcome_of(reply) {
                Ok(answer) => r is Ok && r->Ok_0@ == usage_calculated(answer@),
                Err(e) => r == Err::<UsageData, ApiError>(e),
            },
    {
        match outcome(reply) {
            Ok(answer) => {
                let mut usage = answer;
                usage.calculate();
                Ok(usage)
            },
            Err(e) => Err(e),
        }
    }

    /// The list of subscriptions that a reply gives, each plan with its
    /// price label and its limit filled in; or why it gives none.
    pub fn get_subscriptions(&self, reply: Reply<Vec<SubscriptionData>>) -> (r: Result<
        Vec<SubscriptionData>,
        ApiError,
    >)
        ensures
            match outcome_of(reply) {
                Ok(answer) => r is Ok && all_formatted(answer@, r->Ok_0@),
                Err(e) => r == Err::<Vec<SubscriptionData>, ApiError>(e),
            },
    {
        match outcome(reply) {
            Ok(answer) => Ok(format_all(answer)),
            Err(e) => Err(e),
        }
    }

    /// Whether the usage record that a reply gives shows that no hundredth
    /// is left; or why the reply gives none.
    pub fn check_token_limit(&self, reply: Reply<UsageData>) -> (r: Result<bool, ApiError>)
        ensures
            match outcome_of(reply) {
                Ok(answer) => r == Ok::<bool, ApiError>(
                    usage_remaining_tokens(usage_calculated(answer@)) == 0,
                ),
                Err(e) => r == Err::<bool, ApiError>(e),
            },
    {
        match self.get_usage(reply) {
            Ok(usage) => Ok(usage.get_remaining_tokens() == 0),
            Err(e) => Err(e),
        }
    }
}

} // verus!
