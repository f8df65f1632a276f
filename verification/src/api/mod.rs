//! The two providers' usage records, the subscription plans, and the
//! arithmetic that turns either record into the same figures.

pub mod cache;
pub mod client;
pub mod plan;
pub mod reconcile;
pub mod settings;
pub mod usage;

use crate::text::{contains, occurs_in};
use vstd::prelude::*;
use vstd::string::StringExecFns;

verus! {

/// Where the relay service is reached and with which key.
#[derive(Clone, Debug)]
pub struct ApiConfig {
    pub enabled: bool,
    pub api_key: String,
    pub usage_url: String,
    pub subscription_url: String,
}

/// The envelope in which the first provider wraps every answer.
#[derive(Clone, Debug)]
pub struct ResponseDTO<T> {
    pub code: i32,
    pub ok: bool,
    pub msg: String,
    pub data: T,
}

impl Default for ApiConfig {
    fn default() -> (c: ApiConfig)
        ensures
            !c.enabled,
            c.api_key@ == Seq::<char>::empty(),
            c.usage_url@ == "https://www.88code.ai/api/usage"@,
            c.subscription_url@ == "https://www.88code.ai/api/subscription"@,
    {
        ApiConfig {
            enabled: false,
            api_key: String::new(),
            usage_url: String::from_str("https://www.88code.ai/api/usage"),
            subscription_url: String::from_str("https://www.88code.ai/api/subscription"),
        }
    }
}

impl ApiConfig {
    /// Whether the usage URL points at the second provider.
    pub fn is_packyapi(&self) -> (r: bool)
        ensures
            r == occurs_in("packyapi.com"@, self.usage_url@),
    {
        contains(self.usage_url.as_str(), "packyapi.com")
    }
}

} // verus!
