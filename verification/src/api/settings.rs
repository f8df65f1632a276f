//! What the settings file of the coding assistant says of the relay
//! service: the key to use, and the address of the usage endpoint.
//!
//! The file is a JSON object; the two values of interest are the strings
//! `ANTHROPIC_AUTH_TOKEN` and `ANTHROPIC_BASE_URL` of its member `env`.

use crate::json::{as_str, json_parsed, member, member_of, parse, string_of};
use crate::text::{contains, occurs_in};
use vstd::prelude::*;
use vstd::string::{StrSliceExecFns, StringExecFns};

verus! {

/// The string called `name` in the member `env` of the settings `text`.
pub open spec fn settings_string(text: Seq<char>, name: Seq<char>) -> Option<Seq<char>> {
    match json_parsed(text) {
        Some(root) => match member_of(root, "env"@) {
            Some(env) => match member_of(env, name) {
                Some(value) => string_of(value),
                None => None,
            },
            None => None,
        },
        None => None,
    }
}

/// The base address is one of a relay service whose usage can be shown.
pub open spec fn is_relay_base(base: Seq<char>) -> bool {
    occurs_in("88code.org"@, base) || occurs_in("88code.ai"@, base) || occurs_in(
        "packyapi.com"@,
        base,
    ) || occurs_in("rainapp.top"@, base)
}

/// The address of the usage endpoint that belongs to a base address.
pub open spec fn usage_url_of_base(base: Seq<char>) -> Option<Seq<char>> {
    if occurs_in("packyapi.com"@, base) {
        Some("https://www.packyapi.com/api/usage/token/"@)
    } else if occurs_in("88code.ai"@, base) || occurs_in("rainapp.top"@, base) {
        Some("https://www.88code.ai/api/usage"@)
    } else if occurs_in("88code.org"@, base) {
        Some("https://www.88code.org/api/usage"@)
    } else {
        None
    }
}

/// The key that the settings hold for a relay service: the token, where
/// the base address is one of a relay service.
pub open spec fn api_key_in(text: Seq<char>) -> Option<Seq<char>> {
    match settings_string(text, "ANTHROPIC_BASE_URL"@) {
        Some(base) => if is_relay_base(base) {
            settings_string(text, "ANTHROPIC_AUTH_TOKEN"@)
        } else {
            None
        },
        None => None,
    }
}

/// The address of the usage endpoint that the settings point to.
pub open spec fn usage_url_in(text: Seq<char>) -> Option<Seq<char>> {
    match settings_string(text, "ANTHROPIC_BASE_URL"@) {
        Some(base) => usage_url_of_base(base),
        None => None,
    }
}

/// The characters of a string that may be missing.
pub open spec fn optional_text(s: Option<String>) -> Option<Seq<char>> {
    match s {
        Some(text) => Some(text@),
        None => None,
    }
}

/// The string called `name` in the member `env` of the settings `text`.
pub fn settings_value(text: &str, name: &str) -> (r: Option<String>)
    ensures
        optional_text(r) == settings_string(text@, name@),
{
    let root = match parse(text) {
        Some(root) => root,
        None => {
            return None;
        },
    };
    let env = match member(&root, "env") {
        Some(env) => env,
        None => {
            return None;
        },
    };
    let value = match member(env, name) {
        Some(value) => value,
        None => {
            return None;
        },
    };
    match as_str(value) {
        Some(s) => Some(String::from_str(s)),
        None => None,
    }
}

/// Whether the base address is one of a relay service.
pub fn is_relay_base_url(base: &str) -> (r: bool)
    ensures
        r == is_relay_base(base@),
{
    contains(base, "88code.org") || contains(base, "88code.ai") || contains(base, "packyapi.com")
        || contains(base, "rainapp.top")
}

/// The address of the usage endpoint that belongs to a base address.
pub fn usage_url_for_base(base: &str) -> (r: Option<String>)
    ensures
        optional_text(r) == usage_url_of_base(base@),
{
    if contains(base, "packyapi.com") {
        Some(String::from_str("https://www.packyapi.com/api/usage/token/"))
    } else if contains(base, "88code.ai") || contains(base, "rainapp.top") {
        Some(String::from_str("https://www.88code.ai/api/usage"))
    } else if contains(base, "88code.org") {
        Some(String::from_str("https://www.88code.org/api/usage"))
    } else {
        None
    }
}

/// The key for the relay service that the settings file holds. `content`
/// is the text of the file.
pub fn get_api_key_from_claude_settings(content: &str) -> (r: Option<String>)
    ensures
        optional_text(r) == api_key_in(content@),
{
    match settings_value(content, "ANTHROPIC_BASE_URL") {
        Some(base) => {
            if is_relay_base_url(base.as_str()) {
                settings_value(content, "ANTHROPIC_AUTH_TOKEN")
            } else {
                None
            }
        },
        None => None,
    }
}

/// The address of the usage endpoint that the settings file points to.
/// `content` is the text of the file.
pub fn get_usage_url_from_claude_settings(content: &str) -> (r: Option<String>)
    ensures
        optional_text(r) == usage_url_in(content@),
{
    match settings_value(content, "ANTHROPIC_BASE_URL") {
        Some(base) => usage_url_for_base(base.as_str()),
        None => None,
    }
}

/// The characters of a string slice that may be missing.
pub open spec fn optional_chars(s: Option<&str>) -> Option<Seq<char>> {
    match s {
        Some(text) => Some(text@),
        None => None,
    }
}

/// The option is set: it is there and not empty.
pub open spec fn is_set(option: Option<Seq<char>>) -> bool {
    option is Some && option->0.len() > 0
}

/// The address of the usage endpoint: the first of the two options that
/// is set; else what the settings point to; else that of the first
/// provider.
pub open spec fn resolved_usage_url(
    own: Option<Seq<char>>,
    shared: Option<Seq<char>>,
    settings: Option<Seq<char>>,
) -> Seq<char> {
    if is_set(own) {
        own->0
    } else if is_set(shared) {
        shared->0
    } else if settings is Some && usage_url_in(settings->0) is Some {
        usage_url_in(settings->0)->0
    } else {
        "https://www.88code.ai/api/usage"@
    }
}

/// The key: the option, where it is set; else what the settings hold.
pub open spec fn resolved_api_key(own: Option<Seq<char>>, settings: Option<Seq<char>>) -> Option<
    Seq<char>,
> {
    if is_set(own) {
        own
    } else {
        match settings {
            Some(text) => api_key_in(text),
            None => None,
        }
    }
}

/// Whether the option is there and not empty.
pub fn option_is_set(option: Option<&str>) -> (r: bool)
    ensures
        r == is_set(optional_chars(option)),
{
    match option {
        Some(text) => text.unicode_len() > 0,
        None => false,
    }
}

/// The address of the usage endpoint. `own` is the option of the segment
/// that asks, `shared` that of the usage segment where another segment
/// asks, `settings` the text of the settings file; each is `None` where
/// there is none.
pub fn resolve_usage_url(own: Option<&str>, shared: Option<&str>, settings: Option<&str>) -> (r:
    String)
    ensures
        r@ == resolved_usage_url(
            optional_chars(own),
            optional_chars(shared),
            optional_chars(settings),
        ),
{
    if option_is_set(own) {
        match own {
            Some(url) => {
                return String::from_str(url);
            },
            None => {},
        }
    }
    if option_is_set(shared) {
        match shared {
            Some(url) => {
                return String::from_str(url);
            },
            None => {},
        }
    }
    match settings {
        Some(text) => match get_usage_url_from_claude_settings(text) {
            Some(url) => url,
            None => String::from_str("https://www.88code.ai/api/usage"),
        },
        None => String::from_str("https://www.88code.ai/api/usage"),
    }
}

/// The key for the relay service. `own` is the option of the segment that
/// asks, `settings` the text of the settings file.
pub fn resolve_api_key(own: Option<&str>, settings: Option<&str>) -> (r: Option<String>)
    ensures
        optional_text(r) == resolved_api_key(optional_chars(own), optional_chars(settings)),
{
    if option_is_set(own) {
        match own {
            Some(key) => {
                return Some(String::from_str(key));
            },
            None => {},
        }
    }
    match settings {
        Some(text) => get_api_key_from_claude_settings(text),
        None => None,
    }
}

/// The address of the subscription endpoint: the option, where there is
/// one, else that of the first provider.
pub fn resolve_subscription_url(own: Option<&str>) -> (r: String)
    ensures
        r@ == match own {
            Some(url) => url@,
            None => "https://www.88code.ai/api/subscription"@,
        },
{
    match own {
        Some(url) => String::from_str(url),
        None => String::from_str("https://www.88code.ai/api/subscription"),
    }
}

} // verus!
