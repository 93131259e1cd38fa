//! Application configuration and the rules a valid configuration meets.
//!
//! Reading the environment and `.env` happens outside the library; the values
//! read are handed to [`AppConfig::from_values`].
use vstd::prelude::*;

use crate::text::{
    chars_of, has_prefix, is_blank, is_hex_digit, lemma_trimmed_idempotent, starts_with, trim,
    trimmed,
};

verus! {

/// The environment variables the configuration is read from.
#[derive(Debug, Clone, Copy, PartialEq, Eq, Structural)]
pub enum ConfigVar {
    ApiUrl,
    CompanyId,
    FirebaseWebApiKey,
    FirebaseProjectId,
}

impl ConfigVar {
    pub open spec fn spec_name(self) -> Seq<char> {
        match self {
            ConfigVar::ApiUrl => "EMSYS_API_URL"@,
            ConfigVar::CompanyId => "EMSYS_COMPANY_ID"@,
            ConfigVar::FirebaseWebApiKey => "FIREBASE_WEB_API_KEY"@,
            ConfigVar::FirebaseProjectId => "FIREBASE_PROJECT_ID"@,
        }
    }

    /// The name of the environment variable.
    pub fn name(self) -> (r: &'static str)
        ensures
            r@ == self.spec_name(),
    {
        match self {
            ConfigVar::ApiUrl => "EMSYS_API_URL",
            ConfigVar::CompanyId => "EMSYS_COMPANY_ID",
            ConfigVar::FirebaseWebApiKey => "FIREBASE_WEB_API_KEY",
            ConfigVar::FirebaseProjectId => "FIREBASE_PROJECT_ID",
        }
    }
}

/// The configuration of the client.
#[derive(Debug, Clone, PartialEq, Eq)]
pub struct AppConfig {
    pub api_url: String,
    /// The company the client works for, when one is configured.
    pub company_id: Option<String>,
    pub firebase: FirebaseConfig,
}

/// The Firebase project the client signs in with.
#[derive(Debug, Clone, PartialEq, Eq)]
pub struct FirebaseConfig {
    pub web_api_key: String,
    pub project_id: String,
}

/// Why the configuration could not be built.
#[derive(Debug, Clone, Copy, PartialEq, Eq, Structural)]
pub enum ConfigError {
    /// A required variable is not set.
    Missing(ConfigVar),
    /// A variable holds a value the client cannot use.
    Invalid(ConfigVar),
}

impl ConfigError {
    pub open spec fn spec_message(self) -> Seq<char> {
        match self {
            ConfigError::Missing(v) => "missing required environment variable: "@ + v.spec_name(),
            ConfigError::Invalid(v) => "invalid configuration value: "@ + v.spec_name(),
        }
    }

    /// The message shown for the error.
    pub fn message(&self) -> (r: String)
        ensures
            r@ == self.spec_message(),
    {
        match self {
            ConfigError::Missing(v) => {
                let mut r = String::from_str("missing required environment variable: ");
                r.append(v.name());
                r
            },
            ConfigError::Invalid(v) => {
                let mut r = String::from_str("invalid configuration value: ");
                r.append(v.name());
                r
            },
        }
    }
}

/// The views of an optional text.
pub open spec fn opt_view(o: Option<String>) -> Option<Seq<char>> {
    match o {
        Some(s) => Some(s@),
        None => None,
    }
}

/// An optional value trimmed, and absent when nothing but whitespace is left.
pub open spec fn normalized(o: Option<Seq<char>>) -> Option<Seq<char>> {
    match o {
        Some(v) => if is_blank(v) {
            None
        } else {
            Some(trimmed(v))
        },
        None => None,
    }
}

/// A MongoDB object id: exactly 24 hexadecimal digits.
pub open spec fn is_object_id(s: Seq<char>) -> bool {
    s.len() == 24 && forall|i: int| 0 <= i < s.len() ==> is_hex_digit(#[trigger] s[i])
}

/// An API address: not blank, and starting with `http://` or `https://`.
pub open spec fn is_api_url(s: Seq<char>) -> bool {
    !is_blank(s) && (has_prefix(s, "http://"@) || has_prefix(s, "https://"@))
}

/// The first value the configuration cannot use, checked in this order: the
/// API address, the company id (when there is one), the Firebase key, the
/// Firebase project id.
pub open spec fn config_fault(
    api_url: Seq<char>,
    company_id: Option<Seq<char>>,
    web_api_key: Seq<char>,
    project_id: Seq<char>,
) -> Option<ConfigVar> {
    if !is_api_url(api_url) {
        Some(ConfigVar::ApiUrl)
    } else if company_id matches Some(c) && !is_object_id(c) {
        Some(ConfigVar::CompanyId)
    } else if is_blank(web_api_key) {
        Some(ConfigVar::FirebaseWebApiKey)
    } else if is_blank(project_id) {
        Some(ConfigVar::FirebaseProjectId)
    } else {
        None
    }
}

/// Trims an optional value, dropping it when nothing is left.
pub fn normalize_optional(value: Option<String>) -> (r: Option<String>)
    ensures
        opt_view(r) == normalized(opt_view(value)),
{
    match value {
        Some(v) => {
            let t = trim(v.as_str());
            if t.is_empty() {
                None
            } else {
                Some(String::from_str(t))
            }
        },
        None => None,
    }
}

/// Whether `value` is a MongoDB object id: 24 hexadecimal digits.
pub fn is_mongodb_object_id(value: &str) -> (r: bool)
    ensures
        r == is_object_id(value@),
{
    let v = chars_of(value);
    if v.len() != 24 {
        return false;
    }
    let mut i: usize = 0;
    while i < v.len()
        invariant
            i <= v.len(),
            v@ == value@,
            forall|k: int| 0 <= k < i ==> is_hex_digit(#[trigger] v@[k]),
        decreases v.len() - i,
    {
        let u = v[i] as u32;
        if !((48 <= u && u <= 57) || (65 <= u && u <= 70) || (97 <= u && u <= 102)) {
            assert(!is_hex_digit(v@[i as int]));
            return false;
        }
        i = i + 1;
    }
    true
}

impl AppConfig {
    /// The fault of this configuration, if any.
    pub open spec fn fault(self) -> Option<ConfigVar> {
        config_fault(
            self.api_url@,
            opt_view(self.company_id),
            self.firebase.web_api_key@,
            self.firebase.project_id@,
        )
    }

    /// Builds a configuration from the values read, trimming the optional
    /// company id (a blank one counts as absent), and checks it.
    pub fn from_values(
        api_url: String,
        company_id: Option<String>,
        firebase_web_api_key: String,
        firebase_project_id: String,
    ) -> (r: Result<Self, ConfigError>)
        ensures
            match r {
                Ok(c) => {
                    &&& c.fault() is None
                    &&& c.api_url@ == api_url@
                    &&& opt_view(c.company_id) == normalized(opt_view(company_id))
                    &&& c.firebase.web_api_key@ == firebase_web_api_key@
                    &&& c.firebase.project_id@ == firebase_project_id@
                },
                Err(e) => config_fault(
                    api_url@,
                    normalized(opt_view(company_id)),
                    firebase_web_api_key@,
                    firebase_project_id@,
                ) matches Some(v) && e == ConfigError::Invalid(v),
            },
    {
        let config = AppConfig {
            api_url,
            company_id: normalize_optional(company_id),
            firebase: FirebaseConfig {
                web_api_key: firebase_web_api_key,
                project_id: firebase_project_id,
            },
        };
        match config.validate() {
            Ok(()) => Ok(config),
            Err(e) => Err(e),
        }
    }

    /// Checks the configuration and names the first value it cannot use.
    pub fn validate(&self) -> (r: Result<(), ConfigError>)
        ensures
            match self.fault() {
                Some(v) => r == Err::<(), ConfigError>(ConfigError::Invalid(v)),
                None => r is Ok,
            },
    {
        let url = self.api_url.as_str();
        if trim(url).is_empty() || !(starts_with(url, "http://") || starts_with(url, "https://")) {
            return Err(ConfigError::Invalid(ConfigVar::ApiUrl));
        }
        if let Some(company_id) = &self.company_id {
            if !is_mongodb_object_id(company_id.as_str()) {
                return Err(ConfigError::Invalid(ConfigVar::CompanyId));
            }
        }
        if trim(self.firebase.web_api_key.as_str()).is_empty() {
            return Err(ConfigError::Invalid(ConfigVar::FirebaseWebApiKey));
        }
        if trim(self.firebase.project_id.as_str()).is_empty() {
            return Err(ConfigError::Invalid(ConfigVar::FirebaseProjectId));
        }
        Ok(())
    }
}

/// Normalizing an optional value twice is normalizing it once, so the
/// company id of a configuration, given back to `AppConfig::from_values`, is
/// kept as it is.
pub proof fn law_normalized_idempotent(o: Option<Seq<char>>)
    ensures
        normalized(normalized(o)) == normalized(o),
{
    if let Some(v) = o {
        lemma_trimmed_idempotent(v);
    }
}

} // verus!
