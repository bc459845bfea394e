//! The run-time configuration: endpoint URL, API key, and an auxiliary
//! string that the pipeline accepts but never reads.

use vstd::prelude::*;

verus! {

/// Why a configuration was rejected.
#[derive(Debug)]
pub enum ConfigError {
    /// The endpoint URL is empty.
    EmptyUrl,
    /// The API key is empty.
    EmptyApiKey,
    /// The settings source was missing, unreadable, or lacked a required key.
    MissingOrMalformed,
}

impl ConfigError {
    /// A human-readable description of the error.
    pub fn message(&self) -> (r: &'static str)
        ensures
            r@ == match *self {
                ConfigError::EmptyUrl => "configuration url is empty"@,
                ConfigError::EmptyApiKey => "configuration api_key is empty"@,
                ConfigError::MissingOrMalformed => "settings are missing or malformed"@,
            },
    {
        match *self {
            ConfigError::EmptyUrl => "configuration url is empty",
            ConfigError::EmptyApiKey => "configuration api_key is empty",
            ConfigError::MissingOrMalformed => "settings are missing or malformed",
        }
    }
}

/// The three configuration fields, immutable once constructed.
#[derive(Debug)]
pub struct AppConfig {
    pub url: String,
    pub api_key: String,
    pub data: String,
}

impl AppConfig {
    /// A configuration is well formed when its URL and API key are non-empty.
    pub open spec fn wf(&self) -> bool {
        self.url@.len() > 0 && self.api_key@.len() > 0
    }

    /// Validates and assembles a configuration. Accepts exactly the inputs
    /// with a non-empty URL and a non-empty API key; the auxiliary `data`
    /// string is kept but never read by the pipeline.
    pub fn new(url: String, api_key: String, data: String) -> (r: Result<AppConfig, ConfigError>)
        ensures
            match r {
                Ok(c) => c.url@ == url@ && c.api_key@ == api_key@ && c.data@ == data@ && c.wf(),
                Err(e) => (url@.len() == 0 || api_key@.len() == 0) && (e matches ConfigError::EmptyUrl
                    <==> url@.len() == 0) && (e matches ConfigError::EmptyApiKey <==> url@.len()
                    > 0 && api_key@.len() == 0),
            },
    {
        if url.as_str().unicode_len() == 0 {
            Err(ConfigError::EmptyUrl)
        } else if api_key.as_str().unicode_len() == 0 {
            Err(ConfigError::EmptyApiKey)
        } else {
            Ok(AppConfig { url, api_key, data })
        }
    }
}

impl Clone for AppConfig {
    /// Field-for-field copy; each request of the pipeline takes its own copy.
    fn clone(&self) -> (r: Self)
        ensures
            r.url@ == self.url@ && r.api_key@ == self.api_key@ && r.data@ == self.data@,
    {
        AppConfig { url: self.url.clone(), api_key: self.api_key.clone(), data: self.data.clone() }
    }
}

} // verus!
