use vstd::prelude::*;
use vstd::string::StringExecFns;

use crate::errors::WorkOsError;

verus! {

/// The mathematical model of a [`WorkOs`] configuration holder.
pub struct WorkOsView {
    pub key: Seq<char>,
    pub base_url: Seq<char>,
    pub api_key: Option<Seq<char>>,
}

/// Holds the client configuration: the API secret key, the base URL of the
/// provider, and an optional bearer token (the "API key") that is set once
/// and then read at the point of use.
pub struct WorkOs {
    pub key: String,
    pub base_url: String,
    pub api_key: Option<String>,
}

impl View for WorkOs {
    type V = WorkOsView;

    open spec fn view(&self) -> WorkOsView {
        WorkOsView {
            key: self.key@,
            base_url: self.base_url@,
            api_key: match self.api_key {
                Some(k) => Some(k@),
                None => None,
            },
        }
    }
}

/// The production endpoint used when no base URL is given.
pub open spec fn spec_default_base_url() -> Seq<char> {
    "https://api.workos.com/"@
}

/// The message carried by the error that a missing API key raises.
pub open spec fn spec_missing_key_message() -> Seq<char> {
    "WORKOS_API_KEY should be set"@
}

/// Storing a bearer token replaces any previous one and touches nothing else.
pub open spec fn spec_set_api_key(v: WorkOsView, k: Seq<char>) -> WorkOsView {
    WorkOsView { api_key: Some(k), ..v }
}

/// The bearer token that a lookup on this configuration finds, if any.
pub open spec fn spec_api_key_lookup(v: WorkOsView) -> Option<Seq<char>> {
    v.api_key
}

impl WorkOs {
    /// Builds a configuration with the given secret key and the production
    /// base URL; no bearer token is set.
    pub fn new(new_key: &str) -> (r: Self)
        ensures
            r@.key == new_key@,
            r@.base_url == spec_default_base_url(),
            r@.api_key is None,
    {
        Self {
            key: String::from_str(new_key),
            base_url: String::from_str("https://api.workos.com/"),
            api_key: None,
        }
    }

    /// Builds a configuration with the given secret key and base URL (used to
    /// aim the client at a local endpoint); no bearer token is set.
    pub fn new_with_url(new_key: &str, base_url: &str) -> (r: Self)
        ensures
            r@.key == new_key@,
            r@.base_url == base_url@,
            r@.api_key is None,
    {
        Self {
            key: String::from_str(new_key),
            base_url: String::from_str(base_url),
            api_key: None,
        }
    }

    /// Returns the stored bearer token, or a `ConfigurationError` when none
    /// was ever set.  No side effects.
    pub fn get_api_key(&self) -> (r: Result<String, WorkOsError>)
        ensures
            match spec_api_key_lookup(self@) {
                Some(k) => r matches Ok(s) && s@ == k,
                None => r matches Err(e) && (e matches WorkOsError::ConfigurationError(m)
                    && m@ == spec_missing_key_message()),
            },
    {
        if let Some(api_key) = &self.api_key {
            return Ok(api_key.clone());
        }

        Err(WorkOsError::ConfigurationError(String::from_str("WORKOS_API_KEY should be set")))
    }

    /// Stores a bearer token for later use; overwrites any previous value.
    pub fn set_api_key(&mut self, key: &str)
        ensures
            final(self)@ == spec_set_api_key(old(self)@, key@),
    {
        self.api_key = Some(String::from_str(key));
    }
}

/// Law: a lookup right after a store finds exactly the stored token,
/// whatever the configuration held before.
pub proof fn lemma_set_then_get(v: WorkOsView, k: Seq<char>)
    ensures
        spec_api_key_lookup(spec_set_api_key(v, k)) == Some(k),
{
}

} // verus!
