//! Where the two services live and the keys that open them.

use vstd::prelude::*;
use vstd::string::*;

verus! {

/// The address of the completion service.
pub open spec fn completion_url() -> Seq<char> {
    "https://api.deepseek.com/chat/completions"@
}

/// The address of the search service.
pub open spec fn search_service_url() -> Seq<char> {
    "https://api.bochaai.com/v1/ai-search"@
}

/// The value of the `Authorization` header for `key`.
pub open spec fn bearer(key: Seq<char>) -> Seq<char> {
    "Bearer "@ + key
}

/// Addresses and keys of the completion and the search service.
#[derive(Debug, PartialEq, Eq)]
pub struct DeepSeekConfig {
    pub api_key: String,
    pub api_url: String,
    pub search_api_key: String,
    pub search_url: String,
}

pub struct DeepSeekConfigView {
    pub api_key: Seq<char>,
    pub api_url: Seq<char>,
    pub search_api_key: Seq<char>,
    pub search_url: Seq<char>,
}

impl View for DeepSeekConfig {
    type V = DeepSeekConfigView;

    open spec fn view(&self) -> DeepSeekConfigView {
        DeepSeekConfigView {
            api_key: self.api_key@,
            api_url: self.api_url@,
            search_api_key: self.search_api_key@,
            search_url: self.search_url@,
        }
    }
}

impl Clone for DeepSeekConfig {
    fn clone(&self) -> (copy: Self)
        ensures
            copy@ == self@,
    {
        DeepSeekConfig {
            api_key: self.api_key.clone(),
            api_url: self.api_url.clone(),
            search_api_key: self.search_api_key.clone(),
            search_url: self.search_url.clone(),
        }
    }
}

impl DeepSeekConfig {
    /// The configuration with the two keys as given and the services at
    /// their fixed addresses. An absent key is the empty string.
    pub fn new(api_key: String, search_api_key: String) -> (config: Self)
        ensures
            config@ == (DeepSeekConfigView {
                api_key: api_key@,
                api_url: completion_url(),
                search_api_key: search_api_key@,
                search_url: search_service_url(),
            }),
    {
        DeepSeekConfig {
            api_key,
            api_url: String::from_str("https://api.deepseek.com/chat/completions"),
            search_api_key,
            search_url: String::from_str("https://api.bochaai.com/v1/ai-search"),
        }
    }

    /// The `Authorization` header of a completion call.
    pub fn authorization(&self) -> (header: String)
        ensures
            header@ == bearer(self@.api_key),
    {
        String::from_str("Bearer ").concat(self.api_key.as_str())
    }

    /// The `Authorization` header of a search call.
    pub fn search_authorization(&self) -> (header: String)
        ensures
            header@ == bearer(self@.search_api_key),
    {
        String::from_str("Bearer ").concat(self.search_api_key.as_str())
    }
}

} // verus!
