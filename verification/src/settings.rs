//! Settings of the service.

use vstd::prelude::*;
use vstd::string::StringExecFns;

verus! {

/// Where the settings are read from, without the file's extension.
pub const SETTINGS_FILE: &'static str = "config/default";

/// The model that is asked where no other is chosen.
pub const DEFAULT_MODEL: &'static str = "gemini-2.5-flash";

/// The settings that the service starts with.
#[derive(Debug, Clone)]
pub struct AppSettings {
    pub qdrant_url: String,
    pub llm_model: String,
}

impl AppSettings {
    /// The settings with these two values.
    pub fn new(qdrant_url: String, llm_model: String) -> (r: AppSettings)
        ensures
            r.qdrant_url@ == qdrant_url@,
            r.llm_model@ == llm_model@,
    {
        AppSettings { qdrant_url, llm_model }
    }
}

/// The model to ask: the one chosen in the environment, else the default.
pub fn chosen_model(from_environment: Option<String>) -> (r: String)
    ensures
        r@ == match from_environment {
            Some(model) => model@,
            None => DEFAULT_MODEL@,
        },
{
    match from_environment {
        Some(model) => model,
        None => String::from_str(DEFAULT_MODEL),
    }
}

} // verus!
