//! The settings the collaborators need.
use vstd::prelude::*;

verus! {

/// Credentials and addresses of the outside services.
pub struct AppConfig {
    pub deepl_api_key: String,
    pub openweather_api_key: String,
    pub database_url: String,
}

} // verus!
