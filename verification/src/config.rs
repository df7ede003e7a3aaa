//! Process configuration, as the core sees it: already validated values.
//!
//! Loading and validating the configuration file is the host's concern; the
//! core trusts every field here as already valid.

use vstd::prelude::*;

verus! {

/// The validated process configuration.
#[derive(Debug)]
pub struct Config {
    pub port: u16,
    pub frontend_dir: String,
    pub manifest_cache: bool,
    pub apm_manifest_url: String,
    pub notifications_manifest_url: String,
    pub comments_manifest_url: String,
    pub admin_manifest_url: String,
    pub ga_tag_id: Option<String>,
    pub stripe_publishable_key: String,
    pub new_relic_app_name: String,
    pub new_relic_license_key: Option<String>,
}

} // verus!
