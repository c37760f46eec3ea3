//! The configuration the daemon runs with: root domain, ordered subdomain
//! entries to keep in sync, poll interval, and the selected DNS provider's
//! settings. Loaded once at startup and never mutated; the environment
//! reading itself happens outside the library, which only decides what a
//! provider name selects.

use vstd::prelude::*;

verus! {

/// Settings of the Cloudflare-style provider.
#[derive(Debug, Clone)]
pub struct CloudflareProviderSettings {
    pub zone_id: String,
    pub api_url: String,
    pub api_key: String,
    pub proxy_enabled: bool,
}

impl CloudflareProviderSettings {
    pub fn new(zone_id: String, api_url: String, api_key: String, proxy_enabled: bool) -> (r: Self)
        ensures
            r.zone_id@ == zone_id@,
            r.api_url@ == api_url@,
            r.api_key@ == api_key@,
            r.proxy_enabled == proxy_enabled,
    {
        Self { zone_id, api_url, api_key, proxy_enabled }
    }
}

/// The closed set of supported providers; adding one means adding a
/// variant, never touching the reconciler.
#[derive(Debug, Clone)]
pub enum DnsProviderSelection {
    Cloudflare(CloudflareProviderSettings),
}

/// The configured DNS provider.
#[derive(Debug, Clone)]
pub struct DnsProvider {
    pub config: DnsProviderSelection,
}

/// Everything loaded at startup.
#[derive(Debug, Clone)]
pub struct AppState {
    pub environment: String,
    pub dns_entries_to_sync: Vec<String>,
    pub domain: String,
    pub refresh_interval_seconds: u64,
    pub dns_provider: DnsProvider,
}

/// What lowercasing a string yields.
pub uninterp spec fn lower_of(s: Seq<char>) -> Seq<char>;

/// Relies on str::to_lowercase: the result depends on the characters alone.
#[verifier::external_body]
fn lowercase(s: &str) -> (r: String)
    ensures
        r@ == lower_of(s@),
{
    s.to_lowercase()
}

/// Whether the configured provider name selects the Cloudflare-style
/// provider; the comparison ignores case.
pub fn provider_name_is_cloudflare(raw: &str) -> (r: bool)
    ensures
        r == (lower_of(raw@) == "cloudflare"@),
{
    let lowered = lowercase(raw);
    lowered == "cloudflare".to_owned()
}

} // verus!
