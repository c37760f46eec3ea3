use dyndns::app_error::AppError;
use dyndns::cloudflare;
use dyndns::config::{provider_name_is_cloudflare, CloudflareProviderSettings};
use dyndns::ipify::{Format, Ipify};
use dyndns::services;

#[test]
fn test_provider_name_ignores_case() {
    assert!(provider_name_is_cloudflare("cloudflare"));
    assert!(provider_name_is_cloudflare("Cloudflare"));
    assert!(provider_name_is_cloudflare("CLOUDFLARE"));
    assert!(!provider_name_is_cloudflare("route53"));
    assert!(!provider_name_is_cloudflare(""));
}

#[test]
fn test_cloudflare_settings_new() {
    let s = CloudflareProviderSettings::new(
        "zone1".to_string(),
        "https://api.cloudflare.com/client/v4".to_string(),
        "key".to_string(),
        true,
    );
    assert_eq!(s.zone_id, "zone1");
    assert_eq!(s.api_url, "https://api.cloudflare.com/client/v4");
    assert_eq!(s.api_key, "key");
    assert!(s.proxy_enabled);
}

#[test]
fn test_ipify_urls() {
    let text = Ipify::new(Format::Text);
    assert_eq!(text.url, "https://api.ipify.org");
    let json = Ipify::new(Format::Json);
    assert_eq!(json.url, "https://api.ipify.org?format=json");
}

#[test]
fn test_error_constructors() {
    let a = AppError::new("Failed to fetch public IP address".to_string());
    assert_eq!(a.message, "Failed to fetch public IP address");
    let c = cloudflare::Error::new("Failed to fetch domain records".to_string());
    assert_eq!(c.message, "Failed to fetch domain records");
    let s = services::Error::new("Failed to update record".to_string());
    assert_eq!(s.message, "Failed to update record");
}
