//! Keeps a set of DNS hostnames pointed at the machine's current public IPv4
//! address. The core is a pure reconciliation engine: it compares a desired
//! set of subdomains against the provider's current records and emits the
//! minimal ordered list of create/update operations, never touching records
//! outside the desired set. Around it sit a backoff policy for retried
//! transport sends, a provider gateway's response handling, and a cycle
//! driver state machine; all of the decision logic is verified here, while
//! the actual network and environment I/O lives in the surrounding binary.

pub mod app_error;
pub mod backoff;
pub mod cloudflare;
pub mod config;
pub mod cycle;
pub mod dns_record;
pub mod ipify;
pub mod reconcile;
pub mod services;
pub mod snapshot;
