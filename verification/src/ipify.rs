//! The public-IP lookup client's settings: which response format the
//! service is asked for, and the fixed URL that format is served under.
//! The lookup call itself is plain I/O and happens outside the library.

use vstd::prelude::*;

verus! {

/// Response format the lookup service offers.
#[derive(Debug, Clone)]
pub enum Format {
    Json,
    Text,
}

/// The lookup client: the service URL matching the chosen format.
#[derive(Debug, Clone)]
pub struct Ipify {
    pub url: &'static str,
    pub format: Format,
}

impl Ipify {
    pub fn new(format: Format) -> (r: Self)
        ensures
            r.format == format,
            format is Json ==> r.url@ == "https://api.ipify.org?format=json"@,
            format is Text ==> r.url@ == "https://api.ipify.org"@,
    {
        let url = match &format {
            Format::Json => "https://api.ipify.org?format=json",
            Format::Text => "https://api.ipify.org",
        };
        Self { format, url }
    }
}

} // verus!
