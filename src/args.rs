use vstd::prelude::*;
use crate::handler::Mode;
use crate::headers::Headers;

verus! {

#[verifier::external_type_specification]
#[verifier::external_body]
pub struct ExUrl(url::Url);

/// What a session is started with.
pub struct Args {
    /// Path of the certificate and key database.
    pub db: String,
    /// Protocol labels to negotiate in framed mode.
    pub alpn: Vec<String>,
    /// The resource to request.
    pub url: url::Url,
    /// The request method of framed mode.
    pub method: String,
    /// Extra request headers of framed mode.
    pub headers: Headers,
    /// Header table size of framed mode.
    pub max_table_size: u32,
    /// Limit of blocked streams of framed mode.
    pub max_blocked_streams: u16,
    /// Use the raw line-based mode instead of the framed one.
    pub use_old_http: bool,
}

impl Args {
    /// The wire mode these arguments select.
    pub fn mode(&self) -> (r: Mode)
        ensures
            self.use_old_http ==> r is Raw,
            !self.use_old_http ==> r is Framed,
    {
        if self.use_old_http {
            Mode::Raw
        } else {
            Mode::Framed
        }
    }
}

} // verus!
