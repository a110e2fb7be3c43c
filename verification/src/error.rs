use vstd::prelude::*;

verus! {

/// The failures this client reports.
///
/// Remote rejections (`Ads`) carry the server's own diagnostic text, so a
/// caller can tell a query the server refused apart from an envelope the
/// client could not read (`Json`) and from a plain transport failure
/// (`Transport`). None of these are retried anywhere in the library; every
/// failure propagates to the immediate caller.
#[derive(Debug, Clone)]
pub enum AdsError {
    /// A network or HTTP-level failure, reported by the transport layer.
    Transport(String),
    /// The server answered with an `error.msg` envelope: the request was
    /// transported fine but the server rejected the query, and this is the
    /// server's explanation.
    Ads(String),
    /// The response envelope did not have the expected shape.
    Json(String),
    /// An export in the custom format was requested without a format string.
    MissingFormat,
    /// A document that was expected to carry a bibcode did not.
    MissingBibcode,
    /// No API token could be resolved from any of the known locations.
    Token,
}

impl AdsError {
    /// The description [`Self::message`] returns: the carried text for
    /// the variants that hold one, a fixed sentence for the others.
    pub open spec fn spec_message(&self) -> Seq<char> {
        match self {
            AdsError::Transport(m) => m@,
            AdsError::Ads(m) => m@,
            AdsError::Json(m) => m@,
            AdsError::MissingFormat => "a custom export format requires a format string"@,
            AdsError::MissingBibcode => "document carries no bibcode"@,
            AdsError::Token => "unable to load API token from environment variables or home directory"@,
        }
    }

    /// A short description of the failure, in place of `Display`.
    pub fn message(&self) -> (r: String)
        ensures
            r@ == self.spec_message(),
    {
        match self {
            AdsError::Transport(m) => m.clone(),
            AdsError::Ads(m) => m.clone(),
            AdsError::Json(m) => m.clone(),
            AdsError::MissingFormat => String::from_str(
                "a custom export format requires a format string",
            ),
            AdsError::MissingBibcode => String::from_str("document carries no bibcode"),
            AdsError::Token => String::from_str(
                "unable to load API token from environment variables or home directory",
            ),
        }
    }
}

} // verus!
