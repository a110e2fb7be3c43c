//! A verified client core for a paginated, field-filterable literature
//! search HTTP API.
//!
//! The crate holds the query builder, the pagination state machine, and the
//! export-request flow, each with contracts stating exactly what is sent and
//! what each response means. The HTTP transport itself stays outside: the
//! library computes requests as plain values and decides what every response
//! means, and a thin unverified shell performs the I/O.

mod auth;
mod endpoints;
mod error;
mod json;
mod model;

pub use auth::get_token;
pub use endpoints::export;
pub use endpoints::search;
pub use endpoints::Sort;
pub use endpoints::SortView;
pub use error::AdsError;
pub use model::Database;
pub use model::DocType;

use vstd::prelude::*;

verus! {

/// The default base URL of the API.
pub const API_BASE_URL: &'static str = "https://api.adsabs.harvard.edu/v1/";

/// A builder holding the plain configuration of an API client: the base
/// URL, the bearer token, and the user agent string. The unverified shell
/// turns one into a live HTTP client.
#[must_use]
pub struct AdsBuilder {
    base_url: String,
    token: String,
    user_agent: String,
}

/// The mathematical content of an [`AdsBuilder`].
pub struct AdsBuilderView {
    pub base_url: Seq<char>,
    pub token: Seq<char>,
    pub user_agent: Seq<char>,
}

impl View for AdsBuilder {
    type V = AdsBuilderView;

    closed spec fn view(&self) -> AdsBuilderView {
        AdsBuilderView {
            base_url: self.base_url@,
            token: self.token@,
            user_agent: self.user_agent@,
        }
    }
}

impl AdsBuilder {
    /// Constructs a new `AdsBuilder` with the default base URL and user
    /// agent.
    pub fn new(token: &str) -> (r: Self)
        ensures
            r@.base_url == API_BASE_URL@,
            r@.token == token@,
            r@.user_agent == "adsabs-rs/0.1.0"@,
    {
        Self {
            base_url: API_BASE_URL.to_owned(),
            token: token.to_owned(),
            user_agent: String::from_str("adsabs-rs/0.1.0"),
        }
    }

    /// Constructs a new `AdsBuilder` from whichever token source resolves
    /// first; the caller reads the candidate locations and hands them in as
    /// plain values (see [`crate::get_token`] for the precedence).
    ///
    /// # Errors
    ///
    /// Fails with [`AdsError::Token`] when no source holds a token.
    pub fn from_env(
        env_api_token: Option<String>,
        env_dev_key: Option<String>,
        file_token: Option<String>,
        file_dev_key: Option<String>,
    ) -> (r: Result<Self, AdsError>)
        ensures
            (env_api_token is None && env_dev_key is None && file_token is None && file_dev_key
                is None) <==> (r matches Err(AdsError::Token)),
            r matches Err(e) ==> e is Token,
            r matches Ok(b) ==> b@.base_url == API_BASE_URL@ && b@.user_agent
                == "adsabs-rs/0.1.0"@,
            r matches Ok(b) ==> {
                ||| (env_api_token matches Some(s) && b@.token == s@)
                ||| (env_dev_key matches Some(s) && b@.token == s@ && env_api_token is None)
                ||| (file_token matches Some(s) && b@.token == s@ && env_api_token is None
                    && env_dev_key is None)
                ||| (file_dev_key matches Some(s) && b@.token == s@ && env_api_token is None
                    && env_dev_key is None && file_token is None)
            },
    {
        match auth::get_token(env_api_token, env_dev_key, file_token, file_dev_key) {
            Ok(token) => Ok(Self::new(token.as_str())),
            Err(e) => Err(e),
        }
    }

    /// Sets the base API URL to be used by this client.
    pub fn base_url(self, url: &str) -> (r: Self)
        ensures
            r@ == (AdsBuilderView { base_url: url@, ..self@ }),
    {
        Self { base_url: url.to_owned(), ..self }
    }

    /// Sets the API token to be used by this client.
    pub fn token(self, token: &str) -> (r: Self)
        ensures
            r@ == (AdsBuilderView { token: token@, ..self@ }),
    {
        Self { token: token.to_owned(), ..self }
    }

    /// Sets the `User-Agent` header value to be used by this client.
    pub fn user_agent(self, user_agent: &str) -> (r: Self)
        ensures
            r@ == (AdsBuilderView { user_agent: user_agent@, ..self@ }),
    {
        Self { user_agent: user_agent.to_owned(), ..self }
    }

    /// The value of the `Authorization` header every request carries.
    pub fn auth_header_value(&self) -> (r: String)
        ensures
            r@ == "Bearer "@ + self@.token,
    {
        let mut r = String::from_str("Bearer ");
        r.append(self.token.as_str());
        r
    }

    /// The configured base URL.
    pub fn base_url_str(&self) -> (r: &str)
        ensures
            r@ == self@.base_url,
    {
        self.base_url.as_str()
    }

    /// The configured user agent.
    pub fn user_agent_str(&self) -> (r: &str)
        ensures
            r@ == self@.user_agent,
    {
        self.user_agent.as_str()
    }
}

} // verus!
