use crate::error::AdsError;
use vstd::prelude::*;

verus! {

/// Resolves the API token from the candidate sources, in the documented
/// precedence order: the primary environment variable, the legacy
/// environment variable, the per-user `token` file, then the per-user
/// `dev_key` file. The caller reads those locations and hands in whatever
/// each one held; this function only decides which candidate wins.
///
/// # Errors
///
/// Fails with [`AdsError::Token`] exactly when no source holds a token.
pub fn get_token(
    env_api_token: Option<String>,
    env_dev_key: Option<String>,
    file_token: Option<String>,
    file_dev_key: Option<String>,
) -> (r: Result<String, AdsError>)
    ensures
        r matches Ok(t) ==> {
            ||| (env_api_token matches Some(s) && t == s)
            ||| (env_dev_key matches Some(s) && t == s && env_api_token is None)
            ||| (file_token matches Some(s) && t == s && env_api_token is None && env_dev_key
                is None)
            ||| (file_dev_key matches Some(s) && t == s && env_api_token is None && env_dev_key
                is None && file_token is None)
        },
        r matches Err(e) ==> e is Token && env_api_token is None && env_dev_key is None
            && file_token is None && file_dev_key is None,
        (env_api_token is None && env_dev_key is None && file_token is None && file_dev_key
            is None) ==> r is Err,
{
    if let Some(t) = env_api_token {
        Ok(t)
    } else if let Some(t) = env_dev_key {
        Ok(t)
    } else if let Some(t) = file_token {
        Ok(t)
    } else if let Some(t) = file_dev_key {
        Ok(t)
    } else {
        Err(AdsError::Token)
    }
}

} // verus!
