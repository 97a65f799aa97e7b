//! Choosing the bot's authentication token.
use vstd::prelude::*;

verus! {

/// The token to log in with: the one from the environment where there is
/// one, else what reading the token file gave, its error included.
pub fn get_token<E>(from_env: Option<String>, from_file: Result<String, E>) -> (r: Result<String, E>)
    ensures
        r == (match from_env {
            Some(t) => Ok(t),
            None => from_file,
        }),
{
    match from_env {
        Some(t) => Ok(t),
        None => from_file,
    }
}

} // verus!
