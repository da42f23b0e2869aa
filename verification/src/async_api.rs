//! Completions of the bridge's asynchronous loads: how the values a completion
//! callback receives become the outcome of the load.

use vstd::prelude::*;

verus! {

/// Resolves a completion that delivers JSON text.
pub fn text_completion(error: Option<String>, result: Option<String>) -> (r: Result<String, String>)
    ensures
        match error {
            Some(message) => r == Err::<String, String>(message),
            None => match result {
                Some(text) => r == Ok::<String, String>(text),
                None => r is Err && r->Err_0@ == "bridge returned null result"@,
            },
        },
{
    match error {
        Some(message) => Err(message),
        None => match result {
            Some(text) => Ok(text),
            None => Err("bridge returned null result".to_owned()),
        },
    }
}

/// Resolves a completion that delivers a flag (seek, preroll): the error
/// message when there is one, else whether the bridge passed a non-null result.
pub fn flag_completion(error: Option<String>, has_result: bool) -> (r: Result<bool, String>)
    ensures
        match error {
            Some(message) => r == Err::<bool, String>(message),
            None => r == Ok::<bool, String>(has_result),
        },
{
    match error {
        Some(message) => Err(message),
        None => Ok(has_result),
    }
}

} // verus!
