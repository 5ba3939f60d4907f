//! Advisory yes/no queries: a failed query reads as "no", never as an error.
use vstd::prelude::*;

verus! {

/// `true` only when the query succeeded and answered yes.
pub open spec fn confirmed(query: Result<bool, String>) -> bool {
    query matches Ok(answer) && answer
}

/// Whether autostart is registered, from the platform's query; a failed
/// query counts as not registered.
pub fn get_autostart_state(query: Result<bool, String>) -> (r: bool)
    ensures
        r == confirmed(query),
{
    match query {
        Ok(answer) => answer,
        Err(_) => false,
    }
}

/// Whether the filesystem-provider driver is installed, from the platform's
/// query; a failed query counts as not installed.
pub fn get_winfsp_install_state(query: Result<bool, String>) -> (r: bool)
    ensures
        r == confirmed(query),
{
    match query {
        Ok(answer) => answer,
        Err(_) => false,
    }
}

} // verus!
