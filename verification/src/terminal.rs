//! Local terminals: what they need before they start.

use crate::creds::EnvVar;
use crate::text;
use vstd::prelude::*;

verus! {

/// Told where the registry of local terminals is missing.
pub const NOT_INITIALISED: &'static str = "local terminal manager not initialised";

/// The registry of local terminals, where there is one.
pub fn terminal_manager<T>(registry: Option<T>) -> (r: Result<T, String>)
    ensures
        registry matches Some(t) ==> r == Ok::<T, String>(t),
        registry is None ==> r is Err && r->Err_0@ == NOT_INITIALISED@,
{
    match registry {
        Some(t) => Ok(t),
        None => Err(text::owned(NOT_INITIALISED)),
    }
}

/// The variables that a local terminal starts with besides its own.
pub fn terminal_start() -> (r: Vec<EnvVar>)
    ensures
        r@.len() == 1,
        r@[0].name@ == "TERM"@,
        r@[0].value@ == "xterm-256color"@,
{
    let mut r: Vec<EnvVar> = Vec::new();
    r.push(EnvVar { name: text::owned("TERM"), value: text::owned("xterm-256color") });
    r
}

} // verus!
