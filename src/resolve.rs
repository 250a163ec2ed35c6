use vstd::prelude::*;
use crate::error::PingError;
use crate::outcome::Address;

verus! {

/// What to do with a host string.
#[derive(Clone, Copy, Debug, PartialEq, Eq, Structural)]
pub enum ResolvePlan {
    /// The string is a literal address: use it, with no lookup.
    Use(Address),
    /// The string is a name: look it up.
    LookUp,
}

/// Decides from the literal reading of a host string (if it reads as an
/// address) whether a name lookup is needed.
pub fn plan_resolution(literal: Option<Address>) -> (r: ResolvePlan)
    ensures
        r == match literal {
            Some(a) => ResolvePlan::Use(a),
            None => ResolvePlan::LookUp,
        },
{
    match literal {
        Some(a) => ResolvePlan::Use(a),
        None => ResolvePlan::LookUp,
    }
}

/// The address that a lookup of `host` settles on: its first result. No
/// result, or a failed lookup, is an error that names the host.
pub fn pick_resolved(host: String, lookup: Result<Vec<Address>, String>) -> (r: Result<
    Address,
    PingError,
>)
    ensures
        match lookup {
            Ok(v) => if v@.len() > 0 {
                r == Ok::<Address, PingError>(v@[0])
            } else {
                r == Err::<Address, PingError>(PingError::InvalidHost(host))
            },
            Err(cause) => r == Err::<Address, PingError>(PingError::ResolutionFailed { host, cause }),
        },
{
    match lookup {
        Ok(v) => {
            if v.len() > 0 {
                Ok(v[0])
            } else {
                Err(PingError::InvalidHost(host))
            }
        },
        Err(cause) => Err(PingError::ResolutionFailed { host, cause }),
    }
}

} // verus!
