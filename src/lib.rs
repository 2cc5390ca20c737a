use vstd::prelude::*;

pub mod listing;
pub mod repo;
pub mod session;

verus! {

/// Whether an HTTP status code lies in the success class (200 to 299).
pub open spec fn success_status(status: u16) -> bool {
    200 <= status && status < 300
}

/// Tells whether `status` is a success status.
pub fn is_success(status: u16) -> (r: bool)
    ensures
        r == success_status(status),
{
    200 <= status && status < 300
}

} // verus!
