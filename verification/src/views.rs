//! What optional values and results say, in terms of the views of what they
//! hold.

use vstd::prelude::*;

#[allow(unused_imports)]
use crate::error;
#[allow(unused_imports)]
use crate::error::VaultClientErr;

verus! {

/// What an optional value says.
pub open spec fn option_view<T: View>(option: Option<T>) -> Option<T::V> {
    match option {
        Some(value) => Some(value@),
        None => None,
    }
}

/// What a result says.
pub open spec fn result_view<T: View>(
    result: Result<T, VaultClientErr>,
) -> Result<T::V, error::ErrView> {
    match result {
        Ok(value) => Ok(value@),
        Err(error) => Err(error@),
    }
}

/// What a result says whose value is its own view.
pub open spec fn plain_result_view<T>(result: Result<T, VaultClientErr>) -> Result<
    T,
    error::ErrView,
> {
    match result {
        Ok(value) => Ok(value),
        Err(error) => Err(error@),
    }
}

/// What a reply says: its status, or the message of the HTTP client's error.
pub open spec fn reply_view(reply: Result<u16, String>) -> Result<u16, Seq<char>> {
    match reply {
        Ok(status) => Ok(status),
        Err(message) => Err(message@),
    }
}

/// Optional values and results are told by what they hold, and errors stay
/// errors.
pub proof fn law_views_keep_what_is_held<T: View>(
    value: T,
    error: VaultClientErr,
    message: String,
    status: u16,
)
    ensures
        option_view(Some(value)) == Some(value@),
        option_view(None::<T>) is None,
        result_view(Ok::<T, VaultClientErr>(value)) == Ok::<T::V, error::ErrView>(value@),
        result_view(Err::<T, VaultClientErr>(error)) == Err::<T::V, error::ErrView>(error@),
        plain_result_view(Ok::<T, VaultClientErr>(value)) == Ok::<T, error::ErrView>(value),
        plain_result_view(Err::<T, VaultClientErr>(error)) == Err::<T, error::ErrView>(error@),
        reply_view(Ok(status)) == Ok::<u16, Seq<char>>(status),
        reply_view(Err(message)) == Err::<u16, Seq<char>>(message@),
{
}

} // verus!
