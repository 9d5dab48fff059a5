use vstd::prelude::*;
use vstd::string::*;
use crate::error::AppError;
use crate::text::{decimal, decimal_string};

verus! {

/// The address of a user's record under the API at `base`.
pub open spec fn user_url_spec(base: Seq<char>, user_id: nat) -> Seq<char> {
    base + "/users/"@ + decimal(user_id)
}

/// An HTTP status code in the success class (200 to 299).
pub open spec fn is_success_status(code: u16) -> bool {
    200 <= code && code < 300
}

/// Builds the address from which a user's record is fetched.
pub fn user_data_url(base: &str, user_id: u64) -> (r: String)
    ensures
        r@ == user_url_spec(base@, user_id as nat),
{
    let mut s = String::from_str(base);
    s.append("/users/");
    let id = decimal_string(user_id);
    s.append(id.as_str());
    s
}

/// Tells whether a response with status `code` is a success; otherwise
/// turns it into a network error carrying the code and `message`, the
/// status as text.
pub fn check_response_status(code: u16, message: String) -> (r: Result<(), AppError>)
    ensures
        r is Ok <==> is_success_status(code),
        !is_success_status(code) ==> r == Err::<(), AppError>(
            AppError::NetworkError { code: code as u32, message },
        ),
{
    if 200 <= code && code < 300 {
        Ok(())
    } else {
        Err(AppError::NetworkError { code: code as u32, message })
    }
}

} // verus!
