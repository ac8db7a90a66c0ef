//! What a client is told about a request that failed.

use vstd::prelude::*;

use crate::error::{unauthorized, validate_length, AppError, AppResult, ErrorResponse, Failure};
use crate::text::decimal_text;

verus! {

/// Whether a text is a label with a message behind it.
pub open spec fn says(body: Seq<char>, label: Seq<char>, message: Seq<char>) -> bool {
    body == label + message
}

/// A failure is answered with the status of its kind: what is missing with 404,
/// what is refused with 401, what is taken with 409, what comes too late with
/// 412, what is malformed with 400, and what is the server's fault with 500.
pub proof fn law_failures_have_the_status_of_their_kind(e: AppError, r: ErrorResponse)
    requires
        call_ensures(AppError::into_response, (e,), r),
    ensures
        r.status == 404 <==> e is IdentityNotFound || e is NotFound,
        r.status == 401 <==> e is Unauthorized,
        r.status == 409 <==> e is Conflict,
        r.status == 412 <==> e is PreconditionFailed,
        r.status == 400 <==> e is Validation,
        r.status == 500 <==> e is Database || e is Pool || e is Crypto || e is Internal,
{
}

/// The body of a failed request names the kind of failure and repeats its
/// message; the generic refusal is one word. The body is the text of the error.
pub proof fn law_failures_say_what_went_wrong(e: AppError, r: ErrorResponse, text: String)
    requires
        call_ensures(AppError::into_response, (e,), r),
        call_ensures(AppError::text, (&e,), text),
    ensures
        r.body@ == text@,
        match e {
            AppError::IdentityNotFound => r.body@ == "identity not found"@,
            AppError::NotFound(m) => says(r.body@, "not found: "@, m@),
            AppError::Unauthorized(m) => if m@ == "unauthorized"@ {
                r.body@ == "unauthorized"@
            } else {
                says(r.body@, "unauthorized: "@, m@)
            },
            AppError::Conflict(m) => says(r.body@, "conflict: "@, m@),
            AppError::PreconditionFailed(m) => says(r.body@, "precondition failed: "@, m@),
            AppError::Database(m) => says(r.body@, "database error: "@, m@),
            AppError::Pool(m) => says(r.body@, "connection pool error: "@, m@),
            AppError::Crypto(m) => says(r.body@, "crypto error: "@, m@),
            AppError::Internal(m) => says(r.body@, "internal error: "@, m@),
            AppError::Validation(m) => says(r.body@, "validation error: "@, m@),
        },
{
}

/// The generic refusal is answered with 401 and one word.
pub proof fn law_generic_refusal_is_one_word(e: AppError, r: ErrorResponse)
    requires
        call_ensures(unauthorized, (), e),
        call_ensures(AppError::into_response, (e,), r),
    ensures
        r.status == 401,
        r.body@ == "unauthorized"@,
{
}

/// A field is refused exactly if it has more characters than it may have, and
/// the refusal names the field and the number.
pub proof fn law_length_is_counted_in_characters(
    name: &str,
    field: &str,
    max: usize,
    r: AppResult<()>,
)
    requires
        call_ensures(validate_length, (name, field, max), r),
    ensures
        r is Ok <==> field@.len() <= max,
        r matches Err(e) ==> e@ == Failure::Validation(
            name@ + " exceeds "@ + decimal_text(max as nat) + " characters"@,
        ),
{
}

} // verus!
