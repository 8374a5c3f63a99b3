//! The service's error value and the classification of store errors.

use vstd::prelude::*;
use vstd::string::StrSliceExecFns;
use vstd::string::StringExecFns;

verus! {

/// Status of a rejected request.
pub const STATUS_BAD_REQUEST: u16 = 400;

/// Status of a request by someone not allowed to make it.
pub const STATUS_UNAUTHORIZED: u16 = 401;

/// Status of a failure that is the service's own.
pub const STATUS_INTERNAL_SERVER_ERROR: u16 = 500;

/// An error reported to a caller of the service: an HTTP status code and a
/// message.
#[derive(Clone, Debug)]
pub struct ServiceError {
    pub code: u16,
    pub message: String,
}

impl ServiceError {
    /// An error with the given status code and message.
    pub fn new(code: u16, message: &str) -> (e: ServiceError)
        ensures
            e.code == code,
            e.message@ == message@,
    {
        ServiceError { code, message: message.to_owned() }
    }

    /// The error's message.
    pub fn message(&self) -> (m: &str)
        ensures
            m@ == self.message@,
    {
        self.message.as_str()
    }
}

/// Character-for-character equality of two strings.
fn str_eq(a: &str, b: &str) -> (r: bool)
    ensures
        r == (a@ == b@),
{
    let a_len = a.unicode_len();
    let b_len = b.unicode_len();
    if a_len != b_len {
        return false;
    }
    let mut i: usize = 0;
    while i < a_len
        invariant
            i <= a_len,
            a_len == a@.len(),
            b_len == b@.len(),
            a_len == b_len,
            forall|j: int| 0 <= j < i ==> a@[j] == b@[j],
        decreases a_len - i,
    {
        if a.get_char(i) != b.get_char(i) {
            return false;
        }
        i = i + 1;
    }
    proof {
        assert(a@ =~= b@);
    }
    true
}

/// The status a store error maps to: the three constraint violations the
/// service reports as the caller's fault, any other state code as its own
/// failure, and a failure without a state code (the usual shape of a
/// lookup that found no row) as a bad request.
pub open spec fn spec_db_error_code(sql_state: Option<Seq<char>>) -> u16 {
    match sql_state {
        Some(state) => if state == "23503"@ || state == "23505"@ || state == "P0002"@ {
            STATUS_BAD_REQUEST
        } else {
            STATUS_INTERNAL_SERVER_ERROR
        },
        None => STATUS_BAD_REQUEST,
    }
}

/// The message a store error maps to.
pub open spec fn spec_db_error_message(sql_state: Option<Seq<char>>) -> Seq<char> {
    match sql_state {
        Some(state) => if state == "23503"@ {
            "foreign key violation"@
        } else if state == "23505"@ {
            "unique key violation"@
        } else if state == "P0002"@ {
            "Invalid input"@
        } else {
            "Database error: "@ + state
        },
        None => "Bad Request: err: row_count_err, most likely data is not found"@,
    }
}

/// The view of an optional borrowed string.
pub open spec fn spec_opt_str_view(s: Option<&str>) -> Option<Seq<char>> {
    match s {
        Some(s) => Some(s@),
        None => None,
    }
}

/// Map a store error, given as its SQL state code when it has one, to the
/// error reported to the caller.
pub fn db_error_to_service_error(sql_state: Option<&str>) -> (e: ServiceError)
    ensures
        e.code == spec_db_error_code(spec_opt_str_view(sql_state)),
        e.message@ == spec_db_error_message(spec_opt_str_view(sql_state)),
{
    match sql_state {
        Some(state) => {
            if str_eq(state, "23503") {
                ServiceError::new(STATUS_BAD_REQUEST, "foreign key violation")
            } else if str_eq(state, "23505") {
                ServiceError::new(STATUS_BAD_REQUEST, "unique key violation")
            } else if str_eq(state, "P0002") {
                ServiceError::new(STATUS_BAD_REQUEST, "Invalid input")
            } else {
                let mut message = String::from_str("Database error: ");
                message.append(state);
                ServiceError { code: STATUS_INTERNAL_SERVER_ERROR, message }
            }
        },
        None => ServiceError::new(
            STATUS_BAD_REQUEST,
            "Bad Request: err: row_count_err, most likely data is not found",
        ),
    }
}

} // verus!
