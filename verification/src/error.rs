use vstd::prelude::*;

verus! {

/// A failure surfaced to the operator: a human-readable message.
pub struct AppError {
    pub msg: String,
}

impl AppError {
    pub fn msg(msg: String) -> (r: AppError)
        ensures
            r.msg == msg,
    {
        AppError { msg }
    }
}

/// The result of a fallible operation, up to the dispatcher boundary.
pub type AppResult<T> = Result<T, AppError>;

} // verus!
