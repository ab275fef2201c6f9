use vstd::prelude::*;

verus! {

/// The closed set of store errors. `NotFound` and `AlreadyPresent` are
/// caller-logic errors; `PastRateLimit` carries the number of seconds until
/// the current window's expiry and is the expected outcome of normal
/// operation under load.
#[derive(Clone, Copy, PartialEq, Eq, Debug)]
pub enum ModelError {
    NotFound,
    AlreadyPresent,
    PastRateLimit(i64),
}

/// The text of a rate-limit refusal, as `format!` renders it for the given
/// number of seconds.
pub uninterp spec fn wait_message(seconds: i64) -> Seq<char>;

/// Relies on the `format!` macro of std: the rendered text depends on the
/// argument alone.
#[verifier::external_body]
fn render_wait_message(seconds: i64) -> (r: String)
    ensures
        r@ == wait_message(seconds),
{
    format!("Rate limit exceeded please wait {} seconds", seconds)
}

impl ModelError {
    /// Human-readable text for the error, suitable for a response body.
    pub fn message(&self) -> (r: String)
        ensures
            (match *self {
                ModelError::NotFound => r@ == "Key Not Found"@,
                ModelError::AlreadyPresent => r@ == "Key is not present in the data set"@,
                ModelError::PastRateLimit(s) => r@ == wait_message(s),
            }),
    {
        match self {
            ModelError::NotFound => "Key Not Found".to_owned(),
            ModelError::AlreadyPresent => "Key is not present in the data set".to_owned(),
            ModelError::PastRateLimit(seconds) => render_wait_message(*seconds),
        }
    }
}

} // verus!
