//! The one way in which building a sample can fail.

use vstd::prelude::*;
use vstd::string::StringExecFns;

verus! {

/// Why a value was refused.
#[derive(Debug)]
pub enum Error {
    /// A value lies outside the range that is valid for it; the message
    /// quotes the value and names the range.
    OutOfRange(String),
}

impl Error {
    /// The text of the message that the error carries.
    pub open spec fn text(&self) -> Seq<char> {
        match self {
            Error::OutOfRange(message) => message@,
        }
    }

    /// The message that the error carries.
    pub fn message(&self) -> (m: &str)
        ensures
            m@ == self.text(),
    {
        match self {
            Error::OutOfRange(message) => message.as_str(),
        }
    }
}

/// What is said of a negative sample size.
pub open spec fn negative_size_text(size: Seq<char>) -> Seq<char> {
    "size `"@ + size + "` must be non-negative"@
}

/// What is said of a number of successes that is negative or exceeds the
/// sample size.
pub open spec fn successes_text(n_successes: Seq<char>, size: Seq<char>) -> Seq<char> {
    "number of successes `"@ + n_successes + "` is out of range 0..=`"@ + size + "`"@
}

/// What is said of a sample's proportion that lies outside the unit range.
pub open spec fn proportion_text(proportion: Seq<char>) -> Seq<char> {
    "`"@ + proportion + "` is out of range 0..=1"@
}

/// What is said of a bare proportion that lies outside the unit range.
pub open spec fn p_hat_text(p_hat: Seq<char>) -> Seq<char> {
    "`"@ + p_hat + "` is out of range `0..=1`"@
}

/// The error for a negative sample size.
pub(crate) fn negative_size(size: &str) -> (e: Error)
    ensures
        e.text() == negative_size_text(size@),
{
    let mut message = String::from_str("size `");
    message.append(size);
    message.append("` must be non-negative");
    Error::OutOfRange(message)
}

/// The error for a number of successes outside `0..=size`.
pub(crate) fn successes_out_of_range(n_successes: &str, size: &str) -> (e: Error)
    ensures
        e.text() == successes_text(n_successes@, size@),
{
    let mut message = String::from_str("number of successes `");
    message.append(n_successes);
    message.append("` is out of range 0..=`");
    message.append(size);
    message.append("`");
    Error::OutOfRange(message)
}

/// The error for a sample's proportion outside `0..=1`.
pub(crate) fn proportion_out_of_range(proportion: &str) -> (e: Error)
    ensures
        e.text() == proportion_text(proportion@),
{
    let mut message = String::from_str("`");
    message.append(proportion);
    message.append("` is out of range 0..=1");
    Error::OutOfRange(message)
}

/// The error for a bare proportion outside `0..=1`.
pub(crate) fn p_hat_out_of_range(p_hat: &str) -> (e: Error)
    ensures
        e.text() == p_hat_text(p_hat@),
{
    let mut message = String::from_str("`");
    message.append(p_hat);
    message.append("` is out of range `0..=1`");
    Error::OutOfRange(message)
}

} // verus!
