//! The error a pool sees when the Redis client fails.

use vstd::prelude::*;
use vstd::string::StringExecFns;

verus! {

/// `redis::RedisError`, carried through without looking inside.
#[verifier::external_type_specification]
#[verifier::external_body]
pub struct ExRedisError(redis::RedisError);

/// A unified enum of errors returned by the Redis client.
#[derive(Debug)]
pub enum Error {
    /// A `redis::RedisError`, kept as the client produced it.
    Other(redis::RedisError),
}

/// The text of an error: its description alone, or description and cause
/// separated by a colon and a space.
pub open spec fn message_text(description: Seq<char>, cause: Option<Seq<char>>) -> Seq<char> {
    match cause {
        Some(c) => description + ": "@ + c,
        None => description,
    }
}

/// Joins an error's description and its cause, if it has one, into one line.
pub fn render_message(description: &str, cause: Option<&str>) -> (r: String)
    ensures
        r@ == message_text(
            description@,
            match cause {
                Some(c) => Some(c@),
                None => None,
            },
        ),
{
    let text = String::from_str(description);
    match cause {
        Some(c) => text.concat(": ").concat(c),
        None => text,
    }
}

/// Calls `redis::RedisError::category`, which names the class of failure in
/// a few fixed words. Nothing is claimed of the text.
#[verifier::external_body]
fn error_category(err: &redis::RedisError) -> String {
    err.category().to_string()
}

/// Calls `std::error::Error::source` on a `redis::RedisError` and renders
/// the underlying error, where there is one. Nothing is claimed of the text.
#[verifier::external_body]
fn error_source(err: &redis::RedisError) -> Option<String> {
    std::error::Error::source(err).map(|cause| cause.to_string())
}

/// Calls `From<(redis::ErrorKind, &'static str, String)>` for
/// `redis::RedisError` with the kind `UnexpectedReturnType`: a client error
/// for a reply of the wrong shape, with the given description and the reply
/// itself as its detail. The error is opaque here, so nothing is claimed of it.
#[verifier::external_body]
pub(crate) fn unexpected_reply(description: &'static str, reply: String) -> redis::RedisError {
    redis::RedisError::from((redis::ErrorKind::UnexpectedReturnType, description, reply))
}

impl Error {
    /// The error as one line of text: the client's category for it, followed
    /// by the underlying cause where the client recorded one. Both texts are
    /// the client's own and nothing is known of them here; how they are
    /// joined is what `render_message` states.
    pub fn message(&self) -> String {
        match self {
            Error::Other(err) => {
                let description = error_category(err);
                let cause = error_source(err);
                match cause {
                    Some(c) => render_message(description.as_str(), Some(c.as_str())),
                    None => render_message(description.as_str(), None),
                }
            },
        }
    }
}

} // verus!
