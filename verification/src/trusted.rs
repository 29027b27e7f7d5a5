//! What the library takes on trust.
//!
//! Nothing in this file is proved. Each item states what the library assumes
//! of a function or a type of `reqwest` or of the standard library, and the
//! verified code in the other modules rests on exactly these statements.

use vstd::prelude::*;

verus! {

/// `reqwest::Client`, the transport that carries a request. Opaque here: the
/// library builds one, keeps it and lends it out, and never looks inside.
#[verifier::external_type_specification]
#[verifier::external_body]
pub struct ExClient(reqwest::Client);

/// `reqwest::ClientBuilder`, the settings from which a transport is built.
/// Opaque here: the library passes one from call to call.
#[verifier::external_type_specification]
#[verifier::external_body]
pub struct ExClientBuilder(reqwest::ClientBuilder);

/// `reqwest::Error`. Opaque here: the library asks it one question, whether
/// it stands for a timeout.
#[verifier::external_type_specification]
#[verifier::external_body]
pub struct ExError(reqwest::Error);

/// The time that a `Duration` spans, in nanoseconds: what
/// `Duration::as_nanos` returns for it.
pub uninterp spec fn duration_nanos(duration: std::time::Duration) -> nat;

/// The total request timeout in a builder's settings, if one is set.
pub uninterp spec fn builder_timeout(builder: reqwest::ClientBuilder) -> Option<std::time::Duration>;

/// The total request timeout that a transport gives each of its requests, if
/// it gives one.
pub uninterp spec fn client_timeout(client: reqwest::Client) -> Option<std::time::Duration>;

/// What `reqwest::Error::is_timeout` returns for the error.
pub uninterp spec fn error_is_timeout(error: reqwest::Error) -> bool;

/// `Duration::is_zero`.
///
/// Assumed: it is true exactly for the duration that spans no time.
pub assume_specification[ std::time::Duration::is_zero ](duration: &std::time::Duration) -> (zero:
    bool)
    ensures
        zero == (duration_nanos(*duration) == 0),
;

/// `reqwest::Client::builder`.
///
/// Assumed: the builder it returns has no total request timeout set, which
/// is the crate's default.
pub assume_specification[ reqwest::Client::builder ]() -> (builder: reqwest::ClientBuilder)
    ensures
        builder_timeout(builder) is None,
;

/// `reqwest::ClientBuilder::timeout`.
///
/// Assumed: the builder it returns has the total request timeout set to the
/// duration given.
pub assume_specification[ reqwest::ClientBuilder::timeout ](
    builder: reqwest::ClientBuilder,
    timeout: std::time::Duration,
) -> (with_timeout: reqwest::ClientBuilder)
    ensures
        builder_timeout(with_timeout) == Some(timeout),
;

/// `reqwest::ClientBuilder::build`.
///
/// Assumed: a transport that was built has the total request timeout of the
/// builder's settings. Nothing is assumed of whether one is built: that
/// depends on the machine the call runs on.
pub assume_specification[ reqwest::ClientBuilder::build ](
    builder: reqwest::ClientBuilder,
) -> (built: Result<reqwest::Client, reqwest::Error>)
    ensures
        built matches Ok(client) ==> client_timeout(client) == builder_timeout(builder),
;

/// `Clone::clone` of `reqwest::Client`.
///
/// Assumed: the clone is the same transport. A `reqwest::Client` is a handle
/// on shared state, and cloning it yields another handle on that state.
pub assume_specification[ <reqwest::Client as Clone>::clone ](
    client: &reqwest::Client,
) -> (cloned: reqwest::Client)
    ensures
        cloned == *client,
;

/// `reqwest::Error::is_timeout`.
///
/// Assumed: the answer depends on the error alone, which
/// [`error_is_timeout`] names.
pub assume_specification[ reqwest::Error::is_timeout ](error: &reqwest::Error) -> (timed_out: bool)
    ensures
        timed_out == error_is_timeout(*error),
;

/// `String::push`.
///
/// Assumed: the text afterwards is the text before with `c` appended.
pub assume_specification[ String::push ](text: &mut String, c: char)
    ensures
        final(text)@ == old(text)@.push(c),
;

} // verus!
