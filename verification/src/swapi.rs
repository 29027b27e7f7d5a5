//! The registry client: what it asks for and how it reads what came back.
//!
//! A search is one exchange with the registry. The client forms the address
//! of the request with [`SwapiClient::search_url`]; whoever carries the
//! request out reports what came of it as a [`Reply`]; and
//! [`SwapiClient::people_by_name`] turns that reply into the people found or
//! into a classified failure.

use crate::address::{percent_encode, search_address};
use crate::trusted::{client_timeout, duration_nanos, error_is_timeout};
use std::time::Duration;
use vstd::prelude::*;
use vstd::string::*;

verus! {

/// One character of the registry.
#[derive(Debug, Default, Clone, PartialEq, Eq, Hash)]
pub struct Person {
    /// The name, in the registry's own spelling.
    pub name: String,
    /// The height as the registry reports it: usually a decimal numeral,
    /// sometimes other text such as `unknown`.
    pub height: String,
}

/// A [`Person`] as plain text.
pub ghost struct PersonView {
    pub name: Seq<char>,
    pub height: Seq<char>,
}

impl View for Person {
    type V = PersonView;

    open spec fn view(&self) -> PersonView {
        PersonView { name: self.name@, height: self.height@ }
    }
}

impl DeepView for Person {
    type V = PersonView;

    open spec fn deep_view(&self) -> PersonView {
        self@
    }
}

/// The envelope in which the registry wraps every list it returns.
#[derive(Debug, Default, Clone, PartialEq, Eq, Hash)]
pub struct Response<T> {
    /// How many matches the registry says there are. Informational only.
    pub count: u32,
    /// The matches, in the registry's order. May be empty.
    pub results: Vec<T>,
}

/// A [`Response`] as a sequence of viewed records.
pub ghost struct ResponseView<V> {
    pub count: u32,
    pub results: Seq<V>,
}

impl<T: DeepView> DeepView for Response<T> {
    type V = ResponseView<T::V>;

    open spec fn deep_view(&self) -> ResponseView<T::V> {
        ResponseView { count: self.count, results: self.results.deep_view() }
    }
}

/// Why a search produced no list of people.
#[derive(Debug, Clone, Copy, PartialEq, Eq, Hash)]
pub enum ClientError {
    /// No reply arrived within the configured timeout.
    Timeout,
    /// A reply arrived with a success status, but its body is no envelope of
    /// people.
    Decode,
    /// The exchange failed in any other way.
    Transport,
}

/// Why no client could be made.
#[derive(Debug, Clone, Copy, PartialEq, Eq, Hash)]
pub enum ClientConstructionError {
    /// The timeout spans no time: no request could be answered within it.
    InvalidTimeout,
    /// The transport could not be built on this machine.
    TransportUnavailable,
}

/// What came of carrying one request to the registry.
#[derive(Debug, Clone, PartialEq, Eq)]
pub enum Reply {
    /// No reply arrived within the configured timeout.
    TimedOut,
    /// The exchange broke off for another reason before a body was read.
    Failed,
    /// A reply arrived.
    Answered {
        /// Its HTTP status code.
        status: u16,
        /// Its body decoded as an envelope of people, or `None` where the
        /// body is no such envelope.
        envelope: Option<Response<Person>>,
    },
}

/// A [`Reply`] with its envelope viewed.
pub ghost enum ReplyView {
    TimedOut,
    Failed,
    Answered { status: u16, envelope: Option<ResponseView<PersonView>> },
}

impl DeepView for Reply {
    type V = ReplyView;

    open spec fn deep_view(&self) -> ReplyView {
        match *self {
            Reply::TimedOut => ReplyView::TimedOut,
            Reply::Failed => ReplyView::Failed,
            Reply::Answered { status, envelope } => ReplyView::Answered {
                status,
                envelope: envelope.deep_view(),
            },
        }
    }
}

/// The reply that a broken-off exchange amounts to: timed out where the
/// transport's error stands for a timeout, failed otherwise.
pub open spec fn broken_off(timed_out: bool) -> ReplyView {
    if timed_out {
        ReplyView::TimedOut
    } else {
        ReplyView::Failed
    }
}

impl Reply {
    /// Reports the error with which the transport broke an exchange off:
    /// `TimedOut` exactly when the error stands for a timeout, and `Failed`
    /// for every other error.
    pub fn from_error(error: &reqwest::Error) -> (reply: Reply)
        ensures
            reply.deep_view() == broken_off(error_is_timeout(*error)),
    {
        if error.is_timeout() {
            Reply::TimedOut
        } else {
            Reply::Failed
        }
    }
}

/// Whether `status` is one of the HTTP success codes, 200 to 299.
pub open spec fn is_success(status: u16) -> bool {
    200 <= status && status < 300
}

/// What a search yields for a given reply.
///
/// A body that decodes wins over the status code: its list is the result,
/// empty or not, whatever the status. Without such a body, a success status
/// means the body was at fault, and any other status that the exchange was.
pub open spec fn search_outcome(reply: ReplyView) -> Result<Seq<PersonView>, ClientError> {
    match reply {
        ReplyView::TimedOut => Err(ClientError::Timeout),
        ReplyView::Failed => Err(ClientError::Transport),
        ReplyView::Answered { status, envelope: Some(envelope) } => Ok(envelope.results),
        ReplyView::Answered { status, envelope: None } => if is_success(status) {
            Err(ClientError::Decode)
        } else {
            Err(ClientError::Transport)
        },
    }
}

/// The result of a search with the people viewed.
pub open spec fn found_view(found: Result<Vec<Person>, ClientError>) -> Result<
    Seq<PersonView>,
    ClientError,
> {
    match found {
        Ok(people) => Ok(people.deep_view()),
        Err(error) => Err(error),
    }
}

/// A client of the people registry: a transport with a fixed timeout, and the
/// base URL of the registry. Immutable once made.
#[derive(Debug)]
pub struct SwapiClient {
    transport: reqwest::Client,
    base_url: String,
}

impl Clone for SwapiClient {
    /// Another handle on the same client.
    fn clone(&self) -> (cloned: Self)
        ensures
            cloned == *self,
    {
        SwapiClient { transport: self.transport.clone(), base_url: self.base_url.clone() }
    }
}

impl SwapiClient {
    /// The base URL that the client was made with.
    pub closed spec fn base_url_view(&self) -> Seq<char> {
        self.base_url@
    }

    /// The transport that the client was made with.
    pub closed spec fn transport_view(&self) -> reqwest::Client {
        self.transport
    }

    /// The timeout under which the client issues every request, if there is
    /// one: the total request timeout of its transport.
    pub open spec fn timeout_view(&self) -> Option<Duration> {
        client_timeout(self.transport_view())
    }

    /// Makes a client for the registry at `base_url` whose requests give up
    /// once `timeout` has passed.
    ///
    /// A timeout that spans no time is refused, and nothing else is: beyond
    /// that, the client is made exactly when the transport can be built. A
    /// client that was made keeps the base URL and the timeout that it was
    /// given.
    pub fn new(base_url: String, timeout: Duration) -> (made: Result<
        SwapiClient,
        ClientConstructionError,
    >)
        ensures
            duration_nanos(timeout) == 0 <==> made == Err::<SwapiClient, _>(
                ClientConstructionError::InvalidTimeout,
            ),
            made matches Ok(client) ==> client.base_url_view() == base_url@
                && client.timeout_view() == Some(timeout),
    {
        if timeout.is_zero() {
            Err(ClientConstructionError::InvalidTimeout)
        } else {
            let built = reqwest::Client::builder().timeout(timeout).build();
            Self::with_transport(base_url, built)
        }
    }

    /// Makes a client from a base URL and the outcome of building a
    /// transport: the client where there is a transport, and
    /// `TransportUnavailable` where there is none. The client's timeout is
    /// that of the transport.
    pub fn with_transport(
        base_url: String,
        built: Result<reqwest::Client, reqwest::Error>,
    ) -> (made: Result<SwapiClient, ClientConstructionError>)
        ensures
            (match built {
                Ok(transport) => made matches Ok(client) && client.base_url_view() == base_url@
                    && client.transport_view() == transport,
                Err(_) => made == Err::<SwapiClient, _>(
                    ClientConstructionError::TransportUnavailable,
                ),
            }),
    {
        match built {
            Ok(transport) => Ok(SwapiClient { transport, base_url }),
            Err(_) => Err(ClientConstructionError::TransportUnavailable),
        }
    }

    /// The base URL of the registry.
    pub fn base_url(&self) -> (url: &str)
        ensures
            url@ == self.base_url_view(),
    {
        self.base_url.as_str()
    }

    /// The transport, for whoever carries the requests out.
    pub fn transport(&self) -> (transport: &reqwest::Client)
        ensures
            *transport == self.transport_view(),
    {
        &self.transport
    }

    /// Forms the address of the one request that a search for `name` makes:
    /// the people endpoint under the base URL, with the name, verbatim and
    /// percent-encoded, as the value of the query parameter `search`.
    pub fn search_url(&self, name: &str) -> (address: String)
        ensures
            address@ == search_address(self.base_url_view(), name@),
    {
        let encoded = percent_encode(name);
        self.base_url.clone().concat("/api/people/?search=").concat(encoded.as_str())
    }

    /// Reads the reply to a search: the people found, in the registry's order
    /// and unaltered, or the failure that the reply amounts to.
    pub fn people_by_name(&self, reply: Reply) -> (found: Result<Vec<Person>, ClientError>)
        ensures
            found_view(found) == search_outcome(reply.deep_view()),
    {
        match reply {
            Reply::TimedOut => Err(ClientError::Timeout),
            Reply::Failed => Err(ClientError::Transport),
            Reply::Answered { status, envelope } => match envelope {
                Some(envelope) => Ok(envelope.results),
                None => if 200 <= status && status < 300 {
                    Err(ClientError::Decode)
                } else {
                    Err(ClientError::Transport)
                },
            },
        }
    }
}

/// A decoded envelope that lists nobody is a result, not a failure: the
/// search yields the empty list, whatever the status and the count say.
pub proof fn lemma_empty_results_are_no_error(status: u16, envelope: ResponseView<PersonView>)
    requires
        envelope.results.len() == 0,
    ensures
        search_outcome(ReplyView::Answered { status, envelope: Some(envelope) }) == Ok::<
            Seq<PersonView>,
            ClientError,
        >(Seq::empty()),
{
    assert(envelope.results =~= Seq::empty());
}

/// A decoded envelope decides the result alone: the search yields its list,
/// unaltered, whatever the status and the count say.
pub proof fn lemma_decoded_body_wins(status: u16, envelope: ResponseView<PersonView>)
    ensures
        search_outcome(ReplyView::Answered { status, envelope: Some(envelope) }) == Ok::<
            Seq<PersonView>,
            ClientError,
        >(envelope.results),
{
}

/// A search fails with `Timeout` for a reply that timed out, and for no
/// other reply.
pub proof fn lemma_timeout_means_timed_out(reply: ReplyView)
    ensures
        search_outcome(reply) == Err::<Seq<PersonView>, _>(ClientError::Timeout) <==> reply
            is TimedOut,
{
}

/// An exchange that the transport broke off fails with `Timeout` exactly when
/// the transport's error stands for a timeout, and with `Transport`
/// otherwise.
pub proof fn lemma_broken_off_is_timeout_or_transport(timed_out: bool)
    ensures
        search_outcome(broken_off(timed_out)) == Err::<Seq<PersonView>, _>(
            if timed_out {
                ClientError::Timeout
            } else {
                ClientError::Transport
            },
        ),
{
}

} // verus!
