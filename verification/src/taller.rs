//! The comparison: is the reference figure taller than a character of the
//! registry?
//!
//! The subject of a comparison is the first record that the registry returns
//! for the name; later records are never looked at. The reference is taller
//! only if its height is strictly greater than the subject's.

use crate::height::{height_value, is_digit, parse_height};
use crate::swapi::{
    found_view, search_outcome, ClientError, Person, PersonView, ReplyView, ResponseView,
    SwapiClient,
};
use vstd::prelude::*;
use vstd::string::*;

verus! {

/// Yoda's height in centimetres: the reference of [`YodaTaller::new`].
pub const YODA_HEIGHT: u32 = 66;

/// The answer to one comparison.
#[derive(Debug, Clone, PartialEq, Eq, Hash)]
pub struct YodaTallerOutcome {
    /// The subject's name in the registry's spelling, which may differ from
    /// the name that was asked for.
    pub person: String,
    /// Whether the reference is strictly taller than the subject.
    pub taller: bool,
}

/// A [`YodaTallerOutcome`] as plain text and a flag.
pub ghost struct OutcomeView {
    pub person: Seq<char>,
    pub taller: bool,
}

impl View for YodaTallerOutcome {
    type V = OutcomeView;

    open spec fn view(&self) -> OutcomeView {
        OutcomeView { person: self.person@, taller: self.taller }
    }
}

/// Why a comparison has no answer.
#[derive(Debug, Clone, Copy, PartialEq, Eq, Hash)]
pub enum YodaTallerError {
    /// The search itself failed; the client's error is passed on unchanged.
    UnexpectedError(ClientError),
    /// The registry knows nobody of that name.
    PersonNotFound,
    /// The subject's height is missing or is no number.
    HeightNotFound,
}

/// The subject among the records of a search: the first, if there is one.
pub open spec fn first_match(people: Seq<PersonView>) -> Option<PersonView> {
    if people.len() == 0 {
        None
    } else {
        Some(people[0])
    }
}

/// The answer for one subject, against a reference height.
pub open spec fn judgement(reference: u32, subject: PersonView) -> Result<
    OutcomeView,
    YodaTallerError,
> {
    match height_value(subject.height) {
        Some(height) => Ok(OutcomeView { person: subject.name, taller: reference > height }),
        None => Err(YodaTallerError::HeightNotFound),
    }
}

/// The answer for the records of a search, against a reference height.
pub open spec fn comparison(reference: u32, people: Seq<PersonView>) -> Result<
    OutcomeView,
    YodaTallerError,
> {
    match first_match(people) {
        Some(subject) => judgement(reference, subject),
        None => Err(YodaTallerError::PersonNotFound),
    }
}

/// The answer for the outcome of a search, against a reference height.
pub open spec fn verdict(reference: u32, found: Result<Seq<PersonView>, ClientError>) -> Result<
    OutcomeView,
    YodaTallerError,
> {
    match found {
        Ok(people) => comparison(reference, people),
        Err(error) => Err(YodaTallerError::UnexpectedError(error)),
    }
}

/// An answer with its outcome viewed.
pub open spec fn answer_view(answer: Result<YodaTallerOutcome, YodaTallerError>) -> Result<
    OutcomeView,
    YodaTallerError,
> {
    match answer {
        Ok(outcome) => Ok(outcome@),
        Err(error) => Err(error),
    }
}

/// Compares characters of the registry with a fixed reference height.
pub struct YodaTaller {
    client: SwapiClient,
    reference_height: u32,
}

impl YodaTaller {
    /// The client that the comparison searches with.
    pub closed spec fn client_view(&self) -> SwapiClient {
        self.client
    }

    /// The height that subjects are compared with.
    pub closed spec fn reference(&self) -> u32 {
        self.reference_height
    }

    /// A comparison against Yoda's height.
    pub fn new(swapi_client: SwapiClient) -> (taller: YodaTaller)
        ensures
            taller.client_view() == swapi_client,
            taller.reference() == YODA_HEIGHT,
    {
        YodaTaller { client: swapi_client, reference_height: YODA_HEIGHT }
    }

    /// A comparison against a reference height of the caller's choice.
    pub fn with_reference_height(swapi_client: SwapiClient, reference_height: u32) -> (taller:
        YodaTaller)
        ensures
            taller.client_view() == swapi_client,
            taller.reference() == reference_height,
    {
        YodaTaller { client: swapi_client, reference_height }
    }

    /// The client that the comparison searches with.
    pub fn client(&self) -> (client: &SwapiClient)
        ensures
            *client == self.client_view(),
    {
        &self.client
    }

    /// The height that subjects are compared with.
    pub fn reference_height(&self) -> (height: u32)
        ensures
            height == self.reference(),
    {
        self.reference_height
    }

    /// Picks the subject among the records of a search: the first record,
    /// unaltered, or `None` exactly when there is no record.
    pub fn first_match(people: Vec<Person>) -> (subject: Option<Person>)
        ensures
            subject.deep_view() == first_match(people.deep_view()),
    {
        let mut people = people;
        if people.len() == 0 {
            None
        } else {
            Some(people.remove(0))
        }
    }

    /// Answers the comparison for one subject.
    ///
    /// Fails with `HeightNotFound` exactly when the subject's height is no
    /// decimal numeral that fits in a `u32`. Otherwise the answer carries the
    /// subject's name and says whether the reference is strictly greater than
    /// the subject's height.
    pub fn judge(&self, subject: Person) -> (answer: Result<YodaTallerOutcome, YodaTallerError>)
        ensures
            answer_view(answer) == judgement(self.reference(), subject@),
    {
        let Person { name, height } = subject;
        match parse_height(height.as_str()) {
            Some(height) => Ok(
                YodaTallerOutcome { person: name, taller: self.reference_height > height },
            ),
            None => Err(YodaTallerError::HeightNotFound),
        }
    }

    /// Answers the comparison for the records that a search returned.
    ///
    /// The first record is the subject. Fails with `PersonNotFound` exactly
    /// when there is no record, and with `HeightNotFound` exactly when there
    /// is one and the first carries no height.
    pub fn compare(&self, people: Vec<Person>) -> (answer: Result<
        YodaTallerOutcome,
        YodaTallerError,
    >)
        ensures
            answer_view(answer) == comparison(self.reference(), people.deep_view()),
    {
        match Self::first_match(people) {
            Some(subject) => self.judge(subject),
            None => Err(YodaTallerError::PersonNotFound),
        }
    }

    /// Answers the comparison from the outcome of the search for the subject.
    ///
    /// A failed search is passed on as `UnexpectedError`, with the client's
    /// error unchanged; otherwise the answer is that of [`Self::compare`] on
    /// the people found.
    pub fn is_taller_than(&self, found: Result<Vec<Person>, ClientError>) -> (answer: Result<
        YodaTallerOutcome,
        YodaTallerError,
    >)
        ensures
            answer_view(answer) == verdict(self.reference(), found_view(found)),
    {
        match found {
            Ok(people) => self.compare(people),
            Err(error) => Err(YodaTallerError::UnexpectedError(error)),
        }
    }
}

/// Only the first record counts: two lists that begin with the same record
/// get the same answer, whatever follows it in either.
pub proof fn lemma_first_match_decides(
    reference: u32,
    people: Seq<PersonView>,
    others: Seq<PersonView>,
)
    requires
        people.len() >= 1,
        others.len() >= 1,
        people[0] == others[0],
    ensures
        first_match(people) == first_match(others),
        comparison(reference, people) == comparison(reference, others),
{
}

/// Only the first record of a decoded reply counts: two replies whose lists
/// begin with the same record get the same answer, whatever their statuses
/// and counts, and whatever follows the first record in either.
pub proof fn lemma_first_match_decides_reply(
    reference: u32,
    status: u16,
    envelope: ResponseView<PersonView>,
    other_status: u16,
    other_envelope: ResponseView<PersonView>,
)
    requires
        envelope.results.len() >= 1,
        other_envelope.results.len() >= 1,
        envelope.results[0] == other_envelope.results[0],
    ensures
        verdict(
            reference,
            search_outcome(ReplyView::Answered { status, envelope: Some(envelope) }),
        ) == verdict(
            reference,
            search_outcome(
                ReplyView::Answered { status: other_status, envelope: Some(other_envelope) },
            ),
        ),
{
}

/// The comparison is strict: against a subject exactly as tall as the
/// reference, the reference is not taller.
pub proof fn lemma_equal_height_is_not_taller(reference: u32, subject: PersonView)
    requires
        height_value(subject.height) == Some(reference),
    ensures
        judgement(reference, subject) == Ok::<_, YodaTallerError>(
            OutcomeView { person: subject.name, taller: false },
        ),
{
}

/// Where there is an answer, it says `taller` exactly when the reference is
/// strictly greater than the subject's height, and it names the subject as
/// the registry spells it.
pub proof fn lemma_taller_is_strictly_greater(reference: u32, subject: PersonView)
    requires
        height_value(subject.height) is Some,
    ensures
        judgement(reference, subject) matches Ok(outcome) && outcome.person == subject.name && (
        outcome.taller <==> reference > height_value(subject.height).unwrap()),
{
}

/// A subject whose height reads `unknown` gets `HeightNotFound`, whatever the
/// reference.
pub proof fn lemma_unknown_height_is_not_found(reference: u32, subject: PersonView)
    requires
        subject.height == "unknown"@,
    ensures
        judgement(reference, subject) == Err::<OutcomeView, _>(YodaTallerError::HeightNotFound),
{
    reveal_strlit("unknown");
    assert(!is_digit("unknown"@[0]));
}

/// `HeightNotFound` is the answer exactly for a subject whose height is no
/// numeral.
pub proof fn lemma_height_not_found_means_no_numeral(reference: u32, subject: PersonView)
    ensures
        judgement(reference, subject) == Err::<OutcomeView, _>(YodaTallerError::HeightNotFound)
            <==> height_value(subject.height) is None,
{
}

/// An empty list gets `PersonNotFound`, and nothing else does: a list with a
/// first record gets an answer or `HeightNotFound`.
pub proof fn lemma_person_not_found_means_empty(reference: u32, people: Seq<PersonView>)
    ensures
        comparison(reference, people) == Err::<OutcomeView, _>(YodaTallerError::PersonNotFound)
            <==> people.len() == 0,
{
}

/// A failed search is passed on unchanged, and a search that succeeded never
/// yields `UnexpectedError`.
pub proof fn lemma_client_errors_pass_unchanged(
    reference: u32,
    found: Result<Seq<PersonView>, ClientError>,
    error: ClientError,
)
    ensures
        verdict(reference, found) == Err::<OutcomeView, _>(
            YodaTallerError::UnexpectedError(error),
        ) <==> found == Err::<Seq<PersonView>, _>(error),
{
}

} // verus!
