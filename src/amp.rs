//! The client: the credential, the endpoint that uploads go to, and the
//! options that go with them.
use vstd::prelude::*;

use crate::entities::{ApiOptions, Event, UploadBody, EVENT_TYPE_REQUIRED, IDENTITY_REQUIRED};
use crate::AmplitudeError;

verus! {

#[verifier::external_type_specification]
#[verifier::external_body]
pub struct ExClient(reqwest::Client);

#[verifier::external_type_specification]
#[verifier::external_body]
pub struct ExReqwestError(reqwest::Error);

#[verifier::external_type_specification]
#[verifier::external_body]
pub struct ExClientBuilder(reqwest::ClientBuilder);

/// Relies on `reqwest::Client::builder`, which starts a client with the
/// default settings. Nothing is stated of it: the builder is only carried.
pub assume_specification[ reqwest::Client::builder ]() -> reqwest::ClientBuilder;

/// Relies on `ClientBuilder::build`, which makes the client, or fails where no
/// TLS backend can be set up or the system's resolver settings cannot be read.
/// Nothing is stated of the outcome.
pub assume_specification[ reqwest::ClientBuilder::build ](b: reqwest::ClientBuilder) -> reqwest::Result<reqwest::Client>;

/// Relies on `impl Clone for reqwest::Client`, which hands out another handle
/// to the same transport. Nothing is stated of it: the client is only carried.
pub assume_specification[ <reqwest::Client as Clone>::clone ](c: &reqwest::Client) -> reqwest::Client;

/// The endpoint for single events and small batches.
pub const URL_SINGLE: &'static str = "https://api2.amplitude.com/2/httpapi";

/// The endpoint for large batches.
pub const URL_BATCH: &'static str = "https://api2.amplitude.com/batch";

/// The environment variable that holds the credential.
pub const API_KEY_VAR: &'static str = "AMPLITUDE_API_KEY";

/// A client of the ingestion service.
#[derive(Clone, Debug)]
pub struct Amp {
    api_key: String,
    client: reqwest::Client,
    url: String,
    options: Option<ApiOptions>,
}

/// What a client holds.
pub struct AmpView {
    pub api_key: Seq<char>,
    pub client: reqwest::Client,
    pub url: Seq<char>,
    pub options: Option<ApiOptions>,
}

/// The message of the `InitializationError` for a missing credential.
pub const NO_API_KEY: &'static str = "No AMPLITUDE_API_KEY environment variable was found";

impl View for Amp {
    type V = AmpView;

    closed spec fn view(&self) -> AmpView {
        AmpView { api_key: self.api_key@, client: self.client, url: self.url@, options: self.options }
    }
}

impl Amp {
    /// Makes a client with the given credential and HTTP transport, sending
    /// to the single-event endpoint, with no options.
    pub fn with_client(api_key: &str, client: reqwest::Client) -> (r: Amp)
        ensures
            r@ == (AmpView { api_key: api_key@, client, url: URL_SINGLE@, options: None }),
    {
        Amp { api_key: api_key.to_owned(), client, url: URL_SINGLE.to_owned(), options: None }
    }

    /// Makes a client with the given credential and a transport with the
    /// default settings, sending to the single-event endpoint, with no
    /// options. Where the transport cannot be set up, the answer is a
    /// `TransportError`.
    pub fn new(api_key: &str) -> (r: Result<Amp, AmplitudeError>)
        ensures
            match r {
                Ok(a) => a@.api_key == api_key@ && a@.url == URL_SINGLE@ && a@.options is None,
                Err(e) => e is TransportError,
            },
    {
        match reqwest::Client::builder().build() {
            Ok(client) => Ok(Amp::with_client(api_key, client)),
            Err(e) => Err(AmplitudeError::TransportError(e)),
        }
    }

    /// Makes a client from the value of the environment variable
    /// `API_KEY_VAR`, `None` where it is not set. Without it there is no
    /// client but an `InitializationError` with the message `NO_API_KEY`;
    /// with it, the client is made as `new` makes it.
    pub fn from_env(var: Option<String>) -> (r: Result<Amp, AmplitudeError>)
        ensures
            match var {
                Some(k) => match r {
                    Ok(a) => a@.api_key == k@ && a@.url == URL_SINGLE@ && a@.options is None,
                    Err(e) => e is TransportError,
                },
                None => r matches Err(AmplitudeError::InitializationError(msg)) && msg@ == NO_API_KEY@,
            },
    {
        match var {
            Some(k) => Amp::new(k.as_str()),
            None => Err(AmplitudeError::InitializationError(NO_API_KEY.to_owned())),
        }
    }

    /// Replaces the HTTP transport; nothing else changes.
    pub fn set_client(&mut self, client: reqwest::Client) -> (r: &mut Self)
        ensures
            (*r)@ == (AmpView { client, ..old(self)@ }),
            *final(r) == *final(self),
    {
        self.client = client;
        self
    }

    /// Sends to the single-event endpoint from now on; nothing else changes.
    pub fn single(&mut self) -> (r: &mut Self)
        ensures
            (*r)@ == with_url(old(self)@, URL_SINGLE@),
            *final(r) == *final(self),
    {
        self.url = URL_SINGLE.to_owned();
        self
    }

    /// Sends to the batch endpoint from now on; nothing else changes.
    pub fn batch(&mut self) -> (r: &mut Self)
        ensures
            (*r)@ == with_url(old(self)@, URL_BATCH@),
            *final(r) == *final(self),
    {
        self.url = URL_BATCH.to_owned();
        self
    }

    /// Asks the service to accept no `user_id` or `device_id` shorter than
    /// `length`; nothing else changes.
    pub fn set_min_id_length(&mut self, length: u16) -> (r: &mut Self)
        ensures
            (*r)@ == (AmpView { options: Some(ApiOptions { min_id_length: Some(length) }), ..old(self)@ }),
            *final(r) == *final(self),
    {
        let mut options = match self.options {
            Some(o) => o,
            None => ApiOptions { min_id_length: None },
        };
        options.min_id_length = Some(length);
        self.options = Some(options);
        self
    }

    /// The endpoint that uploads go to.
    pub fn url(&self) -> (r: &str)
        ensures
            r@ == self@.url,
    {
        self.url.as_str()
    }

    /// The HTTP transport.
    pub fn client(&self) -> (r: &reqwest::Client)
        ensures
            *r == self@.client,
    {
        &self.client
    }

    /// The upload of `events` with this client's credential and options.
    /// Every event must name a user or a device and have a non-empty
    /// `event_type`: where one does not, nothing is to be sent and the answer
    /// is a `ValidationError` about the first such event.
    pub fn upload_body(&self, events: Vec<Event>) -> (r: Result<UploadBody, AmplitudeError>)
        ensures
            match r {
                Ok(b) => (forall|i: int| 0 <= i < events@.len() ==> (#[trigger] events@[i])@.sendable())
                    && b.api_key@ == self@.api_key && b.events@ == events@ && b.options == self@.options,
                Err(AmplitudeError::ValidationError(msg)) => exists|i: int|
                    0 <= i < events@.len() && first_unsendable(events@, i)
                        && msg@ == (if events@[i]@.identified() { EVENT_TYPE_REQUIRED@ } else { IDENTITY_REQUIRED@ }),
                Err(_) => false,
            },
    {
        let mut i: usize = 0;
        while i < events.len()
            invariant
                i <= events@.len(),
                forall|j: int| 0 <= j < i ==> (#[trigger] events@[j])@.sendable(),
            decreases events@.len() - i,
        {
            if !events[i].is_sendable() {
                assert(first_unsendable(events@, i as int));
                if events[i].is_identified() {
                    return Err(AmplitudeError::ValidationError(EVENT_TYPE_REQUIRED.to_owned()));
                } else {
                    return Err(AmplitudeError::ValidationError(IDENTITY_REQUIRED.to_owned()));
                }
            }
            i = i + 1;
        }
        Ok(UploadBody { api_key: self.api_key.clone(), events, options: self.options })
    }
}

/// The event at `i` is the first of `events` that may not be sent.
pub open spec fn first_unsendable(events: Seq<Event>, i: int) -> bool {
    &&& !events[i]@.sendable()
    &&& forall|j: int| 0 <= j < i ==> (#[trigger] events[j])@.sendable()
}

/// The client that `single` and `batch` leave: the same but for the endpoint.
pub open spec fn with_url(a: AmpView, url: Seq<char>) -> AmpView {
    AmpView { url, ..a }
}

/// Choosing the batch endpoint and then the single one (or the other way
/// round) leaves the client as choosing the last alone would: only the
/// endpoint differs from before, and the credential, transport and options
/// stay.
pub proof fn lemma_endpoint_last_wins(a: AmpView)
    ensures
        with_url(with_url(a, URL_BATCH@), URL_SINGLE@) == with_url(a, URL_SINGLE@),
        with_url(with_url(a, URL_SINGLE@), URL_BATCH@) == with_url(a, URL_BATCH@),
        with_url(a, URL_SINGLE@).api_key == a.api_key && with_url(a, URL_SINGLE@).options == a.options
            && with_url(a, URL_SINGLE@).client == a.client,
        with_url(a, URL_BATCH@).api_key == a.api_key && with_url(a, URL_BATCH@).options == a.options
            && with_url(a, URL_BATCH@).client == a.client,
{
}

} // verus!
