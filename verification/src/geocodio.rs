//! The remote fallback: unresolved addresses go to an external geocoding
//! service in chunks of bounded size, one request for each chunk. A session
//! decides what to send and what the answers amount to; its user sends.

use crate::geocode_result::{opt_text, Coordinate, GeocodeRecord, GeocodeResult, ResultSource};
use crate::geocoder_config::{ConfigError, MAX_BATCH_SIZE};
use crate::geocoder_daemon::copy_results;
use crate::text::{blank, copy_strings, is_blank};
use vstd::prelude::*;

verus! {

/// A place that the remote service proposes for an address.
#[derive(Debug, Clone, Copy, PartialEq, Eq, Structural)]
pub struct Location {
    pub lat: Coordinate,
    pub lng: Coordinate,
}

/// The mathematical content of a [`RemoteEntry`].
pub struct RemoteEntryModel {
    pub query: Seq<char>,
    pub candidates: Seq<Location>,
}

/// What the remote service answers for one address: the address as it was
/// sent and the candidates, best first.
#[derive(Debug, Clone, PartialEq, Eq)]
pub struct RemoteEntry {
    pub query: String,
    pub candidates: Vec<Location>,
}

impl View for RemoteEntry {
    type V = RemoteEntryModel;

    open spec fn view(&self) -> RemoteEntryModel {
        RemoteEntryModel { query: self.query@, candidates: self.candidates@ }
    }
}

impl DeepView for RemoteEntry {
    type V = RemoteEntryModel;

    open spec fn deep_view(&self) -> RemoteEntryModel {
        self@
    }
}

/// Why a request to the remote service gave no entries.
#[derive(Debug, Clone, PartialEq, Eq)]
pub enum RemoteFailure {
    /// The request could not be sent or the answer not received.
    Transport { detail: String },
    /// The service answered with a status that is no success.
    Status { code: u16 },
    /// The body of the answer is not of the expected shape.
    Malformed { detail: String },
}

impl RemoteFailure {
    /// A copy of the failure.
    pub fn duplicate(&self) -> (r: RemoteFailure)
        ensures
            r == *self,
    {
        match self {
            RemoteFailure::Transport { detail } => RemoteFailure::Transport {
                detail: detail.clone(),
            },
            RemoteFailure::Status { code } => RemoteFailure::Status { code: *code },
            RemoteFailure::Malformed { detail } => RemoteFailure::Malformed {
                detail: detail.clone(),
            },
        }
    }
}

/// The row that an entry amounts to: the first candidate where there is one,
/// and no coordinates at all where there is none.
pub open spec fn remote_row(entry: RemoteEntryModel) -> GeocodeRecord {
    if entry.candidates.len() > 0 {
        GeocodeRecord {
            address: entry.query,
            lat: Some(entry.candidates[0].lat),
            lon: Some(entry.candidates[0].lng),
            source: Some(ResultSource::RemoteApi),
            status: None,
            error: None,
        }
    } else {
        GeocodeRecord::residual(entry.query)
    }
}

/// The rows that a list of entries amounts to, one for each entry.
pub open spec fn remote_rows(entries: Seq<RemoteEntryModel>) -> Seq<GeocodeRecord> {
    Seq::new(entries.len(), |i: int| remote_row(entries[i]))
}

/// The row that an entry amounts to.
pub fn entry_to_result(entry: &RemoteEntry) -> (r: GeocodeResult)
    ensures
        r@ == remote_row(entry@),
{
    if entry.candidates.len() > 0 {
        let first = entry.candidates[0];
        GeocodeResult::located(
            entry.query.clone(),
            first.lat,
            first.lng,
            ResultSource::RemoteApi,
        )
    } else {
        GeocodeResult::unresolved(entry.query.clone())
    }
}

/// The rows that a list of entries amounts to, one for each entry.
pub fn entries_to_results(entries: &[RemoteEntry]) -> (r: Vec<GeocodeResult>)
    ensures
        r.deep_view() == remote_rows(entries.deep_view()),
{
    let mut r: Vec<GeocodeResult> = Vec::new();
    let mut i: usize = 0;
    while i < entries.len()
        invariant
            i <= entries.len(),
            r.len() == i,
            forall|k: int| 0 <= k < i ==> r.deep_view()[k] == remote_row(entries.deep_view()[k]),
        decreases entries.len() - i,
    {
        let ghost before = r.deep_view();
        let row = entry_to_result(&entries[i]);
        assert(entries.deep_view()[i as int] == entries[i as int]@);
        r.push(row);
        assert(r.deep_view() =~= before.push(row@));
        i += 1;
    }
    assert(r.deep_view() =~= remote_rows(entries.deep_view()));
    r
}

/// The address that a chunk is sent to.
pub open spec fn request_url(base: Seq<char>, api_key: Seq<char>) -> Seq<char> {
    base + "/geocode?api_key="@ + api_key + "&limit=1"@
}

/// The address that a chunk is sent to. The credential is part of it: it is
/// not for logs.
pub fn geocodio_url(base_url: &str, api_key: &str) -> (r: String)
    ensures
        r@ == request_url(base_url@, api_key@),
{
    let mut r = base_url.to_owned();
    r.append("/geocode?api_key=");
    r.append(api_key);
    r.append("&limit=1");
    r
}

/// The credential to use, or the reason why there is none: it must be set
/// and must not be blank.
pub open spec fn credential_of(api_key: Option<Seq<char>>) -> Result<Seq<char>, ConfigError> {
    match api_key {
        None => Err(ConfigError::MissingCredential),
        Some(key) => if is_blank(key) {
            Err(ConfigError::EmptyCredential)
        } else {
            Ok(key)
        },
    }
}

/// The end of the chunk that starts at `offset`.
pub open spec fn chunk_end(offset: int, batch: int, len: int) -> int {
    if offset + batch < len {
        offset + batch
    } else {
        len
    }
}

/// The mathematical content of a [`RemoteAction`].
pub enum RemoteStep {
    Send { url: Seq<char>, addresses: Seq<Seq<char>> },
    Done { outcome: Result<Seq<GeocodeRecord>, RemoteFailure> },
}

/// What the user of a session has to do next.
#[derive(Debug, PartialEq, Eq)]
pub enum RemoteAction {
    /// Send `addresses` in one request to `url` and report the answer.
    Send { url: String, addresses: Vec<String> },
    /// Nothing: the session is over with `outcome`.
    Done { outcome: Result<Vec<GeocodeResult>, RemoteFailure> },
}

impl View for RemoteAction {
    type V = RemoteStep;

    open spec fn view(&self) -> RemoteStep {
        match self {
            RemoteAction::Send { url, addresses } => RemoteStep::Send {
                url: url@,
                addresses: addresses.deep_view(),
            },
            RemoteAction::Done { outcome } => RemoteStep::Done {
                outcome: match outcome {
                    Ok(rows) => Ok(rows.deep_view()),
                    Err(f) => Err(*f),
                },
            },
        }
    }
}

/// The mathematical content of a [`RemoteSession`].
pub struct RemoteModel {
    pub url: Seq<char>,
    pub addresses: Seq<Seq<char>>,
    pub batch_size: nat,
    pub offset: nat,
    pub rows: Seq<GeocodeRecord>,
    pub failure: Option<RemoteFailure>,
}

impl RemoteModel {
    /// The session before anything was sent.
    pub open spec fn initial(url: Seq<char>, addresses: Seq<Seq<char>>, batch_size: nat) -> RemoteModel {
        RemoteModel { url, addresses, batch_size, offset: 0, rows: Seq::empty(), failure: None }
    }

    /// A chunk holds at least one address and at most the maximum, and what
    /// was sent is a prefix of what is to be sent.
    pub open spec fn wf(self) -> bool {
        1 <= self.batch_size <= MAX_BATCH_SIZE && self.offset <= self.addresses.len()
    }

    /// Whether the session is over: a request failed, or nothing is left to
    /// send.
    pub open spec fn done(self) -> bool {
        self.failure is Some || self.offset == self.addresses.len()
    }

    /// What is to be done in this state. A chunk is the next `batch_size`
    /// addresses, or all that are left.
    pub open spec fn action(self) -> RemoteStep {
        match self.failure {
            Some(f) => RemoteStep::Done { outcome: Err(f) },
            None => if self.offset == self.addresses.len() {
                RemoteStep::Done { outcome: Ok(self.rows) }
            } else {
                RemoteStep::Send {
                    url: self.url,
                    addresses: self.addresses.subrange(
                        self.offset as int,
                        chunk_end(
                            self.offset as int,
                            self.batch_size as int,
                            self.addresses.len() as int,
                        ),
                    ),
                }
            },
        }
    }

    /// The session after the answer to the chunk that was due. Entries add
    /// their rows; a failure ends the session and voids the rows so far.
    pub open spec fn next(self, answer: Result<Vec<RemoteEntry>, RemoteFailure>) -> RemoteModel {
        if self.done() {
            self
        } else {
            match answer {
                Ok(entries) => RemoteModel {
                    offset: chunk_end(
                        self.offset as int,
                        self.batch_size as int,
                        self.addresses.len() as int,
                    ) as nat,
                    rows: self.rows + remote_rows(entries.deep_view()),
                    ..self
                },
                Err(f) => RemoteModel { failure: Some(f), ..self },
            }
        }
    }
}

/// One call of the remote service for a list of addresses.
pub struct RemoteSession {
    pub url: String,
    pub addresses: Vec<String>,
    pub batch_size: usize,
    pub offset: usize,
    pub rows: Vec<GeocodeResult>,
    pub failure: Option<RemoteFailure>,
}

impl View for RemoteSession {
    type V = RemoteModel;

    open spec fn view(&self) -> RemoteModel {
        RemoteModel {
            url: self.url@,
            addresses: self.addresses.deep_view(),
            batch_size: self.batch_size as nat,
            offset: self.offset as nat,
            rows: self.rows.deep_view(),
            failure: self.failure,
        }
    }
}

impl RemoteSession {
    /// A session that sends `addresses` in chunks of `batch_size`. Without a
    /// credential there is no session: a credential that is not set or is
    /// blank is a configuration error.
    pub fn start(
        api_key: &Option<String>,
        base_url: &str,
        batch_size: usize,
        addresses: &[String],
    ) -> (r: Result<RemoteSession, ConfigError>)
        requires
            1 <= batch_size <= MAX_BATCH_SIZE,
        ensures
            match r {
                Ok(session) => credential_of(opt_text(*api_key)) matches Ok(key) && session@
                    == RemoteModel::initial(
                    request_url(base_url@, key),
                    addresses.deep_view(),
                    batch_size as nat,
                ) && session@.wf(),
                Err(e) => credential_of(opt_text(*api_key)) == Err::<Seq<char>, ConfigError>(e),
            },
    {
        match api_key {
            None => Err(ConfigError::MissingCredential),
            Some(key) => {
                if blank(key.as_str()) {
                    Err(ConfigError::EmptyCredential)
                } else {
                    let session = RemoteSession {
                        url: geocodio_url(base_url, key.as_str()),
                        addresses: copy_strings(addresses),
                        batch_size,
                        offset: 0,
                        rows: Vec::new(),
                        failure: None,
                    };
                    assert(session.rows.deep_view() =~= Seq::<GeocodeRecord>::empty());
                    Ok(session)
                }
            },
        }
    }

    /// Whether the session is over.
    pub fn is_done(&self) -> (r: bool)
        ensures
            r == self@.done(),
    {
        self.failure.is_some() || self.offset == self.addresses.len()
    }

    /// What is to be done next.
    pub fn action(&self) -> (r: RemoteAction)
        requires
            self@.wf(),
        ensures
            r@ == self@.action(),
    {
        match &self.failure {
            Some(f) => RemoteAction::Done { outcome: Err(f.duplicate()) },
            None => {
                if self.offset == self.addresses.len() {
                    RemoteAction::Done { outcome: Ok(copy_results(self.rows.as_slice())) }
                } else {
                    let end: usize = if self.batch_size < self.addresses.len() - self.offset {
                        self.offset + self.batch_size
                    } else {
                        self.addresses.len()
                    };
                    let mut chunk: Vec<String> = Vec::new();
                    let mut i: usize = self.offset;
                    while i < end
                        invariant
                            self.offset <= i <= end <= self.addresses.len(),
                            chunk.len() == i - self.offset,
                            forall|k: int|
                                0 <= k < i - self.offset ==> chunk.deep_view()[k]
                                    == self.addresses.deep_view()[self.offset + k],
                        decreases end - i,
                    {
                        let ghost before = chunk.deep_view();
                        let a = self.addresses[i].clone();
                        assert(self.addresses.deep_view()[i as int] == a@);
                        chunk.push(a);
                        assert(chunk.deep_view() =~= before.push(a@));
                        i += 1;
                    }
                    assert(chunk.deep_view() =~= self.addresses.deep_view().subrange(
                        self.offset as int,
                        end as int,
                    ));
                    RemoteAction::Send { url: self.url.clone(), addresses: chunk }
                }
            },
        }
    }

    /// Takes note of the answer to the chunk that was due.
    pub fn handle(&mut self, answer: Result<Vec<RemoteEntry>, RemoteFailure>)
        requires
            old(self)@.wf(),
        ensures
            final(self)@ == old(self)@.next(answer),
            final(self)@.wf(),
    {
        if self.is_done() {
            return ;
        }
        match answer {
            Ok(entries) => {
                let mut rows = entries_to_results(entries.as_slice());
                let ghost before = self.rows.deep_view();
                let ghost added = rows.deep_view();
                self.rows.append(&mut rows);
                assert(self.rows.deep_view() =~= before + added);
                self.offset = if self.batch_size < self.addresses.len() - self.offset {
                    self.offset + self.batch_size
                } else {
                    self.addresses.len()
                };
            },
            Err(f) => {
                self.failure = Some(f);
            },
        }
    }
}

/// No request carries more addresses than the configured chunk size, none is
/// empty, and each takes up where the one before it ended.
pub proof fn law_remote_chunks_are_bounded(s: RemoteModel)
    requires
        s.wf(),
        !s.done(),
    ensures
        s.action() matches RemoteStep::Send { url, addresses } && 1 <= addresses.len()
            <= s.batch_size && addresses == s.addresses.subrange(
            s.offset as int,
            (s.offset + addresses.len()) as int,
        ),
{
}

impl RemoteModel {
    /// A bound on the number of answers that the session still waits for:
    /// one for each address not sent yet.
    pub open spec fn budget(self) -> nat {
        if self.done() {
            0
        } else {
            (self.addresses.len() - self.offset) as nat
        }
    }
}

/// Every answer brings a session closer to its end: it is over after as
/// many answers as there are addresses, at most.
pub proof fn law_remote_session_ends(s: RemoteModel, answer: Result<Vec<RemoteEntry>, RemoteFailure>)
    requires
        s.wf(),
        !s.done(),
    ensures
        s.next(answer).budget() < s.budget(),
        s.next(answer).wf(),
        s.budget() <= s.addresses.len(),
{
}

} // verus!
