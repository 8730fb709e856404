//! The symbol fetcher: which step comes next when the symbol file of one
//! module is wanted.
//!
//! The fetcher itself touches neither the disk nor the network. It is a
//! small machine: the caller performs the action that the machine asks for
//! (look into the cache, read from it, ask the remote store, write to the
//! cache) and reports what came of it as an event; the machine answers with
//! the next action, until the fetch has ended with the bytes of the symbol
//! file or with the reason why there are none.

use flate2::read::GzDecoder;
use std::io::Read;
use vstd::prelude::*;

verus! {

/// Why the symbol file of a module could not be had.
#[derive(Clone, Copy, Debug, PartialEq, Eq, Structural)]
pub enum FetchError {
    /// The remote store could not be reached or did not answer with success.
    Fetch,
    /// The answer was declared to be gzip and could not be decompressed.
    Decode,
    /// The cache could not be read or written.
    CacheIo,
}

/// What the caller of the fetcher is asked to do next.
#[derive(Clone, Copy, Debug, PartialEq, Eq, Structural)]
pub enum FetchAction {
    /// Ask the cache whether it holds the symbol file.
    ProbeCache,
    /// Read the symbol file from the cache.
    ReadCache,
    /// Ask the remote store for the symbol file.
    Get,
    /// Write the bytes that the state holds to the cache.
    Store,
    /// Nothing more: the state holds the outcome.
    Finish,
}

/// How far a fetch has come.
#[derive(Debug, PartialEq, Eq)]
pub enum FetchState {
    /// The cache has been asked whether it holds the file.
    Probing,
    /// The cache holds the file and has been asked for its bytes.
    Reading,
    /// The cache does not hold the file; the remote store has been asked.
    Requesting,
    /// The remote store gave these bytes; the cache has been asked to keep
    /// them.
    Storing(Vec<u8>),
    /// The fetch has ended.
    Done(Result<Vec<u8>, FetchError>),
}

/// What came of the action that the fetcher asked for.
#[derive(Debug, PartialEq, Eq)]
pub enum FetchEvent {
    /// The cache holds the file, or does not.
    CacheProbed { present: bool },
    /// The bytes read from the cache, or `None` where reading failed.
    CacheRead { bytes: Option<Vec<u8>> },
    /// The remote store answered: the status code, whether the answer
    /// declares gzip content encoding, and the body as it came.
    Responded { status: u16, gzip: bool, body: Vec<u8> },
    /// The remote store could not be asked or did not answer.
    RequestFailed,
    /// The bytes were written to the cache, or could not be.
    Stored { ok: bool },
}

/// The mathematical content of a [`FetchState`].
pub enum StateView {
    Probing,
    Reading,
    Requesting,
    Storing(Seq<u8>),
    Done(Result<Seq<u8>, FetchError>),
}

/// The mathematical content of a [`FetchEvent`].
pub enum EventView {
    CacheProbed { present: bool },
    CacheRead { bytes: Option<Seq<u8>> },
    Responded { status: u16, gzip: bool, body: Seq<u8> },
    RequestFailed,
    Stored { ok: bool },
}

/// The content of optional bytes.
pub open spec fn option_bytes(bytes: Option<Vec<u8>>) -> Option<Seq<u8>> {
    match bytes {
        Some(b) => Some(b@),
        None => None,
    }
}

/// The content of the outcome of a fetch.
pub open spec fn outcome_bytes(outcome: Result<Vec<u8>, FetchError>) -> Result<
    Seq<u8>,
    FetchError,
> {
    match outcome {
        Ok(b) => Ok(b@),
        Err(e) => Err(e),
    }
}

impl View for FetchState {
    type V = StateView;

    open spec fn view(&self) -> StateView {
        match *self {
            FetchState::Probing => StateView::Probing,
            FetchState::Reading => StateView::Reading,
            FetchState::Requesting => StateView::Requesting,
            FetchState::Storing(bytes) => StateView::Storing(bytes@),
            FetchState::Done(outcome) => StateView::Done(outcome_bytes(outcome)),
        }
    }
}

impl View for FetchEvent {
    type V = EventView;

    open spec fn view(&self) -> EventView {
        match *self {
            FetchEvent::CacheProbed { present } => EventView::CacheProbed { present },
            FetchEvent::CacheRead { bytes } => EventView::CacheRead { bytes: option_bytes(bytes) },
            FetchEvent::Responded { status, gzip, body } => EventView::Responded {
                status,
                gzip,
                body: body@,
            },
            FetchEvent::RequestFailed => EventView::RequestFailed,
            FetchEvent::Stored { ok } => EventView::Stored { ok },
        }
    }
}

/// What `flate2`'s `GzDecoder` makes of gzip data read to its end: the
/// decompressed bytes, or `None` where reading fails.
pub uninterp spec fn gunzip_result(data: Seq<u8>) -> Option<Seq<u8>>;

/// Reads a `flate2::read::GzDecoder` over `data` to its end with
/// `Read::read_to_end`. Taken on trust: decompression depends on the data
/// alone, so the bytes read are `gunzip_result` of them; an error of the
/// decoder is handed back as `None`.
#[verifier::external_body]
pub(crate) fn gunzip(data: &[u8]) -> (inflated: Option<Vec<u8>>)
    ensures
        option_bytes(inflated) == gunzip_result(data@),
{
    let mut inflated = Vec::new();
    match GzDecoder::new(data).read_to_end(&mut inflated) {
        Ok(_) => Some(inflated),
        Err(_) => None,
    }
}

/// Whether a status code reports success.
pub open spec fn is_success(status: u16) -> bool {
    200 <= status < 300
}

/// The action that a state waits for.
pub open spec fn pending(state: StateView) -> FetchAction {
    match state {
        StateView::Probing => FetchAction::ProbeCache,
        StateView::Reading => FetchAction::ReadCache,
        StateView::Requesting => FetchAction::Get,
        StateView::Storing(_) => FetchAction::Store,
        StateView::Done(_) => FetchAction::Finish,
    }
}

/// The bytes of a successful answer: the body as it came, or, where the
/// answer declares gzip, what decompressing the body gave (`inflated`).
pub open spec fn decoded_body(gzip: bool, body: Seq<u8>, inflated: Option<Seq<u8>>) -> Result<
    Seq<u8>,
    FetchError,
> {
    if gzip {
        match inflated {
            Some(bytes) => Ok(bytes),
            None => Err(FetchError::Decode),
        }
    } else {
        Ok(body)
    }
}

/// The state after `event`, where `inflated` is what decompressing the body
/// of an answer gave. An event that the state does not wait for changes
/// nothing.
pub open spec fn step(state: StateView, event: EventView, inflated: Option<Seq<u8>>) -> StateView {
    match (state, event) {
        (StateView::Probing, EventView::CacheProbed { present }) => if present {
            StateView::Reading
        } else {
            StateView::Requesting
        },
        (StateView::Reading, EventView::CacheRead { bytes }) => match bytes {
            Some(b) => StateView::Done(Ok(b)),
            None => StateView::Done(Err(FetchError::CacheIo)),
        },
        (StateView::Requesting, EventView::RequestFailed) => StateView::Done(
            Err(FetchError::Fetch),
        ),
        (StateView::Requesting, EventView::Responded { status, gzip, body }) => if !is_success(
            status,
        ) {
            StateView::Done(Err(FetchError::Fetch))
        } else {
            match decoded_body(gzip, body, inflated) {
                Ok(bytes) => StateView::Storing(bytes),
                Err(e) => StateView::Done(Err(e)),
            }
        },
        (StateView::Storing(bytes), EventView::Stored { ok }) => if ok {
            StateView::Done(Ok(bytes))
        } else {
            StateView::Done(Err(FetchError::CacheIo))
        },
        _ => state,
    }
}

/// What decompressing the body of `event` gives, where the event is an
/// answer that declares gzip.
pub open spec fn inflated_of(event: EventView) -> Option<Seq<u8>> {
    match event {
        EventView::Responded { status, gzip, body } => if gzip {
            gunzip_result(body)
        } else {
            None
        },
        _ => None,
    }
}

/// What the remote store does when it is asked for a symbol file.
pub enum RemoteView {
    /// It cannot be reached.
    Unreachable,
    /// It answers.
    Answer { status: u16, gzip: bool, body: Seq<u8> },
}

/// The event that reports the action of `state`, performed on a cache that
/// holds `cached` for the module (`None`: nothing), a remote store that
/// behaves as `remote` says, and a cache that can be written or not.
pub open spec fn report(
    state: StateView,
    cached: Option<Seq<u8>>,
    remote: RemoteView,
    writable: bool,
) -> EventView {
    match state {
        StateView::Probing => EventView::CacheProbed { present: cached is Some },
        StateView::Reading => EventView::CacheRead { bytes: cached },
        StateView::Requesting => match remote {
            RemoteView::Unreachable => EventView::RequestFailed,
            RemoteView::Answer { status, gzip, body } => EventView::Responded {
                status,
                gzip,
                body,
            },
        },
        StateView::Storing(_) => EventView::Stored { ok: writable },
        StateView::Done(_) => EventView::RequestFailed,
    }
}

/// What the cache holds for the module once the action of `state` has been
/// performed: the bytes to store where storing was asked and the cache can
/// be written, else what it held before.
pub open spec fn cache_after(state: StateView, cached: Option<Seq<u8>>, writable: bool) -> Option<
    Seq<u8>,
> {
    match state {
        StateView::Storing(bytes) => if writable {
            Some(bytes)
        } else {
            cached
        },
        _ => cached,
    }
}

/// Where a run of the fetcher stands: its state, what the cache holds for
/// the module, and how often the remote store has been asked.
pub struct RunView {
    pub state: StateView,
    pub cached: Option<Seq<u8>>,
    pub gets: nat,
}

/// A run of at most `steps` steps from `state`, each action performed as
/// [`report`] and [`cache_after`] say.
pub open spec fn run(
    state: StateView,
    cached: Option<Seq<u8>>,
    remote: RemoteView,
    writable: bool,
    steps: nat,
) -> RunView
    decreases steps,
{
    if steps == 0 || state is Done {
        RunView { state, cached, gets: 0 }
    } else {
        let event = report(state, cached, remote, writable);
        let rest = run(
            step(state, event, inflated_of(event)),
            cache_after(state, cached, writable),
            remote,
            writable,
            (steps - 1) as nat,
        );
        RunView {
            state: rest.state,
            cached: rest.cached,
            gets: rest.gets + if state is Requesting {
                1nat
            } else {
                0nat
            },
        }
    }
}

/// A whole fetch, from its first state.
pub open spec fn fetch(cached: Option<Seq<u8>>, remote: RemoteView, writable: bool) -> RunView {
    run(StateView::Probing, cached, remote, writable, 3)
}

/// Every fetch ends within three steps, and asks the remote store at most
/// once.
pub proof fn lemma_fetch_ends(cached: Option<Seq<u8>>, remote: RemoteView, writable: bool)
    ensures
        fetch(cached, remote, writable).state is Done,
        fetch(cached, remote, writable).gets <= 1,
{
    reveal_with_fuel(run, 4);
}

/// A file that the cache holds is returned as it is, and the remote store
/// is not asked.
pub proof fn lemma_cache_hit(bytes: Seq<u8>, remote: RemoteView, writable: bool)
    ensures
        fetch(Some(bytes), remote, writable).state == StateView::Done(Ok(bytes)),
        fetch(Some(bytes), remote, writable).gets == 0,
        fetch(Some(bytes), remote, writable).cached == Some(bytes),
{
    reveal_with_fuel(run, 4);
}

/// After a fetch that ended well, a second fetch of the same module finds
/// the file in the cache: it returns the same bytes without asking the
/// remote store, whatever the store would answer by then. Where the cache
/// held nothing at first, the two fetches ask the remote store once in all.
pub proof fn lemma_second_fetch_hits_cache(
    cached: Option<Seq<u8>>,
    remote: RemoteView,
    writable: bool,
    later_remote: RemoteView,
    later_writable: bool,
)
    requires
        fetch(cached, remote, writable).state matches StateView::Done(Ok(_)),
    ensures
        fetch(fetch(cached, remote, writable).cached, later_remote, later_writable).state == fetch(
            cached,
            remote,
            writable,
        ).state,
        fetch(fetch(cached, remote, writable).cached, later_remote, later_writable).gets == 0,
        cached is None ==> fetch(cached, remote, writable).gets == 1,
{
    reveal_with_fuel(run, 4);
}

/// A fetch that fails leaves the cache as it was.
pub proof fn lemma_failed_fetch_keeps_cache(
    cached: Option<Seq<u8>>,
    remote: RemoteView,
    writable: bool,
)
    requires
        fetch(cached, remote, writable).state matches StateView::Done(Err(_)),
    ensures
        fetch(cached, remote, writable).cached == cached,
{
    reveal_with_fuel(run, 4);
}

/// An answer that declares gzip and decompresses to `body` is taken exactly
/// as the answer that carries `body` itself: the step after it is the same,
/// and so is the whole fetch.
pub proof fn lemma_gzip_transparent(
    status: u16,
    compressed: Seq<u8>,
    body: Seq<u8>,
    cached: Option<Seq<u8>>,
    writable: bool,
)
    requires
        gunzip_result(compressed) == Some(body),
    ensures
        ({
            let zipped = EventView::Responded { status, gzip: true, body: compressed };
            let plain = EventView::Responded { status, gzip: false, body };
            step(StateView::Requesting, zipped, inflated_of(zipped)) == step(
                StateView::Requesting,
                plain,
                inflated_of(plain),
            )
        }),
        fetch(cached, RemoteView::Answer { status, gzip: true, body: compressed }, writable)
            == fetch(cached, RemoteView::Answer { status, gzip: false, body }, writable),
{
    reveal_with_fuel(run, 4);
}

impl FetchState {
    /// The action that this state waits for.
    pub fn action(&self) -> (action: FetchAction)
        ensures
            action == pending(self@),
    {
        match self {
            FetchState::Probing => FetchAction::ProbeCache,
            FetchState::Reading => FetchAction::ReadCache,
            FetchState::Requesting => FetchAction::Get,
            FetchState::Storing(_) => FetchAction::Store,
            FetchState::Done(_) => FetchAction::Finish,
        }
    }

    /// The bytes of the symbol file, once the fetch has ended well; `None`
    /// while it has not ended, and where it failed.
    pub fn fetched(self) -> (bytes: Option<Vec<u8>>)
        ensures
            option_bytes(bytes) == match self@ {
                StateView::Done(Ok(b)) => Some(b),
                _ => None,
            },
    {
        match self {
            FetchState::Done(Ok(bytes)) => Some(bytes),
            _ => None,
        }
    }
}

/// Begins a fetch: the cache is asked first, before any use of the network.
pub fn fetch_start() -> (begun: (FetchState, FetchAction))
    ensures
        begun.0@ == StateView::Probing,
        begun.1 == FetchAction::ProbeCache,
{
    (FetchState::Probing, FetchAction::ProbeCache)
}

/// One step of the fetcher, given what decompressing the body of an answer
/// gave: the state after `event`, and the action that it waits for.
pub fn fetch_step_with(state: FetchState, event: FetchEvent, inflated: Option<Vec<u8>>) -> (next: (
    FetchState,
    FetchAction,
))
    ensures
        next.0@ == step(state@, event@, option_bytes(inflated)),
        next.1 == pending(next.0@),
{
    let after = match (state, event) {
        (FetchState::Probing, FetchEvent::CacheProbed { present }) => {
            if present {
                FetchState::Reading
            } else {
                FetchState::Requesting
            }
        },
        (FetchState::Reading, FetchEvent::CacheRead { bytes }) => {
            match bytes {
                Some(b) => FetchState::Done(Ok(b)),
                None => FetchState::Done(Err(FetchError::CacheIo)),
            }
        },
        (FetchState::Requesting, FetchEvent::RequestFailed) => {
            FetchState::Done(Err(FetchError::Fetch))
        },
        (FetchState::Requesting, FetchEvent::Responded { status, gzip, body }) => {
            if status < 200 || status >= 300 {
                FetchState::Done(Err(FetchError::Fetch))
            } else if gzip {
                match inflated {
                    Some(bytes) => FetchState::Storing(bytes),
                    None => FetchState::Done(Err(FetchError::Decode)),
                }
            } else {
                FetchState::Storing(body)
            }
        },
        (FetchState::Storing(bytes), FetchEvent::Stored { ok }) => {
            if ok {
                FetchState::Done(Ok(bytes))
            } else {
                FetchState::Done(Err(FetchError::CacheIo))
            }
        },
        (unchanged, _) => unchanged,
    };
    let action = after.action();
    (after, action)
}

/// One step of the fetcher: the state after `event`, and the action that it
/// waits for. The body of a successful answer that declares gzip is
/// decompressed here.
pub fn fetch_step(state: FetchState, event: FetchEvent) -> (next: (FetchState, FetchAction))
    ensures
        next.0@ == step(state@, event@, inflated_of(event@)),
        next.1 == pending(next.0@),
{
    let inflated = match (&state, &event) {
        (FetchState::Requesting, FetchEvent::Responded { status, gzip, body }) => {
            if *gzip && 200 <= *status && *status < 300 {
                gunzip(body.as_slice())
            } else {
                None
            }
        },
        _ => None,
    };
    fetch_step_with(state, event, inflated)
}

} // verus!
