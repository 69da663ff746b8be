//! The fetch as a machine: it asks for one outside operation at a time and
//! decides from the outcome what comes next.
//!
//! The machine performs no I/O. Its owner carries out the `Action` that is
//! pending, reports the outcome as an `Event` to `Download::step`, and goes on
//! until the pending action is `Finish` or `Fail`.

use vstd::prelude::*;
use crate::error::ApiError;
use crate::progress::{advanced, cap, Progress};

verus! {

/// Where a fetch stands.
#[derive(Clone, Copy, Debug, PartialEq, Eq)]
pub enum Phase {
    /// Asking whether the blob is in the cache already.
    Probe,
    /// Making sure that the directory of temporary files exists.
    TempDir,
    /// Waiting for the answer to the GET request.
    Request,
    /// Creating the temporary file.
    Create,
    /// Copying the body into the temporary file, chunk by chunk.
    Stream,
    /// Renaming the complete temporary file to the blob path.
    Promote,
    /// Finished: the result path is ready.
    Done,
    /// Given up, for the reason attached.
    Failed(ApiError),
}

/// What the owner of the machine is asked to do next.
#[derive(Clone, Copy, Debug, PartialEq, Eq)]
pub enum Action {
    /// Test whether a file exists at the blob path.
    Probe,
    /// Create the directory of temporary files with its parents; a failure
    /// is not reported.
    MakeTempDir,
    /// Send a GET request for the URL.
    Get,
    /// Create the temporary file, empty.
    CreateFile,
    /// Read the next chunk of the body and append it to the temporary file.
    Pull,
    /// Flush and close the temporary file, then rename it to the blob path.
    Rename,
    /// Nothing is left to do: the fetch has succeeded.
    Finish,
    /// Nothing is left to do: the fetch has failed.
    Fail(ApiError),
}

/// What the owner of the machine reports back.
#[derive(Clone, Copy, Debug, PartialEq, Eq)]
pub enum Event {
    /// A file exists at the blob path.
    BlobFound,
    /// No file exists at the blob path.
    BlobMissing,
    /// The directory of temporary files was attended to.
    DirReady,
    /// The server answered with this status and, if it sent one, this
    /// `Content-Length`.
    Response { status: u16, length: Option<u64> },
    /// The request could not be built or sent, or the body broke off.
    RequestFailed,
    /// The temporary file was created.
    FileCreated,
    /// A chunk of `len` bytes was read and written out in full.
    Chunk { len: u64 },
    /// The body has ended and every chunk is written.
    BodyEnd,
    /// A file operation failed.
    IoFailed,
    /// The temporary file now stands at the blob path.
    Renamed,
}

/// A fetch as the contracts see it.
pub struct State {
    pub phase: Phase,
    /// Bytes written to the temporary file.
    pub position: nat,
    /// Size of the body that the server announced.
    pub total: Option<u64>,
    /// Whether the fetch ends by renaming the temporary file to the blob path.
    pub promote: bool,
    /// Whether the owner draws a progress bar.
    pub reporting: bool,
    pub url: Seq<char>,
    pub blob: Seq<char>,
    pub temp_dir: Seq<char>,
    pub temp: Seq<char>,
}

/// The status is one of the success codes, 200 to 299.
pub open spec fn is_success(status: u16) -> bool {
    200 <= status <= 299
}

/// How far along a phase is: a fetch moves to higher ranks only.
pub open spec fn rank(phase: Phase) -> nat {
    match phase {
        Phase::Probe => 0,
        Phase::TempDir => 1,
        Phase::Request => 2,
        Phase::Create => 3,
        Phase::Stream => 4,
        Phase::Promote => 5,
        Phase::Done => 6,
        Phase::Failed(_) => 6,
    }
}

/// The fetch is over, well or badly.
pub open spec fn is_final(phase: Phase) -> bool {
    phase is Done || phase is Failed
}

impl State {
    /// The state with another phase.
    pub open spec fn at(self, phase: Phase) -> State {
        State { phase, ..self }
    }

    /// Nothing is written before the body is streamed, and the position never
    /// passes the announced size.
    pub open spec fn inv(self) -> bool {
        &&& rank(self.phase) < rank(Phase::Stream) ==> self.position == 0
        &&& self.position <= cap(self.total)
    }

    /// The path that a successful fetch yields: the blob path when the fetch
    /// promotes, else the temporary path.
    pub open spec fn output(self) -> Seq<char> {
        if self.promote {
            self.blob
        } else {
            self.temp
        }
    }
}

/// The action that is pending in state `s`.
pub open spec fn pending(s: State) -> Action {
    match s.phase {
        Phase::Probe => Action::Probe,
        Phase::TempDir => Action::MakeTempDir,
        Phase::Request => Action::Get,
        Phase::Create => Action::CreateFile,
        Phase::Stream => Action::Pull,
        Phase::Promote => Action::Rename,
        Phase::Done => Action::Finish,
        Phase::Failed(e) => Action::Fail(e),
    }
}

/// The state that follows `s` on `event`. An event that is no outcome of the
/// pending action leaves the state as it is.
pub open spec fn next(s: State, event: Event) -> State {
    match (s.phase, event) {
        (Phase::Probe, Event::BlobFound) => s.at(Phase::Done),
        (Phase::Probe, Event::BlobMissing) => s.at(Phase::TempDir),
        (Phase::TempDir, Event::DirReady) => s.at(Phase::Request),
        (Phase::Request, Event::Response { status, length }) => if is_success(status) {
            State { phase: Phase::Create, position: 0, total: length, ..s }
        } else {
            s.at(Phase::Failed(ApiError::InvalidResponse(status)))
        },
        (Phase::Request, Event::RequestFailed) => s.at(Phase::Failed(ApiError::RequestError)),
        (Phase::Create, Event::FileCreated) => s.at(Phase::Stream),
        (Phase::Create, Event::IoFailed) => s.at(Phase::Failed(ApiError::IoError)),
        (Phase::Stream, Event::Chunk { len }) => State {
            position: advanced(s.position, s.total, len as nat),
            ..s
        },
        (Phase::Stream, Event::BodyEnd) => if s.promote {
            s.at(Phase::Promote)
        } else {
            s.at(Phase::Done)
        },
        (Phase::Stream, Event::RequestFailed) => s.at(Phase::Failed(ApiError::RequestError)),
        (Phase::Stream, Event::IoFailed) => s.at(Phase::Failed(ApiError::IoError)),
        (Phase::Promote, Event::Renamed) => s.at(Phase::Done),
        (Phase::Promote, Event::IoFailed) => s.at(Phase::Failed(ApiError::IoError)),
        _ => s,
    }
}

/// The line shown above the progress bar while `url` is fetched.
pub open spec fn start_text(url: Seq<char>) -> Seq<char> {
    "Downloading "@ + url
}

/// The line that the progress bar is finished with, once the body of `url`
/// is written to `path`.
pub open spec fn finish_text(url: Seq<char>, path: Seq<char>) -> Seq<char> {
    "Downloaded "@ + url + " to "@ + path
}

/// The state reached from `s` after `events`, in order.
pub open spec fn run(s: State, events: Seq<Event>) -> State
    decreases events.len(),
{
    if events.len() == 0 {
        s
    } else {
        next(run(s, events.drop_last()), events.last())
    }
}

/// A fetch in progress.
#[derive(Debug)]
pub struct Download {
    url: String,
    blob: String,
    temp_dir: String,
    temp: String,
    reporting: bool,
    promote: bool,
    phase: Phase,
    progress: Progress,
}

impl View for Download {
    type V = State;

    closed spec fn view(&self) -> State {
        State {
            phase: self.phase,
            position: self.progress.at(),
            total: self.progress.size(),
            promote: self.promote,
            reporting: self.reporting,
            url: self.url@,
            blob: self.blob@,
            temp_dir: self.temp_dir@,
            temp: self.temp@,
        }
    }
}

impl Download {
    /// Every fetch is in a state that `State::inv` admits.
    #[verifier::type_invariant]
    pub open spec fn sound(self) -> bool {
        self@.inv()
    }

    /// A fetch of `url` into `blob` by way of `temp`, which lies in
    /// `temp_dir`. With `promote` the fetch starts by probing the cache and
    /// ends by renaming `temp` to `blob`; without, it starts at the transfer
    /// and leaves the body in `temp`.
    pub fn new(
        url: String,
        blob: String,
        temp_dir: String,
        temp: String,
        promote: bool,
        reporting: bool,
    ) -> (d: Download)
        ensures
            d@ == (State {
                phase: if promote {
                    Phase::Probe
                } else {
                    Phase::TempDir
                },
                position: 0,
                total: None,
                promote,
                reporting,
                url: url@,
                blob: blob@,
                temp_dir: temp_dir@,
                temp: temp@,
            }),
    {
        let phase = if promote {
            Phase::Probe
        } else {
            Phase::TempDir
        };
        Download {
            url,
            blob,
            temp_dir,
            temp,
            reporting,
            promote,
            phase,
            progress: Progress::new(None),
        }
    }

    /// The address that is fetched.
    pub fn url(&self) -> (s: &String)
        ensures
            s@ == self@.url,
    {
        &self.url
    }

    /// Where the blob is kept once the fetch has succeeded.
    pub fn blob(&self) -> (p: &String)
        ensures
            p@ == self@.blob,
    {
        &self.blob
    }

    /// The directory of temporary files.
    pub fn temp_dir(&self) -> (p: &String)
        ensures
            p@ == self@.temp_dir,
    {
        &self.temp_dir
    }

    /// The temporary file that receives the body.
    pub fn temp(&self) -> (p: &String)
        ensures
            p@ == self@.temp,
    {
        &self.temp
    }

    /// The path that the fetch yields when it succeeds.
    pub fn output(&self) -> (p: &String)
        ensures
            p@ == self@.output(),
    {
        if self.promote {
            &self.blob
        } else {
            &self.temp
        }
    }

    /// Whether a progress bar is to be drawn.
    pub fn reporting(&self) -> (b: bool)
        ensures
            b == self@.reporting,
    {
        self.reporting
    }

    /// Where the fetch stands.
    pub fn phase(&self) -> (p: Phase)
        ensures
            p == self@.phase,
    {
        self.phase
    }

    /// Bytes written so far; never more than the announced size.
    pub fn position(&self) -> (n: u64)
        ensures
            n == self@.position,
            self@.inv(),
    {
        proof {
            use_type_invariant(self);
        }
        self.progress.position()
    }

    /// The size that the server announced, if it announced one.
    pub fn total(&self) -> (t: Option<u64>)
        ensures
            t == self@.total,
    {
        self.progress.total()
    }

    /// The message of the progress bar during the transfer.
    pub fn start_message(&self) -> (m: String)
        ensures
            m@ == start_text(self@.url),
    {
        let mut m = String::from_str("Downloading ");
        m.append(self.url.as_str());
        m
    }

    /// The message that the progress bar is finished with: it names the URL
    /// and the temporary file that holds the body.
    pub fn finish_message(&self) -> (m: String)
        ensures
            m@ == finish_text(self@.url, self@.temp),
    {
        let mut m = String::from_str("Downloaded ");
        m.append(self.url.as_str());
        m.append(" to ");
        m.append(self.temp.as_str());
        m
    }

    /// What is to be done next.
    pub fn action(&self) -> (a: Action)
        ensures
            a == pending(self@),
    {
        match self.phase {
            Phase::Probe => Action::Probe,
            Phase::TempDir => Action::MakeTempDir,
            Phase::Request => Action::Get,
            Phase::Create => Action::CreateFile,
            Phase::Stream => Action::Pull,
            Phase::Promote => Action::Rename,
            Phase::Done => Action::Finish,
            Phase::Failed(e) => Action::Fail(e),
        }
    }

    /// Takes in the outcome of the pending action and says what to do next.
    /// The position never decreases, and never passes the announced size.
    pub fn step(&mut self, event: Event) -> (action: Action)
        ensures
            final(self)@ == next(old(self)@, event),
            action == pending(final(self)@),
            final(self)@.inv(),
            old(self)@.position <= final(self)@.position,
    {
        proof {
            use_type_invariant(&*self);
        }
        match (self.phase, event) {
            (Phase::Probe, Event::BlobFound) => {
                self.phase = Phase::Done;
            },
            (Phase::Probe, Event::BlobMissing) => {
                self.phase = Phase::TempDir;
            },
            (Phase::TempDir, Event::DirReady) => {
                self.phase = Phase::Request;
            },
            (Phase::Request, Event::Response { status, length }) => {
                if 200 <= status && status <= 299 {
                    self.progress = Progress::new(length);
                    self.phase = Phase::Create;
                } else {
                    self.phase = Phase::Failed(ApiError::InvalidResponse(status));
                }
            },
            (Phase::Request, Event::RequestFailed) => {
                self.phase = Phase::Failed(ApiError::RequestError);
            },
            (Phase::Create, Event::FileCreated) => {
                self.phase = Phase::Stream;
            },
            (Phase::Create, Event::IoFailed) => {
                self.phase = Phase::Failed(ApiError::IoError);
            },
            (Phase::Stream, Event::Chunk { len }) => {
                let mut progress = self.progress;
                progress.advance(len);
                self.progress = progress;
            },
            (Phase::Stream, Event::BodyEnd) => {
                if self.promote {
                    self.phase = Phase::Promote;
                } else {
                    self.phase = Phase::Done;
                }
            },
            (Phase::Stream, Event::RequestFailed) => {
                self.phase = Phase::Failed(ApiError::RequestError);
            },
            (Phase::Stream, Event::IoFailed) => {
                self.phase = Phase::Failed(ApiError::IoError);
            },
            (Phase::Promote, Event::Renamed) => {
                self.phase = Phase::Done;
            },
            (Phase::Promote, Event::IoFailed) => {
                self.phase = Phase::Failed(ApiError::IoError);
            },
            _ => {},
        }
        proof {
            use_type_invariant(&*self);
        }
        self.action()
    }
}

/// The state after the first `n` of `events`.
pub open spec fn state_at(s: State, events: Seq<Event>, n: int) -> State {
    run(s, events.take(n))
}

/// Running one event further is one step from where the run stood.
pub proof fn lemma_run_step(s: State, events: Seq<Event>, n: int)
    requires
        0 <= n < events.len(),
    ensures
        state_at(s, events, n + 1) == next(state_at(s, events, n), events[n]),
{
    assert(events.take(n + 1).drop_last() =~= events.take(n));
}

/// A fetch that is over stays as it is, whatever is reported to it.
pub proof fn lemma_final_states_absorb(s: State, event: Event)
    requires
        is_final(s.phase),
    ensures
        next(s, event) == s,
{
}

/// A step never changes the URL, the paths, or what kind of fetch it is.
pub proof fn lemma_names_fixed(s: State, events: Seq<Event>)
    ensures
        run(s, events).url == s.url,
        run(s, events).blob == s.blob,
        run(s, events).temp_dir == s.temp_dir,
        run(s, events).temp == s.temp,
        run(s, events).promote == s.promote,
        run(s, events).reporting == s.reporting,
    decreases events.len(),
{
    if events.len() > 0 {
        lemma_names_fixed(s, events.drop_last());
    }
}

/// Phases only move forward: no step leads to a phase of lower rank.
pub proof fn lemma_forward_only(s: State, event: Event)
    ensures
        rank(s.phase) <= rank(next(s, event).phase),
{
}

/// Along a run the rank of the phase never drops.
pub proof fn lemma_run_forward(s: State, events: Seq<Event>, i: int, j: int)
    requires
        0 <= i <= j <= events.len(),
    ensures
        rank(state_at(s, events, i).phase) <= rank(state_at(s, events, j).phase),
    decreases j - i,
{
    if i < j {
        lemma_run_forward(s, events, i, j - 1);
        lemma_run_step(s, events, j - 1);
        lemma_forward_only(state_at(s, events, j - 1), events[j - 1]);
    }
}

/// At most one request per fetch: the states of a run in which the GET is
/// pending form one unbroken stretch, so once the request is answered none is
/// sent again.
pub proof fn lemma_single_request(s: State, events: Seq<Event>, i: int, j: int, k: int)
    requires
        0 <= i <= j <= k <= events.len(),
        pending(state_at(s, events, i)) == Action::Get,
        pending(state_at(s, events, k)) == Action::Get,
    ensures
        pending(state_at(s, events, j)) == Action::Get,
{
    lemma_run_forward(s, events, i, j);
    lemma_run_forward(s, events, j, k);
}

/// A step keeps the state sound and never moves the position back.
pub proof fn lemma_step_monotone(s: State, event: Event)
    requires
        s.inv(),
    ensures
        next(s, event).inv(),
        s.position <= next(s, event).position,
{
}

/// Progress is monotone: along a run from a sound state the position never
/// decreases, and it never passes the size that is announced at that point.
pub proof fn lemma_progress_monotone(s: State, events: Seq<Event>, i: int, j: int)
    requires
        s.inv(),
        0 <= i <= j <= events.len(),
    ensures
        state_at(s, events, j).inv(),
        state_at(s, events, i).position <= state_at(s, events, j).position,
        state_at(s, events, j).position <= cap(state_at(s, events, j).total),
    decreases j,
{
    if j == 0 {
        assert(events.take(0) =~= Seq::<Event>::empty());
    } else {
        lemma_run_step(s, events, j - 1);
        if i < j {
            lemma_progress_monotone(s, events, i, j - 1);
        } else {
            lemma_progress_monotone(s, events, j - 1, j - 1);
        }
        lemma_step_monotone(state_at(s, events, j - 1), events[j - 1]);
    }
}

/// A cache hit ends the fetch at once: when the probe finds the blob, the
/// fetch is done before any request is sent, with nothing transferred, and
/// stays so.
pub proof fn lemma_cache_hit(s: State, events: Seq<Event>, n: int)
    requires
        s.phase == Phase::Probe,
        s.inv(),
        1 <= n <= events.len(),
        events[0] == Event::BlobFound,
    ensures
        state_at(s, events, n) == s.at(Phase::Done),
        pending(state_at(s, events, n)) == Action::Finish,
        state_at(s, events, n).position == 0,
    decreases n,
{
    lemma_run_step(s, events, n - 1);
    if n == 1 {
        assert(events.take(0) =~= Seq::<Event>::empty());
    } else {
        lemma_cache_hit(s, events, n - 1);
    }
}

/// The rename is asked for only when the whole body is written: the one way
/// into the promoting phase is the end of the body, in a fetch that promotes.
pub proof fn lemma_promotion_follows_body(s: State, event: Event)
    requires
        next(s, event).phase == Phase::Promote,
        s.phase != Phase::Promote,
    ensures
        s.phase == Phase::Stream,
        event == Event::BodyEnd,
        s.promote,
{
}

/// A fetch is done only on a cache hit, after the rename, or, where it does
/// not promote, at the end of the body.
pub proof fn lemma_done_only_when_complete(s: State, event: Event)
    requires
        next(s, event).phase == Phase::Done,
        s.phase != Phase::Done,
    ensures
        ({
            ||| s.phase == Phase::Probe && event == Event::BlobFound
            ||| s.phase == Phase::Promote && event == Event::Renamed
            ||| s.phase == Phase::Stream && event == Event::BodyEnd && !s.promote
        }),
{
}

/// Errors keep their kind: each failure is reported under the kind of the
/// operation that failed, and a rejected response carries its status.
pub proof fn lemma_failure_kinds(s: State, event: Event)
    requires
        next(s, event).phase is Failed,
        !(s.phase is Failed),
    ensures
        next(s, event).phase == Phase::Failed(
            match event {
                Event::Response { status, length } => ApiError::InvalidResponse(status),
                Event::RequestFailed => ApiError::RequestError,
                _ => ApiError::IoError,
            },
        ),
        event matches Event::Response { status, length } ==> !is_success(status),
{
}

} // verus!
