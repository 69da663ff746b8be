//! The extraction as a machine: decompress the blob unless that was done
//! before, read the member names of the tar, and unpack it only if every
//! member stays below the cache root.
//!
//! The machine performs no I/O. Its owner carries out the `Action` that is
//! pending, reports the outcome as an `Event` to `Extraction::step`, and goes
//! on until the pending action is `Finish` or `Fail`.

use vstd::prelude::*;
use crate::error::ApiError;
use crate::path::{all_safe, is_safe_member, safe_member, strip_suffix, without_suffix};

verus! {

/// Where an extraction stands.
#[derive(Clone, Copy, Debug, PartialEq, Eq)]
pub enum Phase {
    /// Asking whether the decompressed tar exists already.
    Probe,
    /// Decompressing the blob into the tar.
    Decompress,
    /// Reading the member names from the headers of the tar.
    List,
    /// Unpacking the tar into the cache root.
    Extract,
    /// Finished: the members are unpacked and their names are ready.
    Done,
    /// Given up, for the reason attached.
    Failed(ApiError),
}

/// What the owner of the machine is asked to do next.
#[derive(Clone, Copy, Debug, PartialEq, Eq)]
pub enum Action {
    /// Test whether a file exists at the tar path.
    Probe,
    /// Decompress the bzip2 file at the blob path into the tar path.
    Decompress,
    /// Open the tar and read the names of its members, in order.
    List,
    /// Open the tar and unpack every member into the cache root,
    /// overwriting what is there.
    Extract,
    /// Nothing is left to do: the extraction has succeeded.
    Finish,
    /// Nothing is left to do: the extraction has failed.
    Fail(ApiError),
}

/// What the owner of the machine reports back.
#[derive(Debug, PartialEq, Eq)]
pub enum Event {
    /// A file exists at the tar path.
    TarFound,
    /// No file exists at the tar path.
    TarMissing,
    /// The blob was decompressed into the tar path.
    Decompressed,
    /// The tar holds members of these names, in this order.
    Listed(Vec<String>),
    /// Every member was unpacked.
    Extracted,
    /// bzip2 or tar failed, or a member could not be written.
    ArchiveFailed,
}

/// An extraction as the contracts see it.
pub struct State {
    pub phase: Phase,
    /// Names of the members that are or will be unpacked; empty until the
    /// tar is listed.
    pub members: Seq<Seq<char>>,
    pub blob: Seq<char>,
    pub tar: Seq<char>,
    pub root: Seq<char>,
}

/// Ending of the name of a bzip2 file.
pub const BZIP2_SUFFIX: &'static str = ".bz2";

/// Where the decompressed form of `blob` is kept: the same path without the
/// `.bz2` at its end.
pub open spec fn tar_path(blob: Seq<char>) -> Seq<char> {
    without_suffix(blob, BZIP2_SUFFIX@)
}

/// The names as texts.
pub open spec fn texts(names: Vec<String>) -> Seq<Seq<char>> {
    Seq::new(names@.len(), |i: int| names@[i]@)
}

/// How far along a phase is: an extraction moves to higher ranks only.
pub open spec fn rank(phase: Phase) -> nat {
    match phase {
        Phase::Probe => 0,
        Phase::Decompress => 1,
        Phase::List => 2,
        Phase::Extract => 3,
        Phase::Done => 4,
        Phase::Failed(_) => 4,
    }
}

/// The extraction is over, well or badly.
pub open spec fn is_final(phase: Phase) -> bool {
    phase is Done || phase is Failed
}

impl State {
    /// The state with another phase.
    pub open spec fn at(self, phase: Phase) -> State {
        State { phase, ..self }
    }

    /// Only safe members are ever unpacked, and before the listing none is
    /// known.
    pub open spec fn inv(self) -> bool {
        &&& all_safe(self.members)
        &&& rank(self.phase) <= rank(Phase::List) ==> self.members.len() == 0
    }
}

/// The action that is pending in state `s`.
pub open spec fn pending(s: State) -> Action {
    match s.phase {
        Phase::Probe => Action::Probe,
        Phase::Decompress => Action::Decompress,
        Phase::List => Action::List,
        Phase::Extract => Action::Extract,
        Phase::Done => Action::Finish,
        Phase::Failed(e) => Action::Fail(e),
    }
}

/// The state that follows `s` on `event`. A tar that is found is trusted and
/// not decompressed again. A listing with a member that would leave the cache
/// root rejects the archive before anything is unpacked. An event that is no
/// outcome of the pending action leaves the state as it is.
pub open spec fn next(s: State, event: Event) -> State {
    match (s.phase, event) {
        (Phase::Probe, Event::TarFound) => s.at(Phase::List),
        (Phase::Probe, Event::TarMissing) => s.at(Phase::Decompress),
        (Phase::Decompress, Event::Decompressed) => s.at(Phase::List),
        (Phase::Decompress, Event::ArchiveFailed) => s.at(Phase::Failed(ApiError::Archive)),
        (Phase::List, Event::Listed(names)) => if all_safe(texts(names)) {
            State { phase: Phase::Extract, members: texts(names), ..s }
        } else {
            s.at(Phase::Failed(ApiError::Archive))
        },
        (Phase::List, Event::ArchiveFailed) => s.at(Phase::Failed(ApiError::Archive)),
        (Phase::Extract, Event::Extracted) => s.at(Phase::Done),
        (Phase::Extract, Event::ArchiveFailed) => s.at(Phase::Failed(ApiError::Archive)),
        _ => s,
    }
}

/// Whether every name is a safe member name.
pub fn all_members_safe(names: &Vec<String>) -> (b: bool)
    ensures
        b == all_safe(texts(*names)),
{
    let mut i: usize = 0;
    while i < names.len()
        invariant
            i <= names@.len(),
            forall|k: int| 0 <= k < i ==> safe_member(#[trigger] texts(*names)[k]),
        decreases names@.len() - i,
    {
        if !is_safe_member(names[i].as_str()) {
            assert(!safe_member(texts(*names)[i as int]));
            return false;
        }
        i = i + 1;
    }
    true
}

/// The path of the decompressed form of the bzip2 file at `blob`.
pub fn decompressed_path(blob: &str) -> (p: String)
    ensures
        p@ == tar_path(blob@),
{
    strip_suffix(blob, BZIP2_SUFFIX)
}

/// An extraction in progress.
#[derive(Debug)]
pub struct Extraction {
    blob: String,
    tar: String,
    root: String,
    phase: Phase,
    members: Vec<String>,
}

impl View for Extraction {
    type V = State;

    closed spec fn view(&self) -> State {
        State {
            phase: self.phase,
            members: texts(self.members),
            blob: self.blob@,
            tar: self.tar@,
            root: self.root@,
        }
    }
}

impl Extraction {
    /// Every extraction is in a state that `State::inv` admits.
    #[verifier::type_invariant]
    pub open spec fn sound(self) -> bool {
        self@.inv()
    }

    /// An extraction of the bzip2 file `blob` by way of the tar file `tar`
    /// into the directory `root`.
    pub fn new(blob: String, tar: String, root: String) -> (x: Extraction)
        ensures
            x@ == (State {
                phase: Phase::Probe,
                members: Seq::empty(),
                blob: blob@,
                tar: tar@,
                root: root@,
            }),
    {
        let members: Vec<String> = Vec::new();
        assert(texts(members) =~= Seq::<Seq<char>>::empty());
        Extraction { blob, tar, root, phase: Phase::Probe, members }
    }

    /// The bzip2 file that is extracted.
    pub fn blob(&self) -> (p: &String)
        ensures
            p@ == self@.blob,
    {
        &self.blob
    }

    /// The decompressed tar file.
    pub fn tar(&self) -> (p: &String)
        ensures
            p@ == self@.tar,
    {
        &self.tar
    }

    /// The directory that the members are unpacked into.
    pub fn root(&self) -> (p: &String)
        ensures
            p@ == self@.root,
    {
        &self.root
    }

    /// Where the extraction stands.
    pub fn phase(&self) -> (p: Phase)
        ensures
            p == self@.phase,
    {
        self.phase
    }

    /// The member names, in the order of the tar; empty until the tar is
    /// listed. Each is a safe member name.
    pub fn members(&self) -> (names: &Vec<String>)
        ensures
            texts(*names) == self@.members,
            all_safe(self@.members),
    {
        proof {
            use_type_invariant(self);
        }
        &self.members
    }

    /// What is to be done next.
    pub fn action(&self) -> (a: Action)
        ensures
            a == pending(self@),
    {
        match self.phase {
            Phase::Probe => Action::Probe,
            Phase::Decompress => Action::Decompress,
            Phase::List => Action::List,
            Phase::Extract => Action::Extract,
            Phase::Done => Action::Finish,
            Phase::Failed(e) => Action::Fail(e),
        }
    }

    /// Takes in the outcome of the pending action and says what to do next.
    pub fn step(&mut self, event: Event) -> (action: Action)
        ensures
            final(self)@ == next(old(self)@, event),
            action == pending(final(self)@),
            final(self)@.inv(),
    {
        proof {
            use_type_invariant(&*self);
        }
        match (self.phase, event) {
            (Phase::Probe, Event::TarFound) => {
                self.phase = Phase::List;
            },
            (Phase::Probe, Event::TarMissing) => {
                self.phase = Phase::Decompress;
            },
            (Phase::Decompress, Event::Decompressed) => {
                self.phase = Phase::List;
            },
            (Phase::Decompress, Event::ArchiveFailed) => {
                self.phase = Phase::Failed(ApiError::Archive);
            },
            (Phase::List, Event::Listed(names)) => {
                if all_members_safe(&names) {
                    self.phase = Phase::Extract;
                    self.members = names;
                } else {
                    self.phase = Phase::Failed(ApiError::Archive);
                }
            },
            (Phase::List, Event::ArchiveFailed) => {
                self.phase = Phase::Failed(ApiError::Archive);
            },
            (Phase::Extract, Event::Extracted) => {
                self.phase = Phase::Done;
            },
            (Phase::Extract, Event::ArchiveFailed) => {
                self.phase = Phase::Failed(ApiError::Archive);
            },
            _ => {},
        }
        proof {
            use_type_invariant(&*self);
        }
        self.action()
    }
}

/// An extraction that is over stays as it is, whatever is reported to it.
pub proof fn lemma_final_states_absorb(s: State, event: Event)
    requires
        is_final(s.phase),
    ensures
        next(s, event) == s,
{
}

/// Phases only move forward: no step leads to a phase of lower rank.
pub proof fn lemma_forward_only(s: State, event: Event)
    ensures
        rank(s.phase) <= rank(next(s, event).phase),
{
}

/// A step keeps the state sound: what is set down for unpacking is safe.
pub proof fn lemma_step_sound(s: State, event: Event)
    requires
        s.inv(),
    ensures
        next(s, event).inv(),
{
}

/// Nothing is unpacked unless every member is safe: the one way into the
/// unpacking phase is a listing whose names are all safe, and those names are
/// the members from then on.
pub proof fn lemma_unpacks_only_safe(s: State, event: Event)
    requires
        next(s, event).phase == Phase::Extract,
        s.phase != Phase::Extract,
    ensures
        s.phase == Phase::List,
        event is Listed,
        all_safe(texts(event->Listed_0)),
        next(s, event).members == texts(event->Listed_0),
{
}

/// One member that would leave the cache root rejects the whole archive: the
/// extraction fails as an archive error, and no unpacking is ever asked for.
pub proof fn lemma_escape_rejects(s: State, names: Vec<String>, i: int)
    requires
        s.phase == Phase::List,
        0 <= i < names@.len(),
        !safe_member(names@[i]@),
    ensures
        next(s, Event::Listed(names)) == s.at(Phase::Failed(ApiError::Archive)),
        forall|event: Event| pending(next(next(s, Event::Listed(names)), event)) != Action::Extract,
{
    assert(texts(names)[i] == names@[i]@);
}

/// The state of an extraction that finds no tar, decompresses, lists `names`
/// and unpacks.
pub open spec fn first_run(s: State, names: Vec<String>) -> State {
    next(
        next(next(next(s, Event::TarMissing), Event::Decompressed), Event::Listed(names)),
        Event::Extracted,
    )
}

/// The state of an extraction that finds the tar in place, lists `names` and
/// unpacks.
pub open spec fn later_run(s: State, names: Vec<String>) -> State {
    next(next(next(s, Event::TarFound), Event::Listed(names)), Event::Extracted)
}

/// Extraction is repeatable: a run that decompresses and a later run that
/// finds the tar in place end in the same state when the tar lists the same
/// names; where those are safe, both are done and yield exactly these names,
/// in this order.
pub proof fn lemma_rerun_yields_same_members(s: State, names: Vec<String>)
    requires
        s.phase == Phase::Probe,
    ensures
        first_run(s, names) == later_run(s, names),
        all_safe(texts(names)) ==> first_run(s, names).phase == Phase::Done && first_run(
            s,
            names,
        ).members == texts(names),
        !all_safe(texts(names)) ==> first_run(s, names) == s.at(Phase::Failed(ApiError::Archive)),
{
}

} // verus!
