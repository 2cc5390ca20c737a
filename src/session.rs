use vstd::prelude::*;

use crate::listing::{
    downloadable, file_names, filter_files, is_file, lemma_picked_files, picked, select_entries,
    Content,
};
use crate::repo::{listing_url, listing_url_of, RepoRef};
use crate::{is_success, success_status};

verus! {

/// What became of one selected entry.
#[derive(Debug, Clone, Copy, PartialEq, Eq, Structural)]
pub enum Outcome {
    /// A file of that name was already there; nothing was fetched or written.
    Skipped,
    /// The file was written with this many bytes.
    Succeeded(u64),
    /// The download answered with this non-success status; nothing was written.
    Failed(u16),
}

/// Where a run stands, that is which event it waits for.
#[derive(Debug, Clone, Copy, PartialEq, Eq, Structural)]
pub enum Phase {
    AwaitListingStatus,
    AwaitListing,
    AwaitSelection,
    AwaitExists,
    AwaitStatus,
    AwaitWritten,
    /// The run is over, with this exit code.
    Finished(i32),
}

/// What the outside world reports back after an action.
#[derive(Debug, PartialEq, Eq)]
pub enum Event {
    /// The HTTP status of the listing request.
    ListingStatus(u16),
    /// The entries of the listing, as parsed from its body.
    Listing(Vec<Content>),
    /// The indices the user confirmed.
    Selected(Vec<usize>),
    /// Whether a file named like the current entry exists in the working directory.
    Exists(bool),
    /// The HTTP status of the current entry's download.
    Status(u16),
    /// The current entry's file was written with this many bytes.
    Written(u64),
}

/// What the outside world is to do next.
#[derive(Debug, PartialEq, Eq)]
pub enum Action {
    /// GET this listing URL and report its status.
    FetchListing(String),
    /// Parse the listing's body into entries.
    ReadListing,
    /// Offer these names for selection.
    Present(Vec<String>),
    /// Say that no file was selected, and exit with code 0.
    NothingSelected,
    /// Tell whether a file of this name exists.
    CheckExists(String),
    /// GET this download URL and report its status.
    Download(String),
    /// Write the downloaded body to a new file of this name.
    Save(String),
    /// All selected entries are handled: report the total time and exit with code 0.
    Done,
    /// Exit with this code.
    Exit(i32),
}

/// A run of the tool: the listing, the selection, and the outcome of each handled entry.
pub struct Session {
    pub phase: Phase,
    pub files: Vec<Content>,
    pub selected: Vec<Content>,
    pub current: usize,
    pub outcomes: Vec<Outcome>,
}

impl Session {
    /// Entries are handled one at a time in selection order; one outcome per handled entry.
    pub open spec fn wf(&self) -> bool {
        &&& self.current <= self.selected@.len()
        &&& self.outcomes@.len() == self.current
        &&& forall|i: int| 0 <= i < self.files@.len() ==> is_file(#[trigger] self.files@[i])
        &&& forall|i: int| 0 <= i < self.selected@.len() ==> is_file(#[trigger] self.selected@[i])
        &&& (self.phase is AwaitExists || self.phase is AwaitStatus || self.phase is AwaitWritten)
            ==> self.current < self.selected@.len()
    }
}

/// `post` differs from `pre` in its phase alone.
pub open spec fn moved_to(pre: Session, post: Session, phase: Phase) -> bool {
    &&& post.phase == phase
    &&& post.files@ == pre.files@
    &&& post.selected@ == pre.selected@
    &&& post.current == pre.current
    &&& post.outcomes@ == pre.outcomes@
}

/// The current entry is over with `outcome`; the run goes on with the next one, or ends.
pub open spec fn entry_done(pre: Session, post: Session, r: Option<Action>, outcome: Outcome) -> bool {
    &&& post.files@ == pre.files@
    &&& post.selected@ == pre.selected@
    &&& post.current == pre.current + 1
    &&& post.outcomes@ == pre.outcomes@.push(outcome)
    &&& if post.current < pre.selected@.len() {
        &&& post.phase == Phase::AwaitExists
        &&& r == Some(Action::CheckExists(pre.selected@[post.current as int].name))
    } else {
        &&& post.phase == Phase::Finished(0)
        &&& r == Some(Action::Done)
    }
}

/// One step of a run: from `pre`, `event` leads to `post` and the next action `r`.
/// An event that the phase does not wait for changes nothing and asks for nothing.
pub open spec fn transition(pre: Session, event: Event, post: Session, r: Option<Action>) -> bool {
    match (pre.phase, event) {
        (Phase::AwaitListingStatus, Event::ListingStatus(s)) => if success_status(s) {
            moved_to(pre, post, Phase::AwaitListing) && r == Some(Action::ReadListing)
        } else {
            moved_to(pre, post, Phase::Finished(1)) && r == Some(Action::Exit(1))
        },
        (Phase::AwaitListing, Event::Listing(entries)) => {
            &&& post.phase == Phase::AwaitSelection
            &&& post.files@ == downloadable(entries@)
            &&& post.selected@ == pre.selected@
            &&& post.current == pre.current
            &&& post.outcomes@ == pre.outcomes@
            &&& r is Some && r->Some_0 is Present
            &&& r->Some_0->Present_0@ == post.files@.map_values(|c: Content| c.name)
        },
        (Phase::AwaitSelection, Event::Selected(indices)) => {
            &&& post.files@ == pre.files@
            &&& post.selected@ == picked(pre.files@, indices@)
            &&& post.current == 0
            &&& post.outcomes@ == Seq::<Outcome>::empty()
            &&& if post.selected@.len() == 0 {
                post.phase == Phase::Finished(0) && r == Some(Action::NothingSelected)
            } else {
                &&& post.phase == Phase::AwaitExists
                &&& r == Some(Action::CheckExists(post.selected@[0].name))
            }
        },
        (Phase::AwaitExists, Event::Exists(exists)) => if exists {
            entry_done(pre, post, r, Outcome::Skipped)
        } else {
            &&& moved_to(pre, post, Phase::AwaitStatus)
            &&& r == Some(Action::Download(pre.selected@[pre.current as int].download_url->Some_0))
        },
        (Phase::AwaitStatus, Event::Status(s)) => if success_status(s) {
            &&& moved_to(pre, post, Phase::AwaitWritten)
            &&& r == Some(Action::Save(pre.selected@[pre.current as int].name))
        } else {
            entry_done(pre, post, r, Outcome::Failed(s))
        },
        (Phase::AwaitWritten, Event::Written(n)) => entry_done(pre, post, r, Outcome::Succeeded(n)),
        _ => post == pre && r is None,
    }
}

impl Session {
    /// A run on `repo`, which starts by fetching the listing.
    pub fn start(repo: &RepoRef) -> (r: (Session, Action))
        ensures
            r.0.wf(),
            r.0.phase == Phase::AwaitListingStatus,
            r.0.files@ == Seq::<Content>::empty(),
            r.0.selected@ == Seq::<Content>::empty(),
            r.0.current == 0,
            r.0.outcomes@ == Seq::<Outcome>::empty(),
            r.1 is FetchListing,
            r.1->FetchListing_0@ == listing_url_of(repo.owner@, repo.name@, repo.subpath@),
    {
        let session = Session {
            phase: Phase::AwaitListingStatus,
            files: Vec::new(),
            selected: Vec::new(),
            current: 0,
            outcomes: Vec::new(),
        };
        (session, Action::FetchListing(listing_url(repo)))
    }

    /// Records the current entry's outcome and moves to the next entry, or ends the run.
    fn finish_entry(&mut self, outcome: Outcome) -> (r: Option<Action>)
        requires
            old(self).wf(),
            old(self).current < old(self).selected@.len(),
        ensures
            final(self).wf(),
            entry_done(*old(self), *final(self), r, outcome),
    {
        let n = self.selected.len();
        self.outcomes.push(outcome);
        self.current = self.current + 1;
        if self.current < n {
            self.phase = Phase::AwaitExists;
            Some(Action::CheckExists(self.selected[self.current].name.clone()))
        } else {
            self.phase = Phase::Finished(0);
            Some(Action::Done)
        }
    }

    /// Takes in what the last action brought about and decides the next action.
    pub fn step(&mut self, event: Event) -> (r: Option<Action>)
        requires
            old(self).wf(),
        ensures
            final(self).wf(),
            transition(*old(self), event, *final(self), r),
    {
        let phase = self.phase;
        match (phase, event) {
            (Phase::AwaitListingStatus, Event::ListingStatus(s)) => {
                if is_success(s) {
                    self.phase = Phase::AwaitListing;
                    Some(Action::ReadListing)
                } else {
                    self.phase = Phase::Finished(1);
                    Some(Action::Exit(1))
                }
            },
            (Phase::AwaitListing, Event::Listing(entries)) => {
                self.files = filter_files(&entries);
                proof {
                    broadcast use Seq::lemma_filter_pred;

                    assert(forall|i: int|
                        0 <= i < self.files@.len() ==> is_file(#[trigger] self.files@[i]));
                }
                self.phase = Phase::AwaitSelection;
                Some(Action::Present(file_names(&self.files)))
            },
            (Phase::AwaitSelection, Event::Selected(indices)) => {
                self.selected = select_entries(&self.files, &indices);
                proof {
                    lemma_picked_files(self.files@, indices@);
                }
                self.current = 0;
                self.outcomes = Vec::new();
                if self.selected.len() == 0 {
                    self.phase = Phase::Finished(0);
                    Some(Action::NothingSelected)
                } else {
                    self.phase = Phase::AwaitExists;
                    Some(Action::CheckExists(self.selected[0].name.clone()))
                }
            },
            (Phase::AwaitExists, Event::Exists(exists)) => {
                if exists {
                    self.finish_entry(Outcome::Skipped)
                } else {
                    let url = match &self.selected[self.current].download_url {
                        Some(u) => u.clone(),
                        None => String::new(),
                    };
                    self.phase = Phase::AwaitStatus;
                    Some(Action::Download(url))
                }
            },
            (Phase::AwaitStatus, Event::Status(s)) => {
                if is_success(s) {
                    self.phase = Phase::AwaitWritten;
                    Some(Action::Save(self.selected[self.current].name.clone()))
                } else {
                    self.finish_entry(Outcome::Failed(s))
                }
            },
            (Phase::AwaitWritten, Event::Written(n)) => self.finish_entry(Outcome::Succeeded(n)),
            _ => None,
        }
    }
}

/// A finished run takes no further event and asks for no further action.
pub proof fn lemma_finished_is_final(pre: Session, event: Event, post: Session, r: Option<Action>)
    requires
        pre.phase is Finished,
        transition(pre, event, post, r),
    ensures
        r is None,
        post == pre,
{
}

/// When the listing request fails, the run exits with code 1 and asks for nothing more, so in
/// particular no file is ever written.
pub proof fn lemma_listing_failure_exits(pre: Session, status: u16, post: Session, r: Option<Action>)
    requires
        pre.phase == Phase::AwaitListingStatus,
        !success_status(status),
        transition(pre, Event::ListingStatus(status), post, r),
    ensures
        r == Some(Action::Exit(1)),
        post.phase == Phase::Finished(1),
        forall|e: Event, next: Session, r2: Option<Action>|
            #[trigger] transition(post, e, next, r2) ==> r2 is None && next == post,
{
}

/// Confirming an empty selection ends the run with nothing selected, which exits with code 0.
pub proof fn lemma_empty_selection_exits(
    pre: Session,
    indices: Vec<usize>,
    post: Session,
    r: Option<Action>,
)
    requires
        pre.phase == Phase::AwaitSelection,
        indices@.len() == 0,
        transition(pre, Event::Selected(indices), post, r),
    ensures
        post.selected@ == Seq::<Content>::empty(),
        r == Some(Action::NothingSelected),
        post.phase == Phase::Finished(0),
{
}

/// Whenever a file named like the current entry already exists, the entry is skipped: nothing
/// is downloaded, nothing is written, and the run goes on with the next entry or ends.
pub proof fn lemma_existing_file_skipped(pre: Session, post: Session, r: Option<Action>)
    requires
        pre.wf(),
        pre.phase == Phase::AwaitExists,
        transition(pre, Event::Exists(true), post, r),
    ensures
        r is Some,
        !(r->Some_0 is Download),
        !(r->Some_0 is Save),
        post.outcomes@ == pre.outcomes@.push(Outcome::Skipped),
        post.current == pre.current + 1,
        post.selected@ == pre.selected@,
{
}

/// A download that fails is recorded as failed with its status, and the run goes on with the
/// next selected entry (or ends normally after the last one).
pub proof fn lemma_failed_download_continues(
    pre: Session,
    status: u16,
    post: Session,
    r: Option<Action>,
)
    requires
        pre.wf(),
        pre.phase == Phase::AwaitStatus,
        !success_status(status),
        transition(pre, Event::Status(status), post, r),
    ensures
        post.outcomes@ == pre.outcomes@.push(Outcome::Failed(status)),
        post.current == pre.current + 1,
        post.selected@ == pre.selected@,
        post.current < pre.selected@.len() ==> r == Some(
            Action::CheckExists(pre.selected@[post.current as int].name),
        ),
        post.current == pre.selected@.len() ==> r == Some(Action::Done) && post.phase
            == Phase::Finished(0),
{
}

} // verus!
