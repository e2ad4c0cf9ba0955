use vstd::prelude::*;
use vstd::string::*;

use crate::output_folder::{folder_path, OutputFolder};

verus! {

/// The next thing the driver must do for one move. Only the driver
/// touches the filesystem; the planner tells it what and in what order.
#[derive(Clone, Copy, PartialEq, Eq, Structural, Debug)]
pub enum MoveAction {
    /// Report the intended move without touching the filesystem.
    Preview,
    /// Create the destination directory tree (idempotent).
    CreateDir,
    /// Copy the source file's bytes to the destination path.
    CopyFile,
    /// Delete the source file.
    DeleteSource,
    /// Nothing further: the move is finished or abandoned.
    Stop,
}

/// Where one move stands.
#[derive(Clone, Copy, PartialEq, Eq, Structural, Debug)]
pub enum MoveState {
    /// Nothing has happened yet.
    Init,
    /// The driver was told to create the destination directory.
    CreatingDir,
    /// The driver was told to copy the file.
    Copying,
    /// The driver was told to delete the source.
    Deleting,
    /// The move is over.
    Finished,
}

/// What the driver reports back after each action.
#[derive(Clone, Copy, Debug)]
pub enum MoveEvent {
    /// The move starts.
    Begin,
    /// Directory creation finished; the flag says whether it succeeded.
    DirCreated(bool),
    /// The copy finished with the given byte count, or failed.
    Copied(Option<u64>),
    /// Source deletion finished; the flag says whether it succeeded.
    Deleted(bool),
}

/// Whether an action mutates the filesystem.
pub open spec fn mutating(a: MoveAction) -> bool {
    a == MoveAction::CreateDir || a == MoveAction::CopyFile || a == MoveAction::DeleteSource
}

/// The transition function of one move. A dry run only previews. A live
/// run creates the directory, copies, and deletes the source only once a
/// copy of more than zero bytes is confirmed; a failed or zero-byte copy
/// leaves the source in place.
pub open spec fn spec_step(dry_run: bool, s: MoveState, e: MoveEvent) -> (MoveState, MoveAction) {
    if dry_run {
        match (s, e) {
            (MoveState::Init, MoveEvent::Begin) => (MoveState::Finished, MoveAction::Preview),
            _ => (MoveState::Finished, MoveAction::Stop),
        }
    } else {
        match (s, e) {
            (MoveState::Init, MoveEvent::Begin) => (MoveState::CreatingDir, MoveAction::CreateDir),
            (MoveState::CreatingDir, MoveEvent::DirCreated(ok)) => {
                if ok {
                    (MoveState::Copying, MoveAction::CopyFile)
                } else {
                    (MoveState::Finished, MoveAction::Stop)
                }
            },
            (MoveState::Copying, MoveEvent::Copied(bytes)) => {
                match bytes {
                    Some(n) => {
                        if n > 0 {
                            (MoveState::Deleting, MoveAction::DeleteSource)
                        } else {
                            (MoveState::Finished, MoveAction::Stop)
                        }
                    },
                    None => (MoveState::Finished, MoveAction::Stop),
                }
            },
            (MoveState::Deleting, MoveEvent::Deleted(_)) => (MoveState::Finished, MoveAction::Stop),
            _ => (MoveState::Finished, MoveAction::Stop),
        }
    }
}

/// One planned move: the source path, the resolved destination, and the
/// run mode. The paths are fixed at planning time; the state machine
/// above drives the driver through the move.
pub struct Relocation {
    pub source: String,
    pub dest_dir: String,
    pub dest_file: String,
    pub dry_run: bool,
}

impl Relocation {
    /// Plans the move of `source`, whose base name is `file_name`, into
    /// `output_dir` under the folder's dated path.
    pub fn new(
        source: String,
        file_name: &str,
        output_dir: &str,
        folder: &OutputFolder,
        dry_run: bool,
    ) -> (r: Relocation)
        ensures
            r.source == source,
            r.dry_run == dry_run,
            r.dest_dir@ == output_dir@ + seq!['/'] + folder_path(
                folder.year as nat,
                folder.month as nat,
                folder.day as nat,
            ),
            r.dest_file@ == r.dest_dir@ + seq!['/'] + file_name@,
    {
        proof {
            reveal_strlit("/");
        }
        let mut dest_dir = output_dir.to_owned();
        dest_dir.append("/");
        let p = folder.get_path();
        dest_dir.append(p.as_str());
        let mut dest_file = dest_dir.clone();
        dest_file.append("/");
        dest_file.append(file_name);
        proof {
            assert(dest_dir@ =~= output_dir@ + seq!['/'] + folder_path(
                folder.year as nat,
                folder.month as nat,
                folder.day as nat,
            ));
            assert(dest_file@ =~= dest_dir@ + seq!['/'] + file_name@);
        }
        Relocation { source, dest_dir, dest_file, dry_run }
    }

    /// Advances the move one step: the driver hands the last event in and
    /// gets the next state and the next action out.
    pub fn step(&self, state: MoveState, event: MoveEvent) -> (r: (MoveState, MoveAction))
        ensures
            r == spec_step(self.dry_run, state, event),
    {
        if self.dry_run {
            match (state, event) {
                (MoveState::Init, MoveEvent::Begin) => (MoveState::Finished, MoveAction::Preview),
                _ => (MoveState::Finished, MoveAction::Stop),
            }
        } else {
            match (state, event) {
                (MoveState::Init, MoveEvent::Begin) => (
                    MoveState::CreatingDir,
                    MoveAction::CreateDir,
                ),
                (MoveState::CreatingDir, MoveEvent::DirCreated(ok)) => {
                    if ok {
                        (MoveState::Copying, MoveAction::CopyFile)
                    } else {
                        (MoveState::Finished, MoveAction::Stop)
                    }
                },
                (MoveState::Copying, MoveEvent::Copied(bytes)) => {
                    match bytes {
                        Some(n) => {
                            if n > 0 {
                                (MoveState::Deleting, MoveAction::DeleteSource)
                            } else {
                                (MoveState::Finished, MoveAction::Stop)
                            }
                        },
                        None => (MoveState::Finished, MoveAction::Stop),
                    }
                },
                (MoveState::Deleting, MoveEvent::Deleted(_)) => (
                    MoveState::Finished,
                    MoveAction::Stop,
                ),
                _ => (MoveState::Finished, MoveAction::Stop),
            }
        }
    }
}

/// A count one higher, stopping at the type's ceiling.
pub open spec fn sat_inc(n: u64) -> u64 {
    if n < u64::MAX {
        (n + 1) as u64
    } else {
        n
    }
}

/// The end-of-run tally: every file lands in exactly one count. A failure
/// for one file never stops the run, so the tally is how the driver
/// reports what happened.
#[derive(Clone, Copy, PartialEq, Eq, Structural, Debug)]
pub struct RunSummary {
    /// Files moved (or, in a dry run, previewed).
    pub processed: u64,
    /// Files left in place because no strategy produced a date.
    pub skipped: u64,
    /// Files left in place because the move itself failed.
    pub failed: u64,
}

impl RunSummary {
    /// An empty tally.
    pub fn new() -> (r: RunSummary)
        ensures
            r == (RunSummary { processed: 0, skipped: 0, failed: 0 }),
    {
        RunSummary { processed: 0, skipped: 0, failed: 0 }
    }

    /// Counts one file moved or previewed.
    pub fn record_processed(&mut self)
        ensures
            *final(self) == (RunSummary { processed: sat_inc(old(self).processed), ..*old(self) }),
    {
        if self.processed < u64::MAX {
            self.processed = self.processed + 1;
        }
    }

    /// Counts one file for which no strategy produced a date.
    pub fn record_skipped(&mut self)
        ensures
            *final(self) == (RunSummary { skipped: sat_inc(old(self).skipped), ..*old(self) }),
    {
        if self.skipped < u64::MAX {
            self.skipped = self.skipped + 1;
        }
    }

    /// Counts one file whose move failed.
    pub fn record_failed(&mut self)
        ensures
            *final(self) == (RunSummary { failed: sat_inc(old(self).failed), ..*old(self) }),
    {
        if self.failed < u64::MAX {
            self.failed = self.failed + 1;
        }
    }
}

/// The actions a whole run plans: one for each event the driver reports,
/// each computed from the state the previous events led to.
pub open spec fn run_actions(dry_run: bool, s: MoveState, events: Seq<MoveEvent>) -> Seq<
    MoveAction,
>
    decreases events.len(),
{
    if events.len() == 0 {
        Seq::empty()
    } else {
        seq![spec_step(dry_run, s, events[0]).1] + run_actions(
            dry_run,
            spec_step(dry_run, s, events[0]).0,
            events.drop_first(),
        )
    }
}

/// A run plans exactly one action per reported event.
pub proof fn lemma_run_actions_len(dry_run: bool, s: MoveState, events: Seq<MoveEvent>)
    ensures
        run_actions(dry_run, s, events).len() == events.len(),
    decreases events.len(),
{
    if events.len() > 0 {
        lemma_run_actions_len(dry_run, spec_step(dry_run, s, events[0]).0, events.drop_first());
    }
}

/// Over any whole run — any sequence of reported events, from any state —
/// none of the actions a dry run plans mutates the filesystem.
pub proof fn lemma_dry_run_trace_never_mutates(s: MoveState, events: Seq<MoveEvent>)
    ensures
        forall|k: int|
            0 <= k < run_actions(true, s, events).len() ==> !mutating(
                #[trigger] run_actions(true, s, events)[k],
            ),
    decreases events.len(),
{
    if events.len() > 0 {
        let s2 = spec_step(true, s, events[0]).0;
        lemma_dry_run_trace_never_mutates(s2, events.drop_first());
        assert forall|k: int|
            0 <= k < run_actions(true, s, events).len() implies !mutating(
            run_actions(true, s, events)[k],
        ) by {
            if k > 0 {
                assert(run_actions(true, s, events)[k] == run_actions(
                    true,
                    s2,
                    events.drop_first(),
                )[k - 1]);
            }
        }
    }
}

/// Over any whole run, a deletion is planned only as the immediate answer
/// to a reported copy of more than zero bytes: the source is never
/// deleted before such a copy is confirmed.
pub proof fn lemma_trace_delete_only_after_nonzero_copy(
    dry_run: bool,
    s: MoveState,
    events: Seq<MoveEvent>,
    k: int,
)
    requires
        0 <= k < run_actions(dry_run, s, events).len(),
        run_actions(dry_run, s, events)[k] == MoveAction::DeleteSource,
    ensures
        events[k] matches MoveEvent::Copied(Some(n)) && n > 0,
    decreases events.len(),
{
    lemma_run_actions_len(dry_run, s, events);
    if k > 0 {
        let s2 = spec_step(dry_run, s, events[0]).0;
        assert(run_actions(dry_run, s, events)[k] == run_actions(
            dry_run,
            s2,
            events.drop_first(),
        )[k - 1]);
        lemma_trace_delete_only_after_nonzero_copy(dry_run, s2, events.drop_first(), k - 1);
        assert(events.drop_first()[k - 1] == events[k]);
    }
}

/// A dry run never mutates: whatever the state and the event, the planned
/// action of a dry run is a preview or a stop, never a directory
/// creation, a copy or a deletion.
pub proof fn lemma_dry_run_never_mutates(dry_run: bool, s: MoveState, e: MoveEvent)
    ensures
        dry_run ==> !mutating(spec_step(dry_run, s, e).1),
{
}

/// The source is deleted only on the step right after the driver reports
/// a completed copy of more than zero bytes, and only in a live run.
pub proof fn lemma_delete_only_after_nonzero_copy(dry_run: bool, s: MoveState, e: MoveEvent)
    ensures
        spec_step(dry_run, s, e).1 == MoveAction::DeleteSource ==> !dry_run && s
            == MoveState::Copying && (e matches MoveEvent::Copied(Some(n)) && n > 0),
{
}

/// A zero-byte or failed copy never leads to a deletion: the move stops
/// and the source stays in place.
pub proof fn lemma_zero_byte_copy_keeps_source(dry_run: bool, s: MoveState)
    ensures
        spec_step(dry_run, s, MoveEvent::Copied(Some(0))).1 != MoveAction::DeleteSource,
        spec_step(dry_run, s, MoveEvent::Copied(None)).1 != MoveAction::DeleteSource,
{
}

} // verus!
