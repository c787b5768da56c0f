//! The change watcher's decision logic: classifying raw change events,
//! collapsing a debounced batch into at most one trigger, and planning the
//! watch registrations for the watch set.
//!
//! The native notification layer delivers batches of raw events after a
//! fixed debounce window; it hands them to this module as plain values. For
//! each batch at most one trigger is produced, and one is produced exactly
//! when some event in the batch is a creation, modification or removal
//! touching at least one path the ignore filter accepts.

use vstd::prelude::*;
use crate::filter::IgnoreFilter;
use crate::filter::path_is_ignored;
use crate::scanner::PathKind;

verus! {

/// Length of the debounce window in milliseconds: raw events closer
/// together than this collapse into one batch.
pub const DEBOUNCE_WINDOW_MS: u64 = 500;

/// Capacity of the bounded channel carrying triggers to the orchestrator.
pub const TRIGGER_CHANNEL_CAPACITY: usize = 100;

/// The kind of one raw filesystem change notification.
#[derive(Clone, Copy, PartialEq, Eq, Structural, Debug)]
pub enum EventKind {
    /// A file or directory was created.
    Create,
    /// A file or directory was modified.
    Modify,
    /// A file or directory was removed.
    Remove,
    /// Any other notification (metadata-only, access, ...); always discarded.
    Other,
}

/// One raw change notification: an event kind and the affected paths.
pub struct ChangeEvent {
    pub kind: EventKind,
    pub paths: Vec<String>,
}

/// Whether an event kind is of interest: created, modified or removed.
pub open spec fn kind_relevant(kind: EventKind) -> bool {
    kind != EventKind::Other
}

/// Whether an event should produce a trigger: its kind is of interest and
/// at least one affected path is not ignored.
pub open spec fn spec_should_process(kind: EventKind, paths: Seq<Seq<char>>) -> bool {
    kind_relevant(kind) && exists|i: int| 0 <= i < paths.len() && !path_is_ignored(#[trigger] paths[i])
}

/// An event all of whose affected paths are ignored never produces a
/// trigger, whatever its kind.
pub proof fn lemma_all_ignored_not_processed(kind: EventKind, paths: Seq<Seq<char>>)
    requires
        forall|i: int| 0 <= i < paths.len() ==> path_is_ignored(#[trigger] paths[i]),
    ensures
        !spec_should_process(kind, paths),
{
}

/// Decide whether one raw event should trigger command execution.
pub fn should_process_event(event: &ChangeEvent, filter: &IgnoreFilter) -> (r: bool)
    requires
        filter.wf(),
    ensures
        r == spec_should_process(event.kind, event.paths.deep_view()),
{
    match event.kind {
        EventKind::Other => false,
        _ => {
            let ghost paths = event.paths.deep_view();
            let mut i: usize = 0;
            while i < event.paths.len()
                invariant
                    filter.wf(),
                    event.kind != EventKind::Other,
                    paths == event.paths.deep_view(),
                    i <= event.paths.len(),
                    forall|j: int| 0 <= j < i ==> path_is_ignored(#[trigger] paths[j]),
                decreases event.paths.len() - i,
            {
                if !filter.should_ignore(event.paths[i].as_str()) {
                    assert(!path_is_ignored(paths[i as int]));
                    return true;
                }
                i = i + 1;
            }
            false
        },
    }
}

/// Collapse one debounced batch of raw events into at most one trigger.
///
/// Returns the representative path of the trigger — the first affected path
/// of the first event that should be processed — or `None` when no event in
/// the batch should be, in which case the whole batch is dropped. At most
/// one trigger ever comes out of one batch.
pub fn batch_trigger(events: &Vec<ChangeEvent>, filter: &IgnoreFilter) -> (r: Option<String>)
    requires
        filter.wf(),
    ensures
        (r is Some) == (exists|i: int|
            0 <= i < events.len() && spec_should_process(
                #[trigger] events[i].kind,
                events[i].paths.deep_view(),
            )),
        r matches Some(p) ==> exists|i: int|
            {
                &&& 0 <= i < events.len()
                &&& spec_should_process(#[trigger] events[i].kind, events[i].paths.deep_view())
                &&& forall|j: int|
                    0 <= j < i ==> !spec_should_process(
                        #[trigger] events[j].kind,
                        events[j].paths.deep_view(),
                    )
                &&& events[i].paths.deep_view().len() > 0
                &&& p@ == events[i].paths.deep_view()[0]
            },
{
    let mut i: usize = 0;
    while i < events.len()
        invariant
            filter.wf(),
            i <= events.len(),
            forall|j: int|
                0 <= j < i ==> !spec_should_process(
                    #[trigger] events[j].kind,
                    events[j].paths.deep_view(),
                ),
        decreases events.len() - i,
    {
        if should_process_event(&events[i], filter) {
            return Some(events[i].paths[0].clone());
        }
        i = i + 1;
    }
    None
}

/// The registration mode for one watched path.
#[derive(Clone, Copy, PartialEq, Eq, Structural, Debug)]
pub enum WatchMode {
    /// Watch the path and everything below it.
    Recursive,
    /// Watch the path alone.
    NonRecursive,
}

/// One planned registration with the native watch subsystem.
pub struct WatchRegistration {
    pub path: String,
    pub mode: WatchMode,
    /// A best-effort registration may fail without making setup fail; a
    /// primary one may not.
    pub best_effort: bool,
}

/// Plan the watch registrations for one path of the watch set: a directory
/// is watched recursively; a file is watched directly, and its parent
/// directory — when it has one — is watched best-effort so that a file
/// replaced via rename is still observed.
pub fn registration_plan(path: String, kind: PathKind, parent: Option<String>) -> (r: Vec<
    WatchRegistration,
>)
    ensures
        r@.len() >= 1,
        r@[0].path@ == path@,
        !r@[0].best_effort,
        kind == PathKind::Directory ==> r@.len() == 1 && r@[0].mode == WatchMode::Recursive,
        kind != PathKind::Directory ==> r@[0].mode == WatchMode::NonRecursive,
        kind == PathKind::File ==> (parent matches Some(pp) ==> r@.len() == 2
            && r@[1].path@ == pp@ && r@[1].mode == WatchMode::NonRecursive && r@[1].best_effort),
        kind == PathKind::File && parent is None ==> r@.len() == 1,
        kind == PathKind::Missing ==> r@.len() == 1,
{
    let mut plan: Vec<WatchRegistration> = Vec::new();
    match kind {
        PathKind::Directory => {
            plan.push(WatchRegistration { path, mode: WatchMode::Recursive, best_effort: false });
        },
        PathKind::File => {
            plan.push(
                WatchRegistration { path, mode: WatchMode::NonRecursive, best_effort: false },
            );
            match parent {
                Some(pp) => {
                    plan.push(
                        WatchRegistration {
                            path: pp,
                            mode: WatchMode::NonRecursive,
                            best_effort: true,
                        },
                    );
                },
                None => {},
            }
        },
        PathKind::Missing => {
            plan.push(
                WatchRegistration { path, mode: WatchMode::NonRecursive, best_effort: false },
            );
        },
    }
    plan
}

} // verus!
