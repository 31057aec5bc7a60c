//! The rules that decide what adding or updating a dependency does.
//!
//! Fetching, comparing and moving files is done by the caller. An update is a
//! run of steps: the caller starts with `UpdateEvent::Started`, performs each
//! action that `update_step` hands back, reports what came of it as the next
//! event, and stops at `UpdateAction::Finish`.
use vstd::prelude::*;
use vstd::string::*;
use crate::dependency::{Dependency, DependencyView, UpdateType};

verus! {

/// How an update request ended.
#[derive(Debug, Clone, Copy, PartialEq, Eq, Structural)]
pub enum UpdateResult {
    /// The target was written with fresh content.
    Updated,
    /// Fetching or writing failed.
    Failed,
    /// The policy or an unchanged content left the target alone.
    Ignored,
}

/// How an add request ended.
#[derive(Debug)]
pub enum AddResult {
    Added,
    /// The fetch failed, for the reason given.
    Failed(String),
}

/// Why fetching, writing or loading failed: where it happened, and the
/// underlying cause.
#[derive(Debug)]
pub enum DependencyError {
    /// The transport failed for this URI, or its server answered with an
    /// error status.
    Network { uri: String, cause: String },
    /// This file could not be read, written, copied or deleted.
    Io { path: String, cause: String },
    /// The registry stored in this file could not be read back.
    Serialization { path: String, cause: String },
}

/// The text that reports an error: its kind, where it happened, then its
/// cause.
pub open spec fn message_of(e: &DependencyError) -> Seq<char> {
    match e {
        DependencyError::Network { uri, cause } => "network error at "@ + uri@ + ": "@ + cause@,
        DependencyError::Io { path, cause } => "i/o error at "@ + path@ + ": "@ + cause@,
        DependencyError::Serialization { path, cause } => "serialization error in "@ + path@ + ": "@
            + cause@,
    }
}

/// `kind`, `place`, `: ` and `cause`, in that order.
fn describe(kind: &str, place: &String, cause: &String) -> (r: String)
    ensures
        r@ == kind@ + place@ + ": "@ + cause@,
{
    String::from_str(kind).concat(place.as_str()).concat(": ").concat(cause.as_str())
}

impl DependencyError {
    /// The text that reports this error; it is never empty.
    pub fn message(&self) -> (r: String)
        ensures
            r@ == message_of(self),
            r@.len() > 0,
    {
        proof {
            reveal_strlit("network error at ");
            reveal_strlit("i/o error at ");
            reveal_strlit("serialization error in ");
        }
        match self {
            DependencyError::Network { uri, cause } => describe("network error at ", uri, cause),
            DependencyError::Io { path, cause } => describe("i/o error at ", path, cause),
            DependencyError::Serialization { path, cause } => describe("serialization error in ", path, cause),
        }
    }
}

/// What the caller reports after each action of an update.
#[derive(Debug, Clone, Copy, PartialEq, Eq, Structural)]
pub enum UpdateEvent {
    /// Nothing has been done yet.
    Started,
    /// Two files were compared; `differs` also holds where one was unreadable.
    Compared { differs: bool },
    /// A copy or a download finished, successfully or not.
    Fetched { ok: bool },
    /// A staged download was moved over the target, successfully or not.
    Promoted { ok: bool },
    /// A staged download was deleted.
    Discarded,
}

/// The next piece of work of an update.
#[derive(Debug)]
pub enum UpdateAction {
    /// Compare the content of two files.
    Compare { left: String, right: String },
    /// Copy a local file, creating the target's missing directories.
    CopyFile { source: String, target: String },
    /// Download a URI into a file, creating its missing directories.
    DownloadFile { source: String, target: String },
    /// Copy the staged file over the target, then delete the staged file.
    PromoteStaged { staged: String, target: String },
    /// Delete the staged file.
    RemoveStaged { staged: String },
    /// The update is over.
    Finish(UpdateResult),
}

/// An action, with its paths as plain values.
pub enum ActionView {
    Compare { left: Seq<char>, right: Seq<char> },
    CopyFile { source: Seq<char>, target: Seq<char> },
    DownloadFile { source: Seq<char>, target: Seq<char> },
    PromoteStaged { staged: Seq<char>, target: Seq<char> },
    RemoveStaged { staged: Seq<char> },
    Finish(UpdateResult),
}

impl View for UpdateAction {
    type V = ActionView;

    open spec fn view(&self) -> ActionView {
        match self {
            UpdateAction::Compare { left, right } => ActionView::Compare { left: left@, right: right@ },
            UpdateAction::CopyFile { source, target } => ActionView::CopyFile {
                source: source@,
                target: target@,
            },
            UpdateAction::DownloadFile { source, target } => ActionView::DownloadFile {
                source: source@,
                target: target@,
            },
            UpdateAction::PromoteStaged { staged, target } => ActionView::PromoteStaged {
                staged: staged@,
                target: target@,
            },
            UpdateAction::RemoveStaged { staged } => ActionView::RemoveStaged { staged: staged@ },
            UpdateAction::Finish(result) => ActionView::Finish(*result),
        }
    }
}

/// Where a download is staged before it replaces the target.
pub open spec fn staging_of(path: Seq<char>) -> Seq<char> {
    path + ".tmp"@
}

/// Whether an action writes or deletes a file.
pub open spec fn writes(action: ActionView) -> bool {
    match action {
        ActionView::Compare { .. } => false,
        ActionView::Finish(_) => false,
        _ => true,
    }
}

/// The rule table of an update: what `d` asks for next after `event`.
///
/// `Never` ends every update at once. A local dependency is copied straight
/// over its target: always, or under `OnChange` only where the target differs
/// from the source. A remote one is downloaded into a staging file first,
/// which then replaces the target (always, or where it differs from it) or is
/// deleted.
pub open spec fn next_update_action(d: DependencyView, event: UpdateEvent) -> ActionView {
    if d.update == UpdateType::Never {
        ActionView::Finish(UpdateResult::Ignored)
    } else {
        match event {
            UpdateEvent::Started => if !d.local {
                ActionView::DownloadFile { source: d.uri, target: staging_of(d.path) }
            } else if d.update == UpdateType::Always {
                ActionView::CopyFile { source: d.uri, target: d.path }
            } else {
                ActionView::Compare { left: d.uri, right: d.path }
            },
            UpdateEvent::Compared { differs } => if !differs {
                if d.local {
                    ActionView::Finish(UpdateResult::Ignored)
                } else {
                    ActionView::RemoveStaged { staged: staging_of(d.path) }
                }
            } else if d.local {
                ActionView::CopyFile { source: d.uri, target: d.path }
            } else {
                ActionView::PromoteStaged { staged: staging_of(d.path), target: d.path }
            },
            UpdateEvent::Fetched { ok } => if !ok {
                ActionView::Finish(UpdateResult::Failed)
            } else if d.local {
                ActionView::Finish(UpdateResult::Updated)
            } else if d.update == UpdateType::Always {
                ActionView::PromoteStaged { staged: staging_of(d.path), target: d.path }
            } else {
                ActionView::Compare { left: staging_of(d.path), right: d.path }
            },
            UpdateEvent::Promoted { ok } => if ok {
                ActionView::Finish(UpdateResult::Updated)
            } else {
                ActionView::Finish(UpdateResult::Failed)
            },
            UpdateEvent::Discarded => ActionView::Finish(UpdateResult::Ignored),
        }
    }
}

/// The path where a download of `path` is staged: `path` followed by `.tmp`.
pub fn staging_path(path: &str) -> (r: String)
    ensures
        r@ == staging_of(path@),
{
    let p = String::from_str(path);
    p.concat(".tmp")
}

/// What an update of `dependency` does next, once `event` has happened.
pub fn update_step(dependency: &Dependency, event: UpdateEvent) -> (r: UpdateAction)
    ensures
        r@ == next_update_action(dependency@, event),
{
    if dependency.update == UpdateType::Never {
        return UpdateAction::Finish(UpdateResult::Ignored);
    }
    match event {
        UpdateEvent::Started => {
            if !dependency.local {
                UpdateAction::DownloadFile {
                    source: dependency.uri.clone(),
                    target: staging_path(dependency.path.as_str()),
                }
            } else if dependency.update == UpdateType::Always {
                UpdateAction::CopyFile { source: dependency.uri.clone(), target: dependency.path.clone() }
            } else {
                UpdateAction::Compare { left: dependency.uri.clone(), right: dependency.path.clone() }
            }
        },
        UpdateEvent::Compared { differs } => {
            if !differs {
                if dependency.local {
                    UpdateAction::Finish(UpdateResult::Ignored)
                } else {
                    UpdateAction::RemoveStaged { staged: staging_path(dependency.path.as_str()) }
                }
            } else if dependency.local {
                UpdateAction::CopyFile { source: dependency.uri.clone(), target: dependency.path.clone() }
            } else {
                UpdateAction::PromoteStaged {
                    staged: staging_path(dependency.path.as_str()),
                    target: dependency.path.clone(),
                }
            }
        },
        UpdateEvent::Fetched { ok } => {
            if !ok {
                UpdateAction::Finish(UpdateResult::Failed)
            } else if dependency.local {
                UpdateAction::Finish(UpdateResult::Updated)
            } else if dependency.update == UpdateType::Always {
                UpdateAction::PromoteStaged {
                    staged: staging_path(dependency.path.as_str()),
                    target: dependency.path.clone(),
                }
            } else {
                UpdateAction::Compare {
                    left: staging_path(dependency.path.as_str()),
                    right: dependency.path.clone(),
                }
            }
        },
        UpdateEvent::Promoted { ok } => {
            if ok {
                UpdateAction::Finish(UpdateResult::Updated)
            } else {
                UpdateAction::Finish(UpdateResult::Failed)
            }
        },
        UpdateEvent::Discarded => UpdateAction::Finish(UpdateResult::Ignored),
    }
}

/// The fetch that an add performs.
#[derive(Debug)]
pub enum FetchAction {
    /// Copy a local file, creating the target's missing directories.
    CopyFile { source: String, target: String },
    /// Download a URI into a file, creating its missing directories; nothing
    /// is written where the download fails.
    DownloadFile { source: String, target: String },
}

/// The fetch of an add: the source goes straight into the target, copied
/// from a local file or downloaded from a URI. Nothing is staged, since no
/// earlier content is there to protect.
pub fn add_step(uri: &str, path: &str, local: bool) -> (r: FetchAction)
    ensures
        r is CopyFile <==> local,
        r is CopyFile ==> r->CopyFile_source@ == uri@ && r->CopyFile_target@ == path@,
        r is DownloadFile ==> r->DownloadFile_source@ == uri@ && r->DownloadFile_target@ == path@,
{
    if local {
        FetchAction::CopyFile { source: String::from_str(uri), target: String::from_str(path) }
    } else {
        FetchAction::DownloadFile { source: String::from_str(uri), target: String::from_str(path) }
    }
}

/// How an add ended, from what its fetch returned. A failure carries the
/// error's message, which is never empty.
pub fn add_outcome(fetched: Result<(), DependencyError>) -> (r: AddResult)
    ensures
        fetched is Ok <==> r is Added,
        fetched is Err ==> r is Failed && r->Failed_0@ == message_of(&fetched->Err_0)
            && r->Failed_0@.len() > 0,
{
    match fetched {
        Ok(_) => AddResult::Added,
        Err(e) => AddResult::Failed(e.message()),
    }
}

/// Whether an update request for `filter` covers the dependency named
/// `name`: `all` covers every one, any other text the one of that name.
pub fn selects(filter: &str, name: &str) -> (r: bool)
    ensures
        r == (filter@ == "all"@ || filter@ == name@),
{
    crate::text::str_eq(filter, "all") || crate::text::str_eq(filter, name)
}

/// Under `Never`, every step of an update ends it as `Ignored` and writes
/// nothing.
pub proof fn lemma_never_is_ignored(d: DependencyView, event: UpdateEvent)
    requires
        d.update == UpdateType::Never,
    ensures
        next_update_action(d, event) == ActionView::Finish(UpdateResult::Ignored),
        !writes(next_update_action(d, event)),
{
}

/// A local `OnChange` dependency is first compared with its target, which
/// writes nothing; where they match, the update ends as `Ignored`.
pub proof fn lemma_local_unchanged_is_ignored(d: DependencyView)
    requires
        d.local,
        d.update == UpdateType::OnChange,
    ensures
        next_update_action(d, UpdateEvent::Started) == (ActionView::Compare {
            left: d.uri,
            right: d.path,
        }),
        next_update_action(d, UpdateEvent::Compared { differs: false }) == ActionView::Finish(
            UpdateResult::Ignored,
        ),
        !writes(next_update_action(d, UpdateEvent::Started)),
        !writes(next_update_action(d, UpdateEvent::Compared { differs: false })),
{
}

/// A local `OnChange` dependency whose target differs from its source is
/// copied over it, and a successful copy ends the update as `Updated`.
pub proof fn lemma_local_changed_is_copied(d: DependencyView)
    requires
        d.local,
        d.update == UpdateType::OnChange,
    ensures
        next_update_action(d, UpdateEvent::Compared { differs: true }) == (ActionView::CopyFile {
            source: d.uri,
            target: d.path,
        }),
        next_update_action(d, UpdateEvent::Fetched { ok: true }) == ActionView::Finish(
            UpdateResult::Updated,
        ),
{
}

/// A remote update ends as `Updated` only right after the staged file was
/// moved over the target, a move that deletes the staged file; and it never
/// writes the target in any other way.
pub proof fn lemma_remote_updated_after_promotion(d: DependencyView, event: UpdateEvent)
    requires
        !d.local,
    ensures
        next_update_action(d, event) == ActionView::Finish(UpdateResult::Updated) ==> event
            == (UpdateEvent::Promoted { ok: true }),
        next_update_action(d, event) is CopyFile ==> false,
        next_update_action(d, event) is DownloadFile ==> next_update_action(d, event)->DownloadFile_target
            == staging_of(d.path),
        next_update_action(d, event) is PromoteStaged ==> next_update_action(d, event)->PromoteStaged_staged
            == staging_of(d.path),
{
}

/// A remote `OnChange` download is compared with the target; where it
/// matches, the staged file is deleted and the update ends as `Ignored`.
pub proof fn lemma_remote_unchanged_is_discarded(d: DependencyView)
    requires
        !d.local,
        d.update == UpdateType::OnChange,
    ensures
        next_update_action(d, UpdateEvent::Started) == (ActionView::DownloadFile {
            source: d.uri,
            target: staging_of(d.path),
        }),
        next_update_action(d, UpdateEvent::Fetched { ok: true }) == (ActionView::Compare {
            left: staging_of(d.path),
            right: d.path,
        }),
        next_update_action(d, UpdateEvent::Compared { differs: false }) == (ActionView::RemoveStaged {
            staged: staging_of(d.path),
        }),
        next_update_action(d, UpdateEvent::Discarded) == ActionView::Finish(UpdateResult::Ignored),
{
}

} // verus!
