//! The directory watcher: what to do with each notification of the
//! filesystem watch, and the request that propagates one change.

use vstd::prelude::*;
use crate::errors::Errors;
use crate::matcher::IgnoreMatcher;
use crate::paths::path_strip_prefix;
use crate::sync::{classify, intent_of, ChangedPath, Event, EventKinds, Path, RawKind, RemoveKind, Synchronization};
use crate::utils::{
    all_accepted,
    all_strippable,
    archive_files,
    full_payload,
    refused_at,
    regular,
    relative_records,
    strip,
    SourceFile,
};

verus! {

/// The path of a change relative to the root, if it lies below the root.
pub open spec fn relative(root: Seq<char>, changed: ChangedPath) -> Option<Seq<char>> {
    path_strip_prefix(root, changed.path@)
}

/// Whether every path lies below the root.
pub open spec fn all_below(root: Seq<char>, paths: Seq<ChangedPath>) -> bool {
    forall|i: int| 0 <= i < paths.len() ==> (#[trigger] relative(root, paths[i])) is Some
}

/// What the matcher says of one path: `None` where the path lies outside
/// the root, else whether the path is ignored.
pub open spec fn outcome(matcher: IgnoreMatcher, root: Seq<char>, changed: ChangedPath) -> Option<bool> {
    match relative(root, changed) {
        None => None,
        Some(name) => Some(matcher.ignores_path(name)),
    }
}

/// What the matcher says of each path, in order.
pub open spec fn outcomes(matcher: IgnoreMatcher, root: Seq<char>, paths: Seq<ChangedPath>) -> Seq<Option<bool>> {
    Seq::new(paths.len(), |i: int| outcome(matcher, root, paths[i]))
}

/// The first outcome that decides: `None` where a path outside the root
/// comes first, `Some(true)` where an ignored path comes first, `Some(false)`
/// where every path lies below the root and none is ignored.
pub open spec fn first_decision(outcomes: Seq<Option<bool>>) -> Option<bool>
    decreases outcomes.len(),
{
    if outcomes.len() == 0 {
        Some(false)
    } else {
        match outcomes[0] {
            None => None,
            Some(true) => Some(true),
            Some(false) => first_decision(outcomes.drop_first()),
        }
    }
}

/// What the matcher says of the paths of one event, taken in order.
pub open spec fn verdict(matcher: IgnoreMatcher, root: Seq<char>, paths: Seq<ChangedPath>) -> Option<bool> {
    first_decision(outcomes(matcher, root, paths))
}

/// Where no path lies outside the root, the first decision is that one of
/// the paths is ignored, or that none is.
pub proof fn lemma_first_decision_any(outcomes: Seq<Option<bool>>)
    requires
        forall|i: int| 0 <= i < outcomes.len() ==> (#[trigger] outcomes[i]) is Some,
    ensures
        first_decision(outcomes) == Some(exists|i: int| 0 <= i < outcomes.len() && #[trigger] outcomes[i] == Some(true)),
    decreases outcomes.len(),
{
    if outcomes.len() > 0 {
        let rest = outcomes.drop_first();
        assert forall|i: int| 0 <= i < rest.len() implies (#[trigger] rest[i]) is Some by {
            assert(rest[i] == outcomes[i + 1]);
        }
        lemma_first_decision_any(rest);
        assert(outcomes[0] is Some);
        if outcomes[0] == Some(false) {
            let here = exists|i: int| 0 <= i < outcomes.len() && #[trigger] outcomes[i] == Some(true);
            let there = exists|i: int| 0 <= i < rest.len() && #[trigger] rest[i] == Some(true);
            if there {
                let i = choose|i: int| 0 <= i < rest.len() && #[trigger] rest[i] == Some(true);
                assert(outcomes[i + 1] == Some(true));
            }
            if here {
                let i = choose|i: int| 0 <= i < outcomes.len() && #[trigger] outcomes[i] == Some(true);
                assert(rest[i - 1] == outcomes[i]);
            }
        } else {
            assert(outcomes[0] == Some(true));
        }
    }
}

/// Where every path lies below the root, the event is ignored exactly when
/// one of its paths is.
pub proof fn lemma_verdict_any(matcher: IgnoreMatcher, root: Seq<char>, paths: Seq<ChangedPath>)
    requires
        all_below(root, paths),
    ensures
        verdict(matcher, root, paths) == Some(
            exists|i: int| 0 <= i < paths.len() && matcher.ignores_path((#[trigger] relative(root, paths[i]))->Some_0),
        ),
{
    let all = outcomes(matcher, root, paths);
    assert forall|i: int| 0 <= i < all.len() implies (#[trigger] all[i]) is Some by {
        assert(relative(root, paths[i]) is Some);
    }
    lemma_first_decision_any(all);
    let here = exists|i: int| 0 <= i < all.len() && #[trigger] all[i] == Some(true);
    let there = exists|i: int|
        0 <= i < paths.len() && matcher.ignores_path((#[trigger] relative(root, paths[i]))->Some_0);
    if here {
        let i = choose|i: int| 0 <= i < all.len() && #[trigger] all[i] == Some(true);
        assert(relative(root, paths[i]) is Some);
        assert(matcher.ignores_path(relative(root, paths[i])->Some_0));
    }
    if there {
        let i = choose|i: int|
            0 <= i < paths.len() && matcher.ignores_path((#[trigger] relative(root, paths[i]))->Some_0);
        assert(relative(root, paths[i]) is Some);
        assert(all[i] == Some(true));
    }
}

/// Decides from what was found of each path, in order: a path outside the
/// root fails the event, an ignored path has the whole event ignored, and
/// whichever comes first decides.
pub fn judge(found: &Vec<Option<bool>>) -> (res: Result<bool, Errors>)
    ensures
        match first_decision(found@) {
            Some(ignored) => res == Ok::<bool, Errors>(ignored),
            None => res == Err::<bool, Errors>(Errors::FailedStripPrefix),
        },
{
    let mut i: usize = 0;
    assert(found@.skip(0) =~= found@);
    while i < found.len()
        invariant
            0 <= i <= found.len(),
            first_decision(found@) == first_decision(found@.skip(i as int)),
        decreases found.len() - i,
    {
        proof {
            assert(found@.skip(i as int).drop_first() =~= found@.skip(i + 1));
            assert(found@.skip(i as int)[0] == found@[i as int]);
        }
        match found[i] {
            None => {
                return Err(Errors::FailedStripPrefix);
            },
            Some(true) => {
                return Ok(true);
            },
            Some(false) => {},
        }
        i += 1;
    }
    Ok(false)
}

/// Decides whether the change that names these paths should be skipped. The
/// paths are taken in order: a path outside the root fails the event, an
/// ignored path has the whole event ignored.
pub fn is_ignored(matcher: &IgnoreMatcher, root: &str, paths: &Vec<ChangedPath>) -> (res: Result<bool, Errors>)
    ensures
        match verdict(*matcher, root@, paths@) {
            Some(ignored) => res == Ok::<bool, Errors>(ignored),
            None => res == Err::<bool, Errors>(Errors::FailedStripPrefix),
        },
        matcher.lines().len() == 0 && all_below(root@, paths@) ==> res == Ok::<bool, Errors>(false),
{
    let mut found: Vec<Option<bool>> = Vec::new();
    let mut i: usize = 0;
    while i < paths.len()
        invariant
            0 <= i <= paths.len(),
            found@ == outcomes(*matcher, root@, paths@).take(i as int),
            matcher.lines().len() == 0 ==> forall|j: int| 0 <= j < i ==> (#[trigger] found@[j]) != Some(true),
        decreases paths.len() - i,
    {
        let seen = match strip(root, paths[i].path.as_str()) {
            Ok(pair) => Some(matcher.matches(pair.1.as_str())),
            Err(_) => None,
        };
        found.push(seen);
        assert(found@ =~= outcomes(*matcher, root@, paths@).take(i + 1));
        i += 1;
    }
    assert(outcomes(*matcher, root@, paths@).take(paths@.len() as int) =~= outcomes(*matcher, root@, paths@));
    proof {
        if matcher.lines().len() == 0 && all_below(root@, paths@) {
            assert forall|j: int| 0 <= j < found@.len() implies (#[trigger] found@[j]) is Some by {
                assert(relative(root@, paths@[j]) is Some);
            }
            lemma_first_decision_any(found@);
        }
    }
    judge(&found)
}

/// Whether a path is sent as a directory, given whether a directory stands
/// at it now. After a removal nothing is left on disk to look at, so the raw
/// kind of the event decides.
pub open spec fn directory_tag(kind: RawKind, is_dir: bool) -> bool {
    if intent_of(kind) == EventKinds::Remove {
        kind == RawKind::Remove(RemoveKind::Folder)
    } else {
        is_dir
    }
}

/// Whether a changed path is sent as a directory.
pub open spec fn names_directory(kind: RawKind, changed: ChangedPath) -> bool {
    directory_tag(kind, changed.is_dir)
}

/// Tags a relative path as a file or a directory.
pub fn tag(kind: RawKind, name: String, is_dir: bool) -> (path: Path)
    ensures
        path == (if directory_tag(kind, is_dir) {
            Path::Directory(name)
        } else {
            Path::File(name)
        }),
{
    let directory = match classify(kind) {
        EventKinds::Remove => match kind {
            RawKind::Remove(RemoveKind::Folder) => true,
            _ => false,
        },
        _ => is_dir,
    };
    if directory {
        Path::Directory(name)
    } else {
        Path::File(name)
    }
}

/// Whether `tag` is the tagged relative path of a change of this kind.
pub open spec fn tags(root: Seq<char>, kind: RawKind, changed: ChangedPath, tag: Path) -> bool {
    &&& relative(root, changed) == Some(tag.name())
    &&& tag is Directory <==> names_directory(kind, changed)
}

/// Whether `list` holds the tagged relative path of each change, in order.
pub open spec fn tags_all(root: Seq<char>, kind: RawKind, paths: Seq<ChangedPath>, list: Seq<Path>) -> bool {
    &&& list.len() == paths.len()
    &&& forall|i: int| 0 <= i < paths.len() ==> tags(root, kind, paths[i], #[trigger] list[i])
}

/// A removed directory is tagged as a directory, whatever stands at its path
/// now.
pub proof fn lemma_removed_directory(changed: ChangedPath)
    ensures
        names_directory(RawKind::Remove(RemoveKind::Folder), changed),
        !names_directory(RawKind::Remove(RemoveKind::File), changed),
{
}

/// Names each changed path relative to the root and tags it as a file or a
/// directory.
pub fn tag_paths(root: &str, kind: RawKind, paths: &Vec<ChangedPath>) -> (res: Result<Vec<Path>, Errors>)
    ensures
        res is Ok <==> all_below(root@, paths@),
        res matches Ok(list) ==> tags_all(root@, kind, paths@, list@),
        res matches Err(e) ==> e == Errors::FailedStripPrefix,
{
    let mut list: Vec<Path> = Vec::new();
    let mut i: usize = 0;
    while i < paths.len()
        invariant
            0 <= i <= paths.len(),
            list@.len() == i,
            forall|j: int| 0 <= j < i ==> (#[trigger] relative(root@, paths@[j])) is Some,
            forall|j: int| 0 <= j < i ==> tags(root@, kind, paths@[j], #[trigger] list@[j]),
        decreases paths.len() - i,
    {
        let changed = &paths[i];
        match strip(root, changed.path.as_str()) {
            Ok(pair) => {
                list.push(tag(kind, pair.1, changed.is_dir));
            },
            Err(e) => {
                assert(relative(root@, paths@[i as int]) is None);
                return Err(e);
            },
        }
        i += 1;
    }
    Ok(list)
}

/// Whether `req` propagates a change of the given raw kind to these paths
/// with this payload.
pub open spec fn propagates(
    req: Synchronization,
    root: Seq<char>,
    kind: RawKind,
    paths: Seq<ChangedPath>,
    payload: Option<Seq<u8>>,
) -> bool {
    &&& req.kind == intent_of(kind)
    &&& tags_all(root, kind, paths, req.paths@)
    &&& req.attributes is None
    &&& match payload {
        Some(bytes) => req.payload matches Some(carried) && carried@ == bytes,
        None => req.payload is None,
    }
}

/// Builds the request that propagates one event, from the event and from
/// the entries that were read at its paths. An event of an unsupported
/// intent gives no request. A request for a modification carries the
/// archive of the entries that are no directories; every other request
/// carries no bytes and `files` is not looked at.
pub fn upload_incremental(root: &str, event: &Event, files: Vec<SourceFile>) -> (res: Result<
    Option<Synchronization>,
    Errors,
>)
    ensures
        !intent_of(event.kind).supported() ==> res == Ok::<Option<Synchronization>, Errors>(None),
        intent_of(event.kind).supported() && !all_below(root@, event.paths@) ==> res == Err::<
            Option<Synchronization>,
            Errors,
        >(Errors::FailedStripPrefix),
        intent_of(event.kind).supported() && all_below(root@, event.paths@) && intent_of(event.kind)
            != EventKinds::Modify ==> (res matches Ok(Some(req)) && propagates(
            req,
            root@,
            event.kind,
            event.paths@,
            None,
        )),
        intent_of(event.kind) == EventKinds::Modify && all_below(root@, event.paths@) ==> {
            let records = relative_records(root@, regular(files@));
            &&& res is Ok <==> all_strippable(root@, regular(files@)) && all_accepted(records)
            &&& res matches Ok(sent) ==> (sent matches Some(req) && propagates(
                req,
                root@,
                event.kind,
                event.paths@,
                Some(full_payload(root@, files@)),
            ))
            &&& !all_strippable(root@, regular(files@)) ==> res == Err::<Option<Synchronization>, Errors>(
                Errors::FailedStripPrefix,
            )
            &&& all_strippable(root@, regular(files@)) ==> forall|i: int| #[trigger]
                refused_at(records, i) ==> (res matches Err(Errors::FailedAppendPath(name)) && name@
                    == records[i].0)
        },
        res matches Ok(Some(req)) ==> req.well_formed(),
{
    let kind = classify(event.kind);
    if !kind.is_supported() {
        return Ok(None);
    }
    let list = match tag_paths(root, event.kind, &event.paths) {
        Ok(list) => list,
        Err(e) => {
            return Err(e);
        },
    };
    let payload = match kind {
        EventKinds::Modify => {
            match archive_files(root, files) {
                Ok(bytes) => Some(bytes),
                Err(e) => {
                    return Err(e);
                },
            }
        },
        _ => None,
    };
    Ok(Some(Synchronization { kind, paths: list, attributes: None, payload }))
}

/// The life of a directory watcher.
#[derive(Clone, Copy, Debug, PartialEq, Eq, Structural)]
pub enum WatcherState {
    /// Not started yet.
    Idle,
    /// Waiting for the next notification.
    Watching,
    /// The channel closed or the session was cancelled. Terminal.
    Stopped,
}

/// What the channel of the filesystem watch hands over.
#[derive(Clone, Debug, PartialEq, Eq)]
pub enum Notification {
    /// The watch itself failed to deliver a notification.
    Failed(String),
    /// Something changed below the workspace.
    Changed(Event),
    /// The channel closed.
    Closed,
}

/// What the loop around the watcher does next.
#[derive(Clone, Debug, PartialEq, Eq)]
pub enum Action {
    /// Log the failure of the watch and wait for the next notification.
    Report(String),
    /// The event is ignored: drop it silently.
    Skip,
    /// The intent is not supported: warn and drop the event.
    Warn(EventKinds),
    /// The event cannot be handled: log the error and drop the event.
    Reject(Errors),
    /// Propagate the event: read the entries at its paths if `with_content`
    /// says so, build the request and send it.
    Synchronize { kind: EventKinds, with_content: bool },
    /// Nothing is watched: leave the loop.
    Stop,
}

/// What is done with an event of the given raw kind once the matcher has
/// spoken: an ignored event is skipped, whatever its kind; an event of an
/// unsupported intent is warned about; any other is propagated, with the
/// content of its files where the intent carries bytes.
pub open spec fn reaction(kind: RawKind, ignored: bool) -> Action {
    if ignored {
        Action::Skip
    } else if intent_of(kind).supported() {
        Action::Synchronize { kind: intent_of(kind), with_content: intent_of(kind) == EventKinds::Modify }
    } else {
        Action::Warn(intent_of(kind))
    }
}

/// Decides what is done with an event of the given raw kind, from what the
/// matcher said of its paths. An event that the matcher failed on is
/// rejected with that failure.
pub fn react(kind: RawKind, judged: Result<bool, Errors>) -> (action: Action)
    ensures
        match judged {
            Ok(ignored) => action == reaction(kind, ignored),
            Err(error) => action == Action::Reject(error),
        },
{
    match judged {
        Err(error) => Action::Reject(error),
        Ok(true) => Action::Skip,
        Ok(false) => {
            let intent = classify(kind);
            if intent.is_supported() {
                Action::Synchronize { kind: intent, with_content: intent.has_payload() }
            } else {
                Action::Warn(intent)
            }
        },
    }
}

/// Whether `action` is what a watcher does on `note` while it is watching.
pub open spec fn reacts(matcher: IgnoreMatcher, root: Seq<char>, note: Notification, action: Action) -> bool {
    match note {
        Notification::Failed(text) => action matches Action::Report(line) && line@ == text@,
        Notification::Closed => action is Stop,
        Notification::Changed(event) => match verdict(matcher, root, event.paths@) {
            None => action == Action::Reject(Errors::FailedStripPrefix),
            Some(ignored) => action == reaction(event.kind, ignored),
        },
    }
}

/// An event whose kind stands for a rename or for anything the remote side
/// does not know is classified as such and is never propagated, whatever
/// the matcher says of its paths.
pub proof fn lemma_unsupported_never_sent(matcher: IgnoreMatcher, root: Seq<char>, event: Event, action: Action)
    requires
        intent_of(event.kind) == EventKinds::Rename || intent_of(event.kind) == EventKinds::Other,
        reacts(matcher, root, Notification::Changed(event), action),
    ensures
        !intent_of(event.kind).supported(),
        !(action is Synchronize),
        verdict(matcher, root, event.paths@) == Some(false) ==> action == Action::Warn(intent_of(event.kind)),
{
}

/// An event of a supported intent whose paths all lie below the root, none
/// of them ignored, is propagated: the one action taken is a
/// synchronization of the intent that the classifier gives.
pub proof fn lemma_clear_event_sent(matcher: IgnoreMatcher, root: Seq<char>, event: Event, action: Action)
    requires
        all_below(root, event.paths@),
        forall|i: int|
            0 <= i < event.paths@.len() ==> !matcher.ignores_path(
                (#[trigger] relative(root, event.paths@[i]))->Some_0,
            ),
        intent_of(event.kind).supported(),
        reacts(matcher, root, Notification::Changed(event), action),
    ensures
        action matches Action::Synchronize { kind, with_content } && kind == intent_of(event.kind) && with_content
            == kind.carries_payload(),
{
    lemma_verdict_any(matcher, root, event.paths@);
}

/// Starts a watcher that was not started; any other watcher stays as it is.
pub fn start(state: WatcherState) -> (next: WatcherState)
    ensures
        state is Idle ==> next is Watching,
        !(state is Idle) ==> next == state,
{
    match state {
        WatcherState::Idle => WatcherState::Watching,
        other => other,
    }
}

/// Takes one notification. A watcher that is watching keeps watching until
/// the channel closes, whatever the notification holds; a watcher that is
/// not watching looks at nothing and has the loop left.
pub fn observe(state: WatcherState, matcher: &IgnoreMatcher, root: &str, note: &Notification) -> (res: (
    WatcherState,
    Action,
))
    ensures
        state is Watching ==> reacts(*matcher, root@, *note, res.1),
        state is Watching && !(note is Closed) ==> res.0 is Watching,
        state is Watching && note is Closed ==> res.0 is Stopped,
        !(state is Watching) ==> res.0 == state && res.1 is Stop,
{
    match state {
        WatcherState::Watching => {},
        _ => {
            return (state, Action::Stop);
        },
    }
    match note {
        Notification::Failed(text) => (WatcherState::Watching, Action::Report(text.clone())),
        Notification::Closed => (WatcherState::Stopped, Action::Stop),
        Notification::Changed(event) => {
            let action = react(event.kind, is_ignored(matcher, root, &event.paths));
            (WatcherState::Watching, action)
        },
    }
}

/// Takes the outcome of one synchronization. A failed one is logged and
/// does not stop the watcher.
pub fn settle(state: WatcherState, outcome: Result<(), Errors>) -> (res: (WatcherState, Option<Errors>))
    ensures
        res.0 == state,
        match outcome {
            Ok(_) => res.1 is None,
            Err(e) => res.1 == Some(e),
        },
{
    match outcome {
        Ok(_) => (state, None),
        Err(e) => (state, Some(e)),
    }
}

} // verus!
