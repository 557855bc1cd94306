//! A host that never fails, as a mathematical model, and what the
//! operations come to when they run against it.

use crate::commands::{create_command_next, then_store, WithStoreView};
use crate::db::{init_next, init_start, InitDbView};
use crate::eval::{summary_of, EvalDefinitionView, EvalSummaryView};
use crate::failure::{failure, ErrorKind, FailureView};
use crate::host::{EntryKind, ListedView, ReplyView, RequestView, StepView};
use crate::loader::{
    eval_of_text, evals_dir, evals_next, evals_seek, evals_start, summary_rank, EvalStageView,
    ListEvalsView, LoadEvalView,
};
use crate::manifest::{manifest_of, manifest_text};
use crate::order::{is_ordered, ranked, ranked_is_ordered_permutation};
use crate::paths::{is_absolute, is_yaml_path, joined};
use crate::project::{
    create_next, create_start, info_of, info_rank, internal_dir, list_next, list_seek, list_start,
    manifest_path, new_manifest, open_next, open_start, plain_failure, CreateProjectView,
    ListProjectsView, ListStageView, OpenProjectView, ProjectInfoView,
};
use crate::stamp::Timestamp;
use crate::text::{is_blank, trimmed};
use vstd::prelude::*;

verus! {

/// What a host holds: the directory it works in, written without the
/// leading separator; the text of each file; the directories that were
/// created; and for the directories that hold something, their entries.
pub struct World {
    pub base: Seq<char>,
    pub files: Map<Seq<char>, Seq<char>>,
    pub dirs: Set<Seq<char>>,
    pub listings: Map<Seq<char>, Seq<ListedView>>,
}

/// The message of the model host for a path that names nothing.
pub open spec fn nothing_there() -> Seq<char> {
    "No such file or directory"@
}

/// The absolute form of `path` for a host that works in `base`: the path
/// itself where it is absolute, and else the path below the directory.
pub open spec fn absolute_in(base: Seq<char>, path: Seq<char>) -> Seq<char> {
    if is_absolute(path) {
        path
    } else {
        joined(seq!['/'] + base, path)
    }
}

/// The absolute form of a path is absolute.
pub proof fn absolute_in_is_absolute(base: Seq<char>, path: Seq<char>)
    ensures
        is_absolute(absolute_in(base, path)),
{
    let lead = seq!['/'] + base;
    assert(lead[0] == '/');
    if !is_absolute(path) {
        assert(joined(lead, path)[0] == '/');
    }
}

/// What the model host answers to a request, and what it holds after. It
/// resolves paths against the directory it works in; it creates and writes
/// without fail; it reads the files it holds; it lists the directories it
/// has entries for, and finds nothing in a directory that was only
/// created.
pub open spec fn perform(w: World, request: RequestView) -> (World, ReplyView) {
    match request {
        RequestView::Absolute { path } => (w, ReplyView::Text(absolute_in(w.base, path))),
        RequestView::CreateDirs { path } => (
            World { base: w.base, files: w.files, dirs: w.dirs.insert(path), listings: w.listings },
            ReplyView::Done,
        ),
        RequestView::CreateParentDirs { path } => (w, ReplyView::Done),
        RequestView::Exists { path } => (
            w,
            ReplyView::Found(
                w.files.contains_key(path) || w.dirs.contains(path) || w.listings.contains_key(
                    path,
                ),
            ),
        ),
        RequestView::Write { path, contents } => (
            World {
                base: w.base,
                files: w.files.insert(path, contents),
                dirs: w.dirs,
                listings: w.listings,
            },
            ReplyView::Done,
        ),
        RequestView::Read { path } => if w.files.contains_key(path) {
            (w, ReplyView::Text(w.files[path]))
        } else {
            (w, ReplyView::Failed(nothing_there()))
        },
        RequestView::List { path } => if w.listings.contains_key(path) {
            (w, ReplyView::Entries(w.listings[path]))
        } else if w.dirs.contains(path) {
            (w, ReplyView::Entries(Seq::empty()))
        } else {
            (w, ReplyView::Failed(nothing_there()))
        },
        RequestView::OpenStore { path } => if w.files.contains_key(path) {
            (w, ReplyView::Done)
        } else {
            (
                World {
                    base: w.base,
                    files: w.files.insert(path, Seq::empty()),
                    dirs: w.dirs,
                    listings: w.listings,
                },
                ReplyView::Done,
            )
        },
        RequestView::ApplySchema { path, script } => (w, ReplyView::Done),
    }
}

/// Runs an operation against the model host for at most `fuel` requests:
/// how the operation ended and what the host holds then, or `None` where
/// the operation has not ended by then.
pub open spec fn run<M, T>(
    next: spec_fn(M, ReplyView) -> StepView<M, T>,
    step: StepView<M, T>,
    w: World,
    fuel: nat,
) -> Option<(Result<T, FailureView>, World)>
    decreases fuel,
{
    match step {
        StepView::Finish(r) => Some((r, w)),
        StepView::Ask(state, request) => if fuel == 0 {
            None
        } else {
            run(next, next(state, perform(w, request).1), perform(w, request).0, (fuel - 1) as nat)
        },
    }
}

/// An operation that has ended within some number of requests has ended
/// the same way within any greater number.
pub proof fn run_needs_no_more<M, T>(
    next: spec_fn(M, ReplyView) -> StepView<M, T>,
    step: StepView<M, T>,
    w: World,
    fuel: nat,
    more: nat,
)
    requires
        run(next, step, w, fuel) is Some,
        fuel <= more,
    ensures
        run(next, step, w, more) == run(next, step, w, fuel),
    decreases fuel,
{
    match step {
        StepView::Finish(r) => {},
        StepView::Ask(state, request) => {
            run_needs_no_more(
                next,
                next(state, perform(w, request).1),
                perform(w, request).0,
                (fuel - 1) as nat,
                (more - 1) as nat,
            );
        },
    }
}

/// The creation of a project, with `id` and `now` at hand for its
/// manifest, as a function from state and reply to the next step.
pub open spec fn creating(id: u128, now: Timestamp) -> spec_fn(CreateProjectView, ReplyView) -> StepView<
    CreateProjectView,
    ProjectInfoView,
> {
    |state: CreateProjectView, reply: ReplyView| create_next(state, reply, id, now)
}

/// The opening of a project as a function from state and reply to the next
/// step.
pub open spec fn opening() -> spec_fn(OpenProjectView, ReplyView) -> StepView<
    OpenProjectView,
    ProjectInfoView,
> {
    |state: OpenProjectView, reply: ReplyView| open_next(state, reply)
}

/// A creation that succeeds gives the project at the absolute form of the
/// path, with the trimmed name and the first version, and leaves the
/// manifest at its root: a file whose text is that of the new manifest. It
/// takes ten requests.
pub proof fn creation_writes_manifest(
    w: World,
    path: Seq<char>,
    name: Seq<char>,
    id: u128,
    now: Timestamp,
    fuel: nat,
)
    requires
        run(creating(id, now), create_start(path, name), w, fuel) matches Some((Ok(_), _)),
    ensures
        run(creating(id, now), create_start(path, name), w, fuel) == run(
            creating(id, now),
            create_start(path, name),
            w,
            10,
        ),
        ({
            let root = absolute_in(w.base, path);
            let m = new_manifest(trimmed(name), id, now);
            let end = run(creating(id, now), create_start(path, name), w, fuel)->0;
            &&& is_absolute(root)
            &&& end.0 == Ok::<ProjectInfoView, FailureView>(info_of(m, root))
            &&& manifest_text(m) is Ok
            &&& end.1.base == w.base
            &&& end.1.files.contains_key(manifest_path(root))
            &&& end.1.files[manifest_path(root)] == manifest_text(m)->Ok_0
        }),
{
    absolute_in_is_absolute(w.base, path);
    reveal_with_fuel(run, 11);
    let next = creating(id, now);
    let start = create_start(path, name);
    if fuel < 10 {
        assert(run(next, start, w, fuel) is Some);
        run_needs_no_more(next, start, w, fuel, 10);
    } else {
        assert(run(next, start, w, 10) is Some);
        run_needs_no_more(next, start, w, 10, fuel);
    }
}

/// Creating a project where a manifest lies already is refused, whatever
/// the name, as long as it is not blank. It takes three requests.
pub proof fn creation_over_manifest_is_refused(
    w: World,
    path: Seq<char>,
    name: Seq<char>,
    id: u128,
    now: Timestamp,
)
    requires
        !is_blank(name),
        w.files.contains_key(manifest_path(absolute_in(w.base, path))),
    ensures
        run(creating(id, now), create_start(path, name), w, 3) matches Some((Err(f), _)) && f
            == plain_failure(
            ErrorKind::AlreadyInitialized,
            "Assay.toml already exists in this directory"@,
        ),
{
    absolute_in_is_absolute(w.base, path);
    reveal_with_fuel(run, 4);
}

/// Creating a project twice at one root: where the first creation
/// succeeds, the second is refused because the project is there already,
/// whatever name, identifier and instant the second comes with.
pub proof fn second_creation_is_refused(
    w: World,
    path: Seq<char>,
    first_name: Seq<char>,
    first_id: u128,
    first_now: Timestamp,
    first_fuel: nat,
    second_name: Seq<char>,
    second_id: u128,
    second_now: Timestamp,
)
    requires
        run(creating(first_id, first_now), create_start(path, first_name), w, first_fuel)
            matches Some((Ok(_), _)),
        !is_blank(second_name),
    ensures
        ({
            let end = run(
                creating(first_id, first_now),
                create_start(path, first_name),
                w,
                first_fuel,
            )->0;
            let after = end.1;
            run(creating(second_id, second_now), create_start(path, second_name), after, 3)
                matches Some((Err(f), _)) && f.kind == ErrorKind::AlreadyInitialized
        }),
{
    creation_writes_manifest(w, path, first_name, first_id, first_now, first_fuel);
    let end = run(creating(first_id, first_now), create_start(path, first_name), w, first_fuel)->0;
    let after = end.1;
    creation_over_manifest_is_refused(after, path, second_name, second_id, second_now);
}

/// Opening a project that was just created gives what the creation gave,
/// where the text of the new manifest reads back as the manifest.
pub proof fn opening_after_creation(
    w: World,
    path: Seq<char>,
    name: Seq<char>,
    id: u128,
    now: Timestamp,
    fuel: nat,
)
    requires
        run(creating(id, now), create_start(path, name), w, fuel) matches Some((Ok(_), _)),
        manifest_text(new_manifest(trimmed(name), id, now)) matches Ok(text) && manifest_of(text)
            == Ok::<crate::manifest::ProjectManifestView, Seq<char>>(
            new_manifest(trimmed(name), id, now),
        ),
    ensures
        ({
            let end = run(creating(id, now), create_start(path, name), w, fuel)->0;
            run(opening(), open_start(path), end.1, 3) matches Some((r, _)) && r == end.0
        }),
{
    creation_writes_manifest(w, path, name, id, now, fuel);
    absolute_in_is_absolute(w.base, path);
    reveal_with_fuel(run, 4);
}

/// The making of a store as a function from state and reply to the next
/// step.
pub open spec fn initializing() -> spec_fn(InitDbView, ReplyView) -> StepView<InitDbView, ()> {
    |state: InitDbView, reply: ReplyView| init_next(state, reply)
}

/// Making a store ready comes to no failure, whether the store is there
/// already or not, and a store that is there is left as it was. So a store
/// can be made ready any number of times: the second time finds what the
/// first left, and leaves it.
pub proof fn store_can_be_made_again(w: World, path: Seq<char>)
    ensures
        run(initializing(), init_start(path), w, 3) matches Some((Ok(_), after))
            && after.files.contains_key(path) && (w.files.contains_key(path) ==> after == w)
            && run(initializing(), init_start(path), after, 3) == Some(
            (Ok::<(), FailureView>(()), after),
        ),
{
    reveal_with_fuel(run, 4);
}

/// How a run ended, where it ended.
pub open spec fn result_of<T>(end: Option<(Result<T, FailureView>, World)>) -> Option<
    Result<T, FailureView>,
> {
    match end {
        Some((r, _)) => Some(r),
        None => None,
    }
}

/// The operation, run from `step` against the model host that holds `w`,
/// ends with `r` after some number of requests.
pub open spec fn comes_to<M, T>(
    next: spec_fn(M, ReplyView) -> StepView<M, T>,
    step: StepView<M, T>,
    w: World,
    r: Result<T, FailureView>,
) -> bool {
    exists|fuel: nat| result_of(#[trigger] run(next, step, w, fuel)) == Some(r)
}

/// An operation that has finished has come to its result.
pub proof fn comes_to_at_finish<M, T>(
    next: spec_fn(M, ReplyView) -> StepView<M, T>,
    w: World,
    r: Result<T, FailureView>,
)
    ensures
        comes_to(next, StepView::Finish(r), w, r),
{
    assert(result_of(run(next, StepView::<M, T>::Finish(r), w, 0)) == Some(r));
}

/// An operation that asks comes to what it comes to once the model host
/// has answered.
pub proof fn comes_to_after_ask<M, T>(
    next: spec_fn(M, ReplyView) -> StepView<M, T>,
    state: M,
    request: RequestView,
    w: World,
    r: Result<T, FailureView>,
)
    requires
        comes_to(next, next(state, perform(w, request).1), perform(w, request).0, r),
    ensures
        comes_to(next, StepView::Ask(state, request), w, r),
{
    let after = next(state, perform(w, request).1);
    let held = perform(w, request).0;
    let fuel = choose|fuel: nat| result_of(#[trigger] run(next, after, held, fuel)) == Some(r);
    assert(run(next, StepView::Ask(state, request), w, fuel + 1) == run(next, after, held, fuel));
}

/// The listing of projects as a function from state and reply to the next
/// step.
pub open spec fn listing() -> spec_fn(ListProjectsView, ReplyView) -> StepView<
    ListProjectsView,
    Seq<ProjectInfoView>,
> {
    |state: ListProjectsView, reply: ReplyView| list_next(state, reply)
}

/// The project in the directory `path`, where the files hold a manifest
/// for it that can be read.
pub open spec fn project_at(files: Map<Seq<char>, Seq<char>>, path: Seq<char>) -> Option<
    ProjectInfoView,
> {
    if files.contains_key(manifest_path(path)) {
        match manifest_of(files[manifest_path(path)]) {
            Ok(m) => Some(info_of(m, path)),
            Err(_) => None,
        }
    } else {
        None
    }
}

/// The projects in the directories among the entries from `cursor` on, in
/// the order of the entries, or the failure for the first break in the
/// stream of entries. Entries whose kind could not be told, and entries that
/// do not lie at an absolute path, are passed over.
pub open spec fn projects_from(
    files: Map<Seq<char>, Seq<char>>,
    entries: Seq<ListedView>,
    cursor: int,
) -> Result<Seq<ProjectInfoView>, FailureView>
    decreases entries.len() - cursor,
{
    if cursor < 0 || cursor >= entries.len() {
        Ok(Seq::empty())
    } else {
        match entries[cursor] {
            ListedView::NoEntry { message } => Err(
                failure(ErrorKind::Enumeration, "Directory entry error: "@, message),
            ),
            ListedView::NoKind { message } => projects_from(files, entries, cursor + 1),
            ListedView::Entry { path, kind } => match projects_from(files, entries, cursor + 1) {
                Err(f) => Err(f),
                Ok(rest) => if kind == EntryKind::Directory && is_absolute(path) && project_at(
                    files,
                    path,
                ) is Some {
                    Ok(seq![project_at(files, path)->0] + rest)
                } else {
                    Ok(rest)
                },
            },
        }
    }
}

/// What a listing comes to: the projects in rank order, or the failure.
pub open spec fn listed(found: Seq<ProjectInfoView>, rest: Result<Seq<ProjectInfoView>, FailureView>) -> Result<
    Seq<ProjectInfoView>,
    FailureView,
> {
    match rest {
        Ok(rest) => Ok(ranked(found + rest, info_rank())),
        Err(f) => Err(f),
    }
}

/// A listing that looks at the entries from `cursor` on, with `found` in
/// hand, comes to `found` and the projects among those entries, ordered by
/// their creation, or to the failure for the first entry that could not be
/// read.
pub proof fn listing_from(
    w: World,
    entries: Seq<ListedView>,
    cursor: int,
    found: Seq<ProjectInfoView>,
)
    requires
        0 <= cursor <= entries.len(),
    ensures
        comes_to(
            listing(),
            list_seek(entries, cursor, found),
            w,
            listed(found, projects_from(w.files, entries, cursor)),
        ),
    decreases entries.len() - cursor,
{
    let next = listing();
    let goal = listed(found, projects_from(w.files, entries, cursor));
    if cursor >= entries.len() {
        assert(found + Seq::<ProjectInfoView>::empty() =~= found);
        comes_to_at_finish(next, w, goal);
    } else {
        match entries[cursor] {
            ListedView::NoEntry { message } => {
                comes_to_at_finish(next, w, goal);
            },
            ListedView::NoKind { message } => {
                listing_from(w, entries, cursor + 1, found);
            },
            ListedView::Entry { path, kind } => {
                if kind != EntryKind::Directory || !is_absolute(path) {
                    listing_from(w, entries, cursor + 1, found);
                } else {
                    let probe = ListProjectsView {
                        entries,
                        cursor,
                        found,
                        stage: ListStageView::Probe,
                    };
                    let ask = RequestView::Exists { path: manifest_path(path) };
                    assert(list_seek(entries, cursor, found) == StepView::<
                        ListProjectsView,
                        Seq<ProjectInfoView>,
                    >::Ask(probe, ask));
                    let there = perform(w, ask).1;
                    if there != ReplyView::Found(true) {
                        listing_from(w, entries, cursor + 1, found);
                        comes_to_after_ask(next, probe, ask, w, goal);
                    } else {
                        let open = ListProjectsView {
                            entries,
                            cursor,
                            found,
                            stage: ListStageView::Opening(OpenProjectView::Manifest { path }),
                        };
                        let read = RequestView::Read { path: manifest_path(path) };
                        assert(next(probe, there) == StepView::<
                            ListProjectsView,
                            Seq<ProjectInfoView>,
                        >::Ask(open, read));
                        if project_at(w.files, path) is Some {
                            let info = project_at(w.files, path)->0;
                            let dir = ListProjectsView {
                                entries,
                                cursor,
                                found,
                                stage: ListStageView::Opening(OpenProjectView::Internal { info }),
                            };
                            let make = RequestView::CreateDirs { path: internal_dir(path) };
                            assert(next(open, perform(w, read).1) == StepView::<
                                ListProjectsView,
                                Seq<ProjectInfoView>,
                            >::Ask(dir, make));
                            let held = perform(w, make).0;
                            assert(held.files == w.files);
                            listing_from(held, entries, cursor + 1, found.push(info));
                            match projects_from(w.files, entries, cursor + 1) {
                                Ok(rest) => {
                                    assert(found.push(info) + rest =~= found + (seq![info] + rest));
                                },
                                Err(_) => {},
                            }
                            comes_to_after_ask(next, dir, make, w, goal);
                            comes_to_after_ask(next, open, read, w, goal);
                            comes_to_after_ask(next, probe, ask, w, goal);
                        } else {
                            listing_from(w, entries, cursor + 1, found);
                            comes_to_after_ask(next, open, read, w, goal);
                            comes_to_after_ask(next, probe, ask, w, goal);
                        }
                    }
                }
            },
        }
    }
}

/// Listing the projects under `root`, where the host holds `entries` for
/// its absolute form: the listing comes to the projects in the directories
/// among the entries, ordered by their creation. Only a break in the stream
/// of entries makes it fail. Directories without a manifest, directories
/// whose manifest cannot be read, and entries whose kind cannot be told are
/// passed over.
pub proof fn listing_gives_the_projects(w: World, root: Seq<char>, entries: Seq<ListedView>)
    requires
        w.listings.contains_key(absolute_in(w.base, root)),
        w.listings[absolute_in(w.base, root)] == entries,
    ensures
        comes_to(
            listing(),
            list_start(root),
            w,
            listed(Seq::empty(), projects_from(w.files, entries, 0)),
        ),
{
    let next = listing();
    let goal = listed(Seq::empty(), projects_from(w.files, entries, 0));
    let resolve = ListProjectsView {
        entries: Seq::empty(),
        cursor: 0,
        found: Seq::empty(),
        stage: ListStageView::Resolve,
    };
    let list = ListProjectsView {
        entries: Seq::empty(),
        cursor: 0,
        found: Seq::empty(),
        stage: ListStageView::Listing,
    };
    let whole = absolute_in(w.base, root);
    absolute_in_is_absolute(w.base, root);
    listing_from(w, entries, 0, Seq::empty());
    comes_to_after_ask(next, list, RequestView::List { path: whole }, w, goal);
    comes_to_after_ask(next, resolve, RequestView::Absolute { path: root }, w, goal);
}

/// Listing the projects under a root that holds nothing comes to the empty
/// list, within two requests.
pub proof fn empty_root_lists_nothing(w: World, root: Seq<char>)
    requires
        ({
            let whole = absolute_in(w.base, root);
            w.listings.contains_key(whole) && w.listings[whole].len() == 0
                || !w.listings.contains_key(whole) && w.dirs.contains(whole)
        }),
    ensures
        result_of(run(listing(), list_start(root), w, 2)) == Some(
            Ok::<Seq<ProjectInfoView>, FailureView>(Seq::empty()),
        ),
{
    absolute_in_is_absolute(w.base, root);
    reveal_with_fuel(run, 3);
    assert(ranked(Seq::<ProjectInfoView>::empty(), info_rank()) =~= Seq::empty());
}

/// No entry from `cursor` on holds a project, and the stream of entries
/// does not break.
pub open spec fn no_projects(
    files: Map<Seq<char>, Seq<char>>,
    entries: Seq<ListedView>,
    cursor: int,
) -> bool {
    forall|i: int|
        cursor <= i < entries.len() ==> !(#[trigger] entries[i] is NoEntry) && (entries[i]
            matches ListedView::Entry { path, kind } ==> !(kind == EntryKind::Directory
            && is_absolute(path) && project_at(files, path) is Some))
}

/// Entries that hold no project give none.
pub proof fn no_projects_none_found(
    files: Map<Seq<char>, Seq<char>>,
    entries: Seq<ListedView>,
    cursor: int,
)
    requires
        0 <= cursor <= entries.len(),
        no_projects(files, entries, cursor),
    ensures
        projects_from(files, entries, cursor) == Ok::<Seq<ProjectInfoView>, FailureView>(
            Seq::empty(),
        ),
    decreases entries.len() - cursor,
{
    if cursor < entries.len() {
        no_projects_none_found(files, entries, cursor + 1);
        assert(!(entries[cursor] is NoEntry));
    }
}

/// That a root holds no project is no failure: whatever files and
/// directories it holds instead, the listing comes to the empty list.
pub proof fn absence_of_projects_is_no_failure(
    w: World,
    root: Seq<char>,
    entries: Seq<ListedView>,
)
    requires
        w.listings.contains_key(absolute_in(w.base, root)),
        w.listings[absolute_in(w.base, root)] == entries,
        no_projects(w.files, entries, 0),
    ensures
        comes_to(listing(), list_start(root), w, Ok(Seq::empty())),
{
    listing_gives_the_projects(w, root, entries);
    no_projects_none_found(w.files, entries, 0);
    assert(Seq::<ProjectInfoView>::empty() + Seq::<ProjectInfoView>::empty() =~= Seq::empty());
    assert(ranked(Seq::<ProjectInfoView>::empty(), info_rank()) =~= Seq::empty());
}

/// Every entry from `cursor` on is a directory at an absolute path that
/// holds a project.
pub open spec fn all_projects(
    files: Map<Seq<char>, Seq<char>>,
    entries: Seq<ListedView>,
    cursor: int,
) -> bool {
    forall|i: int|
        cursor <= i < entries.len() ==> (#[trigger] entries[i] matches ListedView::Entry {
            path,
            kind,
        } && kind == EntryKind::Directory && is_absolute(path) && project_at(files, path)
            is Some)
}

/// Among entries that are all directories with a project, each gives one.
pub proof fn all_projects_are_found(
    files: Map<Seq<char>, Seq<char>>,
    entries: Seq<ListedView>,
    cursor: int,
)
    requires
        0 <= cursor <= entries.len(),
        all_projects(files, entries, cursor),
    ensures
        projects_from(files, entries, cursor) is Ok,
        projects_from(files, entries, cursor)->Ok_0.len() == entries.len() - cursor,
    decreases entries.len() - cursor,
{
    if cursor < entries.len() {
        all_projects_are_found(files, entries, cursor + 1);
        assert(entries[cursor] is Entry);
    }
}

/// A root that holds N directories, each with a project, lists exactly N
/// projects, each created no later than those behind it.
pub proof fn valid_projects_are_all_listed(w: World, root: Seq<char>, entries: Seq<ListedView>)
    requires
        w.listings.contains_key(absolute_in(w.base, root)),
        w.listings[absolute_in(w.base, root)] == entries,
        all_projects(w.files, entries, 0),
    ensures
        exists|list: Seq<ProjectInfoView>|
            #![trigger comes_to(listing(), list_start(root), w, Ok(list))]
            comes_to(listing(), list_start(root), w, Ok(list)) && list.len() == entries.len()
                && is_ordered(list, info_rank()),
{
    listing_gives_the_projects(w, root, entries);
    all_projects_are_found(w.files, entries, 0);
    let found = projects_from(w.files, entries, 0)->Ok_0;
    assert(Seq::<ProjectInfoView>::empty() + found =~= found);
    ranked_is_ordered_permutation(found, info_rank());
    let list = ranked(found, info_rank());
    assert(comes_to(listing(), list_start(root), w, Ok(list)));
}

/// The listing of definitions as a function from state and reply to the
/// next step.
pub open spec fn listing_evals() -> spec_fn(ListEvalsView, ReplyView) -> StepView<
    ListEvalsView,
    Seq<EvalSummaryView>,
> {
    |state: ListEvalsView, reply: ReplyView| evals_next(state, reply)
}

/// What loading the definition at `path` comes to against the files.
pub open spec fn loaded(files: Map<Seq<char>, Seq<char>>, path: Seq<char>) -> Result<
    EvalDefinitionView,
    FailureView,
> {
    if files.contains_key(path) {
        match eval_of_text(files[path]) {
            Ok(def) => Ok(def),
            Err(d) => Err(failure(ErrorKind::Parse, "YAML error "@ + path + ": "@, d)),
        }
    } else {
        Err(failure(ErrorKind::Read, "Read error "@ + path + ": "@, nothing_there()))
    }
}

/// The summaries of the definition files among the entries from `cursor`
/// on, in the order of the entries, or the first failure: that of an entry
/// that could not be read, or that of a definition that could not be
/// loaded.
pub open spec fn summaries_from(
    files: Map<Seq<char>, Seq<char>>,
    entries: Seq<ListedView>,
    cursor: int,
) -> Result<Seq<EvalSummaryView>, FailureView>
    decreases entries.len() - cursor,
{
    if cursor < 0 || cursor >= entries.len() {
        Ok(Seq::empty())
    } else {
        match entries[cursor] {
            ListedView::NoEntry { message } => Err(
                failure(ErrorKind::Enumeration, "Dir entry error: "@, message),
            ),
            ListedView::NoKind { message } => Err(
                failure(ErrorKind::Enumeration, "File type error: "@, message),
            ),
            ListedView::Entry { path, kind } => if kind == EntryKind::File && is_yaml_path(path) {
                match loaded(files, path) {
                    Err(f) => Err(f),
                    Ok(def) => match summaries_from(files, entries, cursor + 1) {
                        Err(f) => Err(f),
                        Ok(rest) => Ok(seq![summary_of(def, path)] + rest),
                    },
                }
            } else {
                summaries_from(files, entries, cursor + 1)
            },
        }
    }
}

/// What a listing of definitions comes to: the summaries in rank order,
/// or the failure.
pub open spec fn summarized(
    found: Seq<EvalSummaryView>,
    rest: Result<Seq<EvalSummaryView>, FailureView>,
) -> Result<Seq<EvalSummaryView>, FailureView> {
    match rest {
        Ok(rest) => Ok(ranked(found + rest, summary_rank())),
        Err(f) => Err(f),
    }
}

/// A listing of definitions that looks at the entries from `cursor` on,
/// with `found` in hand, comes to `found` and the summaries of the
/// definition files among those entries, ordered by name without regard to
/// case, or to the first failure.
pub proof fn listing_evals_from(
    w: World,
    dir: Seq<char>,
    entries: Seq<ListedView>,
    cursor: int,
    found: Seq<EvalSummaryView>,
)
    requires
        0 <= cursor <= entries.len(),
    ensures
        comes_to(
            listing_evals(),
            evals_seek(dir, entries, cursor, found),
            w,
            summarized(found, summaries_from(w.files, entries, cursor)),
        ),
    decreases entries.len() - cursor,
{
    let next = listing_evals();
    let goal = summarized(found, summaries_from(w.files, entries, cursor));
    if cursor >= entries.len() {
        assert(found + Seq::<EvalSummaryView>::empty() =~= found);
        comes_to_at_finish(next, w, goal);
    } else {
        match entries[cursor] {
            ListedView::NoEntry { message } => {
                comes_to_at_finish(next, w, goal);
            },
            ListedView::NoKind { message } => {
                comes_to_at_finish(next, w, goal);
            },
            ListedView::Entry { path, kind } => {
                if kind == EntryKind::File && is_yaml_path(path) {
                    let load = ListEvalsView {
                        dir,
                        entries,
                        cursor,
                        found,
                        stage: EvalStageView::Loading(LoadEvalView::Reading { path }),
                    };
                    let read = RequestView::Read { path };
                    assert(evals_seek(dir, entries, cursor, found) == StepView::<
                        ListEvalsView,
                        Seq<EvalSummaryView>,
                    >::Ask(load, read));
                    match loaded(w.files, path) {
                        Err(f) => {
                            assert(next(load, perform(w, read).1) == StepView::<
                                ListEvalsView,
                                Seq<EvalSummaryView>,
                            >::Finish(Err(f)));
                            comes_to_at_finish(next, w, goal);
                        },
                        Ok(def) => {
                            let more = found.push(summary_of(def, path));
                            assert(next(load, perform(w, read).1) == evals_seek(
                                dir,
                                entries,
                                cursor + 1,
                                more,
                            ));
                            listing_evals_from(w, dir, entries, cursor + 1, more);
                            match summaries_from(w.files, entries, cursor + 1) {
                                Ok(rest) => {
                                    let one = seq![summary_of(def, path)];
                                    assert(more + rest =~= found + (one + rest));
                                },
                                Err(_) => {},
                            }
                        },
                    }
                    comes_to_after_ask(next, load, read, w, goal);
                } else {
                    listing_evals_from(w, dir, entries, cursor + 1, found);
                }
            },
        }
    }
}

/// Listing the definitions of the project at `project`, where the host
/// holds `entries` for its directory of definitions: the listing comes to
/// the summaries of the definition files among the entries, ordered by
/// name without regard to case, or to the first failure. One definition
/// that cannot be loaded fails the whole listing.
pub proof fn listing_gives_the_summaries(w: World, project: Seq<char>, entries: Seq<ListedView>)
    requires
        w.listings.contains_key(evals_dir(project)),
        w.listings[evals_dir(project)] == entries,
    ensures
        comes_to(
            listing_evals(),
            evals_start(project),
            w,
            summarized(Seq::empty(), summaries_from(w.files, entries, 0)),
        ),
{
    let next = listing_evals();
    let dir = evals_dir(project);
    let goal = summarized(Seq::empty(), summaries_from(w.files, entries, 0));
    let probe = ListEvalsView {
        dir,
        entries: Seq::empty(),
        cursor: 0,
        found: Seq::empty(),
        stage: EvalStageView::Probe,
    };
    let list = ListEvalsView {
        dir,
        entries: Seq::empty(),
        cursor: 0,
        found: Seq::empty(),
        stage: EvalStageView::Listing,
    };
    let exists = RequestView::Exists { path: dir };
    let ask = RequestView::List { path: dir };
    listing_evals_from(w, dir, entries, 0, Seq::empty());
    comes_to_after_ask(next, list, ask, w, goal);
    comes_to_after_ask(next, probe, exists, w, goal);
}

/// A project without a directory of definitions has none: the listing
/// comes to the empty list within one request.
pub proof fn no_directory_lists_nothing(w: World, project: Seq<char>)
    requires
        !w.files.contains_key(evals_dir(project)),
        !w.dirs.contains(evals_dir(project)),
        !w.listings.contains_key(evals_dir(project)),
    ensures
        result_of(run(listing_evals(), evals_start(project), w, 1)) == Some(
            Ok::<Seq<EvalSummaryView>, FailureView>(Seq::empty()),
        ),
{
    reveal_with_fuel(run, 2);
}

/// No entry from `cursor` on is a definition file, and each can be read.
pub open spec fn no_definitions(entries: Seq<ListedView>, cursor: int) -> bool {
    forall|i: int|
        cursor <= i < entries.len() ==> (#[trigger] entries[i] matches ListedView::Entry {
            path,
            kind,
        } && !(kind == EntryKind::File && is_yaml_path(path)))
}

/// Entries without a definition file give no summary.
pub proof fn no_definitions_no_summaries(
    files: Map<Seq<char>, Seq<char>>,
    entries: Seq<ListedView>,
    cursor: int,
)
    requires
        0 <= cursor <= entries.len(),
        no_definitions(entries, cursor),
    ensures
        summaries_from(files, entries, cursor) == Ok::<Seq<EvalSummaryView>, FailureView>(
            Seq::empty(),
        ),
    decreases entries.len() - cursor,
{
    if cursor < entries.len() {
        no_definitions_no_summaries(files, entries, cursor + 1);
        assert(entries[cursor] is Entry);
    }
}

/// A directory of definitions that holds no definition file lists nothing,
/// and that is no failure.
pub proof fn no_matching_files_list_nothing(w: World, project: Seq<char>, entries: Seq<ListedView>)
    requires
        w.listings.contains_key(evals_dir(project)),
        w.listings[evals_dir(project)] == entries,
        no_definitions(entries, 0),
    ensures
        comes_to(listing_evals(), evals_start(project), w, Ok(Seq::empty())),
{
    listing_gives_the_summaries(w, project, entries);
    no_definitions_no_summaries(w.files, entries, 0);
    assert(Seq::<EvalSummaryView>::empty() + Seq::<EvalSummaryView>::empty() =~= Seq::empty());
    assert(ranked(Seq::<EvalSummaryView>::empty(), summary_rank()) =~= Seq::empty());
}

/// Entries that hold a definition file that cannot be loaded give a
/// failure, whatever else they hold.
pub proof fn one_flaw_fails_all(
    files: Map<Seq<char>, Seq<char>>,
    entries: Seq<ListedView>,
    cursor: int,
    k: int,
)
    requires
        0 <= cursor <= k < entries.len(),
        entries[k] matches ListedView::Entry { path, kind } && kind == EntryKind::File
            && is_yaml_path(path) && loaded(files, path) is Err,
    ensures
        summaries_from(files, entries, cursor) is Err,
    decreases k - cursor,
{
    if cursor < k {
        one_flaw_fails_all(files, entries, cursor + 1, k);
    }
}

/// One definition file that cannot be loaded, whether it cannot be read or
/// cannot be parsed, makes the whole listing fail, however many other
/// definitions are sound.
pub proof fn one_malformed_definition_fails_the_listing(
    w: World,
    project: Seq<char>,
    entries: Seq<ListedView>,
    k: int,
)
    requires
        w.listings.contains_key(evals_dir(project)),
        w.listings[evals_dir(project)] == entries,
        0 <= k < entries.len(),
        entries[k] matches ListedView::Entry { path, kind } && kind == EntryKind::File
            && is_yaml_path(path) && loaded(w.files, path) is Err,
    ensures
        exists|f: FailureView|
            #![trigger comes_to(listing_evals(), evals_start(project), w, Err(f))]
            comes_to(listing_evals(), evals_start(project), w, Err(f)),
{
    listing_gives_the_summaries(w, project, entries);
    one_flaw_fails_all(w.files, entries, 0, k);
    let f = summaries_from(w.files, entries, 0)->Err_0;
    assert(comes_to(listing_evals(), evals_start(project), w, Err(f)));
}

/// The creation of a project with its store, with `id` and `now` at hand
/// for its manifest, as a function from state and reply to the next step.
pub open spec fn creating_with_store(id: u128, now: Timestamp) -> spec_fn(
    WithStoreView<CreateProjectView>,
    ReplyView,
) -> StepView<WithStoreView<CreateProjectView>, ProjectInfoView> {
    |state: WithStoreView<CreateProjectView>, reply: ReplyView|
        create_command_next(state, reply, id, now)
}

/// A blank name is refused with `NameRequired` whatever the path and
/// whatever the host holds, and the host is asked for nothing.
pub proof fn blank_name_is_refused(
    w: World,
    path: Seq<char>,
    name: Seq<char>,
    id: u128,
    now: Timestamp,
)
    requires
        is_blank(name),
    ensures
        create_start(path, name) == StepView::<CreateProjectView, ProjectInfoView>::Finish(
            Err(plain_failure(ErrorKind::NameRequired, "Project name is required"@)),
        ),
        run(creating_with_store(id, now), then_store(create_start(path, name)), w, 0) == Some(
            (
                Err::<ProjectInfoView, FailureView>(
                    plain_failure(ErrorKind::NameRequired, "Project name is required"@),
                ),
                w,
            ),
        ),
{
}

/// A creation with store that succeeds gives the project at the absolute
/// form of the path, with the trimmed name, the first version and the
/// store path under the root, and leaves the manifest at the root. It
/// takes thirteen requests.
pub proof fn creation_with_store_writes_manifest(
    w: World,
    path: Seq<char>,
    name: Seq<char>,
    id: u128,
    now: Timestamp,
    fuel: nat,
)
    requires
        run(creating_with_store(id, now), then_store(create_start(path, name)), w, fuel)
            matches Some((Ok(_), _)),
    ensures
        ({
            let m = new_manifest(trimmed(name), id, now);
            let end = run(
                creating_with_store(id, now),
                then_store(create_start(path, name)),
                w,
                fuel,
            )->0;
            let root = absolute_in(w.base, path);
            &&& is_absolute(root)
            &&& end.0 == Ok::<ProjectInfoView, FailureView>(info_of(m, root))
            &&& end.1.base == w.base
            &&& end.1.files.contains_key(manifest_path(root))
        }),
{
    absolute_in_is_absolute(w.base, path);
    reveal_with_fuel(run, 14);
    let next = creating_with_store(id, now);
    let start = then_store(create_start(path, name));
    if fuel < 13 {
        run_needs_no_more(next, start, w, fuel, 13);
    } else {
        assert(run(next, start, w, 13) is Some);
        run_needs_no_more(next, start, w, 13, fuel);
    }
}

/// Creating a project, store included, twice at one root: where the first
/// creation succeeds, the second is refused with `AlreadyInitialized`,
/// whatever name, identifier and instant it comes with.
pub proof fn second_creation_with_store_is_refused(
    w: World,
    path: Seq<char>,
    first_name: Seq<char>,
    first_id: u128,
    first_now: Timestamp,
    first_fuel: nat,
    second_name: Seq<char>,
    second_id: u128,
    second_now: Timestamp,
)
    requires
        run(
            creating_with_store(first_id, first_now),
            then_store(create_start(path, first_name)),
            w,
            first_fuel,
        ) matches Some((Ok(_), _)),
        !is_blank(second_name),
    ensures
        ({
            let end = run(
                creating_with_store(first_id, first_now),
                then_store(create_start(path, first_name)),
                w,
                first_fuel,
            )->0;
            run(
                creating_with_store(second_id, second_now),
                then_store(create_start(path, second_name)),
                end.1,
                3,
            ) matches Some((Err(f), _)) && f == plain_failure(
                ErrorKind::AlreadyInitialized,
                "Assay.toml already exists in this directory"@,
            )
        }),
{
    creation_with_store_writes_manifest(w, path, first_name, first_id, first_now, first_fuel);
    absolute_in_is_absolute(w.base, path);
    reveal_with_fuel(run, 4);
}

} // verus!
