//! The life of a project on disk: creating one, opening one, and listing
//! those under a directory. Each operation is a small machine that asks
//! its host for one thing at a time. A machine can only be made by the
//! function that begins its operation, and only be changed by resuming it,
//! so every project it hands out lies at an absolute path.

use crate::failure::{failure, ErrorKind, Failure, FailureView};
use crate::host::{
    refusal, refusal_text, resolved, take_absolute, EntryKind, Listed, ListedView, Reply,
    ReplyView, Request, RequestView, Step, StepView,
};
use crate::manifest::{
    manifest_of, manifest_text, parse_manifest, render_manifest, ProjectManifest,
    ProjectManifestView,
};
use crate::order::{
    lex_le_pair, rank_of, ranked, ranked_is_ordered_permutation, ranked_maps, sort_by_rank,
    Ranked,
};
use crate::paths::{is_absolute, is_absolute_path, join, joined};
use crate::stamp::{clock_now, fresh_id, instant_rank, instant_text, Timestamp};
use crate::text::{is_blank, is_blank_text, trim, trimmed};
use vstd::prelude::*;
use vstd::string::*;

verus! {

/// A project as callers see it: its manifest, where it lies, and where its
/// store lies.
#[derive(Clone, Debug)]
pub struct ProjectInfo {
    pub id: u128,
    pub name: String,
    pub path: String,
    pub created_at: Timestamp,
    pub version: String,
    pub db_path: String,
}

/// The mathematical form of [`ProjectInfo`].
pub struct ProjectInfoView {
    pub id: u128,
    pub name: Seq<char>,
    pub path: Seq<char>,
    pub created_at: Timestamp,
    pub version: Seq<char>,
    pub db_path: Seq<char>,
}

impl DeepView for ProjectInfo {
    type V = ProjectInfoView;

    open spec fn deep_view(&self) -> ProjectInfoView {
        ProjectInfoView {
            id: self.id,
            name: self.name@,
            path: self.path@,
            created_at: self.created_at,
            version: self.version@,
            db_path: self.db_path@,
        }
    }
}

/// Where the manifest of the project at `root` lies.
pub open spec fn manifest_path(root: Seq<char>) -> Seq<char> {
    joined(root, "Assay.toml"@)
}

/// The directory of the project at `root` that the library keeps for
/// itself.
pub open spec fn internal_dir(root: Seq<char>) -> Seq<char> {
    joined(root, ".assay"@)
}

/// Where the store of the project at `root` lies.
pub open spec fn store_path(root: Seq<char>) -> Seq<char> {
    joined(internal_dir(root), "assay.db"@)
}

/// The name of the `i`-th of the five directories of a new project.
pub open spec fn layout_dir(i: int) -> Seq<char> {
    if i == 0 {
        "evals"@
    } else if i == 1 {
        "datasets"@
    } else if i == 2 {
        "results"@
    } else if i == 3 {
        "models"@
    } else {
        "plugins"@
    }
}

/// The version that a new manifest is stamped with.
pub open spec fn first_version() -> Seq<char> {
    "0.1.0"@
}

/// What callers see of the project at `root` whose manifest is `m`.
pub open spec fn info_of(m: ProjectManifestView, root: Seq<char>) -> ProjectInfoView {
    ProjectInfoView {
        id: m.id,
        name: m.name,
        path: root,
        created_at: m.created_at,
        version: m.version,
        db_path: store_path(root),
    }
}

/// The project lies at an absolute path, and its store where the path
/// puts it.
pub open spec fn placed_well(info: ProjectInfoView) -> bool {
    is_absolute(info.path) && info.db_path == store_path(info.path)
}

/// Every project of the list lies at an absolute path.
pub open spec fn all_placed_well(list: Seq<ProjectInfoView>) -> bool {
    forall|i: int| 0 <= i < list.len() ==> placed_well(#[trigger] list[i])
}

/// The failure whose message is `message`.
pub open spec fn plain_failure(kind: ErrorKind, message: Seq<char>) -> FailureView {
    FailureView { kind, message }
}

/// Composes what callers see of a project.
pub fn compose_info(m: ProjectManifest, root: &str) -> (r: ProjectInfo)
    ensures
        r.deep_view() == info_of(m.deep_view(), root@),
{
    let internal = join(root, ".assay");
    ProjectInfo {
        id: m.id,
        name: m.name,
        path: String::from_str(root),
        created_at: m.created_at,
        version: m.version,
        db_path: join(internal.as_str(), "assay.db"),
    }
}

/// The name of one of the five directories of a new project.
pub fn layout_name(index: u8) -> (r: &'static str)
    ensures
        r@ == layout_dir(index as int),
{
    if index == 0 {
        "evals"
    } else if index == 1 {
        "datasets"
    } else if index == 2 {
        "results"
    } else if index == 3 {
        "models"
    } else {
        "plugins"
    }
}

impl Ranked for ProjectInfo {
    open spec fn rank(&self) -> Seq<int> {
        instant_rank(self.created_at)
    }

    fn not_after(&self, other: &Self) -> (b: bool) {
        proof {
            lex_le_pair(
                self.created_at.secs as int,
                self.created_at.nanos as int,
                other.created_at.secs as int,
                other.created_at.nanos as int,
            );
        }
        self.created_at.secs < other.created_at.secs || (self.created_at.secs
            == other.created_at.secs && self.created_at.nanos <= other.created_at.nanos)
    }
}

/// The rank of a project in a listing: the instant of its creation.
pub open spec fn info_rank() -> spec_fn(ProjectInfoView) -> Seq<int> {
    |p: ProjectInfoView| instant_rank(p.created_at)
}

#[derive(Debug)]
enum CreateStage {
    Resolve { path: String, name: String },
    Root { path: String, name: String },
    Probe { path: String, name: String },
    Manifest { info: ProjectInfo },
    Layout { info: ProjectInfo, index: u8 },
    Internal { info: ProjectInfo },
}

/// The creation of a project, between two requests.
#[derive(Debug)]
pub struct CreateProject {
    stage: CreateStage,
}

/// Where the creation of a project stands.
pub enum CreateProjectView {
    /// The host is making the path of the root absolute.
    Resolve { path: Seq<char>, name: Seq<char> },
    /// The root directory is being created.
    Root { path: Seq<char>, name: Seq<char> },
    /// The host is looking for a manifest at the root.
    Probe { path: Seq<char>, name: Seq<char> },
    /// The manifest is being written.
    Manifest { info: ProjectInfoView },
    /// The directory `layout_dir(index)` is being created.
    Layout { info: ProjectInfoView, index: u8 },
    /// The internal directory is being created.
    Internal { info: ProjectInfoView },
}

/// What holds of a creation between two requests: once the root is
/// resolved its path is absolute, and the project that will be handed out
/// lies there.
pub open spec fn create_sound(state: CreateProjectView) -> bool {
    match state {
        CreateProjectView::Resolve { path, name } => true,
        CreateProjectView::Root { path, name } => is_absolute(path),
        CreateProjectView::Probe { path, name } => is_absolute(path),
        CreateProjectView::Manifest { info } => placed_well(info),
        CreateProjectView::Layout { info, index } => placed_well(info),
        CreateProjectView::Internal { info } => placed_well(info),
    }
}

impl DeepView for CreateProject {
    type V = CreateProjectView;

    closed spec fn deep_view(&self) -> CreateProjectView {
        match self.stage {
            CreateStage::Resolve { path, name } => CreateProjectView::Resolve {
                path: path@,
                name: name@,
            },
            CreateStage::Root { path, name } => CreateProjectView::Root {
                path: path@,
                name: name@,
            },
            CreateStage::Probe { path, name } => CreateProjectView::Probe {
                path: path@,
                name: name@,
            },
            CreateStage::Manifest { info } => CreateProjectView::Manifest {
                info: info.deep_view(),
            },
            CreateStage::Layout { info, index } => CreateProjectView::Layout {
                info: info.deep_view(),
                index,
            },
            CreateStage::Internal { info } => CreateProjectView::Internal {
                info: info.deep_view(),
            },
        }
    }
}

/// How the creation of the project `name` at `path` begins: a name that
/// is blank is refused before the host is asked for anything; otherwise
/// the host is asked for the absolute form of the path.
pub open spec fn create_start(path: Seq<char>, name: Seq<char>) -> StepView<
    CreateProjectView,
    ProjectInfoView,
> {
    if is_blank(name) {
        StepView::Finish(Err(plain_failure(ErrorKind::NameRequired, "Project name is required"@)))
    } else {
        StepView::Ask(
            CreateProjectView::Resolve { path, name: trimmed(name) },
            RequestView::Absolute { path },
        )
    }
}

/// The manifest of a new project.
pub open spec fn new_manifest(name: Seq<char>, id: u128, now: Timestamp) -> ProjectManifestView {
    ProjectManifestView { id, name, created_at: now, version: first_version() }
}

/// How the creation of a project goes on after `reply`, where `id` and
/// `now` are the identifier and the instant at hand for a new manifest.
/// The root is the absolute path that the host hands back. Each request
/// after that must be answered with `Done`, and any other reply ends the
/// creation with a failure; but the probe for a manifest finds one only
/// where the reply says so, and otherwise the root counts as free.
pub open spec fn create_next(
    state: CreateProjectView,
    reply: ReplyView,
    id: u128,
    now: Timestamp,
) -> StepView<CreateProjectView, ProjectInfoView> {
    match state {
        CreateProjectView::Resolve { path, name } => match resolved(reply) {
            Ok(root) => StepView::Ask(
                CreateProjectView::Root { path: root, name },
                RequestView::CreateDirs { path: root },
            ),
            Err(d) => StepView::Finish(
                Err(failure(ErrorKind::DirectoryCreate, "Failed to create project directory: "@, d)),
            ),
        },
        CreateProjectView::Root { path, name } => match reply {
            ReplyView::Done => StepView::Ask(
                CreateProjectView::Probe { path, name },
                RequestView::Exists { path: manifest_path(path) },
            ),
            _ => StepView::Finish(
                Err(
                    failure(
                        ErrorKind::DirectoryCreate,
                        "Failed to create project directory: "@,
                        refusal(reply),
                    ),
                ),
            ),
        },
        CreateProjectView::Probe { path, name } => match reply {
            ReplyView::Found(true) => StepView::Finish(
                Err(
                    plain_failure(
                        ErrorKind::AlreadyInitialized,
                        "Assay.toml already exists in this directory"@,
                    ),
                ),
            ),
            _ => match manifest_text(new_manifest(name, id, now)) {
                Err(d) => StepView::Finish(
                    Err(failure(ErrorKind::ManifestMalformed, "TOML error: "@, d)),
                ),
                Ok(text) => StepView::Ask(
                    CreateProjectView::Manifest { info: info_of(new_manifest(name, id, now), path) },
                    RequestView::Write { path: manifest_path(path), contents: text },
                ),
            },
        },
        CreateProjectView::Manifest { info } => match reply {
            ReplyView::Done => StepView::Ask(
                CreateProjectView::Layout { info, index: 0 },
                RequestView::CreateDirs { path: joined(info.path, layout_dir(0)) },
            ),
            _ => StepView::Finish(
                Err(
                    failure(
                        ErrorKind::ManifestWrite,
                        "Failed to write Assay.toml: "@,
                        refusal(reply),
                    ),
                ),
            ),
        },
        CreateProjectView::Layout { info, index } => match reply {
            ReplyView::Done => if index < 4 {
                StepView::Ask(
                    CreateProjectView::Layout { info, index: (index + 1) as u8 },
                    RequestView::CreateDirs { path: joined(info.path, layout_dir(index + 1)) },
                )
            } else {
                StepView::Ask(
                    CreateProjectView::Internal { info },
                    RequestView::CreateDirs { path: internal_dir(info.path) },
                )
            },
            _ => StepView::Finish(
                Err(
                    failure(
                        ErrorKind::DirectoryCreate,
                        "Failed to create "@ + layout_dir(index as int) + " directory: "@,
                        refusal(reply),
                    ),
                ),
            ),
        },
        CreateProjectView::Internal { info } => match reply {
            ReplyView::Done => StepView::Finish(Ok(info)),
            _ => StepView::Finish(
                Err(
                    failure(
                        ErrorKind::DirectoryCreate,
                        "Failed to create internal directory: "@,
                        refusal(reply),
                    ),
                ),
            ),
        },
    }
}

/// A creation that is sound stays sound, and the project it ends with lies
/// at an absolute path, with its store below it.
pub proof fn creation_stays_sound(
    state: CreateProjectView,
    reply: ReplyView,
    id: u128,
    now: Timestamp,
)
    requires
        create_sound(state),
    ensures
        match create_next(state, reply, id, now) {
            StepView::Ask(after, _) => create_sound(after),
            StepView::Finish(Ok(info)) => placed_well(info),
            StepView::Finish(Err(_)) => true,
        },
{
}

/// What holds of the identifier and the instant that a creation draws
/// where a manifest is due: the identifier is a random one by its version
/// and variant fields, and the instant is one that has a text form. In
/// every other state neither is drawn, nor looked at.
pub open spec fn stamped(state: CreateProjectView, id: u128, now: Timestamp) -> bool {
    state is Probe ==> instant_text(now.secs as int, now.nanos as int) is Some && id
        & 0x0000_0000_0000_f000_c000_0000_0000_0000 == 0x0000_0000_0000_4000_8000_0000_0000_0000
}

/// Begins the creation of the project `name` at `path`.
pub fn create_project(path: &str, name: &str) -> (r: Step<CreateProject, ProjectInfo>)
    ensures
        r.deep_view() == create_start(path@, name@),
{
    if is_blank_text(name) {
        return Step::Finish(
            Err(
                Failure {
                    kind: ErrorKind::NameRequired,
                    message: String::from_str("Project name is required"),
                },
            ),
        );
    }
    Step::Ask(
        CreateProject {
            stage: CreateStage::Resolve { path: String::from_str(path), name: trim(name) },
        },
        Request::Absolute { path: String::from_str(path) },
    )
}

impl CreateProject {
    #[verifier::type_invariant]
    spec fn sound(self) -> bool {
        create_sound(self.deep_view())
    }

    /// Goes on after `reply`, with `id` and `now` at hand for a new
    /// manifest. A project that is handed out lies at an absolute path.
    pub fn resume_with(self, reply: Reply, id: u128, now: Timestamp) -> (r: Step<
        CreateProject,
        ProjectInfo,
    >)
        ensures
            r.deep_view() == create_next(self.deep_view(), reply.deep_view(), id, now),
            r matches Step::Finish(Ok(info)) ==> placed_well(info.deep_view()),
    {
        proof {
            use_type_invariant(&self);
        }
        match self.stage {
            CreateStage::Resolve { path, name } => match take_absolute(reply) {
                Ok(root) => {
                    let target = root.clone();
                    Step::Ask(
                        CreateProject { stage: CreateStage::Root { path: root, name } },
                        Request::CreateDirs { path: target },
                    )
                },
                Err(d) => Step::Finish(
                    Err(
                        Failure::new(
                            ErrorKind::DirectoryCreate,
                            "Failed to create project directory: ",
                            d.as_str(),
                        ),
                    ),
                ),
            },
            CreateStage::Root { path, name } => match reply {
                Reply::Done => {
                    let manifest = join(path.as_str(), "Assay.toml");
                    Step::Ask(
                        CreateProject { stage: CreateStage::Probe { path, name } },
                        Request::Exists { path: manifest },
                    )
                },
                other => Step::Finish(
                    Err(
                        Failure::new(
                            ErrorKind::DirectoryCreate,
                            "Failed to create project directory: ",
                            refusal_text(other).as_str(),
                        ),
                    ),
                ),
            },
            CreateStage::Probe { path, name } => match reply {
                Reply::Found(true) => Step::Finish(
                    Err(
                        Failure {
                            kind: ErrorKind::AlreadyInitialized,
                            message: String::from_str(
                                "Assay.toml already exists in this directory",
                            ),
                        },
                    ),
                ),
                _ => {
                    let manifest = ProjectManifest {
                        id,
                        name,
                        created_at: now,
                        version: String::from_str("0.1.0"),
                    };
                    match render_manifest(&manifest) {
                        Err(d) => Step::Finish(
                            Err(
                                Failure::new(
                                    ErrorKind::ManifestMalformed,
                                    "TOML error: ",
                                    d.as_str(),
                                ),
                            ),
                        ),
                        Ok(text) => {
                            let target = join(path.as_str(), "Assay.toml");
                            let info = compose_info(manifest, path.as_str());
                            Step::Ask(
                                CreateProject { stage: CreateStage::Manifest { info } },
                                Request::Write { path: target, contents: text },
                            )
                        },
                    }
                },
            },
            CreateStage::Manifest { info } => match reply {
                Reply::Done => {
                    let dir = join(info.path.as_str(), layout_name(0));
                    Step::Ask(
                        CreateProject { stage: CreateStage::Layout { info, index: 0 } },
                        Request::CreateDirs { path: dir },
                    )
                },
                other => Step::Finish(
                    Err(
                        Failure::new(
                            ErrorKind::ManifestWrite,
                            "Failed to write Assay.toml: ",
                            refusal_text(other).as_str(),
                        ),
                    ),
                ),
            },
            CreateStage::Layout { info, index } => match reply {
                Reply::Done => {
                    if index < 4 {
                        let dir = join(info.path.as_str(), layout_name(index + 1));
                        Step::Ask(
                            CreateProject {
                                stage: CreateStage::Layout { info, index: index + 1 },
                            },
                            Request::CreateDirs { path: dir },
                        )
                    } else {
                        let dir = join(info.path.as_str(), ".assay");
                        Step::Ask(
                            CreateProject { stage: CreateStage::Internal { info } },
                            Request::CreateDirs { path: dir },
                        )
                    }
                },
                other => {
                    let lead = String::from_str("Failed to create ").concat(
                        layout_name(index),
                    ).concat(" directory: ");
                    Step::Finish(
                        Err(
                            Failure::new(
                                ErrorKind::DirectoryCreate,
                                lead.as_str(),
                                refusal_text(other).as_str(),
                            ),
                        ),
                    )
                },
            },
            CreateStage::Internal { info } => match reply {
                Reply::Done => Step::Finish(Ok(info)),
                other => Step::Finish(
                    Err(
                        Failure::new(
                            ErrorKind::DirectoryCreate,
                            "Failed to create internal directory: ",
                            refusal_text(other).as_str(),
                        ),
                    ),
                ),
            },
        }
    }

    /// Goes on after `reply`. Where a manifest is due, its identifier is
    /// drawn at random and its instant is read from the clock. A project
    /// that is handed out lies at an absolute path.
    pub fn resume(self, reply: Reply) -> (r: Step<CreateProject, ProjectInfo>)
        ensures
            exists|id: u128, now: Timestamp|
                stamped(self.deep_view(), id, now) && r.deep_view() == #[trigger] create_next(
                    self.deep_view(),
                    reply.deep_view(),
                    id,
                    now,
                ),
            r matches Step::Finish(Ok(info)) ==> placed_well(info.deep_view()),
    {
        match &self.stage {
            CreateStage::Probe { .. } => {
                let id = fresh_id();
                let now = clock_now();
                self.resume_with(reply, id, now)
            },
            _ => self.resume_with(reply, 0, Timestamp { secs: 0, nanos: 0 }),
        }
    }
}

#[derive(Debug)]
enum OpenStage {
    Resolve { path: String },
    Manifest { path: String },
    Internal { info: ProjectInfo },
}

/// The opening of a project, between two requests.
#[derive(Debug)]
pub struct OpenProject {
    stage: OpenStage,
}

/// Where the opening of a project stands.
pub enum OpenProjectView {
    /// The host is making the path of the root absolute.
    Resolve { path: Seq<char> },
    /// The manifest is being read.
    Manifest { path: Seq<char> },
    /// The internal directory is being created.
    Internal { info: ProjectInfoView },
}

/// What holds of an opening between two requests: once the root is
/// resolved its path is absolute, and the project that will be handed out
/// lies there.
pub open spec fn open_sound(state: OpenProjectView) -> bool {
    match state {
        OpenProjectView::Resolve { path } => true,
        OpenProjectView::Manifest { path } => is_absolute(path),
        OpenProjectView::Internal { info } => placed_well(info),
    }
}

impl DeepView for OpenProject {
    type V = OpenProjectView;

    closed spec fn deep_view(&self) -> OpenProjectView {
        match self.stage {
            OpenStage::Resolve { path } => OpenProjectView::Resolve { path: path@ },
            OpenStage::Manifest { path } => OpenProjectView::Manifest { path: path@ },
            OpenStage::Internal { info } => OpenProjectView::Internal { info: info.deep_view() },
        }
    }
}

/// How the opening of the project at `path` begins.
pub open spec fn open_start(path: Seq<char>) -> StepView<OpenProjectView, ProjectInfoView> {
    StepView::Ask(OpenProjectView::Resolve { path }, RequestView::Absolute { path })
}

/// How the opening of a project goes on after `reply`: the root is the
/// absolute path that the host hands back; a manifest that cannot be read
/// or parsed ends the opening with a failure, and so does an internal
/// directory that cannot be created.
pub open spec fn open_next(state: OpenProjectView, reply: ReplyView) -> StepView<
    OpenProjectView,
    ProjectInfoView,
> {
    match state {
        OpenProjectView::Resolve { path } => match resolved(reply) {
            Ok(root) => StepView::Ask(
                OpenProjectView::Manifest { path: root },
                RequestView::Read { path: manifest_path(root) },
            ),
            Err(d) => StepView::Finish(
                Err(failure(ErrorKind::ManifestUnreadable, "Assay.toml error: "@, d)),
            ),
        },
        OpenProjectView::Manifest { path } => match reply {
            ReplyView::Text(text) => match manifest_of(text) {
                Err(d) => StepView::Finish(
                    Err(failure(ErrorKind::ManifestMalformed, "TOML error: "@, d)),
                ),
                Ok(m) => StepView::Ask(
                    OpenProjectView::Internal { info: info_of(m, path) },
                    RequestView::CreateDirs { path: internal_dir(path) },
                ),
            },
            _ => StepView::Finish(
                Err(failure(ErrorKind::ManifestUnreadable, "Assay.toml error: "@, refusal(reply))),
            ),
        },
        OpenProjectView::Internal { info } => match reply {
            ReplyView::Done => StepView::Finish(Ok(info)),
            _ => StepView::Finish(
                Err(
                    failure(
                        ErrorKind::DirectoryCreate,
                        "Failed to create internal directory: "@,
                        refusal(reply),
                    ),
                ),
            ),
        },
    }
}

/// An opening that is sound stays sound, and the project it ends with lies
/// at an absolute path, with its store below it.
pub proof fn opening_stays_sound(state: OpenProjectView, reply: ReplyView)
    requires
        open_sound(state),
    ensures
        match open_next(state, reply) {
            StepView::Ask(after, _) => open_sound(after),
            StepView::Finish(Ok(info)) => placed_well(info),
            StepView::Finish(Err(_)) => true,
        },
{
}

/// Begins the opening of the project at `path`.
pub fn open_project(path: &str) -> (r: Step<OpenProject, ProjectInfo>)
    ensures
        r.deep_view() == open_start(path@),
{
    Step::Ask(
        OpenProject { stage: OpenStage::Resolve { path: String::from_str(path) } },
        Request::Absolute { path: String::from_str(path) },
    )
}

impl OpenProject {
    #[verifier::type_invariant]
    spec fn sound(self) -> bool {
        open_sound(self.deep_view())
    }

    /// Goes on after `reply`. A project that is handed out lies at an
    /// absolute path.
    pub fn resume(self, reply: Reply) -> (r: Step<OpenProject, ProjectInfo>)
        ensures
            r.deep_view() == open_next(self.deep_view(), reply.deep_view()),
            r matches Step::Finish(Ok(info)) ==> placed_well(info.deep_view()),
    {
        proof {
            use_type_invariant(&self);
        }
        match self.stage {
            OpenStage::Resolve { path } => match take_absolute(reply) {
                Ok(root) => {
                    let target = join(root.as_str(), "Assay.toml");
                    Step::Ask(
                        OpenProject { stage: OpenStage::Manifest { path: root } },
                        Request::Read { path: target },
                    )
                },
                Err(d) => Step::Finish(
                    Err(
                        Failure::new(ErrorKind::ManifestUnreadable, "Assay.toml error: ", d.as_str()),
                    ),
                ),
            },
            OpenStage::Manifest { path } => match reply {
                Reply::Text(text) => match parse_manifest(text.as_str()) {
                    Err(d) => Step::Finish(
                        Err(Failure::new(ErrorKind::ManifestMalformed, "TOML error: ", d.as_str())),
                    ),
                    Ok(m) => {
                        let dir = join(path.as_str(), ".assay");
                        let info = compose_info(m, path.as_str());
                        Step::Ask(
                            OpenProject { stage: OpenStage::Internal { info } },
                            Request::CreateDirs { path: dir },
                        )
                    },
                },
                other => Step::Finish(
                    Err(
                        Failure::new(
                            ErrorKind::ManifestUnreadable,
                            "Assay.toml error: ",
                            refusal_text(other).as_str(),
                        ),
                    ),
                ),
            },
            OpenStage::Internal { info } => match reply {
                Reply::Done => Step::Finish(Ok(info)),
                other => Step::Finish(
                    Err(
                        Failure::new(
                            ErrorKind::DirectoryCreate,
                            "Failed to create internal directory: ",
                            refusal_text(other).as_str(),
                        ),
                    ),
                ),
            },
        }
    }
}

#[derive(Debug)]
enum ListStage {
    Resolve,
    Listing,
    Probe,
    Opening(OpenProject),
}

/// The listing of the projects under a directory, between two requests.
#[derive(Debug)]
pub struct ListProjects {
    entries: Vec<Listed>,
    cursor: usize,
    found: Vec<ProjectInfo>,
    stage: ListStage,
}

/// What a listing is waiting for.
pub enum ListStageView {
    /// The absolute form of the root.
    Resolve,
    /// The entries of the root.
    Listing,
    /// Whether the entry at the cursor holds a manifest.
    Probe,
    /// The opening of the project at the cursor.
    Opening(OpenProjectView),
}

/// Where the listing of the projects under a directory stands: the entries
/// of the directory, the entry it is at, and the projects opened so far.
pub struct ListProjectsView {
    pub entries: Seq<ListedView>,
    pub cursor: int,
    pub found: Seq<ProjectInfoView>,
    pub stage: ListStageView,
}

impl DeepView for ListProjects {
    type V = ListProjectsView;

    closed spec fn deep_view(&self) -> ListProjectsView {
        ListProjectsView {
            entries: self.entries.deep_view(),
            cursor: self.cursor as int,
            found: self.found.deep_view(),
            stage: match self.stage {
                ListStage::Resolve => ListStageView::Resolve,
                ListStage::Listing => ListStageView::Listing,
                ListStage::Probe => ListStageView::Probe,
                ListStage::Opening(open) => ListStageView::Opening(open.deep_view()),
            },
        }
    }
}

/// How the listing of the projects under `root` begins.
pub open spec fn list_start(root: Seq<char>) -> StepView<ListProjectsView, Seq<ProjectInfoView>> {
    StepView::Ask(
        ListProjectsView {
            entries: Seq::empty(),
            cursor: 0,
            found: Seq::empty(),
            stage: ListStageView::Resolve,
        },
        RequestView::Absolute { path: root },
    )
}

/// The listing looks at the entries from `cursor` on. A break in the
/// stream of entries ends the listing with a failure. An entry whose kind
/// could not be told is passed over, and so is one that is no directory or
/// does not lie at an absolute path; for a directory the host is asked
/// whether it holds a manifest. After the last entry the listing ends with
/// the projects found, ordered by their creation.
pub open spec fn list_seek(
    entries: Seq<ListedView>,
    cursor: int,
    found: Seq<ProjectInfoView>,
) -> StepView<ListProjectsView, Seq<ProjectInfoView>>
    decreases entries.len() - cursor,
{
    if cursor < 0 || cursor >= entries.len() {
        StepView::Finish(Ok(ranked(found, info_rank())))
    } else {
        match entries[cursor] {
            ListedView::NoEntry { message } => StepView::Finish(
                Err(failure(ErrorKind::Enumeration, "Directory entry error: "@, message)),
            ),
            ListedView::NoKind { message } => list_seek(entries, cursor + 1, found),
            ListedView::Entry { path, kind } => if kind == EntryKind::Directory && is_absolute(
                path,
            ) {
                StepView::Ask(
                    ListProjectsView { entries, cursor, found, stage: ListStageView::Probe },
                    RequestView::Exists { path: manifest_path(path) },
                )
            } else {
                list_seek(entries, cursor + 1, found)
            },
        }
    }
}

/// The absolute path of the entry at the cursor, where there is one.
pub open spec fn entry_path(entries: Seq<ListedView>, cursor: int) -> Option<Seq<char>> {
    if 0 <= cursor < entries.len() {
        match entries[cursor] {
            ListedView::Entry { path, kind } => if is_absolute(path) {
                Some(path)
            } else {
                None
            },
            _ => None,
        }
    } else {
        None
    }
}

/// How a listing goes on after `reply`. Only a root that cannot be made
/// absolute or cannot be listed, and a break in the stream of its entries,
/// fail the listing. A directory without a manifest is passed over, and so
/// is one whose project cannot be opened.
pub open spec fn list_next(state: ListProjectsView, reply: ReplyView) -> StepView<
    ListProjectsView,
    Seq<ProjectInfoView>,
> {
    match state.stage {
        ListStageView::Resolve => match resolved(reply) {
            Ok(root) => StepView::Ask(
                ListProjectsView {
                    entries: state.entries,
                    cursor: state.cursor,
                    found: state.found,
                    stage: ListStageView::Listing,
                },
                RequestView::List { path: root },
            ),
            Err(d) => StepView::Finish(
                Err(failure(ErrorKind::Enumeration, "Failed to read directory: "@, d)),
            ),
        },
        ListStageView::Listing => match reply {
            ReplyView::Entries(entries) => list_seek(entries, 0, state.found),
            _ => StepView::Finish(
                Err(failure(ErrorKind::Enumeration, "Failed to read directory: "@, refusal(reply))),
            ),
        },
        ListStageView::Probe => match (reply, entry_path(state.entries, state.cursor)) {
            (ReplyView::Found(true), Some(path)) => StepView::Ask(
                ListProjectsView {
                    entries: state.entries,
                    cursor: state.cursor,
                    found: state.found,
                    stage: ListStageView::Opening(OpenProjectView::Manifest { path }),
                },
                RequestView::Read { path: manifest_path(path) },
            ),
            _ => list_seek(state.entries, state.cursor + 1, state.found),
        },
        ListStageView::Opening(open) => match open_next(open, reply) {
            StepView::Ask(open, request) => StepView::Ask(
                ListProjectsView {
                    entries: state.entries,
                    cursor: state.cursor,
                    found: state.found,
                    stage: ListStageView::Opening(open),
                },
                request,
            ),
            StepView::Finish(Ok(info)) => list_seek(
                state.entries,
                state.cursor + 1,
                state.found.push(info),
            ),
            StepView::Finish(Err(_)) => list_seek(state.entries, state.cursor + 1, state.found),
        },
    }
}

/// Ranking keeps the projects where they lie.
pub proof fn ranked_stay_placed(found: Seq<ProjectInfoView>)
    requires
        all_placed_well(found),
    ensures
        all_placed_well(ranked(found, info_rank())),
{
    let out = ranked(found, info_rank());
    ranked_is_ordered_permutation(found, info_rank());
    assert forall|i: int| 0 <= i < out.len() implies placed_well(#[trigger] out[i]) by {
        found.to_multiset_ensures();
        out.to_multiset_ensures();
        assert(out.contains(out[i]));
        assert(out.to_multiset().count(out[i]) > 0);
        assert(found.to_multiset().count(out[i]) > 0);
        assert(found.contains(out[i]));
        let j = choose|j: int| 0 <= j < found.len() && found[j] == out[i];
        assert(placed_well(found[j]));
    }
}

/// Begins the listing of the projects under `root`.
pub fn list_projects(root: &str) -> (r: Step<ListProjects, Vec<ProjectInfo>>)
    ensures
        r.deep_view() == list_start(root@),
{
    let state = ListProjects {
        entries: Vec::new(),
        cursor: 0,
        found: Vec::new(),
        stage: ListStage::Resolve,
    };
    assert(state.entries.deep_view() =~= Seq::empty());
    assert(state.found.deep_view() =~= Seq::empty());
    Step::Ask(state, Request::Absolute { path: String::from_str(root) })
}

/// Orders the projects found by their creation.
pub fn order_projects(found: Vec<ProjectInfo>) -> (r: Vec<ProjectInfo>)
    ensures
        r.deep_view() == ranked(found.deep_view(), info_rank()),
        all_placed_well(found.deep_view()) ==> all_placed_well(r.deep_view()),
{
    let ghost form = |p: ProjectInfo| p.deep_view();
    let out = sort_by_rank(found);
    proof {
        ranked_maps(found@, form, rank_of::<ProjectInfo>(), info_rank());
        assert(found@.map_values(form) =~= found.deep_view());
        assert(out@.map_values(form) =~= out.deep_view());
        if all_placed_well(found.deep_view()) {
            ranked_stay_placed(found.deep_view());
        }
    }
    out
}

/// Looks at the entries from `cursor` on.
fn seek_project(entries: Vec<Listed>, cursor: usize, found: Vec<ProjectInfo>) -> (r: Step<
    ListProjects,
    Vec<ProjectInfo>,
>)
    requires
        all_placed_well(found.deep_view()),
    ensures
        r.deep_view() == list_seek(entries.deep_view(), cursor as int, found.deep_view()),
        r matches Step::Finish(Ok(list)) ==> all_placed_well(list.deep_view()),
{
    let mut at = cursor;
    while at < entries.len()
        invariant
            all_placed_well(found.deep_view()),
            list_seek(entries.deep_view(), at as int, found.deep_view()) == list_seek(
                entries.deep_view(),
                cursor as int,
                found.deep_view(),
            ),
        decreases entries@.len() - at,
    {
        assert(entries.deep_view()[at as int] == entries@[at as int].deep_view());
        match &entries[at] {
            Listed::NoEntry { message } => {
                return Step::Finish(
                    Err(
                        Failure::new(
                            ErrorKind::Enumeration,
                            "Directory entry error: ",
                            message.as_str(),
                        ),
                    ),
                );
            },
            Listed::NoKind { message } => {},
            Listed::Entry { path, kind } => {
                if *kind == EntryKind::Directory && is_absolute_path(path.as_str()) {
                    let target = join(path.as_str(), "Assay.toml");
                    return Step::Ask(
                        ListProjects { entries, cursor: at, found, stage: ListStage::Probe },
                        Request::Exists { path: target },
                    );
                }
            },
        }
        at = at + 1;
    }
    Step::Finish(Ok(order_projects(found)))
}

impl ListProjects {
    #[verifier::type_invariant]
    spec fn sound(self) -> bool {
        all_placed_well(self.found.deep_view())
    }

    /// Goes on after `reply`. Every project that is handed out lies at an
    /// absolute path.
    pub fn resume(self, reply: Reply) -> (r: Step<ListProjects, Vec<ProjectInfo>>)
        ensures
            r.deep_view() == list_next(self.deep_view(), reply.deep_view()),
            r matches Step::Finish(Ok(list)) ==> all_placed_well(list.deep_view()),
    {
        proof {
            use_type_invariant(&self);
        }
        let ListProjects { entries, cursor, found, stage } = self;
        match stage {
            ListStage::Resolve => match take_absolute(reply) {
                Ok(root) => Step::Ask(
                    ListProjects { entries, cursor, found, stage: ListStage::Listing },
                    Request::List { path: root },
                ),
                Err(d) => Step::Finish(
                    Err(
                        Failure::new(
                            ErrorKind::Enumeration,
                            "Failed to read directory: ",
                            d.as_str(),
                        ),
                    ),
                ),
            },
            ListStage::Listing => match reply {
                Reply::Entries(listed) => seek_project(listed, 0, found),
                other => Step::Finish(
                    Err(
                        Failure::new(
                            ErrorKind::Enumeration,
                            "Failed to read directory: ",
                            refusal_text(other).as_str(),
                        ),
                    ),
                ),
            },
            ListStage::Probe => {
                if cursor >= entries.len() {
                    return Step::Finish(Ok(order_projects(found)));
                }
                assert(entries.deep_view()[cursor as int] == entries@[cursor as int].deep_view());
                let here = match &entries[cursor] {
                    Listed::Entry { path, kind } => {
                        if is_absolute_path(path.as_str()) {
                            Some(path.clone())
                        } else {
                            None
                        }
                    },
                    _ => None,
                };
                match (reply, here) {
                    (Reply::Found(true), Some(path)) => {
                        let target = join(path.as_str(), "Assay.toml");
                        let open = OpenProject { stage: OpenStage::Manifest { path } };
                        Step::Ask(
                            ListProjects { entries, cursor, found, stage: ListStage::Opening(open) },
                            Request::Read { path: target },
                        )
                    },
                    _ => seek_project(entries, cursor + 1, found),
                }
            },
            ListStage::Opening(open) => {
                let step = open.resume(reply);
                match step {
                    Step::Ask(open, request) => Step::Ask(
                        ListProjects { entries, cursor, found, stage: ListStage::Opening(open) },
                        request,
                    ),
                    Step::Finish(Ok(info)) => {
                        let ghost before = found.deep_view();
                        let ghost added = info.deep_view();
                        let mut found = found;
                        found.push(info);
                        assert(found.deep_view() =~= before.push(added));
                        if cursor >= entries.len() {
                            Step::Finish(Ok(order_projects(found)))
                        } else {
                            seek_project(entries, cursor + 1, found)
                        }
                    },
                    Step::Finish(Err(_)) => {
                        if cursor >= entries.len() {
                            Step::Finish(Ok(order_projects(found)))
                        } else {
                            seek_project(entries, cursor + 1, found)
                        }
                    },
                }
            },
        }
    }
}

} // verus!
