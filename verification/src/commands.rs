//! The four operations as a host calls them. Creating and opening a
//! project also make its store ready.

use crate::db::{init_db, init_next, init_start, InitDb, InitDbView};
use crate::eval::EvalSummary;
use crate::host::{Reply, ReplyView, Step, StepView};
use crate::loader::{evals_start, list_eval_summaries, ListEvals};
use crate::project::{
    create_next, create_start, list_start, open_next, open_start, placed_well,
    stamped, CreateProject, CreateProjectView, ListProjects, OpenProject, OpenProjectView,
    ProjectInfo, ProjectInfoView,
};
use crate::stamp::Timestamp;
use vstd::prelude::*;

verus! {

#[derive(Debug)]
enum Phase<M> {
    Project(M),
    Store(InitDb, ProjectInfo),
}

/// An operation on a project that ends by making the project's store
/// ready, between two requests.
#[derive(Debug)]
pub struct WithStore<M> {
    phase: Phase<M>,
}

/// Where an operation on a project and its store stands: it is still at
/// work on the project, or on the store of the project that it will hand
/// out.
pub enum WithStoreView<M> {
    Project(M),
    Store(InitDbView, ProjectInfoView),
}

impl<M: DeepView> DeepView for WithStore<M> {
    type V = WithStoreView<M::V>;

    closed spec fn deep_view(&self) -> WithStoreView<M::V> {
        match self.phase {
            Phase::Project(state) => WithStoreView::Project(state.deep_view()),
            Phase::Store(state, info) => WithStoreView::Store(state.deep_view(), info.deep_view()),
        }
    }
}

/// A step on the store of the project `info`, as a step of the whole
/// operation: once the store is ready the operation ends with the project.
pub open spec fn in_store<M>(step: StepView<InitDbView, ()>, info: ProjectInfoView) -> StepView<
    WithStoreView<M>,
    ProjectInfoView,
> {
    match step {
        StepView::Ask(state, request) => StepView::Ask(WithStoreView::Store(state, info), request),
        StepView::Finish(Ok(_)) => StepView::Finish(Ok(info)),
        StepView::Finish(Err(f)) => StepView::Finish(Err(f)),
    }
}

/// A step on the project, as a step of the whole operation: once the
/// project is there, the making of its store begins.
pub open spec fn then_store<M>(step: StepView<M, ProjectInfoView>) -> StepView<
    WithStoreView<M>,
    ProjectInfoView,
> {
    match step {
        StepView::Ask(state, request) => StepView::Ask(WithStoreView::Project(state), request),
        StepView::Finish(Ok(info)) => in_store(init_start(info.db_path), info),
        StepView::Finish(Err(f)) => StepView::Finish(Err(f)),
    }
}

impl<M> WithStore<M> {
    #[verifier::type_invariant]
    spec fn sound(self) -> bool {
        match self.phase {
            Phase::Project(_) => true,
            Phase::Store(_, info) => placed_well(info.deep_view()),
        }
    }
}

/// Takes a step on the store as a step of the whole operation.
fn follow_store<M: DeepView>(step: Step<InitDb, ()>, info: ProjectInfo) -> (r: Step<
    WithStore<M>,
    ProjectInfo,
>)
    requires
        placed_well(info.deep_view()),
    ensures
        r.deep_view() == in_store::<M::V>(step.deep_view(), info.deep_view()),
        r matches Step::Finish(Ok(out)) ==> placed_well(out.deep_view()),
{
    match step {
        Step::Ask(state, request) => Step::Ask(
            WithStore { phase: Phase::Store(state, info) },
            request,
        ),
        Step::Finish(Ok(_)) => Step::Finish(Ok(info)),
        Step::Finish(Err(f)) => Step::Finish(Err(f)),
    }
}

/// Takes a step on the project as a step of the whole operation.
fn follow_project<M: DeepView>(step: Step<M, ProjectInfo>) -> (r: Step<WithStore<M>, ProjectInfo>)
    requires
        step matches Step::Finish(Ok(info)) ==> placed_well(info.deep_view()),
    ensures
        r.deep_view() == then_store::<M::V>(step.deep_view()),
        r matches Step::Finish(Ok(out)) ==> placed_well(out.deep_view()),
{
    match step {
        Step::Ask(state, request) => Step::Ask(WithStore { phase: Phase::Project(state) }, request),
        Step::Finish(Ok(info)) => {
            let first = init_db(info.db_path.as_str());
            follow_store(first, info)
        },
        Step::Finish(Err(f)) => Step::Finish(Err(f)),
    }
}

/// Begins the creation of the project `name` at `path`, store included.
pub fn create_project(path: &str, name: &str) -> (r: Step<WithStore<CreateProject>, ProjectInfo>)
    ensures
        r.deep_view() == then_store(create_start(path@, name@)),
{
    follow_project(crate::project::create_project(path, name))
}

/// How the creation of a project with its store goes on after `reply`.
pub open spec fn create_command_next(
    state: WithStoreView<CreateProjectView>,
    reply: ReplyView,
    id: u128,
    now: Timestamp,
) -> StepView<WithStoreView<CreateProjectView>, ProjectInfoView> {
    match state {
        WithStoreView::Project(project) => then_store(create_next(project, reply, id, now)),
        WithStoreView::Store(store, info) => in_store(init_next(store, reply), info),
    }
}

/// How the opening of a project with its store goes on after `reply`.
pub open spec fn open_command_next(
    state: WithStoreView<OpenProjectView>,
    reply: ReplyView,
) -> StepView<WithStoreView<OpenProjectView>, ProjectInfoView> {
    match state {
        WithStoreView::Project(project) => then_store(open_next(project, reply)),
        WithStoreView::Store(store, info) => in_store(init_next(store, reply), info),
    }
}

impl WithStore<CreateProject> {
    /// Goes on after `reply`, with `id` and `now` at hand for a new
    /// manifest. A project that is handed out lies at an absolute path.
    pub fn resume_with(self, reply: Reply, id: u128, now: Timestamp) -> (r: Step<
        WithStore<CreateProject>,
        ProjectInfo,
    >)
        ensures
            r.deep_view() == create_command_next(self.deep_view(), reply.deep_view(), id, now),
            r matches Step::Finish(Ok(info)) ==> placed_well(info.deep_view()),
    {
        proof {
            use_type_invariant(&self);
        }
        match self.phase {
            Phase::Project(project) => follow_project(project.resume_with(reply, id, now)),
            Phase::Store(store, info) => follow_store(store.resume(reply), info),
        }
    }

    /// Goes on after `reply`. Where a manifest is due, its identifier is
    /// drawn at random and its instant is read from the clock. A project
    /// that is handed out lies at an absolute path.
    pub fn resume(self, reply: Reply) -> (r: Step<WithStore<CreateProject>, ProjectInfo>)
        ensures
            exists|id: u128, now: Timestamp|
                (self.deep_view() matches WithStoreView::Project(project) ==> stamped(
                    project,
                    id,
                    now,
                )) && r.deep_view() == #[trigger] create_command_next(
                    self.deep_view(),
                    reply.deep_view(),
                    id,
                    now,
                ),
            r matches Step::Finish(Ok(info)) ==> placed_well(info.deep_view()),
    {
        proof {
            use_type_invariant(&self);
        }
        let ghost whole = self.deep_view();
        let ghost answer = reply.deep_view();
        match self.phase {
            Phase::Project(project) => {
                let ghost before = project.deep_view();
                let step = project.resume(reply);
                let ghost (id, now) = choose|id: u128, now: Timestamp|
                    stamped(before, id, now) && step.deep_view() == #[trigger] create_next(
                        before,
                        answer,
                        id,
                        now,
                    );
                let r = follow_project(step);
                assert(stamped(before, id, now) && r.deep_view() == create_command_next(
                    whole,
                    answer,
                    id,
                    now,
                ));
                r
            },
            Phase::Store(store, info) => {
                let r = follow_store(store.resume(reply), info);
                assert(r.deep_view() == create_command_next(
                    whole,
                    answer,
                    0,
                    Timestamp { secs: 0, nanos: 0 },
                ));
                r
            },
        }
    }
}

/// Begins the opening of the project at `path`, store included.
pub fn open_project(path: &str) -> (r: Step<WithStore<OpenProject>, ProjectInfo>)
    ensures
        r.deep_view() == then_store(open_start(path@)),
{
    follow_project(crate::project::open_project(path))
}

impl WithStore<OpenProject> {
    /// Goes on after `reply`. A project that is handed out lies at an
    /// absolute path.
    pub fn resume(self, reply: Reply) -> (r: Step<WithStore<OpenProject>, ProjectInfo>)
        ensures
            r.deep_view() == open_command_next(self.deep_view(), reply.deep_view()),
            r matches Step::Finish(Ok(info)) ==> placed_well(info.deep_view()),
    {
        proof {
            use_type_invariant(&self);
        }
        match self.phase {
            Phase::Project(project) => follow_project(project.resume(reply)),
            Phase::Store(store, info) => follow_store(store.resume(reply), info),
        }
    }
}

/// Begins the listing of the projects under `root_path`.
pub fn list_projects(root_path: &str) -> (r: Step<ListProjects, Vec<ProjectInfo>>)
    ensures
        r.deep_view() == list_start(root_path@),
{
    crate::project::list_projects(root_path)
}

/// Begins the listing of the definitions of the project at `project_path`.
pub fn list_evals(project_path: &str) -> (r: Step<ListEvals, Vec<EvalSummary>>)
    ensures
        r.deep_view() == evals_start(project_path@),
{
    list_eval_summaries(project_path)
}

} // verus!
