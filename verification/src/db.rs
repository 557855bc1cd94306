//! The store of runs, samples and annotations: its schema, and the steps
//! that make a store ready.

use crate::failure::{failure, ErrorKind, Failure};
use crate::host::{refusal, refusal_text, Reply, ReplyView, Request, RequestView, Step, StepView};
use vstd::prelude::*;
use vstd::string::*;

verus! {

/// The schema of the store. Every statement creates what it names only
/// where that does not exist yet, so the script can be run on a store any
/// number of times.
pub const SCHEMA: &'static str = r#"
PRAGMA foreign_keys = ON;

CREATE TABLE IF NOT EXISTS eval_runs (
    id TEXT PRIMARY KEY,
    project_id TEXT NOT NULL,
    eval_id TEXT NOT NULL,
    model_id TEXT NOT NULL,
    started_at DATETIME NOT NULL,
    completed_at DATETIME,
    status TEXT NOT NULL,
    config_json TEXT NOT NULL,
    metrics_json TEXT
);

CREATE TABLE IF NOT EXISTS samples (
    id TEXT PRIMARY KEY,
    run_id TEXT NOT NULL REFERENCES eval_runs(id),
    index_num INTEGER NOT NULL,
    input_json TEXT NOT NULL,
    output_json TEXT,
    scores_json TEXT,
    trajectory_json TEXT,
    status TEXT NOT NULL,
    latency_ms INTEGER,
    tokens_input INTEGER,
    tokens_output INTEGER
);

CREATE VIRTUAL TABLE IF NOT EXISTS samples_fts USING fts5(
    input_text,
    output_text,
    content='samples',
    content_rowid='rowid'
);

CREATE TABLE IF NOT EXISTS annotations (
    id TEXT PRIMARY KEY,
    sample_id TEXT NOT NULL REFERENCES samples(id),
    author TEXT NOT NULL,
    created_at DATETIME NOT NULL,
    annotation_type TEXT NOT NULL,
    content TEXT NOT NULL
);
"#;

/// Where the making of a store stands.
#[derive(Debug)]
pub enum InitDb {
    /// The directory that holds the store is being created.
    Parent { path: String },
    /// The store is being opened.
    Open { path: String },
    /// The schema is being applied.
    Schema { path: String },
}

/// The mathematical form of [`InitDb`].
pub enum InitDbView {
    Parent { path: Seq<char> },
    Open { path: Seq<char> },
    Schema { path: Seq<char> },
}

impl DeepView for InitDb {
    type V = InitDbView;

    open spec fn deep_view(&self) -> InitDbView {
        match self {
            InitDb::Parent { path } => InitDbView::Parent { path: path@ },
            InitDb::Open { path } => InitDbView::Open { path: path@ },
            InitDb::Schema { path } => InitDbView::Schema { path: path@ },
        }
    }
}

/// How the making of the store at `path` begins.
pub open spec fn init_start(path: Seq<char>) -> StepView<InitDbView, ()> {
    StepView::Ask(InitDbView::Parent { path }, RequestView::CreateParentDirs { path })
}

/// How the making of a store goes on after `reply`: the directory, then
/// the store, then the schema, and each step that fails ends it with a
/// failure of its own kind.
pub open spec fn init_next(state: InitDbView, reply: ReplyView) -> StepView<InitDbView, ()> {
    match state {
        InitDbView::Parent { path } => match reply {
            ReplyView::Done => StepView::Ask(
                InitDbView::Open { path },
                RequestView::OpenStore { path },
            ),
            _ => StepView::Finish(
                Err(
                    failure(
                        ErrorKind::DirectoryCreate,
                        "Failed to create db directory: "@,
                        refusal(reply),
                    ),
                ),
            ),
        },
        InitDbView::Open { path } => match reply {
            ReplyView::Done => StepView::Ask(
                InitDbView::Schema { path },
                RequestView::ApplySchema { path, script: SCHEMA@ },
            ),
            _ => StepView::Finish(
                Err(failure(ErrorKind::StoreOpen, "Failed to open database: "@, refusal(reply))),
            ),
        },
        InitDbView::Schema { path } => match reply {
            ReplyView::Done => StepView::Finish(Ok(())),
            _ => StepView::Finish(
                Err(failure(ErrorKind::SchemaApply, "Migration error: "@, refusal(reply))),
            ),
        },
    }
}

/// Begins the making of the store at `path`.
pub fn init_db(path: &str) -> (r: Step<InitDb, ()>)
    ensures
        r.deep_view() == init_start(path@),
{
    Step::Ask(
        InitDb::Parent { path: String::from_str(path) },
        Request::CreateParentDirs { path: String::from_str(path) },
    )
}

impl InitDb {
    /// Goes on after `reply`.
    pub fn resume(self, reply: Reply) -> (r: Step<InitDb, ()>)
        ensures
            r.deep_view() == init_next(self.deep_view(), reply.deep_view()),
    {
        match self {
            InitDb::Parent { path } => match reply {
                Reply::Done => {
                    let target = path.clone();
                    Step::Ask(InitDb::Open { path }, Request::OpenStore { path: target })
                },
                other => Step::Finish(
                    Err(
                        Failure::new(
                            ErrorKind::DirectoryCreate,
                            "Failed to create db directory: ",
                            refusal_text(other).as_str(),
                        ),
                    ),
                ),
            },
            InitDb::Open { path } => match reply {
                Reply::Done => {
                    let target = path.clone();
                    Step::Ask(
                        InitDb::Schema { path },
                        Request::ApplySchema { path: target, script: String::from_str(SCHEMA) },
                    )
                },
                other => Step::Finish(
                    Err(
                        Failure::new(
                            ErrorKind::StoreOpen,
                            "Failed to open database: ",
                            refusal_text(other).as_str(),
                        ),
                    ),
                ),
            },
            InitDb::Schema { path } => match reply {
                Reply::Done => Step::Finish(Ok(())),
                other => Step::Finish(
                    Err(
                        Failure::new(
                            ErrorKind::SchemaApply,
                            "Migration error: ",
                            refusal_text(other).as_str(),
                        ),
                    ),
                ),
            },
        }
    }
}

} // verus!
