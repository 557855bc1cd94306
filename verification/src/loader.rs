//! Loading evaluation definitions from the files of a project, and
//! listing what a project holds. Each operation is a small machine that
//! asks its host for one thing at a time.

use crate::document::{parse_yaml, yaml_document};
use crate::eval::{
    definition_from, definition_of, summarize, summary_of, EvalDefinition, EvalDefinitionView,
    EvalSummary, EvalSummaryView,
};
use crate::failure::{failure, ErrorKind, Failure};
use crate::host::{EntryKind, Listed, ListedView, Reply, ReplyView, Request, RequestView, Step, StepView};
use crate::host::{refusal, refusal_text};
use crate::order::{chars_not_after, codes, rank_of, ranked, ranked_maps, sort_by_rank, Ranked};
use crate::paths::{is_yaml_file, is_yaml_path, join, joined};
use crate::text::{lowercase, lowercase_chars};
use vstd::prelude::*;
use vstd::string::*;

verus! {

/// The definition that a text describes: the text is parsed as a document,
/// and the document is read as a definition.
pub open spec fn eval_of_text(text: Seq<char>) -> Result<EvalDefinitionView, Seq<char>> {
    match yaml_document(text) {
        Err(m) => Err(m),
        Ok(doc) => definition_of(doc),
    }
}

/// Reads an evaluation definition from the text of its file.
pub fn parse_definition(text: &str) -> (r: Result<EvalDefinition, String>)
    ensures
        match r {
            Ok(d) => eval_of_text(text@) == Ok::<EvalDefinitionView, Seq<char>>(d.deep_view()),
            Err(m) => eval_of_text(text@) == Err::<EvalDefinitionView, Seq<char>>(m@),
        },
{
    match parse_yaml(text) {
        Ok(doc) => definition_from(&doc),
        Err(m) => Err(m),
    }
}

/// Where the loading of a definition stands.
#[derive(Debug)]
pub enum LoadEval {
    /// The file is being read.
    Reading { path: String },
}

/// The mathematical form of [`LoadEval`].
pub enum LoadEvalView {
    Reading { path: Seq<char> },
}

impl DeepView for LoadEval {
    type V = LoadEvalView;

    open spec fn deep_view(&self) -> LoadEvalView {
        match self {
            LoadEval::Reading { path } => LoadEvalView::Reading { path: path@ },
        }
    }
}

/// How the loading of the definition at `path` begins.
pub open spec fn load_start(path: Seq<char>) -> StepView<LoadEvalView, EvalDefinitionView> {
    StepView::Ask(LoadEvalView::Reading { path }, RequestView::Read { path })
}

/// How the loading of a definition goes on after `reply`.
pub open spec fn load_next(state: LoadEvalView, reply: ReplyView) -> StepView<
    LoadEvalView,
    EvalDefinitionView,
> {
    match state {
        LoadEvalView::Reading { path } => match reply {
            ReplyView::Text(text) => match eval_of_text(text) {
                Ok(def) => StepView::Finish(Ok(def)),
                Err(d) => StepView::Finish(
                    Err(failure(ErrorKind::Parse, "YAML error "@ + path + ": "@, d)),
                ),
            },
            _ => StepView::Finish(
                Err(failure(ErrorKind::Read, "Read error "@ + path + ": "@, refusal(reply))),
            ),
        },
    }
}

/// Begins the loading of the definition at `path`.
pub fn load_eval_file(path: &str) -> (r: Step<LoadEval, EvalDefinition>)
    ensures
        r.deep_view() == load_start(path@),
{
    Step::Ask(
        LoadEval::Reading { path: String::from_str(path) },
        Request::Read { path: String::from_str(path) },
    )
}

impl LoadEval {
    /// Goes on after `reply`.
    pub fn resume(self, reply: Reply) -> (r: Step<LoadEval, EvalDefinition>)
        ensures
            r.deep_view() == load_next(self.deep_view(), reply.deep_view()),
    {
        match self {
            LoadEval::Reading { path } => match reply {
                Reply::Text(text) => match parse_definition(text.as_str()) {
                    Ok(def) => Step::Finish(Ok(def)),
                    Err(d) => {
                        let lead = String::from_str("YAML error ").concat(path.as_str()).concat(
                            ": ",
                        );
                        Step::Finish(
                            Err(Failure::new(ErrorKind::Parse, lead.as_str(), d.as_str())),
                        )
                    },
                },
                other => {
                    let lead = String::from_str("Read error ").concat(path.as_str()).concat(": ");
                    Step::Finish(
                        Err(
                            Failure::new(
                                ErrorKind::Read,
                                lead.as_str(),
                                refusal_text(other).as_str(),
                            ),
                        ),
                    )
                },
            },
        }
    }
}

impl Ranked for EvalSummary {
    open spec fn rank(&self) -> Seq<int> {
        codes(lowercase(self.name@))
    }

    fn not_after(&self, other: &Self) -> (b: bool) {
        let mine = lowercase_chars(self.name.as_str());
        let theirs = lowercase_chars(other.name.as_str());
        chars_not_after(&mine, &theirs)
    }
}

/// The rank of a definition in a listing: its name in lowercase.
pub open spec fn summary_rank() -> spec_fn(EvalSummaryView) -> Seq<int> {
    |s: EvalSummaryView| codes(lowercase(s.name))
}

/// The directory of the project at `project` that holds its definitions.
pub open spec fn evals_dir(project: Seq<char>) -> Seq<char> {
    joined(project, "evals"@)
}

/// What a listing of definitions is waiting for.
#[derive(Debug)]
pub enum EvalStage {
    /// Whether the directory of definitions exists.
    Probe,
    /// The entries of the directory.
    Listing,
    /// The loading of the definition at the cursor.
    Loading(LoadEval),
}

/// The mathematical form of [`EvalStage`].
pub enum EvalStageView {
    Probe,
    Listing,
    Loading(LoadEvalView),
}

impl DeepView for EvalStage {
    type V = EvalStageView;

    open spec fn deep_view(&self) -> EvalStageView {
        match self {
            EvalStage::Probe => EvalStageView::Probe,
            EvalStage::Listing => EvalStageView::Listing,
            EvalStage::Loading(load) => EvalStageView::Loading(load.deep_view()),
        }
    }
}

/// Where the listing of the definitions of a project stands: the directory
/// of definitions, its entries, the entry the listing is at, and the
/// definitions summarized so far.
#[derive(Debug)]
pub struct ListEvals {
    pub dir: String,
    pub entries: Vec<Listed>,
    pub cursor: usize,
    pub found: Vec<EvalSummary>,
    pub stage: EvalStage,
}

/// The mathematical form of [`ListEvals`].
pub struct ListEvalsView {
    pub dir: Seq<char>,
    pub entries: Seq<ListedView>,
    pub cursor: int,
    pub found: Seq<EvalSummaryView>,
    pub stage: EvalStageView,
}

impl DeepView for ListEvals {
    type V = ListEvalsView;

    open spec fn deep_view(&self) -> ListEvalsView {
        ListEvalsView {
            dir: self.dir@,
            entries: self.entries.deep_view(),
            cursor: self.cursor as int,
            found: self.found.deep_view(),
            stage: self.stage.deep_view(),
        }
    }
}

/// How the listing of the definitions of the project at `project` begins.
pub open spec fn evals_start(project: Seq<char>) -> StepView<ListEvalsView, Seq<EvalSummaryView>> {
    StepView::Ask(
        ListEvalsView {
            dir: evals_dir(project),
            entries: Seq::empty(),
            cursor: 0,
            found: Seq::empty(),
            stage: EvalStageView::Probe,
        },
        RequestView::Exists { path: evals_dir(project) },
    )
}

/// The listing looks at the entries from `cursor` on. An entry that could
/// not be read, or whose kind could not be told, ends the listing with a
/// failure; an entry that is no file, or no definition file by its
/// extension, is passed over; a definition file is asked for. After the
/// last entry the listing ends with the summaries, ordered by name without
/// regard to case.
pub open spec fn evals_seek(
    dir: Seq<char>,
    entries: Seq<ListedView>,
    cursor: int,
    found: Seq<EvalSummaryView>,
) -> StepView<ListEvalsView, Seq<EvalSummaryView>>
    decreases entries.len() - cursor,
{
    if cursor < 0 || cursor >= entries.len() {
        StepView::Finish(Ok(ranked(found, summary_rank())))
    } else {
        match entries[cursor] {
            ListedView::NoEntry { message } => StepView::Finish(
                Err(failure(ErrorKind::Enumeration, "Dir entry error: "@, message)),
            ),
            ListedView::NoKind { message } => StepView::Finish(
                Err(failure(ErrorKind::Enumeration, "File type error: "@, message)),
            ),
            ListedView::Entry { path, kind } => if kind == EntryKind::File && is_yaml_path(path) {
                StepView::Ask(
                    ListEvalsView {
                        dir,
                        entries,
                        cursor,
                        found,
                        stage: EvalStageView::Loading(LoadEvalView::Reading { path }),
                    },
                    RequestView::Read { path },
                )
            } else {
                evals_seek(dir, entries, cursor + 1, found)
            },
        }
    }
}

/// The path of the file that a loading reads.
pub open spec fn loading_path(load: LoadEvalView) -> Seq<char> {
    match load {
        LoadEvalView::Reading { path } => path,
    }
}

/// How a listing of definitions goes on after `reply`. A project without a
/// directory of definitions has none; the first definition that cannot be
/// loaded ends the listing with its failure.
pub open spec fn evals_next(state: ListEvalsView, reply: ReplyView) -> StepView<
    ListEvalsView,
    Seq<EvalSummaryView>,
> {
    match state.stage {
        EvalStageView::Probe => match reply {
            ReplyView::Found(true) => StepView::Ask(
                ListEvalsView {
                    dir: state.dir,
                    entries: state.entries,
                    cursor: state.cursor,
                    found: state.found,
                    stage: EvalStageView::Listing,
                },
                RequestView::List { path: state.dir },
            ),
            _ => StepView::Finish(Ok(Seq::empty())),
        },
        EvalStageView::Listing => match reply {
            ReplyView::Entries(entries) => evals_seek(state.dir, entries, 0, state.found),
            _ => StepView::Finish(
                Err(failure(ErrorKind::Enumeration, "Read evals dir error: "@, refusal(reply))),
            ),
        },
        EvalStageView::Loading(load) => match load_next(load, reply) {
            StepView::Ask(load, request) => StepView::Ask(
                ListEvalsView {
                    dir: state.dir,
                    entries: state.entries,
                    cursor: state.cursor,
                    found: state.found,
                    stage: EvalStageView::Loading(load),
                },
                request,
            ),
            StepView::Finish(Ok(def)) => evals_seek(
                state.dir,
                state.entries,
                state.cursor + 1,
                state.found.push(summary_of(def, loading_path(load))),
            ),
            StepView::Finish(Err(f)) => StepView::Finish(Err(f)),
        },
    }
}

/// Begins the listing of the definitions of the project at `project_path`.
pub fn list_eval_summaries(project_path: &str) -> (r: Step<ListEvals, Vec<EvalSummary>>)
    ensures
        r.deep_view() == evals_start(project_path@),
{
    let state = ListEvals {
        dir: join(project_path, "evals"),
        entries: Vec::new(),
        cursor: 0,
        found: Vec::new(),
        stage: EvalStage::Probe,
    };
    assert(state.entries.deep_view() =~= Seq::empty());
    assert(state.found.deep_view() =~= Seq::empty());
    Step::Ask(state, Request::Exists { path: join(project_path, "evals") })
}

/// Orders the summaries by name without regard to case.
pub fn order_summaries(found: Vec<EvalSummary>) -> (r: Vec<EvalSummary>)
    ensures
        r.deep_view() == ranked(found.deep_view(), summary_rank()),
{
    let ghost form = |s: EvalSummary| s.deep_view();
    let out = sort_by_rank(found);
    proof {
        ranked_maps(found@, form, rank_of::<EvalSummary>(), summary_rank());
        assert(found@.map_values(form) =~= found.deep_view());
        assert(out@.map_values(form) =~= out.deep_view());
    }
    out
}

/// Looks at the entries from `cursor` on.
pub fn seek_eval(dir: String, entries: Vec<Listed>, cursor: usize, found: Vec<EvalSummary>) -> (r:
    Step<ListEvals, Vec<EvalSummary>>)
    ensures
        r.deep_view() == evals_seek(dir@, entries.deep_view(), cursor as int, found.deep_view()),
{
    let mut at = cursor;
    while at < entries.len()
        invariant
            evals_seek(dir@, entries.deep_view(), at as int, found.deep_view()) == evals_seek(
                dir@,
                entries.deep_view(),
                cursor as int,
                found.deep_view(),
            ),
        decreases entries@.len() - at,
    {
        assert(entries.deep_view()[at as int] == entries@[at as int].deep_view());
        match &entries[at] {
            Listed::NoEntry { message } => {
                return Step::Finish(
                    Err(Failure::new(ErrorKind::Enumeration, "Dir entry error: ", message.as_str())),
                );
            },
            Listed::NoKind { message } => {
                return Step::Finish(
                    Err(Failure::new(ErrorKind::Enumeration, "File type error: ", message.as_str())),
                );
            },
            Listed::Entry { path, kind } => {
                if *kind == EntryKind::File && is_yaml_file(path.as_str()) {
                    let target = path.clone();
                    let load = LoadEval::Reading { path: path.clone() };
                    return Step::Ask(
                        ListEvals { dir, entries, cursor: at, found, stage: EvalStage::Loading(load) },
                        Request::Read { path: target },
                    );
                }
            },
        }
        at = at + 1;
    }
    Step::Finish(Ok(order_summaries(found)))
}

impl ListEvals {
    /// Goes on after `reply`.
    pub fn resume(self, reply: Reply) -> (r: Step<ListEvals, Vec<EvalSummary>>)
        ensures
            r.deep_view() == evals_next(self.deep_view(), reply.deep_view()),
    {
        let ListEvals { dir, entries, cursor, found, stage } = self;
        match stage {
            EvalStage::Probe => match reply {
                Reply::Found(true) => {
                    let target = dir.clone();
                    Step::Ask(
                        ListEvals { dir, entries, cursor, found, stage: EvalStage::Listing },
                        Request::List { path: target },
                    )
                },
                _ => {
                    let none: Vec<EvalSummary> = Vec::new();
                    assert(none.deep_view() =~= Seq::empty());
                    Step::Finish(Ok(none))
                },
            },
            EvalStage::Listing => match reply {
                Reply::Entries(listed) => seek_eval(dir, listed, 0, found),
                other => Step::Finish(
                    Err(
                        Failure::new(
                            ErrorKind::Enumeration,
                            "Read evals dir error: ",
                            refusal_text(other).as_str(),
                        ),
                    ),
                ),
            },
            EvalStage::Loading(load) => {
                let path = match &load {
                    LoadEval::Reading { path } => path.clone(),
                };
                match load.resume(reply) {
                    Step::Ask(load, request) => Step::Ask(
                        ListEvals { dir, entries, cursor, found, stage: EvalStage::Loading(load) },
                        request,
                    ),
                    Step::Finish(Ok(def)) => {
                        let ghost before = found.deep_view();
                        let summary = summarize(def, path);
                        let ghost added = summary.deep_view();
                        let mut found = found;
                        found.push(summary);
                        assert(found.deep_view() =~= before.push(added));
                        if cursor >= entries.len() {
                            Step::Finish(Ok(order_summaries(found)))
                        } else {
                            seek_eval(dir, entries, cursor + 1, found)
                        }
                    },
                    Step::Finish(Err(f)) => Step::Finish(Err(f)),
                }
            },
        }
    }
}

} // verus!
