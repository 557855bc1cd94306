//! Evaluation definitions: their shape, and how a parsed document is read
//! into one.

use crate::document::{
    copy_node, field, find_field, tree_of_list, tree_of_pairs, tree_pairs, trees, Node, Tree,
};
use crate::text::{count_within, read_count};
use vstd::prelude::*;
use vstd::string::*;

verus! {

/// Where the samples of an evaluation come from.
#[derive(Debug)]
pub struct DatasetConfig {
    pub source: String,
    pub path: String,
    pub split: Option<String>,
    pub limit: Option<u32>,
    pub shuffle: Option<bool>,
    pub seed: Option<u64>,
}

/// How a sample is solved.
#[derive(Debug)]
pub struct SolverConfig {
    pub solver_type: String,
    pub system_prompt: Option<String>,
    pub tools: Option<Vec<Node>>,
    pub max_turns: Option<u32>,
    pub sandbox: Option<Node>,
}

/// One scorer: its type, and every other field of its entry in document
/// order.
#[derive(Debug)]
pub struct ScorerConfig {
    pub scorer_type: String,
    pub config: Vec<(String, Node)>,
}

/// One model, or several.
#[derive(Debug)]
pub enum ModelRef {
    Single(String),
    Multiple(Vec<String>),
}

/// How a run is executed.
#[derive(Debug)]
pub struct ExecutionConfig {
    pub max_concurrent: u32,
    pub timeout_seconds: u32,
    pub retries: u32,
    pub model: ModelRef,
}

/// An evaluation definition, as one document describes it.
#[derive(Debug)]
pub struct EvalDefinition {
    pub id: String,
    pub name: String,
    pub description: Option<String>,
    pub dataset: DatasetConfig,
    pub solver: SolverConfig,
    pub scorer: Vec<ScorerConfig>,
    pub execution: ExecutionConfig,
}

/// What a listing shows of a definition.
#[derive(Debug)]
pub struct EvalSummary {
    pub id: String,
    pub name: String,
    pub description: Option<String>,
    pub path: String,
}

/// The mathematical form of [`DatasetConfig`].
pub struct DatasetConfigView {
    pub source: Seq<char>,
    pub path: Seq<char>,
    pub split: Option<Seq<char>>,
    pub limit: Option<u32>,
    pub shuffle: Option<bool>,
    pub seed: Option<u64>,
}

/// The mathematical form of [`SolverConfig`].
pub struct SolverConfigView {
    pub solver_type: Seq<char>,
    pub system_prompt: Option<Seq<char>>,
    pub tools: Option<Seq<Tree>>,
    pub max_turns: Option<u32>,
    pub sandbox: Option<Tree>,
}

/// The mathematical form of [`ScorerConfig`].
pub struct ScorerConfigView {
    pub scorer_type: Seq<char>,
    pub config: Seq<(Seq<char>, Tree)>,
}

/// The mathematical form of [`ModelRef`].
pub enum ModelRefView {
    Single(Seq<char>),
    Multiple(Seq<Seq<char>>),
}

/// The mathematical form of [`ExecutionConfig`].
pub struct ExecutionConfigView {
    pub max_concurrent: u32,
    pub timeout_seconds: u32,
    pub retries: u32,
    pub model: ModelRefView,
}

/// The mathematical form of [`EvalDefinition`].
pub struct EvalDefinitionView {
    pub id: Seq<char>,
    pub name: Seq<char>,
    pub description: Option<Seq<char>>,
    pub dataset: DatasetConfigView,
    pub solver: SolverConfigView,
    pub scorer: Seq<ScorerConfigView>,
    pub execution: ExecutionConfigView,
}

/// The mathematical form of [`EvalSummary`].
pub struct EvalSummaryView {
    pub id: Seq<char>,
    pub name: Seq<char>,
    pub description: Option<Seq<char>>,
    pub path: Seq<char>,
}

/// The text that an optional string holds.
pub open spec fn opt_view(s: Option<String>) -> Option<Seq<char>> {
    match s {
        Some(s) => Some(s@),
        None => None,
    }
}

/// The texts of a vector of strings.
pub open spec fn texts(names: Seq<String>) -> Seq<Seq<char>> {
    Seq::new(names.len(), |i: int| names[i]@)
}

/// The keys and trees of a scorer's bag.
pub open spec fn bag_view(bag: Seq<(String, Node)>) -> Seq<(Seq<char>, Tree)> {
    Seq::new(bag.len(), |i: int| (bag[i].0@, bag[i].1.tree()))
}

impl DeepView for DatasetConfig {
    type V = DatasetConfigView;

    open spec fn deep_view(&self) -> DatasetConfigView {
        DatasetConfigView {
            source: self.source@,
            path: self.path@,
            split: opt_view(self.split),
            limit: self.limit,
            shuffle: self.shuffle,
            seed: self.seed,
        }
    }
}

impl DeepView for SolverConfig {
    type V = SolverConfigView;

    open spec fn deep_view(&self) -> SolverConfigView {
        SolverConfigView {
            solver_type: self.solver_type@,
            system_prompt: opt_view(self.system_prompt),
            tools: match self.tools {
                Some(items) => Some(trees(items@)),
                None => None,
            },
            max_turns: self.max_turns,
            sandbox: match self.sandbox {
                Some(node) => Some(node.tree()),
                None => None,
            },
        }
    }
}

impl DeepView for ScorerConfig {
    type V = ScorerConfigView;

    open spec fn deep_view(&self) -> ScorerConfigView {
        ScorerConfigView { scorer_type: self.scorer_type@, config: bag_view(self.config@) }
    }
}

impl DeepView for ModelRef {
    type V = ModelRefView;

    open spec fn deep_view(&self) -> ModelRefView {
        match self {
            ModelRef::Single(name) => ModelRefView::Single(name@),
            ModelRef::Multiple(names) => ModelRefView::Multiple(texts(names@)),
        }
    }
}

impl DeepView for ExecutionConfig {
    type V = ExecutionConfigView;

    open spec fn deep_view(&self) -> ExecutionConfigView {
        ExecutionConfigView {
            max_concurrent: self.max_concurrent,
            timeout_seconds: self.timeout_seconds,
            retries: self.retries,
            model: self.model.deep_view(),
        }
    }
}

/// The views of a vector of scorers.
pub open spec fn scorer_views(scorers: Seq<ScorerConfig>) -> Seq<ScorerConfigView> {
    Seq::new(scorers.len(), |i: int| scorers[i].deep_view())
}

impl DeepView for EvalDefinition {
    type V = EvalDefinitionView;

    open spec fn deep_view(&self) -> EvalDefinitionView {
        EvalDefinitionView {
            id: self.id@,
            name: self.name@,
            description: opt_view(self.description),
            dataset: self.dataset.deep_view(),
            solver: self.solver.deep_view(),
            scorer: scorer_views(self.scorer@),
            execution: self.execution.deep_view(),
        }
    }
}

impl DeepView for EvalSummary {
    type V = EvalSummaryView;

    open spec fn deep_view(&self) -> EvalSummaryView {
        EvalSummaryView {
            id: self.id@,
            name: self.name@,
            description: opt_view(self.description),
            path: self.path@,
        }
    }
}

/// The message for a field that a document lacks.
pub open spec fn missing(label: Seq<char>) -> Seq<char> {
    "missing field `"@ + label + "`"@
}

/// The message for a field whose value has another shape than the field
/// takes.
pub open spec fn mismatch(label: Seq<char>) -> Seq<char> {
    "invalid type for field `"@ + label + "`"@
}

/// A text that must be there.
pub open spec fn need_text(pairs: Seq<(Tree, Tree)>, key: Seq<char>, label: Seq<char>) -> Result<
    Seq<char>,
    Seq<char>,
> {
    match field(pairs, key) {
        None => Err(missing(label)),
        Some(Tree::Text(s)) => Ok(s),
        Some(_) => Err(mismatch(label)),
    }
}

/// A text that may be left out, or be null.
pub open spec fn opt_text(pairs: Seq<(Tree, Tree)>, key: Seq<char>, label: Seq<char>) -> Result<
    Option<Seq<char>>,
    Seq<char>,
> {
    match field(pairs, key) {
        None => Ok(None),
        Some(Tree::Null) => Ok(None),
        Some(Tree::Text(s)) => Ok(Some(s)),
        Some(_) => Err(mismatch(label)),
    }
}

/// The count that a tree writes, where it is a whole number from zero to
/// `max`.
pub open spec fn count_of(t: Tree, max: int) -> Option<int> {
    match t {
        Tree::Number(s) => count_within(s, max),
        _ => None,
    }
}

/// A count that must be there.
pub open spec fn need_count(
    pairs: Seq<(Tree, Tree)>,
    key: Seq<char>,
    label: Seq<char>,
    max: int,
) -> Result<int, Seq<char>> {
    match field(pairs, key) {
        None => Err(missing(label)),
        Some(t) => match count_of(t, max) {
            Some(v) => Ok(v),
            None => Err(mismatch(label)),
        },
    }
}

/// A count that may be left out, or be null.
pub open spec fn opt_count(
    pairs: Seq<(Tree, Tree)>,
    key: Seq<char>,
    label: Seq<char>,
    max: int,
) -> Result<Option<int>, Seq<char>> {
    match field(pairs, key) {
        None => Ok(None),
        Some(Tree::Null) => Ok(None),
        Some(t) => match count_of(t, max) {
            Some(v) => Ok(Some(v)),
            None => Err(mismatch(label)),
        },
    }
}

/// A flag that may be left out, or be null.
pub open spec fn opt_flag(pairs: Seq<(Tree, Tree)>, key: Seq<char>, label: Seq<char>) -> Result<
    Option<bool>,
    Seq<char>,
> {
    match field(pairs, key) {
        None => Ok(None),
        Some(Tree::Null) => Ok(None),
        Some(Tree::Bool(b)) => Ok(Some(b)),
        Some(_) => Err(mismatch(label)),
    }
}

/// A record of fields that must be there.
pub open spec fn need_record(pairs: Seq<(Tree, Tree)>, key: Seq<char>, label: Seq<char>) -> Result<
    Seq<(Tree, Tree)>,
    Seq<char>,
> {
    match field(pairs, key) {
        None => Err(missing(label)),
        Some(Tree::Pairs(inner)) => Ok(inner),
        Some(_) => Err(mismatch(label)),
    }
}

/// Reads a text that must be there.
pub fn get_text(pairs: &Vec<(Node, Node)>, key: &str, label: &str) -> (r: Result<String, String>)
    ensures
        match r {
            Ok(s) => need_text(tree_pairs(pairs@), key@, label@) == Ok::<Seq<char>, Seq<char>>(s@),
            Err(m) => need_text(tree_pairs(pairs@), key@, label@) == Err::<Seq<char>, Seq<char>>(
                m@,
            ),
        },
{
    match find_field(pairs, key) {
        None => Err(String::from_str("missing field `").concat(label).concat("`")),
        Some(Node::Text(s)) => Ok(s.clone()),
        Some(_) => Err(String::from_str("invalid type for field `").concat(label).concat("`")),
    }
}

/// Reads a text that may be left out.
pub fn get_opt_text(pairs: &Vec<(Node, Node)>, key: &str, label: &str) -> (r: Result<
    Option<String>,
    String,
>)
    ensures
        match r {
            Ok(s) => opt_text(tree_pairs(pairs@), key@, label@) == Ok::<
                Option<Seq<char>>,
                Seq<char>,
            >(opt_view(s)),
            Err(m) => opt_text(tree_pairs(pairs@), key@, label@) == Err::<
                Option<Seq<char>>,
                Seq<char>,
            >(m@),
        },
{
    match find_field(pairs, key) {
        None => Ok(None),
        Some(Node::Null) => Ok(None),
        Some(Node::Text(s)) => Ok(Some(s.clone())),
        Some(_) => Err(String::from_str("invalid type for field `").concat(label).concat("`")),
    }
}

/// Reads the count that a node writes.
pub fn count_from(node: &Node, max: u64) -> (r: Option<u64>)
    ensures
        match r {
            Some(v) => count_of(node.tree(), max as int) == Some(v as int),
            None => count_of(node.tree(), max as int) is None,
        },
{
    match node {
        Node::Number(s) => read_count(s.as_str(), max),
        _ => None,
    }
}

/// Reads a count that must be there.
pub fn get_count(pairs: &Vec<(Node, Node)>, key: &str, label: &str, max: u64) -> (r: Result<
    u64,
    String,
>)
    ensures
        match r {
            Ok(v) => need_count(tree_pairs(pairs@), key@, label@, max as int) == Ok::<
                int,
                Seq<char>,
            >(v as int),
            Err(m) => need_count(tree_pairs(pairs@), key@, label@, max as int) == Err::<
                int,
                Seq<char>,
            >(m@),
        },
{
    match find_field(pairs, key) {
        None => Err(String::from_str("missing field `").concat(label).concat("`")),
        Some(node) => match count_from(node, max) {
            Some(v) => Ok(v),
            None => Err(String::from_str("invalid type for field `").concat(label).concat("`")),
        },
    }
}

/// Reads a count that may be left out.
pub fn get_opt_count(pairs: &Vec<(Node, Node)>, key: &str, label: &str, max: u64) -> (r: Result<
    Option<u64>,
    String,
>)
    ensures
        match r {
            Ok(Some(v)) => opt_count(tree_pairs(pairs@), key@, label@, max as int) == Ok::<
                Option<int>,
                Seq<char>,
            >(Some(v as int)),
            Ok(None) => opt_count(tree_pairs(pairs@), key@, label@, max as int) == Ok::<
                Option<int>,
                Seq<char>,
            >(None),
            Err(m) => opt_count(tree_pairs(pairs@), key@, label@, max as int) == Err::<
                Option<int>,
                Seq<char>,
            >(m@),
        },
{
    match find_field(pairs, key) {
        None => Ok(None),
        Some(Node::Null) => Ok(None),
        Some(node) => match count_from(node, max) {
            Some(v) => Ok(Some(v)),
            None => Err(String::from_str("invalid type for field `").concat(label).concat("`")),
        },
    }
}

/// Reads a flag that may be left out.
pub fn get_opt_flag(pairs: &Vec<(Node, Node)>, key: &str, label: &str) -> (r: Result<
    Option<bool>,
    String,
>)
    ensures
        match r {
            Ok(b) => opt_flag(tree_pairs(pairs@), key@, label@) == Ok::<Option<bool>, Seq<char>>(b),
            Err(m) => opt_flag(tree_pairs(pairs@), key@, label@) == Err::<
                Option<bool>,
                Seq<char>,
            >(m@),
        },
{
    match find_field(pairs, key) {
        None => Ok(None),
        Some(Node::Null) => Ok(None),
        Some(Node::Bool(b)) => Ok(Some(*b)),
        Some(_) => Err(String::from_str("invalid type for field `").concat(label).concat("`")),
    }
}

/// Reads a record of fields that must be there.
pub fn get_record<'a>(pairs: &'a Vec<(Node, Node)>, key: &str, label: &str) -> (r: Result<
    &'a Vec<(Node, Node)>,
    String,
>)
    ensures
        match r {
            Ok(inner) => need_record(tree_pairs(pairs@), key@, label@) == Ok::<
                Seq<(Tree, Tree)>,
                Seq<char>,
            >(tree_pairs(inner@)),
            Err(m) => need_record(tree_pairs(pairs@), key@, label@) == Err::<
                Seq<(Tree, Tree)>,
                Seq<char>,
            >(m@),
        },
{
    match find_field(pairs, key) {
        None => Err(String::from_str("missing field `").concat(label).concat("`")),
        Some(Node::Pairs(inner)) => {
            proof {
                tree_of_pairs(*inner);
            }
            Ok(inner)
        },
        Some(_) => Err(String::from_str("invalid type for field `").concat(label).concat("`")),
    }
}

/// The dataset that a record of fields describes.
pub open spec fn dataset_of(pairs: Seq<(Tree, Tree)>) -> Result<DatasetConfigView, Seq<char>> {
    match need_text(pairs, "source"@, "dataset.source"@) {
        Err(m) => Err(m),
        Ok(source) => match need_text(pairs, "path"@, "dataset.path"@) {
            Err(m) => Err(m),
            Ok(path) => match opt_text(pairs, "split"@, "dataset.split"@) {
                Err(m) => Err(m),
                Ok(split) => match opt_count(pairs, "limit"@, "dataset.limit"@, u32::MAX as int) {
                    Err(m) => Err(m),
                    Ok(limit) => match opt_flag(pairs, "shuffle"@, "dataset.shuffle"@) {
                        Err(m) => Err(m),
                        Ok(shuffle) => match opt_count(
                            pairs,
                            "seed"@,
                            "dataset.seed"@,
                            u64::MAX as int,
                        ) {
                            Err(m) => Err(m),
                            Ok(seed) => Ok(
                                DatasetConfigView {
                                    source,
                                    path,
                                    split,
                                    limit: match limit {
                                        Some(v) => Some(v as u32),
                                        None => None,
                                    },
                                    shuffle,
                                    seed: match seed {
                                        Some(v) => Some(v as u64),
                                        None => None,
                                    },
                                },
                            ),
                        },
                    },
                },
            },
        },
    }
}

/// Reads a dataset from a record of fields.
pub fn dataset_from(pairs: &Vec<(Node, Node)>) -> (r: Result<DatasetConfig, String>)
    ensures
        match r {
            Ok(d) => dataset_of(tree_pairs(pairs@)) == Ok::<DatasetConfigView, Seq<char>>(
                d.deep_view(),
            ),
            Err(m) => dataset_of(tree_pairs(pairs@)) == Err::<DatasetConfigView, Seq<char>>(m@),
        },
{
    let source = match get_text(pairs, "source", "dataset.source") {
        Ok(v) => v,
        Err(m) => return Err(m),
    };
    let path = match get_text(pairs, "path", "dataset.path") {
        Ok(v) => v,
        Err(m) => return Err(m),
    };
    let split = match get_opt_text(pairs, "split", "dataset.split") {
        Ok(v) => v,
        Err(m) => return Err(m),
    };
    let limit = match get_opt_count(pairs, "limit", "dataset.limit", 0xffff_ffff) {
        Ok(Some(v)) => Some(v as u32),
        Ok(None) => None,
        Err(m) => return Err(m),
    };
    let shuffle = match get_opt_flag(pairs, "shuffle", "dataset.shuffle") {
        Ok(v) => v,
        Err(m) => return Err(m),
    };
    let seed = match get_opt_count(pairs, "seed", "dataset.seed", 0xffff_ffff_ffff_ffff) {
        Ok(v) => v,
        Err(m) => return Err(m),
    };
    Ok(DatasetConfig { source, path, split, limit, shuffle, seed })
}

/// The tools that a solver lists, where it lists any.
pub open spec fn tools_of(pairs: Seq<(Tree, Tree)>) -> Result<Option<Seq<Tree>>, Seq<char>> {
    match field(pairs, "tools"@) {
        None => Ok(None),
        Some(Tree::Null) => Ok(None),
        Some(Tree::List(items)) => Ok(Some(items)),
        Some(_) => Err(mismatch("solver.tools"@)),
    }
}

/// The sandbox settings of a solver, where it has any.
pub open spec fn sandbox_of(pairs: Seq<(Tree, Tree)>) -> Option<Tree> {
    match field(pairs, "sandbox"@) {
        None => None,
        Some(Tree::Null) => None,
        Some(t) => Some(t),
    }
}

/// The solver that a record of fields describes.
pub open spec fn solver_of(pairs: Seq<(Tree, Tree)>) -> Result<SolverConfigView, Seq<char>> {
    match need_text(pairs, "type"@, "solver.type"@) {
        Err(m) => Err(m),
        Ok(solver_type) => match opt_text(pairs, "system_prompt"@, "solver.system_prompt"@) {
            Err(m) => Err(m),
            Ok(system_prompt) => match tools_of(pairs) {
                Err(m) => Err(m),
                Ok(tools) => match opt_count(
                    pairs,
                    "max_turns"@,
                    "solver.max_turns"@,
                    u32::MAX as int,
                ) {
                    Err(m) => Err(m),
                    Ok(max_turns) => Ok(
                        SolverConfigView {
                            solver_type,
                            system_prompt,
                            tools,
                            max_turns: match max_turns {
                                Some(v) => Some(v as u32),
                                None => None,
                            },
                            sandbox: sandbox_of(pairs),
                        },
                    ),
                },
            },
        },
    }
}

/// Copies a vector of nodes.
pub fn copy_nodes(items: &Vec<Node>) -> (r: Vec<Node>)
    ensures
        trees(r@) == trees(items@),
{
    let mut out: Vec<Node> = Vec::new();
    let mut i: usize = 0;
    while i < items.len()
        invariant
            i <= items@.len(),
            out@.len() == i,
            forall|j: int| 0 <= j < i ==> (#[trigger] out@[j]).tree() == items@[j].tree(),
        decreases items@.len() - i,
    {
        out.push(copy_node(&items[i]));
        i = i + 1;
    }
    assert(trees(out@) =~= trees(items@));
    out
}

/// Reads a solver from a record of fields.
pub fn solver_from(pairs: &Vec<(Node, Node)>) -> (r: Result<SolverConfig, String>)
    ensures
        match r {
            Ok(d) => solver_of(tree_pairs(pairs@)) == Ok::<SolverConfigView, Seq<char>>(
                d.deep_view(),
            ),
            Err(m) => solver_of(tree_pairs(pairs@)) == Err::<SolverConfigView, Seq<char>>(m@),
        },
{
    let solver_type = match get_text(pairs, "type", "solver.type") {
        Ok(v) => v,
        Err(m) => return Err(m),
    };
    let system_prompt = match get_opt_text(pairs, "system_prompt", "solver.system_prompt") {
        Ok(v) => v,
        Err(m) => return Err(m),
    };
    let tools = match find_field(pairs, "tools") {
        None => None,
        Some(Node::Null) => None,
        Some(Node::List(items)) => {
            proof {
                tree_of_list(*items);
            }
            Some(copy_nodes(items))
        },
        Some(_) => return Err(
            String::from_str("invalid type for field `").concat("solver.tools").concat("`"),
        ),
    };
    let max_turns = match get_opt_count(pairs, "max_turns", "solver.max_turns", 0xffff_ffff) {
        Ok(Some(v)) => Some(v as u32),
        Ok(None) => None,
        Err(m) => return Err(m),
    };
    let sandbox = match find_field(pairs, "sandbox") {
        None => None,
        Some(Node::Null) => None,
        Some(node) => Some(copy_node(node)),
    };
    Ok(SolverConfig { solver_type, system_prompt, tools, max_turns, sandbox })
}

/// The fields of a scorer's entry other than `type`, in document order, or
/// `None` where a key of the entry is not a text.
pub open spec fn bag_of(pairs: Seq<(Tree, Tree)>) -> Option<Seq<(Seq<char>, Tree)>>
    decreases pairs.len(),
{
    if pairs.len() == 0 {
        Some(Seq::empty())
    } else {
        match (bag_of(pairs.drop_last()), pairs.last().0) {
            (Some(front), Tree::Text(key)) => if key == "type"@ {
                Some(front)
            } else {
                Some(front.push((key, pairs.last().1)))
            },
            _ => None,
        }
    }
}

/// The scorer that one entry of the scorer list describes.
pub open spec fn scorer_of(t: Tree) -> Result<ScorerConfigView, Seq<char>> {
    match t {
        Tree::Pairs(pairs) => match need_text(pairs, "type"@, "scorer.type"@) {
            Err(m) => Err(m),
            Ok(scorer_type) => match bag_of(pairs) {
                Some(config) => Ok(ScorerConfigView { scorer_type, config }),
                None => Err(mismatch("scorer"@)),
            },
        },
        _ => Err(mismatch("scorer"@)),
    }
}

/// The scorers that a list describes, or the message for its first entry
/// that describes none.
pub open spec fn scorers_of(items: Seq<Tree>) -> Result<Seq<ScorerConfigView>, Seq<char>>
    decreases items.len(),
{
    if items.len() == 0 {
        Ok(Seq::empty())
    } else {
        match scorers_of(items.drop_last()) {
            Err(m) => Err(m),
            Ok(front) => match scorer_of(items.last()) {
                Err(m) => Err(m),
                Ok(s) => Ok(front.push(s)),
            },
        }
    }
}

/// Gathers the fields of a scorer's entry other than `type`.
pub fn bag_from(pairs: &Vec<(Node, Node)>) -> (r: Option<Vec<(String, Node)>>)
    ensures
        match r {
            Some(bag) => bag_of(tree_pairs(pairs@)) == Some(bag_view(bag@)),
            None => bag_of(tree_pairs(pairs@)) is None,
        },
{
    let ghost all = tree_pairs(pairs@);
    let reserved = String::from_str("type");
    let mut out: Vec<(String, Node)> = Vec::new();
    let mut i: usize = 0;
    assert(all.take(0) =~= Seq::empty());
    assert(bag_view(out@) =~= Seq::empty());
    while i < pairs.len()
        invariant
            i <= pairs@.len(),
            all == tree_pairs(pairs@),
            reserved@ == "type"@,
            bag_of(all.take(i as int)) == Some(bag_view(out@)),
        decreases pairs@.len() - i,
    {
        let ghost before = all.take(i as int);
        let ghost now = all.take(i + 1);
        assert(now.drop_last() =~= before);
        assert(now.last() == all[i as int]);
        match &pairs[i].0 {
            Node::Text(key) => {
                if *key != reserved {
                    let ghost old_view = bag_view(out@);
                    out.push((key.clone(), copy_node(&pairs[i].1)));
                    assert(bag_view(out@) =~= old_view.push((key@, pairs@[i as int].1.tree())));
                }
            },
            _ => {
                proof {
                    bag_needs_text_keys(all, i as int);
                }
                return None;
            },
        }
        i = i + 1;
    }
    assert(all.take(i as int) =~= all);
    Some(out)
}

/// An entry with a key that is not a text has no bag.
pub proof fn bag_needs_text_keys(pairs: Seq<(Tree, Tree)>, i: int)
    requires
        0 <= i < pairs.len(),
        !(pairs[i].0 is Text),
    ensures
        bag_of(pairs) is None,
    decreases pairs.len(),
{
    if i < pairs.len() - 1 {
        assert(pairs.drop_last()[i] == pairs[i]);
        bag_needs_text_keys(pairs.drop_last(), i);
    }
}

/// The bag of a scorer keeps every field of its entry but `type`, with the
/// value the entry gives it.
pub proof fn bag_keeps_fields(pairs: Seq<(Tree, Tree)>, i: int)
    requires
        0 <= i < pairs.len(),
        bag_of(pairs) is Some,
        pairs[i].0 is Text,
        pairs[i].0->Text_0 != "type"@,
    ensures
        bag_of(pairs)->0.contains((pairs[i].0->Text_0, pairs[i].1)),
    decreases pairs.len(),
{
    let front = bag_of(pairs.drop_last())->0;
    let bag = bag_of(pairs)->0;
    if i == pairs.len() - 1 {
        assert(bag == front.push((pairs[i].0->Text_0, pairs[i].1)));
        assert(bag[bag.len() - 1] == (pairs[i].0->Text_0, pairs[i].1));
    } else {
        assert(pairs.drop_last()[i] == pairs[i]);
        bag_keeps_fields(pairs.drop_last(), i);
        let j = choose|j: int| 0 <= j < front.len() && front[j] == (pairs[i].0->Text_0, pairs[i].1);
        assert(bag[j] == front[j]);
    }
}

/// An entry whose keys are all texts, with a text under `type`, describes
/// a scorer: its type is that text, and its bag is what `bag_of` gathers.
pub proof fn scorer_with_other_fields_is_read(pairs: Seq<(Tree, Tree)>, kind: Seq<char>)
    requires
        field(pairs, "type"@) == Some(Tree::Text(kind)),
        forall|i: int| 0 <= i < pairs.len() ==> (#[trigger] pairs[i]).0 is Text,
    ensures
        bag_of(pairs) is Some,
        scorer_of(Tree::Pairs(pairs)) == Ok::<ScorerConfigView, Seq<char>>(
            ScorerConfigView { scorer_type: kind, config: bag_of(pairs)->0 },
        ),
{
    bag_of_text_keys(pairs);
}

/// An entry whose keys are all texts has a bag.
pub proof fn bag_of_text_keys(pairs: Seq<(Tree, Tree)>)
    requires
        forall|i: int| 0 <= i < pairs.len() ==> (#[trigger] pairs[i]).0 is Text,
    ensures
        bag_of(pairs) is Some,
    decreases pairs.len(),
{
    if pairs.len() > 0 {
        assert forall|i: int| 0 <= i < pairs.drop_last().len() implies (
        #[trigger] pairs.drop_last()[i]).0 is Text by {
            assert(pairs.drop_last()[i] == pairs[i]);
        }
        bag_of_text_keys(pairs.drop_last());
        assert(pairs.last() == pairs[pairs.len() - 1]);
    }
}

/// Reads a scorer from one entry of the scorer list.
pub fn scorer_from(node: &Node) -> (r: Result<ScorerConfig, String>)
    ensures
        match r {
            Ok(d) => scorer_of(node.tree()) == Ok::<ScorerConfigView, Seq<char>>(d.deep_view()),
            Err(m) => scorer_of(node.tree()) == Err::<ScorerConfigView, Seq<char>>(m@),
        },
{
    match node {
        Node::Pairs(pairs) => {
            proof {
                tree_of_pairs(*pairs);
            }
            let scorer_type = match get_text(pairs, "type", "scorer.type") {
                Ok(v) => v,
                Err(m) => return Err(m),
            };
            match bag_from(pairs) {
                Some(config) => Ok(ScorerConfig { scorer_type, config }),
                None => Err(
                    String::from_str("invalid type for field `").concat("scorer").concat("`"),
                ),
            }
        },
        _ => Err(String::from_str("invalid type for field `").concat("scorer").concat("`")),
    }
}

/// A list with an entry that describes no scorer describes none, and the
/// message is that of its first such entry.
pub proof fn scorers_stop_at(items: Seq<Tree>, i: int)
    requires
        0 <= i < items.len(),
        scorers_of(items.take(i)) is Ok,
        scorer_of(items[i]) is Err,
    ensures
        scorers_of(items) == Err::<Seq<ScorerConfigView>, Seq<char>>(scorer_of(items[i])->Err_0),
    decreases items.len(),
{
    if i == items.len() - 1 {
        assert(items.drop_last() =~= items.take(i));
    } else {
        assert(items.drop_last().take(i) =~= items.take(i));
        assert(items.drop_last()[i] == items[i]);
        scorers_stop_at(items.drop_last(), i);
    }
}

/// Reads the scorers from the items of the scorer list.
pub fn scorers_from(items: &Vec<Node>) -> (r: Result<Vec<ScorerConfig>, String>)
    ensures
        match r {
            Ok(d) => scorers_of(trees(items@)) == Ok::<Seq<ScorerConfigView>, Seq<char>>(
                scorer_views(d@),
            ),
            Err(m) => scorers_of(trees(items@)) == Err::<Seq<ScorerConfigView>, Seq<char>>(m@),
        },
{
    let ghost all = trees(items@);
    let mut out: Vec<ScorerConfig> = Vec::new();
    let mut i: usize = 0;
    assert(all.take(0) =~= Seq::empty());
    assert(scorer_views(out@) =~= Seq::empty());
    while i < items.len()
        invariant
            i <= items@.len(),
            all == trees(items@),
            scorers_of(all.take(i as int)) == Ok::<Seq<ScorerConfigView>, Seq<char>>(
                scorer_views(out@),
            ),
        decreases items@.len() - i,
    {
        let ghost now = all.take(i + 1);
        assert(now.drop_last() =~= all.take(i as int));
        assert(now.last() == items@[i as int].tree());
        match scorer_from(&items[i]) {
            Ok(s) => {
                let ghost old_view = scorer_views(out@);
                let ghost sv = s.deep_view();
                out.push(s);
                assert(scorer_views(out@) =~= old_view.push(sv));
            },
            Err(m) => {
                proof {
                    scorers_stop_at(all, i as int);
                }
                return Err(m);
            },
        }
        i = i + 1;
    }
    assert(all.take(i as int) =~= all);
    Ok(out)
}

/// The texts of a list whose items are all texts.
pub open spec fn texts_of(items: Seq<Tree>) -> Option<Seq<Seq<char>>>
    decreases items.len(),
{
    if items.len() == 0 {
        Some(Seq::empty())
    } else {
        match (texts_of(items.drop_last()), items.last()) {
            (Some(front), Tree::Text(s)) => Some(front.push(s)),
            _ => None,
        }
    }
}

/// A list with an item that is not a text is no list of texts.
pub proof fn texts_need_text(items: Seq<Tree>, i: int)
    requires
        0 <= i < items.len(),
        !(items[i] is Text),
    ensures
        texts_of(items) is None,
    decreases items.len(),
{
    if i < items.len() - 1 {
        assert(items.drop_last()[i] == items[i]);
        texts_need_text(items.drop_last(), i);
    }
}

/// The model reference under the key `model`: a single text is one model,
/// a list of texts is several, and anything else is refused.
pub open spec fn model_of(pairs: Seq<(Tree, Tree)>) -> Result<ModelRefView, Seq<char>> {
    match field(pairs, "model"@) {
        None => Err(missing("execution.model"@)),
        Some(Tree::Text(s)) => Ok(ModelRefView::Single(s)),
        Some(Tree::List(items)) => match texts_of(items) {
            Some(names) => Ok(ModelRefView::Multiple(names)),
            None => Err(mismatch("execution.model"@)),
        },
        Some(_) => Err(mismatch("execution.model"@)),
    }
}

/// Reads the texts of a list of nodes.
pub fn texts_from(items: &Vec<Node>) -> (r: Option<Vec<String>>)
    ensures
        match r {
            Some(names) => texts_of(trees(items@)) == Some(texts(names@)),
            None => texts_of(trees(items@)) is None,
        },
{
    let ghost all = trees(items@);
    let mut out: Vec<String> = Vec::new();
    let mut i: usize = 0;
    assert(all.take(0) =~= Seq::empty());
    assert(texts(out@) =~= Seq::empty());
    while i < items.len()
        invariant
            i <= items@.len(),
            all == trees(items@),
            texts_of(all.take(i as int)) == Some(texts(out@)),
        decreases items@.len() - i,
    {
        let ghost now = all.take(i + 1);
        assert(now.drop_last() =~= all.take(i as int));
        assert(now.last() == items@[i as int].tree());
        match &items[i] {
            Node::Text(s) => {
                let ghost old_view = texts(out@);
                out.push(s.clone());
                assert(texts(out@) =~= old_view.push(s@));
            },
            _ => {
                proof {
                    texts_need_text(all, i as int);
                }
                return None;
            },
        }
        i = i + 1;
    }
    assert(all.take(i as int) =~= all);
    Some(out)
}

/// Reads the model reference of an execution record.
pub fn model_from(pairs: &Vec<(Node, Node)>) -> (r: Result<ModelRef, String>)
    ensures
        match r {
            Ok(d) => model_of(tree_pairs(pairs@)) == Ok::<ModelRefView, Seq<char>>(d.deep_view()),
            Err(m) => model_of(tree_pairs(pairs@)) == Err::<ModelRefView, Seq<char>>(m@),
        },
{
    match find_field(pairs, "model") {
        None => Err(String::from_str("missing field `").concat("execution.model").concat("`")),
        Some(Node::Text(s)) => Ok(ModelRef::Single(s.clone())),
        Some(Node::List(items)) => {
            proof {
                tree_of_list(*items);
            }
            match texts_from(items) {
                Some(names) => Ok(ModelRef::Multiple(names)),
                None => Err(
                    String::from_str("invalid type for field `").concat("execution.model").concat(
                        "`",
                    ),
                ),
            }
        },
        Some(_) => Err(
            String::from_str("invalid type for field `").concat("execution.model").concat("`"),
        ),
    }
}

/// The execution settings that a record of fields describes.
pub open spec fn execution_of(pairs: Seq<(Tree, Tree)>) -> Result<ExecutionConfigView, Seq<char>> {
    match need_count(pairs, "max_concurrent"@, "execution.max_concurrent"@, u32::MAX as int) {
        Err(m) => Err(m),
        Ok(max_concurrent) => match need_count(
            pairs,
            "timeout_seconds"@,
            "execution.timeout_seconds"@,
            u32::MAX as int,
        ) {
            Err(m) => Err(m),
            Ok(timeout_seconds) => match need_count(
                pairs,
                "retries"@,
                "execution.retries"@,
                u32::MAX as int,
            ) {
                Err(m) => Err(m),
                Ok(retries) => match model_of(pairs) {
                    Err(m) => Err(m),
                    Ok(model) => Ok(
                        ExecutionConfigView {
                            max_concurrent: max_concurrent as u32,
                            timeout_seconds: timeout_seconds as u32,
                            retries: retries as u32,
                            model,
                        },
                    ),
                },
            },
        },
    }
}

/// Reads the execution settings from a record of fields.
pub fn execution_from(pairs: &Vec<(Node, Node)>) -> (r: Result<ExecutionConfig, String>)
    ensures
        match r {
            Ok(d) => execution_of(tree_pairs(pairs@)) == Ok::<ExecutionConfigView, Seq<char>>(
                d.deep_view(),
            ),
            Err(m) => execution_of(tree_pairs(pairs@)) == Err::<ExecutionConfigView, Seq<char>>(
                m@,
            ),
        },
{
    let max_concurrent = match get_count(
        pairs,
        "max_concurrent",
        "execution.max_concurrent",
        0xffff_ffff,
    ) {
        Ok(v) => v as u32,
        Err(m) => return Err(m),
    };
    let timeout_seconds = match get_count(
        pairs,
        "timeout_seconds",
        "execution.timeout_seconds",
        0xffff_ffff,
    ) {
        Ok(v) => v as u32,
        Err(m) => return Err(m),
    };
    let retries = match get_count(pairs, "retries", "execution.retries", 0xffff_ffff) {
        Ok(v) => v as u32,
        Err(m) => return Err(m),
    };
    let model = match model_from(pairs) {
        Ok(v) => v,
        Err(m) => return Err(m),
    };
    Ok(ExecutionConfig { max_concurrent, timeout_seconds, retries, model })
}

/// The scorers under the key `scorer`, which must hold a list.
pub open spec fn scorer_list_of(pairs: Seq<(Tree, Tree)>) -> Result<
    Seq<ScorerConfigView>,
    Seq<char>,
> {
    match field(pairs, "scorer"@) {
        None => Err(missing("scorer"@)),
        Some(Tree::List(items)) => scorers_of(items),
        Some(_) => Err(mismatch("scorer"@)),
    }
}

/// The message for a document that is not a record of fields.
pub open spec fn not_a_record() -> Seq<char> {
    "invalid type: expected a record of fields"@
}

/// The definition that a document describes, or the message for the first
/// field, in the order `id`, `name`, `description`, `dataset`, `solver`,
/// `scorer`, `execution`, that is missing or has another shape than it
/// takes. Fields that a definition does not know are passed over.
pub open spec fn definition_of(doc: Tree) -> Result<EvalDefinitionView, Seq<char>> {
    match doc {
        Tree::Pairs(pairs) => match need_text(pairs, "id"@, "id"@) {
            Err(m) => Err(m),
            Ok(id) => match need_text(pairs, "name"@, "name"@) {
                Err(m) => Err(m),
                Ok(name) => match opt_text(pairs, "description"@, "description"@) {
                    Err(m) => Err(m),
                    Ok(description) => match need_record(pairs, "dataset"@, "dataset"@) {
                        Err(m) => Err(m),
                        Ok(dataset_fields) => match dataset_of(dataset_fields) {
                            Err(m) => Err(m),
                            Ok(dataset) => match need_record(pairs, "solver"@, "solver"@) {
                                Err(m) => Err(m),
                                Ok(solver_fields) => match solver_of(solver_fields) {
                                    Err(m) => Err(m),
                                    Ok(solver) => match scorer_list_of(pairs) {
                                        Err(m) => Err(m),
                                        Ok(scorer) => match need_record(
                                            pairs,
                                            "execution"@,
                                            "execution"@,
                                        ) {
                                            Err(m) => Err(m),
                                            Ok(execution_fields) => match execution_of(
                                                execution_fields,
                                            ) {
                                                Err(m) => Err(m),
                                                Ok(execution) => Ok(
                                                    EvalDefinitionView {
                                                        id,
                                                        name,
                                                        description,
                                                        dataset,
                                                        solver,
                                                        scorer,
                                                        execution,
                                                    },
                                                ),
                                            },
                                        },
                                    },
                                },
                            },
                        },
                    },
                },
            },
        },
        _ => Err(not_a_record()),
    }
}

/// Reads an evaluation definition from a parsed document.
pub fn definition_from(doc: &Node) -> (r: Result<EvalDefinition, String>)
    ensures
        match r {
            Ok(d) => definition_of(doc.tree()) == Ok::<EvalDefinitionView, Seq<char>>(
                d.deep_view(),
            ),
            Err(m) => definition_of(doc.tree()) == Err::<EvalDefinitionView, Seq<char>>(m@),
        },
{
    let pairs = match doc {
        Node::Pairs(pairs) => pairs,
        _ => return Err(String::from_str("invalid type: expected a record of fields")),
    };
    proof {
        tree_of_pairs(*pairs);
    }
    let id = match get_text(pairs, "id", "id") {
        Ok(v) => v,
        Err(m) => return Err(m),
    };
    let name = match get_text(pairs, "name", "name") {
        Ok(v) => v,
        Err(m) => return Err(m),
    };
    let description = match get_opt_text(pairs, "description", "description") {
        Ok(v) => v,
        Err(m) => return Err(m),
    };
    let dataset = match get_record(pairs, "dataset", "dataset") {
        Ok(fields) => match dataset_from(fields) {
            Ok(v) => v,
            Err(m) => return Err(m),
        },
        Err(m) => return Err(m),
    };
    let solver = match get_record(pairs, "solver", "solver") {
        Ok(fields) => match solver_from(fields) {
            Ok(v) => v,
            Err(m) => return Err(m),
        },
        Err(m) => return Err(m),
    };
    let scorer = match find_field(pairs, "scorer") {
        None => return Err(String::from_str("missing field `").concat("scorer").concat("`")),
        Some(Node::List(items)) => {
            proof {
                tree_of_list(*items);
            }
            match scorers_from(items) {
                Ok(v) => v,
                Err(m) => return Err(m),
            }
        },
        Some(_) => return Err(
            String::from_str("invalid type for field `").concat("scorer").concat("`"),
        ),
    };
    let execution = match get_record(pairs, "execution", "execution") {
        Ok(fields) => match execution_from(fields) {
            Ok(v) => v,
            Err(m) => return Err(m),
        },
        Err(m) => return Err(m),
    };
    Ok(EvalDefinition { id, name, description, dataset, solver, scorer, execution })
}

/// What a listing shows of the definition read from the file at `path`.
pub open spec fn summary_of(def: EvalDefinitionView, path: Seq<char>) -> EvalSummaryView {
    EvalSummaryView { id: def.id, name: def.name, description: def.description, path }
}

/// Makes the summary of a definition that was read from the file at
/// `path`.
pub fn summarize(def: EvalDefinition, path: String) -> (r: EvalSummary)
    ensures
        r.deep_view() == summary_of(def.deep_view(), path@),
{
    EvalSummary { id: def.id, name: def.name, description: def.description, path }
}

} // verus!
