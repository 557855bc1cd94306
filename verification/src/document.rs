//! A parsed document as a tree of plain values.

use serde_yaml::Value;
use vstd::prelude::*;
use vstd::string::*;

verus! {

/// A value of a structured document.
#[derive(Debug)]
pub enum Node {
    /// The absent value.
    Null,
    Bool(bool),
    /// A number in its text form: a whole number in decimal digits, with a
    /// leading `-` where it is below zero; any other number has a `.`, an
    /// exponent, or is one of `.nan`, `.inf` and `-.inf`.
    Number(String),
    Text(String),
    List(Vec<Node>),
    /// Key and value pairs in document order.
    Pairs(Vec<(Node, Node)>),
    /// A value under an explicit tag.
    Tagged(String, Box<Node>),
}

/// The mathematical form of a [`Node`].
pub enum Tree {
    Null,
    Bool(bool),
    Number(Seq<char>),
    Text(Seq<char>),
    List(Seq<Tree>),
    Pairs(Seq<(Tree, Tree)>),
    Tagged(Seq<char>, Box<Tree>),
}

impl Node {
    /// The tree that this node stands for.
    pub open spec fn tree(&self) -> Tree
        decreases self,
    {
        match self {
            Node::Null => Tree::Null,
            Node::Bool(b) => Tree::Bool(*b),
            Node::Number(s) => Tree::Number(s@),
            Node::Text(s) => Tree::Text(s@),
            Node::List(items) => Tree::List(
                Seq::new(
                    items@.len(),
                    |i: int|
                        if 0 <= i < items@.len() {
                            items@[i].tree()
                        } else {
                            Tree::Null
                        },
                ),
            ),
            Node::Pairs(pairs) => Tree::Pairs(
                Seq::new(
                    pairs@.len(),
                    |i: int|
                        if 0 <= i < pairs@.len() {
                            (pairs@[i].0.tree(), pairs@[i].1.tree())
                        } else {
                            (Tree::Null, Tree::Null)
                        },
                ),
            ),
            Node::Tagged(tag, inner) => Tree::Tagged(tag@, Box::new((**inner).tree())),
        }
    }
}

impl DeepView for Node {
    type V = Tree;

    open spec fn deep_view(&self) -> Tree {
        self.tree()
    }
}

/// Declares `serde_yaml::Value`, which is only carried from the parser to
/// the conversion below.
#[verifier::external_type_specification]
#[verifier::external_body]
pub struct ExYamlValue(Value);

/// What `serde_yaml` reads from a text: the document's value as a tree, or
/// the message of the parser's error.
pub uninterp spec fn yaml_document(text: Seq<char>) -> Result<Tree, Seq<char>>;

/// The tree that a `serde_yaml::Value` holds.
pub uninterp spec fn yaml_tree(value: Value) -> Tree;

/// Calls `serde_yaml::from_str` for a `serde_yaml::Value`; an error is
/// turned into its message.
#[verifier::external_body]
pub(crate) fn yaml_value(text: &str) -> (r: Result<Value, String>)
    ensures
        match r {
            Ok(value) => yaml_document(text@) == Ok::<Tree, Seq<char>>(yaml_tree(value)),
            Err(message) => yaml_document(text@) == Err::<Tree, Seq<char>>(message@),
        },
{
    serde_yaml::from_str::<Value>(text).map_err(|e| e.to_string())
}

/// Copies a `serde_yaml::Value` into a [`Node`], variant by variant. A
/// number and a tag are kept as the text that their `Display` impls write.
#[verifier::external_body]
pub(crate) fn node_of_yaml(value: &Value) -> (r: Node)
    ensures
        r.deep_view() == yaml_tree(*value),
{
    match value {
        Value::Null => Node::Null,
        Value::Bool(b) => Node::Bool(*b),
        Value::Number(n) => Node::Number(n.to_string()),
        Value::String(s) => Node::Text(s.clone()),
        Value::Sequence(s) => Node::List(s.iter().map(node_of_yaml).collect()),
        Value::Mapping(m) => Node::Pairs(
            m.iter().map(|(k, v)| (node_of_yaml(k), node_of_yaml(v))).collect(),
        ),
        Value::Tagged(t) => Node::Tagged(t.tag.to_string(), Box::new(node_of_yaml(&t.value))),
    }
}

/// Parses a YAML text into a document tree.
pub fn parse_yaml(text: &str) -> (r: Result<Node, String>)
    ensures
        match r {
            Ok(node) => yaml_document(text@) == Ok::<Tree, Seq<char>>(node.deep_view()),
            Err(message) => yaml_document(text@) == Err::<Tree, Seq<char>>(message@),
        },
{
    match yaml_value(text) {
        Ok(value) => Ok(node_of_yaml(&value)),
        Err(message) => Err(message),
    }
}

/// The value under the first key of `pairs` that is the text `key`.
pub open spec fn field(pairs: Seq<(Tree, Tree)>, key: Seq<char>) -> Option<Tree>
    decreases pairs.len(),
{
    if pairs.len() == 0 {
        None
    } else if pairs[0].0 == Tree::Text(key) {
        Some(pairs[0].1)
    } else {
        field(pairs.drop_first(), key)
    }
}

/// The trees of a vector of nodes.
pub open spec fn trees(items: Seq<Node>) -> Seq<Tree> {
    Seq::new(items.len(), |i: int| if 0 <= i < items.len() { items[i].tree() } else { Tree::Null })
}

/// The trees of a vector of key and value nodes.
pub open spec fn tree_pairs(pairs: Seq<(Node, Node)>) -> Seq<(Tree, Tree)> {
    Seq::new(
        pairs.len(),
        |i: int|
            if 0 <= i < pairs.len() {
                (pairs[i].0.tree(), pairs[i].1.tree())
            } else {
                (Tree::Null, Tree::Null)
            },
    )
}

/// The tree of a list node holds the trees of its items.
pub proof fn tree_of_list(items: Vec<Node>)
    ensures
        Node::List(items).tree() == Tree::List(trees(items@)),
{
    assert(Node::List(items).tree()->List_0 =~= trees(items@));
}

/// The tree of a record node holds the trees of its keys and values.
pub proof fn tree_of_pairs(pairs: Vec<(Node, Node)>)
    ensures
        Node::Pairs(pairs).tree() == Tree::Pairs(tree_pairs(pairs@)),
{
    assert(Node::Pairs(pairs).tree()->Pairs_0 =~= tree_pairs(pairs@));
}

/// Finds the value under `key` among `pairs`.
pub fn find_field<'a>(pairs: &'a Vec<(Node, Node)>, key: &str) -> (r: Option<&'a Node>)
    ensures
        match r {
            Some(node) => field(tree_pairs(pairs@), key@) == Some(node.tree()),
            None => field(tree_pairs(pairs@), key@) is None,
        },
{
    let ghost all = tree_pairs(pairs@);
    let wanted = String::from_str(key);
    let mut i: usize = 0;
    assert(all.subrange(0, all.len() as int) =~= all);
    while i < pairs.len()
        invariant
            i <= pairs@.len(),
            all == tree_pairs(pairs@),
            wanted@ == key@,
            field(all, key@) == field(all.subrange(i as int, all.len() as int), key@),
        decreases pairs@.len() - i,
    {
        let ghost here = all.subrange(i as int, all.len() as int);
        assert(here[0] == all[i as int]);
        assert(here.drop_first() =~= all.subrange(i + 1, all.len() as int));
        match &pairs[i].0 {
            Node::Text(name) => {
                if *name == wanted {
                    assert(here[0].0 == Tree::Text(key@));
                    return Some(&pairs[i].1);
                }
            },
            _ => {},
        }
        i = i + 1;
    }
    assert(all.subrange(i as int, all.len() as int).len() == 0);
    None
}

/// Copies a node and all that hangs below it.
pub fn copy_node(node: &Node) -> (r: Node)
    ensures
        r.tree() == node.tree(),
    decreases node,
{
    match node {
        Node::Null => Node::Null,
        Node::Bool(b) => Node::Bool(*b),
        Node::Number(s) => Node::Number(s.clone()),
        Node::Text(s) => Node::Text(s.clone()),
        Node::List(items) => {
            let mut out: Vec<Node> = Vec::new();
            let mut i: usize = 0;
            while i < items.len()
                invariant
                    i <= items@.len(),
                    out@.len() == i,
                    decreases_to!(node => items),
                    forall|j: int| 0 <= j < i ==> (#[trigger] out@[j]).tree() == items@[j].tree(),
                decreases items@.len() - i,
            {
                assert(decreases_to!(items => items[i as int]));
                out.push(copy_node(&items[i]));
                i = i + 1;
            }
            proof {
                assert(trees(out@) =~= trees(items@));
                tree_of_list(out);
                tree_of_list(*items);
            }
            Node::List(out)
        },
        Node::Pairs(pairs) => {
            let mut out: Vec<(Node, Node)> = Vec::new();
            let mut i: usize = 0;
            while i < pairs.len()
                invariant
                    i <= pairs@.len(),
                    out@.len() == i,
                    decreases_to!(node => pairs),
                    forall|j: int|
                        0 <= j < i ==> (#[trigger] out@[j]).0.tree() == pairs@[j].0.tree()
                            && out@[j].1.tree() == pairs@[j].1.tree(),
                decreases pairs@.len() - i,
            {
                assert(decreases_to!(pairs => pairs[i as int]));
                let key = copy_node(&pairs[i].0);
                let value = copy_node(&pairs[i].1);
                out.push((key, value));
                i = i + 1;
            }
            proof {
                assert(tree_pairs(out@) =~= tree_pairs(pairs@));
                tree_of_pairs(out);
                tree_of_pairs(*pairs);
            }
            Node::Pairs(out)
        },
        Node::Tagged(tag, inner) => Node::Tagged(tag.clone(), Box::new(copy_node(inner))),
    }
}

} // verus!
