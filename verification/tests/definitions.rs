use assay_core::document::{copy_node, find_field, parse_yaml, Node};
use assay_core::eval::{definition_from, summarize, ModelRef};
use assay_core::loader::parse_definition;

const FULL: &str = "
id: math-1
name: Math
description: Grade school math
dataset:
  source: hf
  path: gsm8k
  split: test
  limit: 100
  shuffle: true
  seed: 42
solver:
  type: chain
  system_prompt: You are careful.
  tools:
    - name: calc
    - 7
  max_turns: 3
  sandbox:
    image: alpine
scorer:
  - type: exact_match
  - type: model_graded
    model: judge-1
    rubric: strict
    threshold: 0.5
execution:
  max_concurrent: 4
  timeout_seconds: 60
  retries: 2
  model: gpt-x
";

const MINIMAL: &str = "
id: a
name: A
dataset: {source: s, path: p}
solver: {type: t}
scorer: []
execution: {max_concurrent: 1, timeout_seconds: 2, retries: 0, model: [m1, m2]}
";

fn text_of(node: &Node) -> &str {
    match node {
        Node::Text(s) => s,
        other => panic!("no text: {:?}", other),
    }
}

#[test]
fn full_definition_is_read() {
    let def = parse_definition(FULL).unwrap();
    assert_eq!(def.id, "math-1");
    assert_eq!(def.name, "Math");
    assert_eq!(def.description.as_deref(), Some("Grade school math"));
    assert_eq!(def.dataset.source, "hf");
    assert_eq!(def.dataset.path, "gsm8k");
    assert_eq!(def.dataset.split.as_deref(), Some("test"));
    assert_eq!(def.dataset.limit, Some(100));
    assert_eq!(def.dataset.shuffle, Some(true));
    assert_eq!(def.dataset.seed, Some(42));
    assert_eq!(def.solver.solver_type, "chain");
    assert_eq!(def.solver.system_prompt.as_deref(), Some("You are careful."));
    assert_eq!(def.solver.max_turns, Some(3));
    let tools = def.solver.tools.as_ref().unwrap();
    assert_eq!(tools.len(), 2);
    assert!(matches!(&tools[0], Node::Pairs(p) if p.len() == 1));
    assert!(matches!(&tools[1], Node::Number(n) if n == "7"));
    match def.solver.sandbox.as_ref().unwrap() {
        Node::Pairs(p) => {
            assert_eq!(text_of(&p[0].0), "image");
            assert_eq!(text_of(&p[0].1), "alpine");
        }
        other => panic!("{:?}", other),
    }
    assert_eq!(def.scorer.len(), 2);
    assert_eq!(def.execution.max_concurrent, 4);
    assert_eq!(def.execution.timeout_seconds, 60);
    assert_eq!(def.execution.retries, 2);
    assert!(matches!(&def.execution.model, ModelRef::Single(m) if m == "gpt-x"));
}

#[test]
fn scorer_keeps_fields_it_does_not_know() {
    let def = parse_definition(FULL).unwrap();
    assert_eq!(def.scorer[0].scorer_type, "exact_match");
    assert!(def.scorer[0].config.is_empty());
    let graded = &def.scorer[1];
    assert_eq!(graded.scorer_type, "model_graded");
    assert_eq!(graded.config.len(), 3);
    assert_eq!(graded.config[0].0, "model");
    assert_eq!(text_of(&graded.config[0].1), "judge-1");
    assert_eq!(graded.config[1].0, "rubric");
    assert_eq!(text_of(&graded.config[1].1), "strict");
    assert_eq!(graded.config[2].0, "threshold");
    assert!(matches!(&graded.config[2].1, Node::Number(n) if n == "0.5"));
}

#[test]
fn scorer_bag_keeps_nested_values() {
    let text = MINIMAL.replace(
        "scorer: []",
        "scorer:\n  - weights: [1, 2]\n    type: model_graded\n    opts: {deep: {deeper: null}}",
    );
    let def = parse_definition(&text).unwrap();
    let bag = &def.scorer[0].config;
    assert_eq!(def.scorer[0].scorer_type, "model_graded");
    assert_eq!(bag.len(), 2);
    assert_eq!(bag[0].0, "weights");
    assert!(matches!(&bag[0].1, Node::List(items) if items.len() == 2));
    assert_eq!(bag[1].0, "opts");
    match &bag[1].1 {
        Node::Pairs(p) => match &p[0].1 {
            Node::Pairs(q) => assert!(matches!(&q[0].1, Node::Null)),
            other => panic!("{:?}", other),
        },
        other => panic!("{:?}", other),
    }
}

#[test]
fn optional_fields_default_to_absent() {
    let def = parse_definition(MINIMAL).unwrap();
    assert_eq!(def.description, None);
    assert_eq!(def.dataset.split, None);
    assert_eq!(def.dataset.limit, None);
    assert_eq!(def.dataset.shuffle, None);
    assert_eq!(def.dataset.seed, None);
    assert_eq!(def.solver.system_prompt, None);
    assert!(def.solver.tools.is_none());
    assert_eq!(def.solver.max_turns, None);
    assert!(def.solver.sandbox.is_none());
    assert!(def.scorer.is_empty());
}

#[test]
fn null_counts_as_absent_for_optional_fields() {
    let text = MINIMAL.replace(
        "dataset: {source: s, path: p}",
        "description: null\ndataset: {source: s, path: p, split: ~, limit: null, shuffle: null, seed: ~}",
    ).replace("solver: {type: t}", "solver: {type: t, tools: null, sandbox: null, max_turns: ~}");
    let def = parse_definition(&text).unwrap();
    assert_eq!(def.description, None);
    assert_eq!(def.dataset.limit, None);
    assert!(def.solver.tools.is_none());
    assert!(def.solver.sandbox.is_none());
}

#[test]
fn model_is_one_name_or_a_list_of_names() {
    let def = parse_definition(MINIMAL).unwrap();
    match &def.execution.model {
        ModelRef::Multiple(names) => assert_eq!(names, &vec![String::from("m1"), String::from("m2")]),
        other => panic!("{:?}", other),
    }
    let single = MINIMAL.replace("model: [m1, m2]", "model: only");
    assert!(matches!(parse_definition(&single).unwrap().execution.model, ModelRef::Single(m) if m == "only"));
    let empty = MINIMAL.replace("model: [m1, m2]", "model: []");
    assert!(matches!(parse_definition(&empty).unwrap().execution.model, ModelRef::Multiple(m) if m.is_empty()));
}

#[test]
fn model_of_another_shape_is_refused() {
    for bad in ["model: [m1, 2]", "model: 5", "model: {a: b}", "model: null", "model: [[m1]]", "model: true"] {
        let text = MINIMAL.replace("model: [m1, m2]", bad);
        assert_eq!(
            parse_definition(&text).unwrap_err(),
            "invalid type for field `execution.model`",
            "{}",
            bad
        );
    }
    let text = MINIMAL.replace(", model: [m1, m2]", "");
    assert_eq!(parse_definition(&text).unwrap_err(), "missing field `execution.model`");
}

#[test]
fn missing_definition_fields_are_named() {
    let cases = [
        ("id: a\n", "missing field `id`"),
        ("name: A\n", "missing field `name`"),
        ("dataset: {source: s, path: p}\n", "missing field `dataset`"),
        ("solver: {type: t}\n", "missing field `solver`"),
        ("scorer: []\n", "missing field `scorer`"),
        (
            "execution: {max_concurrent: 1, timeout_seconds: 2, retries: 0, model: [m1, m2]}\n",
            "missing field `execution`",
        ),
        ("source: s, ", "missing field `dataset.source`"),
        (", path: p", "missing field `dataset.path`"),
        ("type: t", "missing field `solver.type`"),
        ("max_concurrent: 1, ", "missing field `execution.max_concurrent`"),
        ("timeout_seconds: 2, ", "missing field `execution.timeout_seconds`"),
        ("retries: 0, ", "missing field `execution.retries`"),
    ];
    for (cut, message) in cases {
        assert!(MINIMAL.contains(cut), "{}", cut);
        let text = MINIMAL.replace(cut, "");
        assert_eq!(parse_definition(&text).unwrap_err(), message);
    }
}

#[test]
fn the_first_flaw_in_field_order_is_reported() {
    assert_eq!(parse_definition("{}").unwrap_err(), "missing field `id`");
    assert_eq!(parse_definition("name: 5\nid: a").unwrap_err(), "invalid type for field `name`");
    assert_eq!(
        parse_definition("id: a\nname: A\nexecution: 5").unwrap_err(),
        "missing field `dataset`"
    );
}

#[test]
fn values_of_another_shape_are_refused() {
    let cases = [
        ("id: a", "id: 5", "invalid type for field `id`"),
        ("id: a", "id: [a]", "invalid type for field `id`"),
        ("name: A", "name: null", "invalid type for field `name`"),
        ("name: A", "name: A\ndescription: 5", "invalid type for field `description`"),
        ("dataset: {source: s, path: p}", "dataset: [s, p]", "invalid type for field `dataset`"),
        ("path: p", "path: p, split: 1", "invalid type for field `dataset.split`"),
        ("path: p", "path: p, limit: -1", "invalid type for field `dataset.limit`"),
        ("path: p", "path: p, limit: 1.5", "invalid type for field `dataset.limit`"),
        ("path: p", "path: p, limit: '1'", "invalid type for field `dataset.limit`"),
        ("path: p", "path: p, limit: 4294967296", "invalid type for field `dataset.limit`"),
        ("path: p", "path: p, shuffle: 1", "invalid type for field `dataset.shuffle`"),
        ("path: p", "path: p, shuffle: 'yes'", "invalid type for field `dataset.shuffle`"),
        ("path: p", "path: p, seed: -3", "invalid type for field `dataset.seed`"),
        ("type: t", "type: t, tools: 5", "invalid type for field `solver.tools`"),
        ("type: t", "type: t, tools: {a: b}", "invalid type for field `solver.tools`"),
        ("type: t", "type: t, max_turns: x", "invalid type for field `solver.max_turns`"),
        ("type: t", "type: t, system_prompt: [x]", "invalid type for field `solver.system_prompt`"),
        ("scorer: []", "scorer: {type: x}", "invalid type for field `scorer`"),
        ("scorer: []", "scorer: [5]", "invalid type for field `scorer`"),
        ("scorer: []", "scorer: [{type: x, 5: y}]", "invalid type for field `scorer`"),
        ("scorer: []", "scorer: [{type: 5}]", "invalid type for field `scorer.type`"),
        ("scorer: []", "scorer: [{type: x}, {kind: y}]", "missing field `scorer.type`"),
        ("retries: 0", "retries: many", "invalid type for field `execution.retries`"),
        ("max_concurrent: 1", "max_concurrent: 1.0", "invalid type for field `execution.max_concurrent`"),
        ("timeout_seconds: 2", "timeout_seconds: null", "invalid type for field `execution.timeout_seconds`"),
    ];
    for (from, to, message) in cases {
        assert!(MINIMAL.contains(from), "{}", from);
        let text = MINIMAL.replacen(from, to, 1);
        assert_eq!(parse_definition(&text).unwrap_err(), message, "{}", to);
    }
}

#[test]
fn counts_take_the_whole_range() {
    let text = MINIMAL
        .replace("path: p", "path: p, limit: 4294967295, seed: 18446744073709551615")
        .replace("retries: 0", "retries: 4294967295");
    let def = parse_definition(&text).unwrap();
    assert_eq!(def.dataset.limit, Some(u32::MAX));
    assert_eq!(def.dataset.seed, Some(u64::MAX));
    assert_eq!(def.execution.retries, u32::MAX);
}

#[test]
fn documents_that_are_no_record_are_refused() {
    for text in ["[1, 2]", "just text", "5", "", "null"] {
        assert_eq!(
            parse_definition(text).unwrap_err(),
            "invalid type: expected a record of fields",
            "{:?}",
            text
        );
    }
}

#[test]
fn text_that_is_no_yaml_is_refused_with_the_parser_message() {
    let message = parse_definition("id: [unclosed").unwrap_err();
    assert!(!message.is_empty());
    assert!(!message.starts_with("missing field"), "{}", message);
    let message = parse_definition("id: a\nid: b\n").unwrap_err();
    assert!(message.contains("duplicate"), "{}", message);
}

#[test]
fn fields_that_a_definition_does_not_know_are_passed_over() {
    let text = format!("{}\nowner: someone\ntags: [x]\n", MINIMAL);
    assert_eq!(parse_definition(&text).unwrap().id, "a");
}

#[test]
fn parsed_document_is_a_tree_of_plain_values() {
    let doc = parse_yaml("a: 1\nb: [true, ~, -2, 1.5, x]\nc: !tag v\n7: y\n").unwrap();
    let pairs = match &doc {
        Node::Pairs(p) => p,
        other => panic!("{:?}", other),
    };
    assert_eq!(pairs.len(), 4);
    assert!(matches!(find_field(pairs, "a"), Some(Node::Number(n)) if n == "1"));
    match find_field(pairs, "b") {
        Some(Node::List(items)) => {
            assert!(matches!(&items[0], Node::Bool(true)));
            assert!(matches!(&items[1], Node::Null));
            assert!(matches!(&items[2], Node::Number(n) if n == "-2"));
            assert!(matches!(&items[3], Node::Number(n) if n == "1.5"));
            assert!(matches!(&items[4], Node::Text(t) if t == "x"));
        }
        other => panic!("{:?}", other),
    }
    assert!(matches!(find_field(pairs, "c"), Some(Node::Tagged(tag, inner)) if tag == "!tag" && matches!(&**inner, Node::Text(t) if t == "v")));
    assert!(find_field(pairs, "7").is_none());
    assert!(find_field(pairs, "d").is_none());
    assert!(matches!(&pairs[3].0, Node::Number(n) if n == "7"));
}

#[test]
fn copy_of_a_node_holds_the_same() {
    let doc = parse_yaml("a: [1, {b: c}, !t [x]]\n").unwrap();
    let copy = copy_node(&doc);
    assert_eq!(format!("{:?}", copy), format!("{:?}", doc));
}

#[test]
fn definition_from_a_built_document() {
    let field = |k: &str, v: Node| (Node::Text(String::from(k)), v);
    let text = |s: &str| Node::Text(String::from(s));
    let number = |s: &str| Node::Number(String::from(s));
    let doc = Node::Pairs(vec![
        field("id", text("i")),
        field("name", text("n")),
        field("dataset", Node::Pairs(vec![field("source", text("s")), field("path", text("p"))])),
        field("solver", Node::Pairs(vec![field("type", text("t"))])),
        field("scorer", Node::List(vec![Node::Pairs(vec![field("k", number("1")), field("type", text("st"))])])),
        field(
            "execution",
            Node::Pairs(vec![
                field("max_concurrent", number("8")),
                field("timeout_seconds", number("30")),
                field("retries", number("1")),
                field("model", text("m")),
            ]),
        ),
    ]);
    let def = definition_from(&doc).unwrap();
    assert_eq!(def.scorer[0].scorer_type, "st");
    assert_eq!(def.scorer[0].config.len(), 1);
    assert_eq!(def.scorer[0].config[0].0, "k");
    assert_eq!(def.execution.max_concurrent, 8);
    let summary = summarize(def, String::from("/p/evals/i.yaml"));
    assert_eq!(summary.id, "i");
    assert_eq!(summary.name, "n");
    assert_eq!(summary.description, None);
    assert_eq!(summary.path, "/p/evals/i.yaml");
}
