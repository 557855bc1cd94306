use assay_core::commands;
use assay_core::db::{init_db, SCHEMA};
use assay_core::eval::{EvalDefinition, EvalSummary};
use assay_core::failure::{ErrorKind, Failure};
use assay_core::host::{EntryKind, Listed, Reply, Request, Step};
use assay_core::loader::{list_eval_summaries, load_eval_file};
use assay_core::project::{create_project, list_projects, open_project, ProjectInfo};
use assay_core::stamp::Timestamp;
use std::collections::{BTreeMap, BTreeSet};

/// A host that keeps everything in memory.
struct MemHost {
    files: BTreeMap<String, String>,
    dirs: BTreeSet<String>,
    fail: BTreeSet<String>,
    log: Vec<String>,
}

impl MemHost {
    fn new() -> MemHost {
        MemHost { files: BTreeMap::new(), dirs: BTreeSet::new(), fail: BTreeSet::new(), log: Vec::new() }
    }

    fn failing(mut self, what: &str) -> MemHost {
        self.fail.insert(String::from(what));
        self
    }

    fn add_dirs(&mut self, path: &str) {
        let mut at = String::new();
        for (i, part) in path.split('/').enumerate() {
            if i > 0 {
                at.push('/');
            }
            at.push_str(part);
            if !at.is_empty() {
                self.dirs.insert(at.clone());
            }
        }
    }

    fn put(&mut self, path: &str, contents: &str) {
        if let Some((dir, _)) = path.rsplit_once('/') {
            self.add_dirs(dir);
        }
        self.files.insert(String::from(path), String::from(contents));
    }

    fn children(&self, dir: &str) -> Vec<Listed> {
        let lead = format!("{}/", dir);
        let mut names: BTreeMap<String, EntryKind> = BTreeMap::new();
        for d in &self.dirs {
            if let Some(rest) = d.strip_prefix(&lead) {
                if !rest.is_empty() && !rest.contains('/') {
                    names.insert(d.clone(), EntryKind::Directory);
                }
            }
        }
        for f in self.files.keys() {
            if let Some(rest) = f.strip_prefix(&lead) {
                if !rest.is_empty() && !rest.contains('/') {
                    names.insert(f.clone(), EntryKind::File);
                }
            }
        }
        names.into_iter().map(|(path, kind)| Listed::Entry { path, kind }).collect()
    }

    fn perform(&mut self, request: &Request) -> Reply {
        let (tag, path) = match request {
            Request::Absolute { path } => ("absolute", path),
            Request::CreateDirs { path } => ("mkdir", path),
            Request::CreateParentDirs { path } => ("mkparent", path),
            Request::Exists { path } => ("exists", path),
            Request::Write { path, .. } => ("write", path),
            Request::Read { path } => ("read", path),
            Request::List { path } => ("list", path),
            Request::OpenStore { path } => ("open", path),
            Request::ApplySchema { path, .. } => ("schema", path),
        };
        let line = format!("{} {}", tag, path);
        self.log.push(line.clone());
        if self.fail.contains(&line) {
            return Reply::Failed(format!("cannot {}", tag));
        }
        match request {
            Request::Absolute { path } => {
                if path.starts_with('/') {
                    Reply::Text(path.clone())
                } else {
                    Reply::Text(format!("/work/{}", path))
                }
            }
            Request::CreateDirs { path } => {
                self.add_dirs(path);
                Reply::Done
            }
            Request::CreateParentDirs { path } => {
                if let Some((dir, _)) = path.rsplit_once('/') {
                    self.add_dirs(dir);
                }
                Reply::Done
            }
            Request::Exists { path } => {
                Reply::Found(self.files.contains_key(path) || self.dirs.contains(path))
            }
            Request::Write { path, contents } => {
                self.files.insert(path.clone(), contents.clone());
                Reply::Done
            }
            Request::Read { path } => match self.files.get(path) {
                Some(text) => Reply::Text(text.clone()),
                None => Reply::Failed(String::from("No such file")),
            },
            Request::List { path } => {
                if self.dirs.contains(path) {
                    Reply::Entries(self.children(path))
                } else {
                    Reply::Failed(String::from("No such directory"))
                }
            }
            Request::OpenStore { path } => {
                self.files.entry(path.clone()).or_insert_with(String::new);
                Reply::Done
            }
            Request::ApplySchema { path, script } => {
                self.files.insert(path.clone(), script.clone());
                Reply::Done
            }
        }
    }
}

fn create(host: &mut MemHost, path: &str, name: &str) -> Result<ProjectInfo, Failure> {
    let mut step = commands::create_project(path, name);
    loop {
        match step {
            Step::Finish(r) => return r,
            Step::Ask(state, request) => step = state.resume(host.perform(&request)),
        }
    }
}

fn create_at(
    host: &mut MemHost,
    path: &str,
    name: &str,
    id: u128,
    secs: i64,
) -> Result<ProjectInfo, Failure> {
    let mut step = commands::create_project(path, name);
    loop {
        match step {
            Step::Finish(r) => return r,
            Step::Ask(state, request) => {
                step = state.resume_with(host.perform(&request), id, Timestamp { secs, nanos: 0 })
            }
        }
    }
}

fn open(host: &mut MemHost, path: &str) -> Result<ProjectInfo, Failure> {
    let mut step = commands::open_project(path);
    loop {
        match step {
            Step::Finish(r) => return r,
            Step::Ask(state, request) => step = state.resume(host.perform(&request)),
        }
    }
}

fn list(host: &mut MemHost, root: &str) -> Result<Vec<ProjectInfo>, Failure> {
    let mut step = commands::list_projects(root);
    loop {
        match step {
            Step::Finish(r) => return r,
            Step::Ask(state, request) => step = state.resume(host.perform(&request)),
        }
    }
}

fn evals(host: &mut MemHost, project: &str) -> Result<Vec<EvalSummary>, Failure> {
    let mut step = commands::list_evals(project);
    loop {
        match step {
            Step::Finish(r) => return r,
            Step::Ask(state, request) => step = state.resume(host.perform(&request)),
        }
    }
}

fn load(host: &mut MemHost, path: &str) -> Result<EvalDefinition, Failure> {
    let mut step = load_eval_file(path);
    loop {
        match step {
            Step::Finish(r) => return r,
            Step::Ask(state, request) => step = state.resume(host.perform(&request)),
        }
    }
}

fn definition(id: &str, name: &str) -> String {
    format!(
        "id: {}\nname: {}\ndataset: {{source: s, path: p}}\nsolver: {{type: t}}\nscorer: []\nexecution: {{max_concurrent: 1, timeout_seconds: 2, retries: 0, model: m}}\n",
        id, name
    )
}

#[test]
fn blank_names_are_refused_before_anything_is_asked() {
    for name in ["", " ", "\t\n", "\u{3000}\u{a0}"] {
        for path in ["/tmp/x", "", "relative/dir", "/"] {
            match create_project(path, name) {
                Step::Finish(Err(f)) => {
                    assert_eq!(f.kind, ErrorKind::NameRequired);
                    assert_eq!(f.message, "Project name is required");
                    assert_eq!(f.to_text(), "Project name is required");
                }
                other => panic!("{:?}", other),
            }
            let mut host = MemHost::new();
            let f = create(&mut host, path, name).unwrap_err();
            assert_eq!(f.kind, ErrorKind::NameRequired);
            assert!(host.log.is_empty());
        }
    }
}

#[test]
fn creating_a_project_lays_out_its_tree() {
    let mut host = MemHost::new();
    let info = create(&mut host, "/tmp/x", "Demo").unwrap();
    assert_eq!(info.name, "Demo");
    assert_eq!(info.path, "/tmp/x");
    assert_eq!(info.db_path, "/tmp/x/.assay/assay.db");
    assert_eq!(info.version, "0.1.0");
    assert_eq!(
        host.log,
        vec![
            "absolute /tmp/x",
            "mkdir /tmp/x",
            "exists /tmp/x/Assay.toml",
            "write /tmp/x/Assay.toml",
            "mkdir /tmp/x/evals",
            "mkdir /tmp/x/datasets",
            "mkdir /tmp/x/results",
            "mkdir /tmp/x/models",
            "mkdir /tmp/x/plugins",
            "mkdir /tmp/x/.assay",
            "mkparent /tmp/x/.assay/assay.db",
            "open /tmp/x/.assay/assay.db",
            "schema /tmp/x/.assay/assay.db",
        ]
    );
    assert_eq!(host.files["/tmp/x/.assay/assay.db"], SCHEMA);
    assert_eq!(evals(&mut host, "/tmp/x").unwrap().len(), 0);
}

#[test]
fn new_manifest_is_stamped() {
    let mut host = MemHost::new();
    let info = create(&mut host, "/p", "  Spaced Name\n").unwrap();
    assert_eq!(info.name, "Spaced Name");
    assert_eq!((info.id >> 76) & 0xf, 4);
    assert_eq!((info.id >> 62) & 0x3, 2);
    assert!(info.created_at.secs > 1_600_000_000);
    assert!(info.created_at.nanos < 1_000_000_000);
    let text = &host.files["/p/Assay.toml"];
    assert!(text.contains("name = \"Spaced Name\"\n"), "{}", text);
    assert!(text.ends_with("version = \"0.1.0\"\n"), "{}", text);
    let other = create(&mut MemHost::new(), "/p", "x").unwrap();
    assert_ne!(other.id, info.id);
}

#[test]
fn manifest_is_written_from_what_is_at_hand() {
    let mut host = MemHost::new();
    let info = create_at(&mut host, "/p", "Demo", 0x550e8400_e29b_41d4_a716_446655440000, 1_704_067_200)
        .unwrap();
    assert_eq!(info.id, 0x550e8400_e29b_41d4_a716_446655440000);
    assert_eq!(info.created_at, Timestamp { secs: 1_704_067_200, nanos: 0 });
    assert_eq!(
        host.files["/p/Assay.toml"],
        "id = \"550e8400-e29b-41d4-a716-446655440000\"\nname = \"Demo\"\ncreated_at = \"2024-01-01T00:00:00Z\"\nversion = \"0.1.0\"\n"
    );
}

#[test]
fn creating_twice_is_refused() {
    let mut host = MemHost::new();
    create(&mut host, "/tmp/x", "Demo").unwrap();
    let before = host.files["/tmp/x/Assay.toml"].clone();
    let f = create(&mut host, "/tmp/x", "Other").unwrap_err();
    assert_eq!(f.kind, ErrorKind::AlreadyInitialized);
    assert_eq!(f.message, "Assay.toml already exists in this directory");
    assert_eq!(host.files["/tmp/x/Assay.toml"], before);
    let f = create(&mut host, "/tmp/x/", "Other").unwrap_err();
    assert_eq!(f.kind, ErrorKind::AlreadyInitialized);
}

#[test]
fn opening_gives_what_creating_gave() {
    let mut host = MemHost::new();
    let created = create(&mut host, "/tmp/x", "Demo").unwrap();
    let opened = open(&mut host, &created.path).unwrap();
    assert_eq!(opened.id, created.id);
    assert_eq!(opened.name, created.name);
    assert_eq!(opened.version, created.version);
    assert_eq!(opened.created_at, created.created_at);
    assert_eq!(opened.path, created.path);
    assert_eq!(opened.db_path, created.db_path);
    let again = open(&mut host, &created.path).unwrap();
    assert_eq!(again.id, created.id);
}

#[test]
fn opening_restores_the_internal_directory_and_the_store() {
    let mut host = MemHost::new();
    host.put(
        "/q/Assay.toml",
        "id = \"550e8400-e29b-41d4-a716-446655440000\"\nname = \"Q\"\ncreated_at = \"2024-01-01T00:00:00Z\"\nversion = \"9\"\n",
    );
    let info = open(&mut host, "/q").unwrap();
    assert_eq!(info.name, "Q");
    assert_eq!(info.version, "9");
    assert_eq!(info.db_path, "/q/.assay/assay.db");
    assert!(host.dirs.contains("/q/.assay"));
    assert_eq!(
        host.log,
        vec![
            "absolute /q",
            "read /q/Assay.toml",
            "mkdir /q/.assay",
            "mkparent /q/.assay/assay.db",
            "open /q/.assay/assay.db",
            "schema /q/.assay/assay.db",
        ]
    );
}

#[test]
fn opening_without_a_readable_manifest_fails() {
    let mut host = MemHost::new();
    let f = open(&mut host, "/nowhere").unwrap_err();
    assert_eq!(f.kind, ErrorKind::ManifestUnreadable);
    assert_eq!(f.message, "Assay.toml error: No such file");
    host.put("/bad/Assay.toml", "name = ");
    let f = open(&mut host, "/bad").unwrap_err();
    assert_eq!(f.kind, ErrorKind::ManifestMalformed);
    assert!(f.message.starts_with("TOML error: "), "{}", f.message);
    host.put("/half/Assay.toml", "name = \"x\"\n");
    let f = open(&mut host, "/half").unwrap_err();
    assert_eq!(f.kind, ErrorKind::ManifestMalformed);
    assert_eq!(f.message, "TOML error: missing field `id`");
    assert!(!host.dirs.contains("/half/.assay"));
}

#[test]
fn failures_of_the_host_end_a_creation() {
    let cases = [
        ("absolute /p", ErrorKind::DirectoryCreate, "Failed to create project directory: cannot absolute"),
        ("mkdir /p", ErrorKind::DirectoryCreate, "Failed to create project directory: cannot mkdir"),
        ("write /p/Assay.toml", ErrorKind::ManifestWrite, "Failed to write Assay.toml: cannot write"),
        ("mkdir /p/evals", ErrorKind::DirectoryCreate, "Failed to create evals directory: cannot mkdir"),
        ("mkdir /p/datasets", ErrorKind::DirectoryCreate, "Failed to create datasets directory: cannot mkdir"),
        ("mkdir /p/results", ErrorKind::DirectoryCreate, "Failed to create results directory: cannot mkdir"),
        ("mkdir /p/models", ErrorKind::DirectoryCreate, "Failed to create models directory: cannot mkdir"),
        ("mkdir /p/plugins", ErrorKind::DirectoryCreate, "Failed to create plugins directory: cannot mkdir"),
        ("mkdir /p/.assay", ErrorKind::DirectoryCreate, "Failed to create internal directory: cannot mkdir"),
        ("mkparent /p/.assay/assay.db", ErrorKind::DirectoryCreate, "Failed to create db directory: cannot mkparent"),
        ("open /p/.assay/assay.db", ErrorKind::StoreOpen, "Failed to open database: cannot open"),
        ("schema /p/.assay/assay.db", ErrorKind::SchemaApply, "Migration error: cannot schema"),
    ];
    for (what, kind, message) in cases {
        let mut host = MemHost::new().failing(what);
        let f = create(&mut host, "/p", "Demo").unwrap_err();
        assert_eq!(f.kind, kind, "{}", what);
        assert_eq!(f.message, message);
        assert_eq!(host.log.last().unwrap(), what);
    }
}

#[test]
fn a_failed_creation_is_not_rolled_back() {
    let mut host = MemHost::new().failing("mkdir /p/results");
    create(&mut host, "/p", "Demo").unwrap_err();
    assert!(host.files.contains_key("/p/Assay.toml"));
    assert!(host.dirs.contains("/p/evals"));
    assert!(host.dirs.contains("/p/datasets"));
    assert!(!host.dirs.contains("/p/results"));
    assert!(!host.dirs.contains("/p/.assay"));
}

#[test]
fn a_manifest_out_of_range_is_not_written() {
    let mut step = create_project("/p", "Demo");
    let mut asked = 0;
    let failure = loop {
        match step {
            Step::Finish(r) => break r.unwrap_err(),
            Step::Ask(state, request) => {
                asked += 1;
                let reply = match request {
                    Request::Absolute { path } => Reply::Text(path),
                    Request::Exists { .. } => Reply::Found(false),
                    _ => Reply::Done,
                };
                step = state.resume_with(reply, 7, Timestamp { secs: i64::MIN, nanos: 0 });
            }
        }
    };
    assert_eq!(asked, 3);
    assert_eq!(failure.kind, ErrorKind::ManifestMalformed);
    assert_eq!(failure.message, "TOML error: created_at is out of range");
}

#[test]
fn replies_of_another_kind_count_as_failures() {
    let resolved = |path: &str| match create_project(path, "Demo") {
        Step::Ask(state, Request::Absolute { .. }) => state.resume(Reply::Text(String::from(path))),
        other => panic!("{:?}", other),
    };
    match resolved("/p") {
        Step::Ask(state, Request::CreateDirs { path }) => {
            assert_eq!(path, "/p");
            match state.resume(Reply::Found(true)) {
                Step::Finish(Err(f)) => {
                    assert_eq!(f.kind, ErrorKind::DirectoryCreate);
                    assert_eq!(f.message, "Failed to create project directory: unexpected reply");
                }
                other => panic!("{:?}", other),
            }
        }
        other => panic!("{:?}", other),
    }
    match open_project("/p") {
        Step::Ask(state, Request::Absolute { .. }) => match state.resume(Reply::Done) {
            Step::Finish(Err(f)) => {
                assert_eq!(f.kind, ErrorKind::ManifestUnreadable);
                assert_eq!(f.message, "Assay.toml error: unexpected reply");
            }
            other => panic!("{:?}", other),
        },
        other => panic!("{:?}", other),
    }
    match resolved("/p") {
        Step::Ask(state, _) => match state.resume(Reply::Done) {
            Step::Ask(probe, Request::Exists { path }) => {
                assert_eq!(path, "/p/Assay.toml");
                let next = probe.resume(Reply::Failed(String::from("denied")));
                assert!(matches!(next, Step::Ask(_, Request::Write { .. })));
            }
            other => panic!("{:?}", other),
        },
        other => panic!("{:?}", other),
    }
}

#[test]
fn a_relative_root_is_made_absolute() {
    let mut host = MemHost::new();
    let created = create(&mut host, "x", "Demo").unwrap();
    assert_eq!(created.path, "/work/x");
    assert_eq!(created.db_path, "/work/x/.assay/assay.db");
    assert!(host.files.contains_key("/work/x/Assay.toml"));
    assert!(host.dirs.contains("/work/x/evals"));
    let opened = open(&mut host, "x").unwrap();
    assert_eq!(opened.path, "/work/x");
    assert_eq!(opened.db_path, "/work/x/.assay/assay.db");
    let f = create(&mut host, "x", "Again").unwrap_err();
    assert_eq!(f.kind, ErrorKind::AlreadyInitialized);
    host.add_dirs("/work/root");
    create(&mut host, "root/a", "A").unwrap();
    let listed = list(&mut host, "root").unwrap();
    assert_eq!(listed.len(), 1);
    assert_eq!(listed[0].path, "/work/root/a");
    assert_eq!(listed[0].db_path, "/work/root/a/.assay/assay.db");
}

#[test]
fn a_root_with_a_trailing_separator_keeps_it() {
    let mut host = MemHost::new();
    let created = create(&mut host, "/tmp/x/", "Demo").unwrap();
    assert_eq!(created.path, "/tmp/x/");
    assert_eq!(created.db_path, "/tmp/x/.assay/assay.db");
    assert!(host.files.contains_key("/tmp/x/Assay.toml"));
}

#[test]
fn a_path_that_is_not_made_absolute_is_refused() {
    let answer = |text: &str| Reply::Text(String::from(text));
    match create_project("x", "Demo") {
        Step::Ask(state, Request::Absolute { path }) => {
            assert_eq!(path, "x");
            match state.resume(answer("still/relative")) {
                Step::Finish(Err(f)) => {
                    assert_eq!(f.kind, ErrorKind::DirectoryCreate);
                    assert_eq!(f.message, "Failed to create project directory: not an absolute path");
                }
                other => panic!("{:?}", other),
            }
        }
        other => panic!("{:?}", other),
    }
    match open_project("x") {
        Step::Ask(state, _) => match state.resume(answer("")) {
            Step::Finish(Err(f)) => {
                assert_eq!(f.kind, ErrorKind::ManifestUnreadable);
                assert_eq!(f.message, "Assay.toml error: not an absolute path");
            }
            other => panic!("{:?}", other),
        },
        other => panic!("{:?}", other),
    }
    match list_projects("x") {
        Step::Ask(state, _) => match state.resume(Reply::Failed(String::from("no cwd"))) {
            Step::Finish(Err(f)) => {
                assert_eq!(f.kind, ErrorKind::Enumeration);
                assert_eq!(f.message, "Failed to read directory: no cwd");
            }
            other => panic!("{:?}", other),
        },
        other => panic!("{:?}", other),
    }
}

#[test]
fn an_empty_root_lists_no_projects() {
    let mut host = MemHost::new();
    host.add_dirs("/root");
    assert!(list(&mut host, "/root").unwrap().is_empty());
    assert_eq!(host.log, vec!["absolute /root", "list /root"]);
}

#[test]
fn a_root_without_projects_lists_none() {
    let mut host = MemHost::new();
    host.add_dirs("/root/empty");
    host.add_dirs("/root/other/deep");
    host.put("/root/file.txt", "x");
    host.put("/root/Assay.toml", "not a project of its own");
    assert!(list(&mut host, "/root").unwrap().is_empty());
    assert!(!host.dirs.contains("/root/empty/.assay"));
}

#[test]
fn a_root_that_cannot_be_listed_fails() {
    let mut host = MemHost::new();
    let f = list(&mut host, "/missing").unwrap_err();
    assert_eq!(f.kind, ErrorKind::Enumeration);
    assert_eq!(f.message, "Failed to read directory: No such directory");
}

#[test]
fn projects_are_listed_by_creation() {
    let mut host = MemHost::new();
    create_at(&mut host, "/root/c", "Third", 3, 3000).unwrap();
    create_at(&mut host, "/root/a", "First", 1, 1000).unwrap();
    create_at(&mut host, "/root/b", "Second", 2, 2000).unwrap();
    create_at(&mut host, "/root/d", "Zeroth", 4, -5).unwrap();
    let listed = list(&mut host, "/root").unwrap();
    let names: Vec<&str> = listed.iter().map(|p| p.name.as_str()).collect();
    assert_eq!(names, vec!["Zeroth", "First", "Second", "Third"]);
    assert_eq!(listed[1].path, "/root/a");
    assert_eq!(listed[1].db_path, "/root/a/.assay/assay.db");
    for pair in listed.windows(2) {
        assert!(
            (pair[0].created_at.secs, pair[0].created_at.nanos)
                <= (pair[1].created_at.secs, pair[1].created_at.nanos)
        );
    }
}

#[test]
fn projects_created_at_the_same_instant_keep_their_order() {
    let mut host = MemHost::new();
    for name in ["m", "a", "z", "k"] {
        create_at(&mut host, &format!("/root/{}", name), name, 9, 500).unwrap();
    }
    create_at(&mut host, "/root/early", "early", 9, 499).unwrap();
    let listed = list(&mut host, "/root").unwrap();
    let names: Vec<&str> = listed.iter().map(|p| p.name.as_str()).collect();
    assert_eq!(names, vec!["early", "a", "k", "m", "z"]);
}

#[test]
fn nanoseconds_break_ties_of_seconds() {
    let mut host = MemHost::new();
    let text = |name: &str, at: &str| {
        format!(
            "id = \"550e8400-e29b-41d4-a716-446655440000\"\nname = \"{}\"\ncreated_at = \"{}\"\nversion = \"1\"\n",
            name, at
        )
    };
    host.put("/root/a/Assay.toml", &text("late", "2024-01-01T00:00:00.000000002Z"));
    host.put("/root/b/Assay.toml", &text("early", "2024-01-01T00:00:00.000000001Z"));
    host.put("/root/c/Assay.toml", &text("before", "2023-12-31T23:59:59.999999999Z"));
    let listed = list(&mut host, "/root").unwrap();
    let names: Vec<&str> = listed.iter().map(|p| p.name.as_str()).collect();
    assert_eq!(names, vec!["before", "early", "late"]);
}

#[test]
fn projects_that_cannot_be_opened_are_passed_over() {
    let mut host = MemHost::new().failing("mkdir /root/locked/.assay").failing("read /root/unread/Assay.toml");
    create_at(&mut host, "/root/good", "Good", 1, 10).unwrap();
    host.put("/root/broken/Assay.toml", "this is = not a manifest");
    host.put("/root/partial/Assay.toml", "name = \"x\"\n");
    host.put("/root/unread/Assay.toml", "");
    host.put(
        "/root/locked/Assay.toml",
        "id = \"550e8400-e29b-41d4-a716-446655440000\"\nname = \"L\"\ncreated_at = \"2024-01-01T00:00:00Z\"\nversion = \"1\"\n",
    );
    host.add_dirs("/root/plain");
    host.add_dirs("/root/odd/Assay.toml");
    let listed = list(&mut host, "/root").unwrap();
    assert_eq!(listed.len(), 1);
    assert_eq!(listed[0].name, "Good");
    assert!(!host.dirs.contains("/root/broken/.assay"));
}

#[test]
fn listing_does_not_touch_the_stores() {
    let mut host = MemHost::new();
    create_at(&mut host, "/root/a", "A", 1, 10).unwrap();
    host.log.clear();
    list(&mut host, "/root").unwrap();
    assert_eq!(
        host.log,
        vec![
            "absolute /root",
            "list /root",
            "exists /root/a/Assay.toml",
            "read /root/a/Assay.toml",
            "mkdir /root/a/.assay"
        ]
    );
}

#[test]
fn a_break_in_the_entries_ends_a_listing() {
    let good = || Listed::Entry { path: String::from("/root/a"), kind: EntryKind::File };
    let run = |entries: Vec<Listed>| match list_projects("/root") {
        Step::Ask(state, Request::Absolute { path }) => {
            assert_eq!(path, "/root");
            match state.resume(Reply::Text(path)) {
                Step::Ask(state, Request::List { path }) => {
                    assert_eq!(path, "/root");
                    match state.resume(Reply::Entries(entries)) {
                        Step::Finish(r) => r,
                        other => panic!("{:?}", other),
                    }
                }
                other => panic!("{:?}", other),
            }
        }
        other => panic!("{:?}", other),
    };
    let f = run(vec![good(), Listed::NoEntry { message: String::from("gone") }, good()]).unwrap_err();
    assert_eq!(f.kind, ErrorKind::Enumeration);
    assert_eq!(f.message, "Directory entry error: gone");
    assert!(run(vec![good(), Listed::Entry { path: String::from("/root/l"), kind: EntryKind::Other }]).unwrap().is_empty());
}

#[test]
fn entries_of_unknown_kind_are_passed_over() {
    let mut host = MemHost::new();
    create_at(&mut host, "/root/a", "A", 1, 10).unwrap();
    create_at(&mut host, "/root/b", "B", 2, 20).unwrap();
    let odd = |m: &str| Listed::NoKind { message: String::from(m) };
    let dir = |p: &str| Listed::Entry { path: String::from(p), kind: EntryKind::Directory };
    let entries = vec![odd("first"), dir("/root/b"), odd("middle"), dir("/root/a"), odd("last")];
    let mut step = match list_projects("/root") {
        Step::Ask(state, _) => match state.resume(Reply::Text(String::from("/root"))) {
            Step::Ask(state, _) => state.resume(Reply::Entries(entries)),
            other => panic!("{:?}", other),
        },
        other => panic!("{:?}", other),
    };
    let listed = loop {
        match step {
            Step::Finish(r) => break r.unwrap(),
            Step::Ask(state, request) => step = state.resume(host.perform(&request)),
        }
    };
    let names: Vec<&str> = listed.iter().map(|p| p.name.as_str()).collect();
    assert_eq!(names, vec!["A", "B"]);
    let only_odd = match list_projects("/root") {
        Step::Ask(state, _) => match state.resume(Reply::Text(String::from("/root"))) {
            Step::Ask(state, _) => state.resume(Reply::Entries(vec![odd("x")])),
            other => panic!("{:?}", other),
        },
        other => panic!("{:?}", other),
    };
    assert!(matches!(only_odd, Step::Finish(Ok(found)) if found.is_empty()));
}

#[test]
fn entries_at_relative_paths_are_passed_over() {
    let entries = vec![Listed::Entry { path: String::from("rel/a"), kind: EntryKind::Directory }];
    let step = match list_projects("/root") {
        Step::Ask(state, _) => match state.resume(Reply::Text(String::from("/root"))) {
            Step::Ask(state, _) => state.resume(Reply::Entries(entries)),
            other => panic!("{:?}", other),
        },
        other => panic!("{:?}", other),
    };
    assert!(matches!(step, Step::Finish(Ok(found)) if found.is_empty()));
}

#[test]
fn making_a_store_again_asks_for_the_same() {
    let mut host = MemHost::new();
    for _ in 0..2 {
        let mut step = init_db("/s/assay.db");
        let result = loop {
            match step {
                Step::Finish(r) => break r,
                Step::Ask(state, request) => step = state.resume(host.perform(&request)),
            }
        };
        assert!(result.is_ok());
    }
    assert_eq!(host.log[..3], host.log[3..]);
    let created = create(&mut host, "/p", "Demo").unwrap();
    let before = host.files.clone();
    let opened = open(&mut host, "/p").unwrap();
    assert_eq!(opened.id, created.id);
    assert_eq!(host.files, before);
}

#[test]
fn a_project_without_definitions_lists_none() {
    let mut host = MemHost::new();
    host.add_dirs("/p");
    assert!(evals(&mut host, "/p").unwrap().is_empty());
    assert_eq!(host.log, vec!["exists /p/evals"]);
    host.add_dirs("/p/evals");
    assert!(evals(&mut host, "/p").unwrap().is_empty());
    host.put("/p/evals/notes.txt", "x");
    host.put("/p/evals/data.json", "{}");
    host.put("/p/evals/UPPER.YAML", "x");
    host.put("/p/evals/.yaml", "x");
    host.add_dirs("/p/evals/nested.yaml");
    host.put("/p/evals/nested.yaml/inner.yml", &definition("i", "Inner"));
    host.log.clear();
    assert!(evals(&mut host, "/p").unwrap().is_empty());
    assert_eq!(host.log, vec!["exists /p/evals", "list /p/evals"]);
}

#[test]
fn definitions_are_listed_by_name_without_regard_to_case() {
    let mut host = MemHost::new();
    host.put("/p/evals/1.yaml", &definition("one", "beta"));
    host.put("/p/evals/2.yml", &definition("two", "Alpha"));
    host.put("/p/evals/3.yaml", &definition("three", "GAMMA"));
    host.put("/p/evals/4.yaml", &definition("four", "alpha"));
    host.put("/p/evals/5.yaml", &definition("five", "Élan"));
    host.put("/p/evals/6.yaml", &definition("six", "delta\ndescription: Fourth letter"));
    let listed = evals(&mut host, "/p").unwrap();
    let ids: Vec<&str> = listed.iter().map(|s| s.id.as_str()).collect();
    assert_eq!(ids, vec!["two", "four", "one", "six", "three", "five"]);
    assert_eq!(listed[0].name, "Alpha");
    assert_eq!(listed[0].path, "/p/evals/2.yml");
    assert_eq!(listed[0].description, None);
    assert_eq!(listed[3].description.as_deref(), Some("Fourth letter"));
}

#[test]
fn one_malformed_definition_fails_the_listing() {
    let mut host = MemHost::new();
    host.put("/p/evals/a.yaml", &definition("a", "A"));
    host.put("/p/evals/b.yaml", "id: b\nname: [unclosed");
    host.put("/p/evals/c.yaml", &definition("c", "C"));
    let f = evals(&mut host, "/p").unwrap_err();
    assert_eq!(f.kind, ErrorKind::Parse);
    assert!(f.message.starts_with("YAML error /p/evals/b.yaml: "), "{}", f.message);
    assert!(!host.log.contains(&String::from("read /p/evals/c.yaml")));
    host.put("/p/evals/b.yaml", "id: b\n");
    let f = evals(&mut host, "/p").unwrap_err();
    assert_eq!(f.kind, ErrorKind::Parse);
    assert_eq!(f.message, "YAML error /p/evals/b.yaml: missing field `name`");
    host.put("/p/evals/b.yaml", &definition("b", "B"));
    assert_eq!(evals(&mut host, "/p").unwrap().len(), 3);
}

#[test]
fn failures_of_the_host_end_a_listing_of_definitions() {
    let mut host = MemHost::new().failing("read /p/evals/b.yaml");
    host.put("/p/evals/a.yaml", &definition("a", "A"));
    host.put("/p/evals/b.yaml", &definition("b", "B"));
    let f = evals(&mut host, "/p").unwrap_err();
    assert_eq!(f.kind, ErrorKind::Read);
    assert_eq!(f.message, "Read error /p/evals/b.yaml: cannot read");
    let mut host = MemHost::new().failing("list /p/evals");
    host.add_dirs("/p/evals");
    let f = evals(&mut host, "/p").unwrap_err();
    assert_eq!(f.kind, ErrorKind::Enumeration);
    assert_eq!(f.message, "Read evals dir error: cannot list");
}

#[test]
fn entries_that_cannot_be_read_end_a_listing_of_definitions() {
    let run = |entries: Vec<Listed>| match list_eval_summaries("/p") {
        Step::Ask(state, Request::Exists { path }) => {
            assert_eq!(path, "/p/evals");
            match state.resume(Reply::Found(true)) {
                Step::Ask(state, Request::List { path }) => {
                    assert_eq!(path, "/p/evals");
                    state.resume(Reply::Entries(entries))
                }
                other => panic!("{:?}", other),
            }
        }
        other => panic!("{:?}", other),
    };
    match run(vec![Listed::NoEntry { message: String::from("gone") }]) {
        Step::Finish(Err(f)) => {
            assert_eq!(f.kind, ErrorKind::Enumeration);
            assert_eq!(f.message, "Dir entry error: gone");
        }
        other => panic!("{:?}", other),
    }
    match run(vec![Listed::NoKind { message: String::from("odd") }]) {
        Step::Finish(Err(f)) => {
            assert_eq!(f.kind, ErrorKind::Enumeration);
            assert_eq!(f.message, "File type error: odd");
        }
        other => panic!("{:?}", other),
    }
    match run(vec![Listed::Entry { path: String::from("/p/evals/d.yaml"), kind: EntryKind::Directory }]) {
        Step::Finish(Ok(found)) => assert!(found.is_empty()),
        other => panic!("{:?}", other),
    }
}

#[test]
fn loading_one_definition() {
    let mut host = MemHost::new();
    host.put("/p/evals/a.yaml", &definition("a", "A"));
    host.put("/p/evals/bad.yaml", "- 1\n- 2\n");
    let def = load(&mut host, "/p/evals/a.yaml").unwrap();
    assert_eq!(def.id, "a");
    assert_eq!(def.name, "A");
    let f = load(&mut host, "/p/evals/none.yaml").unwrap_err();
    assert_eq!(f.kind, ErrorKind::Read);
    assert_eq!(f.message, "Read error /p/evals/none.yaml: No such file");
    let f = load(&mut host, "/p/evals/bad.yaml").unwrap_err();
    assert_eq!(f.kind, ErrorKind::Parse);
    assert_eq!(f.message, "YAML error /p/evals/bad.yaml: invalid type: expected a record of fields");
}

#[test]
fn making_a_store_takes_three_steps() {
    let mut host = MemHost::new();
    let mut step = init_db("/s/db/assay.db");
    let result = loop {
        match step {
            Step::Finish(r) => break r,
            Step::Ask(state, request) => step = state.resume(host.perform(&request)),
        }
    };
    assert!(result.is_ok());
    assert_eq!(host.log, vec!["mkparent /s/db/assay.db", "open /s/db/assay.db", "schema /s/db/assay.db"]);
    assert!(host.dirs.contains("/s/db"));
    assert_eq!(host.files["/s/db/assay.db"], SCHEMA);
}
