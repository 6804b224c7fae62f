use std::collections::BTreeMap;

use workspace_files::error::WorkspaceError;
use workspace_files::path::{join, parent, relative};
use workspace_files::session::{
    Action, EntryMeta, Event, PathKind, RawEntry, Reply, Request, Session, Stage, Workspace,
    WorkspaceFile,
};

const ROOT: &str = "/srv/ws";

#[derive(Clone, Debug, PartialEq)]
enum Node {
    File(String),
    Dir,
}

/// An in-memory host; `fail` makes every action of that kind report the given error.
struct Host {
    nodes: BTreeMap<String, Node>,
    fail: Option<(&'static str, &'static str)>,
    now: u64,
    extra: Vec<Result<RawEntry, String>>,
}

impl Host {
    fn new() -> Host {
        let mut nodes = BTreeMap::new();
        nodes.insert(ROOT.to_string(), Node::Dir);
        Host { nodes, fail: None, now: 1_000, extra: Vec::new() }
    }

    fn failing(&self, kind: &str) -> Option<String> {
        match self.fail {
            Some((k, msg)) if k == kind => Some(msg.to_string()),
            _ => None,
        }
    }

    fn perform(&mut self, a: Action) -> Event {
        match a {
            Action::Probe(p) => Event::Probed(match self.nodes.get(&p) {
                None => PathKind::Missing,
                Some(Node::Dir) => PathKind::Dir,
                Some(Node::File(_)) => PathKind::File,
            }),
            Action::ReadText(p) => Event::Text(match (self.failing("read"), self.nodes.get(&p)) {
                (Some(m), _) => Err(m),
                (None, Some(Node::File(t))) => Ok(t.clone()),
                (None, _) => Err("not a file".to_string()),
            }),
            Action::CreateDirs(p) => {
                if let Some(m) = self.failing("mkdir") {
                    return Event::Done(Err(m));
                }
                let mut cur = String::new();
                for (i, seg) in p.split('/').enumerate() {
                    if i > 0 {
                        cur.push('/');
                    }
                    cur.push_str(seg);
                    if !cur.is_empty() {
                        self.nodes.entry(cur.clone()).or_insert(Node::Dir);
                    }
                }
                Event::Done(Ok(()))
            }
            Action::WriteText(p, c) => {
                if let Some(m) = self.failing("write") {
                    return Event::Done(Err(m));
                }
                self.nodes.insert(p, Node::File(c));
                Event::Done(Ok(()))
            }
            Action::ReadDir(p) => {
                let now = self.now;
                if let Some(m) = self.failing("readdir") {
                    return Event::Listed { entries: Err(m), now };
                }
                let prefix = format!("{}/", p);
                let mut items: Vec<Result<RawEntry, String>> = Vec::new();
                for (k, n) in self.nodes.iter() {
                    if let Some(name) = k.strip_prefix(&prefix) {
                        if !name.is_empty() && !name.contains('/') {
                            let size = match n {
                                Node::File(t) => t.len() as u64,
                                Node::Dir => 4096,
                            };
                            let meta = match self.failing("meta") {
                                Some(m) => Err(m),
                                None => Ok(EntryMeta { size, modified: Some(42), is_dir: *n == Node::Dir }),
                            };
                            items.push(Ok(RawEntry { name: name.to_string(), path: k.clone(), meta }));
                        }
                    }
                }
                items.extend(self.extra.drain(..));
                Event::Listed { entries: Ok(items), now }
            }
            Action::RemoveDirAll(p) => {
                if let Some(m) = self.failing("remove") {
                    return Event::Done(Err(m));
                }
                let prefix = format!("{}/", p);
                self.nodes.retain(|k, _| k != &p && !k.starts_with(&prefix));
                Event::Done(Ok(()))
            }
            Action::RemoveFile(p) => {
                if let Some(m) = self.failing("remove") {
                    return Event::Done(Err(m));
                }
                self.nodes.remove(&p);
                Event::Done(Ok(()))
            }
            Action::Finish(_) => panic!("nothing to perform"),
        }
    }
}

/// Runs `req` to its end against `host`, returning the outcome and the actions asked for.
fn run_logged(host: &mut Host, req: Request) -> (Result<Reply, WorkspaceError>, Vec<String>) {
    let ws = Workspace::new(ROOT.to_string());
    let (mut s, mut a): (Session, Action) = ws.start(req);
    let mut log = Vec::new();
    loop {
        if let Action::Finish(r) = a {
            assert!(s.is_finished());
            return (r, log);
        }
        log.push(format!("{:?}", a));
        let e = host.perform(a);
        assert!(s.accepts(&e));
        a = s.step(e);
    }
}

fn run(host: &mut Host, req: Request) -> Result<Reply, WorkspaceError> {
    run_logged(host, req).0
}

fn read(host: &mut Host, p: &str) -> Result<Reply, WorkspaceError> {
    run(host, Request::Read { path: p.to_string() })
}

fn write(host: &mut Host, p: &str, c: &str) -> Result<Reply, WorkspaceError> {
    run(host, Request::Write { path: p.to_string(), content: c.to_string() })
}

fn list(host: &mut Host, p: &str) -> Vec<WorkspaceFile> {
    match run(host, Request::List { path: p.to_string() }) {
        Ok(Reply::Entries(v)) => v,
        other => panic!("unexpected listing outcome {:?}", other),
    }
}

fn delete(host: &mut Host, p: &str) -> Result<Reply, WorkspaceError> {
    run(host, Request::Delete { path: p.to_string() })
}

fn text_of(r: Result<Reply, WorkspaceError>) -> String {
    match r {
        Ok(Reply::Text(t)) => t,
        other => panic!("expected text, got {:?}", other),
    }
}

#[test]
fn join_puts_one_slash_between() {
    assert_eq!(join("/srv/ws", "notes/a.txt"), "/srv/ws/notes/a.txt");
    assert_eq!(join("/srv/ws", ""), "/srv/ws");
}

#[test]
fn parent_takes_part_before_last_slash() {
    assert_eq!(parent("/srv/ws", "notes/deep/a.txt"), "/srv/ws/notes/deep");
    assert_eq!(parent("/srv/ws", "a.txt"), "/srv/ws");
}

#[test]
fn relative_strips_root_and_turns_backslashes() {
    assert_eq!(relative("/srv/ws", "/srv/ws/notes/a.txt"), Some("notes/a.txt".to_string()));
    assert_eq!(relative(r"C:\ws", r"C:\ws\notes\a.txt"), Some("notes/a.txt".to_string()));
    assert_eq!(relative("/srv/ws", "/srv/other/a.txt"), None);
    assert_eq!(relative("/srv/ws", "/srv/wsx"), None);
    assert_eq!(relative("/srv/ws", "/srv/ws"), None);
}

#[test]
fn error_messages() {
    let e = WorkspaceError::FileNotFound { path: "a.txt".to_string() };
    assert_eq!(e.message(), "File not found: a.txt");
    let e = WorkspaceError::RootNotFound { root: "/srv/ws".to_string() };
    assert_eq!(e.message(), "Workspace base path not found: /srv/ws");
    let e = WorkspaceError::ReadError { path: "a".to_string(), detail: "denied".to_string() };
    assert_eq!(e.message(), "Failed to read a: denied");
    let e = WorkspaceError::DirCreateError { dir: "/d".to_string(), detail: "x".to_string() };
    assert_eq!(e.message(), "Failed to create directory /d: x");
}

#[test]
fn scenario_notes_file() {
    let mut h = Host::new();
    assert!(matches!(write(&mut h, "notes/a.txt", "hello"), Ok(Reply::Unit)));
    assert_eq!(text_of(read(&mut h, "notes/a.txt")), "hello");
    let entries = list(&mut h, "notes");
    let e = entries.iter().find(|e| e.name == "a.txt").expect("entry listed");
    assert_eq!(e.path, "notes/a.txt");
    assert!(!e.is_dir);
    assert_eq!(e.size, 5);
    assert!(matches!(delete(&mut h, "notes/a.txt"), Ok(Reply::Unit)));
    match read(&mut h, "notes/a.txt") {
        Err(WorkspaceError::FileNotFound { path }) => assert_eq!(path, "notes/a.txt"),
        other => panic!("expected FileNotFound, got {:?}", other),
    }
}

#[test]
fn write_then_read_round_trip() {
    let mut h = Host::new();
    for (p, c) in [("a.txt", "one"), ("x/y/z.md", "# title\nbody"), ("a.txt", "")] {
        assert!(matches!(write(&mut h, p, c), Ok(Reply::Unit)));
        assert_eq!(text_of(read(&mut h, p)), c);
    }
}

#[test]
fn write_then_delete_leaves_no_entry() {
    let mut h = Host::new();
    write(&mut h, "notes/keep.txt", "k").unwrap();
    write(&mut h, "notes/gone.txt", "g").unwrap();
    delete(&mut h, "notes/gone.txt").unwrap();
    let entries = list(&mut h, "notes");
    assert!(entries.iter().all(|e| e.path != "notes/gone.txt"));
    assert_eq!(entries.len(), 1);
}

#[test]
fn list_missing_dir_is_empty() {
    let mut h = Host::new();
    assert!(list(&mut h, "not/yet").is_empty());
    let mut h = Host::new();
    h.nodes.clear();
    assert!(list(&mut h, "anything").is_empty());
}

#[test]
fn delete_missing_is_file_not_found() {
    let mut h = Host::new();
    match delete(&mut h, "ghost.txt") {
        Err(WorkspaceError::FileNotFound { path }) => assert_eq!(path, "ghost.txt"),
        other => panic!("expected FileNotFound, got {:?}", other),
    }
}

#[test]
fn write_creates_missing_parents() {
    let mut h = Host::new();
    let (r, log) = run_logged(
        &mut h,
        Request::Write { path: "a/b/c.txt".to_string(), content: "deep".to_string() },
    );
    assert!(matches!(r, Ok(Reply::Unit)));
    assert_eq!(log[2], "CreateDirs(\"/srv/ws/a/b\")");
    assert_eq!(h.nodes.get("/srv/ws/a"), Some(&Node::Dir));
    assert_eq!(h.nodes.get("/srv/ws/a/b"), Some(&Node::Dir));
    assert_eq!(h.nodes.get("/srv/ws/a/b/c.txt"), Some(&Node::File("deep".to_string())));
}

#[test]
fn write_into_existing_parent_creates_nothing() {
    let mut h = Host::new();
    let (r, log) = run_logged(
        &mut h,
        Request::Write { path: "top.txt".to_string(), content: "t".to_string() },
    );
    assert!(matches!(r, Ok(Reply::Unit)));
    assert_eq!(log.len(), 3);
    assert!(log.iter().all(|a| !a.starts_with("CreateDirs")));
}

#[test]
fn missing_root_fails_read_and_write() {
    let mut h = Host::new();
    h.nodes.clear();
    assert!(matches!(read(&mut h, "a.txt"), Err(WorkspaceError::RootNotFound { .. })));
    match write(&mut h, "a.txt", "x") {
        Err(WorkspaceError::RootNotFound { root }) => assert_eq!(root, ROOT),
        other => panic!("expected RootNotFound, got {:?}", other),
    }
    assert!(h.nodes.is_empty());
}

#[test]
fn read_failure_is_read_error() {
    let mut h = Host::new();
    write(&mut h, "a.txt", "x").unwrap();
    h.fail = Some(("read", "invalid utf-8"));
    match read(&mut h, "a.txt") {
        Err(WorkspaceError::ReadError { path, detail }) => {
            assert_eq!(path, "a.txt");
            assert_eq!(detail, "invalid utf-8");
        }
        other => panic!("expected ReadError, got {:?}", other),
    }
}

#[test]
fn write_failure_is_write_error() {
    let mut h = Host::new();
    h.fail = Some(("write", "disk full"));
    match write(&mut h, "a.txt", "x") {
        Err(WorkspaceError::WriteError { path, detail }) => {
            assert_eq!(path, "a.txt");
            assert_eq!(detail, "disk full");
        }
        other => panic!("expected WriteError, got {:?}", other),
    }
}

#[test]
fn mkdir_failure_is_dir_create_error() {
    let mut h = Host::new();
    h.fail = Some(("mkdir", "denied"));
    match write(&mut h, "d/a.txt", "x") {
        Err(WorkspaceError::DirCreateError { dir, detail }) => {
            assert_eq!(dir, "/srv/ws/d");
            assert_eq!(detail, "denied");
        }
        other => panic!("expected DirCreateError, got {:?}", other),
    }
}

#[test]
fn remove_failure_is_delete_error() {
    let mut h = Host::new();
    write(&mut h, "a.txt", "x").unwrap();
    h.fail = Some(("remove", "busy"));
    assert!(matches!(delete(&mut h, "a.txt"), Err(WorkspaceError::DeleteError { .. })));
}

#[test]
fn delete_directory_removes_tree() {
    let mut h = Host::new();
    write(&mut h, "d/x/1.txt", "1").unwrap();
    write(&mut h, "d/2.txt", "2").unwrap();
    let (r, log) = run_logged(&mut h, Request::Delete { path: "d".to_string() });
    assert!(matches!(r, Ok(Reply::Unit)));
    assert_eq!(log[1], "RemoveDirAll(\"/srv/ws/d\")");
    assert!(h.nodes.keys().all(|k| !k.starts_with("/srv/ws/")));
    assert_eq!(h.nodes.get(ROOT), Some(&Node::Dir));
}

#[test]
fn metadata_failure_fails_listing() {
    let mut h = Host::new();
    write(&mut h, "n/a.txt", "x").unwrap();
    h.fail = Some(("meta", "stale handle"));
    match run(&mut h, Request::List { path: "n".to_string() }) {
        Err(WorkspaceError::MetadataError { path, detail }) => {
            assert_eq!(path, "/srv/ws/n/a.txt");
            assert_eq!(detail, "stale handle");
        }
        other => panic!("expected MetadataError, got {:?}", other),
    }
}

#[test]
fn readdir_failure_is_read_error() {
    let mut h = Host::new();
    write(&mut h, "n/a.txt", "x").unwrap();
    h.fail = Some(("readdir", "denied"));
    assert!(matches!(
        run(&mut h, Request::List { path: "n".to_string() }),
        Err(WorkspaceError::ReadError { .. })
    ));
}

#[test]
fn listing_skips_bad_entries_and_defaults_time() {
    let mut h = Host::new();
    write(&mut h, "n/a.txt", "abc").unwrap();
    h.extra.push(Err("vanished".to_string()));
    h.extra.push(Ok(RawEntry {
        name: "elsewhere".to_string(),
        path: "/tmp/elsewhere".to_string(),
        meta: Ok(EntryMeta { size: 1, modified: Some(1), is_dir: false }),
    }));
    h.extra.push(Ok(RawEntry {
        name: "b.txt".to_string(),
        path: r"/srv/ws\n\b.txt".to_string(),
        meta: Ok(EntryMeta { size: 7, modified: None, is_dir: false }),
    }));
    let v = list(&mut h, "n");
    assert_eq!(v.len(), 2);
    assert_eq!(v[0].path, "n/a.txt");
    assert_eq!(v[0].size, 3);
    assert_eq!(v[0].modified, 42);
    assert_eq!(v[1].name, "b.txt");
    assert_eq!(v[1].path, "n/b.txt");
    assert_eq!(v[1].modified, 1_000);
}

#[test]
fn listing_marks_directories() {
    let mut h = Host::new();
    write(&mut h, "top/sub/f.txt", "x").unwrap();
    let v = list(&mut h, "top");
    assert_eq!(v.len(), 1);
    assert_eq!(v[0].name, "sub");
    assert_eq!(v[0].path, "top/sub");
    assert!(v[0].is_dir);
}

#[test]
fn wrong_event_is_not_accepted() {
    let ws = Workspace::new(ROOT.to_string());
    let (s, _) = ws.start(Request::Read { path: "a".to_string() });
    assert_eq!(s.stage, Stage::ReadCheckRoot);
    assert!(!s.accepts(&Event::Done(Ok(()))));
    assert!(s.accepts(&Event::Probed(PathKind::Dir)));
}
