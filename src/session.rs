//! One request to the workspace, as a conversation with the host that owns
//! the file system.
//!
//! [`Workspace::start`] opens a [`Session`] and names the first [`Action`].
//! The host performs it and reports what happened as an [`Event`];
//! [`Session::step`] decides what comes next, until the action is
//! [`Action::Finish`], which carries the reply or the error.
use vstd::prelude::*;
use crate::error::WorkspaceError;
use crate::path::{join, parent, relative, joined, parent_of, relative_to};

verus! {

/// A request against the workspace; paths are relative to its root.
#[derive(Debug, Clone)]
pub enum Request {
    Read { path: String },
    Write { path: String, content: String },
    List { path: String },
    Delete { path: String },
}

/// What the host found at a path.
#[derive(Debug, Clone, Copy, PartialEq, Eq, Structural)]
pub enum PathKind {
    Missing,
    File,
    Dir,
}

/// The metadata the host read for a listed entry. `modified` is in seconds
/// since the Unix epoch, `None` where the host could not tell.
#[derive(Debug, Clone, Copy, PartialEq, Eq, Structural)]
pub struct EntryMeta {
    pub size: u64,
    pub modified: Option<u64>,
    pub is_dir: bool,
}

/// A directory entry as the host enumerated it: its last segment, its full
/// path, and its metadata or the reason that could not be read.
#[derive(Debug)]
pub struct RawEntry {
    pub name: String,
    pub path: String,
    pub meta: Result<EntryMeta, String>,
}

/// A listed entry: `path` is relative to the workspace root, with `/`
/// between segments.
#[derive(Debug, Clone)]
pub struct WorkspaceFile {
    pub name: String,
    pub path: String,
    pub size: u64,
    pub modified: u64,
    pub is_dir: bool,
}

/// The mathematical value of a [`WorkspaceFile`].
pub struct FileView {
    pub name: Seq<char>,
    pub path: Seq<char>,
    pub size: u64,
    pub modified: u64,
    pub is_dir: bool,
}

impl View for WorkspaceFile {
    type V = FileView;

    open spec fn view(&self) -> FileView {
        FileView {
            name: self.name@,
            path: self.path@,
            size: self.size,
            modified: self.modified,
            is_dir: self.is_dir,
        }
    }
}

/// The values of a sequence of listed entries.
pub open spec fn views(v: Seq<WorkspaceFile>) -> Seq<FileView> {
    v.map_values(|f: WorkspaceFile| f@)
}

/// What the host reports after performing an action.
#[derive(Debug)]
pub enum Event {
    /// Answers [`Action::Probe`].
    Probed(PathKind),
    /// Answers [`Action::ReadText`]: the file's text, or the failure.
    Text(Result<String, String>),
    /// Answers [`Action::CreateDirs`], [`Action::WriteText`],
    /// [`Action::RemoveDirAll`] and [`Action::RemoveFile`].
    Done(Result<(), String>),
    /// Answers [`Action::ReadDir`]: the entries in the order the host
    /// enumerated them (an entry it could not enumerate as `Err`), or the
    /// failure to open the directory; `now` is the current time in seconds
    /// since the Unix epoch.
    Listed { entries: Result<Vec<Result<RawEntry, String>>, String>, now: u64 },
}

/// The successful result of a request.
#[derive(Debug)]
pub enum Reply {
    Text(String),
    Unit,
    Entries(Vec<WorkspaceFile>),
}

/// What the host is asked to do next. Paths are full paths.
#[derive(Debug)]
pub enum Action {
    /// Tell whether the path exists, and whether it is a directory.
    Probe(String),
    /// Read the whole file as text.
    ReadText(String),
    /// Create the directory and every missing one above it.
    CreateDirs(String),
    /// Write the text to the file, replacing what it held.
    WriteText(String, String),
    /// Enumerate the directory's direct children.
    ReadDir(String),
    /// Remove the directory with everything in it.
    RemoveDirAll(String),
    /// Remove the file.
    RemoveFile(String),
    /// The request is over.
    Finish(Result<Reply, WorkspaceError>),
}

/// Where a session stands: the request it serves and what it waits for.
#[derive(Debug, Clone, Copy, PartialEq, Eq, Structural)]
pub enum Stage {
    ReadCheckRoot,
    ReadCheckFile,
    ReadFile,
    WriteCheckRoot,
    WriteCheckParent,
    WriteCreateParent,
    WriteFile,
    ListCheckDir,
    ListReadDir,
    DeleteCheckTarget,
    DeleteRemove,
    Finished,
}

/// The workspace: every path of a request is resolved against `root`.
#[derive(Debug, Clone)]
pub struct Workspace {
    pub root: String,
}

/// A request in progress. `full` is the request's path joined onto `root`,
/// `parent` the directory that holds it, `content` the text to write.
#[derive(Debug, Clone)]
pub struct Session {
    pub stage: Stage,
    pub root: String,
    pub rel: String,
    pub full: String,
    pub parent: String,
    pub content: String,
}

/// The entries that a listing of the host's `items` yields under `root`,
/// or the error that ends it: entries the host could not enumerate are
/// passed over, the first entry whose metadata is missing fails the
/// listing, and entries whose path does not lie under `root` are passed
/// over. A missing modification time reads as `now`.
pub open spec fn listing(root: Seq<char>, items: Seq<Result<RawEntry, String>>, now: u64) -> Result<
    Seq<FileView>,
    WorkspaceError,
>
    decreases items.len(),
{
    if items.len() == 0 {
        Ok(Seq::empty())
    } else {
        match listing(root, items.drop_last(), now) {
            Err(e) => Err(e),
            Ok(done) => match items.last() {
                Err(_) => Ok(done),
                Ok(raw) => match raw.meta {
                    Err(m) => Err(WorkspaceError::MetadataError { path: raw.path, detail: m }),
                    Ok(meta) => match relative_to(root, raw.path@) {
                        None => Ok(done),
                        Some(p) => Ok(
                            done.push(
                                FileView {
                                    name: raw.name@,
                                    path: p,
                                    size: meta.size,
                                    modified: match meta.modified {
                                        Some(t) => t,
                                        None => now,
                                    },
                                    is_dir: meta.is_dir,
                                },
                            ),
                        ),
                    },
                },
            },
        }
    }
}

/// Once a prefix of the items fails the listing, the whole listing fails
/// with the same error.
proof fn lemma_listing_error_stays(
    root: Seq<char>,
    items: Seq<Result<RawEntry, String>>,
    now: u64,
    k: int,
)
    requires
        0 <= k <= items.len(),
        listing(root, items.subrange(0, k), now) is Err,
    ensures
        listing(root, items, now) == listing(root, items.subrange(0, k), now),
    decreases items.len() - k,
{
    if k < items.len() {
        let next = items.subrange(0, k + 1);
        assert(next.drop_last() =~= items.subrange(0, k));
        lemma_listing_error_stays(root, items, now, k + 1);
    } else {
        assert(items.subrange(0, k) =~= items);
    }
}

/// Whether `s` is the session that opens `req` in the workspace rooted at
/// `root`, and `a` its first action.
pub open spec fn starts(root: String, req: Request, s: Session, a: Action) -> bool {
    let (stage, rel, content) = match req {
        Request::Read { path } => (Stage::ReadCheckRoot, path, None),
        Request::Write { path, content } => (Stage::WriteCheckRoot, path, Some(content)),
        Request::List { path } => (Stage::ListCheckDir, path, None),
        Request::Delete { path } => (Stage::DeleteCheckTarget, path, None),
    };
    &&& s.stage == stage
    &&& s.root == root
    &&& s.rel == rel
    &&& s.full@ == joined(root@, rel@)
    &&& s.parent@ == parent_of(root@, rel@)
    &&& match content {
        Some(c) => s.content == c,
        None => s.content@ == Seq::<char>::empty(),
    }
    &&& a == match req {
        Request::Read { .. } | Request::Write { .. } => Action::Probe(s.root),
        _ => Action::Probe(s.full),
    }
}

impl Session {
    /// The same session at another stage.
    pub open spec fn at(self, stage: Stage) -> Session {
        Session { stage, ..self }
    }

    /// Whether `e` answers the action this session waits on.
    pub open spec fn expects(self, e: Event) -> bool {
        match self.stage {
            Stage::ReadCheckRoot | Stage::ReadCheckFile | Stage::WriteCheckRoot
            | Stage::WriteCheckParent | Stage::ListCheckDir | Stage::DeleteCheckTarget => e is Probed,
            Stage::ReadFile => e is Text,
            Stage::WriteCreateParent | Stage::WriteFile | Stage::DeleteRemove => e is Done,
            Stage::ListReadDir => e is Listed,
            Stage::Finished => false,
        }
    }

    /// Whether a session in state `self`, told `e`, moves to state `s2`
    /// and asks for `a`.
    pub open spec fn transition(self, e: Event, s2: Session, a: Action) -> bool {
        let done = self.at(Stage::Finished);
        match e {
            Event::Probed(k) => match self.stage {
                Stage::ReadCheckRoot => if k == PathKind::Missing {
                    s2 == done && a == Action::Finish(
                        Err(WorkspaceError::RootNotFound { root: self.root }),
                    )
                } else {
                    s2 == self.at(Stage::ReadCheckFile) && a == Action::Probe(self.full)
                },
                Stage::ReadCheckFile => if k == PathKind::Missing {
                    s2 == done && a == Action::Finish(
                        Err(WorkspaceError::FileNotFound { path: self.rel }),
                    )
                } else {
                    s2 == self.at(Stage::ReadFile) && a == Action::ReadText(self.full)
                },
                Stage::WriteCheckRoot => if k == PathKind::Missing {
                    s2 == done && a == Action::Finish(
                        Err(WorkspaceError::RootNotFound { root: self.root }),
                    )
                } else {
                    s2 == self.at(Stage::WriteCheckParent) && a == Action::Probe(self.parent)
                },
                Stage::WriteCheckParent => if k == PathKind::Missing {
                    s2 == self.at(Stage::WriteCreateParent) && a == Action::CreateDirs(self.parent)
                } else {
                    s2 == self.at(Stage::WriteFile) && a == Action::WriteText(
                        self.full,
                        self.content,
                    )
                },
                Stage::ListCheckDir => if k == PathKind::Missing {
                    s2 == done && (a matches Action::Finish(Ok(Reply::Entries(v))) && v@.len() == 0)
                } else {
                    s2 == self.at(Stage::ListReadDir) && a == Action::ReadDir(self.full)
                },
                Stage::DeleteCheckTarget => if k == PathKind::Missing {
                    s2 == done && a == Action::Finish(
                        Err(WorkspaceError::FileNotFound { path: self.rel }),
                    )
                } else if k == PathKind::Dir {
                    s2 == self.at(Stage::DeleteRemove) && a == Action::RemoveDirAll(self.full)
                } else {
                    s2 == self.at(Stage::DeleteRemove) && a == Action::RemoveFile(self.full)
                },
                _ => false,
            },
            Event::Text(r) => self.stage == Stage::ReadFile && s2 == done && a == Action::Finish(
                match r {
                    Ok(t) => Ok(Reply::Text(t)),
                    Err(m) => Err(WorkspaceError::ReadError { path: self.rel, detail: m }),
                },
            ),
            Event::Done(r) => match self.stage {
                Stage::WriteCreateParent => match r {
                    Ok(_) => s2 == self.at(Stage::WriteFile) && a == Action::WriteText(
                        self.full,
                        self.content,
                    ),
                    Err(m) => s2 == done && a == Action::Finish(
                        Err(WorkspaceError::DirCreateError { dir: self.parent, detail: m }),
                    ),
                },
                Stage::WriteFile => s2 == done && a == Action::Finish(
                    match r {
                        Ok(_) => Ok(Reply::Unit),
                        Err(m) => Err(WorkspaceError::WriteError { path: self.rel, detail: m }),
                    },
                ),
                Stage::DeleteRemove => s2 == done && a == Action::Finish(
                    match r {
                        Ok(_) => Ok(Reply::Unit),
                        Err(m) => Err(WorkspaceError::DeleteError { path: self.rel, detail: m }),
                    },
                ),
                _ => false,
            },
            Event::Listed { entries, now } => self.stage == Stage::ListReadDir && s2 == done
                && (match entries {
                Err(m) => a == Action::Finish(
                    Err(WorkspaceError::ReadError { path: self.rel, detail: m }),
                ),
                Ok(items) => match listing(self.root@, items@, now) {
                    Err(err) => a == Action::Finish(Err(err)),
                    Ok(fs) => a matches Action::Finish(Ok(Reply::Entries(v))) && views(v@) == fs,
                },
            }),
        }
    }

    /// Whether `e` answers the action this session waits on.
    pub fn accepts(&self, e: &Event) -> (r: bool)
        ensures
            r == self.expects(*e),
    {
        match self.stage {
            Stage::ReadCheckRoot | Stage::ReadCheckFile | Stage::WriteCheckRoot
            | Stage::WriteCheckParent | Stage::ListCheckDir | Stage::DeleteCheckTarget => matches!(e, Event::Probed(_)),
            Stage::ReadFile => matches!(e, Event::Text(_)),
            Stage::WriteCreateParent | Stage::WriteFile | Stage::DeleteRemove => matches!(e, Event::Done(_)),
            Stage::ListReadDir => matches!(e, Event::Listed { .. }),
            Stage::Finished => false,
        }
    }

    /// Whether the request is over.
    pub fn is_finished(&self) -> (r: bool)
        ensures
            r == (self.stage == Stage::Finished),
    {
        self.stage == Stage::Finished
    }

    /// Moves to `stage` and returns `a`.
    fn go(&mut self, stage: Stage, a: Action) -> (r: Action)
        ensures
            *final(self) == old(self).at(stage),
            r == a,
    {
        self.stage = stage;
        a
    }

    /// Takes in what the host reports on the last action and returns the
    /// next one.
    pub fn step(&mut self, e: Event) -> (r: Action)
        requires
            old(self).expects(e),
        ensures
            old(self).transition(e, *final(self), r),
    {
        match e {
            Event::Probed(k) => match self.stage {
                Stage::ReadCheckRoot | Stage::WriteCheckRoot => if k == PathKind::Missing {
                    let root = self.root.clone();
                    self.go(
                        Stage::Finished,
                        Action::Finish(Err(WorkspaceError::RootNotFound { root })),
                    )
                } else if self.stage == Stage::ReadCheckRoot {
                    let full = self.full.clone();
                    self.go(Stage::ReadCheckFile, Action::Probe(full))
                } else {
                    let dir = self.parent.clone();
                    self.go(Stage::WriteCheckParent, Action::Probe(dir))
                },
                Stage::ReadCheckFile | Stage::DeleteCheckTarget => if k == PathKind::Missing {
                    let path = self.rel.clone();
                    self.go(
                        Stage::Finished,
                        Action::Finish(Err(WorkspaceError::FileNotFound { path })),
                    )
                } else if self.stage == Stage::ReadCheckFile {
                    let full = self.full.clone();
                    self.go(Stage::ReadFile, Action::ReadText(full))
                } else if k == PathKind::Dir {
                    let full = self.full.clone();
                    self.go(Stage::DeleteRemove, Action::RemoveDirAll(full))
                } else {
                    let full = self.full.clone();
                    self.go(Stage::DeleteRemove, Action::RemoveFile(full))
                },
                Stage::WriteCheckParent => if k == PathKind::Missing {
                    let dir = self.parent.clone();
                    self.go(Stage::WriteCreateParent, Action::CreateDirs(dir))
                } else {
                    let full = self.full.clone();
                    let content = self.content.clone();
                    self.go(Stage::WriteFile, Action::WriteText(full, content))
                },
                _ => if k == PathKind::Missing {
                    self.go(Stage::Finished, Action::Finish(Ok(Reply::Entries(Vec::new()))))
                } else {
                    let full = self.full.clone();
                    self.go(Stage::ListReadDir, Action::ReadDir(full))
                },
            },
            Event::Text(r) => {
                let res = match r {
                    Ok(t) => Ok(Reply::Text(t)),
                    Err(detail) => Err(WorkspaceError::ReadError { path: self.rel.clone(), detail }),
                };
                self.go(Stage::Finished, Action::Finish(res))
            },
            Event::Done(r) => match self.stage {
                Stage::WriteCreateParent => match r {
                    Ok(_) => {
                        let full = self.full.clone();
                        let content = self.content.clone();
                        self.go(Stage::WriteFile, Action::WriteText(full, content))
                    },
                    Err(detail) => {
                        let dir = self.parent.clone();
                        self.go(
                            Stage::Finished,
                            Action::Finish(Err(WorkspaceError::DirCreateError { dir, detail })),
                        )
                    },
                },
                Stage::WriteFile => {
                    let res = match r {
                        Ok(_) => Ok(Reply::Unit),
                        Err(detail) => Err(
                            WorkspaceError::WriteError { path: self.rel.clone(), detail },
                        ),
                    };
                    self.go(Stage::Finished, Action::Finish(res))
                },
                _ => {
                    let res = match r {
                        Ok(_) => Ok(Reply::Unit),
                        Err(detail) => Err(
                            WorkspaceError::DeleteError { path: self.rel.clone(), detail },
                        ),
                    };
                    self.go(Stage::Finished, Action::Finish(res))
                },
            },
            Event::Listed { entries, now } => {
                let res = match entries {
                    Err(detail) => Err(WorkspaceError::ReadError { path: self.rel.clone(), detail }),
                    Ok(items) => match collect(&self.root, &items, now) {
                        Ok(v) => Ok(Reply::Entries(v)),
                        Err(err) => Err(err),
                    },
                };
                self.go(Stage::Finished, Action::Finish(res))
            },
        }
    }
}

/// The listing of the host's `items` under `root`.
pub fn collect(root: &String, items: &Vec<Result<RawEntry, String>>, now: u64) -> (r: Result<
    Vec<WorkspaceFile>,
    WorkspaceError,
>)
    ensures
        match listing(root@, items@, now) {
            Ok(fs) => r matches Ok(v) && views(v@) == fs,
            Err(e) => r == Err::<Vec<WorkspaceFile>, WorkspaceError>(e),
        },
{
    let mut out: Vec<WorkspaceFile> = Vec::new();
    let mut i: usize = 0;
    assert(items@.subrange(0, 0) =~= Seq::<Result<RawEntry, String>>::empty());
    assert(views(out@) =~= Seq::<FileView>::empty());
    while i < items.len()
        invariant
            i <= items@.len(),
            listing(root@, items@.subrange(0, i as int), now) == Ok::<
                Seq<FileView>,
                WorkspaceError,
            >(views(out@)),
        decreases items@.len() - i,
    {
        let ghost before = out@;
        assert(items@.subrange(0, i + 1).drop_last() =~= items@.subrange(0, i as int));
        assert(items@.subrange(0, i + 1).last() == items@[i as int]);
        match &items[i] {
            Err(_) => {},
            Ok(raw) => match &raw.meta {
                Err(m) => {
                    let err = WorkspaceError::MetadataError { path: raw.path.clone(), detail: m.clone() };
                    proof {
                        lemma_listing_error_stays(root@, items@, now, i + 1);
                    }
                    return Err(err);
                },
                Ok(meta) => match relative(root.as_str(), raw.path.as_str()) {
                    None => {},
                    Some(p) => {
                        let modified = match meta.modified {
                            Some(t) => t,
                            None => now,
                        };
                        out.push(
                            WorkspaceFile {
                                name: raw.name.clone(),
                                path: p,
                                size: meta.size,
                                modified,
                                is_dir: meta.is_dir,
                            },
                        );
                        assert(views(out@) =~= views(before).push(out@.last()@));
                    },
                },
            },
        }
        i = i + 1;
    }
    assert(items@.subrange(0, i as int) =~= items@);
    Ok(out)
}

impl Workspace {
    /// The workspace rooted at `root`.
    pub fn new(root: String) -> (r: Workspace)
        ensures
            r.root == root,
    {
        Workspace { root }
    }

    /// Opens a session for `req` and returns it with its first action.
    pub fn start(&self, req: Request) -> (r: (Session, Action))
        ensures
            starts(self.root, req, r.0, r.1),
    {
        let (stage, rel, content) = match req {
            Request::Read { path } => (Stage::ReadCheckRoot, path, String::new()),
            Request::Write { path, content } => (Stage::WriteCheckRoot, path, content),
            Request::List { path } => (Stage::ListCheckDir, path, String::new()),
            Request::Delete { path } => (Stage::DeleteCheckTarget, path, String::new()),
        };
        let full = join(self.root.as_str(), rel.as_str());
        let dir = parent(self.root.as_str(), rel.as_str());
        let s = Session { stage, root: self.root.clone(), rel, full, parent: dir, content };
        let a = if stage == Stage::ReadCheckRoot || stage == Stage::WriteCheckRoot {
            Action::Probe(s.root.clone())
        } else {
            Action::Probe(s.full.clone())
        };
        (s, a)
    }
}

} // verus!
