//! What the library asks of its host, and what the host answers. The
//! library decides and the host acts: an operation hands out one request
//! at a time, and is resumed with the reply.

use crate::failure::{Failure, FailureView};
use crate::paths::{is_absolute, is_absolute_path};
use vstd::prelude::*;
use vstd::string::*;

verus! {

/// What a directory entry is.
#[derive(Clone, Copy, Debug, PartialEq, Eq, Structural)]
pub enum EntryKind {
    Directory,
    File,
    Other,
}

/// One item of a directory listing.
#[derive(Debug)]
pub enum Listed {
    /// An entry, with its full path.
    Entry { path: String, kind: EntryKind },
    /// An entry that could not be read.
    NoEntry { message: String },
    /// An entry whose kind could not be told.
    NoKind { message: String },
}

/// The mathematical form of [`Listed`].
pub enum ListedView {
    Entry { path: Seq<char>, kind: EntryKind },
    NoEntry { message: Seq<char> },
    NoKind { message: Seq<char> },
}

impl DeepView for Listed {
    type V = ListedView;

    open spec fn deep_view(&self) -> ListedView {
        match self {
            Listed::Entry { path, kind } => ListedView::Entry { path: path@, kind: *kind },
            Listed::NoEntry { message } => ListedView::NoEntry { message: message@ },
            Listed::NoKind { message } => ListedView::NoKind { message: message@ },
        }
    }
}

/// Something for the host to do.
#[derive(Debug)]
pub enum Request {
    /// Give the absolute form of the path, without looking at what it
    /// leads to. Answered with `Text` or `Failed`.
    Absolute { path: String },
    /// Create the directory and all that is missing above it. Answered
    /// with `Done` or `Failed`.
    CreateDirs { path: String },
    /// Create the directory that holds `path`, where the path names one,
    /// and all that is missing above it. Answered with `Done` or `Failed`.
    CreateParentDirs { path: String },
    /// Tell whether anything exists at the path. Answered with `Found`.
    Exists { path: String },
    /// Write the text to the file, replacing what it held. Answered with
    /// `Done` or `Failed`.
    Write { path: String, contents: String },
    /// Read the file as text. Answered with `Text` or `Failed`.
    Read { path: String },
    /// List the directory. Answered with `Entries` or `Failed`.
    List { path: String },
    /// Open the store at the path, creating it where there is none.
    /// Answered with `Done` or `Failed`.
    OpenStore { path: String },
    /// Run the script on the store that was opened at the path, and close
    /// the store. Answered with `Done` or `Failed`.
    ApplySchema { path: String, script: String },
}

/// The mathematical form of [`Request`].
pub enum RequestView {
    Absolute { path: Seq<char> },
    CreateDirs { path: Seq<char> },
    CreateParentDirs { path: Seq<char> },
    Exists { path: Seq<char> },
    Write { path: Seq<char>, contents: Seq<char> },
    Read { path: Seq<char> },
    List { path: Seq<char> },
    OpenStore { path: Seq<char> },
    ApplySchema { path: Seq<char>, script: Seq<char> },
}

impl DeepView for Request {
    type V = RequestView;

    open spec fn deep_view(&self) -> RequestView {
        match self {
            Request::Absolute { path } => RequestView::Absolute { path: path@ },
            Request::CreateDirs { path } => RequestView::CreateDirs { path: path@ },
            Request::CreateParentDirs { path } => RequestView::CreateParentDirs { path: path@ },
            Request::Exists { path } => RequestView::Exists { path: path@ },
            Request::Write { path, contents } => RequestView::Write {
                path: path@,
                contents: contents@,
            },
            Request::Read { path } => RequestView::Read { path: path@ },
            Request::List { path } => RequestView::List { path: path@ },
            Request::OpenStore { path } => RequestView::OpenStore { path: path@ },
            Request::ApplySchema { path, script } => RequestView::ApplySchema {
                path: path@,
                script: script@,
            },
        }
    }
}

/// What the host answers.
#[derive(Debug)]
pub enum Reply {
    /// The request was carried out.
    Done,
    /// Whether something exists at the path.
    Found(bool),
    /// What the file holds.
    Text(String),
    /// What the directory holds, in the order the host met it.
    Entries(Vec<Listed>),
    /// The request failed, with the host's message.
    Failed(String),
}

/// The mathematical form of [`Reply`].
pub enum ReplyView {
    Done,
    Found(bool),
    Text(Seq<char>),
    Entries(Seq<ListedView>),
    Failed(Seq<char>),
}

impl DeepView for Reply {
    type V = ReplyView;

    open spec fn deep_view(&self) -> ReplyView {
        match self {
            Reply::Done => ReplyView::Done,
            Reply::Found(b) => ReplyView::Found(*b),
            Reply::Text(s) => ReplyView::Text(s@),
            Reply::Entries(entries) => ReplyView::Entries(entries.deep_view()),
            Reply::Failed(m) => ReplyView::Failed(m@),
        }
    }
}

/// The detail to report for a reply that is not the one hoped for: the
/// host's message where it sent one.
pub open spec fn refusal(reply: ReplyView) -> Seq<char> {
    match reply {
        ReplyView::Failed(m) => m,
        _ => "unexpected reply"@,
    }
}

/// Takes the detail to report out of a reply.
pub fn refusal_text(reply: Reply) -> (r: String)
    ensures
        r@ == refusal(reply.deep_view()),
{
    match reply {
        Reply::Failed(m) => m,
        _ => String::from_str("unexpected reply"),
    }
}

/// The message for a path that should be absolute and is not.
pub open spec fn not_absolute() -> Seq<char> {
    "not an absolute path"@
}

/// The absolute path that a reply hands back, or the detail to report
/// where it hands back none.
pub open spec fn resolved(reply: ReplyView) -> Result<Seq<char>, Seq<char>> {
    match reply {
        ReplyView::Text(path) => if is_absolute(path) {
            Ok(path)
        } else {
            Err(not_absolute())
        },
        _ => Err(refusal(reply)),
    }
}

/// Takes the absolute path out of a reply.
pub fn take_absolute(reply: Reply) -> (r: Result<String, String>)
    ensures
        match r {
            Ok(path) => resolved(reply.deep_view()) == Ok::<Seq<char>, Seq<char>>(path@),
            Err(d) => resolved(reply.deep_view()) == Err::<Seq<char>, Seq<char>>(d@),
        },
{
    match reply {
        Reply::Text(path) => {
            if is_absolute_path(path.as_str()) {
                Ok(path)
            } else {
                Err(String::from_str("not an absolute path"))
            }
        },
        other => Err(refusal_text(other)),
    }
}

/// Where an operation stands: it asks the host for something, or it has
/// finished.
#[derive(Debug)]
pub enum Step<M, T> {
    /// The operation goes on in state `M` once the request is answered.
    Ask(M, Request),
    /// The operation has ended.
    Finish(Result<T, Failure>),
}

/// The mathematical form of [`Step`].
pub enum StepView<M, T> {
    Ask(M, RequestView),
    Finish(Result<T, FailureView>),
}

impl<M: DeepView, T: DeepView> DeepView for Step<M, T> {
    type V = StepView<M::V, T::V>;

    open spec fn deep_view(&self) -> StepView<M::V, T::V> {
        match self {
            Step::Ask(state, request) => StepView::Ask(state.deep_view(), request.deep_view()),
            Step::Finish(Ok(value)) => StepView::Finish(Ok(value.deep_view())),
            Step::Finish(Err(e)) => StepView::Finish(Err(e.deep_view())),
        }
    }
}

} // verus!
