//! The kinds of failure and the messages that report them.

use vstd::prelude::*;
use vstd::string::*;

verus! {

/// What went wrong.
#[derive(Clone, Copy, Debug, PartialEq, Eq, Structural)]
pub enum ErrorKind {
    /// The project name was empty after trimming.
    NameRequired,
    /// A manifest already exists at the project root.
    AlreadyInitialized,
    /// The manifest could not be read.
    ManifestUnreadable,
    /// The manifest could not be parsed, or written as text.
    ManifestMalformed,
    /// The manifest could not be written to the project root.
    ManifestWrite,
    /// A directory could not be created.
    DirectoryCreate,
    /// The store could not be opened.
    StoreOpen,
    /// The schema could not be applied to the store.
    SchemaApply,
    /// A definition file could not be read.
    Read,
    /// A definition document could not be parsed.
    Parse,
    /// A directory could not be enumerated.
    Enumeration,
}

/// A failure: its kind and the message that describes it.
#[derive(Clone, Debug)]
pub struct Failure {
    pub kind: ErrorKind,
    pub message: String,
}

/// The mathematical form of a [`Failure`].
pub struct FailureView {
    pub kind: ErrorKind,
    pub message: Seq<char>,
}

impl DeepView for Failure {
    type V = FailureView;

    open spec fn deep_view(&self) -> FailureView {
        FailureView { kind: self.kind, message: self.message@ }
    }
}

/// The failure of kind `kind` whose message is `lead` followed by `detail`.
pub open spec fn failure(kind: ErrorKind, lead: Seq<char>, detail: Seq<char>) -> FailureView {
    FailureView { kind, message: lead + detail }
}

impl Failure {
    /// A failure whose message is `lead` followed by `detail`.
    pub fn new(kind: ErrorKind, lead: &str, detail: &str) -> (r: Failure)
        ensures
            r.deep_view() == failure(kind, lead@, detail@),
    {
        Failure { kind, message: String::from_str(lead).concat(detail) }
    }

    /// The message, as callers report it.
    pub fn to_text(&self) -> (r: String)
        ensures
            r@ == self.message@,
    {
        self.message.clone()
    }
}

} // verus!
