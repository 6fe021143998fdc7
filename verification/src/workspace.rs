//! One file as the orchestrator owns it: a path, the current in-memory text
//! revision, and the session handle for pulls and fixes on that revision.
//!
//! The on-disk storage layer is an external collaborator: it supplies the
//! initial text and the parsed model, and persists what the orchestrator
//! decides to keep. The text revision here advances only through an
//! explicit update, and any pull after an update works on the new revision.

use vstd::prelude::*;
use crate::syntax::DeclaratorView;
use crate::syntax::FileModel;
use crate::syntax::clone_model;
use crate::service::FileGuard;

verus! {

/// Ghost view of a `WorkspaceFile`.
pub ghost struct WorkspaceFileView {
    pub path: Seq<char>,
    pub content: Seq<char>,
    pub analyzable: bool,
    pub decls: Seq<DeclaratorView>,
}

/// One file, exclusively owned by one file task end to end.
#[derive(Debug)]
pub struct WorkspaceFile {
    pub path: String,
    pub content: String,
    pub model: FileModel,
}

impl View for WorkspaceFile {
    type V = WorkspaceFileView;

    open spec fn view(&self) -> WorkspaceFileView {
        WorkspaceFileView {
            path: self.path@,
            content: self.content@,
            analyzable: self.model@.analyzable,
            decls: self.model@.decls,
        }
    }
}

/// The file after an update: a new text revision with the model the parser
/// collaborator derived for it; the path never changes.
pub open spec fn updated_file(f: WorkspaceFileView, text: Seq<char>, analyzable: bool, decls: Seq<DeclaratorView>) -> WorkspaceFileView {
    WorkspaceFileView { path: f.path, content: text, analyzable: analyzable, decls: decls }
}

impl WorkspaceFile {
    /// Opens a file task's view of one file: the text the storage layer
    /// read and the model the parser derived from it.
    pub fn new(path: String, content: String, model: FileModel) -> (r: WorkspaceFile)
        ensures
            r@.path == path@,
            r@.content == content@,
            r@.analyzable == model@.analyzable,
            r@.decls == model@.decls,
    {
        WorkspaceFile { path, content, model }
    }

    /// The current text revision.
    pub fn input(&self) -> (r: String)
        ensures
            r@ == self@.content,
    {
        self.content.clone()
    }

    /// Advances the text revision to `text`, with `model` the tree the
    /// parser collaborator derived for it. Every later pull works on this
    /// revision.
    pub fn update_file(&mut self, text: String, model: FileModel)
        ensures
            final(self)@ == updated_file(old(self)@, text@, model@.analyzable, model@.decls),
    {
        self.content = text;
        self.model = model;
    }

    /// A read-only session on the current revision, for pulls and fixes.
    pub fn guard(&self) -> (g: FileGuard)
        ensures
            g.content@ == self@.content,
            g.model@.analyzable == self@.analyzable,
            g.model@.decls == self@.decls,
    {
        FileGuard { content: self.content.clone(), model: clone_model(&self.model) }
    }
}

} // verus!
