//! The modelled view of one source file's syntax tree.
//!
//! The parser is an external collaborator: it hands the library, as plain
//! values, exactly what the registered rules read from a tree — one record
//! per occurrence of the queried shape (a variable declarator), each field
//! the result of one fallible lookup. A failed lookup is `None` and means
//! "no match" for that occurrence, never an error.

use vstd::prelude::*;

verus! {

/// A half-open range of character positions in a file's text.
#[derive(Clone, Copy, PartialEq, Eq, Structural, Debug)]
pub struct TextRange {
    pub start: usize,
    pub end: usize,
}

/// The initializer of a declarator: its range in the text and, when it is a
/// literal expression with a static value, that value's text (unquoted).
#[derive(Debug)]
pub struct Initializer {
    pub range: TextRange,
    pub literal: Option<String>,
}

/// One occurrence of the queried tree shape: a variable declarator.
///
/// Each `Option` field is the outcome of one fallible lookup against the
/// tree: the declaring statement's constness (an ancestor lookup), the bound
/// identifier's text, and the initializer.
#[derive(Debug)]
pub struct Declarator {
    pub range: TextRange,
    pub is_const: Option<bool>,
    pub id: Option<String>,
    pub init: Option<Initializer>,
}

/// Ghost view of an `Initializer`.
pub ghost struct InitializerView {
    pub range: TextRange,
    pub literal: Option<Seq<char>>,
}

/// Ghost view of a `Declarator`.
pub ghost struct DeclaratorView {
    pub range: TextRange,
    pub is_const: Option<bool>,
    pub id: Option<Seq<char>>,
    pub init: Option<InitializerView>,
}

impl View for Initializer {
    type V = InitializerView;

    open spec fn view(&self) -> InitializerView {
        InitializerView {
            range: self.range,
            literal: match self.literal {
                Some(s) => Some(s@),
                None => None,
            },
        }
    }
}

impl View for Declarator {
    type V = DeclaratorView;

    open spec fn view(&self) -> DeclaratorView {
        DeclaratorView {
            range: self.range,
            is_const: self.is_const,
            id: match self.id {
                Some(s) => Some(s@),
                None => None,
            },
            init: match self.init {
                Some(i) => Some(i@),
                None => None,
            },
        }
    }
}

/// The analyzable model of one file: every occurrence of the queried shape,
/// in document order, plus whether the tree supports analysis at all.
#[derive(Debug)]
pub struct FileModel {
    pub analyzable: bool,
    pub declarators: Vec<Declarator>,
}

/// Ghost view of a `FileModel`.
pub ghost struct FileModelView {
    pub analyzable: bool,
    pub decls: Seq<DeclaratorView>,
}

/// The views of a sequence of declarators, elementwise.
pub open spec fn decl_views(s: Seq<Declarator>) -> Seq<DeclaratorView> {
    s.map_values(|d: Declarator| d@)
}

/// Pushing a declarator pushes its view.
pub proof fn lemma_decl_views_push(s: Seq<Declarator>, d: Declarator)
    ensures
        decl_views(s.push(d)) =~= decl_views(s).push(d@),
{
}

impl View for FileModel {
    type V = FileModelView;

    open spec fn view(&self) -> FileModelView {
        FileModelView {
            analyzable: self.analyzable,
            decls: decl_views(self.declarators@),
        }
    }
}

impl FileModel {
    /// A model with no occurrences at all.
    pub fn empty() -> (r: FileModel)
        ensures
            r@.analyzable,
            r@.decls.len() == 0,
    {
        let r = FileModel { analyzable: true, declarators: Vec::new() };
        proof {
            assert(r@.decls =~= Seq::<DeclaratorView>::empty());
        }
        r
    }
}

/// Copies an initializer; the copy has the same view.
pub fn clone_initializer(i: &Initializer) -> (r: Initializer)
    ensures
        r@ == i@,
{
    Initializer {
        range: i.range,
        literal: match &i.literal {
            Some(s) => Some(s.clone()),
            None => None,
        },
    }
}

/// Copies a declarator; the copy has the same view.
pub fn clone_declarator(d: &Declarator) -> (r: Declarator)
    ensures
        r@ == d@,
{
    Declarator {
        range: d.range,
        is_const: d.is_const,
        id: match &d.id {
            Some(s) => Some(s.clone()),
            None => None,
        },
        init: match &d.init {
            Some(i) => Some(clone_initializer(i)),
            None => None,
        },
    }
}

/// Copies a file model; the copy has the same view.
pub fn clone_model(m: &FileModel) -> (r: FileModel)
    ensures
        r@ == m@,
{
    let mut decls: Vec<Declarator> = Vec::new();
    let mut i: usize = 0;
    while i < m.declarators.len()
        invariant
            i <= m.declarators.len(),
            decl_views(decls@) =~= m@.decls.take(i as int),
        decreases m.declarators.len() - i,
    {
        let c = clone_declarator(&m.declarators[i]);
        let ghost before = decls@;
        proof {
            assert(m@.decls[i as int] == m.declarators@[i as int]@);
        }
        decls.push(c);
        proof {
            lemma_decl_views_push(before, c);
            assert(decl_views(decls@) =~= m@.decls.take(i + 1 as int));
        }
        i = i + 1;
    }
    let r = FileModel { analyzable: m.analyzable, declarators: decls };
    proof {
        assert(m@.decls.take(m.declarators.len() as int) =~= m@.decls);
        assert(r@ == m@);
    }
    r
}

} // verus!
