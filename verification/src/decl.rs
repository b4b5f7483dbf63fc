use vstd::prelude::*;

verus! {

/// The two kinds of top-level declaration a patch can target.
#[derive(Clone, Copy, PartialEq, Eq, Structural, Debug)]
pub enum DeclKind {
    Function,
    Struct,
}

/// One top-level declaration of a source file.
///
/// The two supported kinds carry the identifier that a patch matches on;
/// every declaration carries its source text, rendered token by token, so
/// that a file can be serialized back to text. Any other construct is kept
/// verbatim but never matched.
#[derive(Debug)]
pub enum Declaration {
    Function { name: String, text: String },
    Struct { name: String, text: String },
    Other { text: String },
}

/// An ordered sequence of top-level declarations parsed from file text.
#[derive(Debug)]
pub struct SourceFile {
    pub decls: Vec<Declaration>,
}

impl View for SourceFile {
    type V = Seq<Declaration>;

    open spec fn view(&self) -> Seq<Declaration> {
        self.decls@
    }
}

/// Whether a declaration is hit by a patch that targets the given kind and
/// name. Names are compared for exact equality, with no normalization, and
/// declarations of other kinds never match.
pub open spec fn decl_matches(d: Declaration, kind: DeclKind, name: Seq<char>) -> bool {
    match d {
        Declaration::Function { name: n, .. } => kind == DeclKind::Function && n@ == name,
        Declaration::Struct { name: n, .. } => kind == DeclKind::Struct && n@ == name,
        Declaration::Other { .. } => false,
    }
}

/// The source text a declaration renders to.
pub open spec fn decl_text(d: Declaration) -> Seq<char> {
    match d {
        Declaration::Function { text, .. } => text@,
        Declaration::Struct { text, .. } => text@,
        Declaration::Other { text } => text@,
    }
}

/// Exact string equality on the underlying character sequences.
pub fn str_eq(a: &str, b: &str) -> (r: bool)
    ensures
        r == (a@ == b@),
{
    let sa: String = a.to_owned();
    let sb: String = b.to_owned();
    sa == sb
}

/// Decides whether a declaration is hit by a patch targeting `kind` and
/// `item_name`.
pub fn match_item(d: &Declaration, kind: DeclKind, item_name: &str) -> (r: bool)
    ensures
        r == decl_matches(*d, kind, item_name@),
{
    match d {
        Declaration::Function { name, .. } => kind == DeclKind::Function && str_eq(
            name.as_str(),
            item_name,
        ),
        Declaration::Struct { name, .. } => kind == DeclKind::Struct && str_eq(
            name.as_str(),
            item_name,
        ),
        Declaration::Other { .. } => false,
    }
}

impl Declaration {
    /// The source text this declaration renders to.
    pub fn text(&self) -> (r: &str)
        ensures
            r@ == decl_text(*self),
    {
        match self {
            Declaration::Function { text, .. } => text.as_str(),
            Declaration::Struct { text, .. } => text.as_str(),
            Declaration::Other { text } => text.as_str(),
        }
    }
}

} // verus!
