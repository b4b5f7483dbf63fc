use vstd::prelude::*;

use crate::decl::DeclKind;
use crate::decl::Declaration;
use crate::decl::SourceFile;

verus! {

/// The sequence of declarations that a source text parses to, or `None`
/// where the text is not valid source. The result depends on the text alone.
pub uninterp spec fn parse_of(s: Seq<char>) -> Option<Seq<Declaration>>;

/// The function declaration that a text parses to, or `None` where the text
/// is not a single valid function. The result depends on the text alone.
pub uninterp spec fn parse_fn_of(s: Seq<char>) -> Option<Declaration>;

/// The struct declaration that a text parses to, or `None` where the text
/// is not a single valid struct definition. The result depends on the text
/// alone.
pub uninterp spec fn parse_struct_of(s: Seq<char>) -> Option<Declaration>;

/// Relies on syn::parse_file to split a source text into its file-level
/// inner attributes and top-level items, and on quote::ToTokens with
/// proc_macro2::TokenStream::to_string to render each of them and each
/// identifier back to text; each is a pure function of the text. The inner
/// attributes, which stand before the items in the file, are kept as one
/// leading declaration that is preserved but never matched.
#[verifier::external_body]
pub(crate) fn parse_source(text: &str) -> (r: Option<SourceFile>)
    ensures
        match r {
            Some(sf) => parse_of(text@) == Some(sf@),
            None => parse_of(text@) is None,
        },
{
    let file = syn::parse_file(text).ok()?;
    let mut decls: Vec<Declaration> = Vec::new();
    let attrs: proc_macro2::TokenStream = file.attrs.iter().map(quote::ToTokens::to_token_stream).collect();
    if !attrs.is_empty() {
        decls.push(Declaration::Other { text: attrs.to_string() });
    }
    for item in file.items {
        let text = quote::ToTokens::to_token_stream(&item).to_string();
        decls.push(match item {
            syn::Item::Fn(f) => Declaration::Function { name: f.sig.ident.to_string(), text },
            syn::Item::Struct(s) => Declaration::Struct { name: s.ident.to_string(), text },
            _ => Declaration::Other { text },
        });
    }
    Some(SourceFile { decls })
}

/// Relies on syn::parse_str::<syn::ItemFn> to parse one function, and on
/// quote::ToTokens with proc_macro2::TokenStream::to_string to render it and
/// its identifier back to text; each is a pure function of the text.
#[verifier::external_body]
pub(crate) fn parse_fn_decl(text: &str) -> (r: Option<Declaration>)
    ensures
        r == parse_fn_of(text@),
        r matches Some(d) ==> d is Function,
{
    match syn::parse_str::<syn::ItemFn>(text) {
        Ok(f) => Some(
            Declaration::Function {
                name: f.sig.ident.to_string(),
                text: quote::ToTokens::to_token_stream(&f).to_string(),
            },
        ),
        Err(_) => None,
    }
}

/// Relies on syn::parse_str::<syn::ItemStruct> to parse one struct
/// definition, and on quote::ToTokens with proc_macro2::TokenStream::to_string
/// to render it and its identifier back to text; each is a pure function of
/// the text.
#[verifier::external_body]
pub(crate) fn parse_struct_decl(text: &str) -> (r: Option<Declaration>)
    ensures
        r == parse_struct_of(text@),
        r matches Some(d) ==> d is Struct,
{
    match syn::parse_str::<syn::ItemStruct>(text) {
        Ok(s) => Some(
            Declaration::Struct {
                name: s.ident.to_string(),
                text: quote::ToTokens::to_token_stream(&s).to_string(),
            },
        ),
        Err(_) => None,
    }
}

/// The declaration that a text parses to when read as the given kind.
pub open spec fn parse_decl_of(kind: DeclKind, s: Seq<char>) -> Option<Declaration> {
    match kind {
        DeclKind::Function => parse_fn_of(s),
        DeclKind::Struct => parse_struct_of(s),
    }
}

/// Parses a text as one declaration of the given kind.
pub(crate) fn parse_decl(kind: DeclKind, text: &str) -> (r: Option<Declaration>)
    ensures
        r == parse_decl_of(kind, text@),
{
    match kind {
        DeclKind::Function => parse_fn_decl(text),
        DeclKind::Struct => parse_struct_decl(text),
    }
}

} // verus!
