use vstd::prelude::*;
use vstd::string::StringExecFns;

use crate::decl::Declaration;
use crate::decl::SourceFile;
use crate::decl::decl_text;
use crate::decl::str_eq;
use crate::parse::parse_of;
use crate::parse::parse_source;

verus! {

/// The text a sequence of declarations renders to: the declarations' own
/// texts, in order, separated by single spaces.
pub open spec fn render_decls(s: Seq<Declaration>) -> Seq<char>
    decreases s.len(),
{
    if s.len() == 0 {
        Seq::empty()
    } else if s.len() == 1 {
        decl_text(s[0])
    } else {
        render_decls(s.drop_last()) + seq![' '] + decl_text(s.last())
    }
}

/// Serializes the declaration sequence back to source text, in order.
pub fn render(source: &SourceFile) -> (r: String)
    ensures
        r@ == render_decls(source@),
{
    let mut out = String::new();
    let n = source.decls.len();
    let mut i: usize = 0;
    while i < n
        invariant
            n == source.decls@.len(),
            i <= n,
            out@ == render_decls(source@.take(i as int)),
        decreases n - i,
    {
        if i > 0 {
            out.append(" ");
        }
        out.append(source.decls[i].text());
        proof {
            let s = source@;
            let t = s.take(i as int + 1);
            assert(t.drop_last() =~= s.take(i as int));
            assert(t.last() == s[i as int]);
            if i == 0 {
                assert(out@ =~= render_decls(t));
            } else {
                reveal_strlit(" ");
                assert(out@ =~= render_decls(s.take(i as int)) + seq![' '] + decl_text(
                    s[i as int],
                ));
            }
        }
        i += 1;
    }
    proof {
        assert(source@.take(n as int) =~= source@);
    }
    out
}

/// Parses a source text and renders it back: the canonical, token-by-token
/// form of the text, used for stable comparisons. `None` where the text is
/// not valid source.
pub fn canonical_source(text: &str) -> (r: Option<String>)
    ensures
        match r {
            Some(out) => parse_of(text@) matches Some(decls) && out@ == render_decls(decls),
            None => parse_of(text@) is None,
        },
{
    match parse_source(text) {
        Some(sf) => Some(render(&sf)),
        None => None,
    }
}

/// Whether the modified text differs from the original: the condition under
/// which a diff is to be reported rather than "no changes detected".
pub fn changes_detected(original: &str, modified: &str) -> (r: bool)
    ensures
        r == (original@ != modified@),
{
    !str_eq(original, modified)
}

} // verus!
