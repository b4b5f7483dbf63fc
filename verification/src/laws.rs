use vstd::prelude::*;

use crate::decl::DeclKind;
use crate::decl::Declaration;
use crate::decl::decl_matches;
use crate::patch::apply_op;
use crate::patch::first_match;
use crate::patch::lemma_first_match;
use crate::render::render_decls;

verus! {

/// Idempotence of replace: a replace-or-insert operation whose new
/// declaration is identical to the matched one leaves the sequence, and
/// hence the rendered text, unchanged — no textual change is detected.
pub proof fn lemma_replace_idempotent(
    s: Seq<Declaration>,
    kind: DeclKind,
    name: Seq<char>,
    d: Declaration,
)
    requires
        first_match(s, kind, name) matches Some(j) && s[j] == d,
    ensures
        apply_op(s, kind, name, Some(d)) == s,
        render_decls(apply_op(s, kind, name, Some(d))) == render_decls(s),
{
    lemma_first_match(s, kind, name);
    match first_match(s, kind, name) {
        Some(j) => {
            assert(s.update(j, d) =~= s);
        },
        None => {},
    }
}

/// Insert-if-absent: a replace-or-insert operation whose target is not
/// present appends the new declaration at the end, keeping every existing
/// declaration in its place.
pub proof fn lemma_insert_if_absent(
    s: Seq<Declaration>,
    kind: DeclKind,
    name: Seq<char>,
    d: Declaration,
)
    requires
        first_match(s, kind, name) is None,
    ensures
        apply_op(s, kind, name, Some(d)) == s.push(d),
        apply_op(s, kind, name, Some(d)).len() == s.len() + 1,
        forall|k: int| 0 <= k < s.len() ==> apply_op(s, kind, name, Some(d))[k] == s[k],
        apply_op(s, kind, name, Some(d))[s.len() as int] == d,
{
}

/// Replace-if-present: a replace-or-insert operation whose target is present
/// replaces the declaration at the matched index in place, keeping the
/// length and every other declaration's position unchanged.
pub proof fn lemma_replace_if_present(
    s: Seq<Declaration>,
    kind: DeclKind,
    name: Seq<char>,
    j: int,
    d: Declaration,
)
    requires
        first_match(s, kind, name) == Some(j),
    ensures
        apply_op(s, kind, name, Some(d)) == s.update(j, d),
        apply_op(s, kind, name, Some(d)).len() == s.len(),
        forall|k: int| 0 <= k < s.len() && k != j ==> apply_op(s, kind, name, Some(d))[k] == s[k],
        apply_op(s, kind, name, Some(d))[j] == d,
{
    lemma_first_match(s, kind, name);
}

/// Remove-if-present: a removal whose target is present deletes the
/// declaration at the matched index, keeping the relative order of the rest.
pub proof fn lemma_remove_if_present(s: Seq<Declaration>, kind: DeclKind, name: Seq<char>, j: int)
    requires
        first_match(s, kind, name) == Some(j),
    ensures
        apply_op(s, kind, name, None) == s.remove(j),
        apply_op(s, kind, name, None).len() == s.len() - 1,
        forall|k: int| 0 <= k < j ==> apply_op(s, kind, name, None)[k] == s[k],
        forall|k: int| j <= k < s.len() - 1 ==> apply_op(s, kind, name, None)[k] == s[k + 1],
{
    lemma_first_match(s, kind, name);
}

/// Remove-if-absent is a no-op: a removal whose target is not present leaves
/// the sequence, and hence the rendered text, unchanged — no textual change
/// is detected.
pub proof fn lemma_remove_if_absent(s: Seq<Declaration>, kind: DeclKind, name: Seq<char>)
    requires
        first_match(s, kind, name) is None,
    ensures
        apply_op(s, kind, name, None) == s,
        render_decls(apply_op(s, kind, name, None)) == render_decls(s),
{
}

/// First-match-wins: where the declaration at index `i` matches the target
/// and none before it does, a replace operation mutates exactly index `i`;
/// every other declaration, any later duplicate included, stays untouched.
pub proof fn lemma_first_match_wins(
    s: Seq<Declaration>,
    kind: DeclKind,
    name: Seq<char>,
    i: int,
    d: Declaration,
)
    requires
        0 <= i < s.len(),
        decl_matches(s[i], kind, name),
        forall|k: int| 0 <= k < i ==> !decl_matches(s[k], kind, name),
    ensures
        first_match(s, kind, name) == Some(i),
        apply_op(s, kind, name, Some(d)) == s.update(i, d),
        forall|k: int| 0 <= k < s.len() && k != i ==> apply_op(s, kind, name, Some(d))[k] == s[k],
        apply_op(s, kind, name, Some(d))[i] == d,
{
    lemma_first_match(s, kind, name);
    match first_match(s, kind, name) {
        Some(j) => {
            if j < i {
                assert(!decl_matches(s[j], kind, name));
            }
            if j > i {
                assert(!decl_matches(s[i], kind, name));
            }
        },
        None => {
            assert(!decl_matches(s[i], kind, name));
        },
    }
}

} // verus!
