use vstd::prelude::*;

use crate::decl::DeclKind;
use crate::decl::Declaration;
use crate::decl::decl_matches;
use crate::decl::match_item;
use crate::decl::str_eq;
use crate::parse::parse_decl;
use crate::parse::parse_decl_of;
use crate::parse::parse_of;
use crate::parse::parse_source;
use crate::render::render;
use crate::render::render_decls;

verus! {

/// The index of the first declaration hit by a patch targeting `kind` and
/// `name`, or `None` where no declaration matches.
pub open spec fn first_match(s: Seq<Declaration>, kind: DeclKind, name: Seq<char>) -> Option<int>
    decreases s.len(),
{
    if s.len() == 0 {
        None
    } else if decl_matches(s[0], kind, name) {
        Some(0int)
    } else {
        match first_match(s.subrange(1, s.len() as int), kind, name) {
            Some(j) => Some(j + 1),
            None => None,
        }
    }
}

/// What `first_match` finds: a matching index before which nothing matches,
/// or, when it finds nothing, that no index matches.
pub proof fn lemma_first_match(s: Seq<Declaration>, kind: DeclKind, name: Seq<char>)
    ensures
        match first_match(s, kind, name) {
            Some(j) => 0 <= j < s.len() && decl_matches(s[j], kind, name) && (forall|k: int|
                0 <= k < j ==> !decl_matches(s[k], kind, name)),
            None => forall|k: int| 0 <= k < s.len() ==> !decl_matches(s[k], kind, name),
        },
    decreases s.len(),
{
    if s.len() == 0 {
    } else if decl_matches(s[0], kind, name) {
    } else {
        let t = s.subrange(1, s.len() as int);
        lemma_first_match(t, kind, name);
        assert(forall|k: int| 1 <= k < s.len() ==> s[k] == t[k - 1]);
        match first_match(t, kind, name) {
            Some(j) => {
                assert(decl_matches(s[j + 1], kind, name));
                assert forall|k: int| 0 <= k < j + 1 implies !decl_matches(
                    s[k],
                    kind,
                    name,
                ) by {
                    if k >= 1 {
                        assert(!decl_matches(t[k - 1], kind, name));
                    }
                }
            },
            None => {
                assert forall|k: int| 0 <= k < s.len() implies !decl_matches(
                    s[k],
                    kind,
                    name,
                ) by {
                    if k >= 1 {
                        assert(!decl_matches(t[k - 1], kind, name));
                    }
                }
            },
        }
    }
}

/// The sequence a patch operation produces: the matched declaration is
/// replaced or removed; with no match, a new declaration is appended or the
/// sequence is kept as it is.
pub open spec fn apply_op(
    s: Seq<Declaration>,
    kind: DeclKind,
    name: Seq<char>,
    new_item: Option<Declaration>,
) -> Seq<Declaration> {
    match first_match(s, kind, name) {
        Some(j) => match new_item {
            Some(d) => s.update(j, d),
            None => s.remove(j),
        },
        None => match new_item {
            Some(d) => s.push(d),
            None => s,
        },
    }
}

/// Scans the declarations in order and returns the index of the first one
/// whose kind and name the patch targets, or `None` where none matches.
pub fn locate(items: &Vec<Declaration>, kind: DeclKind, item_name: &str) -> (r: Option<usize>)
    ensures
        match r {
            Some(j) => first_match(items@, kind, item_name@) == Some(j as int),
            None => first_match(items@, kind, item_name@) is None,
        },
{
    let n = items.len();
    let mut i: usize = 0;
    while i < n
        invariant
            n == items@.len(),
            i <= n,
            forall|k: int| 0 <= k < i ==> !decl_matches(items@[k], kind, item_name@),
        decreases n - i,
    {
        if match_item(&items[i], kind, item_name) {
            proof {
                lemma_first_match(items@, kind, item_name@);
                match first_match(items@, kind, item_name@) {
                    Some(j) => {
                        if j < i {
                            assert(!decl_matches(items@[j], kind, item_name@));
                        }
                        if j > i {
                            assert(!decl_matches(items@[i as int], kind, item_name@));
                        }
                    },
                    None => {
                        assert(!decl_matches(items@[i as int], kind, item_name@));
                    },
                }
            }
            return Some(i);
        }
        i += 1;
    }
    proof {
        lemma_first_match(items@, kind, item_name@);
    }
    None
}

/// Applies one patch operation to the declaration sequence: `new_item` of
/// `Some` replaces the first match or is appended where none exists;
/// `new_item` of `None` removes the first match and otherwise leaves the
/// sequence unchanged.
pub fn modify_items(
    items: &mut Vec<Declaration>,
    kind: DeclKind,
    item_name: &str,
    new_item: Option<Declaration>,
)
    ensures
        final(items)@ == apply_op(old(items)@, kind, item_name@, new_item),
{
    proof {
        lemma_first_match(items@, kind, item_name@);
    }
    let loc = locate(items, kind, item_name);
    match loc {
        Some(j) => match new_item {
            Some(d) => {
                items.remove(j);
                items.insert(j, d);
                proof {
                    assert(items@ =~= old(items)@.update(j as int, d));
                }
            },
            None => {
                items.remove(j);
            },
        },
        None => match new_item {
            Some(d) => {
                items.push(d);
            },
            None => {},
        },
    }
}

/// Why a patch could not be applied.
#[derive(Clone, Copy, PartialEq, Eq, Structural, Debug)]
pub enum PatchError {
    /// The target source text does not parse.
    ParseFile,
    /// The patch's new code does not parse as a declaration of the targeted
    /// kind.
    ParseNewCode,
    /// The patch targets a kind outside the two supported ones.
    UnsupportedKind,
}

/// The declaration kind a patch's type field selects: `"fn"` or `"struct"`;
/// anything else is unsupported.
pub open spec fn kind_of_type_str(t: Seq<char>) -> Option<DeclKind> {
    if t == "fn"@ {
        Some(DeclKind::Function)
    } else if t == "struct"@ {
        Some(DeclKind::Struct)
    } else {
        None
    }
}

/// Reads a patch's type field as a declaration kind.
pub fn parse_kind(item_type: &str) -> (r: Option<DeclKind>)
    ensures
        r == kind_of_type_str(item_type@),
{
    if str_eq(item_type, "fn") {
        Some(DeclKind::Function)
    } else if str_eq(item_type, "struct") {
        Some(DeclKind::Struct)
    } else {
        None
    }
}

/// The view of an optional code text.
pub open spec fn opt_text(c: Option<&str>) -> Option<Seq<char>> {
    match c {
        Some(s) => Some(s@),
        None => None,
    }
}

/// What applying one patch to a source text yields: the rendered text of the
/// mutated declaration sequence, or the first error met on the way — an
/// unparsable file, an unsupported kind, or unparsable new code, in that
/// order.
pub open spec fn patch_outcome(
    orig: Seq<char>,
    ty: Seq<char>,
    name: Seq<char>,
    code: Option<Seq<char>>,
) -> Result<Seq<char>, PatchError> {
    match parse_of(orig) {
        None => Err(PatchError::ParseFile),
        Some(decls) => match kind_of_type_str(ty) {
            None => Err(PatchError::UnsupportedKind),
            Some(kind) => match code {
                Some(c) => match parse_decl_of(kind, c) {
                    None => Err(PatchError::ParseNewCode),
                    Some(d) => Ok(render_decls(apply_op(decls, kind, name, Some(d)))),
                },
                None => Ok(render_decls(apply_op(decls, kind, name, None))),
            },
        },
    }
}

/// Applies one patch to a source text: parses the text, locates the first
/// declaration of the targeted kind and name, replaces it with the parsed
/// new code, appends that code where no match exists, or removes the match
/// where no code is supplied, and renders the result back to text.
pub fn apply_patch(
    original_code: &str,
    item_type: &str,
    item_name: &str,
    new_code: Option<&str>,
) -> (r: Result<String, PatchError>)
    ensures
        match r {
            Ok(out) => patch_outcome(original_code@, item_type@, item_name@, opt_text(new_code))
                == Ok::<Seq<char>, PatchError>(out@),
            Err(e) => patch_outcome(original_code@, item_type@, item_name@, opt_text(new_code))
                == Err::<Seq<char>, PatchError>(e),
        },
{
    let mut sf = match parse_source(original_code) {
        Some(sf) => sf,
        None => {
            return Err(PatchError::ParseFile);
        },
    };
    let kind = match parse_kind(item_type) {
        Some(k) => k,
        None => {
            return Err(PatchError::UnsupportedKind);
        },
    };
    let new_item: Option<Declaration> = match new_code {
        Some(code) => match parse_decl(kind, code) {
            Some(d) => Some(d),
            None => {
                return Err(PatchError::ParseNewCode);
            },
        },
        None => None,
    };
    modify_items(&mut sf.decls, kind, item_name, new_item);
    Ok(render(&sf))
}

} // verus!
