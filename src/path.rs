//! Relative paths as sequences of components.
use vstd::prelude::*;

verus! {

/// A path component that names something: neither empty nor the current directory.
pub open spec fn names_entry(c: Seq<char>) -> bool {
    c.len() > 0 && c != seq!['.']
}

/// The one-element list `[c]` when `c` names an entry, else the empty list.
pub open spec fn kept(c: Seq<char>) -> Seq<Seq<char>> {
    if names_entry(c) {
        seq![c]
    } else {
        Seq::empty()
    }
}

/// The components of `s[start..]`, where `s[start..i]` holds no separator yet:
/// the text is cut at each `/`, and empty and `.` pieces are dropped.
pub open spec fn components_from(s: Seq<char>, start: int, i: int) -> Seq<Seq<char>>
    decreases s.len() - i,
{
    if i >= s.len() {
        kept(s.subrange(start, s.len() as int))
    } else if s[i] == '/' {
        kept(s.subrange(start, i)) + components_from(s, i + 1, i + 1)
    } else {
        components_from(s, start, i + 1)
    }
}

/// The components of a relative path text; the root (`.` or the empty text) has none.
pub open spec fn path_components(s: Seq<char>) -> Seq<Seq<char>> {
    components_from(s, 0, 0)
}

fn push_if_named(acc: &mut Vec<String>, piece: &str)
    ensures
        final(acc).deep_view() == old(acc).deep_view() + kept(piece@),
{
    let n = piece.unicode_len();
    let is_dot = n == 1 && piece.get_char(0) == '.';
    if n > 0 && !is_dot {
        proof {
            assert(piece@ != seq!['.']) by {
                if piece@ == seq!['.'] {
                    assert(piece@[0] == '.');
                }
            }
        }
        acc.push(piece.to_owned());
        assert(final(acc).deep_view() =~= old(acc).deep_view() + kept(piece@));
    } else {
        proof {
            if n == 1 {
                assert(piece@ =~= seq!['.']);
            }
        }
        assert(acc.deep_view() =~= old(acc).deep_view() + kept(piece@));
    }
}

/// Split a relative path text into its components.
pub fn parse_path(path: &str) -> (r: Vec<String>)
    ensures
        r.deep_view() == path_components(path@),
{
    let n = path.unicode_len();
    let mut acc: Vec<String> = Vec::new();
    let mut start: usize = 0;
    let mut i: usize = 0;
    assert(acc.deep_view() =~= Seq::<Seq<char>>::empty());
    assert(acc.deep_view() + components_from(path@, 0, 0) =~= path_components(path@));
    while i < n
        invariant
            n == path@.len(),
            start <= i <= n,
            acc.deep_view() + components_from(path@, start as int, i as int) == path_components(path@),
        decreases n - i,
    {
        if path.get_char(i) == '/' {
            let piece = path.substring_char(start, i);
            let ghost before = acc.deep_view();
            push_if_named(&mut acc, piece);
            assert(acc.deep_view() + components_from(path@, i + 1, i + 1) =~= before
                + components_from(path@, start as int, i as int));
            i = i + 1;
            start = i;
        } else {
            i = i + 1;
        }
    }
    let piece = path.substring_char(start, n);
    let ghost before = acc.deep_view();
    push_if_named(&mut acc, piece);
    assert(acc.deep_view() =~= before + components_from(path@, start as int, n as int));
    acc
}

/// The components of a path once each `..` has taken back the component before
/// it; `None` when a `..` would climb above the root.
pub open spec fn resolve(comps: Seq<Seq<char>>) -> Option<Seq<Seq<char>>>
    decreases comps.len(),
{
    if comps.len() == 0 {
        Some(Seq::empty())
    } else {
        match resolve(comps.drop_last()) {
            None => None,
            Some(r) => if comps.last() == seq!['.', '.'] {
                if r.len() == 0 {
                    None
                } else {
                    Some(r.drop_last())
                }
            } else {
                Some(r.push(comps.last()))
            },
        }
    }
}

proof fn lemma_escape_is_final(s: Seq<Seq<char>>, j: int)
    requires
        0 <= j <= s.len(),
        resolve(s.subrange(0, j)) is None,
    ensures
        resolve(s) is None,
    decreases s.len() - j,
{
    if j < s.len() {
        assert(s.subrange(0, j + 1).drop_last() =~= s.subrange(0, j));
        lemma_escape_is_final(s, j + 1);
    } else {
        assert(s.subrange(0, j) =~= s);
    }
}

/// A path that starts at the filesystem root rather than at the destination.
pub open spec fn is_absolute(s: Seq<char>) -> bool {
    s.len() > 0 && s[0] == '/'
}

/// Where a path lands under the destination root, as components; `None` when it
/// would land outside of it.
pub open spec fn contained(s: Seq<char>) -> Option<Seq<Seq<char>>> {
    if is_absolute(s) {
        None
    } else {
        resolve(path_components(s))
    }
}

fn is_parent_ref(c: &str) -> (r: bool)
    ensures
        r == (c@ == seq!['.', '.']),
{
    let n = c.unicode_len();
    if n != 2 {
        assert(c@.len() != seq!['.', '.'].len());
        return false;
    }
    let r = c.get_char(0) == '.' && c.get_char(1) == '.';
    if r {
        assert(c@ =~= seq!['.', '.']);
    } else {
        assert(c@ != seq!['.', '.']) by {
            if c@ == seq!['.', '.'] {
                assert(c@[0] == '.' && c@[1] == '.');
            }
        }
    }
    r
}

/// Resolve an archive entry's path against the destination root: its components
/// with each `..` applied, or `None` when the path is absolute or climbs above
/// the root.
pub fn resolve_within_root(path: &str) -> (r: Option<Vec<String>>)
    ensures
        match r {
            Some(v) => contained(path@) == Some(v.deep_view()),
            None => contained(path@) is None,
        },
{
    if path.unicode_len() > 0 && path.get_char(0) == '/' {
        return None;
    }
    let comps = parse_path(path);
    let ghost cs = comps.deep_view();
    let mut acc: Vec<String> = Vec::new();
    let mut i: usize = 0;
    assert(cs.subrange(0, 0) =~= Seq::<Seq<char>>::empty());
    assert(acc.deep_view() =~= Seq::<Seq<char>>::empty());
    while i < comps.len()
        invariant
            cs == comps.deep_view(),
            cs == path_components(path@),
            !is_absolute(path@),
            i <= comps.len(),
            resolve(cs.subrange(0, i as int)) == Some(acc.deep_view()),
        decreases comps.len() - i,
    {
        let c = comps[i].as_str();
        assert(cs.subrange(0, i + 1).drop_last() =~= cs.subrange(0, i as int));
        assert(cs.subrange(0, i + 1).last() == c@);
        if is_parent_ref(c) {
            if acc.len() == 0 {
                proof {
                    lemma_escape_is_final(cs, i + 1);
                }
                return None;
            }
            let ghost before = acc.deep_view();
            acc.pop();
            assert(acc.deep_view() =~= before.drop_last());
        } else {
            let ghost before = acc.deep_view();
            acc.push(c.to_owned());
            assert(acc.deep_view() =~= before.push(c@));
        }
        i = i + 1;
    }
    assert(cs.subrange(0, comps.len() as int) =~= cs);
    Some(acc)
}

} // verus!
