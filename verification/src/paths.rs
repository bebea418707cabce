use vstd::prelude::*;
use crate::text::{has_prefix, has_suffix};

verus! {

/// The name contains no character that any supported platform treats as a
/// path separator or drive marker.
pub open spec fn plain_name(s: Seq<char>) -> bool {
    forall|i: int| 0 <= i < s.len() ==> s[i] != '/' && s[i] != '\\' && s[i] != ':'
}

/// The position of the last `.` in `s`, if any.
pub open spec fn last_dot(s: Seq<char>) -> int
    decreases s.len(),
{
    if s.len() == 0 {
        -1
    } else if s.last() == '.' {
        s.len() - 1
    } else {
        last_dot(s.drop_last())
    }
}

/// The extension of a single file name as `Path::extension` documents it:
/// none for "", "." and "..", none without a dot, none when the only dot
/// leads the name, otherwise the text after the final dot.
pub open spec fn documented_extension(name: Seq<char>) -> Option<Seq<char>> {
    if name.len() == 0 || name == seq!['.'] || name == seq!['.', '.'] {
        None
    } else if last_dot(name) <= 0 {
        None
    } else {
        Some(name.subrange(last_dot(name) + 1, name.len() as int))
    }
}

/// Calls `Path::extension` on a file name.  For a plain name (no separator or
/// drive character) the result is the documented extension; for other names it
/// depends on the platform's path syntax and nothing is stated.
#[verifier::external_body]
pub(crate) fn file_extension(name: &str) -> (r: Option<String>)
    ensures
        plain_name(name@) ==> match r {
            Some(e) => documented_extension(name@) == Some(e@),
            None => documented_extension(name@) is None,
        },
{
    match std::path::Path::new(name).extension() {
        Some(os) => os.to_str().map(String::from),
        None => None,
    }
}

/// A single relative path component: a plain, non-empty name other than "."
/// and "..".
pub open spec fn plain_component(s: Seq<char>) -> bool {
    plain_name(s) && s.len() > 0 && s != seq!['.'] && s != seq!['.', '.']
}

/// A Windows verbatim path (`\\?\...`), whose components pushing rebuilds.
pub open spec fn verbatim_path(s: Seq<char>) -> bool {
    has_prefix(s, seq!['\\', '\\', '?', '\\'])
}

/// A bare Windows drive such as `C:`: an ASCII letter and a colon.
pub open spec fn bare_drive(s: Seq<char>) -> bool {
    s.len() == 2 && s[1] == ':' && (('a' <= s[0] && s[0] <= 'z') || ('A' <= s[0] && s[0] <= 'Z'))
}

/// `r` is `base` extended by the relative component `c` as some supported
/// platform joins them: `c` alone onto an empty base; directly after a
/// trailing `/`; after a trailing `\` directly (Windows) or after a `/`
/// (elsewhere); onto a bare drive directly (Windows) or after a `/`
/// (elsewhere); otherwise after one separator, `/` or `\`.
pub open spec fn joined_path(r: Seq<char>, base: Seq<char>, c: Seq<char>) -> bool {
    if base.len() == 0 {
        r == c
    } else if base.last() == '/' {
        r == base + c
    } else if base.last() == '\\' || bare_drive(base) {
        r == base + c || r == base + seq!['/'] + c
    } else {
        r == base + seq!['/'] + c || r == base + seq!['\\'] + c
    }
}

/// A relative path written without backslashes or drive characters: non-empty
/// and not beginning with `/`.
pub open spec fn relative_text(c: Seq<char>) -> bool {
    &&& c.len() > 0
    &&& c[0] != '/'
    &&& forall|i: int| 0 <= i < c.len() ==> c[i] != '\\' && c[i] != ':'
}

/// Calls `PathBuf::push`: `component` joined onto `base` by the platform's
/// path rules (an absolute component replaces the base).  A single relative
/// component (no separator or drive character) is appended, after a separator
/// where the base needs one, so the result ends with it; onto a base that is
/// not a verbatim path, the result is as `joined_path` describes (which
/// separator is added differs between platforms).  A relative path without
/// backslashes or drive characters is appended as it stands onto a base that
/// ends with `/` and is not a verbatim path, since every platform takes `/` as
/// a separator there.
#[verifier::external_body]
pub(crate) fn path_join(base: &str, component: &str) -> (r: String)
    ensures
        plain_component(component@) ==> has_suffix(r@, component@),
        plain_component(component@) && !verbatim_path(base@) ==> joined_path(r@, base@, component@),
        base@.len() > 0 && base@.last() == '/' && !verbatim_path(base@) && relative_text(component@) ==> r@ == base@
            + component@,
{
    let mut p = std::path::PathBuf::from(base);
    p.push(component);
    p.to_string_lossy().into_owned()
}

/// A joined path begins with its base and ends with its component.
pub proof fn lemma_joined_path_ends(r: Seq<char>, base: Seq<char>, c: Seq<char>)
    requires
        joined_path(r, base, c),
    ensures
        has_prefix(r, base),
        has_suffix(r, c),
{
    if base.len() == 0 {
        assert(r.subrange(0, 0) =~= base);
        assert(r.subrange(r.len() - c.len(), r.len() as int) =~= c);
    } else if r == base + c {
        assert(r.subrange(0, base.len() as int) =~= base);
        assert(r.subrange(r.len() - c.len(), r.len() as int) =~= c);
    } else if r == base + seq!['/'] + c {
        assert(r.subrange(0, base.len() as int) =~= base);
        assert(r.subrange(r.len() - c.len(), r.len() as int) =~= c);
    } else {
        assert(r == base + seq!['\\'] + c);
        assert(r.subrange(0, base.len() as int) =~= base);
        assert(r.subrange(r.len() - c.len(), r.len() as int) =~= c);
    }
}

/// The pieces of `s` between its `/` characters, in order: one more piece
/// than there are `/`.
pub open spec fn slash_pieces(s: Seq<char>) -> Seq<Seq<char>>
    decreases s.len(),
{
    if s.len() == 0 {
        seq![Seq::<char>::empty()]
    } else {
        let r = slash_pieces(s.drop_last());
        if s.last() == '/' {
            r.push(Seq::<char>::empty())
        } else {
            r.update(r.len() - 1, r.last().push(s.last()))
        }
    }
}

/// The first piece that is a component: after the empty piece before a
/// leading `/`.
pub open spec fn slash_lo(s: Seq<char>) -> int {
    if slash_pieces(s).len() > 1 && slash_pieces(s)[0].len() == 0 { 1 } else { 0 }
}

/// One past the last piece that is a component: before the empty piece after
/// a trailing `/`.
pub open spec fn slash_hi(s: Seq<char>) -> int {
    let p = slash_pieces(s);
    if p.len() > 1 && p.last().len() == 0 { p.len() - 1 } else { p.len() as int }
}

/// A path written with single `/` separators between plain components, with
/// or without a leading `/` (the root) and a trailing `/`.  Every supported
/// platform reads such a path the same way.
pub open spec fn slash_path(s: Seq<char>) -> bool {
    &&& slash_lo(s) <= slash_hi(s)
    &&& forall|i: int| slash_lo(s) <= i < slash_hi(s) ==> plain_component(#[trigger] slash_pieces(s)[i])
}

/// The components of a slash path: the root, written `/`, when it begins with
/// `/`, then its plain components.
pub open spec fn slash_components(s: Seq<char>) -> Seq<Seq<char>> {
    (if slash_lo(s) == 1 { seq![seq!['/']] } else { Seq::<Seq<char>>::empty() }) + slash_pieces(s).subrange(
        slash_lo(s),
        slash_hi(s),
    )
}

/// `path` lies under `base`, both slash paths: the components of `base` begin
/// those of `path`.
pub open spec fn slash_under(path: Seq<char>, base: Seq<char>) -> bool {
    slash_components(base).is_prefix_of(slash_components(path))
}

/// Calls `Path::starts_with`: whether `base` is a prefix of `path` component by
/// component, under the platform's path syntax.  A path always starts with
/// itself; for two slash paths every platform splits them into the same
/// components (the root, then the names), so the answer is the component-wise
/// prefix test; beyond that it depends on the platform and is not stated.
#[verifier::external_body]
pub(crate) fn path_starts_with(path: &str, base: &str) -> (r: bool)
    ensures
        path@ == base@ ==> r,
        slash_path(path@) && slash_path(base@) ==> r == slash_under(path@, base@),
{
    std::path::Path::new(path).starts_with(base)
}

} // verus!
