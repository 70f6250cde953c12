//! File system paths through `std::path`. Separators and what counts as a
//! component differ between operating systems, so the contracts here state
//! only what holds on every one of them.

use vstd::prelude::*;

verus! {

/// `s` is a single plain path component on every operating system: not
/// empty, not `.` or `..`, and without `/`, `\` or `:`.
pub open spec fn is_plain_component(s: Seq<char>) -> bool {
    &&& s.len() > 0
    &&& s != seq!['.']
    &&& s != seq!['.', '.']
    &&& forall|i: int| 0 <= i < s.len() ==> s[i] != '/' && s[i] != '\\' && s[i] != ':'
}

/// `c` separates path components on some operating system.
pub open spec fn is_separator(c: char) -> bool {
    c == '/' || c == '\\'
}

/// `base` is read alike on every operating system as a directory to join
/// onto: it holds no `:` (so no Windows drive or verbatim prefix), does not
/// start with two separators (so no Windows network or device prefix), and
/// does not end with `\`, which only Windows reads as a separator.
pub open spec fn is_plain_base(base: Seq<char>) -> bool {
    &&& !(base.len() >= 2 && is_separator(base[0]) && is_separator(base[1]))
    &&& !(base.len() > 0 && base.last() == '\\')
    &&& forall|i: int| 0 <= i < base.len() ==> base[i] != ':'
}

/// `joined` is `child` joined onto `base`: after an empty base or one that
/// ends with `/`, the child follows directly; otherwise one path separator
/// (`/` or `\`, depending on the operating system) comes between them.
pub open spec fn is_joined(base: Seq<char>, child: Seq<char>, joined: Seq<char>) -> bool {
    if base.len() == 0 || base.last() == '/' {
        joined == base + child
    } else {
        joined == base + seq!['/'] + child || joined == base + seq!['\\'] + child
    }
}

/// Joins `child` onto `base`.
/// Trusted: calls `std::path::Path::join` and converts the result with
/// `to_string_lossy`, which loses nothing here since both parts are UTF-8.
/// std documents `join` as `PathBuf::push`, which extends the path with the
/// child and puts a separator between them unless the path is empty or
/// already ends with one; a child with a root or prefix replaces the path
/// instead, and under a Windows prefix the result may be rebuilt. So for a
/// plain child under a plain base (whose end every system reads alike) the
/// contract states the result: the base, one separator unless the base is
/// empty or ends with `/`, and the child. Which separator (`/` or `\`) depends on the operating system and
/// is left open; so is the result for other bases and children.
#[verifier::external_body]
pub(crate) fn join_path(base: &str, child: &str) -> (res: String)
    ensures
        is_plain_component(child@) && is_plain_base(base@) ==> is_joined(base@, child@, res@),
{
    std::path::Path::new(base).join(child).to_string_lossy().to_string()
}

/// What the file system answered about a path: the path that was asked
/// about, and whether something existed there at the time.
pub struct PathCheck {
    pub path: String,
    pub exists: bool,
}

/// Asks whether something exists at `path`.
/// Trusted: calls `std::path::Path::exists` and hands back the path that
/// was asked about together with the answer. The contract states which
/// path the answer belongs to; the answer itself depends on the file
/// system at the time of the call and is left unstated.
#[verifier::external_body]
pub(crate) fn path_exists(path: &str) -> (res: PathCheck)
    ensures
        res.path@ == path@,
{
    PathCheck { path: path.to_string(), exists: std::path::Path::new(path).exists() }
}

/// `path` is read alike on every operating system: it holds no `\` and
/// no `:` (so no Windows prefix), and it does not start with `/`.
pub open spec fn is_portable_path(path: Seq<char>) -> bool {
    &&& (path.len() == 0 || path[0] != '/')
    &&& forall|i: int| 0 <= i < path.len() ==> path[i] != '\\' && path[i] != ':'
}

/// The last of the `/`-separated `pieces` that is neither empty nor `.`:
/// repeated and trailing separators and `.` components do not count.
pub open spec fn last_component(pieces: Seq<Seq<char>>) -> Option<Seq<char>>
    decreases pieces.len(),
{
    if pieces.len() == 0 {
        None
    } else if pieces.last().len() == 0 || pieces.last() == seq!['.'] {
        last_component(pieces.drop_last())
    } else {
        Some(pieces.last())
    }
}

/// The file name of a portable path, as `Path::file_name` documents it:
/// the last component, or none when the path ends in `..` or has no
/// component.
pub open spec fn portable_file_name(path: Seq<char>) -> Option<Seq<char>> {
    match last_component(crate::text::split_seq(path, '/')) {
        Some(c) => if c == seq!['.', '.'] {
            None
        } else {
            Some(c)
        },
        None => None,
    }
}

/// The position of the last `c` in `s`.
pub open spec fn last_index(s: Seq<char>, c: char) -> Option<int>
    decreases s.len(),
{
    if s.len() == 0 {
        None
    } else if s.last() == c {
        Some(s.len() - 1)
    } else {
        last_index(s.drop_last(), c)
    }
}

/// The extension of a portable path, as `Path::extension` documents it:
/// what follows the last `.` of the file name; none when there is no file
/// name, no `.` in it, or its only `.` is its first character.
pub open spec fn portable_extension(path: Seq<char>) -> Option<Seq<char>> {
    match portable_file_name(path) {
        Some(f) => match last_index(f, '.') {
            Some(k) => if k == 0 {
                None
            } else {
                Some(f.skip(k + 1))
            },
            None => None,
        },
        None => None,
    }
}

/// The last component of `path`, when it has one.
/// Trusted: calls `std::path::Path::file_name` and converts the result with
/// `to_string_lossy`, which loses nothing for a path given as UTF-8. Which
/// characters separate components, and what counts as a prefix, depend on
/// the operating system; for a portable path (no `\`, no `:`, not
/// starting with `/`) every system reads only `/` as a separator, and the
/// contract states the file name that std documents: the last component,
/// with repeated separators, trailing separators and `.` components
/// ignored, and none when the path ends in `..`. Other paths are left
/// unstated.
#[verifier::external_body]
pub(crate) fn file_name_of(path: &str) -> (res: Option<String>)
    ensures
        is_portable_path(path@) ==> match res {
            Some(f) => portable_file_name(path@) == Some(f@),
            None => portable_file_name(path@) is None,
        },
{
    std::path::Path::new(path).file_name().map(|n| n.to_string_lossy().to_string())
}

/// The extension of the last component of `path`, when it has one.
/// Trusted: calls `std::path::Path::extension` and keeps it when it is
/// valid UTF-8 (`OsStr::to_str`), which it always is for a path given as
/// UTF-8. For a portable path (see `file_name_of`) the contract states the
/// extension that std documents: what follows the last `.` of the file
/// name, and none when there is no file name, no `.` in it, or its only
/// `.` is its first character. Other paths are left unstated.
#[verifier::external_body]
pub(crate) fn extension_of(path: &str) -> (res: Option<String>)
    ensures
        is_portable_path(path@) ==> match res {
            Some(e) => portable_extension(path@) == Some(e@),
            None => portable_extension(path@) is None,
        },
{
    std::path::Path::new(path).extension().and_then(|e| e.to_str()).map(|e| e.to_string())
}

} // verus!
