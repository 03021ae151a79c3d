//! Path arithmetic on textual paths, delegated to `std::path`.

use std::path::Path;
use vstd::prelude::*;

verus! {

/// What `Path::join` gives for `base` joined with `part`, as text, on Unix:
/// an absolute `part` (one that starts with the root `/`) replaces `base`;
/// otherwise `part` is appended, after a `/` where `base` is not empty and
/// does not already end with one.
pub open spec fn path_join(base: Seq<char>, part: Seq<char>) -> Seq<char> {
    if part.len() > 0 && part[0] == '/' {
        part
    } else if base.len() > 0 && base.last() != '/' {
        base + seq!['/'] + part
    } else {
        base + part
    }
}

/// Joining keeps what it joins: an absolute `part` is the result; any other
/// follows `base`, with exactly one `/` between them where `base` is not
/// empty and does not end with one, and nothing between them otherwise.
pub proof fn law_join_keeps_both(base: Seq<char>, part: Seq<char>)
    ensures
        part.len() > 0 && part[0] == '/' ==> path_join(base, part) == part,
        !(part.len() > 0 && part[0] == '/') ==> {
            let joined = path_join(base, part);
            let gap: int = if base.len() > 0 && base.last() != '/' { 1 } else { 0 };
            &&& joined.len() == base.len() + gap + part.len()
            &&& joined.subrange(0, base.len() as int) == base
            &&& joined.subrange(base.len() + gap, joined.len() as int) == part
            &&& gap == 1 ==> joined[base.len() as int] == '/'
        },
{
    let joined = path_join(base, part);
    if !(part.len() > 0 && part[0] == '/') {
        if base.len() > 0 && base.last() != '/' {
            assert(joined.subrange(0, base.len() as int) =~= base);
            assert(joined.subrange(base.len() as int + 1, joined.len() as int) =~= part);
        } else {
            assert(joined.subrange(0, base.len() as int) =~= base);
            assert(joined.subrange(base.len() as int, joined.len() as int) =~= part);
        }
    }
}

/// What `Path::parent` gives for `path`, as text.
pub uninterp spec fn path_parent(path: Seq<char>) -> Option<Seq<char>>;

/// What `Path::file_name` gives for `path`, as text.
pub uninterp spec fn path_file_name(path: Seq<char>) -> Option<Seq<char>>;

/// What `Path::file_stem` gives for `path`, as text.
pub uninterp spec fn path_file_stem(path: Seq<char>) -> Option<Seq<char>>;

/// Calls `std::path::Path::join`, which adjoins `part` to `base` as
/// `PathBuf::push` does: on Unix an absolute `part` replaces `base`, any
/// other is added after the separator `/` (`path_join`). Both arguments are
/// UTF-8, so the joined path is too and the text conversion loses nothing.
#[verifier::external_body]
pub fn join(base: &str, part: &str) -> (joined: String)
    ensures
        joined@ == path_join(base@, part@),
{
    Path::new(base).join(part).to_string_lossy().into_owned()
}

/// Calls `std::path::Path::parent`. The contract claims only that the result
/// is a function of the argument (`path_parent`).
#[verifier::external_body]
pub fn parent(path: &str) -> (dir: Option<String>)
    ensures
        dir.is_some() == path_parent(path@).is_some(),
        dir matches Some(d) ==> d@ == path_parent(path@)->0,
{
    match Path::new(path).parent() {
        Some(p) => Some(p.to_string_lossy().into_owned()),
        None => None,
    }
}

/// Calls `std::path::Path::file_name`. The contract claims only that the
/// result is a function of the argument (`path_file_name`).
#[verifier::external_body]
pub fn file_name(path: &str) -> (name: Option<String>)
    ensures
        name.is_some() == path_file_name(path@).is_some(),
        name matches Some(n) ==> n@ == path_file_name(path@)->0,
{
    match Path::new(path).file_name() {
        Some(n) => Some(n.to_string_lossy().into_owned()),
        None => None,
    }
}

/// Calls `std::path::Path::file_stem`. The contract claims only that the
/// result is a function of the argument (`path_file_stem`).
#[verifier::external_body]
pub fn file_stem(path: &str) -> (stem: Option<String>)
    ensures
        stem.is_some() == path_file_stem(path@).is_some(),
        stem matches Some(s) ==> s@ == path_file_stem(path@)->0,
{
    match Path::new(path).file_stem() {
        Some(s) => Some(s.to_string_lossy().into_owned()),
        None => None,
    }
}

} // verus!
