//! Path rules of the project sandbox, the asset store and the module
//! loader. Paths are read by `std::path::Path` under the target's own rules
//! (on Windows `\` separates components too, and drive and UNC prefixes
//! make roots); the contracts speak of what `std::path` answers.
use vstd::prelude::*;
use crate::text::{
    chars_of, find_from_exec, lemma_find_from_bounds, lines, lines_from, matches_at_exec, slice_chars,
    starts_with, text_eq, trim_start, trim_start_exec,
};

verus! {

/// A component of a path, by kind, as `std::path::Path::components`
/// yields it: a Windows prefix (`C:`, `\\server\share`), the root, `.`,
/// `..`, or a plain name.
#[derive(Debug, Clone, Copy, PartialEq, Eq, Structural)]
pub enum ComponentKind {
    Prefix,
    RootDir,
    CurDir,
    ParentDir,
    Normal,
}

/// The kinds of the components `std::path::Path::components` yields for
/// the path, in order.
pub uninterp spec fn path_component_kinds(path: Seq<char>) -> Seq<ComponentKind>;

/// Calls `std::path::Path::components` and tells each component's kind;
/// the contract names the kinds. Which characters separate components and
/// what makes a root or a prefix are the target's path rules (on Windows
/// `\` separates too, and `C:` or `\\server\share` are prefixes).
#[verifier::external_body]
pub(crate) fn component_kinds(path: &str) -> (r: Vec<ComponentKind>)
    ensures
        r@ == path_component_kinds(path@),
{
    std::path::Path::new(path).components().map(|component| match component {
        std::path::Component::Prefix(_) => ComponentKind::Prefix,
        std::path::Component::RootDir => ComponentKind::RootDir,
        std::path::Component::CurDir => ComponentKind::CurDir,
        std::path::Component::ParentDir => ComponentKind::ParentDir,
        std::path::Component::Normal(_) => ComponentKind::Normal,
    }).collect()
}

/// Whether `std::path::Path::is_absolute` holds of the path.
pub uninterp spec fn path_is_absolute(path: Seq<char>) -> bool;

/// Calls `std::path::Path::is_absolute` (on Unix: starts at the root; on
/// Windows: has a prefix and a root); the contract names the answer.
#[verifier::external_body]
pub(crate) fn is_absolute_path(path: &str) -> (r: bool)
    ensures
        r == path_is_absolute(path@),
{
    std::path::Path::new(path).is_absolute()
}

/// The text of `std::path::Path::extension` of the path, if it has one.
pub uninterp spec fn path_extension(path: Seq<char>) -> Option<Seq<char>>;

/// Calls `std::path::Path::extension` and reads the extension back as text
/// (`to_string_lossy`, lossless on a path made of a string); the contract
/// names it.
#[verifier::external_body]
pub(crate) fn extension_text(path: &str) -> (r: Option<String>)
    ensures
        match path_extension(path@) {
            Some(e) => r matches Some(t) && t@ == e,
            None => r is None,
        },
{
    std::path::Path::new(path).extension().map(|extension| extension.to_string_lossy().into_owned())
}

/// Some component of the path is `..`.
pub open spec fn has_parent_component(p: Seq<char>) -> bool {
    exists|k: int| 0 <= k < path_component_kinds(p).len() && #[trigger] path_component_kinds(p)[k]
        == ComponentKind::ParentDir
}

/// Every component of the path is a plain name.
pub open spec fn all_plain_names(p: Seq<char>) -> bool {
    forall|k: int| 0 <= k < path_component_kinds(p).len() ==> #[trigger] path_component_kinds(p)[k]
        == ComponentKind::Normal
}

/// Why a path was refused.
#[derive(Debug, Clone, Copy, PartialEq, Eq, Structural)]
pub enum PathRejection {
    /// The path is the empty string.
    Empty,
    /// The path is absolute.
    Absolute,
    /// The path climbs out through `..` (in the sandbox: it has any
    /// component that is not a plain name).
    Traversal,
}

/// Outcome of the asset path check, under the target's path rules: the
/// order of its tests decides which refusal an input that breaks several
/// rules gets.
pub open spec fn asset_path_verdict(p: Seq<char>) -> Result<Seq<char>, PathRejection> {
    if p.len() == 0 {
        Err(PathRejection::Empty)
    } else if path_is_absolute(p) {
        Err(PathRejection::Absolute)
    } else if has_parent_component(p) {
        Err(PathRejection::Traversal)
    } else {
        Ok(p)
    }
}

/// Outcome of the sandbox path check, under the target's path rules: every
/// component must be a plain name.
pub open spec fn sandbox_path_verdict(p: Seq<char>) -> Result<Seq<char>, PathRejection> {
    if p.len() == 0 {
        Err(PathRejection::Empty)
    } else if path_is_absolute(p) {
        Err(PathRejection::Absolute)
    } else if !all_plain_names(p) {
        Err(PathRejection::Traversal)
    } else {
        Ok(p)
    }
}

/// Checks a project-relative asset path: it must be non-empty, not
/// absolute and free of `..` components, as `std::path` reads it. The
/// accepted path is returned unchanged.
pub fn validate_relative_path(path: &str) -> (r: Result<String, PathRejection>)
    ensures
        r matches Ok(v) ==> asset_path_verdict(path@) == Ok::<Seq<char>, PathRejection>(v@),
        r matches Err(e) ==> asset_path_verdict(path@) == Err::<Seq<char>, PathRejection>(e),
{
    if path.is_empty() {
        return Err(PathRejection::Empty);
    }
    if is_absolute_path(path) {
        return Err(PathRejection::Absolute);
    }
    let kinds = component_kinds(path);
    let mut k: usize = 0;
    while k < kinds.len()
        invariant
            path@.len() > 0,
            !path_is_absolute(path@),
            kinds@ == path_component_kinds(path@),
            k <= kinds@.len(),
            forall|j: int| 0 <= j < k ==> kinds@[j] != ComponentKind::ParentDir,
        decreases kinds.len() - k,
    {
        if kinds[k] == ComponentKind::ParentDir {
            assert(path_component_kinds(path@)[k as int] == ComponentKind::ParentDir);
            return Err(PathRejection::Traversal);
        }
        k = k + 1;
    }
    assert(!has_parent_component(path@)) by {
        if has_parent_component(path@) {
            let j = choose|j: int| 0 <= j < path_component_kinds(path@).len() && #[trigger] path_component_kinds(path@)[j]
                == ComponentKind::ParentDir;
            assert(kinds@[j] != ComponentKind::ParentDir);
        }
    }
    Ok(path.to_string())
}

/// Checks a path inside the origin-private file sandbox: it must be
/// non-empty and not absolute, and every component must be a plain name
/// (no `..`, no `.`, no root or prefix), as `std::path` reads it. The
/// accepted path is returned unchanged.
pub fn validate_sandbox_path(path: &str) -> (r: Result<String, PathRejection>)
    ensures
        r matches Ok(v) ==> sandbox_path_verdict(path@) == Ok::<Seq<char>, PathRejection>(v@),
        r matches Err(e) ==> sandbox_path_verdict(path@) == Err::<Seq<char>, PathRejection>(e),
{
    if path.is_empty() {
        return Err(PathRejection::Empty);
    }
    if is_absolute_path(path) {
        return Err(PathRejection::Absolute);
    }
    let kinds = component_kinds(path);
    let mut k: usize = 0;
    while k < kinds.len()
        invariant
            path@.len() > 0,
            !path_is_absolute(path@),
            kinds@ == path_component_kinds(path@),
            k <= kinds@.len(),
            forall|j: int| 0 <= j < k ==> kinds@[j] == ComponentKind::Normal,
        decreases kinds.len() - k,
    {
        if kinds[k] != ComponentKind::Normal {
            assert(path_component_kinds(path@)[k as int] != ComponentKind::Normal);
            return Err(PathRejection::Traversal);
        }
        k = k + 1;
    }
    assert(all_plain_names(path@)) by {
        assert forall|j: int| 0 <= j < path_component_kinds(path@).len() implies #[trigger] path_component_kinds(path@)[j]
            == ComponentKind::Normal by {
            assert(kinds@[j] == ComponentKind::Normal);
        }
    }
    Ok(path.to_string())
}

/// Every path the sandbox accepts is also an acceptable asset path: the
/// sandbox rule is the stricter one.
pub proof fn lemma_sandbox_paths_are_asset_paths(p: Seq<char>)
    requires
        sandbox_path_verdict(p) is Ok,
    ensures
        asset_path_verdict(p) == sandbox_path_verdict(p),
{
    assert(!has_parent_component(p)) by {
        if has_parent_component(p) {
            let k = choose|k: int| 0 <= k < path_component_kinds(p).len() && #[trigger] path_component_kinds(p)[k]
                == ComponentKind::ParentDir;
            assert(path_component_kinds(p)[k] == ComponentKind::Normal);
        }
    }
}

/// A line that, after leading white space, opens an ES module `import` or
/// `export` statement.
pub open spec fn is_module_line(line: Seq<char>) -> bool {
    let t = trim_start(line);
    ||| starts_with(t, seq!['i', 'm', 'p', 'o', 'r', 't', ' '])
    ||| starts_with(t, seq!['i', 'm', 'p', 'o', 'r', 't', '{'])
    ||| starts_with(t, seq!['e', 'x', 'p', 'o', 'r', 't', ' '])
    ||| starts_with(t, seq!['e', 'x', 'p', 'o', 'r', 't', '{'])
}

/// The entry point must be evaluated as an ES module.
pub open spec fn module_source(path: Seq<char>, source: Seq<char>) -> bool {
    path_extension(path) == Some("mjs"@) || exists|k: int|
        0 <= k < lines(source).len() && #[trigger] is_module_line(lines(source)[k])
}

/// The line opens an `import` or `export` statement.
pub fn is_module_line_exec(line: &Vec<char>) -> (r: bool)
    ensures
        r == is_module_line(line@),
{
    let t = trim_start_exec(line);
    let a = vec!['i', 'm', 'p', 'o', 'r', 't', ' '];
    assert(a@ =~= seq!['i', 'm', 'p', 'o', 'r', 't', ' ']);
    let b = vec!['i', 'm', 'p', 'o', 'r', 't', '{'];
    assert(b@ =~= seq!['i', 'm', 'p', 'o', 'r', 't', '{']);
    let c = vec!['e', 'x', 'p', 'o', 'r', 't', ' '];
    assert(c@ =~= seq!['e', 'x', 'p', 'o', 'r', 't', ' ']);
    let d = vec!['e', 'x', 'p', 'o', 'r', 't', '{'];
    assert(d@ =~= seq!['e', 'x', 'p', 'o', 'r', 't', '{']);
    matches_at_exec(&t, &a, 0) || matches_at_exec(&t, &b, 0) || matches_at_exec(&t, &c, 0)
        || matches_at_exec(&t, &d, 0)
}

/// Decides whether an entry script is an ES module: its file extension is
/// `mjs`, or one of its lines starts (after indentation) with an `import` or
/// `export` statement.
pub fn is_module_source(path: &str, source: &str) -> (r: bool)
    ensures
        r == module_source(path@, source@),
{
    if let Some(extension) = extension_text(path) {
        proof {
            reveal_strlit("mjs");
        }
        if text_eq(extension.as_str(), "mjs") {
            return true;
        }
    }
    let s = chars_of(source);
    let newline = vec!['\n'];
    assert(newline@ =~= seq!['\n']);
    let ghost mut done: Seq<Seq<char>> = Seq::empty();
    let mut cursor: usize = 0;
    while cursor < s.len()
        invariant
            s@ == source@,
            newline@ == seq!['\n'],
            done + lines_from(s@, cursor as int) == lines(s@),
            forall|k: int| 0 <= k < done.len() ==> !is_module_line(#[trigger] done[k]),
        decreases s.len() - cursor,
    {
        proof {
            lemma_find_from_bounds(s@, seq!['\n'], cursor as int);
        }
        let (line, next) = match find_from_exec(&s, &newline, cursor) {
            None => (slice_chars(&s, cursor, s.len()), s.len()),
            Some(i) => {
                let raw = slice_chars(&s, cursor, i);
                let line = if raw.len() > 0 && raw[raw.len() - 1] == '\r' {
                    slice_chars(&raw, 0, raw.len() - 1)
                } else {
                    raw
                };
                (line, i + 1)
            },
        };
        assert(lines_from(s@, cursor as int) =~= seq![line@] + lines_from(s@, next as int));
        if is_module_line_exec(&line) {
            assert(lines(s@)[done.len() as int] == line@);
            return true;
        }
        proof {
            done = done.push(line@);
        }
        cursor = next;
    }
    assert(lines_from(s@, cursor as int) =~= Seq::<Seq<char>>::empty());
    assert(done =~= lines(s@));
    false
}

/// Whether `std::path::Path::starts_with` finds `base` as a prefix of
/// whole components of `path`.
pub uninterp spec fn path_starts_with(path: Seq<char>, base: Seq<char>) -> bool;

/// Calls `std::path::Path::starts_with(path, base)`, which compares whole
/// path components under the target's path rules; the contract names the
/// answer.
#[verifier::external_body]
pub(crate) fn starts_with_components(path: &str, base: &str) -> (r: bool)
    ensures
        r == path_starts_with(path@, base@),
{
    std::path::Path::new(path).starts_with(base)
}

/// The text of `std::path::Path::join(base, relative)`.
pub uninterp spec fn path_joined(base: Seq<char>, relative: Seq<char>) -> Seq<char>;

/// Calls `std::path::Path::join(base, relative)` and reads the joined path
/// back as text (`to_string_lossy`, lossless on paths made of two strings);
/// the contract names the text.
#[verifier::external_body]
pub(crate) fn join_components(base: &str, relative: &str) -> (r: String)
    ensures
        r@ == path_joined(base@, relative@),
{
    std::path::Path::new(base).join(relative).to_string_lossy().into_owned()
}

/// The parent of a path as `std::path::Path::parent` gives it.
pub uninterp spec fn path_parent(path: Seq<char>) -> Option<Seq<char>>;

/// Calls `std::path::Path::parent` and reads the parent back as text; the
/// contract names it, and states that the parent, the path without its final
/// component, is shorter than the path.
#[verifier::external_body]
pub(crate) fn parent_of(path: &str) -> (r: Option<String>)
    ensures
        r matches Some(p) ==> p@ == path_parent(path@)->0 && p@.len() < path@.len(),
        r is None <==> path_parent(path@) is None,
{
    std::path::Path::new(path).parent().map(|parent| parent.to_string_lossy().into_owned())
}

/// A probe of the file system (a host callback, such as "is this path a
/// file") answered `answer` when asked about the path `p`.
pub open spec fn probe_answered<F: Fn(&str) -> bool>(probe: F, p: Seq<char>, answer: bool) -> bool {
    exists|s: &str| s@ == p && #[trigger] probe.ensures((s,), answer)
}

/// The probe answered "no" for each of the first `k` paths.
pub open spec fn probe_refused_before<F: Fn(&str) -> bool>(probe: F, paths: Seq<Seq<char>>, k: int) -> bool {
    forall|j: int| 0 <= j < k ==> #[trigger] probe_answered(probe, paths[j], false)
}

/// A reader of the file system (a host callback) answered `answer` when
/// asked for the text of the path `p`, or, for a path that makes the host
/// answer with another path, that path.
pub open spec fn read_answered<F: Fn(&str) -> Option<String>>(read: F, p: Seq<char>, answer: Option<Seq<char>>) -> bool {
    exists|s: &str, o: Option<String>| s@ == p && #[trigger] read.ensures((s,), o) && answer == opt_text(o)
}

/// An optional text as plain characters.
pub open spec fn opt_text(o: Option<String>) -> Option<Seq<char>> {
    match o {
        Some(t) => Some(t@),
        None => None,
    }
}

} // verus!
