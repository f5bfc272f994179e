//! Resolution of ES module imports inside a project: relative imports
//! against the importing module, absolute paths as written, and bare
//! specifiers as packages under `node_modules` through their
//! `package.json` (`exports` with `import`/`default` conditions, then
//! `module`, `main`, `index.js`). Reading files, checking which exist and
//! making paths canonical is the host's.
use vstd::prelude::*;
use serde_json::Value;
use crate::json::{
    field, json_depth, json_field, json_is_object, json_shape, json_str, json_text_value, parse_json_text, JsonShape,
};
use crate::paths::{
    extension_text, is_absolute_path, join_components, parent_of, path_extension, path_is_absolute, path_joined,
    path_parent, opt_text, path_starts_with, probe_answered, probe_refused_before, read_answered, starts_with_components,
};
use crate::text::{chars_of, find_from, find_from_exec, lemma_find_char, slice_chars, string_from_chars};

verus! {

/// Why an import could not be resolved.
#[derive(Debug, Clone, Copy, PartialEq, Eq, Structural)]
pub enum ModuleError {
    /// A relative import from a module whose path is unknown.
    RelativeWithoutReferrer,
    /// A scoped package specifier (`@scope`) without a package name.
    InvalidPackageSpecifier,
    /// The package has no readable `package.json`.
    NoPackageJson,
    /// The package's `package.json` is not JSON.
    InvalidPackageJson,
    /// None of the candidate files of the module exists.
    NotFound,
    /// The module lies outside the project root.
    OutsideRoot,
    /// The host could not make the module's path canonical.
    NoCanonicalPath,
}

/// Where an import leads before the file system is asked.
#[derive(Debug)]
pub enum ModuleTarget {
    /// A module path (possibly without its extension).
    Path(String),
    /// A package under `node_modules`, and the path within it (empty, or
    /// starting with `/`).
    Package { package: String, subpath: String },
}

/// The text of `std::path::Path::with_extension(path, extension)`.
pub uninterp spec fn path_with_extension(path: Seq<char>, extension: Seq<char>) -> Seq<char>;

/// Calls `std::path::Path::with_extension` and reads the path back as text
/// (`to_string_lossy`, lossless on a path made of strings); the contract
/// names the text. An extension holding a path separator (`/`, or `\` on
/// Windows) is left out: `PathBuf::set_extension` panics on it.
#[verifier::external_body]
fn with_extension(path: &str, extension: &str) -> (r: String)
    requires
        !extension@.contains('/'),
        !extension@.contains('\\'),
    ensures
        r@ == path_with_extension(path@, extension@),
{
    std::path::Path::new(path).with_extension(extension).to_string_lossy().into_owned()
}

/// The end of the first `/`-separated segment of `s` from `i`.
pub open spec fn segment_end_from(s: Seq<char>, i: int) -> int {
    match find_from(s, seq!['/'], i) {
        Some(j) => j,
        None => s.len() as int,
    }
}

/// The package a bare specifier names: its first segment, or its first two
/// for a scoped (`@scope/name`) package.
pub open spec fn package_of(spec: Seq<char>) -> Option<Seq<char>> {
    let first = segment_end_from(spec, 0);
    if spec.len() > 0 && spec[0] == '@' {
        if first == spec.len() {
            None
        } else {
            Some(spec.subrange(0, segment_end_from(spec, first + 1)))
        }
    } else {
        Some(spec.subrange(0, first))
    }
}

/// Splits a bare specifier into its package and the path after it;
/// refused for a scope without a package name.
pub fn split_package(specifier: &str) -> (r: Result<(String, String), ModuleError>)
    ensures
        match package_of(specifier@) {
            Some(p) => r matches Ok((package, subpath)) && package@ == p && subpath@
                == specifier@.subrange(p.len() as int, specifier@.len() as int),
            None => r == Err::<(String, String), ModuleError>(ModuleError::InvalidPackageSpecifier),
        },
{
    let s = chars_of(specifier);
    let slash = vec!['/'];
    assert(slash@ =~= seq!['/']);
    proof {
        lemma_find_char(s@, '/', 0);
    }
    let first = match find_from_exec(&s, &slash, 0) {
        Some(j) => j,
        None => s.len(),
    };
    let end = if s.len() > 0 && s[0] == '@' {
        if first == s.len() {
            return Err(ModuleError::InvalidPackageSpecifier);
        }
        proof {
            lemma_find_char(s@, '/', first + 1);
        }
        match find_from_exec(&s, &slash, first + 1) {
            Some(j) => j,
            None => s.len(),
        }
    } else {
        first
    };
    let package = slice_chars(&s, 0, end);
    let subpath = slice_chars(&s, end, s.len());
    Ok((string_from_chars(&package), string_from_chars(&subpath)))
}

/// Where an import of `specifier` from the module at `referrer` leads: a
/// specifier whose first component is `.` (`Path::starts_with(".")`) is
/// joined to the importing module's directory (the project root for a
/// module without one), an absolute one is taken as written, any other
/// names a package.
pub open spec fn target_of(root: Seq<char>, referrer: Option<Seq<char>>, spec: Seq<char>) -> Result<
    ModuleTargetView,
    ModuleError,
> {
    if path_starts_with(spec, "."@) {
        match referrer {
            None => Err(ModuleError::RelativeWithoutReferrer),
            Some(r) => Ok(
                ModuleTargetView::Path(
                    path_joined(
                        match path_parent(r) {
                            Some(d) => d,
                            None => root,
                        },
                        spec,
                    ),
                ),
            ),
        }
    } else if path_is_absolute(spec) {
        Ok(ModuleTargetView::Path(spec))
    } else {
        match package_of(spec) {
            None => Err(ModuleError::InvalidPackageSpecifier),
            Some(p) => Ok(
                ModuleTargetView::Package {
                    package: p,
                    subpath: spec.subrange(p.len() as int, spec.len() as int),
                },
            ),
        }
    }
}

/// The path of the importing module, if known, as plain characters.
pub open spec fn referrer_text(referrer: Option<&str>) -> Option<Seq<char>> {
    match referrer {
        Some(p) => Some(p@),
        None => None,
    }
}

/// `ModuleTarget` as plain values.
pub enum ModuleTargetView {
    Path(Seq<char>),
    Package { package: Seq<char>, subpath: Seq<char> },
}

impl View for ModuleTarget {
    type V = ModuleTargetView;

    open spec fn view(&self) -> ModuleTargetView {
        match self {
            ModuleTarget::Path(p) => ModuleTargetView::Path(p@),
            ModuleTarget::Package { package, subpath } => ModuleTargetView::Package {
                package: package@,
                subpath: subpath@,
            },
        }
    }
}

/// The target of `exports` (or of one of its conditions): a string, or
/// the target of its `import` condition, else of its `default` condition.
pub open spec fn export_target_of(value: Value) -> Option<Seq<char>>
    decreases json_depth(value),
{
    match json_shape(value) {
        JsonShape::Text(t) => Some(t),
        JsonShape::Object(_) => {
            let from_import = match field(value, "import"@) {
                Some(i) => if json_depth(i) < json_depth(value) {
                    export_target_of(i)
                } else {
                    None
                },
                None => None,
            };
            match from_import {
                Some(t) => Some(t),
                None => match field(value, "default"@) {
                    Some(d) => if json_depth(d) < json_depth(value) {
                        export_target_of(d)
                    } else {
                        None
                    },
                    None => None,
                },
            }
        },
        _ => None,
    }
}

/// In an `exports` object, the `import` condition wins: when its entry
/// leads to a target (a string target in particular), that is the export
/// target, whatever `default` holds; `default` is taken only when there is
/// no `import` entry. A string is its own target.
pub proof fn law_import_condition_wins(value: Value, import: Value, t: Seq<char>)
    requires
        json_shape(value) is Object,
        field(value, "import"@) == Some(import),
        json_depth(import) < json_depth(value),
        export_target_of(import) == Some(t) || json_shape(import) == JsonShape::Text(t),
    ensures
        export_target_of(value) == Some(t),
{
}

/// Without an `import` entry, an `exports` object's target is that of its
/// `default` entry.
pub proof fn law_default_condition_without_import(value: Value, default: Value)
    requires
        json_shape(value) is Object,
        field(value, "import"@) is None,
        field(value, "default"@) == Some(default),
        json_depth(default) < json_depth(value),
    ensures
        export_target_of(value) == export_target_of(default),
{
}

/// The module a package's `exports` gives for `condition`: the condition's
/// target when `exports` is an object that has it, else the target of
/// `exports` itself.
pub open spec fn package_entry_of(package_json: Value, condition: Seq<char>) -> Option<Seq<char>> {
    match field(package_json, "exports"@) {
        None => None,
        Some(exports) => match field(exports, condition) {
            Some(c) => if json_shape(exports) is Object {
                export_target_of(c)
            } else {
                export_target_of(exports)
            },
            None => export_target_of(exports),
        },
    }
}

/// The target of an `exports` entry.
pub fn export_target(value: &Value) -> (r: Option<String>)
    ensures
        match export_target_of(*value) {
            Some(t) => r matches Some(s) && s@ == t,
            None => r is None,
        },
    decreases json_depth(*value),
{
    if let Some(target) = json_str(value) {
        return Some(target.to_string());
    }
    if !json_is_object(value) {
        return None;
    }
    let from_import = match json_field(value, "import") {
        Some(i) => export_target(i),
        None => None,
    };
    match from_import {
        Some(t) => Some(t),
        None => match json_field(value, "default") {
            Some(d) => export_target(d),
            None => None,
        },
    }
}

/// The module a package's `exports` gives for `condition`.
pub fn package_entry(package_json: &Value, condition: &str) -> (r: Option<String>)
    ensures
        match package_entry_of(*package_json, condition@) {
            Some(t) => r matches Some(s) && s@ == t,
            None => r is None,
        },
{
    let exports = match json_field(package_json, "exports") {
        Some(e) => e,
        None => return None,
    };
    match json_field(exports, condition) {
        Some(c) => if json_is_object(exports) {
            export_target(c)
        } else {
            export_target(exports)
        },
        None => export_target(exports),
    }
}

/// The string field `key` of the package description.
pub open spec fn text_field(v: Value, key: Seq<char>) -> Option<Seq<char>> {
    match field(v, key) {
        Some(f) => match json_shape(f) {
            JsonShape::Text(t) => Some(t),
            _ => None,
        },
        None => None,
    }
}

/// `s` without its leading `/` characters.
pub open spec fn trim_slashes(s: Seq<char>) -> Seq<char>
    decreases s.len(),
{
    if s.len() > 0 && s[0] == '/' {
        trim_slashes(s.drop_first())
    } else {
        s
    }
}

/// The module file of a package, relative to the package root: for the
/// package itself, the `.` export, else `module`, else `main`, else
/// `index.js`; for a path within it, the export for `./path`, else the
/// path. `package_json` is the parsed `package.json`, if it could be read.
pub open spec fn package_entry_path_of(package_json: Option<Value>, subpath: Seq<char>) -> Result<
    Seq<char>,
    ModuleError,
> {
    if subpath.len() == 0 {
        match package_json {
            None => Err(ModuleError::NoPackageJson),
            Some(json) => Ok(
                match package_entry_of(json, "."@) {
                    Some(t) => t,
                    None => match text_field(json, "module"@) {
                        Some(m) => m,
                        None => match text_field(json, "main"@) {
                            Some(m) => m,
                            None => "index.js"@,
                        },
                    },
                },
            ),
        }
    } else {
        let path = trim_slashes(subpath);
        Ok(
            match package_json {
                Some(json) => match package_entry_of(json, "./"@ + path) {
                    Some(t) => t,
                    None => path,
                },
                None => path,
            },
        )
    }
}

/// The string field `key` of `v`.
fn field_text(v: &Value, key: &str) -> (r: Option<String>)
    ensures
        match text_field(*v, key@) {
            Some(t) => r matches Some(s) && s@ == t,
            None => r is None,
        },
{
    match json_field(v, key) {
        Some(f) => match json_str(f) {
            Some(t) => Some(t.to_string()),
            None => None,
        },
        None => None,
    }
}

/// Drops leading `/` characters.
fn trim_slashes_exec(s: &str) -> (r: Vec<char>)
    ensures
        r@ == trim_slashes(s@),
{
    let c = chars_of(s);
    let mut k: usize = 0;
    assert(c@.subrange(0, c@.len() as int) =~= c@);
    while k < c.len() && c[k] == '/'
        invariant
            k <= c@.len(),
            trim_slashes(c@) == trim_slashes(c@.subrange(k as int, c@.len() as int)),
        decreases c.len() - k,
    {
        proof {
            assert(c@.subrange(k as int, c@.len() as int).drop_first() =~= c@.subrange(
                k + 1,
                c@.len() as int,
            ));
        }
        k = k + 1;
    }
    slice_chars(&c, k, c.len())
}

/// The module file of a package relative to its directory, from the text
/// of its `package.json` (`None` when it could not be read): for the
/// package itself the file must be readable JSON; for a path within it an
/// unreadable or malformed file counts as absent.
pub open spec fn package_module_of(source: Option<Seq<char>>, subpath: Seq<char>) -> Result<Seq<char>, ModuleError> {
    if subpath.len() == 0 {
        match source {
            None => Err(ModuleError::NoPackageJson),
            Some(t) => match json_text_value(t) {
                None => Err(ModuleError::InvalidPackageJson),
                Some(json) => package_entry_path_of(Some(json), subpath),
            },
        }
    } else {
        package_entry_path_of(
            match source {
                Some(t) => json_text_value(t),
                None => None,
            },
            subpath,
        )
    }
}

/// The module file of a package relative to its root (see
/// `package_entry_path_of`).
pub fn package_entry_path(package_json: Option<&Value>, subpath: &str) -> (r: Result<String, ModuleError>)
    ensures
        match package_entry_path_of(
            match package_json {
                Some(j) => Some(*j),
                None => None,
            },
            subpath@,
        ) {
            Ok(p) => r matches Ok(s) && s@ == p,
            Err(e) => r == Err::<String, ModuleError>(e),
        },
{
    if subpath.is_empty() {
        let json = match package_json {
            Some(j) => j,
            None => return Err(ModuleError::NoPackageJson),
        };
        let dot = ".";
        let entry = match package_entry(json, dot) {
            Some(t) => t,
            None => match field_text(json, "module") {
                Some(m) => m,
                None => match field_text(json, "main") {
                    Some(m) => m,
                    None => "index.js".to_string(),
                },
            },
        };
        Ok(entry)
    } else {
        let path = trim_slashes_exec(subpath);
        match package_json {
            Some(json) => {
                let mut condition = vec!['.', '/'];
                let mut k: usize = 0;
                while k < path.len()
                    invariant
                        k <= path@.len(),
                        condition@ == seq!['.', '/'] + path@.take(k as int),
                    decreases path.len() - k,
                {
                    condition.push(path[k]);
                    k = k + 1;
                    proof {
                        assert(condition@ =~= seq!['.', '/'] + path@.take(k as int));
                    }
                }
                proof {
                    reveal_strlit("./");
                    assert(path@.take(path@.len() as int) =~= path@);
                    assert(condition@ =~= "./"@ + path@);
                }
                let condition_text = string_from_chars(&condition);
                match package_entry(json, condition_text.as_str()) {
                    Some(t) => Ok(t),
                    None => Ok(string_from_chars(&path)),
                }
            },
            None => Ok(string_from_chars(&path)),
        }
    }
}

/// The files a module path may name, in the order they are tried: the
/// path itself when it has an extension, otherwise the path with `.js`,
/// with `.mjs`, and its `index.js`.
pub open spec fn module_candidates_of(path: Seq<char>) -> Seq<Seq<char>> {
    if path_extension(path) is Some {
        seq![path]
    } else {
        seq![
            path_with_extension(path, "js"@),
            path_with_extension(path, "mjs"@),
            path_joined(path, "index.js"@),
        ]
    }
}

/// The files a module path may name (see `module_candidates_of`); the
/// module is the first that exists.
pub fn module_candidates(path: &str) -> (r: Vec<String>)
    ensures
        r@.len() == module_candidates_of(path@).len(),
        forall|k: int| 0 <= k < r@.len() ==> #[trigger] r@[k]@ == module_candidates_of(path@)[k],
{
    let named = extension_text(path).is_some();
    let mut out: Vec<String> = Vec::new();
    if named {
        out.push(path.to_string());
    } else {
        proof {
            reveal_strlit("js");
            reveal_strlit("mjs");
        }
        out.push(with_extension(path, "js"));
        out.push(with_extension(path, "mjs"));
        out.push(join_components(path, "index.js"));
    }
    out
}

/// A module path, or why there is none, as plain values.
pub open spec fn text_result(r: Result<String, ModuleError>) -> Result<Seq<char>, ModuleError> {
    match r {
        Ok(t) => Ok(t@),
        Err(e) => Err(e),
    }
}

/// `found` is what the search of `module_candidates_of(path)` gives when
/// `is_file` answers as it did: the first candidate it calls a file, each
/// earlier one refused, or `NotFound` when it refused them all.
pub open spec fn existing_module_answer<F: Fn(&str) -> bool>(
    is_file: F,
    path: Seq<char>,
    found: Result<Seq<char>, ModuleError>,
) -> bool {
    let cands = module_candidates_of(path);
    match found {
        Ok(m) => exists|k: int|
            0 <= k < cands.len() && cands[k] == m && probe_answered(is_file, m, true)
                && #[trigger] probe_refused_before(is_file, cands, k),
        Err(e) => e == ModuleError::NotFound && probe_refused_before(is_file, cands, cands.len() as int),
    }
}

/// The first of `module_candidates_of(path)` that `is_file` says is a
/// file; refused with `NotFound` when none is. Each candidate up to the one
/// chosen is asked about once, in order.
pub fn resolve_existing_module_path<F: Fn(&str) -> bool>(path: &str, is_file: &F) -> (r: Result<
    String,
    ModuleError,
>)
    requires
        forall|s: &str| #[trigger] is_file.requires((s,)),
    ensures
        existing_module_answer(*is_file, path@, text_result(r)),
{
    let candidates = module_candidates(path);
    let ghost cands = module_candidates_of(path@);
    let mut i: usize = 0;
    while i < candidates.len()
        invariant
            forall|s: &str| #[trigger] is_file.requires((s,)),
            cands == module_candidates_of(path@),
            candidates@.len() == cands.len(),
            forall|k: int| 0 <= k < candidates@.len() ==> #[trigger] candidates@[k]@ == cands[k],
            0 <= i <= candidates@.len(),
            probe_refused_before(*is_file, cands, i as int),
        decreases candidates@.len() - i,
    {
        let candidate = candidates[i].as_str();
        let exists = is_file(candidate);
        proof {
            assert(candidates@[i as int]@ == cands[i as int]);
            assert(probe_answered(*is_file, cands[i as int], exists));
        }
        if exists {
            let found = candidates[i].clone();
            proof {
                assert(found@ == cands[i as int]);
                assert(probe_answered(*is_file, found@, true));
                assert(probe_refused_before(*is_file, cands, i as int));
                assert(existing_module_answer(*is_file, path@, Ok(found@)));
            }
            return Ok(found);
        }
        i = i + 1;
    }
    Err(ModuleError::NotFound)
}

/// Resolves imports inside one project root.
pub struct ProjectModuleLoader {
    root: String,
}

impl ProjectModuleLoader {
    /// The project root.
    pub closed spec fn root(&self) -> Seq<char> {
        self.root@
    }

    /// A loader for the project at `root`, the canonical path of its
    /// directory.
    pub fn new(root: String) -> (r: Self)
        ensures
            r.root() == root@,
    {
        ProjectModuleLoader { root }
    }

    /// The project root.
    pub fn root_path(&self) -> (r: &String)
        ensures
            r@ == self.root(),
    {
        &self.root
    }

    /// Where an import of `specifier` from the module at `referrer` leads.
    pub fn module_target(&self, referrer: Option<&str>, specifier: &str) -> (r: Result<ModuleTarget, ModuleError>)
        ensures
            match target_of(self.root(), referrer_text(referrer), specifier@) {
                Ok(t) => r matches Ok(target) && target@ == t,
                Err(e) => r == Err::<ModuleTarget, ModuleError>(e),
            },
    {
        if starts_with_components(specifier, ".") {
            let referrer = match referrer {
                Some(r) => r,
                None => return Err(ModuleError::RelativeWithoutReferrer),
            };
            let base = match parent_of(referrer) {
                Some(d) => d,
                None => self.root.clone(),
            };
            return Ok(ModuleTarget::Path(join_components(base.as_str(), specifier)));
        }
        if is_absolute_path(specifier) {
            return Ok(ModuleTarget::Path(specifier.to_string()));
        }
        match split_package(specifier) {
            Ok((package, subpath)) => Ok(ModuleTarget::Package { package, subpath }),
            Err(e) => Err(e),
        }
    }

    /// The directory of a package: `node_modules/<package>` under the root.
    pub fn package_root(&self, package: &str) -> (r: String)
        ensures
            r@ == path_joined(path_joined(self.root(), "node_modules"@), package@),
    {
        let modules = join_components(self.root.as_str(), "node_modules");
        join_components(modules.as_str(), package)
    }

    /// The directory of `package`: `node_modules/<package>` under `root`.
    pub open spec fn package_dir(root: Seq<char>, package: Seq<char>) -> Seq<char> {
        path_joined(path_joined(root, "node_modules"@), package)
    }

    /// `out` is the module path of the bare `specifier` when reading the
    /// package's `package.json` answers as it did: the package's entry
    /// (see `package_module_of`) under the package's directory.
    pub open spec fn package_answer<F: Fn(&str) -> Option<String>>(
        root: Seq<char>,
        specifier: Seq<char>,
        read_file: F,
        out: Result<Seq<char>, ModuleError>,
    ) -> bool {
        match package_of(specifier) {
            None => out == Err::<Seq<char>, ModuleError>(ModuleError::InvalidPackageSpecifier),
            Some(p) => Self::package_dir_answer(
                Self::package_dir(root, p),
                specifier.subrange(p.len() as int, specifier.len() as int),
                read_file,
                out,
            ),
        }
    }

    /// `out` is the module at `subpath` of the package in `dir` when
    /// reading its `package.json` answers as it did.
    pub open spec fn package_dir_answer<F: Fn(&str) -> Option<String>>(
        dir: Seq<char>,
        subpath: Seq<char>,
        read_file: F,
        out: Result<Seq<char>, ModuleError>,
    ) -> bool {
        exists|source: Option<Seq<char>>|
            #[trigger] read_answered(read_file, path_joined(dir, "package.json"@), source) && out == match package_module_of(
                source,
                subpath,
            ) {
                Ok(entry) => Ok(path_joined(dir, entry)),
                Err(e) => Err(e),
            }
    }

    /// The module path of a bare specifier: the package's directory under
    /// `node_modules`, joined with its entry (see `package_module_of`);
    /// `read_file` reads the package's `package.json` (`None` when it
    /// cannot be read).
    pub fn resolve_package<F: Fn(&str) -> Option<String>>(&self, specifier: &str, read_file: &F) -> (r: Result<
        String,
        ModuleError,
    >)
        requires
            forall|s: &str| #[trigger] read_file.requires((s,)),
        ensures
            Self::package_answer(self.root(), specifier@, *read_file, text_result(r)),
    {
        let (package, subpath) = match split_package(specifier) {
            Ok(parts) => parts,
            Err(e) => return Err(e),
        };
        let dir = self.package_root(package.as_str());
        let manifest = join_components(dir.as_str(), "package.json");
        let query = manifest.as_str();
        let source = read_file(query);
        let ghost source_view = opt_text(source);
        proof {
            assert(read_answered(*read_file, manifest@, source_view));
            assert(dir@ == Self::package_dir(self.root(), package@));
        }
        let entry = if subpath.as_str().is_empty() {
            match source {
                None => {
                    proof {
                        assert(Self::package_dir_answer(
                            dir@,
                            subpath@,
                            *read_file,
                            Err(ModuleError::NoPackageJson),
                        ));
                    }
                    return Err(ModuleError::NoPackageJson);
                },
                Some(text) => match parse_json_text(text.as_str()) {
                    None => {
                        proof {
                            assert(Self::package_dir_answer(
                                dir@,
                                subpath@,
                                *read_file,
                                Err(ModuleError::InvalidPackageJson),
                            ));
                        }
                        return Err(ModuleError::InvalidPackageJson);
                    },
                    Some(json) => package_entry_path(Some(&json), subpath.as_str()),
                },
            }
        } else {
            let json = match source {
                Some(text) => parse_json_text(text.as_str()),
                None => None,
            };
            package_entry_path(json.as_ref(), subpath.as_str())
        };
        let r = match entry {
            Ok(e) => Ok(join_components(dir.as_str(), e.as_str())),
            Err(e) => Err(e),
        };
        proof {
            assert(Self::package_dir_answer(dir@, subpath@, *read_file, text_result(r)));
        }
        r
    }

    /// `base` is the module path an import target leads to before the file
    /// system is searched: a path as it is, a package through
    /// `package_answer`.
    pub open spec fn base_answer<F: Fn(&str) -> Option<String>>(
        root: Seq<char>,
        specifier: Seq<char>,
        target: ModuleTargetView,
        read_file: F,
        base: Result<Seq<char>, ModuleError>,
    ) -> bool {
        match target {
            ModuleTargetView::Path(p) => base == Ok::<Seq<char>, ModuleError>(p),
            ModuleTargetView::Package { .. } => Self::package_answer(root, specifier, read_file, base),
        }
    }

    /// `r` is what making the module path `m` canonical gives when
    /// `canonicalize` answers as it did: the canonical path, refused when
    /// it lies outside `root`.
    pub open spec fn canonical_answer<C: Fn(&str) -> Option<String>>(
        root: Seq<char>,
        canonicalize: C,
        m: Seq<char>,
        r: Result<Seq<char>, ModuleError>,
    ) -> bool {
        exists|canonical: Option<Seq<char>>|
            #[trigger] read_answered(canonicalize, m, canonical) && match canonical {
                None => r == Err::<Seq<char>, ModuleError>(ModuleError::NoCanonicalPath),
                Some(c) => if path_starts_with(c, root) {
                    r == Ok::<Seq<char>, ModuleError>(c)
                } else {
                    r == Err::<Seq<char>, ModuleError>(ModuleError::OutsideRoot)
                },
            }
    }

    /// `r` is what the search from the module path `base` gives: its first
    /// existing candidate file, made canonical.
    pub open spec fn found_answer<P: Fn(&str) -> bool, C: Fn(&str) -> Option<String>>(
        root: Seq<char>,
        is_file: P,
        canonicalize: C,
        base: Seq<char>,
        r: Result<Seq<char>, ModuleError>,
    ) -> bool {
        exists|found: Result<Seq<char>, ModuleError>|
            #[trigger] existing_module_answer(is_file, base, found) && match found {
                Err(e) => r == Err::<Seq<char>, ModuleError>(e),
                Ok(m) => Self::canonical_answer(root, canonicalize, m, r),
            }
    }

    /// `r` is the resolution of an import with target `target` (see
    /// `target_of`) when the host answers as it did.
    pub open spec fn resolution_answer<
        R: Fn(&str) -> Option<String>,
        P: Fn(&str) -> bool,
        C: Fn(&str) -> Option<String>,
    >(
        root: Seq<char>,
        specifier: Seq<char>,
        target: Result<ModuleTargetView, ModuleError>,
        read_file: R,
        is_file: P,
        canonicalize: C,
        r: Result<Seq<char>, ModuleError>,
    ) -> bool {
        match target {
            Err(e) => r == Err::<Seq<char>, ModuleError>(e),
            Ok(t) => exists|base: Result<Seq<char>, ModuleError>|
                #[trigger] Self::base_answer(root, specifier, t, read_file, base) && match base {
                    Err(e) => r == Err::<Seq<char>, ModuleError>(e),
                    Ok(b) => Self::found_answer(root, is_file, canonicalize, b, r),
                },
        }
    }

    /// The canonical path of the module that an import of `specifier` from
    /// the module at `referrer` loads: the import's target (see
    /// `target_of`), through its package when it names one, the first of
    /// its candidate files that exists, made canonical, and refused when
    /// that lies outside the project root. The host answers the three
    /// questions: the text of a file (`read_file`), whether a path is a
    /// file (`is_file`), and a path made canonical (`canonicalize`).
    pub fn resolve_path<R: Fn(&str) -> Option<String>, P: Fn(&str) -> bool, C: Fn(&str) -> Option<String>>(
        &self,
        referrer: Option<&str>,
        specifier: &str,
        read_file: &R,
        is_file: &P,
        canonicalize: &C,
    ) -> (r: Result<String, ModuleError>)
        requires
            forall|s: &str| #[trigger] read_file.requires((s,)),
            forall|s: &str| #[trigger] is_file.requires((s,)),
            forall|s: &str| #[trigger] canonicalize.requires((s,)),
        ensures
            Self::resolution_answer(
                self.root(),
                specifier@,
                target_of(self.root(), referrer_text(referrer), specifier@),
                *read_file,
                *is_file,
                *canonicalize,
                text_result(r),
            ),
    {
        let target = match self.module_target(referrer, specifier) {
            Ok(t) => t,
            Err(e) => return Err(e),
        };
        let ghost t = target@;
        let base = match target {
            ModuleTarget::Path(p) => p,
            ModuleTarget::Package { .. } => match self.resolve_package(specifier, read_file) {
                Ok(p) => p,
                Err(e) => {
                    proof {
                        assert(Self::base_answer(self.root(), specifier@, t, *read_file, Err(e)));
                    }
                    return Err(e);
                },
            },
        };
        proof {
            assert(Self::base_answer(self.root(), specifier@, t, *read_file, Ok(base@)));
        }
        let found = match resolve_existing_module_path(base.as_str(), is_file) {
            Ok(f) => f,
            Err(e) => {
                proof {
                    assert(existing_module_answer(*is_file, base@, Err(e)));
                    assert(Self::found_answer(self.root(), *is_file, *canonicalize, base@, Err(e)));
                }
                return Err(e);
            },
        };
        let query = found.as_str();
        let answer = canonicalize(query);
        let ghost answer_view = opt_text(answer);
        proof {
            assert(read_answered(*canonicalize, found@, answer_view));
        }
        let r = match answer {
            None => Err(ModuleError::NoCanonicalPath),
            Some(canonical) => match self.ensure_inside(canonical.as_str()) {
                Ok(()) => Ok(canonical),
                Err(e) => Err(e),
            },
        };
        proof {
            assert(Self::canonical_answer(self.root(), *canonicalize, found@, text_result(r)));
            assert(existing_module_answer(*is_file, base@, Ok(found@)));
            assert(Self::found_answer(self.root(), *is_file, *canonicalize, base@, text_result(r)));
        }
        r
    }

    /// Whatever the host answers, a module that resolves lies inside the
    /// project root.
    pub proof fn law_resolved_modules_stay_inside_root<
        R: Fn(&str) -> Option<String>,
        P: Fn(&str) -> bool,
        C: Fn(&str) -> Option<String>,
    >(
        root: Seq<char>,
        specifier: Seq<char>,
        target: Result<ModuleTargetView, ModuleError>,
        read_file: R,
        is_file: P,
        canonicalize: C,
        module: Seq<char>,
    )
        requires
            Self::resolution_answer(root, specifier, target, read_file, is_file, canonicalize, Ok(module)),
        ensures
            path_starts_with(module, root),
    {
        let t = target->Ok_0;
        let base = choose|base: Result<Seq<char>, ModuleError>|
            #[trigger] Self::base_answer(root, specifier, t, read_file, base) && match base {
                Err(e) => Ok::<Seq<char>, ModuleError>(module) == Err::<Seq<char>, ModuleError>(e),
                Ok(b) => Self::found_answer(root, is_file, canonicalize, b, Ok(module)),
            };
        let b = base->Ok_0;
        let found = choose|found: Result<Seq<char>, ModuleError>|
            #[trigger] existing_module_answer(is_file, b, found) && match found {
                Err(e) => Ok::<Seq<char>, ModuleError>(module) == Err::<Seq<char>, ModuleError>(e),
                Ok(m) => Self::canonical_answer(root, canonicalize, m, Ok(module)),
            };
        let m = found->Ok_0;
        let canonical = choose|canonical: Option<Seq<char>>|
            #[trigger] read_answered(canonicalize, m, canonical) && match canonical {
                None => Ok::<Seq<char>, ModuleError>(module) == Err::<Seq<char>, ModuleError>(
                    ModuleError::NoCanonicalPath,
                ),
                Some(c) => if path_starts_with(c, root) {
                    Ok::<Seq<char>, ModuleError>(module) == Ok::<Seq<char>, ModuleError>(c)
                } else {
                    Ok::<Seq<char>, ModuleError>(module) == Err::<Seq<char>, ModuleError>(ModuleError::OutsideRoot)
                },
            };
    }

    /// Refuses a canonical module path outside the project root (compared
    /// by whole components).
    pub fn ensure_inside(&self, canonical: &str) -> (r: Result<(), ModuleError>)
        ensures
            r is Ok <==> path_starts_with(canonical@, self.root()),
            r is Err ==> r == Err::<(), ModuleError>(ModuleError::OutsideRoot),
    {
        if starts_with_components(canonical, self.root.as_str()) {
            Ok(())
        } else {
            Err(ModuleError::OutsideRoot)
        }
    }
}

} // verus!
