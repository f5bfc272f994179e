//! Project-scoped `localStorage`: a string-to-string map that scripts
//! replace wholesale with a JSON object and read back as JSON text.
//! Reading and writing the backing file is left to the host.
use vstd::prelude::*;
use vstd::string::StringSliceAdditionalSpecFns;
use crate::paths::{
    join_components, opt_text, parent_of, path_joined, path_parent, path_starts_with, read_answered,
    sandbox_path_verdict, starts_with_components, validate_sandbox_path, PathRejection,
};

verus! {

/// Largest accepted storage payload, in bytes.
pub const MAX_STORAGE_BYTES: usize = 5 * 1024 * 1024;

/// Largest file of the origin-private file sandbox, in bytes.
pub const MAX_SANDBOX_FILE_BYTES: usize = 64 * 1024 * 1024;

/// A parsed JSON document as far as storage cares: not JSON, JSON whose
/// root is not an object, or an object's members in key order, each with
/// its value's text when the value is a string.
pub enum JsonDocument {
    Invalid,
    NotObject,
    Object(Vec<(String, Option<String>)>),
}

/// `JsonDocument` as plain values.
pub enum JsonDocumentModel {
    Invalid,
    NotObject,
    Object(Seq<(Seq<char>, Option<Seq<char>>)>),
}

/// The members of an object, as plain values.
pub open spec fn member_models(members: Seq<(String, Option<String>)>) -> Seq<
    (Seq<char>, Option<Seq<char>>),
> {
    members.map_values(
        |m: (String, Option<String>)|
            (
                m.0@,
                match m.1 {
                    Some(v) => Some(v@),
                    None => None,
                },
            ),
    )
}

impl View for JsonDocument {
    type V = JsonDocumentModel;

    open spec fn view(&self) -> JsonDocumentModel {
        match self {
            JsonDocument::Invalid => JsonDocumentModel::Invalid,
            JsonDocument::NotObject => JsonDocumentModel::NotObject,
            JsonDocument::Object(members) => JsonDocumentModel::Object(member_models(members@)),
        }
    }
}

/// What `serde_json` reads from `bytes`.
pub uninterp spec fn json_document(bytes: Seq<u8>) -> JsonDocumentModel;

/// Parses `bytes` with `serde_json::from_slice` into a `serde_json::Value`
/// and reports it: `Invalid` on a parse error, `NotObject` for any root but
/// an object, otherwise the object's members in the map's iteration order
/// with `Value::as_str` of each value. The contract names the result (what
/// `serde_json` accepts as JSON is not restated) and states that the
/// members come in ascending key order, each key once, as a `serde_json`
/// map (a `BTreeMap`) iterates them.
#[verifier::external_body]
fn read_json_document(bytes: &[u8]) -> (r: JsonDocument)
    ensures
        r@ == json_document(bytes@),
        r@ matches JsonDocumentModel::Object(members) ==> keys_ascending(members),
{
    match serde_json::from_slice::<serde_json::Value>(bytes) {
        Err(_) => JsonDocument::Invalid,
        Ok(serde_json::Value::Object(map)) => JsonDocument::Object(
            map.into_iter().map(|(key, value)| (key, value.as_str().map(str::to_string))).collect(),
        ),
        Ok(_) => JsonDocument::NotObject,
    }
}

/// `a` sorts before `b` in the order of `String`: by characters (the order
/// of their UTF-8 bytes), a proper prefix first.
pub open spec fn text_less(a: Seq<char>, b: Seq<char>) -> bool
    decreases a.len(),
{
    if a.len() == 0 {
        b.len() > 0
    } else if b.len() == 0 {
        false
    } else if a[0] != b[0] {
        (a[0] as u32) < (b[0] as u32)
    } else {
        text_less(a.drop_first(), b.drop_first())
    }
}

/// The keys are in strictly ascending order (so each occurs once).
pub open spec fn keys_ascending<V>(members: Seq<(Seq<char>, V)>) -> bool {
    forall|i: int, j: int| 0 <= i < j < members.len() ==> text_less(members[i].0, members[j].0)
}

/// Entries as object members whose values are strings.
pub open spec fn string_members(entries: Seq<(Seq<char>, Seq<char>)>) -> Seq<
    (Seq<char>, Option<Seq<char>>),
> {
    entries.map_values(|e: (Seq<char>, Seq<char>)| (e.0, Some(e.1)))
}

/// The JSON text `serde_json::to_string` writes for the string map holding
/// these entries.
pub uninterp spec fn json_object_text(entries: Seq<(Seq<char>, Seq<char>)>) -> Seq<char>;

/// Serialises the entries with `serde_json::to_string` as a JSON object of
/// strings (through a `BTreeMap<&str, &str>`); the contract names the text.
/// It also states that the call succeeds: `serde_json` fails only where a
/// `Serialize` impl fails or a map has keys that are not strings, and
/// neither happens for a map of strings written into a `Vec`.
#[verifier::external_body]
fn write_json_object(entries: &Vec<(String, String)>) -> (r: Result<String, serde_json::Error>)
    ensures
        r is Ok,
        r matches Ok(text) ==> text@ == json_object_text(entry_models(entries@)),
{
    serde_json::to_string(
        &entries.iter().map(|(k, v)| (k.as_str(), v.as_str())).collect::<
            std::collections::BTreeMap<&str, &str>,
        >(),
    )
}

/// The bytes `serde_json::to_vec` writes for the string map holding these
/// entries.
pub uninterp spec fn json_object_bytes(entries: Seq<(Seq<char>, Seq<char>)>) -> Seq<u8>;

/// Serialises the entries with `serde_json::to_vec` as a JSON object of
/// strings (through a `BTreeMap<&str, &str>`); the contract names the bytes.
/// It states that the call succeeds, as `write_json_object` does, and that
/// `serde_json` reads back from those bytes the object it wrote: for entries
/// in ascending key order, each key once, the same members with string
/// values, in the same order.
#[verifier::external_body]
fn write_json_object_bytes(entries: &Vec<(String, String)>) -> (r: Result<Vec<u8>, serde_json::Error>)
    ensures
        r is Ok,
        r matches Ok(bytes) ==> bytes@ == json_object_bytes(entry_models(entries@)),
        r is Ok && keys_ascending(entry_models(entries@)) ==> json_document(
            json_object_bytes(entry_models(entries@)),
        ) == JsonDocumentModel::Object(string_members(entry_models(entries@))),
{
    serde_json::to_vec(
        &entries.iter().map(|(k, v)| (k.as_str(), v.as_str())).collect::<
            std::collections::BTreeMap<&str, &str>,
        >(),
    )
}

#[verifier::external_type_specification]
#[verifier::external_body]
pub struct ExJsonError(serde_json::Error);

/// Entries as plain values.
pub open spec fn entry_models(entries: Seq<(String, String)>) -> Seq<(Seq<char>, Seq<char>)> {
    entries.map_values(|e: (String, String)| (e.0@, e.1@))
}

/// Why storage contents were refused.
#[derive(Debug, PartialEq, Eq)]
pub enum StorageError {
    /// The payload is larger than `MAX_STORAGE_BYTES`.
    TooLarge,
    /// The payload is not JSON.
    InvalidJson,
    /// The JSON root is not an object.
    RootNotObject,
    /// The member with this key does not hold a string.
    ValueNotString(String),
    /// The JSON writer failed; writing a map of strings never does, so no
    /// operation of the store returns it.
    Serialize,
}

/// What the storage parser makes of a JSON document: every member must hold
/// a string; the first member (in key order) that does not is reported.
pub open spec fn storage_entries(doc: JsonDocumentModel) -> Result<
    Seq<(Seq<char>, Seq<char>)>,
    Option<Seq<char>>,
> {
    match doc {
        JsonDocumentModel::Invalid => Err(None),
        JsonDocumentModel::NotObject => Err(None),
        JsonDocumentModel::Object(members) => if exists|i: int|
            0 <= i < members.len() && (#[trigger] members[i]).1 is None {
            Err(Some(members[first_non_string(members, 0)].0))
        } else {
            Ok(members.map_values(|m: (Seq<char>, Option<Seq<char>>)| (m.0, m.1->0)))
        },
    }
}

/// Index of the first member at or after `i` whose value is not a string.
pub open spec fn first_non_string(members: Seq<(Seq<char>, Option<Seq<char>>)>, i: int) -> int
    decreases members.len() - i,
{
    if i < 0 || i >= members.len() || members[i].1 is None {
        i
    } else {
        first_non_string(members, i + 1)
    }
}

/// The outcome of parsing a storage payload.
pub open spec fn parse_verdict(payload: Seq<u8>, values: Result<Seq<(Seq<char>, Seq<char>)>, StorageErrorKind>) -> bool {
    let doc = json_document(payload);
    match values {
        Ok(entries) => storage_entries(doc) == Ok::<_, Option<Seq<char>>>(entries),
        Err(StorageErrorKind::InvalidJson) => doc is Invalid,
        Err(StorageErrorKind::RootNotObject) => doc is NotObject,
        Err(StorageErrorKind::ValueNotString(k)) => doc is Object && storage_entries(doc) == Err::<
            Seq<(Seq<char>, Seq<char>)>,
            Option<Seq<char>>,
        >(Some(k)),
        Err(_) => false,
    }
}

/// `StorageError` as plain values.
pub enum StorageErrorKind {
    TooLarge,
    InvalidJson,
    RootNotObject,
    ValueNotString(Seq<char>),
    Serialize,
}

/// The error as plain values.
pub open spec fn error_kind(e: StorageError) -> StorageErrorKind {
    match e {
        StorageError::TooLarge => StorageErrorKind::TooLarge,
        StorageError::InvalidJson => StorageErrorKind::InvalidJson,
        StorageError::RootNotObject => StorageErrorKind::RootNotObject,
        StorageError::ValueNotString(k) => StorageErrorKind::ValueNotString(k@),
        StorageError::Serialize => StorageErrorKind::Serialize,
    }
}

/// Result as plain values.
pub open spec fn values_kind(r: Result<Vec<(String, String)>, StorageError>) -> Result<
    Seq<(Seq<char>, Seq<char>)>,
    StorageErrorKind,
> {
    match r {
        Ok(v) => Ok(entry_models(v@)),
        Err(e) => Err(error_kind(e)),
    }
}

/// Reads a storage payload: a JSON object whose members all hold strings.
/// The entries come out in the order of the parsed object (ascending keys).
pub fn parse_values(bytes: &[u8]) -> (r: Result<Vec<(String, String)>, StorageError>)
    ensures
        parse_verdict(bytes@, values_kind(r)),
        r matches Ok(values) ==> keys_ascending(entry_models(values@)),
{
    match read_json_document(bytes) {
        JsonDocument::Invalid => Err(StorageError::InvalidJson),
        JsonDocument::NotObject => Err(StorageError::RootNotObject),
        JsonDocument::Object(members) => {
            let ghost ms = member_models(members@);
            let mut out: Vec<(String, String)> = Vec::new();
            let mut i: usize = 0;
            while i < members.len()
                invariant
                    ms == member_models(members@),
                    json_document(bytes@) == JsonDocumentModel::Object(ms),
                    i <= members@.len(),
                    out@.len() == i,
                    forall|k: int| 0 <= k < i ==> ms[k].1 is Some,
                    forall|k: int|
                        0 <= k < i ==> (#[trigger] out@[k]).0@ == ms[k].0 && out@[k].1@ == ms[k].1->0,
                    first_non_string(ms, 0) == first_non_string(ms, i as int),
                decreases members.len() - i,
            {
                let key = members[i].0.clone();
                match &members[i].1 {
                    None => {
                        assert(ms[i as int].1 is None);
                        return Err(StorageError::ValueNotString(key));
                    },
                    Some(v) => {
                        let value = v.clone();
                        proof {
                            assert(ms[i as int].0 == key@);
                            assert(ms[i as int].1 == Some(value@));
                        }
                        out.push((key, value));
                        i = i + 1;
                    },
                }
            }
            assert(entry_models(out@) =~= ms.map_values(
                |m: (Seq<char>, Option<Seq<char>>)| (m.0, m.1->0),
            ));
            assert(keys_ascending(entry_models(out@))) by {
                assert forall|a: int, b: int| 0 <= a < b < entry_models(out@).len() implies text_less(
                    entry_models(out@)[a].0,
                    entry_models(out@)[b].0,
                ) by {
                    assert(entry_models(out@)[a].0 == ms[a].0);
                    assert(entry_models(out@)[b].0 == ms[b].0);
                }
            }
            Ok(out)
        },
    }
}

/// The `localStorage` contents of a project: string values by key, in
/// the order the JSON parser gave them (ascending keys).
pub struct StorageStore {
    values: Vec<(String, String)>,
}

/// What `replace_json` leads to for a payload: the refusal, or the entries
/// that replace the stored ones.
pub open spec fn replace_verdict(payload: Seq<u8>) -> Result<Seq<(Seq<char>, Seq<char>)>, StorageErrorKind> {
    if payload.len() > MAX_STORAGE_BYTES {
        Err(StorageErrorKind::TooLarge)
    } else {
        match json_document(payload) {
            JsonDocumentModel::Invalid => Err(StorageErrorKind::InvalidJson),
            JsonDocumentModel::NotObject => Err(StorageErrorKind::RootNotObject),
            JsonDocumentModel::Object(members) => match storage_entries(
                JsonDocumentModel::Object(members),
            ) {
                Ok(entries) => if json_object_bytes(entries).len() > MAX_STORAGE_BYTES {
                    Err(StorageErrorKind::TooLarge)
                } else {
                    Ok(entries)
                },
                Err(key) => Err(StorageErrorKind::ValueNotString(key->0)),
            },
        }
    }
}

impl StorageStore {
    /// Keys come in ascending order, each once, as in the parsed object.
    #[verifier::type_invariant]
    spec fn keys_in_order(&self) -> bool {
        keys_ascending(entry_models(self.values@))
    }

    /// The stored entries.
    pub closed spec fn entries(&self) -> Seq<(Seq<char>, Seq<char>)> {
        entry_models(self.values@)
    }

    /// A store with no entries (no storage file yet).
    pub fn empty() -> (r: Self)
        ensures
            r.entries() == Seq::<(Seq<char>, Seq<char>)>::empty(),
    {
        let r = StorageStore { values: Vec::new() };
        assert(r.entries() =~= Seq::<(Seq<char>, Seq<char>)>::empty());
        r
    }

    /// A store holding the contents of an existing storage file.
    pub fn from_bytes(bytes: &[u8]) -> (r: Result<Self, StorageError>)
        ensures
            bytes@.len() > MAX_STORAGE_BYTES ==> r == Err::<Self, StorageError>(StorageError::TooLarge),
            bytes@.len() <= MAX_STORAGE_BYTES ==> parse_verdict(
                bytes@,
                match r {
                    Ok(s) => Ok(s.entries()),
                    Err(e) => Err(error_kind(e)),
                },
            ),
    {
        if bytes.len() > MAX_STORAGE_BYTES {
            return Err(StorageError::TooLarge);
        }
        match parse_values(bytes) {
            Ok(values) => Ok(StorageStore { values }),
            Err(e) => Err(e),
        }
    }

    /// Replaces all entries with the members of a JSON object of strings.
    /// Refused, leaving the entries unchanged, when the payload or its
    /// re-serialised form is larger than `MAX_STORAGE_BYTES`, when it is not
    /// JSON, not an object, or holds a non-string value; accepted otherwise.
    pub fn replace_json(&mut self, payload: &str) -> (r: Result<(), StorageError>)
        ensures
            r is Ok <==> replace_verdict(payload.spec_bytes()) is Ok,
            r is Ok ==> replace_verdict(payload.spec_bytes()) == Ok::<
                Seq<(Seq<char>, Seq<char>)>,
                StorageErrorKind,
            >(final(self).entries()),
            r matches Err(e) ==> replace_verdict(payload.spec_bytes()) == Err::<
                Seq<(Seq<char>, Seq<char>)>,
                StorageErrorKind,
            >(error_kind(e)),
            r is Err ==> final(self).entries() == old(self).entries(),
    {
        let bytes = payload.as_bytes();
        if bytes.len() > MAX_STORAGE_BYTES {
            return Err(StorageError::TooLarge);
        }
        let values = match parse_values(bytes) {
            Ok(values) => values,
            Err(e) => {
                proof {
                    lemma_parse_error_verdict(bytes@, e);
                }
                return Err(e);
            },
        };
        let encoded = match write_json_object_bytes(&values) {
            Ok(encoded) => encoded,
            Err(_) => return Err(StorageError::Serialize),
        };
        if encoded.len() > MAX_STORAGE_BYTES {
            return Err(StorageError::TooLarge);
        }
        self.values = values;
        Ok(())
    }

    /// The bytes the host persists for the entries (the JSON object of
    /// strings `serde_json::to_vec` writes); a store read back from them
    /// holds the same entries.
    pub fn persisted_bytes(&self) -> (r: Result<Vec<u8>, StorageError>)
        ensures
            r matches Ok(bytes) && bytes@ == json_object_bytes(self.entries()) && json_document(
                bytes@,
            ) == JsonDocumentModel::Object(string_members(self.entries())),
    {
        proof {
            use_type_invariant(self);
        }
        match write_json_object_bytes(&self.values) {
            Ok(bytes) => Ok(bytes),
            Err(_) => Err(StorageError::Serialize),
        }
    }

    /// The entries as the JSON text of an object of strings.
    pub fn snapshot_json(&self) -> (r: Result<String, StorageError>)
        ensures
            r matches Ok(text) && text@ == json_object_text(self.entries()),
    {
        match write_json_object(&self.values) {
            Ok(text) => Ok(text),
            Err(_) => Err(StorageError::Serialize),
        }
    }
}

/// Storage read back from persisted bytes holds what was persisted: the
/// bytes `persisted_bytes` gives for some entries parse as the object of
/// those entries' strings, and whatever a read of them within the size
/// limit returns (`from_bytes` states `parse_verdict` of its result) is
/// exactly those entries.
pub proof fn law_persisted_storage_reads_back(
    entries: Seq<(Seq<char>, Seq<char>)>,
    bytes: Seq<u8>,
    restored: Result<Seq<(Seq<char>, Seq<char>)>, StorageErrorKind>,
)
    requires
        json_document(bytes) == JsonDocumentModel::Object(string_members(entries)),
        bytes.len() <= MAX_STORAGE_BYTES,
        parse_verdict(bytes, restored),
    ensures
        restored == Ok::<Seq<(Seq<char>, Seq<char>)>, StorageErrorKind>(entries),
{
    let members = string_members(entries);
    assert(!(exists|i: int| 0 <= i < members.len() && (#[trigger] members[i]).1 is None));
    assert(members.map_values(|m: (Seq<char>, Option<Seq<char>>)| (m.0, m.1->0)) =~= entries);
}

/// A refusal of `parse_values` on a payload within the size limit is the
/// refusal `replace_verdict` names.
proof fn lemma_parse_error_verdict(payload: Seq<u8>, e: StorageError)
    requires
        payload.len() <= MAX_STORAGE_BYTES,
        parse_verdict(payload, Err(error_kind(e))),
    ensures
        replace_verdict(payload) == Err::<Seq<(Seq<char>, Seq<char>)>, StorageErrorKind>(error_kind(e)),
{
}

/// Why a sandbox file operation was refused.
#[derive(Debug, Clone, Copy, PartialEq, Eq, Structural)]
pub enum SandboxError {
    /// The operation needs a file path and got the empty string.
    EmptyPath,
    /// The relative path breaks the sandbox path rules.
    Invalid(PathRejection),
    /// The file is larger than `MAX_SANDBOX_FILE_BYTES`.
    TooLarge,
    /// The resolved path lies outside the sandbox directory.
    Escapes,
    /// The path names nothing that exists.
    Missing,
    /// The path has no parent directory.
    NoParent,
}

/// The origin-private file sandbox of a project: every file path is a
/// validated relative path under one canonical directory.
pub struct SandboxFileStore {
    root: String,
}

impl SandboxFileStore {
    /// The sandbox directory.
    pub closed spec fn root(&self) -> Seq<char> {
        self.root@
    }

    /// A sandbox rooted at `root`, the canonical path of its directory.
    pub fn new(root: String) -> (r: Self)
        ensures
            r.root() == root@,
    {
        SandboxFileStore { root }
    }

    /// The sandbox directory.
    pub fn root_path(&self) -> (r: &String)
        ensures
            r@ == self.root(),
    {
        &self.root
    }

    /// The host path of `relative_path`: the sandbox directory itself for
    /// the empty path, otherwise the validated path joined to it.
    pub open spec fn host_path(&self, relative_path: Seq<char>) -> Result<Seq<char>, SandboxError> {
        if relative_path.len() == 0 {
            Ok(self.root())
        } else {
            match sandbox_path_verdict(relative_path) {
                Ok(relative) => Ok(path_joined(self.root(), relative)),
                Err(e) => Err(SandboxError::Invalid(e)),
            }
        }
    }

    /// The host path of `relative_path`: the sandbox directory itself for
    /// the empty path, otherwise the validated path joined to it.
    pub fn new_path(&self, relative_path: &str) -> (r: Result<String, SandboxError>)
        ensures
            relative_path@.len() == 0 ==> (r matches Ok(p) && p@ == self.root()),
            relative_path@.len() > 0 ==> match sandbox_path_verdict(relative_path@) {
                Ok(relative) => (r matches Ok(p) && p@ == path_joined(self.root(), relative)),
                Err(e) => r == Err::<String, SandboxError>(SandboxError::Invalid(e)),
            },
            match self.host_path(relative_path@) {
                Ok(p) => r matches Ok(q) && q@ == p,
                Err(e) => r == Err::<String, SandboxError>(e),
            },
    {
        if relative_path.is_empty() {
            return Ok(self.root.clone());
        }
        match validate_sandbox_path(relative_path) {
            Ok(relative) => Ok(join_components(self.root.as_str(), relative.as_str())),
            Err(e) => Err(SandboxError::Invalid(e)),
        }
    }

    /// Refuses a host path that does not lie under the sandbox directory,
    /// comparing whole path components.
    pub fn ensure_inside(&self, path: &str) -> (r: Result<(), SandboxError>)
        ensures
            r is Ok <==> path_starts_with(path@, self.root()),
            r is Err ==> r == Err::<(), SandboxError>(SandboxError::Escapes),
    {
        if starts_with_components(path, self.root.as_str()) {
            Ok(())
        } else {
            Err(SandboxError::Escapes)
        }
    }

    /// The canonical host path of an existing sandbox entry: the host path
    /// of `relative_path`, made canonical by `canonicalize` (the host's
    /// file system, which answers `None` for a path that does not exist),
    /// and refused when that leaves the sandbox directory.
    pub fn existing_path<F: Fn(&str) -> Option<String>>(&self, relative_path: &str, canonicalize: &F) -> (r:
        Result<String, SandboxError>)
        requires
            forall|s: &str| #[trigger] canonicalize.requires((s,)),
        ensures
            match self.host_path(relative_path@) {
                Err(e) => r == Err::<String, SandboxError>(e),
                Ok(p) => exists|s: &str, answer: Option<String>|
                    s@ == p && #[trigger] canonicalize.ensures((s,), answer) && match answer {
                        None => r == Err::<String, SandboxError>(SandboxError::Missing),
                        Some(c) => if path_starts_with(c@, self.root()) {
                            r matches Ok(q) && q@ == c@
                        } else {
                            r == Err::<String, SandboxError>(SandboxError::Escapes)
                        },
                    },
            },
    {
        let path = match self.new_path(relative_path) {
            Ok(p) => p,
            Err(e) => return Err(e),
        };
        let query = path.as_str();
        let answer = canonicalize(query);
        proof {
            assert(query@ == path@ && canonicalize.ensures((query,), answer));
        }
        match answer {
            Some(canonical) => match self.ensure_inside(canonical.as_str()) {
                Ok(()) => Ok(canonical),
                Err(e) => Err(e),
            },
            None => Err(SandboxError::Missing),
        }
    }

    /// The host path a write of `len` bytes to `relative_path` goes to:
    /// refused for the empty path, for more than `MAX_SANDBOX_FILE_BYTES`
    /// bytes, and for a path the sandbox rules refuse, in that order.
    pub fn write_path(&self, relative_path: &str, len: usize) -> (r: Result<String, SandboxError>)
        ensures
            relative_path@.len() == 0 ==> r == Err::<String, SandboxError>(SandboxError::EmptyPath),
            relative_path@.len() > 0 && len > MAX_SANDBOX_FILE_BYTES ==> r == Err::<String, SandboxError>(
                SandboxError::TooLarge,
            ),
            relative_path@.len() > 0 && len <= MAX_SANDBOX_FILE_BYTES ==> match sandbox_path_verdict(
                relative_path@,
            ) {
                Ok(relative) => (r matches Ok(p) && p@ == path_joined(self.root(), relative)),
                Err(e) => r == Err::<String, SandboxError>(SandboxError::Invalid(e)),
            },
    {
        if relative_path.is_empty() {
            return Err(SandboxError::EmptyPath);
        }
        if len > MAX_SANDBOX_FILE_BYTES {
            return Err(SandboxError::TooLarge);
        }
        self.new_path(relative_path)
    }

    /// `r` is what checking the nearest existing ancestor of `p` (`p`
    /// itself included) gives when making paths canonical answers as it
    /// did: accepted when its canonical path lies inside the sandbox.
    /// Directories the host creates for a write below that ancestor are
    /// then new directories inside the sandbox.
    pub open spec fn ancestor_answer<F: Fn(&str) -> Option<String>>(
        root: Seq<char>,
        canonicalize: F,
        p: Seq<char>,
        r: Result<(), SandboxError>,
    ) -> bool
        decreases p.len(),
    {
        exists|canonical: Option<Seq<char>>|
            #[trigger] read_answered(canonicalize, p, canonical) && match canonical {
                Some(c) => r == if path_starts_with(c, root) {
                    Ok::<(), SandboxError>(())
                } else {
                    Err::<(), SandboxError>(SandboxError::Escapes)
                },
                None => match path_parent(p) {
                    None => r == Err::<(), SandboxError>(SandboxError::Missing),
                    Some(q) => q.len() < p.len() && Self::ancestor_answer(root, canonicalize, q, r),
                },
            }
    }

    /// Checks, before the host creates the directories of a write to `p`,
    /// that the nearest ancestor of `p` that exists lies, made canonical by
    /// `canonicalize`, inside the sandbox.
    pub fn check_nearest_ancestor<F: Fn(&str) -> Option<String>>(&self, p: &str, canonicalize: &F) -> (r: Result<
        (),
        SandboxError,
    >)
        requires
            forall|s: &str| #[trigger] canonicalize.requires((s,)),
        ensures
            Self::ancestor_answer(self.root(), *canonicalize, p@, r),
        decreases p@.len(),
    {
        let answer = canonicalize(p);
        let ghost view = opt_text(answer);
        proof {
            assert(read_answered(*canonicalize, p@, view));
        }
        match answer {
            Some(c) => if starts_with_components(c.as_str(), self.root.as_str()) {
                Ok(())
            } else {
                Err(SandboxError::Escapes)
            },
            None => match parent_of(p) {
                None => Err(SandboxError::Missing),
                Some(q) => self.check_nearest_ancestor(q.as_str(), canonicalize),
            },
        }
    }

    /// `r` is where a write to the host path `target` goes when making
    /// paths canonical answers as it did: the parent directory, made
    /// canonical, must lie inside the sandbox; then a target that exists
    /// is written at its canonical path, which must lie inside too, and one
    /// that does not is created as named.
    pub open spec fn write_target_answer<F: Fn(&str) -> Option<String>>(
        root: Seq<char>,
        canonicalize: F,
        target: Seq<char>,
        r: Result<Seq<char>, SandboxError>,
    ) -> bool {
        match path_parent(target) {
            None => r == Err::<Seq<char>, SandboxError>(SandboxError::NoParent),
            Some(parent) => exists|canonical_parent: Option<Seq<char>>|
                #[trigger] read_answered(canonicalize, parent, canonical_parent) && match canonical_parent {
                    None => r == Err::<Seq<char>, SandboxError>(SandboxError::Missing),
                    Some(c) => if !path_starts_with(c, root) {
                        r == Err::<Seq<char>, SandboxError>(SandboxError::Escapes)
                    } else {
                        exists|canonical_target: Option<Seq<char>>|
                            #[trigger] read_answered(canonicalize, target, canonical_target) && match canonical_target {
                                None => r == Ok::<Seq<char>, SandboxError>(target),
                                Some(t) => if path_starts_with(t, root) {
                                    r == Ok::<Seq<char>, SandboxError>(t)
                                } else {
                                    r == Err::<Seq<char>, SandboxError>(SandboxError::Escapes)
                                },
                            }
                    },
                },
        }
    }

    /// Whatever the host answers, a write goes inside the sandbox: to a
    /// canonical path under it, or to a target that does not exist yet
    /// and whose parent directory is, made canonical, under it.
    pub proof fn law_sandbox_writes_stay_inside<F: Fn(&str) -> Option<String>>(
        root: Seq<char>,
        canonicalize: F,
        target: Seq<char>,
        written: Seq<char>,
    )
        requires
            Self::write_target_answer(root, canonicalize, target, Ok(written)),
        ensures
            path_starts_with(written, root) || (written == target && read_answered(
                canonicalize,
                target,
                None,
            ) && exists|c: Seq<char>|
                read_answered(canonicalize, path_parent(target)->0, Some(c)) && #[trigger] path_starts_with(c, root)),
    {
    }

    /// Where a write to the host path `target` (as `write_path` gives it,
    /// once the host has made its parent directory) may go: checked
    /// against the sandbox after `canonicalize` (the host's file system,
    /// which answers `None` for a path that does not exist) resolves links
    /// in the parent and in an existing target.
    pub fn write_target<F: Fn(&str) -> Option<String>>(&self, target: &str, canonicalize: &F) -> (r: Result<
        String,
        SandboxError,
    >)
        requires
            forall|s: &str| #[trigger] canonicalize.requires((s,)),
        ensures
            Self::write_target_answer(
                self.root(),
                *canonicalize,
                target@,
                match r {
                    Ok(p) => Ok(p@),
                    Err(e) => Err(e),
                },
            ),
    {
        let parent = match parent_of(target) {
            Some(p) => p,
            None => return Err(SandboxError::NoParent),
        };
        let query = parent.as_str();
        let answer = canonicalize(query);
        let ghost parent_view = opt_text(answer);
        proof {
            assert(read_answered(*canonicalize, parent@, parent_view));
        }
        let canonical_parent = match answer {
            None => return Err(SandboxError::Missing),
            Some(c) => c,
        };
        if !starts_with_components(canonical_parent.as_str(), self.root.as_str()) {
            return Err(SandboxError::Escapes);
        }
        let target_answer = canonicalize(target);
        let ghost target_view = opt_text(target_answer);
        proof {
            assert(read_answered(*canonicalize, target@, target_view));
        }
        match target_answer {
            None => Ok(target.to_string()),
            Some(t) => if starts_with_components(t.as_str(), self.root.as_str()) {
                Ok(t)
            } else {
                Err(SandboxError::Escapes)
            },
        }
    }
}

/// Refuses file contents larger than `MAX_SANDBOX_FILE_BYTES`.
pub fn check_file_size(len: usize) -> (r: Result<(), SandboxError>)
    ensures
        r is Ok <==> len <= MAX_SANDBOX_FILE_BYTES,
        r is Err ==> r == Err::<(), SandboxError>(SandboxError::TooLarge),
{
    if len > MAX_SANDBOX_FILE_BYTES {
        Err(SandboxError::TooLarge)
    } else {
        Ok(())
    }
}

/// `text_less` on texts that agree on their first `i` characters is
/// `text_less` on what follows.
proof fn lemma_text_less_skip(a: Seq<char>, b: Seq<char>, i: int)
    requires
        0 <= i <= a.len(),
        i <= b.len(),
        a.take(i) == b.take(i),
    ensures
        text_less(a, b) == text_less(a.skip(i), b.skip(i)),
    decreases i,
{
    if i > 0 {
        assert(a[0] == a.take(i)[0]);
        assert(b[0] == b.take(i)[0]);
        assert(a.drop_first().take(i - 1) =~= a.take(i).drop_first());
        assert(b.drop_first().take(i - 1) =~= b.take(i).drop_first());
        lemma_text_less_skip(a.drop_first(), b.drop_first(), i - 1);
        assert(a.drop_first().skip(i - 1) =~= a.skip(i));
        assert(b.drop_first().skip(i - 1) =~= b.skip(i));
    } else {
        assert(a.skip(0) =~= a);
        assert(b.skip(0) =~= b);
    }
}

/// No text orders before a text that orders before it.
pub proof fn lemma_text_less_asymmetric(a: Seq<char>, b: Seq<char>)
    ensures
        text_less(a, b) ==> !text_less(b, a),
    decreases a.len(),
{
    if a.len() > 0 && b.len() > 0 && a[0] == b[0] {
        lemma_text_less_asymmetric(a.drop_first(), b.drop_first());
    }
}

/// The text order is transitive.
pub proof fn lemma_text_less_transitive(a: Seq<char>, b: Seq<char>, c: Seq<char>)
    requires
        text_less(a, b),
        text_less(b, c),
    ensures
        text_less(a, c),
    decreases a.len(),
{
    if a.len() > 0 && b.len() > 0 && c.len() > 0 && a[0] == b[0] && b[0] == c[0] {
        lemma_text_less_transitive(a.drop_first(), b.drop_first(), c.drop_first());
    }
}

/// Whether `a` orders before `b` (see `text_less`).
pub fn text_lt(a: &str, b: &str) -> (r: bool)
    ensures
        r == text_less(a@, b@),
{
    let x = crate::text::chars_of(a);
    let y = crate::text::chars_of(b);
    let mut i: usize = 0;
    while i < x.len() && i < y.len() && x[i] == y[i]
        invariant
            i <= x@.len(),
            i <= y@.len(),
            x@ == a@,
            y@ == b@,
            x@.take(i as int) == y@.take(i as int),
        decreases x.len() - i,
    {
        proof {
            assert(x@.take(i + 1) =~= x@.take(i as int).push(x@[i as int]));
            assert(y@.take(i + 1) =~= y@.take(i as int).push(y@[i as int]));
        }
        i = i + 1;
    }
    proof {
        lemma_text_less_skip(x@, y@, i as int);
    }
    if i == x.len() {
        i < y.len()
    } else if i == y.len() {
        false
    } else {
        proof {
            assert(x@.skip(i as int)[0] == x@[i as int]);
            assert(y@.skip(i as int)[0] == y@[i as int]);
        }
        (x[i] as u32) < (y[i] as u32)
    }
}

/// The entries of a directory listing are in ascending name order.
pub open spec fn names_ascending(entries: Seq<(String, bool)>) -> bool {
    forall|i: int, j: int| 0 <= i < j < entries.len() ==> !text_less(entries[j].0@, entries[i].0@)
}

/// A directory listing (each entry's name and whether it is a directory)
/// sorted by name: the same entries, in ascending name order.
pub fn sorted_entries(entries: Vec<(String, bool)>) -> (r: Vec<(String, bool)>)
    ensures
        r@.to_multiset() == entries@.to_multiset(),
        names_ascending(r@),
{
    broadcast use vstd::seq_lib::group_to_multiset_ensures;

    let ghost original = entries@;
    let mut rest = entries;
    let mut out: Vec<(String, bool)> = Vec::new();
    while rest.len() > 0
        invariant
            out@.to_multiset().add(rest@.to_multiset()) == original.to_multiset(),
            names_ascending(out@),
        decreases rest.len(),
    {
        let ghost before = rest@;
        let entry = rest.pop().unwrap();
        proof {
            assert(before =~= rest@.push(entry));
        }
        let mut p: usize = 0;
        while p < out.len() && !text_lt(entry.0.as_str(), out[p].0.as_str())
            invariant
                p <= out@.len(),
                forall|k: int| 0 <= k < p ==> !text_less(entry.0@, #[trigger] out@[k].0@),
            decreases out.len() - p,
        {
            p = p + 1;
        }
        let ghost old_out = out@;
        out.insert(p, entry);
        proof {
            broadcast use vstd::multiset::group_multiset_axioms;

            vstd::seq_lib::to_multiset_insert(old_out, p as int, entry);
            rest@.to_multiset_ensures();
            assert(rest@.push(entry).to_multiset() == rest@.to_multiset().insert(entry));
            assert(before.to_multiset() == rest@.to_multiset().insert(entry));
            assert(out@.to_multiset().add(rest@.to_multiset()) =~= old_out.to_multiset().add(
                before.to_multiset(),
            ));
            assert forall|i: int, j: int| 0 <= i < j < out@.len() implies !text_less(
                out@[j].0@,
                out@[i].0@,
            ) by {
                if j < p {
                    assert(out@[i] == old_out[i] && out@[j] == old_out[j]);
                } else if j == p {
                    assert(out@[i] == old_out[i]);
                } else if i > p {
                    assert(out@[i] == old_out[i - 1] && out@[j] == old_out[j - 1]);
                } else if i == p {
                    assert(out@[j] == old_out[j - 1]);
                    assert(text_less(entry.0@, old_out[p as int].0@));
                    if text_less(old_out[j - 1].0@, entry.0@) {
                        lemma_text_less_transitive(old_out[j - 1].0@, entry.0@, old_out[p as int].0@);
                        if j - 1 == p {
                            lemma_text_less_asymmetric(entry.0@, old_out[p as int].0@);
                        }
                    }
                } else {
                    assert(out@[i] == old_out[i] && out@[j] == old_out[j - 1]);
                }
            }
        }
    }
    proof {
        assert(rest@ =~= Seq::<(String, bool)>::empty());
    }
    out
}

} // verus!
