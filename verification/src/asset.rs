//! Project assets: what the host reports about a mapped asset file (its
//! format and, for glTF, how many meshes, primitives and animations it
//! holds) and the index buffer of a decoded glTF primitive.
use vstd::prelude::*;
use crate::paths::{
    extension_text, join_components, path_extension, opt_text, path_joined, path_starts_with, read_answered, starts_with_components,
    validate_relative_path, PathRejection,
};
use crate::text::{chars_of, string_from_chars};

verus! {

/// What the host reports about a loaded asset.
#[derive(Debug, Clone)]
pub struct AssetMetadata {
    pub relative_path: String,
    pub byte_length: usize,
    pub format: String,
    pub mesh_count: usize,
    pub primitive_count: usize,
    pub animation_count: usize,
}

/// The format and glTF contents of an asset's bytes.
#[derive(Debug, Clone)]
pub struct InspectedAsset {
    pub format: String,
    pub mesh_count: usize,
    pub primitive_count: usize,
    pub animation_count: usize,
}

/// Why an asset was refused.
#[derive(Debug, Clone, Copy, PartialEq, Eq, Structural)]
pub enum AssetError {
    /// The relative path breaks the asset path rules.
    InvalidPath(PathRejection),
    /// The bytes of a `.gltf` or `.glb` asset are not a glTF document.
    InvalidGltf,
    /// The glTF document holds more primitives than `usize` counts.
    TooManyPrimitives,
    /// A decoded primitive has fewer than three positions.
    TooFewPositions,
    /// The asset does not exist.
    Missing,
    /// The asset's canonical path lies outside the project root.
    EscapesRoot,
}

/// ASCII letters made lowercase, every other character kept.
pub open spec fn ascii_lowercase(s: Seq<char>) -> Seq<char> {
    s.map_values(|c: char| if 'A' <= c <= 'Z' { ((c as u8) + 32) as char } else { c })
}

/// The asset's extension, lowercase; empty when it has none.
pub open spec fn lowercase_extension(path: Seq<char>) -> Seq<char> {
    match path_extension(path) {
        Some(e) => ascii_lowercase(e),
        None => Seq::empty(),
    }
}

/// The bytes start with the binary glTF magic `glTF`.
pub open spec fn has_glb_magic(bytes: Seq<u8>) -> bool {
    bytes.len() >= 4 && bytes[0] == 0x67 && bytes[1] == 0x6c && bytes[2] == 0x54 && bytes[3] == 0x46
}

/// A binary glTF header whose total-length field (little-endian, bytes 8 to
/// 11) is below the 12 bytes of the header itself. `gltf` subtracts 12 from
/// that field before any check, which overflows on such a header.
pub open spec fn glb_length_underflows(bytes: Seq<u8>) -> bool {
    has_glb_magic(bytes) && bytes.len() >= 12 && bytes[8] < 12 && bytes[9] == 0 && bytes[10] == 0
        && bytes[11] == 0
}

/// A glTF document as `gltf::Gltf::from_slice` reads it: the primitive
/// count of each mesh, in order, and the number of animations; `None` when
/// the bytes are not a glTF document.
pub uninterp spec fn gltf_layout(bytes: Seq<u8>) -> Option<(Seq<usize>, usize)>;

/// Parses `bytes` with `gltf::Gltf::from_slice` and reports, per mesh, how
/// many primitives it has, and how many animations the document has; the
/// contract names the result. A binary header whose length field is below
/// 12 is left out: `Glb::from_slice` overflows on it.
#[verifier::external_body]
fn read_gltf_layout(bytes: &[u8]) -> (r: Option<(Vec<usize>, usize)>)
    requires
        !glb_length_underflows(bytes@),
    ensures
        match gltf_layout(bytes@) {
            Some((meshes, animations)) => r matches Some((m, a)) && m@ == meshes && a == animations,
            None => r is None,
        },
{
    match gltf::Gltf::from_slice(bytes) {
        Ok(document) => Some(
            (
                document.meshes().map(|mesh| mesh.primitives().count()).collect(),
                document.animations().count(),
            ),
        ),
        Err(_) => None,
    }
}

/// The sum of the counts.
pub open spec fn total(counts: Seq<usize>) -> int
    decreases counts.len(),
{
    if counts.len() == 0 {
        0
    } else {
        total(counts.drop_last()) + counts.last()
    }
}

/// The format an asset is reported as: `glb` for the binary glTF magic or
/// a `.glb` name, `gltf` for a `.gltf` name, otherwise its lowercase
/// extension, or `binary` without one.
pub open spec fn asset_format(bytes: Seq<u8>, path: Seq<char>) -> Seq<char> {
    let ext = lowercase_extension(path);
    if has_glb_magic(bytes) || ext == "glb"@ {
        "glb"@
    } else if ext == "gltf"@ {
        "gltf"@
    } else if ext.len() == 0 {
        "binary"@
    } else {
        ext
    }
}

/// The asset is read as a glTF document.
pub open spec fn is_gltf_asset(bytes: Seq<u8>, path: Seq<char>) -> bool {
    let ext = lowercase_extension(path);
    ext == "gltf"@ || ext == "glb"@ || has_glb_magic(bytes)
}

/// Makes ASCII letters lowercase.
fn ascii_lowercase_exec(s: &Vec<char>) -> (r: Vec<char>)
    ensures
        r@ == ascii_lowercase(s@),
{
    let mut out: Vec<char> = Vec::new();
    let mut k: usize = 0;
    while k < s.len()
        invariant
            k <= s@.len(),
            out@ == ascii_lowercase(s@.take(k as int)),
        decreases s.len() - k,
    {
        let c = s[k];
        let lower = if 'A' <= c && c <= 'Z' {
            ((c as u8) + 32) as char
        } else {
            c
        };
        out.push(lower);
        k = k + 1;
        proof {
            assert(out@ =~= ascii_lowercase(s@.take(k as int)));
        }
    }
    proof {
        assert(s@.take(s@.len() as int) =~= s@);
    }
    out
}

/// The characters equal the given text.
fn chars_equal(a: &Vec<char>, b: &str) -> (r: bool)
    ensures
        r == (a@ == b@),
{
    let bc = chars_of(b);
    if a.len() != bc.len() {
        return false;
    }
    let mut k: usize = 0;
    while k < a.len()
        invariant
            bc@ == b@,
            a@.len() == bc@.len(),
            k <= a@.len(),
            forall|j: int| 0 <= j < k ==> a@[j] == bc@[j],
        decreases a.len() - k,
    {
        if a[k] != bc[k] {
            return false;
        }
        k = k + 1;
    }
    assert(a@ =~= bc@);
    true
}

/// The lowercase extension of a path, empty without one.
pub fn lowercase_extension_of(path: &str) -> (r: Vec<char>)
    ensures
        r@ == lowercase_extension(path@),
{
    match extension_text(path) {
        Some(e) => ascii_lowercase_exec(&chars_of(e.as_str())),
        None => Vec::new(),
    }
}

/// The primitive total is the sum of the per-mesh counts: nothing for no
/// meshes, and one more mesh adds exactly its count.
pub proof fn law_primitive_total_is_sum(counts: Seq<usize>, c: usize)
    ensures
        total(Seq::<usize>::empty()) == 0,
        total(counts.push(c)) == total(counts) + c,
{
    assert(counts.push(c).drop_last() =~= counts);
}

/// Sums primitive counts; `None` when the sum does not fit `usize`.
fn sum_counts(counts: &Vec<usize>) -> (r: Option<usize>)
    ensures
        match r {
            Some(n) => n == total(counts@),
            None => total(counts@) > usize::MAX,
        },
{
    let mut sum: usize = 0;
    let mut k: usize = 0;
    while k < counts.len()
        invariant
            k <= counts@.len(),
            sum == total(counts@.take(k as int)),
        decreases counts.len() - k,
    {
        proof {
            assert(counts@.take(k + 1).drop_last() =~= counts@.take(k as int));
        }
        match sum.checked_add(counts[k]) {
            Some(s) => sum = s,
            None => {
                proof {
                    lemma_total_prefix(counts@, k + 1);
                }
                return None;
            },
        }
        k = k + 1;
    }
    proof {
        assert(counts@.take(counts@.len() as int) =~= counts@);
    }
    Some(sum)
}

/// A total never shrinks as the sequence grows.
proof fn lemma_total_prefix(counts: Seq<usize>, j: int)
    requires
        0 <= j <= counts.len(),
    ensures
        total(counts.take(j)) <= total(counts),
    decreases counts.len() - j,
{
    if j < counts.len() {
        lemma_total_prefix(counts, j + 1);
        assert(counts.take(j + 1).drop_last() =~= counts.take(j));
    } else {
        assert(counts.take(j) =~= counts);
    }
}

/// Reads an asset's format, and for glTF assets the mesh, primitive and
/// animation counts (zero for other assets). Refused when a glTF asset
/// does not parse, a binary header that declares fewer bytes than the
/// header itself among them.
pub fn inspect_asset(bytes: &[u8], path: &str) -> (r: Result<InspectedAsset, AssetError>)
    ensures
        !is_gltf_asset(bytes@, path@) ==> (r matches Ok(a) && a.format@ == asset_format(bytes@, path@)
            && a.mesh_count == 0 && a.primitive_count == 0 && a.animation_count == 0),
        is_gltf_asset(bytes@, path@) && glb_length_underflows(bytes@) ==> r
            == Err::<InspectedAsset, AssetError>(AssetError::InvalidGltf),
        is_gltf_asset(bytes@, path@) && !glb_length_underflows(bytes@) ==> match gltf_layout(bytes@) {
            None => r == Err::<InspectedAsset, AssetError>(AssetError::InvalidGltf),
            Some((meshes, animations)) => if total(meshes) <= usize::MAX {
                r matches Ok(a) && a.format@ == asset_format(bytes@, path@) && a.mesh_count
                    == meshes.len() && a.primitive_count == total(meshes) && a.animation_count
                    == animations
            } else {
                r == Err::<InspectedAsset, AssetError>(AssetError::TooManyPrimitives)
            },
        },
{
    let ext = lowercase_extension_of(path);
    let is_glb = bytes.len() >= 4 && bytes[0] == 0x67 && bytes[1] == 0x6c && bytes[2] == 0x54
        && bytes[3] == 0x46;
    let ext_gltf = chars_equal(&ext, "gltf");
    let ext_glb = chars_equal(&ext, "glb");
    if ext_gltf || ext_glb || is_glb {
        if is_glb && bytes.len() >= 12 && bytes[8] < 12 && bytes[9] == 0 && bytes[10] == 0
            && bytes[11] == 0 {
            return Err(AssetError::InvalidGltf);
        }
        let (meshes, animations) = match read_gltf_layout(bytes) {
            Some(layout) => layout,
            None => return Err(AssetError::InvalidGltf),
        };
        let primitive_count = match sum_counts(&meshes) {
            Some(n) => n,
            None => return Err(AssetError::TooManyPrimitives),
        };
        let format = if is_glb || ext_glb {
            "glb".to_string()
        } else {
            "gltf".to_string()
        };
        Ok(
            InspectedAsset {
                format,
                mesh_count: meshes.len(),
                primitive_count,
                animation_count: animations,
            },
        )
    } else {
        let format = if ext.len() == 0 {
            "binary".to_string()
        } else {
            string_from_chars(&ext)
        };
        Ok(InspectedAsset { format, mesh_count: 0, primitive_count: 0, animation_count: 0 })
    }
}

/// `s` with every `\` made `/`.
pub open spec fn forward_slashes(s: Seq<char>) -> Seq<char> {
    s.map_values(|c: char| if c == '\\' { '/' } else { c })
}

/// The metadata of an asset loaded from a validated relative path: the
/// path with `/` separators, the mapped length, and what `inspect_asset`
/// found.
pub fn asset_metadata(relative_path: &str, byte_length: usize, inspected: InspectedAsset) -> (r:
    AssetMetadata)
    ensures
        r.relative_path@ == forward_slashes(relative_path@),
        r.byte_length == byte_length,
        r.format == inspected.format,
        r.mesh_count == inspected.mesh_count,
        r.primitive_count == inspected.primitive_count,
        r.animation_count == inspected.animation_count,
{
    let p = chars_of(relative_path);
    let mut out: Vec<char> = Vec::new();
    let mut k: usize = 0;
    while k < p.len()
        invariant
            k <= p@.len(),
            out@ == forward_slashes(p@.take(k as int)),
        decreases p.len() - k,
    {
        let c = p[k];
        out.push(if c == '\\' { '/' } else { c });
        k = k + 1;
        proof {
            assert(out@ =~= forward_slashes(p@.take(k as int)));
        }
    }
    proof {
        assert(p@.take(p@.len() as int) =~= p@);
    }
    AssetMetadata {
        relative_path: string_from_chars(&out),
        byte_length,
        format: inspected.format,
        mesh_count: inspected.mesh_count,
        primitive_count: inspected.primitive_count,
        animation_count: inspected.animation_count,
    }
}

/// Checks an asset path relative to the project: refused as
/// `validate_relative_path` refuses.
pub fn validate_asset_path(relative_path: &str) -> (r: Result<String, AssetError>)
    ensures
        match crate::paths::asset_path_verdict(relative_path@) {
            Ok(p) => r matches Ok(v) && v@ == p,
            Err(e) => r == Err::<String, AssetError>(AssetError::InvalidPath(e)),
        },
{
    match validate_relative_path(relative_path) {
        Ok(p) => Ok(p),
        Err(e) => Err(AssetError::InvalidPath(e)),
    }
}

/// The index buffer of a decoded primitive with `position_count` positions:
/// its own indices, or `0, 1, 2, ...` when it has none (counting in `u32`,
/// as the renderer does). Refused below three positions.
pub fn geometry_indices(position_count: usize, indices: Option<Vec<u32>>) -> (r: Result<Vec<u32>, AssetError>)
    ensures
        position_count < 3 ==> r == Err::<Vec<u32>, AssetError>(AssetError::TooFewPositions),
        position_count >= 3 ==> (r matches Ok(out) && match indices {
            Some(given) => out@ == given@,
            None => out@.len() == (position_count as u32) && forall|k: int|
                0 <= k < out@.len() ==> out@[k] == k,
        }),
{
    if position_count < 3 {
        return Err(AssetError::TooFewPositions);
    }
    match indices {
        Some(given) => Ok(given),
        None => {
            let n: u32 = position_count as u32;
            let mut out: Vec<u32> = Vec::new();
            let mut k: u32 = 0;
            while k < n
                invariant
                    k <= n,
                    n == position_count as u32,
                    out@.len() == k,
                    forall|j: int| 0 <= j < k ==> out@[j] == j,
                decreases n - k,
            {
                out.push(k);
                k = k + 1;
            }
            Ok(out)
        },
    }
}

/// The assets of one project: every asset path is a validated relative
/// path under the project's canonical directory.
#[derive(Debug)]
pub struct AssetStore {
    root: String,
}

impl AssetStore {
    /// The project directory.
    pub closed spec fn root(&self) -> Seq<char> {
        self.root@
    }

    /// The assets of the project at `root`, the canonical path of its
    /// directory.
    pub fn new(root: String) -> (r: Self)
        ensures
            r.root() == root@,
    {
        AssetStore { root }
    }

    /// The project directory.
    pub fn root_path(&self) -> (r: &String)
        ensures
            r@ == self.root(),
    {
        &self.root
    }

    /// `r` is what making `path` canonical gives when `canonicalize`
    /// answers as it did: the canonical path, refused when it lies outside
    /// `root`.
    pub open spec fn canonical_answer<F: Fn(&str) -> Option<String>>(
        root: Seq<char>,
        canonicalize: F,
        path: Seq<char>,
        r: Result<Seq<char>, AssetError>,
    ) -> bool {
        exists|canonical: Option<Seq<char>>|
            #[trigger] read_answered(canonicalize, path, canonical) && match canonical {
                None => r == Err::<Seq<char>, AssetError>(AssetError::Missing),
                Some(c) => if path_starts_with(c, root) {
                    r == Ok::<Seq<char>, AssetError>(c)
                } else {
                    r == Err::<Seq<char>, AssetError>(AssetError::EscapesRoot)
                },
            }
    }

    /// Whatever the host answers, an asset path that resolves lies inside
    /// the project root.
    pub proof fn law_resolved_assets_stay_inside_root<F: Fn(&str) -> Option<String>>(
        root: Seq<char>,
        canonicalize: F,
        path: Seq<char>,
        asset: Seq<char>,
    )
        requires
            Self::canonical_answer(root, canonicalize, path, Ok(asset)),
        ensures
            path_starts_with(asset, root),
    {
    }

    /// The canonical path of the asset at `relative_path`: the validated
    /// path joined to the project directory and made canonical by
    /// `canonicalize` (the host's file system, which answers `None` for a
    /// path that does not exist); refused when it leaves the project
    /// directory.
    pub fn resolve_path<F: Fn(&str) -> Option<String>>(&self, relative_path: &str, canonicalize: &F) -> (r:
        Result<String, AssetError>)
        requires
            forall|s: &str| #[trigger] canonicalize.requires((s,)),
        ensures
            match crate::paths::asset_path_verdict(relative_path@) {
                Err(e) => r == Err::<String, AssetError>(AssetError::InvalidPath(e)),
                Ok(relative) => Self::canonical_answer(
                    self.root(),
                    *canonicalize,
                    path_joined(self.root(), relative),
                    match r {
                        Ok(p) => Ok(p@),
                        Err(e) => Err(e),
                    },
                ),
            },
    {
        let relative = match validate_asset_path(relative_path) {
            Ok(p) => p,
            Err(e) => return Err(e),
        };
        let path = join_components(self.root.as_str(), relative.as_str());
        let query = path.as_str();
        let answer = canonicalize(query);
        let ghost answer_view = opt_text(answer);
        proof {
            assert(read_answered(*canonicalize, path@, answer_view));
        }
        match answer {
            None => Err(AssetError::Missing),
            Some(canonical) => if starts_with_components(canonical.as_str(), self.root.as_str()) {
                Ok(canonical)
            } else {
                Err(AssetError::EscapesRoot)
            },
        }
    }
}

} // verus!
