//! State shared between the JavaScript bridge and the renderer: the texture
//! registry, the shape rules of geometry uploads and the keyboard/mouse
//! button state.
use vstd::prelude::*;
use std::collections::{HashMap, HashSet};
use std::sync::{Arc, Mutex};
use vstd::hash_set::StringHashSet;

verus! {

broadcast use vstd::std_specs::hash::group_hash_axioms;

/// Built-in primitive shapes of the native renderer.
#[derive(Debug, Clone, Copy, PartialEq, Eq, Structural)]
pub enum GeometryKind {
    Cube,
    Plane,
    Sphere,
}

/// An RGBA8 texture upload.
#[derive(Debug, Clone)]
pub struct TextureData {
    pub width: u32,
    pub height: u32,
    pub rgba8: Vec<u8>,
}

/// Contents of a texture, as plain values.
pub struct TextureModel {
    pub width: u32,
    pub height: u32,
    pub rgba8: Seq<u8>,
}

impl View for TextureData {
    type V = TextureModel;

    open spec fn view(&self) -> TextureModel {
        TextureModel { width: self.width, height: self.height, rgba8: self.rgba8@ }
    }
}

/// Why a texture upload was refused.
#[derive(Debug, Clone, Copy, PartialEq, Eq, Structural)]
pub enum TextureUploadError {
    /// Width or height is zero.
    EmptyDimensions,
    /// The pixel data is not `width * height` RGBA8 pixels.
    NotRgba8,
}

/// The refusal, if any, of an upload of `len` bytes of `width` x `height`.
pub open spec fn texture_upload_verdict(width: u32, height: u32, len: nat) -> Option<
    TextureUploadError,
> {
    if width == 0 || height == 0 {
        Some(TextureUploadError::EmptyDimensions)
    } else if len != width * height * 4 {
        Some(TextureUploadError::NotRgba8)
    } else {
        None
    }
}

/// An upload is accepted exactly when both dimensions are non-zero and its
/// data holds `width * height * 4` bytes (one RGBA8 pixel per four bytes);
/// any other length, shorter or longer, is refused as not RGBA8.
pub proof fn law_texture_upload_accepts_exact_rgba8(width: u32, height: u32, len: nat)
    ensures
        texture_upload_verdict(width, height, len) is None <==> width > 0 && height > 0 && len == width
            * height * 4,
        width > 0 && height > 0 && len != width * height * 4 ==> texture_upload_verdict(width, height, len)
            == Some(TextureUploadError::NotRgba8),
{
}

/// Textures registered by the JavaScript bridge, by texture id.
#[derive(Debug)]
pub struct TextureRegistry {
    textures: HashMap<u64, Arc<TextureData>>,
}

/// Shares a registered texture (`Arc::clone`): the copy is the same value.
#[verifier::external_body]
fn share_texture(texture: &Arc<TextureData>) -> (r: Arc<TextureData>)
    ensures
        r == *texture,
{
    texture.clone()
}

fn same_texture(a: &TextureData, b: &TextureData) -> (r: bool)
    ensures
        r == (a@ == b@),
{
    if a.width != b.width || a.height != b.height || a.rgba8.len() != b.rgba8.len() {
        return false;
    }
    let mut i: usize = 0;
    while i < a.rgba8.len()
        invariant
            a.rgba8@.len() == b.rgba8@.len(),
            i <= a.rgba8.len(),
            forall|k: int| 0 <= k < i ==> a.rgba8@[k] == b.rgba8@[k],
        decreases a.rgba8.len() - i,
    {
        if a.rgba8[i] != b.rgba8[i] {
            return false;
        }
        i = i + 1;
    }
    assert(a.rgba8@ =~= b.rgba8@);
    true
}

#[verifier::external_type_specification]
#[verifier::external_body]
#[verifier::reject_recursive_types(T)]
pub struct ExMutex<T: ?Sized>(Mutex<T>);

/// Puts a value behind a lock (`Mutex::new`); the locked value is not
/// visible to the library's contracts.
#[verifier::external_body]
fn new_mutex<T>(value: T) -> Mutex<T> {
    Mutex::new(value)
}

/// The textures a locked texture registry holds, as plain values.
pub uninterp spec fn locked_textures(lock: Mutex<TextureRegistry>) -> Map<u64, TextureModel>;

/// Puts a texture registry behind a lock (`Mutex::new`); the contract
/// names what the new lock holds: the registry's textures. Later changes
/// made through the lock are not stated (the library never locks it).
#[verifier::external_body]
fn lock_textures(registry: TextureRegistry) -> (r: Mutex<TextureRegistry>)
    ensures
        locked_textures(r) == registry.textures(),
{
    Mutex::new(registry)
}

impl Default for TextureRegistry {
    /// An empty registry.
    fn default() -> (r: Self)
        ensures
            r.textures() == Map::<u64, TextureModel>::empty(),
    {
        TextureRegistry::new()
    }
}

impl TextureRegistry {
    /// An empty registry behind a lock, shared by the script runtime and
    /// the renderer.
    pub fn shared() -> (r: Arc<Mutex<TextureRegistry>>)
        ensures
            locked_textures(*r) == Map::<u64, TextureModel>::empty(),
    {
        Arc::new(lock_textures(TextureRegistry::new()))
    }

    /// The registered textures, by id.
    pub closed spec fn textures(&self) -> Map<u64, TextureModel> {
        Map::new(
            |id: u64| self.textures@.contains_key(id),
            |id: u64| self.textures@[id]@,
        )
    }

    /// An empty registry.
    pub fn new() -> (r: Self)
        ensures
            r.textures() == Map::<u64, TextureModel>::empty(),
    {
        let r = TextureRegistry { textures: HashMap::new() };
        assert(r.textures() =~= Map::<u64, TextureModel>::empty());
        r
    }

    /// Registers (or replaces) texture `texture_id`. Refused, leaving the
    /// registry unchanged, when a dimension is zero or the data is not
    /// exactly `width * height` RGBA8 pixels.
    pub fn register(&mut self, texture_id: u64, width: u32, height: u32, rgba8: Vec<u8>) -> (r:
        Result<(), TextureUploadError>)
        ensures
            texture_upload_verdict(width, height, rgba8@.len()) matches Some(e) ==> r == Err::<
                (),
                TextureUploadError,
            >(e) && final(self).textures() == old(self).textures(),
            texture_upload_verdict(width, height, rgba8@.len()) is None ==> r is Ok
                && final(self).textures() == old(self).textures().insert(
                texture_id,
                TextureModel { width, height, rgba8: rgba8@ },
            ),
            r is Ok <==> width > 0 && height > 0 && rgba8@.len() == width * height * 4,
    {
        if width == 0 || height == 0 {
            return Err(TextureUploadError::EmptyDimensions);
        }
        assert((width as u64) * (height as u64) <= 0xffff_fffe_0000_0001u64) by (nonlinear_arith)
            requires
                width <= 0xffff_ffffu32,
                height <= 0xffff_ffffu32,
        ;
        let pixels = (width as u64) * (height as u64);
        let expected: Option<usize> = if pixels <= (usize::MAX as u64) / 4 {
            Some((pixels as usize) * 4)
        } else {
            None
        };
        match expected {
            Some(n) => {
                if rgba8.len() != n {
                    return Err(TextureUploadError::NotRgba8);
                }
            },
            None => {
                let len = rgba8.len();
                assert(len == rgba8@.len());
                return Err(TextureUploadError::NotRgba8);
            },
        }
        let texture = TextureData { width, height, rgba8 };
        let unchanged = match self.textures.get(&texture_id) {
            Some(existing) => same_texture(existing, &texture),
            None => false,
        };
        if !unchanged {
            self.textures.insert(texture_id, Arc::new(texture));
        }
        assert(final(self).textures() =~= old(self).textures().insert(
            texture_id,
            TextureModel { width, height, rgba8: texture.rgba8@ },
        ));
        Ok(())
    }

    /// The texture registered under `texture_id`, if any.
    pub fn get(&self, texture_id: u64) -> (r: Option<Arc<TextureData>>)
        ensures
            r is Some <==> self.textures().contains_key(texture_id),
            r matches Some(t) ==> t@ == self.textures()[texture_id],
    {
        match self.textures.get(&texture_id) {
            Some(t) => Some(share_texture(t)),
            None => None,
        }
    }
}


/// Why a geometry upload was refused.
#[derive(Debug, Clone, Copy, PartialEq, Eq, Structural)]
pub enum GeometryUploadError {
    /// Fewer than three positions.
    TooFewVertices,
    /// The index list is not a non-empty list of whole triangles.
    IncompleteTriangles,
    /// An index does not name a position.
    IndexOutOfRange,
    /// A non-empty UV attribute does not have one entry per position.
    UvCountMismatch,
    /// A non-empty normal attribute does not have one entry per position.
    NormalCountMismatch,
}

/// The refusal, if any, of a geometry with `positions` vertices, the given
/// indices and `normals` / `uvs` attribute entries, in the order the checks
/// are made.
pub open spec fn geometry_upload_verdict(
    positions: nat,
    indices: Seq<u32>,
    normals: nat,
    uvs: nat,
) -> Option<GeometryUploadError> {
    if positions < 3 {
        Some(GeometryUploadError::TooFewVertices)
    } else if indices.len() < 3 || indices.len() % 3 != 0 {
        Some(GeometryUploadError::IncompleteTriangles)
    } else if exists|i: int| 0 <= i < indices.len() && indices[i] >= positions {
        Some(GeometryUploadError::IndexOutOfRange)
    } else if uvs != 0 && uvs != positions {
        Some(GeometryUploadError::UvCountMismatch)
    } else if normals != 0 && normals != positions {
        Some(GeometryUploadError::NormalCountMismatch)
    } else {
        None
    }
}

/// Checks the shape of a geometry upload (vertex count, whole triangles,
/// indices in range, per-vertex attribute counts).
pub fn check_geometry_shape(
    position_count: usize,
    indices: &Vec<u32>,
    normal_count: usize,
    uv_count: usize,
) -> (r: Result<(), GeometryUploadError>)
    ensures
        match geometry_upload_verdict(position_count as nat, indices@, normal_count as nat, uv_count as nat) {
            Some(e) => r == Err::<(), GeometryUploadError>(e),
            None => r is Ok,
        },
{
    if position_count < 3 {
        return Err(GeometryUploadError::TooFewVertices);
    }
    if indices.len() < 3 || indices.len() % 3 != 0 {
        return Err(GeometryUploadError::IncompleteTriangles);
    }
    let mut i: usize = 0;
    while i < indices.len()
        invariant
            position_count >= 3,
            indices@.len() >= 3 && indices@.len() % 3 == 0,
            i <= indices.len(),
            forall|k: int| 0 <= k < i ==> indices@[k] < position_count,
        decreases indices.len() - i,
    {
        if indices[i] as usize >= position_count {
            assert(indices@[i as int] >= position_count);
            assert(exists|k: int| 0 <= k < indices@.len() && indices@[k] >= position_count as nat);
            return Err(GeometryUploadError::IndexOutOfRange);
        }
        i = i + 1;
    }
    if uv_count != 0 && uv_count != position_count {
        return Err(GeometryUploadError::UvCountMismatch);
    }
    if normal_count != 0 && normal_count != position_count {
        return Err(GeometryUploadError::NormalCountMismatch);
    }
    Ok(())
}

/// A registered geometry: vertex positions, triangle indices, per-vertex
/// normals and optional per-vertex texture coordinates.
#[derive(Debug)]
pub struct GeometryData<V, T> {
    pub positions: Vec<V>,
    pub indices: Vec<u32>,
    pub normals: Vec<V>,
    pub uvs: Vec<T>,
}

/// Geometries registered by the JavaScript bridge, by geometry id.
#[derive(Debug)]
pub struct GeometryRegistry<V, T> {
    geometries: HashMap<u64, Arc<GeometryData<V, T>>>,
}

/// Shares a registered geometry (`Arc::clone`): the copy is the same value.
#[verifier::external_body]
fn share_geometry<V, T>(geometry: &Arc<GeometryData<V, T>>) -> (r: Arc<GeometryData<V, T>>)
    ensures
        r == *geometry,
{
    geometry.clone()
}

impl<V, T> GeometryRegistry<V, T> {
    /// An empty registry behind a lock, shared by the script runtime and
    /// the renderer.
    pub fn shared() -> Arc<Mutex<GeometryRegistry<V, T>>> {
        Arc::new(new_mutex(GeometryRegistry::new()))
    }

    /// The registered geometries, by id.
    pub closed spec fn geometries(&self) -> Map<u64, GeometryData<V, T>> {
        Map::new(|id: u64| self.geometries@.contains_key(id), |id: u64| *self.geometries@[id])
    }

    /// An empty registry.
    pub fn new() -> (r: Self)
        ensures
            r.geometries() == Map::<u64, GeometryData<V, T>>::empty(),
    {
        let r = GeometryRegistry { geometries: HashMap::new() };
        assert(r.geometries() =~= Map::<u64, GeometryData<V, T>>::empty());
        r
    }

    /// Registers (or replaces) geometry `geometry_id` after checking its
    /// shape with `check_geometry_shape`; a refused upload leaves the
    /// registry unchanged. When no normals are given, the stored normals are
    /// those `generate_normals` computes from the positions and indices.
    pub fn register<F: FnOnce(&Vec<V>, &Vec<u32>) -> Vec<V>>(
        &mut self,
        geometry_id: u64,
        positions: Vec<V>,
        indices: Vec<u32>,
        normals: Vec<V>,
        uvs: Vec<T>,
        generate_normals: F,
    ) -> (r: Result<(), GeometryUploadError>)
        requires
            normals@.len() == 0 ==> generate_normals.requires((&positions, &indices)),
        ensures
            geometry_upload_verdict(positions@.len(), indices@, normals@.len(), uvs@.len()) matches Some(e)
                ==> r == Err::<(), GeometryUploadError>(e) && final(self).geometries() == old(
                self,
            ).geometries(),
            geometry_upload_verdict(positions@.len(), indices@, normals@.len(), uvs@.len()) is None
                ==> r is Ok && final(self).geometries().dom() == old(self).geometries().dom().insert(
                geometry_id,
            ) && (forall|id: u64|
                id != geometry_id && #[trigger] old(self).geometries().contains_key(id)
                    ==> final(self).geometries()[id] == old(self).geometries()[id]) && ({
                let g = final(self).geometries()[geometry_id];
                &&& g.positions@ == positions@
                &&& g.indices@ == indices@
                &&& g.uvs@ == uvs@
                &&& normals@.len() != 0 ==> g.normals@ == normals@
                &&& normals@.len() == 0 ==> generate_normals.ensures(
                    (&positions, &indices),
                    g.normals,
                )
            }),
    {
        match check_geometry_shape(positions.len(), &indices, normals.len(), uvs.len()) {
            Err(e) => {
                return Err(e);
            },
            Ok(()) => {},
        }
        let normals = if normals.len() == 0 {
            generate_normals(&positions, &indices)
        } else {
            normals
        };
        let geometry = GeometryData { positions, indices, normals, uvs };
        self.geometries.insert(geometry_id, Arc::new(geometry));
        assert(final(self).geometries().dom() =~= old(self).geometries().dom().insert(geometry_id));
        Ok(())
    }

    /// The geometry registered under `geometry_id`, if any.
    pub fn get(&self, geometry_id: u64) -> (r: Option<Arc<GeometryData<V, T>>>)
        ensures
            r is Some <==> self.geometries().contains_key(geometry_id),
            r matches Some(g) ==> *g == self.geometries()[geometry_id],
    {
        match self.geometries.get(&geometry_id) {
            Some(g) => Some(share_geometry(g)),
            None => None,
        }
    }
}

/// Reading a texture back gives what was last registered under its id,
/// and registering one texture leaves every other id as it was: this holds
/// of any two registries related as a successful `register` relates them.
pub proof fn law_texture_read_after_write(
    before: TextureRegistry,
    after: TextureRegistry,
    texture_id: u64,
    width: u32,
    height: u32,
    rgba8: Seq<u8>,
)
    requires
        texture_upload_verdict(width, height, rgba8.len()) is None,
        after.textures() == before.textures().insert(texture_id, TextureModel { width, height, rgba8 }),
    ensures
        after.textures().contains_key(texture_id),
        after.textures()[texture_id] == (TextureModel { width, height, rgba8 }),
        forall|id: u64|
            id != texture_id ==> (#[trigger] after.textures().contains_key(id) <==> before.textures().contains_key(
                id,
            )),
        forall|id: u64|
            id != texture_id && before.textures().contains_key(id) ==> #[trigger] after.textures()[id]
                == before.textures()[id],
{
}

/// Keyboard and mouse state fed by window events and read by scripts.
/// `C` is the coordinate type of the mouse position, which is stored and
/// handed back unchanged.
pub struct NativeInputState<C> {
    pressed_keys: StringHashSet,
    mouse_buttons: HashSet<u8>,
    mouse_position: [C; 2],
}

impl<C: Copy + Default> Default for NativeInputState<C> {
    /// No key or button held, the mouse at the coordinate type's default
    /// (the origin for numbers).
    fn default() -> (r: Self)
        ensures
            r.keys_down() == Set::<Seq<char>>::empty(),
            r.buttons_down() == Set::<u8>::empty(),
    {
        NativeInputState::new([C::default(), C::default()])
    }
}

impl<C: Copy + Default> NativeInputState<C> {
    /// A default input state behind a lock, shared by the window loop and
    /// the script runtime.
    pub fn shared() -> Arc<Mutex<NativeInputState<C>>> {
        Arc::new(new_mutex(NativeInputState::default()))
    }
}

impl<C: Copy> NativeInputState<C> {
    /// Codes of the keys held down.
    pub closed spec fn keys_down(&self) -> Set<Seq<char>> {
        self.pressed_keys@
    }

    /// Mouse buttons held down.
    pub closed spec fn buttons_down(&self) -> Set<u8> {
        self.mouse_buttons@
    }

    /// Last reported mouse position.
    pub closed spec fn position(&self) -> [C; 2] {
        self.mouse_position
    }

    /// No key or button held, the mouse at `origin`.
    pub fn new(origin: [C; 2]) -> (r: Self)
        ensures
            r.keys_down() == Set::<Seq<char>>::empty(),
            r.buttons_down() == Set::<u8>::empty(),
            r.position() == origin,
    {
        NativeInputState {
            pressed_keys: StringHashSet::new(),
            mouse_buttons: HashSet::new(),
            mouse_position: origin,
        }
    }

    /// Records key `code` as pressed or released.
    pub fn set_key(&mut self, code: String, pressed: bool)
        ensures
            final(self).keys_down() == if pressed {
                old(self).keys_down().insert(code@)
            } else {
                old(self).keys_down().remove(code@)
            },
            final(self).buttons_down() == old(self).buttons_down(),
            final(self).position() == old(self).position(),
    {
        if pressed {
            self.pressed_keys.insert(code);
        } else {
            self.pressed_keys.remove(code.as_str());
        }
    }

    /// Key `code` is held down.
    pub fn is_key_down(&self, code: &str) -> (r: bool)
        ensures
            r == self.keys_down().contains(code@),
    {
        self.pressed_keys.contains(code)
    }

    /// Releases every key and mouse button (the window lost focus).
    pub fn clear(&mut self)
        ensures
            final(self).keys_down() == Set::<Seq<char>>::empty(),
            final(self).buttons_down() == Set::<u8>::empty(),
            final(self).position() == old(self).position(),
    {
        self.pressed_keys.clear();
        self.mouse_buttons.clear();
    }

    /// Records mouse button `button` as pressed or released.
    pub fn set_mouse_button(&mut self, button: u8, pressed: bool)
        ensures
            final(self).buttons_down() == if pressed {
                old(self).buttons_down().insert(button)
            } else {
                old(self).buttons_down().remove(button)
            },
            final(self).keys_down() == old(self).keys_down(),
            final(self).position() == old(self).position(),
    {
        if pressed {
            self.mouse_buttons.insert(button);
        } else {
            self.mouse_buttons.remove(&button);
        }
    }

    /// Mouse button `button` is held down.
    pub fn is_mouse_button_down(&self, button: u8) -> (r: bool)
        ensures
            r == self.buttons_down().contains(button),
    {
        self.mouse_buttons.contains(&button)
    }

    /// Records the mouse position.
    pub fn set_mouse_position(&mut self, x: C, y: C)
        ensures
            final(self).position() == [x, y],
            final(self).keys_down() == old(self).keys_down(),
            final(self).buttons_down() == old(self).buttons_down(),
    {
        self.mouse_position = [x, y];
    }

    /// Last recorded mouse position.
    pub fn mouse_position(&self) -> (r: [C; 2])
        ensures
            r == self.position(),
    {
        self.mouse_position
    }
}

/// Reading a geometry back gives the positions, indices and UVs last
/// registered under its id, and registering one geometry leaves every
/// other id as it was: this holds of any two registries related as a
/// successful `register` relates them.
pub proof fn law_geometry_read_after_write<V, T>(
    before: GeometryRegistry<V, T>,
    after: GeometryRegistry<V, T>,
    geometry_id: u64,
    positions: Seq<V>,
    indices: Seq<u32>,
    uvs: Seq<T>,
)
    requires
        after.geometries().dom() == before.geometries().dom().insert(geometry_id),
        forall|id: u64|
            id != geometry_id && #[trigger] before.geometries().contains_key(id) ==> after.geometries()[id]
                == before.geometries()[id],
        after.geometries()[geometry_id].positions@ == positions,
        after.geometries()[geometry_id].indices@ == indices,
        after.geometries()[geometry_id].uvs@ == uvs,
    ensures
        after.geometries().contains_key(geometry_id),
        after.geometries()[geometry_id].positions@ == positions,
        after.geometries()[geometry_id].indices@ == indices,
        after.geometries()[geometry_id].uvs@ == uvs,
        forall|id: u64|
            id != geometry_id ==> (#[trigger] after.geometries().contains_key(id) <==> before.geometries().contains_key(
                id,
            )),
        forall|id: u64|
            id != geometry_id && before.geometries().contains_key(id) ==> #[trigger] after.geometries()[id]
                == before.geometries()[id],
{
}

/// A key reads back as last recorded (held after a press, not after a
/// release), and recording one key changes no other key.
pub proof fn law_key_reads_back<C: Copy>(
    before: NativeInputState<C>,
    after: NativeInputState<C>,
    code: Seq<char>,
    pressed: bool,
)
    requires
        after.keys_down() == if pressed {
            before.keys_down().insert(code)
        } else {
            before.keys_down().remove(code)
        },
    ensures
        after.keys_down().contains(code) == pressed,
        forall|other: Seq<char>|
            other != code ==> (#[trigger] after.keys_down().contains(other) == before.keys_down().contains(other)),
{
}

/// A mouse button reads back as last recorded, and recording one button
/// changes no other button.
pub proof fn law_mouse_button_reads_back<C: Copy>(
    before: NativeInputState<C>,
    after: NativeInputState<C>,
    button: u8,
    pressed: bool,
)
    requires
        after.buttons_down() == if pressed {
            before.buttons_down().insert(button)
        } else {
            before.buttons_down().remove(button)
        },
    ensures
        after.buttons_down().contains(button) == pressed,
        forall|other: u8|
            other != button ==> (#[trigger] after.buttons_down().contains(other) == before.buttons_down().contains(
                other,
            )),
{
}

} // verus!
