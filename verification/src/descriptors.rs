//! Descriptors of GPU objects that are made from other objects (pipeline
//! layouts, bind groups, render and compute pipelines), read from the JSON
//! scripts pass; the handles inside them are read here and looked up by the
//! host. Also the device features scripts see and the canvas configuration
//! they may ask for.
use vstd::prelude::*;
use serde_json::Value;
use crate::json::{
    as_u64, field, field_present, field_text_or, field_u32_or, field_u64, field_u64_or, json_field, json_items,
    json_shape, present_field, string_field, text_field_or, u32_field_or, u64_field, u64_field_or, JsonShape,
};
use crate::formats::{texture_format, texture_format_named, TextureFormat};
use crate::text::text_eq;
use crate::pipeline::{
    bind_group_layout_entry, color_target_of, color_target_state, depth_stencil_of, depth_stencil_state,
    layout_entry_of, multisample_of, multisample_state, primitive_of, primitive_state, vertex_buffer_layout,
    vertex_layout_error, vertex_layout_of, BindGroupLayoutEntry, ColorTargetState, DepthStencilState,
    MultisampleState, PipelineError, PrimitiveState, VertexBufferLayout,
};

verus! {

/// A descriptor field that must hold a handle.
#[derive(Debug, Clone, Copy, PartialEq, Eq, Structural)]
pub enum HandleField {
    Module,
    Buffer,
    View,
    Sampler,
}

/// Why a descriptor was refused.
#[derive(Debug, Clone, Copy, PartialEq, Eq, Structural)]
pub enum DescriptorError {
    /// A field that must hold an integer handle does not.
    NotAnInteger(HandleField),
    /// A pipeline layout's `bindGroupLayouts` is not an array.
    LayoutsNotArray,
    /// An item of `bindGroupLayouts` is not a handle.
    InvalidLayoutHandle,
    /// A bind group's `layout` is not a handle.
    LayoutNotHandle,
    /// `entries` is not an array.
    EntriesNotArray,
    /// A bind group entry has no `resource`.
    EntryWithoutResource,
    /// A bind group resource of an unknown kind.
    UnsupportedResource,
    /// A render pipeline without `vertex`.
    VertexRequired,
    /// A compute pipeline without `compute`.
    ComputeRequired,
    /// A nested descriptor was refused.
    Pipeline(PipelineError),
}

/// The items of field `key` of `v` when it is an array.
pub open spec fn array_field(v: Value, key: Seq<char>) -> Option<Seq<Value>> {
    match field(v, key) {
        Some(f) => match json_shape(f) {
            JsonShape::Array(items) => Some(items),
            _ => None,
        },
        None => None,
    }
}

/// The items of field `key` of `v`, or none when it is not an array.
pub open spec fn items_or_empty(v: Value, key: Seq<char>) -> Seq<Value> {
    match array_field(v, key) {
        Some(items) => items,
        None => Seq::empty(),
    }
}

/// The array field `key` of `v`.
fn field_items<'a>(v: &'a Value, key: &str) -> (r: Option<&'a Vec<Value>>)
    ensures
        match array_field(*v, key@) {
            Some(items) => r matches Some(a) && a@ == items,
            None => r is None,
        },
{
    match json_field(v, key) {
        Some(f) => json_items(f),
        None => None,
    }
}

/// The integer handle in field `key`, or its refusal naming `which`.
fn handle_field(v: &Value, key: &str, which: HandleField) -> (r: Result<u64, DescriptorError>)
    ensures
        match u64_field(*v, key@) {
            Some(n) => r == Ok::<u64, DescriptorError>(n),
            None => r == Err::<u64, DescriptorError>(DescriptorError::NotAnInteger(which)),
        },
{
    match field_u64(v, key) {
        Some(n) => Ok(n),
        None => Err(DescriptorError::NotAnInteger(which)),
    }
}

/// The bind group layout handles of a pipeline layout, or its refusal.
pub open spec fn layout_handles_of(v: Value) -> Result<Seq<u64>, DescriptorError> {
    match array_field(v, "bindGroupLayouts"@) {
        None => Err(DescriptorError::LayoutsNotArray),
        Some(items) => if forall|k: int| 0 <= k < items.len() ==> (#[trigger] as_u64(items[k])) is Some {
            Ok(items.map_values(|i: Value| as_u64(i)->0))
        } else {
            Err(DescriptorError::InvalidLayoutHandle)
        },
    }
}

/// Reads the bind group layout handles of a pipeline layout descriptor.
pub fn pipeline_layout_handles(descriptor: &Value) -> (r: Result<Vec<u64>, DescriptorError>)
    ensures
        match layout_handles_of(*descriptor) {
            Ok(ids) => r matches Ok(v) && v@ == ids,
            Err(e) => r == Err::<Vec<u64>, DescriptorError>(e),
        },
{
    let items = match field_items(descriptor, "bindGroupLayouts") {
        Some(items) => items,
        None => return Err(DescriptorError::LayoutsNotArray),
    };
    let mut ids: Vec<u64> = Vec::new();
    let mut k: usize = 0;
    while k < items.len()
        invariant
            k <= items@.len(),
            array_field(*descriptor, "bindGroupLayouts"@) == Some(items@),
            forall|j: int| 0 <= j < k ==> (#[trigger] as_u64(items@[j])) is Some,
            ids@ == items@.take(k as int).map_values(|i: Value| as_u64(i)->0),
        decreases items.len() - k,
    {
        match crate::json::json_u64(&items[k]) {
            Some(id) => {
                ids.push(id);
            },
            None => {
                return Err(DescriptorError::InvalidLayoutHandle);
            },
        }
        k = k + 1;
        proof {
            assert(ids@ =~= items@.take(k as int).map_values(|i: Value| as_u64(i)->0));
        }
    }
    proof {
        assert(items@.take(items@.len() as int) =~= items@);
    }
    Ok(ids)
}

/// The first refusal among bind group layout entries, if any.
pub open spec fn first_layout_entry_error(items: Seq<Value>) -> Option<PipelineError>
    decreases items.len(),
{
    if items.len() == 0 {
        None
    } else {
        match first_layout_entry_error(items.drop_last()) {
            Some(e) => Some(e),
            None => match layout_entry_of(items.last()) {
                Err(e) => Some(e),
                Ok(_) => None,
            },
        }
    }
}

/// The entries of a bind group layout, or its refusal: `entries` must be an
/// array, and the first entry refused refuses the layout.
pub open spec fn layout_entries_of(v: Value) -> Result<Seq<BindGroupLayoutEntry>, DescriptorError> {
    match array_field(v, "entries"@) {
        None => Err(DescriptorError::EntriesNotArray),
        Some(items) => match first_layout_entry_error(items) {
            Some(e) => Err(DescriptorError::Pipeline(e)),
            None => Ok(items.map_values(|i: Value| layout_entry_of(i)->Ok_0)),
        },
    }
}

/// Reads the entries of a bind group layout descriptor.
pub fn bind_group_layout_entries(descriptor: &Value) -> (r: Result<Vec<BindGroupLayoutEntry>, DescriptorError>)
    ensures
        match layout_entries_of(*descriptor) {
            Ok(entries) => r matches Ok(v) && v@ == entries,
            Err(e) => r == Err::<Vec<BindGroupLayoutEntry>, DescriptorError>(e),
        },
{
    let items = match field_items(descriptor, "entries") {
        Some(items) => items,
        None => return Err(DescriptorError::EntriesNotArray),
    };
    let mut entries: Vec<BindGroupLayoutEntry> = Vec::new();
    let mut k: usize = 0;
    while k < items.len()
        invariant
            k <= items@.len(),
            array_field(*descriptor, "entries"@) == Some(items@),
            first_layout_entry_error(items@.take(k as int)) is None,
            entries@ == items@.take(k as int).map_values(|i: Value| layout_entry_of(i)->Ok_0),
        decreases items.len() - k,
    {
        proof {
            assert(items@.take(k + 1).drop_last() =~= items@.take(k as int));
            assert(items@.take(k + 1).last() == items@[k as int]);
        }
        match bind_group_layout_entry(&items[k]) {
            Ok(entry) => {
                entries.push(entry);
            },
            Err(e) => {
                proof {
                    lemma_first_layout_error_prefix(items@, k as int + 1);
                }
                return Err(DescriptorError::Pipeline(e));
            },
        }
        k = k + 1;
        proof {
            assert(entries@ =~= items@.take(k as int).map_values(|i: Value| layout_entry_of(i)->Ok_0));
        }
    }
    proof {
        assert(items@.take(items@.len() as int) =~= items@);
    }
    Ok(entries)
}

/// A refusal among the first `n` entries is the first refusal of all of them.
proof fn lemma_first_layout_error_prefix(items: Seq<Value>, n: int)
    requires
        0 <= n <= items.len(),
        first_layout_entry_error(items.take(n)) is Some,
    ensures
        first_layout_entry_error(items) == first_layout_entry_error(items.take(n)),
    decreases items.len(),
{
    if n < items.len() {
        assert(items.drop_last().take(n) =~= items.take(n));
        lemma_first_layout_error_prefix(items.drop_last(), n);
    } else {
        assert(items.take(n) =~= items);
    }
}

/// A resource bound in a bind group, by handle.
#[derive(Debug, Clone, Copy, PartialEq, Eq, Structural)]
pub enum BindingResource {
    /// A range of a buffer: from `offset`, `size` bytes or to its end.
    Buffer { buffer: u64, offset: u64, size: Option<u64> },
    TextureView(u64),
    Sampler(u64),
}

/// One entry of a bind group.
#[derive(Debug, Clone, Copy, PartialEq, Eq, Structural)]
pub struct BindGroupEntry {
    pub binding: u32,
    pub resource: BindingResource,
}

/// A bind group: its layout and entries, by handle.
#[derive(Debug, Clone)]
pub struct BindGroupDescriptor {
    pub layout: u64,
    pub entries: Vec<BindGroupEntry>,
}

/// The resource `v` describes by its `kind`, or its refusal.
pub open spec fn resource_of(v: Value) -> Result<BindingResource, DescriptorError> {
    let kind = string_field(v, "kind"@);
    if kind == Some("buffer"@) {
        match u64_field(v, "buffer"@) {
            None => Err(DescriptorError::NotAnInteger(HandleField::Buffer)),
            Some(buffer) => Ok(
                BindingResource::Buffer {
                    buffer,
                    offset: u64_field_or(v, "offset"@, 0),
                    size: if u64_field_or(v, "size"@, 0) != 0 {
                        Some(u64_field_or(v, "size"@, 0))
                    } else {
                        None
                    },
                },
            ),
        }
    } else if kind == Some("textureView"@) {
        match u64_field(v, "view"@) {
            None => Err(DescriptorError::NotAnInteger(HandleField::View)),
            Some(view) => Ok(BindingResource::TextureView(view)),
        }
    } else if kind == Some("sampler"@) {
        match u64_field(v, "sampler"@) {
            None => Err(DescriptorError::NotAnInteger(HandleField::Sampler)),
            Some(sampler) => Ok(BindingResource::Sampler(sampler)),
        }
    } else {
        Err(DescriptorError::UnsupportedResource)
    }
}

/// The bind group entry `v` describes (binding 0 by default), or its
/// refusal.
pub open spec fn group_entry_of(v: Value) -> Result<BindGroupEntry, DescriptorError> {
    match field(v, "resource"@) {
        None => Err(DescriptorError::EntryWithoutResource),
        Some(resource) => match resource_of(resource) {
            Err(e) => Err(e),
            Ok(r) => Ok(BindGroupEntry { binding: u32_field_or(v, "binding"@, 0), resource: r }),
        },
    }
}

/// The entries of a bind group, in order, or the first refusal.
pub open spec fn group_entries_of(items: Seq<Value>) -> Result<Seq<BindGroupEntry>, DescriptorError>
    decreases items.len(),
{
    if items.len() == 0 {
        Ok(Seq::empty())
    } else {
        match group_entries_of(items.drop_last()) {
            Err(e) => Err(e),
            Ok(prefix) => match group_entry_of(items.last()) {
                Err(e) => Err(e),
                Ok(entry) => Ok(prefix.push(entry)),
            },
        }
    }
}

/// The bind group `v` describes, or its refusal: `layout` must be a
/// handle and `entries` an array.
pub open spec fn bind_group_of(v: Value) -> Result<(u64, Seq<BindGroupEntry>), DescriptorError> {
    match u64_field(v, "layout"@) {
        None => Err(DescriptorError::LayoutNotHandle),
        Some(layout) => match array_field(v, "entries"@) {
            None => Err(DescriptorError::EntriesNotArray),
            Some(items) => match group_entries_of(items) {
                Err(e) => Err(e),
                Ok(entries) => Ok((layout, entries)),
            },
        },
    }
}

/// The text of field `key` is `expected`.
fn field_is(v: &Value, key: &str, expected: &str) -> (r: bool)
    ensures
        r == (string_field(*v, key@) == Some(expected@)),
{
    match crate::json::field_string(v, key) {
        Some(t) => crate::text::text_eq(t.as_str(), expected),
        None => false,
    }
}

/// Reads a bound resource.
fn binding_resource(v: &Value) -> (r: Result<BindingResource, DescriptorError>)
    ensures
        r == resource_of(*v),
{
    if field_is(v, "kind", "buffer") {
        let buffer = match handle_field(v, "buffer", HandleField::Buffer) {
            Ok(b) => b,
            Err(e) => return Err(e),
        };
        let size = field_u64_or(v, "size", 0);
        Ok(
            BindingResource::Buffer {
                buffer,
                offset: field_u64_or(v, "offset", 0),
                size: if size != 0 {
                    Some(size)
                } else {
                    None
                },
            },
        )
    } else if field_is(v, "kind", "textureView") {
        match handle_field(v, "view", HandleField::View) {
            Ok(view) => Ok(BindingResource::TextureView(view)),
            Err(e) => Err(e),
        }
    } else if field_is(v, "kind", "sampler") {
        match handle_field(v, "sampler", HandleField::Sampler) {
            Ok(sampler) => Ok(BindingResource::Sampler(sampler)),
            Err(e) => Err(e),
        }
    } else {
        Err(DescriptorError::UnsupportedResource)
    }
}

/// Reads a bind group entry.
fn bind_group_entry(v: &Value) -> (r: Result<BindGroupEntry, DescriptorError>)
    ensures
        r == group_entry_of(*v),
{
    let resource = match json_field(v, "resource") {
        Some(resource) => resource,
        None => return Err(DescriptorError::EntryWithoutResource),
    };
    match binding_resource(resource) {
        Ok(r) => Ok(BindGroupEntry { binding: field_u32_or(v, "binding", 0), resource: r }),
        Err(e) => Err(e),
    }
}

/// An error among the first `n` items is the first error of all of them.
proof fn lemma_group_entries_prefix(items: Seq<Value>, n: int)
    requires
        0 <= n <= items.len(),
        group_entries_of(items.take(n)) is Err,
    ensures
        group_entries_of(items) == group_entries_of(items.take(n)),
    decreases items.len(),
{
    if n < items.len() {
        assert(items.drop_last().take(n) =~= items.take(n));
        lemma_group_entries_prefix(items.drop_last(), n);
    } else {
        assert(items.take(n) =~= items);
    }
}

/// Reads a bind group descriptor.
pub fn bind_group_descriptor(descriptor: &Value) -> (r: Result<BindGroupDescriptor, DescriptorError>)
    ensures
        match bind_group_of(*descriptor) {
            Ok((layout, entries)) => r matches Ok(d) && d.layout == layout && d.entries@ == entries,
            Err(e) => r matches Err(x) && x == e,
        },
{
    let layout = match field_u64(descriptor, "layout") {
        Some(l) => l,
        None => return Err(DescriptorError::LayoutNotHandle),
    };
    let items = match field_items(descriptor, "entries") {
        Some(items) => items,
        None => return Err(DescriptorError::EntriesNotArray),
    };
    let mut entries: Vec<BindGroupEntry> = Vec::new();
    let mut k: usize = 0;
    while k < items.len()
        invariant
            k <= items@.len(),
            array_field(*descriptor, "entries"@) == Some(items@),
            u64_field(*descriptor, "layout"@) == Some(layout),
            group_entries_of(items@.take(k as int)) == Ok::<Seq<BindGroupEntry>, DescriptorError>(entries@),
        decreases items.len() - k,
    {
        proof {
            assert(items@.take(k + 1).drop_last() =~= items@.take(k as int));
            assert(items@.take(k + 1).last() == items@[k as int]);
        }
        match bind_group_entry(&items[k]) {
            Ok(entry) => {
                entries.push(entry);
            },
            Err(e) => {
                proof {
                    assert(group_entries_of(items@.take(k + 1)) == Err::<Seq<BindGroupEntry>, DescriptorError>(e));
                    lemma_group_entries_prefix(items@, k as int + 1);
                }
                return Err(e);
            },
        }
        k = k + 1;
        proof {
            assert(group_entries_of(items@.take(k as int)) == Ok::<Seq<BindGroupEntry>, DescriptorError>(entries@));
        }
    }
    proof {
        assert(items@.take(items@.len() as int) =~= items@);
    }
    Ok(BindGroupDescriptor { layout, entries })
}

/// The fragment stage of a render pipeline.
#[derive(Debug, Clone)]
pub struct FragmentDescriptor {
    pub module: u64,
    pub entry_point: String,
    /// The color targets; `None` for a target slot left empty.
    pub targets: Vec<Option<ColorTargetState>>,
}

/// A render pipeline, with its layout (`None`: derived from the shaders)
/// and shader modules by handle.
#[derive(Debug, Clone)]
pub struct RenderPipelineDescriptor {
    pub layout: Option<u64>,
    pub vertex_module: u64,
    pub vertex_entry_point: String,
    pub vertex_buffers: Vec<VertexBufferLayout>,
    pub fragment: Option<FragmentDescriptor>,
    pub primitive: PrimitiveState,
    pub depth_stencil: Option<DepthStencilState>,
    pub multisample: MultisampleState,
}

/// The first refusal among vertex buffer layouts, if any.
pub open spec fn first_vertex_layout_error(items: Seq<Value>) -> Option<PipelineError>
    decreases items.len(),
{
    if items.len() == 0 {
        None
    } else {
        match first_vertex_layout_error(items.drop_last()) {
            Some(e) => Some(e),
            None => vertex_layout_error(items.last()),
        }
    }
}

/// Multisampling when a pipeline leaves it out: one sample, every sample
/// enabled, no alpha-to-coverage.
pub open spec fn default_multisample() -> MultisampleState {
    MultisampleState { count: 1, mask: 0xffff_ffff_ffff_ffffu64, alpha_to_coverage_enabled: false }
}

/// Why the render pipeline `v` is refused, if it is, in the order the
/// checks are made: a `vertex` stage with a module handle, its buffer
/// layouts, the fragment stage's module handle, the multisample state.
pub open spec fn render_pipeline_error(v: Value) -> Option<DescriptorError> {
    match field(v, "vertex"@) {
        None => Some(DescriptorError::VertexRequired),
        Some(vx) => if u64_field(vx, "module"@) is None {
            Some(DescriptorError::NotAnInteger(HandleField::Module))
        } else {
            match first_vertex_layout_error(items_or_empty(vx, "buffers"@)) {
                Some(e) => Some(DescriptorError::Pipeline(e)),
                None => if present_field(v, "fragment"@) is Some && u64_field(
                    present_field(v, "fragment"@)->0,
                    "module"@,
                ) is None {
                    Some(DescriptorError::NotAnInteger(HandleField::Module))
                } else {
                    match present_field(v, "multisample"@) {
                        Some(m) => match multisample_of(m) {
                            Err(e) => Some(DescriptorError::Pipeline(e)),
                            Ok(_) => None,
                        },
                        None => None,
                    }
                },
            }
        },
    }
}

/// `d` is the render pipeline `v` describes (given it is not refused):
/// entry points `main` by default, no fragment stage when it is left out
/// or `null`, and the states of `pipeline` read from their fields.
pub open spec fn render_pipeline_matches(v: Value, d: RenderPipelineDescriptor) -> bool {
    let vx = field(v, "vertex"@)->0;
    let buffers = items_or_empty(vx, "buffers"@);
    &&& d.layout == u64_field(v, "layout"@)
    &&& d.vertex_module == u64_field(vx, "module"@)->0
    &&& d.vertex_entry_point@ == text_field_or(vx, "entryPoint"@, "main"@)
    &&& d.vertex_buffers@.len() == buffers.len()
    &&& forall|k: int| 0 <= k < buffers.len() ==> vertex_layout_of(buffers[k], #[trigger] d.vertex_buffers@[k])
    &&& match present_field(v, "fragment"@) {
        None => d.fragment is None,
        Some(f) => d.fragment matches Some(fd) && fd.module == u64_field(f, "module"@)->0
            && fd.entry_point@ == text_field_or(f, "entryPoint"@, "main"@) && fd.targets@ == items_or_empty(
            f,
            "targets"@,
        ).map_values(|t: Value| color_target_of(t)),
    }
    &&& d.primitive == primitive_of(field(v, "primitive"@))
    &&& d.depth_stencil == match present_field(v, "depthStencil"@) {
        Some(x) => Some(depth_stencil_of(x)),
        None => None,
    }
    &&& d.multisample == match present_field(v, "multisample"@) {
        Some(m) => multisample_of(m)->Ok_0,
        None => default_multisample(),
    }
}

/// A refusal among the first `n` layouts is the first refusal of all.
proof fn lemma_vertex_layout_error_prefix(items: Seq<Value>, n: int)
    requires
        0 <= n <= items.len(),
        first_vertex_layout_error(items.take(n)) is Some,
    ensures
        first_vertex_layout_error(items) == first_vertex_layout_error(items.take(n)),
    decreases items.len(),
{
    if n < items.len() {
        assert(items.drop_last().take(n) =~= items.take(n));
        lemma_vertex_layout_error_prefix(items.drop_last(), n);
    } else {
        assert(items.take(n) =~= items);
    }
}

/// Reads the vertex buffer layouts of a vertex stage (none when `buffers`
/// is not an array).
fn vertex_buffers(vx: &Value) -> (r: Result<Vec<VertexBufferLayout>, PipelineError>)
    ensures
        match first_vertex_layout_error(items_or_empty(*vx, "buffers"@)) {
            Some(e) => r == Err::<Vec<VertexBufferLayout>, PipelineError>(e),
            None => r matches Ok(ls) && ls@.len() == items_or_empty(*vx, "buffers"@).len() && forall|k: int|
                0 <= k < ls@.len() ==> vertex_layout_of(items_or_empty(*vx, "buffers"@)[k], #[trigger] ls@[k]),
        },
{
    let items = match field_items(vx, "buffers") {
        Some(items) => items,
        None => {
            return Ok(Vec::new());
        },
    };
    let mut layouts: Vec<VertexBufferLayout> = Vec::new();
    let mut k: usize = 0;
    while k < items.len()
        invariant
            k <= items@.len(),
            items_or_empty(*vx, "buffers"@) == items@,
            first_vertex_layout_error(items@.take(k as int)) is None,
            layouts@.len() == k,
            forall|j: int| 0 <= j < k ==> vertex_layout_of(items@[j], #[trigger] layouts@[j]),
        decreases items.len() - k,
    {
        proof {
            assert(items@.take(k + 1).drop_last() =~= items@.take(k as int));
            assert(items@.take(k + 1).last() == items@[k as int]);
        }
        match vertex_buffer_layout(&items[k]) {
            Ok(layout) => {
                layouts.push(layout);
            },
            Err(e) => {
                proof {
                    lemma_vertex_layout_error_prefix(items@, k as int + 1);
                }
                return Err(e);
            },
        }
        k = k + 1;
    }
    proof {
        assert(items@.take(items@.len() as int) =~= items@);
    }
    Ok(layouts)
}

/// Reads the color targets of a fragment stage (none when `targets` is not
/// an array).
fn color_targets(f: &Value) -> (r: Vec<Option<ColorTargetState>>)
    ensures
        r@ == items_or_empty(*f, "targets"@).map_values(|t: Value| color_target_of(t)),
{
    let items = match field_items(f, "targets") {
        Some(items) => items,
        None => {
            let empty: Vec<Option<ColorTargetState>> = Vec::new();
            assert(empty@ =~= items_or_empty(*f, "targets"@).map_values(|t: Value| color_target_of(t)));
            return empty;
        },
    };
    let mut targets: Vec<Option<ColorTargetState>> = Vec::new();
    let mut k: usize = 0;
    while k < items.len()
        invariant
            k <= items@.len(),
            targets@ == items@.take(k as int).map_values(|t: Value| color_target_of(t)),
        decreases items.len() - k,
    {
        targets.push(color_target_state(&items[k]));
        k = k + 1;
        proof {
            assert(targets@ =~= items@.take(k as int).map_values(|t: Value| color_target_of(t)));
        }
    }
    proof {
        assert(items@.take(items@.len() as int) =~= items@);
    }
    targets
}

/// Reads a render pipeline descriptor; refused as `render_pipeline_error`
/// says.
pub fn render_pipeline_descriptor(descriptor: &Value) -> (r: Result<RenderPipelineDescriptor, DescriptorError>)
    ensures
        match render_pipeline_error(*descriptor) {
            Some(e) => r matches Err(x) && x == e,
            None => r matches Ok(d) && render_pipeline_matches(*descriptor, d),
        },
{
    let vx = match json_field(descriptor, "vertex") {
        Some(vx) => vx,
        None => return Err(DescriptorError::VertexRequired),
    };
    let vertex_module = match handle_field(vx, "module", HandleField::Module) {
        Ok(m) => m,
        Err(e) => return Err(e),
    };
    let buffers = match vertex_buffers(vx) {
        Ok(b) => b,
        Err(e) => return Err(DescriptorError::Pipeline(e)),
    };
    let vertex_entry_point = field_text_or(vx, "entryPoint", "main");
    let fragment = match field_present(descriptor, "fragment") {
        Some(f) => {
            let module = match handle_field(f, "module", HandleField::Module) {
                Ok(m) => m,
                Err(e) => return Err(e),
            };
            Some(
                FragmentDescriptor {
                    module,
                    entry_point: field_text_or(f, "entryPoint", "main"),
                    targets: color_targets(f),
                },
            )
        },
        None => None,
    };
    let depth_stencil = match field_present(descriptor, "depthStencil") {
        Some(x) => Some(depth_stencil_state(x)),
        None => None,
    };
    let multisample = match field_present(descriptor, "multisample") {
        Some(m) => match multisample_state(m) {
            Ok(state) => state,
            Err(e) => return Err(DescriptorError::Pipeline(e)),
        },
        None => MultisampleState { count: 1, mask: 0xffff_ffff_ffff_ffffu64, alpha_to_coverage_enabled: false },
    };
    Ok(
        RenderPipelineDescriptor {
            layout: field_u64(descriptor, "layout"),
            vertex_module,
            vertex_entry_point,
            vertex_buffers: buffers,
            fragment,
            primitive: primitive_state(json_field(descriptor, "primitive")),
            depth_stencil,
            multisample,
        },
    )
}

/// A compute pipeline, with its layout (`None`: derived from the shader)
/// and shader module by handle.
#[derive(Debug, Clone)]
pub struct ComputePipelineDescriptor {
    pub layout: Option<u64>,
    pub module: u64,
    pub entry_point: String,
}

/// Why the compute pipeline `v` is refused, if it is: it needs a
/// `compute` stage with a module handle.
pub open spec fn compute_pipeline_error(v: Value) -> Option<DescriptorError> {
    match field(v, "compute"@) {
        None => Some(DescriptorError::ComputeRequired),
        Some(c) => if u64_field(c, "module"@) is None {
            Some(DescriptorError::NotAnInteger(HandleField::Module))
        } else {
            None
        },
    }
}

/// Reads a compute pipeline descriptor.
pub fn compute_pipeline_descriptor(descriptor: &Value) -> (r: Result<ComputePipelineDescriptor, DescriptorError>)
    ensures
        match compute_pipeline_error(*descriptor) {
            Some(e) => r matches Err(x) && x == e,
            None => r matches Ok(d) && d.layout == u64_field(*descriptor, "layout"@) && d.module == u64_field(
                field(*descriptor, "compute"@)->0,
                "module"@,
            )->0 && d.entry_point@ == text_field_or(field(*descriptor, "compute"@)->0, "entryPoint"@, "main"@),
        },
{
    let compute = match json_field(descriptor, "compute") {
        Some(c) => c,
        None => return Err(DescriptorError::ComputeRequired),
    };
    let module = match handle_field(compute, "module", HandleField::Module) {
        Ok(m) => m,
        Err(e) => return Err(e),
    };
    Ok(
        ComputePipelineDescriptor {
            layout: field_u64(descriptor, "layout"),
            module,
            entry_point: field_text_or(compute, "entryPoint", "main"),
        },
    )
}

/// The optional device features the host may have been granted.
#[derive(Debug, Clone, Copy, PartialEq, Eq, Structural)]
pub struct DeviceFeatures {
    pub depth_clip_control: bool,
    pub depth32float_stencil8: bool,
    pub texture_compression_bc: bool,
    pub texture_compression_etc2: bool,
    pub texture_compression_astc: bool,
    pub timestamp_query: bool,
    pub timestamp_query_inside_passes: bool,
    pub indirect_first_instance: bool,
    pub rg11b10ufloat_renderable: bool,
    pub bgra8unorm_storage: bool,
    pub float32_filterable: bool,
}

/// `name` when `present`, else nothing.
pub open spec fn listed(present: bool, name: Seq<char>) -> Seq<Seq<char>> {
    if present {
        seq![name]
    } else {
        Seq::empty()
    }
}

/// The WebGPU names of the granted features, in a fixed order; timestamp
/// queries count only when they are also allowed inside passes.
pub open spec fn feature_names_of(f: DeviceFeatures) -> Seq<Seq<char>> {
    listed(f.depth_clip_control, "depth-clip-control"@) + listed(
        f.depth32float_stencil8,
        "depth32float-stencil8"@,
    ) + listed(f.texture_compression_bc, "texture-compression-bc"@) + listed(
        f.texture_compression_etc2,
        "texture-compression-etc2"@,
    ) + listed(f.texture_compression_astc, "texture-compression-astc"@) + listed(
        f.timestamp_query && f.timestamp_query_inside_passes,
        "timestamp-query"@,
    ) + listed(f.indirect_first_instance, "indirect-first-instance"@) + listed(
        f.rg11b10ufloat_renderable,
        "rg11b10ufloat-renderable"@,
    ) + listed(f.bgra8unorm_storage, "bgra8unorm-storage"@) + listed(f.float32_filterable, "float32-filterable"@)
}

/// The names as plain characters.
pub open spec fn texts(names: Seq<String>) -> Seq<Seq<char>> {
    names.map_values(|n: String| n@)
}

/// Appends `name` when `present`.
fn push_listed(names: &mut Vec<String>, present: bool, name: &str)
    ensures
        texts(final(names)@) == texts(old(names)@) + listed(present, name@),
{
    if present {
        names.push(name.to_string());
    }
    assert(texts(final(names)@) =~= texts(old(names)@) + listed(present, name@));
}

/// The WebGPU names of the granted features (see `feature_names_of`).
pub fn feature_names(features: &DeviceFeatures) -> (r: Vec<String>)
    ensures
        texts(r@) == feature_names_of(*features),
{
    let mut names: Vec<String> = Vec::new();
    assert(texts(names@) =~= Seq::<Seq<char>>::empty());
    push_listed(&mut names, features.depth_clip_control, "depth-clip-control");
    push_listed(&mut names, features.depth32float_stencil8, "depth32float-stencil8");
    push_listed(&mut names, features.texture_compression_bc, "texture-compression-bc");
    push_listed(&mut names, features.texture_compression_etc2, "texture-compression-etc2");
    push_listed(&mut names, features.texture_compression_astc, "texture-compression-astc");
    push_listed(
        &mut names,
        features.timestamp_query && features.timestamp_query_inside_passes,
        "timestamp-query",
    );
    push_listed(&mut names, features.indirect_first_instance, "indirect-first-instance");
    push_listed(&mut names, features.rg11b10ufloat_renderable, "rg11b10ufloat-renderable");
    push_listed(&mut names, features.bgra8unorm_storage, "bgra8unorm-storage");
    push_listed(&mut names, features.float32_filterable, "float32-filterable");
    proof {
        assert(Seq::<Seq<char>>::empty() + listed(features.depth_clip_control, "depth-clip-control"@) =~= listed(
            features.depth_clip_control,
            "depth-clip-control"@,
        ));
    }
    names
}

/// How the canvas is composited with what lies behind the window.
#[derive(Debug, Clone, Copy, PartialEq, Eq, Structural)]
pub enum AlphaMode {
    Auto,
    Opaque,
    PreMultiplied,
    PostMultiplied,
    Inherit,
}

/// Why a canvas configuration was refused.
#[derive(Debug, Clone, PartialEq, Eq)]
pub enum SurfaceError {
    /// The surface cannot present this format (its name).
    UnsupportedFormat(String),
    /// An alpha mode other than `opaque` and `premultiplied` (its name).
    UnknownAlphaMode(String),
    /// The surface can present neither this alpha mode nor, for
    /// `premultiplied`, opaque composition (its name).
    UnsupportedAlphaMode(String),
}

/// `SurfaceError` as plain values.
pub enum SurfaceRefusal {
    UnsupportedFormat(Seq<char>),
    UnknownAlphaMode(Seq<char>),
    UnsupportedAlphaMode(Seq<char>),
}

impl View for SurfaceError {
    type V = SurfaceRefusal;

    open spec fn view(&self) -> SurfaceRefusal {
        match self {
            SurfaceError::UnsupportedFormat(n) => SurfaceRefusal::UnsupportedFormat(n@),
            SurfaceError::UnknownAlphaMode(n) => SurfaceRefusal::UnknownAlphaMode(n@),
            SurfaceError::UnsupportedAlphaMode(n) => SurfaceRefusal::UnsupportedAlphaMode(n@),
        }
    }
}

/// The format and alpha mode a canvas configuration `v` asks for, from the
/// current `format` and `alpha`: a named format must be one the surface
/// presents; a named alpha mode must be `opaque` or `premultiplied` and one
/// the surface presents, except that `premultiplied` falls back to opaque
/// composition on a surface that has only that.
pub open spec fn surface_config_of(
    v: Value,
    format: TextureFormat,
    alpha: AlphaMode,
    formats: Seq<TextureFormat>,
    alpha_modes: Seq<AlphaMode>,
) -> Result<(TextureFormat, AlphaMode), SurfaceRefusal> {
    let chosen_format = match string_field(v, "format"@) {
        Some(name) => if formats.contains(texture_format_named(name)) {
            Ok(texture_format_named(name))
        } else {
            Err(SurfaceRefusal::UnsupportedFormat(name))
        },
        None => Ok(format),
    };
    match chosen_format {
        Err(e) => Err(e),
        Ok(f) => match string_field(v, "alphaMode"@) {
            None => Ok((f, alpha)),
            Some(a) => if a == "opaque"@ || a == "premultiplied"@ {
                let wanted = if a == "opaque"@ {
                    AlphaMode::Opaque
                } else {
                    AlphaMode::PreMultiplied
                };
                if alpha_modes.contains(wanted) {
                    Ok((f, wanted))
                } else if wanted == AlphaMode::PreMultiplied && alpha_modes.contains(AlphaMode::Opaque) {
                    Ok((f, AlphaMode::Opaque))
                } else {
                    Err(SurfaceRefusal::UnsupportedAlphaMode(a))
                }
            } else {
                Err(SurfaceRefusal::UnknownAlphaMode(a))
            },
        },
    }
}

/// `formats` holds `f`.
fn holds_format(formats: &Vec<TextureFormat>, f: TextureFormat) -> (r: bool)
    ensures
        r == formats@.contains(f),
{
    let mut k: usize = 0;
    while k < formats.len()
        invariant
            k <= formats@.len(),
            forall|j: int| 0 <= j < k ==> formats@[j] != f,
        decreases formats.len() - k,
    {
        if formats[k] == f {
            return true;
        }
        k = k + 1;
    }
    false
}

/// `modes` holds `m`.
fn holds_alpha_mode(modes: &Vec<AlphaMode>, m: AlphaMode) -> (r: bool)
    ensures
        r == modes@.contains(m),
{
    let mut k: usize = 0;
    while k < modes.len()
        invariant
            k <= modes@.len(),
            forall|j: int| 0 <= j < k ==> modes@[j] != m,
        decreases modes.len() - k,
    {
        if modes[k] == m {
            return true;
        }
        k = k + 1;
    }
    false
}

/// Decides a canvas configuration (see `surface_config_of`); `formats` and
/// `alpha_modes` are what the surface can present.
pub fn surface_configuration(
    descriptor: &Value,
    format: TextureFormat,
    alpha: AlphaMode,
    formats: &Vec<TextureFormat>,
    alpha_modes: &Vec<AlphaMode>,
) -> (r: Result<(TextureFormat, AlphaMode), SurfaceError>)
    ensures
        match surface_config_of(*descriptor, format, alpha, formats@, alpha_modes@) {
            Ok(c) => r == Ok::<(TextureFormat, AlphaMode), SurfaceError>(c),
            Err(e) => r matches Err(x) && x@ == e,
        },
{
    let chosen = match crate::json::field_string(descriptor, "format") {
        Some(name) => {
            let f = texture_format(name.as_str());
            if !holds_format(formats, f) {
                return Err(SurfaceError::UnsupportedFormat(name));
            }
            f
        },
        None => format,
    };
    match crate::json::field_string(descriptor, "alphaMode") {
        None => Ok((chosen, alpha)),
        Some(a) => {
            let wanted = if text_eq(a.as_str(), "opaque") {
                AlphaMode::Opaque
            } else if text_eq(a.as_str(), "premultiplied") {
                AlphaMode::PreMultiplied
            } else {
                return Err(SurfaceError::UnknownAlphaMode(a));
            };
            if holds_alpha_mode(alpha_modes, wanted) {
                Ok((chosen, wanted))
            } else if wanted == AlphaMode::PreMultiplied && holds_alpha_mode(alpha_modes, AlphaMode::Opaque) {
                Ok((chosen, AlphaMode::Opaque))
            } else {
                Err(SurfaceError::UnsupportedAlphaMode(a))
            }
        },
    }
}

/// The name scripts see for the canvas alpha mode: `premultiplied` for
/// premultiplied composition, `opaque` for any other.
pub fn alpha_mode_name(mode: AlphaMode) -> (r: &'static str)
    ensures
        r@ == if mode == AlphaMode::PreMultiplied {
            "premultiplied"@
        } else {
            "opaque"@
        },
{
    if mode == AlphaMode::PreMultiplied {
        "premultiplied"
    } else {
        "opaque"
    }
}

/// The errors a GPU error scope catches.
#[derive(Debug, Clone, Copy, PartialEq, Eq, Structural)]
pub enum ErrorFilter {
    OutOfMemory,
    Validation,
    Internal,
}

/// The error scope filter a name gives; `None` for an unknown name.
pub open spec fn error_filter_named(name: Seq<char>) -> Option<ErrorFilter> {
    if name == "out-of-memory"@ {
        Some(ErrorFilter::OutOfMemory)
    } else if name == "validation"@ {
        Some(ErrorFilter::Validation)
    } else if name == "internal"@ {
        Some(ErrorFilter::Internal)
    } else {
        None
    }
}

/// Reads an error scope filter name.
pub fn error_filter(name: &str) -> (r: Option<ErrorFilter>)
    ensures
        r == error_filter_named(name@),
{
    if text_eq(name, "out-of-memory") {
        Some(ErrorFilter::OutOfMemory)
    } else if text_eq(name, "validation") {
        Some(ErrorFilter::Validation)
    } else if text_eq(name, "internal") {
        Some(ErrorFilter::Internal)
    } else {
        None
    }
}

} // verus!
