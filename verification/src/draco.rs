//! The geometry shape of a decoded Draco stream: which attributes become
//! which Three.js `BufferGeometry` attributes, and the index buffer of a
//! mesh or a point cloud. Decoding the compressed stream and converting
//! attribute values to floats is the host's.
use vstd::prelude::*;

verus! {

/// The semantic type of a Draco attribute.
#[derive(Debug, Clone, Copy, PartialEq, Eq, Structural)]
pub enum AttributeKind {
    Position,
    Normal,
    Tangent,
    TextureCoordinate,
    Color,
    Joint,
    Weight,
    Material,
    Custom,
    Invalid,
}

/// Why a Draco geometry was refused.
#[derive(Debug, Clone, Copy, PartialEq, Eq, Structural)]
pub enum DracoError {
    /// An attribute has this many components per item (1 to 4 are read).
    UnsupportedWidth(usize),
    /// An attribute's component type is not a number type.
    InvalidComponentType,
    /// The geometry has no position attribute.
    NoPosition,
    /// A face refers to a point whose index does not fit `u32`.
    IndexTooLarge,
    /// A point cloud has more points than `u32` indices reach.
    TooManyPoints,
}

/// A Draco attribute as the geometry builder reads it: its semantic type,
/// its components per item, and whether its component type is a number
/// type.
#[derive(Debug, Clone, Copy, PartialEq, Eq, Structural)]
pub struct AttributeInfo {
    pub kind: AttributeKind,
    pub item_size: usize,
    pub numeric: bool,
}

/// A geometry attribute to decode: the index of the Draco attribute, its
/// Three.js name and its components per item.
#[derive(Debug, Clone)]
pub struct AttributePlan {
    pub source: usize,
    pub name: String,
    pub item_size: usize,
}

/// The Three.js name of an attribute, given how many texture-coordinate
/// and color attributes were named before it, and those counts after it:
/// the first two texture coordinates are `uv` and `uv1`, the first two
/// colors `color` and `color1`; further ones, and materials, custom and
/// invalid attributes, get no name.
pub open spec fn semantic(kind: AttributeKind, texcoords: usize, colors: usize) -> (
    Option<Seq<char>>,
    usize,
    usize,
) {
    match kind {
        AttributeKind::Position => (Some("position"@), texcoords, colors),
        AttributeKind::Normal => (Some("normal"@), texcoords, colors),
        AttributeKind::Tangent => (Some("tangent"@), texcoords, colors),
        AttributeKind::TextureCoordinate => if texcoords == 0 {
            (Some("uv"@), 1, colors)
        } else if texcoords == 1 {
            (Some("uv1"@), 2, colors)
        } else {
            (None, texcoords, colors)
        },
        AttributeKind::Color => if colors == 0 {
            (Some("color"@), texcoords, 1)
        } else if colors == 1 {
            (Some("color1"@), texcoords, 2)
        } else {
            (None, texcoords, colors)
        },
        AttributeKind::Joint => (Some("skinIndex"@), texcoords, colors),
        AttributeKind::Weight => (Some("skinWeight"@), texcoords, colors),
        _ => (None, texcoords, colors),
    }
}

/// Names an attribute and moves the texture-coordinate and color counters
/// on, as `semantic` says.
pub fn semantic_name(kind: AttributeKind, texcoord_index: &mut usize, color_index: &mut usize) -> (r:
    Option<&'static str>)
    ensures
        ({
            let (name, t, c) = semantic(kind, *old(texcoord_index), *old(color_index));
            &&& match name {
                Some(n) => r matches Some(s) && s@ == n,
                None => r is None,
            }
            &&& *final(texcoord_index) == t
            &&& *final(color_index) == c
        }),
{
    match kind {
        AttributeKind::Position => Some("position"),
        AttributeKind::Normal => Some("normal"),
        AttributeKind::Tangent => Some("tangent"),
        AttributeKind::TextureCoordinate => {
            let name = if *texcoord_index == 0 {
                "uv"
            } else if *texcoord_index == 1 {
                "uv1"
            } else {
                return None;
            };
            *texcoord_index = *texcoord_index + 1;
            Some(name)
        },
        AttributeKind::Color => {
            let name = if *color_index == 0 {
                "color"
            } else if *color_index == 1 {
                "color1"
            } else {
                return None;
            };
            *color_index = *color_index + 1;
            Some(name)
        },
        AttributeKind::Joint => Some("skinIndex"),
        AttributeKind::Weight => Some("skinWeight"),
        AttributeKind::Material | AttributeKind::Custom | AttributeKind::Invalid => None,
    }
}

/// The plan for `attributes[i..]` given the counters, or the first
/// refusal: an attribute without a name is skipped; a named one must have
/// 1 to 4 components and a number component type.
pub open spec fn plan_from(attributes: Seq<AttributeInfo>, i: int, texcoords: usize, colors: usize) -> Result<
    Seq<(int, Seq<char>, usize)>,
    DracoError,
>
    decreases attributes.len() - i,
{
    if i < 0 || i >= attributes.len() {
        Ok(Seq::empty())
    } else {
        let a = attributes[i];
        let (name, t, c) = semantic(a.kind, texcoords, colors);
        match name {
            None => plan_from(attributes, i + 1, t, c),
            Some(n) => if a.item_size < 1 || a.item_size > 4 {
                Err(DracoError::UnsupportedWidth(a.item_size))
            } else if !a.numeric {
                Err(DracoError::InvalidComponentType)
            } else {
                match plan_from(attributes, i + 1, t, c) {
                    Ok(rest) => Ok(seq![(i, n, a.item_size)] + rest),
                    Err(e) => Err(e),
                }
            },
        }
    }
}

/// The plan as plain values.
pub open spec fn plan_view(plan: Seq<AttributePlan>) -> Seq<(int, Seq<char>, usize)> {
    plan.map_values(|p: AttributePlan| (p.source as int, p.name@, p.item_size))
}

/// The geometry attributes to decode from a stream's attributes, in
/// order, with their Three.js names; refused at the first named attribute
/// whose width or component type cannot be read.
pub fn plan_attributes(attributes: &Vec<AttributeInfo>) -> (r: Result<Vec<AttributePlan>, DracoError>)
    ensures
        match plan_from(attributes@, 0, 0, 0) {
            Ok(plan) => r matches Ok(out) && plan_view(out@) == plan,
            Err(e) => r == Err::<Vec<AttributePlan>, DracoError>(e),
        },
{
    let mut out: Vec<AttributePlan> = Vec::new();
    let mut texcoords: usize = 0;
    let mut colors: usize = 0;
    let mut i: usize = 0;
    while i < attributes.len()
        invariant
            i <= attributes@.len(),
            texcoords <= 2,
            colors <= 2,
            match plan_from(attributes@, 0, 0, 0) {
                Ok(plan) => match plan_from(attributes@, i as int, texcoords, colors) {
                    Ok(rest) => plan == plan_view(out@) + rest,
                    Err(_) => false,
                },
                Err(e) => plan_from(attributes@, i as int, texcoords, colors) == Err::<
                    Seq<(int, Seq<char>, usize)>,
                    DracoError,
                >(e),
            },
        decreases attributes.len() - i,
    {
        let a = attributes[i];
        let name = semantic_name(a.kind, &mut texcoords, &mut colors);
        match name {
            None => {},
            Some(n) => {
                if a.item_size < 1 || a.item_size > 4 {
                    return Err(DracoError::UnsupportedWidth(a.item_size));
                }
                if !a.numeric {
                    return Err(DracoError::InvalidComponentType);
                }
                let ghost before = out@;
                out.push(AttributePlan { source: i, name: n.to_string(), item_size: a.item_size });
                proof {
                    assert(plan_view(out@) =~= plan_view(before) + seq![(i as int, n@, a.item_size)]);
                    let rest = plan_from(attributes@, i + 1, texcoords, colors);
                    if rest is Ok {
                        assert(seq![(i as int, n@, a.item_size)] + rest->Ok_0 =~= seq![
                            (i as int, n@, a.item_size),
                        ].add(rest->Ok_0));
                        assert(plan_view(before) + (seq![(i as int, n@, a.item_size)]
                            + rest->Ok_0) =~= plan_view(out@) + rest->Ok_0);
                    }
                }
            },
        }
        i = i + 1;
    }
    proof {
        assert(plan_view(out@) + Seq::<(int, Seq<char>, usize)>::empty() =~= plan_view(out@));
    }
    Ok(out)
}

/// Some planned attribute is `position`.
pub open spec fn has_position(plan: Seq<AttributePlan>) -> bool {
    exists|k: int| 0 <= k < plan.len() && (#[trigger] plan[k]).name@ == "position"@
}

/// Refuses a geometry without a `position` attribute.
pub fn ensure_position(plan: &Vec<AttributePlan>) -> (r: Result<(), DracoError>)
    ensures
        r is Ok <==> has_position(plan@),
        r is Err ==> r == Err::<(), DracoError>(DracoError::NoPosition),
{
    let mut k: usize = 0;
    while k < plan.len()
        invariant
            k <= plan@.len(),
            forall|j: int| 0 <= j < k ==> (#[trigger] plan@[j]).name@ != "position"@,
        decreases plan.len() - k,
    {
        if crate::text::text_eq(plan[k].name.as_str(), "position") {
            assert(plan@[k as int].name@ == "position"@);
            return Ok(());
        }
        k = k + 1;
    }
    Err(DracoError::NoPosition)
}

/// The point indices of a list of triangles, three per face, in order.
pub open spec fn face_points(faces: Seq<[usize; 3]>) -> Seq<usize> {
    Seq::new(faces.len() * 3, |k: int| faces[k / 3][k % 3])
}

/// The index buffer of a mesh: each face's three point indices, in order;
/// refused when one does not fit `u32`.
pub fn mesh_indices(faces: &Vec<[usize; 3]>) -> (r: Result<Vec<u32>, DracoError>)
    ensures
        (forall|k: int| 0 <= k < face_points(faces@).len() ==> #[trigger] face_points(faces@)[k]
            <= u32::MAX) ==> (r matches Ok(out) && out@.len() == face_points(faces@).len() && forall|
            k: int,
        | 0 <= k < out@.len() ==> out@[k] == #[trigger] face_points(faces@)[k]),
        !(forall|k: int| 0 <= k < face_points(faces@).len() ==> #[trigger] face_points(faces@)[k]
            <= u32::MAX) ==> r == Err::<Vec<u32>, DracoError>(DracoError::IndexTooLarge),
{
    let mut out: Vec<u32> = Vec::new();
    let mut f: usize = 0;
    while f < faces.len()
        invariant
            f <= faces@.len(),
            out@.len() == 3 * f,
            forall|k: int| 0 <= k < 3 * f ==> out@[k] == face_points(faces@)[k],
            forall|k: int| 0 <= k < 3 * f ==> face_points(faces@)[k] <= u32::MAX,
        decreases faces.len() - f,
    {
        let face = faces[f];
        let mut c: usize = 0;
        while c < 3
            invariant
                f < faces@.len(),
                face == faces@[f as int],
                c <= 3,
                out@.len() == 3 * f + c,
                forall|k: int| 0 <= k < 3 * f + c ==> out@[k] == face_points(faces@)[k],
                forall|k: int| 0 <= k < 3 * f + c ==> face_points(faces@)[k] <= u32::MAX,
            decreases 3 - c,
        {
            let point = face[c];
            proof {
                let k = 3 * f + c;
                assert(k / 3 == f && k % 3 == c) by (nonlinear_arith)
                    requires
                        k == 3 * f + c,
                        0 <= c < 3,
                ;
                assert(face_points(faces@)[k] == point);
            }
            if point > u32::MAX as usize {
                proof {
                    assert(face_points(faces@)[3 * f + c] > u32::MAX);
                }
                return Err(DracoError::IndexTooLarge);
            }
            out.push(point as u32);
            c = c + 1;
        }
        f = f + 1;
    }
    Ok(out)
}

/// The index buffer of a point cloud: `0, 1, ..., count - 1`; refused
/// when the points outnumber `u32` indices.
pub fn point_indices(count: usize) -> (r: Result<Vec<u32>, DracoError>)
    ensures
        count <= u32::MAX + 1 ==> (r matches Ok(out) && out@.len() == count && forall|k: int|
            0 <= k < count ==> out@[k] == k),
        count > u32::MAX + 1 ==> r == Err::<Vec<u32>, DracoError>(DracoError::TooManyPoints),
{
    if count > 0 && count - 1 > u32::MAX as usize {
        return Err(DracoError::TooManyPoints);
    }
    let mut out: Vec<u32> = Vec::new();
    let mut k: usize = 0;
    while k < count
        invariant
            k <= count,
            count <= u32::MAX + 1,
            out@.len() == k,
            forall|j: int| 0 <= j < k ==> out@[j] == j,
        decreases count - k,
    {
        out.push(k as u32);
        k = k + 1;
    }
    Ok(out)
}

} // verus!
