//! The data that the core exchanges with the rendering engine.
//!
//! The engine works in single precision. The core never computes with such a
//! number: it stores it, compares it for identity and hands it on. So a
//! number travels as its bit pattern, in a [`Scalar`], and every geometric
//! value is made of those.
use crate::entity::EntityHandle;
use vstd::prelude::*;

verus! {

/// The tag of an axis marker.
pub const RO_TYPE_AXIS: u32 = 0;

/// The tag of a static mesh.
pub const RO_TYPE_STATIC: u32 = 1;

/// The tag of an instanced mesh.
pub const RO_TYPE_INSTANCE: u32 = 2;

/// The tag of an animated mesh.
pub const RO_TYPE_ANIMATED: u32 = 3;

/// The tag of a particle system.
pub const RO_TYPE_PARTICLES: u32 = 4;

/// The tag of a light.
pub const RO_TYPE_LIGHT: u32 = 5;

/// The tag of a landscape.
pub const RO_TYPE_LANDSCAPE: u32 = 6;

/// The tag of the brush of the landscape painter.
pub const RO_TYPE_PAINT: u32 = 7;

/// The tag of a sphere.
pub const RO_TYPE_SPHERE: u32 = 8;

/// The tag of an ellipsoid.
pub const RO_TYPE_ELLIPSOID: u32 = 9;

/// The tag of a collision mesh.
pub const RO_TYPE_CMESH: u32 = 10;

/// The tag of a view volume.
pub const RO_TYPE_FRUSTUM: u32 = 11;

/// The tag of a plane.
pub const RO_TYPE_PLANE: u32 = 12;

/// The tag of a line.
pub const RO_TYPE_LINE: u32 = 13;

/// The tag of a point.
pub const RO_TYPE_POINT: u32 = 14;

/// A single-precision number, as the 32 bits of its IEEE 754 encoding.
#[derive(Clone, Copy, Debug, PartialEq, Eq, Structural, Hash)]
pub struct Scalar {
    pub bits: u32,
}

/// The bits of the exponent of a single-precision number.
pub const EXPONENT_MASK: u32 = 0x7f80_0000;

impl Scalar {
    /// The exponent field of the encoding: the eight bits above the 23 bits
    /// of the fraction and below the sign.
    pub open spec fn exponent(self) -> int {
        (self.bits as int / 0x80_0000) % 0x100
    }

    /// Whether the number is neither an infinity nor a NaN: its exponent
    /// field is not all ones.
    pub open spec fn finite(self) -> bool {
        self.exponent() != 0xff
    }

    /// The number with the encoding `bits`.
    pub fn from_bits(bits: u32) -> (scalar: Self)
        ensures
            scalar.bits == bits,
    {
        Scalar { bits }
    }

    /// The encoding of the number.
    pub fn to_bits(self) -> (bits: u32)
        ensures
            bits == self.bits,
    {
        self.bits
    }

    /// Zero, with the positive sign.
    pub fn zero() -> (scalar: Self)
        ensures
            scalar.bits == 0,
            scalar.finite(),
    {
        Scalar { bits: 0 }
    }

    /// Whether the number is neither an infinity nor a NaN.
    pub fn is_finite(self) -> (finite: bool)
        ensures
            finite == self.finite(),
    {
        let bits = self.bits;
        assert((bits & 0x7f80_0000 != 0x7f80_0000) == ((bits / 0x80_0000) % 0x100 != 0xff))
            by (bit_vector);
        bits & EXPONENT_MASK != EXPONENT_MASK
    }
}

/// A vector of two numbers.
#[derive(Clone, Copy, Debug, PartialEq, Eq, Structural)]
pub struct vec2 {
    pub x: Scalar,
    pub y: Scalar,
}

/// A vector of three numbers: a point, a direction or a colour.
#[derive(Clone, Copy, Debug, PartialEq, Eq, Structural)]
pub struct vec3 {
    pub x: Scalar,
    pub y: Scalar,
    pub z: Scalar,
}

/// A vector of four numbers.
#[derive(Clone, Copy, Debug, PartialEq, Eq, Structural)]
pub struct vec4 {
    pub x: Scalar,
    pub y: Scalar,
    pub z: Scalar,
    pub w: Scalar,
}

/// A matrix of four rows, `x` to `w`, and four columns, `x` to `w`.
#[derive(Clone, Copy, Debug, PartialEq, Eq, Structural)]
pub struct mat4 {
    pub xx: Scalar,
    pub xy: Scalar,
    pub xz: Scalar,
    pub xw: Scalar,
    pub yx: Scalar,
    pub yy: Scalar,
    pub yz: Scalar,
    pub yw: Scalar,
    pub zx: Scalar,
    pub zy: Scalar,
    pub zz: Scalar,
    pub zw: Scalar,
    pub wx: Scalar,
    pub wy: Scalar,
    pub wz: Scalar,
    pub ww: Scalar,
}

/// A plane, by a point on it and the direction it faces.
#[derive(Clone, Copy, Debug, PartialEq, Eq, Structural)]
pub struct plane {
    pub direction: vec3,
    pub position: vec3,
}

/// The eight corners of a view volume: near and far, top and bottom, right
/// and left.
#[derive(Clone, Copy, Debug, PartialEq, Eq, Structural)]
pub struct frustum {
    pub ntr: vec3,
    pub ntl: vec3,
    pub nbr: vec3,
    pub nbl: vec3,
    pub ftr: vec3,
    pub ftl: vec3,
    pub fbr: vec3,
    pub fbl: vec3,
}

/// A sphere, by its centre and its radius.
#[derive(Clone, Copy, Debug, PartialEq, Eq, Structural)]
pub struct sphere {
    pub center: vec3,
    pub radius: Scalar,
}

/// An ellipsoid, by its centre and its three radii.
#[derive(Clone, Copy, Debug, PartialEq, Eq, Structural)]
pub struct ellipsoid {
    pub center: vec3,
    pub radiuses: vec3,
}

/// The camera as the engine holds it.
#[derive(Clone, Copy, Debug, PartialEq, Eq, Structural)]
pub struct camera {
    pub position: vec3,
    pub target: vec3,
    pub fov: Scalar,
    pub near_clip: Scalar,
    pub far_clip: Scalar,
}

impl Default for camera {
    /// The camera as the engine makes it: every bit of it is zero.
    fn default() -> (made: camera)
        ensures
            made == zeroed_camera(),
    {
        let origin = vec3_zero();
        camera {
            position: origin,
            target: origin,
            fov: Scalar::zero(),
            near_clip: Scalar::zero(),
            far_clip: Scalar::zero(),
        }
    }
}

/// The camera in which every bit is zero.
pub open spec fn zeroed_camera() -> camera {
    let zero = Scalar { bits: 0 };
    let origin = vec3 { x: zero, y: zero, z: zero };
    camera { position: origin, target: origin, fov: zero, near_clip: zero, far_clip: zero }
}

impl vec3 {
    /// Whether each of the three components is finite.
    pub open spec fn finite(self) -> bool {
        self.x.finite() && self.y.finite() && self.z.finite()
    }

    /// Whether each of the three components is finite.
    pub fn is_finite(self) -> (finite: bool)
        ensures
            finite == self.finite(),
    {
        self.x.is_finite() && self.y.is_finite() && self.z.is_finite()
    }
}

/// One drawable thing, valid for the frame in which it was made.
///
/// A geometric primitive carries its own values. A mesh, a light, a particle
/// system or a landscape is drawn from the payload of an entity, which the
/// drawable names by handle and does not own.
#[derive(Clone, Copy, Debug, PartialEq, Eq, Structural)]
pub enum render_object {
    /// The three axes of a frame of reference.
    Axis(mat4),
    /// A static mesh.
    Static(EntityHandle),
    /// A mesh drawn many times over.
    Instance(EntityHandle),
    /// A skinned, animated mesh.
    Animated(EntityHandle),
    /// A particle system.
    Particles(EntityHandle),
    /// A light.
    Light(EntityHandle),
    /// A landscape.
    Landscape(EntityHandle),
    /// The brush of the landscape painter.
    Paint { axis: mat4, radius: Scalar },
    Sphere(sphere),
    Ellipsoid(ellipsoid),
    /// The collision mesh of an entity, placed by `world`.
    CMesh { mesh: EntityHandle, world: mat4 },
    Frustum(frustum),
    Plane(plane),
    /// A line for debugging.
    Line { start: vec3, end: vec3, color: vec3, thickness: Scalar },
    /// A point for debugging.
    Point { pos: vec3, color: vec3, size: Scalar },
}

/// The vector with the components `x`, `y` and `z`.
pub fn vec3_new(x: Scalar, y: Scalar, z: Scalar) -> (v: vec3)
    ensures
        v == (vec3 { x, y, z }),
{
    vec3 { x, y, z }
}

/// The vector whose components are zero.
pub fn vec3_zero() -> (v: vec3)
    ensures
        v == (vec3 { x: Scalar { bits: 0 }, y: Scalar { bits: 0 }, z: Scalar { bits: 0 } }),
        v.finite(),
{
    vec3 { x: Scalar::zero(), y: Scalar::zero(), z: Scalar::zero() }
}

/// One triangle of a collision mesh, with its normal and the sphere that
/// bounds it.
#[derive(Clone, Copy, Debug, PartialEq, Eq, Structural)]
pub struct ctri {
    pub a: vec3,
    pub b: vec3,
    pub c: vec3,
    pub norm: vec3,
    pub bound: sphere,
}

/// A collision mesh: a tree that sorts triangles in space.
///
/// A leaf holds triangles and the sphere that bounds them. Any other node
/// divides space by a plane, and holds the mesh in front of the plane and
/// the mesh behind it.
#[derive(Debug)]
pub enum cmesh {
    Leaf { triangles: Vec<ctri>, bound: sphere },
    Split { division: plane, front: Box<cmesh>, back: Box<cmesh> },
}

impl cmesh {
    /// Whether the node is a leaf.
    pub fn is_leaf(&self) -> (leaf: bool)
        ensures
            leaf == (self is Leaf),
    {
        match self {
            cmesh::Leaf { .. } => true,
            cmesh::Split { .. } => false,
        }
    }

    /// The plane by which the node divides space, if it is no leaf.
    pub fn division(&self) -> (found: Option<plane>)
        ensures
            found == (match *self {
                cmesh::Split { division, .. } => Some(division),
                cmesh::Leaf { .. } => None,
            }),
    {
        match self {
            cmesh::Split { division, .. } => Some(*division),
            cmesh::Leaf { .. } => None,
        }
    }

    /// The mesh in front of the dividing plane, if the node is no leaf.
    pub fn front(&self) -> (found: Option<&cmesh>)
        ensures
            match found {
                Some(node) => self is Split && *node == *self->front,
                None => self is Leaf,
            },
    {
        match self {
            cmesh::Split { front, .. } => Some(&**front),
            cmesh::Leaf { .. } => None,
        }
    }

    /// The mesh behind the dividing plane, if the node is no leaf.
    pub fn back(&self) -> (found: Option<&cmesh>)
        ensures
            match found {
                Some(node) => self is Split && *node == *self->back,
                None => self is Leaf,
            },
    {
        match self {
            cmesh::Split { back, .. } => Some(&**back),
            cmesh::Leaf { .. } => None,
        }
    }

    /// The triangles of the node, if it is a leaf.
    pub fn triangles(&self) -> (found: Option<&Vec<ctri>>)
        ensures
            match found {
                Some(held) => self is Leaf && *held == self->triangles,
                None => self is Split,
            },
    {
        match self {
            cmesh::Leaf { triangles, .. } => Some(triangles),
            cmesh::Split { .. } => None,
        }
    }

    /// The number of triangles of the node, if it is a leaf.
    pub fn triangles_num(&self) -> (found: Option<usize>)
        ensures
            match found {
                Some(n) => self is Leaf && n == self->triangles@.len(),
                None => self is Split,
            },
    {
        match self {
            cmesh::Leaf { triangles, .. } => Some(triangles.len()),
            cmesh::Split { .. } => None,
        }
    }

    /// The sphere that bounds the triangles of the node, if it is a leaf.
    pub fn bound(&self) -> (found: Option<sphere>)
        ensures
            found == (match *self {
                cmesh::Leaf { bound, .. } => Some(bound),
                cmesh::Split { .. } => None,
            }),
    {
        match self {
            cmesh::Leaf { bound, .. } => Some(*bound),
            cmesh::Split { .. } => None,
        }
    }
}

/// An asset, named by the path it was loaded from. The engine owns the
/// asset; `timestamp` is the time of the file when it was last loaded.
#[derive(Clone, Debug, PartialEq)]
pub struct asset_hndl {
    pub path: String,
    pub timestamp: u32,
}

/// One value of a material: a number, a vector or a texture.
#[derive(Clone, Debug, PartialEq)]
pub enum material_item {
    Int(i32),
    Float(Scalar),
    Vec2(vec2),
    Vec3(vec3),
    Vec4(vec4),
    Asset(asset_hndl),
}

impl material_item {
    /// The integer, if the value is one.
    pub fn as_int(&self) -> (found: Option<i32>)
        ensures
            found == (match *self {
                material_item::Int(value) => Some(value),
                _ => None,
            }),
    {
        match self {
            material_item::Int(value) => Some(*value),
            _ => None,
        }
    }

    /// The number, if the value is a single number that is no integer.
    pub fn as_float(&self) -> (found: Option<Scalar>)
        ensures
            found == (match *self {
                material_item::Float(value) => Some(value),
                _ => None,
            }),
    {
        match self {
            material_item::Float(value) => Some(*value),
            _ => None,
        }
    }

    /// The vector, if the value is a vector of two.
    pub fn as_vec2(&self) -> (found: Option<vec2>)
        ensures
            found == (match *self {
                material_item::Vec2(value) => Some(value),
                _ => None,
            }),
    {
        match self {
            material_item::Vec2(value) => Some(*value),
            _ => None,
        }
    }

    /// The vector, if the value is a vector of three.
    pub fn as_vec3(&self) -> (found: Option<vec3>)
        ensures
            found == (match *self {
                material_item::Vec3(value) => Some(value),
                _ => None,
            }),
    {
        match self {
            material_item::Vec3(value) => Some(*value),
            _ => None,
        }
    }

    /// The vector, if the value is a vector of four.
    pub fn as_vec4(&self) -> (found: Option<vec4>)
        ensures
            found == (match *self {
                material_item::Vec4(value) => Some(value),
                _ => None,
            }),
    {
        match self {
            material_item::Vec4(value) => Some(*value),
            _ => None,
        }
    }

    /// The asset, if the value is a texture.
    pub fn as_asset(&self) -> (found: Option<&asset_hndl>)
        ensures
            match found {
                Some(asset) => self is Asset && *asset == self->Asset_0,
                None => !(self is Asset),
            },
    {
        match self {
            material_item::Asset(asset) => Some(asset),
            _ => None,
        }
    }
}

/// Whether `text` can be handed to the engine, which takes text up to its
/// first NUL: no character of it is NUL.
pub open spec fn nul_free(text: Seq<char>) -> bool {
    forall|i: int| 0 <= i < text.len() ==> text[i] != '\0'
}

/// Whether `text` can be handed to the engine: no character of it is NUL.
pub fn is_nul_free(text: &str) -> (ok: bool)
    ensures
        ok == nul_free(text@),
{
    let mut ok = true;
    for c in it: text.chars()
        invariant
            it.seq() == text@,
            ok == (forall|i: int| 0 <= i < it.index() ==> text@[i] != '\0'),
    {
        if c == '\0' {
            ok = false;
        }
    }
    ok
}

/// How the engine spells a truth value: 1 for true, 0 for false.
pub open spec fn flag(on: bool) -> u8 {
    if on {
        1
    } else {
        0
    }
}

/// How the engine spells a truth value: 1 for true, 0 for false.
pub fn flag_of(on: bool) -> (spelled: u8)
    ensures
        spelled == flag(on),
{
    if on {
        1
    } else {
        0
    }
}

impl render_object {
    /// The number by which the engine knows the kind of the drawable.
    pub open spec fn tag_of(self) -> u32 {
        match self {
            render_object::Axis(_) => RO_TYPE_AXIS,
            render_object::Static(_) => RO_TYPE_STATIC,
            render_object::Instance(_) => RO_TYPE_INSTANCE,
            render_object::Animated(_) => RO_TYPE_ANIMATED,
            render_object::Particles(_) => RO_TYPE_PARTICLES,
            render_object::Light(_) => RO_TYPE_LIGHT,
            render_object::Landscape(_) => RO_TYPE_LANDSCAPE,
            render_object::Paint { .. } => RO_TYPE_PAINT,
            render_object::Sphere(_) => RO_TYPE_SPHERE,
            render_object::Ellipsoid(_) => RO_TYPE_ELLIPSOID,
            render_object::CMesh { .. } => RO_TYPE_CMESH,
            render_object::Frustum(_) => RO_TYPE_FRUSTUM,
            render_object::Plane(_) => RO_TYPE_PLANE,
            render_object::Line { .. } => RO_TYPE_LINE,
            render_object::Point { .. } => RO_TYPE_POINT,
        }
    }

    /// The number by which the engine knows the kind of the drawable.
    pub fn tag(&self) -> (tag: u32)
        ensures
            tag == self.tag_of(),
            tag <= RO_TYPE_POINT,
    {
        match *self {
            render_object::Axis(_) => RO_TYPE_AXIS,
            render_object::Static(_) => RO_TYPE_STATIC,
            render_object::Instance(_) => RO_TYPE_INSTANCE,
            render_object::Animated(_) => RO_TYPE_ANIMATED,
            render_object::Particles(_) => RO_TYPE_PARTICLES,
            render_object::Light(_) => RO_TYPE_LIGHT,
            render_object::Landscape(_) => RO_TYPE_LANDSCAPE,
            render_object::Paint { .. } => RO_TYPE_PAINT,
            render_object::Sphere(_) => RO_TYPE_SPHERE,
            render_object::Ellipsoid(_) => RO_TYPE_ELLIPSOID,
            render_object::CMesh { .. } => RO_TYPE_CMESH,
            render_object::Frustum(_) => RO_TYPE_FRUSTUM,
            render_object::Plane(_) => RO_TYPE_PLANE,
            render_object::Line { .. } => RO_TYPE_LINE,
            render_object::Point { .. } => RO_TYPE_POINT,
        }
    }

    /// The entity whose payload the drawable is drawn from, if it is drawn
    /// from one. A geometric primitive is drawn from its own values.
    pub open spec fn entity_of(self) -> Option<EntityHandle> {
        match self {
            render_object::Static(entity) => Some(entity),
            render_object::Instance(entity) => Some(entity),
            render_object::Animated(entity) => Some(entity),
            render_object::Particles(entity) => Some(entity),
            render_object::Light(entity) => Some(entity),
            render_object::Landscape(entity) => Some(entity),
            render_object::CMesh { mesh, .. } => Some(mesh),
            _ => None,
        }
    }

    /// The entity whose payload the drawable is drawn from, if it is drawn
    /// from one.
    pub fn entity(&self) -> (found: Option<EntityHandle>)
        ensures
            found == self.entity_of(),
    {
        match *self {
            render_object::Static(entity) => Some(entity),
            render_object::Instance(entity) => Some(entity),
            render_object::Animated(entity) => Some(entity),
            render_object::Particles(entity) => Some(entity),
            render_object::Light(entity) => Some(entity),
            render_object::Landscape(entity) => Some(entity),
            render_object::CMesh { mesh, .. } => Some(mesh),
            _ => None,
        }
    }

    /// The frame of reference, if this is an axis marker.
    pub fn axis(&self) -> (found: Option<mat4>)
        ensures
            found == (match *self {
                render_object::Axis(axes) => Some(axes),
                _ => None,
            }),
    {
        match *self {
            render_object::Axis(axes) => Some(axes),
            _ => None,
        }
    }

    /// The sphere, if this is one.
    pub fn sphere(&self) -> (found: Option<sphere>)
        ensures
            found == (match *self {
                render_object::Sphere(ball) => Some(ball),
                _ => None,
            }),
    {
        match *self {
            render_object::Sphere(ball) => Some(ball),
            _ => None,
        }
    }

    /// The ellipsoid, if this is one.
    pub fn ellipsoid(&self) -> (found: Option<ellipsoid>)
        ensures
            found == (match *self {
                render_object::Ellipsoid(shape) => Some(shape),
                _ => None,
            }),
    {
        match *self {
            render_object::Ellipsoid(shape) => Some(shape),
            _ => None,
        }
    }

    /// The entity whose collision mesh is drawn, if this is a collision mesh.
    pub fn colmesh(&self) -> (found: Option<EntityHandle>)
        ensures
            found == (match *self {
                render_object::CMesh { mesh, .. } => Some(mesh),
                _ => None,
            }),
    {
        match *self {
            render_object::CMesh { mesh, .. } => Some(mesh),
            _ => None,
        }
    }

    /// The placement of the collision mesh, if this is one.
    pub fn colworld(&self) -> (found: Option<mat4>)
        ensures
            found == (match *self {
                render_object::CMesh { world, .. } => Some(world),
                _ => None,
            }),
    {
        match *self {
            render_object::CMesh { world, .. } => Some(world),
            _ => None,
        }
    }

    /// The view volume, if this is one.
    pub fn frustum(&self) -> (found: Option<frustum>)
        ensures
            found == (match *self {
                render_object::Frustum(volume) => Some(volume),
                _ => None,
            }),
    {
        match *self {
            render_object::Frustum(volume) => Some(volume),
            _ => None,
        }
    }

    /// The plane, if this is one.
    pub fn plane(&self) -> (found: Option<plane>)
        ensures
            found == (match *self {
                render_object::Plane(flat) => Some(flat),
                _ => None,
            }),
    {
        match *self {
            render_object::Plane(flat) => Some(flat),
            _ => None,
        }
    }

    /// Where the line starts, if this is a line.
    pub fn line_start(&self) -> (found: Option<vec3>)
        ensures
            found == (match *self {
                render_object::Line { start, .. } => Some(start),
                _ => None,
            }),
    {
        match *self {
            render_object::Line { start, .. } => Some(start),
            _ => None,
        }
    }

    /// Where the line ends, if this is a line.
    pub fn line_end(&self) -> (found: Option<vec3>)
        ensures
            found == (match *self {
                render_object::Line { end, .. } => Some(end),
                _ => None,
            }),
    {
        match *self {
            render_object::Line { end, .. } => Some(end),
            _ => None,
        }
    }

    /// The colour of the line, if this is a line.
    pub fn line_color(&self) -> (found: Option<vec3>)
        ensures
            found == (match *self {
                render_object::Line { color, .. } => Some(color),
                _ => None,
            }),
    {
        match *self {
            render_object::Line { color, .. } => Some(color),
            _ => None,
        }
    }

    /// The thickness of the line, if this is a line.
    pub fn line_thickness(&self) -> (found: Option<Scalar>)
        ensures
            found == (match *self {
                render_object::Line { thickness, .. } => Some(thickness),
                _ => None,
            }),
    {
        match *self {
            render_object::Line { thickness, .. } => Some(thickness),
            _ => None,
        }
    }

    /// Where the point is, if this is a point.
    pub fn point_pos(&self) -> (found: Option<vec3>)
        ensures
            found == (match *self {
                render_object::Point { pos, .. } => Some(pos),
                _ => None,
            }),
    {
        match *self {
            render_object::Point { pos, .. } => Some(pos),
            _ => None,
        }
    }

    /// The colour of the point, if this is a point.
    pub fn point_color(&self) -> (found: Option<vec3>)
        ensures
            found == (match *self {
                render_object::Point { color, .. } => Some(color),
                _ => None,
            }),
    {
        match *self {
            render_object::Point { color, .. } => Some(color),
            _ => None,
        }
    }

    /// The size of the point, if this is a point.
    pub fn point_size(&self) -> (found: Option<Scalar>)
        ensures
            found == (match *self {
                render_object::Point { size, .. } => Some(size),
                _ => None,
            }),
    {
        match *self {
            render_object::Point { size, .. } => Some(size),
            _ => None,
        }
    }

    /// The entity of the static mesh, if this is one.
    pub fn static_object(&self) -> (found: Option<EntityHandle>)
        ensures
            found == (match *self {
                render_object::Static(entity) => Some(entity),
                _ => None,
            }),
    {
        match *self {
            render_object::Static(entity) => Some(entity),
            _ => None,
        }
    }

    /// The entity of the instanced mesh, if this is one.
    pub fn instance_object(&self) -> (found: Option<EntityHandle>)
        ensures
            found == (match *self {
                render_object::Instance(entity) => Some(entity),
                _ => None,
            }),
    {
        match *self {
            render_object::Instance(entity) => Some(entity),
            _ => None,
        }
    }

    /// The entity of the animated mesh, if this is one.
    pub fn animated_object(&self) -> (found: Option<EntityHandle>)
        ensures
            found == (match *self {
                render_object::Animated(entity) => Some(entity),
                _ => None,
            }),
    {
        match *self {
            render_object::Animated(entity) => Some(entity),
            _ => None,
        }
    }

    /// The entity of the landscape, if this is one.
    pub fn landscape(&self) -> (found: Option<EntityHandle>)
        ensures
            found == (match *self {
                render_object::Landscape(entity) => Some(entity),
                _ => None,
            }),
    {
        match *self {
            render_object::Landscape(entity) => Some(entity),
            _ => None,
        }
    }

    /// The entity of the particle system, if this is one.
    pub fn particles(&self) -> (found: Option<EntityHandle>)
        ensures
            found == (match *self {
                render_object::Particles(entity) => Some(entity),
                _ => None,
            }),
    {
        match *self {
            render_object::Particles(entity) => Some(entity),
            _ => None,
        }
    }

    /// The entity of the light, if this is one.
    pub fn light(&self) -> (found: Option<EntityHandle>)
        ensures
            found == (match *self {
                render_object::Light(entity) => Some(entity),
                _ => None,
            }),
    {
        match *self {
            render_object::Light(entity) => Some(entity),
            _ => None,
        }
    }

    /// The placement of the brush, if this is the brush.
    pub fn paint_axis(&self) -> (found: Option<mat4>)
        ensures
            found == (match *self {
                render_object::Paint { axis, .. } => Some(axis),
                _ => None,
            }),
    {
        match *self {
            render_object::Paint { axis, .. } => Some(axis),
            _ => None,
        }
    }

    /// The radius of the brush, if this is the brush.
    pub fn paint_radius(&self) -> (found: Option<Scalar>)
        ensures
            found == (match *self {
                render_object::Paint { radius, .. } => Some(radius),
                _ => None,
            }),
    {
        match *self {
            render_object::Paint { radius, .. } => Some(radius),
            _ => None,
        }
    }
}

/// A static mesh, drawn from the entity `s`.
pub fn render_object_static(s: EntityHandle) -> (object: render_object)
    ensures
        object == (render_object::Static(s)),
{
    render_object::Static(s)
}

/// An instanced mesh, drawn from the entity `s`.
pub fn render_object_instance(s: EntityHandle) -> (object: render_object)
    ensures
        object == (render_object::Instance(s)),
{
    render_object::Instance(s)
}

/// An animated mesh, drawn from the entity `a`.
pub fn render_object_animated(a: EntityHandle) -> (object: render_object)
    ensures
        object == (render_object::Animated(a)),
{
    render_object::Animated(a)
}

/// A particle system, drawn from the entity `p`.
pub fn render_object_particles(p: EntityHandle) -> (object: render_object)
    ensures
        object == (render_object::Particles(p)),
{
    render_object::Particles(p)
}

/// A light, drawn from the entity `l`.
pub fn render_object_light(l: EntityHandle) -> (object: render_object)
    ensures
        object == (render_object::Light(l)),
{
    render_object::Light(l)
}

/// The axes of the frame of reference `a`.
pub fn render_object_axis(a: mat4) -> (object: render_object)
    ensures
        object == (render_object::Axis(a)),
{
    render_object::Axis(a)
}

/// The sphere `s`.
pub fn render_object_sphere(s: sphere) -> (object: render_object)
    ensures
        object == (render_object::Sphere(s)),
{
    render_object::Sphere(s)
}

/// The ellipsoid `e`.
pub fn render_object_ellipsoid(e: ellipsoid) -> (object: render_object)
    ensures
        object == (render_object::Ellipsoid(e)),
{
    render_object::Ellipsoid(e)
}

/// The view volume `f`.
pub fn render_object_frustum(f: frustum) -> (object: render_object)
    ensures
        object == (render_object::Frustum(f)),
{
    render_object::Frustum(f)
}

/// The plane `p`.
pub fn render_object_plane(p: plane) -> (object: render_object)
    ensures
        object == (render_object::Plane(p)),
{
    render_object::Plane(p)
}

/// The collision mesh of the entity `cm`, placed by `world`.
pub fn render_object_cmesh(cm: EntityHandle, world: mat4) -> (object: render_object)
    ensures
        object == (render_object::CMesh { mesh: cm, world }),
{
    render_object::CMesh { mesh: cm, world }
}

/// A landscape, drawn from the entity `l`.
pub fn render_object_landscape(l: EntityHandle) -> (object: render_object)
    ensures
        object == (render_object::Landscape(l)),
{
    render_object::Landscape(l)
}

/// The brush of the landscape painter.
pub fn render_object_paint(paint_axis: mat4, paint_radius: Scalar) -> (object: render_object)
    ensures
        object == (render_object::Paint { axis: paint_axis, radius: paint_radius }),
{
    render_object::Paint { axis: paint_axis, radius: paint_radius }
}

/// A line from `start` to `end`.
pub fn render_object_line(start: vec3, end: vec3, color: vec3, thickness: Scalar) -> (object: render_object)
    ensures
        object == (render_object::Line { start, end, color, thickness }),
{
    render_object::Line { start, end, color, thickness }
}

/// A point at `pos`.
pub fn render_object_point(pos: vec3, color: vec3, size: Scalar) -> (object: render_object)
    ensures
        object == (render_object::Point { pos, color, size }),
{
    render_object::Point { pos, color, size }
}

/// Drawables of two kinds never share a tag: the tag tells the kind.
pub proof fn law_tag_tells_kind(a: render_object, b: render_object)
    requires
        a.tag_of() == b.tag_of(),
    ensures
        a is Axis <==> b is Axis,
        a is Static <==> b is Static,
        a is Instance <==> b is Instance,
        a is Animated <==> b is Animated,
        a is Particles <==> b is Particles,
        a is Light <==> b is Light,
        a is Landscape <==> b is Landscape,
        a is Paint <==> b is Paint,
        a is Sphere <==> b is Sphere,
        a is Ellipsoid <==> b is Ellipsoid,
        a is CMesh <==> b is CMesh,
        a is Frustum <==> b is Frustum,
        a is Plane <==> b is Plane,
        a is Line <==> b is Line,
        a is Point <==> b is Point,
{
}

} // verus!
