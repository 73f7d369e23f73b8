//! CPU-side vertex and index arrays, and the rule for when they have to be
//! pushed to device memory again.

use vstd::prelude::*;

verus! {

/// Number of fixed-point units that make up `1.0` in clip space or in a
/// colour channel.
pub const UNITS_PER_ONE: i32 = 100;

/// Three fixed-point components.
#[derive(Clone, Copy, Debug, PartialEq, Eq, Structural)]
pub struct Vec3 {
    pub x: i32,
    pub y: i32,
    pub z: i32,
}

/// One vertex: a position and a colour, both in fixed-point units.
#[derive(Clone, Copy, Debug, PartialEq, Eq, Structural)]
pub struct Vertex {
    pub position: Vec3,
    pub color: Vec3,
}

/// Why a geometry was refused.
#[derive(Clone, Copy, Debug, PartialEq, Eq, Structural)]
pub enum GeometryError {
    /// Some index does not name a vertex.
    IndexOutOfBounds,
}

/// Every index names a vertex among `vertex_count` vertices.
pub open spec fn indices_in_range(vertex_count: nat, indices: Seq<u16>) -> bool {
    forall|k: int| 0 <= k < indices.len() ==> (#[trigger] indices[k]) < vertex_count
}

/// `after` is `before` with `(dx, dy, 0)` added to every position and nothing
/// else changed.
pub open spec fn is_translation_of(after: Seq<Vertex>, before: Seq<Vertex>, dx: int, dy: int) -> bool {
    &&& after.len() == before.len()
    &&& forall|k: int|
        0 <= k < before.len() ==> {
            &&& (#[trigger] after[k]).position.x == before[k].position.x + dx
            &&& after[k].position.y == before[k].position.y + dy
            &&& after[k].position.z == before[k].position.z
            &&& after[k].color == before[k].color
        }
}

/// Adding `(dx, dy, 0)` keeps every position of `vertices` inside `i32`.
pub open spec fn translation_fits(vertices: Seq<Vertex>, dx: int, dy: int) -> bool {
    forall|k: int|
        0 <= k < vertices.len() ==> {
            &&& i32::MIN <= (#[trigger] vertices[k]).position.x + dx <= i32::MAX
            &&& i32::MIN <= vertices[k].position.y + dy <= i32::MAX
        }
}

/// `bytes` holds each index of `indices` as two bytes, low byte first.
pub open spec fn is_little_endian_image(bytes: Seq<u8>, indices: Seq<u16>) -> bool {
    &&& bytes.len() == 2 * indices.len()
    &&& forall|k: int|
        0 <= k < indices.len() ==> (#[trigger] indices[k]) == bytes[2 * k] + 256 * bytes[2 * k + 1]
}

/// `bytes` holds each index of `indices` as two bytes, high byte first.
pub open spec fn is_big_endian_image(bytes: Seq<u8>, indices: Seq<u16>) -> bool {
    &&& bytes.len() == 2 * indices.len()
    &&& forall|k: int|
        0 <= k < indices.len() ==> (#[trigger] indices[k]) == 256 * bytes[2 * k] + bytes[2 * k + 1]
}

/// Calls `bytemuck::cast_slice` to read the indices as the bytes they occupy
/// in memory, and copies those bytes. Believed, not proved: there are two
/// bytes for each index, in the byte order of the machine, which is the same
/// for every index.
#[verifier::external_body]
fn index_memory(indices: &Vec<u16>) -> (bytes: Vec<u8>)
    ensures
        is_little_endian_image(bytes@, indices@) || is_big_endian_image(bytes@, indices@),
{
    bytemuck::cast_slice::<u16, u8>(indices.as_slice()).to_vec()
}

/// Width of the values in an index buffer.
#[derive(Clone, Copy, Debug, PartialEq, Eq, Structural)]
pub enum IndexFormat {
    Uint16,
    Uint32,
}

/// The parameters of the one indexed draw that shows a geometry.
#[derive(Clone, Copy, Debug, PartialEq, Eq, Structural)]
pub struct DrawCall {
    /// Slot the vertex buffer is bound at.
    pub vertex_slot: u32,
    /// How the index buffer is read.
    pub index_format: IndexFormat,
    /// First index drawn.
    pub first_index: u32,
    /// One past the last index drawn.
    pub end_index: u32,
    /// Value added to each index before it selects a vertex.
    pub base_vertex: i32,
    /// Number of instances drawn.
    pub instance_count: u32,
}

/// The draw that covers `index_count` indices from the first on, once.
pub open spec fn full_draw(index_count: nat) -> DrawCall {
    DrawCall {
        vertex_slot: 0,
        index_format: IndexFormat::Uint16,
        first_index: 0,
        end_index: index_count as u32,
        base_vertex: 0,
        instance_count: 1,
    }
}

/// Vertices and the indices that join them into triangles, together with a
/// flag that says whether the device's copy of the vertices is out of date.
pub struct GeometryBuffer {
    vertices: Vec<Vertex>,
    indices: Vec<u16>,
    stale: bool,
}

impl GeometryBuffer {
    /// The vertices, in order.
    pub closed spec fn vertex_seq(&self) -> Seq<Vertex> {
        self.vertices@
    }

    /// The indices, in order.
    pub closed spec fn index_seq(&self) -> Seq<u16> {
        self.indices@
    }

    /// The vertices have changed since they were last handed to the device.
    pub closed spec fn is_stale(&self) -> bool {
        self.stale
    }

    /// Every index names a vertex, and the index count fits a draw call.
    /// This holds of every geometry at all times.
    #[verifier::type_invariant]
    pub open spec fn wf(&self) -> bool {
        &&& indices_in_range(self.vertex_seq().len(), self.index_seq())
        &&& self.index_seq().len() <= u32::MAX
    }

    /// Takes ownership of the two arrays after checking every index. A new
    /// geometry has never been uploaded, so it starts out stale.
    pub fn new(vertices: Vec<Vertex>, indices: Vec<u16>) -> (r: Result<GeometryBuffer, GeometryError>)
        requires
            indices@.len() <= u32::MAX,
        ensures
            r is Ok <==> indices_in_range(vertices@.len(), indices@),
            r matches Ok(g) ==> {
                &&& g.wf()
                &&& g.vertex_seq() == vertices@
                &&& g.index_seq() == indices@
                &&& g.is_stale()
            },
            r matches Err(e) ==> e == GeometryError::IndexOutOfBounds,
    {
        let count: usize = vertices.len();
        let mut k: usize = 0;
        while k < indices.len()
            invariant
                k <= indices@.len(),
                count == vertices@.len(),
                forall|j: int| 0 <= j < k ==> (#[trigger] indices@[j]) < count,
            decreases indices@.len() - k,
        {
            if indices[k] as usize >= count {
                return Err(GeometryError::IndexOutOfBounds);
            }
            k = k + 1;
        }
        Ok(GeometryBuffer { vertices, indices, stale: true })
    }

    /// The vertices, in order.
    pub fn vertices(&self) -> (r: &Vec<Vertex>)
        ensures
            r@ == self.vertex_seq(),
            self.wf(),
    {
        proof {
            use_type_invariant(self);
        }
        &self.vertices
    }

    /// The indices, in order.
    pub fn indices(&self) -> (r: &Vec<u16>)
        ensures
            r@ == self.index_seq(),
            self.wf(),
    {
        proof {
            use_type_invariant(self);
        }
        &self.indices
    }

    /// Whether the device's copy of the vertices is out of date.
    pub fn needs_upload(&self) -> (r: bool)
        ensures
            r == self.is_stale(),
    {
        self.stale
    }

    /// Whether `translate(dx, dy)` may be called.
    pub fn can_translate(&self, dx: i32, dy: i32) -> (r: bool)
        ensures
            r == translation_fits(self.vertex_seq(), dx as int, dy as int),
    {
        let mut k: usize = 0;
        while k < self.vertices.len()
            invariant
                k <= self.vertices@.len(),
                forall|j: int|
                    0 <= j < k ==> {
                        &&& i32::MIN <= (#[trigger] self.vertices@[j]).position.x + dx <= i32::MAX
                        &&& i32::MIN <= self.vertices@[j].position.y + dy <= i32::MAX
                    },
            decreases self.vertices@.len() - k,
        {
            let p: Vec3 = self.vertices[k].position;
            if p.x.checked_add(dx).is_none() || p.y.checked_add(dy).is_none() {
                return false;
            }
            k = k + 1;
        }
        true
    }

    /// Adds `(dx, dy, 0)` to the position of every vertex and marks the
    /// geometry stale. Colours and indices stay as they are. The sums have to
    /// fit the coordinates, which [`GeometryBuffer::can_translate`] tells.
    pub fn translate(&mut self, dx: i32, dy: i32)
        requires
            translation_fits(old(self).vertex_seq(), dx as int, dy as int),
        ensures
            final(self).wf(),
            is_translation_of(final(self).vertex_seq(), old(self).vertex_seq(), dx as int, dy as int),
            final(self).index_seq() == old(self).index_seq(),
            final(self).is_stale(),
    {
        proof {
            use_type_invariant(&*self);
        }
        let n: usize = self.vertices.len();
        let mut moved: Vec<Vertex> = Vec::new();
        let mut k: usize = 0;
        while k < n
            invariant
                k <= n,
                n == self.vertices@.len(),
                moved@.len() == k,
                translation_fits(self.vertices@, dx as int, dy as int),
                forall|j: int|
                    0 <= j < k ==> {
                        &&& (#[trigger] moved@[j]).position.x == self.vertices@[j].position.x + dx
                        &&& moved@[j].position.y == self.vertices@[j].position.y + dy
                        &&& moved@[j].position.z == self.vertices@[j].position.z
                        &&& moved@[j].color == self.vertices@[j].color
                    },
            decreases n - k,
        {
            let v: Vertex = self.vertices[k];
            moved.push(
                Vertex {
                    position: Vec3 { x: v.position.x + dx, y: v.position.y + dy, z: v.position.z },
                    color: v.color,
                },
            );
            k = k + 1;
        }
        self.vertices = moved;
        self.stale = true;
    }

    /// Says whether the vertices have to be uploaded again, and records that
    /// the caller does so: afterwards the geometry is no longer stale.
    pub fn sync_to_device(&mut self) -> (upload: bool)
        ensures
            upload == old(self).is_stale(),
            !final(self).is_stale(),
            final(self).wf(),
            final(self).vertex_seq() == old(self).vertex_seq(),
            final(self).index_seq() == old(self).index_seq(),
    {
        proof {
            use_type_invariant(&*self);
        }
        let upload = self.stale;
        self.stale = false;
        upload
    }

    /// The contents of the index buffer: the indices as 16-bit values in the
    /// machine's byte order.
    pub fn index_bytes(&self) -> (bytes: Vec<u8>)
        ensures
            is_little_endian_image(bytes@, self.index_seq())
                || is_big_endian_image(bytes@, self.index_seq()),
    {
        index_memory(&self.indices)
    }

    /// The single draw that shows the whole geometry: the vertex buffer at
    /// slot 0, 16-bit indices, every index once, one instance.
    pub fn draw_call(&self) -> (d: DrawCall)
        ensures
            d == full_draw(self.index_seq().len()),
            d.end_index == self.index_seq().len(),
    {
        proof {
            use_type_invariant(self);
        }
        DrawCall {
            vertex_slot: 0,
            index_format: IndexFormat::Uint16,
            first_index: 0,
            end_index: self.indices.len() as u32,
            base_vertex: 0,
            instance_count: 1,
        }
    }
}

/// Two translations in a row are one translation by the sum of the offsets.
pub proof fn lemma_translations_add(
    a: Seq<Vertex>,
    b: Seq<Vertex>,
    c: Seq<Vertex>,
    dx1: int,
    dy1: int,
    dx2: int,
    dy2: int,
)
    requires
        is_translation_of(b, a, dx1, dy1),
        is_translation_of(c, b, dx2, dy2),
    ensures
        is_translation_of(c, a, dx1 + dx2, dy1 + dy2),
{
}

/// The order of two translations does not matter: moving by the first offset
/// and then by the second gives the same vertices as moving by the second and
/// then by the first.
pub proof fn lemma_translations_commute(
    a: Seq<Vertex>,
    b1: Seq<Vertex>,
    c1: Seq<Vertex>,
    b2: Seq<Vertex>,
    c2: Seq<Vertex>,
    dx1: int,
    dy1: int,
    dx2: int,
    dy2: int,
)
    requires
        is_translation_of(b1, a, dx1, dy1),
        is_translation_of(c1, b1, dx2, dy2),
        is_translation_of(b2, a, dx2, dy2),
        is_translation_of(c2, b2, dx1, dy1),
    ensures
        c1 == c2,
{
    assert forall|k: int| 0 <= k < c1.len() implies c1[k] == c2[k] by {
        assert(b1[k].position.x == a[k].position.x + dx1);
        assert(b2[k].position.x == a[k].position.x + dx2);
        assert(c1[k].position.x == b1[k].position.x + dx2);
        assert(c2[k].position.x == b2[k].position.x + dx1);
    }
    assert(c1 =~= c2);
}

} // verus!
