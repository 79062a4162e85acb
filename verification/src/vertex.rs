//! The layout of a vertex in the vertex buffer: position, texture
//! coordinates and normal, one behind the other without padding.

use vstd::prelude::*;

verus! {

/// The format of one vertex attribute: two or three 32-bit floats.
#[derive(Clone, Copy, Debug, PartialEq, Eq, Structural)]
pub enum VertexFormat {
    Float32x2,
    Float32x3,
}

/// One attribute of a vertex: where it starts within the vertex, and the
/// shader location that reads it.
#[derive(Clone, Copy, Debug, PartialEq, Eq, Structural)]
pub struct VertexAttribute {
    pub format: VertexFormat,
    pub offset: u64,
    pub shader_location: u32,
}

/// The layout of the vertex buffer: the bytes from one vertex to the next,
/// and the attributes of each vertex.
#[derive(Debug)]
pub struct VertexBufferLayout {
    pub array_stride: u64,
    pub attributes: Vec<VertexAttribute>,
}

impl VertexFormat {
    /// The number of bytes that an attribute of this format takes.
    pub open spec fn size(self) -> int {
        match self {
            VertexFormat::Float32x2 => 8,
            VertexFormat::Float32x3 => 12,
        }
    }

    /// Computes [`VertexFormat::size`].
    pub fn byte_size(&self) -> (size: u64)
        ensures
            size == self.size(),
    {
        match self {
            VertexFormat::Float32x2 => 8,
            VertexFormat::Float32x3 => 12,
        }
    }
}

/// The bytes that the first `n` of `formats` take together.
pub open spec fn packed_size(formats: Seq<VertexFormat>, n: int) -> int
    decreases n,
{
    if n <= 0 {
        0
    } else {
        packed_size(formats, n - 1) + formats[n - 1].size()
    }
}

/// The attributes of `formats` laid out one behind the other: attribute `i`
/// starts where the ones before it end and is read at shader location `i`.
pub open spec fn packed_attributes(formats: Seq<VertexFormat>) -> Seq<VertexAttribute> {
    Seq::new(
        formats.len(),
        |i: int|
            VertexAttribute {
                format: formats[i],
                offset: packed_size(formats, i) as u64,
                shader_location: i as u32,
            },
    )
}

/// The formats of a vertex: position, texture coordinates, normal.
pub open spec fn vertex_formats() -> Seq<VertexFormat> {
    seq![VertexFormat::Float32x3, VertexFormat::Float32x2, VertexFormat::Float32x3]
}

/// The first `n` attributes take at most twelve bytes each.
proof fn lemma_packed_size_bound(formats: Seq<VertexFormat>, n: int)
    requires
        0 <= n <= formats.len(),
    ensures
        0 <= packed_size(formats, n) <= 12 * n,
    decreases n,
{
    if n > 0 {
        lemma_packed_size_bound(formats, n - 1);
    }
}

/// Lays attributes of the given formats out without padding.
pub fn packed_layout(formats: &[VertexFormat]) -> (layout: VertexBufferLayout)
    requires
        formats@.len() <= u32::MAX,
    ensures
        layout.attributes@ == packed_attributes(formats@),
        layout.array_stride == packed_size(formats@, formats@.len() as int),
{
    let mut attributes: Vec<VertexAttribute> = Vec::new();
    let mut offset: u64 = 0;
    let mut i: usize = 0;
    while i < formats.len()
        invariant
            formats@.len() <= u32::MAX,
            0 <= i <= formats@.len(),
            offset == packed_size(formats@, i as int),
            attributes@.len() == i,
            forall|k: int| 0 <= k < i ==> attributes@[k] == packed_attributes(formats@)[k],
        decreases formats@.len() - i,
    {
        proof {
            lemma_packed_size_bound(formats@, i as int);
        }
        let format = formats[i];
        attributes.push(VertexAttribute { format, offset, shader_location: i as u32 });
        offset = offset + format.byte_size();
        i = i + 1;
    }
    assert(attributes@ =~= packed_attributes(formats@));
    VertexBufferLayout { array_stride: offset, attributes }
}

/// The layout of a vertex: position at byte 0, texture coordinates at byte
/// 12, normal at byte 20, and 32 bytes from one vertex to the next.
pub fn desc() -> (layout: VertexBufferLayout)
    ensures
        layout.array_stride == 32,
        layout.attributes@ == packed_attributes(vertex_formats()),
        layout.attributes@ == seq![
            VertexAttribute { format: VertexFormat::Float32x3, offset: 0, shader_location: 0 },
            VertexAttribute { format: VertexFormat::Float32x2, offset: 12, shader_location: 1 },
            VertexAttribute { format: VertexFormat::Float32x3, offset: 20, shader_location: 2 },
        ],
{
    let formats = [VertexFormat::Float32x3, VertexFormat::Float32x2, VertexFormat::Float32x3];
    assert(formats@ =~= vertex_formats());
    let layout = packed_layout(&formats);
    proof {
        reveal_with_fuel(packed_size, 4);
        assert(layout.attributes@ =~= seq![
            VertexAttribute { format: VertexFormat::Float32x3, offset: 0, shader_location: 0 },
            VertexAttribute { format: VertexFormat::Float32x2, offset: 12, shader_location: 1 },
            VertexAttribute { format: VertexFormat::Float32x3, offset: 20, shader_location: 2 },
        ]);
    }
    layout
}

} // verus!
