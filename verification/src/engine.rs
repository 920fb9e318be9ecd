//! Render-facing records and an in-memory stand-in for the GPU buffer
//! collaborator.
//!
//! Positions and colors are kept as exact integers: a vertex coordinate is a
//! unit-cube corner component in `{-1, 1}` (the renderer multiplies by its
//! uniform scale factor when it converts to floating point), and a color
//! channel is `0` or `1` (full intensity).

use vstd::prelude::*;

verus! {

/// An RGB color with unit channels: each channel is `0` (off) or `1` (full
/// intensity). The rendering layer maps a channel value `c` to the float `c`.
#[derive(Clone, Copy, Debug, PartialEq, Eq, Structural)]
pub struct Color {
    pub r: u8,
    pub g: u8,
    pub b: u8,
}

/// One corner of the shared unit cube: a position with components in
/// `{-1, 1}` and a fixed fill color (per-cell color comes from the instance,
/// not the vertex).
#[derive(Clone, Copy, Debug, PartialEq, Eq, Structural)]
pub struct Vertex {
    pub x: i8,
    pub y: i8,
    pub z: i8,
    pub color: Color,
}

/// A per-cell render record: the cell's grid coordinates as a translation,
/// and the fixed color of the block occupying the cell.
#[derive(Clone, Copy, Debug, PartialEq, Eq, Structural)]
pub struct Instance {
    pub x: u32,
    pub y: u32,
    pub z: u32,
    pub color: Color,
}

/// An in-memory double for a GPU vertex buffer: it remembers exactly the
/// data last uploaded to it, so that the rebuild pipeline can be exercised
/// without a graphics device.
pub struct GpuBuffer {
    pub data: Vec<Vertex>,
}

/// Allocates `buffers` empty in-memory buffers.
pub fn gen_buffers(buffers: usize) -> (r: Vec<GpuBuffer>)
    ensures
        r@.len() == buffers,
        forall|i: int| 0 <= i < buffers ==> (#[trigger] r@[i]).data@.len() == 0,
{
    let mut out: Vec<GpuBuffer> = Vec::new();
    let mut i: usize = 0;
    while i < buffers
        invariant
            i <= buffers,
            out@.len() == i,
            forall|j: int| 0 <= j < i ==> (#[trigger] out@[j]).data@.len() == 0,
        decreases buffers - i,
    {
        out.push(GpuBuffer { data: Vec::new() });
        i = i + 1;
    }
    out
}

/// Creates a buffer holding a copy of the given vertex data.
pub fn create_buffer(vertices: &[Vertex]) -> (r: GpuBuffer)
    ensures
        r.data@ == vertices@,
{
    let mut data: Vec<Vertex> = Vec::new();
    let mut i: usize = 0;
    while i < vertices.len()
        invariant
            i <= vertices@.len(),
            data@ == vertices@.subrange(0, i as int),
        decreases vertices@.len() - i,
    {
        data.push(vertices[i]);
        i = i + 1;
    }
    assert(data@ =~= vertices@);
    GpuBuffer { data }
}

/// Replaces a buffer's contents with a copy of the given vertex data.
pub fn upload(buffer: &mut GpuBuffer, vertices: &[Vertex])
    ensures
        final(buffer).data@ == vertices@,
{
    let fresh = create_buffer(vertices);
    buffer.data = fresh.data;
}

} // verus!
