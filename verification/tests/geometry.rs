//! Tests of the rebuild step: the shared tables, the instance records, the
//! lazy render trigger, and the in-memory buffer double.

use voxel_mesh::engine::{create_buffer, gen_buffers, upload, Color, Vertex};
use voxel_mesh::voxels::{BlockType, Chunk, CHUNK_SIZE};

fn black() -> Color {
    Color { r: 0, g: 0, b: 0 }
}

fn red() -> Color {
    Color { r: 1, g: 0, b: 0 }
}

#[test]
fn color_table() {
    assert_eq!(BlockType::Red.get_color(), Color { r: 1, g: 0, b: 0 });
    assert_eq!(BlockType::Blue.get_color(), Color { r: 0, g: 1, b: 0 });
    assert_eq!(BlockType::Green.get_color(), Color { r: 0, g: 0, b: 1 });
    assert_eq!(BlockType::Yellow.get_color(), Color { r: 1, g: 1, b: 0 });
    assert_eq!(BlockType::Solid.get_color(), Color { r: 1, g: 0, b: 1 });
    assert_eq!(BlockType::Empty.get_color(), Color { r: 0, g: 0, b: 0 });
}

#[test]
fn shared_arrays_have_fixed_sizes() {
    // Before any rebuild, after a rebuild, and independent of grid contents.
    let mut c = Chunk::new();
    assert_eq!(c.vertices.len(), 24);
    assert_eq!(c.indices.len(), 36);
    assert_eq!(c.instances.len(), CHUNK_SIZE * CHUNK_SIZE * CHUNK_SIZE);
    c.set(0, 0, 0, BlockType::Solid);
    c.render();
    assert_eq!(c.vertices.len(), 24);
    assert_eq!(c.indices.len(), 36);
    assert_eq!(c.instances.len(), CHUNK_SIZE * CHUNK_SIZE * CHUNK_SIZE);
}

#[test]
fn index_table_contents() {
    let mut c = Chunk::new();
    c.render();
    let expected: [u16; 36] = [
        0, 1, 2, 2, 3, 0,
        4, 5, 6, 6, 7, 4,
        8, 9, 10, 10, 11, 8,
        12, 13, 14, 14, 15, 12,
        16, 17, 18, 18, 19, 16,
        20, 21, 22, 22, 23, 20,
    ];
    assert_eq!(c.indices.as_slice(), &expected);
}

#[test]
fn vertex_table_contents() {
    let mut c = Chunk::new();
    c.render();
    let expected: [(i8, i8, i8); 24] = [
        (-1, -1, 1), (1, -1, 1), (1, 1, 1), (-1, 1, 1),
        (-1, 1, -1), (1, 1, -1), (1, -1, -1), (-1, -1, -1),
        (1, -1, -1), (1, 1, -1), (1, 1, 1), (1, -1, 1),
        (-1, -1, 1), (-1, 1, 1), (-1, 1, -1), (-1, -1, -1),
        (1, 1, -1), (-1, 1, -1), (-1, 1, 1), (1, 1, 1),
        (1, -1, 1), (-1, -1, 1), (-1, -1, -1), (1, -1, -1),
    ];
    for (i, &(x, y, z)) in expected.iter().enumerate() {
        assert_eq!(c.vertices[i], Vertex { x, y, z, color: red() });
    }
}

#[test]
fn instance_layout_follows_flattening() {
    let mut c = Chunk::new();
    c.set(3, 1, 2, BlockType::Yellow);
    c.render();
    let n = CHUNK_SIZE;
    for x in 0..n {
        for y in 0..n {
            for z in 0..n {
                let inst = &c.instances[x + n * (y + n * z)];
                assert_eq!((inst.x, inst.y, inst.z), (x as u32, y as u32, z as u32));
                let expected = if (x, y, z) == (3, 1, 2) {
                    Color { r: 1, g: 1, b: 0 }
                } else {
                    black()
                };
                assert_eq!(inst.color, expected);
            }
        }
    }
}

#[test]
fn empty_grid_renders_one_black_instance_per_cell() {
    let mut c = Chunk::with_side(2);
    c.render();
    assert_eq!(c.instances.len(), 8);
    let mut seen = [false; 8];
    for inst in c.instances.iter() {
        assert_eq!(inst.color, black());
        assert!(inst.x < 2 && inst.y < 2 && inst.z < 2);
        let flat = (inst.x + 2 * (inst.y + 2 * inst.z)) as usize;
        assert!(!seen[flat]);
        seen[flat] = true;
    }
    assert!(seen.iter().all(|&s| s));
}

#[test]
fn set_origin_red_changes_only_instance_zero() {
    let mut c = Chunk::with_side(2);
    c.render();
    let before: Vec<_> = c.instances.clone();
    c.set(0, 0, 0, BlockType::Red);
    c.render();
    assert_eq!(c.instances[0].color, red());
    assert_eq!((c.instances[0].x, c.instances[0].y, c.instances[0].z), (0, 0, 0));
    for i in 1..8 {
        assert_eq!(c.instances[i], before[i]);
    }
}

#[test]
fn second_render_reuses_cache() {
    let mut c = Chunk::with_side(2);
    c.set(1, 1, 1, BlockType::Green);
    let first = c.render();
    let cached_instances = c.instances.clone();
    let cached_vertices = c.vertices.clone();
    let cached_indices = c.indices.clone();
    let second = c.render();
    // The rebuild ran exactly once across the two calls.
    assert!(first);
    assert!(!second);
    assert_eq!(c.instances, cached_instances);
    assert_eq!(c.vertices, cached_vertices);
    assert_eq!(c.indices, cached_indices);
}

#[test]
fn update_rebuilds_unconditionally() {
    let mut c = Chunk::new();
    c.render();
    assert!(!c.is_dirty());
    c.update();
    assert!(!c.is_dirty());
    assert_eq!(c.instances.len(), CHUNK_SIZE * CHUNK_SIZE * CHUNK_SIZE);
}

#[test]
fn gen_buffers_allocates_empty_buffers() {
    let buffers = gen_buffers(3);
    assert_eq!(buffers.len(), 3);
    for b in &buffers {
        assert!(b.data.is_empty());
    }
}

#[test]
fn create_buffer_copies_vertices() {
    let mut c = Chunk::new();
    c.render();
    let buf = create_buffer(c.vertices.as_slice());
    assert_eq!(buf.data, c.vertices);
}

#[test]
fn upload_replaces_buffer_contents() {
    let mut c = Chunk::new();
    c.render();
    let mut buffers = gen_buffers(1);
    upload(&mut buffers[0], c.vertices.as_slice());
    assert_eq!(buffers[0].data, c.vertices);
}
