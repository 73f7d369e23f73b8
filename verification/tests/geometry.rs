use tile_render::geometry::{
    DrawCall, GeometryBuffer, GeometryError, IndexFormat, Vec3, Vertex, UNITS_PER_ONE,
};

fn vertex(x: i32, y: i32, r: i32, g: i32, b: i32) -> Vertex {
    Vertex { position: Vec3 { x, y, z: 0 }, color: Vec3 { x: r, y: g, z: b } }
}

fn quad() -> Vec<Vertex> {
    vec![
        vertex(0, 25, 0, 100, 0),
        vertex(-25, 25, 100, 0, 0),
        vertex(-25, 0, 0, 0, 100),
        vertex(0, 0, 100, 0, 100),
    ]
}

fn quad_geometry() -> GeometryBuffer {
    GeometryBuffer::new(quad(), vec![0, 1, 2, 0, 2, 3]).unwrap()
}

#[test]
fn one_is_a_hundred_units() {
    assert_eq!(UNITS_PER_ONE, 100);
}

#[test]
fn new_keeps_vertices_and_indices() {
    let g = quad_geometry();
    assert_eq!(g.vertices(), &quad());
    assert_eq!(g.indices(), &vec![0u16, 1, 2, 0, 2, 3]);
    assert!(g.needs_upload());
}

#[test]
fn new_rejects_index_out_of_range() {
    let r = GeometryBuffer::new(quad(), vec![0, 1, 7]);
    assert_eq!(r.err(), Some(GeometryError::IndexOutOfBounds));
}

#[test]
fn new_rejects_index_equal_to_vertex_count() {
    let r = GeometryBuffer::new(quad(), vec![0, 1, 2, 0, 2, 4]);
    assert_eq!(r.err(), Some(GeometryError::IndexOutOfBounds));
}

#[test]
fn new_accepts_largest_valid_index() {
    assert!(GeometryBuffer::new(quad(), vec![3, 3, 3]).is_ok());
}

#[test]
fn new_rejects_any_index_without_vertices() {
    let r = GeometryBuffer::new(vec![], vec![0]);
    assert_eq!(r.err(), Some(GeometryError::IndexOutOfBounds));
}

#[test]
fn new_accepts_empty_geometry() {
    let g = GeometryBuffer::new(vec![], vec![]).unwrap();
    assert!(g.vertices().is_empty());
    assert!(g.indices().is_empty());
    assert_eq!(g.draw_call().end_index, 0);
}

#[test]
fn translate_moves_every_position() {
    let mut g = quad_geometry();
    g.translate(7, -3);
    let before = quad();
    for (after, before) in g.vertices().iter().zip(before.iter()) {
        assert_eq!(after.position.x, before.position.x + 7);
        assert_eq!(after.position.y, before.position.y - 3);
        assert_eq!(after.position.z, before.position.z);
        assert_eq!(after.color, before.color);
    }
    assert_eq!(g.indices(), &vec![0u16, 1, 2, 0, 2, 3]);
}

#[test]
fn translate_twice_is_translate_by_sum() {
    let mut a = quad_geometry();
    a.translate(1, 0);
    a.translate(0, 1);
    let mut b = quad_geometry();
    b.translate(1, 1);
    assert_eq!(a.vertices(), b.vertices());
}

#[test]
fn translate_order_does_not_matter() {
    let mut a = quad_geometry();
    a.translate(4, -9);
    a.translate(-2, 30);
    let mut b = quad_geometry();
    b.translate(-2, 30);
    b.translate(4, -9);
    assert_eq!(a.vertices(), b.vertices());
}

#[test]
fn quad_moves_up_by_one_step() {
    let mut g = quad_geometry();
    g.translate(0, 5);
    assert_eq!(g.vertices()[0].position, Vec3 { x: 0, y: 30, z: 0 });
    let p = g.vertices()[0].position;
    let one = UNITS_PER_ONE as f32;
    assert_eq!((p.x as f32 / one, p.y as f32 / one, p.z as f32 / one), (0.0, 0.30, 0.0));
    assert_eq!(g.vertices()[3].position, Vec3 { x: 0, y: 5, z: 0 });
}

#[test]
fn translate_marks_stale_and_sync_clears() {
    let mut g = quad_geometry();
    assert!(g.sync_to_device());
    assert!(!g.needs_upload());
    assert!(!g.sync_to_device());
    g.translate(0, 0);
    assert!(g.needs_upload());
    assert!(g.sync_to_device());
    assert!(!g.needs_upload());
    assert_eq!(g.vertices(), &quad());
}

#[test]
fn can_translate_guards_the_coordinate_range() {
    let g = GeometryBuffer::new(vec![vertex(i32::MAX - 1, i32::MIN + 1, 0, 0, 0)], vec![0]).unwrap();
    assert!(g.can_translate(1, -1));
    assert!(!g.can_translate(2, 0));
    assert!(!g.can_translate(0, -2));
    assert!(g.can_translate(i32::MIN, i32::MAX));
}

#[test]
fn translate_reaches_the_edge_of_the_range() {
    let mut g = GeometryBuffer::new(vec![vertex(i32::MAX - 1, i32::MIN + 1, 0, 0, 0)], vec![0]).unwrap();
    g.translate(1, -1);
    assert_eq!(g.vertices()[0].position, Vec3 { x: i32::MAX, y: i32::MIN, z: 0 });
}

#[test]
fn draw_call_covers_every_index_once() {
    let g = quad_geometry();
    assert_eq!(
        g.draw_call(),
        DrawCall {
            vertex_slot: 0,
            index_format: IndexFormat::Uint16,
            first_index: 0,
            end_index: 6,
            base_vertex: 0,
            instance_count: 1,
        }
    );
}

#[test]
fn index_bytes_are_the_indices_in_memory_order() {
    let g = GeometryBuffer::new(quad(), vec![0, 1, 2, 0, 2, 3]).unwrap();
    let mut expected: Vec<u8> = Vec::new();
    for i in g.indices() {
        expected.extend_from_slice(&i.to_ne_bytes());
    }
    assert_eq!(g.index_bytes(), expected);
    assert_eq!(g.index_bytes().len(), 12);
}

#[test]
fn index_bytes_hold_both_bytes_of_an_index() {
    let vertices: Vec<Vertex> = (0..300).map(|k| vertex(k, k, 0, 0, 0)).collect();
    let g = GeometryBuffer::new(vertices, vec![258]).unwrap();
    let bytes = g.index_bytes();
    assert!(bytes == vec![2u8, 1u8] || bytes == vec![1u8, 2u8]);
}
