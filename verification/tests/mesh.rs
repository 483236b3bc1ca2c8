use chunk_mesher::mesh::{MeshBuffer, Vertex, Winding};

fn unit_square(height: i64) -> [Vertex; 4] {
    [
        Vertex { x: 0, y: height, z: 0 },
        Vertex { x: 1, y: height, z: 0 },
        Vertex { x: 0, y: height, z: 1 },
        Vertex { x: 1, y: height, z: 1 },
    ]
}

#[test]
fn new_buffer_is_empty() {
    let buffer = MeshBuffer::new();
    assert_eq!(buffer.vertex_count(), 0);
    assert_eq!(buffer.index_count(), 0);
    let (vertices, indices) = buffer.finalize();
    assert!(vertices.is_empty());
    assert!(indices.is_empty());
}

#[test]
fn push_quad_clockwise() {
    let mut buffer = MeshBuffer::new();
    buffer.push_quad(unit_square(0), Winding::Clockwise);
    let (vertices, indices) = buffer.finalize();
    assert_eq!(vertices, unit_square(0).to_vec());
    assert_eq!(indices, vec![0, 2, 1, 1, 2, 3]);
}

#[test]
fn push_quad_counter_clockwise() {
    let mut buffer = MeshBuffer::new();
    buffer.push_quad(unit_square(0), Winding::CounterClockwise);
    let (vertices, indices) = buffer.finalize();
    assert_eq!(vertices, unit_square(0).to_vec());
    assert_eq!(indices, vec![0, 1, 2, 2, 1, 3]);
}

#[test]
fn push_quad_counts_from_the_first_new_vertex() {
    let mut buffer = MeshBuffer::new();
    buffer.push_quad(unit_square(0), Winding::Clockwise);
    buffer.push_quad(unit_square(4), Winding::CounterClockwise);
    buffer.push_quad(unit_square(7), Winding::Clockwise);
    assert_eq!(buffer.vertex_count(), 12);
    assert_eq!(buffer.index_count(), 18);
    let (vertices, indices) = buffer.finalize();
    assert_eq!(&vertices[4..8], &unit_square(4)[..]);
    assert_eq!(&vertices[8..12], &unit_square(7)[..]);
    assert_eq!(indices, vec![0, 2, 1, 1, 2, 3, 4, 5, 6, 6, 5, 7, 8, 10, 9, 9, 10, 11]);
}

#[test]
fn push_vertex_returns_the_index() {
    let mut buffer = MeshBuffer::new();
    assert_eq!(buffer.push_vertex(Vertex { x: 1, y: 2, z: 3 }), 0);
    assert_eq!(buffer.push_vertex(Vertex { x: -1, y: -2, z: -3 }), 1);
    assert_eq!(buffer.push_vertex(Vertex { x: 0, y: 0, z: 0 }), 2);
    assert_eq!(buffer.index_count(), 0);
    buffer.push_triangle(2, 0, 1);
    let (vertices, indices) = buffer.finalize();
    assert_eq!(
        vertices,
        vec![
            Vertex { x: 1, y: 2, z: 3 },
            Vertex { x: -1, y: -2, z: -3 },
            Vertex { x: 0, y: 0, z: 0 },
        ]
    );
    assert_eq!(indices, vec![2, 0, 1]);
}

#[test]
fn quads_after_loose_vertices_are_offset() {
    let mut buffer = MeshBuffer::new();
    buffer.push_vertex(Vertex { x: 9, y: 9, z: 9 });
    buffer.push_quad(unit_square(1), Winding::Clockwise);
    let (vertices, indices) = buffer.finalize();
    assert_eq!(vertices.len(), 5);
    assert_eq!(indices, vec![1, 3, 2, 2, 3, 4]);
}
