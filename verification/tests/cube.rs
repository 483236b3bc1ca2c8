use chunk_mesher::cube::{debug_cube, needs_marker};
use chunk_mesher::level::{Level, LevelGrid};
use chunk_mesher::mesh::Vertex;

#[test]
fn cube_has_eight_corners_and_twelve_triangles() {
    let cube = debug_cube();
    assert_eq!(cube.vertex_count(), 8);
    assert_eq!(cube.index_count(), 36);
    let (vertices, indices) = cube.finalize();
    assert_eq!(
        vertices,
        vec![
            Vertex { x: -1, y: -1, z: -1 },
            Vertex { x: 1, y: -1, z: -1 },
            Vertex { x: 1, y: 1, z: -1 },
            Vertex { x: -1, y: 1, z: -1 },
            Vertex { x: -1, y: -1, z: 1 },
            Vertex { x: 1, y: -1, z: 1 },
            Vertex { x: 1, y: 1, z: 1 },
            Vertex { x: -1, y: 1, z: 1 },
        ]
    );
    assert_eq!(
        indices,
        vec![
            4, 5, 6, 4, 6, 7, 1, 0, 3, 1, 3, 2, 0, 4, 7, 0, 7, 3, 5, 1, 2, 5, 2, 6, 3, 7, 6, 3, 6,
            2, 4, 0, 1, 4, 1, 5,
        ]
    );
}

#[test]
fn cube_triangles_face_outward() {
    let (vertices, indices) = debug_cube().finalize();
    let outward = [(0, 0, 1), (0, 0, -1), (-1, 0, 0), (1, 0, 0), (0, 1, 0), (0, -1, 0)];
    for (t, triangle) in indices.chunks(3).enumerate() {
        let a = vertices[triangle[0] as usize];
        let b = vertices[triangle[1] as usize];
        let c = vertices[triangle[2] as usize];
        let (ux, uy, uz) = (b.x - a.x, b.y - a.y, b.z - a.z);
        let (vx, vy, vz) = (c.x - a.x, c.y - a.y, c.z - a.z);
        let normal = (uy * vz - uz * vy, uz * vx - ux * vz, ux * vy - uy * vx);
        let (ox, oy, oz) = outward[t / 2];
        assert_eq!(normal, (4 * ox, 4 * oy, 4 * oz));
        for corner in [a, b, c] {
            assert_eq!(corner.x * ox + corner.y * oy + corner.z * oz, 1);
        }
    }
}

#[test]
fn cube_faces_are_covered_by_two_triangles_sharing_a_diagonal() {
    let (_, indices) = debug_cube().finalize();
    for face in indices.chunks(6) {
        assert_eq!(face[0], face[3]);
        assert_eq!(face[2], face[4]);
        let mut corners = face.to_vec();
        corners.sort();
        corners.dedup();
        assert_eq!(corners.len(), 4);
    }
}

#[test]
fn marker_needs_one_high_corner_of_four() {
    let mut grid = LevelGrid::filled(3, Level::Low).unwrap();
    for x in 0..2 {
        for y in 0..2 {
            assert!(!needs_marker(&grid, x, y));
        }
    }
    grid.set_level(2, 2, Level::High);
    assert!(needs_marker(&grid, 1, 1));
    assert!(!needs_marker(&grid, 0, 0));
    assert!(!needs_marker(&grid, 1, 0));
    assert!(!needs_marker(&grid, 0, 1));
    grid.set_level(1, 1, Level::High);
    for x in 0..2 {
        for y in 0..2 {
            assert!(needs_marker(&grid, x, y));
        }
    }
}

#[test]
fn marker_on_a_high_grid() {
    let grid = LevelGrid::filled(2, Level::High).unwrap();
    assert!(needs_marker(&grid, 0, 0));
}
