use chunk_mesher::chunk::{generate_chunk, WallPolicy};
use chunk_mesher::level::{Level, LevelGrid};
use chunk_mesher::mesh::Vertex;
use fastnoise_lite::{FastNoiseLite, FractalType, NoiseType};

fn terrain_noise(seed: i32) -> FastNoiseLite {
    let mut noise = FastNoiseLite::with_seed(seed);
    noise.set_fractal_type(Some(FractalType::FBm));
    noise.set_fractal_octaves(Some(5));
    noise.set_frequency(Some(0.035));
    noise.set_fractal_weighted_strength(Some(0.5));
    noise.set_noise_type(Some(NoiseType::OpenSimplex2));
    noise
}

fn sampled_grid(seed: i32, size: u32) -> LevelGrid {
    let noise = terrain_noise(seed);
    let mut grid = LevelGrid::filled(size, Level::Low).unwrap();
    for x in 0..size {
        for y in 0..size {
            let normalized = (noise.get_noise_2d(x as f32, y as f32) + 1.0) / 2.0;
            grid.set_level(x, y, Level::from_rounded(normalized.round() as u32));
        }
    }
    grid
}

fn differing_edges(grid: &LevelGrid) -> usize {
    let size = grid.size();
    let mut differing = 0;
    for x in 0..size {
        for y in 0..size {
            if x + 1 < size && grid.level(x, y) != grid.level(x + 1, y) {
                differing += 1;
            }
            if y + 1 < size && grid.level(x, y) != grid.level(x, y + 1) {
                differing += 1;
            }
        }
    }
    differing
}

fn mesh_of(grid: &LevelGrid, policy: WallPolicy) -> (Vec<Vertex>, Vec<u32>) {
    generate_chunk(grid, 4, policy).finalize()
}

#[test]
fn sampled_terrain_has_both_levels() {
    let grid = sampled_grid(1337, 64);
    let mut high = 0;
    for x in 0..64 {
        for y in 0..64 {
            if grid.level(x, y) == Level::High {
                high += 1;
            }
        }
    }
    assert!(high > 0);
    assert!(high < 64 * 64);
}

#[test]
fn sampled_terrain_is_deterministic() {
    for policy in [WallPolicy::BothSides, WallPolicy::LowerSideOnly] {
        let first = mesh_of(&sampled_grid(1337, 64), policy);
        let second = mesh_of(&sampled_grid(1337, 64), policy);
        assert_eq!(first, second);
    }
}

#[test]
fn sampled_terrain_indices_are_valid() {
    for seed in [1337, 1, -7] {
        let grid = sampled_grid(seed, 32);
        for policy in [WallPolicy::BothSides, WallPolicy::LowerSideOnly] {
            let (vertices, indices) = mesh_of(&grid, policy);
            assert_eq!(indices.len() % 3, 0);
            assert!(!vertices.is_empty());
            assert!(indices.iter().all(|index| (*index as usize) < vertices.len()));
        }
    }
}

#[test]
fn sampled_terrain_has_a_floor_per_cell_and_walls_per_edge() {
    let grid = sampled_grid(1337, 64);
    let edges = differing_edges(&grid);
    assert!(edges > 0);
    let (vertices, indices) = mesh_of(&grid, WallPolicy::LowerSideOnly);
    assert_eq!(vertices.len(), 4 * (64 * 64 + edges));
    assert_eq!(indices.len(), 6 * (64 * 64 + edges));
    let (vertices, indices) = mesh_of(&grid, WallPolicy::BothSides);
    assert_eq!(vertices.len(), 4 * (64 * 64 + 2 * edges));
    assert_eq!(indices.len(), 6 * (64 * 64 + 2 * edges));
}

#[test]
fn sampled_terrain_floors_are_at_zero_or_the_wall_height() {
    let grid = sampled_grid(1337, 16);
    let (vertices, _) = mesh_of(&grid, WallPolicy::BothSides);
    for corner in &vertices {
        assert!(corner.y == 0 || corner.y == 4);
        assert!(0 <= corner.x && corner.x <= 16);
        assert!(0 <= corner.z && corner.z <= 16);
    }
}
