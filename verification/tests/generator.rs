use embark_core::tilemap::{EmbarkParams, Tile, TileMap};

#[test]
fn generator_is_deterministic() {
    let params = EmbarkParams { seed: 3, dims: (17, 9) };
    let m1 = TileMap::generate(params);
    let m2 = TileMap::generate(params);
    assert_eq!(m1, m2);
}

#[test]
fn generated_size_is_width_times_height() {
    let m = TileMap::generate(EmbarkParams { seed: 0, dims: (10, 10) });
    assert_eq!(m.width, 10);
    assert_eq!(m.height, 10);
    assert_eq!(m.tiles.len(), 100);
}

#[test]
fn border_cells_are_walls_interior_empty() {
    let w: u32 = 4;
    let h: u32 = 3;
    let m = TileMap::generate(EmbarkParams { seed: 5, dims: (w, h) });
    for y in 0..h {
        for x in 0..w {
            let tile = m.tiles[(y * w + x) as usize];
            let on_border = x == 0 || y == 0 || x == w - 1 || y == h - 1;
            if on_border {
                assert_eq!(tile, Tile::Wall, "expected wall at ({x}, {y})");
            } else {
                assert_eq!(tile, Tile::Empty, "expected empty at ({x}, {y})");
            }
        }
    }
}

#[test]
fn smallest_map_is_all_walls() {
    let m = TileMap::generate(EmbarkParams { seed: 0, dims: (2, 2) });
    assert_eq!(m.tiles.len(), 4);
    for tile in &m.tiles {
        assert_eq!(*tile, Tile::Wall);
    }
}
