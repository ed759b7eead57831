use crate::platformer::map::{COORD_LIMIT, TILE_LIMIT};
use crate::geometry::vector2d::Vector2d;
use vstd::prelude::*;

verus! {

/// A sprite shown at a cell of the sprite-sheet viewer's grid.
pub struct Tile {
    pub sprite_name: String,
    pub x: u32,
    pub y: u32,
}

impl Tile {
    pub fn new(sprite_name: &str, x: u32, y: u32) -> (r: Tile)
        ensures
            r.sprite_name@ == sprite_name@,
            r.x == x,
            r.y == y,
    {
        Tile { sprite_name: sprite_name.to_owned(), x, y }
    }

    /// The cell's top left corner on a screen `height` high, with cells
    /// of `tile_size` and row 0 at the bottom.
    pub fn coords(&self, height: i64, tile_size: i64) -> (r: Vector2d)
        requires
            -COORD_LIMIT <= height <= COORD_LIMIT,
            0 < tile_size <= TILE_LIMIT,
        ensures
            r.x == tile_size * self.x,
            r.y == height - (1 + self.y) * tile_size,
    {
        proof {
            lemma_grid_product(self.x as int, tile_size as int);
            lemma_grid_product(1 + self.y, tile_size as int);
        }
        Vector2d {
            x: tile_size * (self.x as i64),
            y: height - (1 + self.y as i64) * tile_size,
        }
    }
}

proof fn lemma_grid_product(c: int, t: int)
    requires
        0 <= c <= 0x1_0000_0000,
        0 < t <= TILE_LIMIT,
    ensures
        0 <= c * t <= 0x100_0000_0000_0000,
        c * t == t * c,
{
    assert(0 <= c * t <= 0x100_0000_0000_0000 && c * t == t * c) by (nonlinear_arith)
        requires
            0 <= c <= 0x1_0000_0000,
            0 < t <= 0x100_0000,
    ;
}

/// The sprite, column and row of each cell that the viewer shows.
pub open spec fn viewer_layout() -> Seq<(Seq<char>, u32, u32)> {
    seq![
        ("tileYellow_04.png"@, 0u32, 0u32),
        ("tileYellow_04.png"@, 0u32, 1u32),
        ("tileYellow_04.png"@, 0u32, 2u32),
        ("tileYellow_06.png"@, 0u32, 3u32),
        ("tileYellow_04.png"@, 1u32, 0u32),
        ("tileYellow_09.png"@, 1u32, 1u32),
        ("tileYellow_20.png"@, 1u32, 2u32),
        ("tileYellow_11.png"@, 1u32, 3u32),
        ("tileYellow_04.png"@, 2u32, 0u32),
        ("tileYellow_20.png"@, 2u32, 1u32),
        ("tileYellow_11.png"@, 2u32, 2u32),
        ("tileYellow_04.png"@, 3u32, 0u32),
        ("tileYellow_06.png"@, 3u32, 1u32),
        ("tileYellow_18.png"@, 4u32, 0u32),
        ("tileYellow_06.png"@, 4u32, 1u32),
        ("tileYellow_04.png"@, 5u32, 0u32),
        ("tileYellow_07.png"@, 5u32, 1u32),
        ("tileYellow_06.png"@, 6u32, 0u32),
        ("tileYellow_06.png"@, 7u32, 0u32),
        ("tileYellow_04.png"@, 8u32, 0u32),
        ("tileYellow_04.png"@, 8u32, 1u32),
        ("tileYellow_05.png"@, 8u32, 2u32),
        ("tileYellow_04.png"@, 9u32, 0u32),
        ("tileYellow_09.png"@, 9u32, 1u32),
        ("tileYellow_06.png"@, 9u32, 2u32),
    ]
}

/// The grid that the sprite-sheet viewer shows.
pub fn viewer_tiles() -> (r: Vec<Tile>)
    ensures
        r@.map_values(|t: Tile| (t.sprite_name@, t.x, t.y)) == viewer_layout(),
{
    let r = vec![
        Tile::new("tileYellow_04.png", 0, 0),
        Tile::new("tileYellow_04.png", 0, 1),
        Tile::new("tileYellow_04.png", 0, 2),
        Tile::new("tileYellow_06.png", 0, 3),
        Tile::new("tileYellow_04.png", 1, 0),
        Tile::new("tileYellow_09.png", 1, 1),
        Tile::new("tileYellow_20.png", 1, 2),
        Tile::new("tileYellow_11.png", 1, 3),
        Tile::new("tileYellow_04.png", 2, 0),
        Tile::new("tileYellow_20.png", 2, 1),
        Tile::new("tileYellow_11.png", 2, 2),
        Tile::new("tileYellow_04.png", 3, 0),
        Tile::new("tileYellow_06.png", 3, 1),
        Tile::new("tileYellow_18.png", 4, 0),
        Tile::new("tileYellow_06.png", 4, 1),
        Tile::new("tileYellow_04.png", 5, 0),
        Tile::new("tileYellow_07.png", 5, 1),
        Tile::new("tileYellow_06.png", 6, 0),
        Tile::new("tileYellow_06.png", 7, 0),
        Tile::new("tileYellow_04.png", 8, 0),
        Tile::new("tileYellow_04.png", 8, 1),
        Tile::new("tileYellow_05.png", 8, 2),
        Tile::new("tileYellow_04.png", 9, 0),
        Tile::new("tileYellow_09.png", 9, 1),
        Tile::new("tileYellow_06.png", 9, 2),
    ];
    assert(r@.map_values(|t: Tile| (t.sprite_name@, t.x, t.y)) =~= viewer_layout());
    r
}

} // verus!
