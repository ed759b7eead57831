use crate::geometry::vector2d::{div_toward_zero, tdiv, Vector2d};
use vstd::prelude::*;

verus! {

/// Largest tile side, in subpixels.
pub const TILE_LIMIT: i64 = 16_777_216;

/// Bound on the coordinates handed to the map's queries and on the screen size.
pub const COORD_LIMIT: i64 = 72_057_594_037_927_936;

/// What a tile is, as plain values.
pub struct TileView {
    pub name: Seq<char>,
    pub x: u32,
    pub y: u32,
    pub align_to_center: bool,
    pub rat_x: i64,
    pub rat_y: i64,
}

/// A sprite placed on the grid. `rat_x` and `rat_y` shift it by thousandths
/// of a tile.
pub struct Tile {
    pub sprite_name: String,
    pub x: u32,
    pub y: u32,
    pub align_to_center: bool,
    pub rat_x: i64,
    pub rat_y: i64,
}

impl View for Tile {
    type V = TileView;

    open spec fn view(&self) -> TileView {
        TileView {
            name: self.sprite_name@,
            x: self.x,
            y: self.y,
            align_to_center: self.align_to_center,
            rat_x: self.rat_x,
            rat_y: self.rat_y,
        }
    }
}

impl Tile {
    pub fn new_tile(sprite_name: &str, x: u32, y: u32) -> (r: Tile)
        ensures
            r@ == (TileView {
                name: sprite_name@,
                x,
                y,
                align_to_center: false,
                rat_x: 0,
                rat_y: 0,
            }),
    {
        Tile {
            sprite_name: sprite_name.to_owned(),
            x,
            y,
            align_to_center: false,
            rat_x: 0,
            rat_y: 0,
        }
    }

    pub fn new_decoration(
        sprite_name: &str,
        x: u32,
        y: u32,
        align_to_center: bool,
        rat_x: i64,
        rat_y: i64,
    ) -> (r: Tile)
        ensures
            r@ == (TileView { name: sprite_name@, x, y, align_to_center, rat_x, rat_y }),
    {
        Tile { sprite_name: sprite_name.to_owned(), x, y, align_to_center, rat_x, rat_y }
    }

    /// Where the sprite is drawn on a screen `screen_height` high, in
    /// subpixels from the top left: centred on the bottom of its cell, or
    /// at the cell's corner shifted by `rat_x` and `rat_y`.
    pub open spec fn coords_spec(self, screen_height: int, tile_size: int, sprite_size: Vector2d) -> (
        int,
        int,
    ) {
        if self.align_to_center {
            (
                tile_size * self.x + tdiv(tile_size - sprite_size.x, 2),
                screen_height - self.y * tile_size - sprite_size.y,
            )
        } else {
            (
                tdiv(tile_size * (1000 * self.x + self.rat_x), 1000),
                screen_height - tdiv((1000 + 1000 * self.y + self.rat_y) * tile_size, 1000),
            )
        }
    }

    pub fn coords(&self, screen_height: i64, tile_size: i64, sprite_size: Vector2d) -> (r: Vector2d)
        requires
            -COORD_LIMIT <= screen_height <= COORD_LIMIT,
            0 < tile_size <= TILE_LIMIT,
            sprite_size.within(TILE_LIMIT as int),
            -0x10_0000 <= self.rat_x <= 0x10_0000,
            -0x10_0000 <= self.rat_y <= 0x10_0000,
        ensures
            r.x == self.coords_spec(screen_height as int, tile_size as int, sprite_size).0,
            r.y == self.coords_spec(screen_height as int, tile_size as int, sprite_size).1,
    {
        let ts = tile_size as i128;
        let x = self.x as i128;
        let y = self.y as i128;
        proof {
            lemma_cell_product(self.x as int, tile_size as int);
            lemma_cell_product(self.y as int, tile_size as int);
            lemma_scaled_product(1000 * self.x + self.rat_x, tile_size as int);
            lemma_scaled_product(1000 + 1000 * self.y + self.rat_y, tile_size as int);
        }
        if self.align_to_center {
            Vector2d {
                x: (ts * x + div_toward_zero(ts - (sprite_size.x as i128), 2)) as i64,
                y: ((screen_height as i128) - y * ts - (sprite_size.y as i128)) as i64,
            }
        } else {
            let cx = div_toward_zero(ts * (1000 * x + (self.rat_x as i128)), 1000);
            let cy = div_toward_zero((1000 + 1000 * y + (self.rat_y as i128)) * ts, 1000);
            proof {
                lemma_tdiv_thousandth(ts * (1000 * x + (self.rat_x as i128)));
                lemma_tdiv_thousandth((1000 + 1000 * y + (self.rat_y as i128)) * ts);
            }
            Vector2d { x: cx as i64, y: ((screen_height as i128) - cy) as i64 }
        }
    }
}

proof fn lemma_cell_product(c: int, t: int)
    requires
        0 <= c <= 0x1_0000_0000,
        0 < t <= TILE_LIMIT,
    ensures
        0 <= c * t <= 0x100_0000_0000_0000,
{
    assert(0 <= c * t <= 0x100_0000_0000_0000) by (nonlinear_arith)
        requires
            0 <= c <= 0x1_0000_0000,
            0 < t <= 0x100_0000,
    ;
}

proof fn lemma_scaled_product(c: int, t: int)
    requires
        -0x10_0000 <= c <= 1000 * 0x1_0000_0000 + 0x10_0000 + 1000,
        0 < t <= TILE_LIMIT,
    ensures
        -0x1000_0000_0000 <= c * t <= 1000 * 0x200_0000_0000_0000,
        c * t == t * c,
{
    assert(-0x1000_0000_0000 <= c * t <= 1000 * 0x200_0000_0000_0000 && c * t == t * c)
        by (nonlinear_arith)
        requires
            -0x10_0000 <= c <= 1000 * 0x1_0000_0000 + 0x10_0000 + 1000,
            0 < t <= 0x100_0000,
    ;
}

proof fn lemma_tdiv_thousandth(a: int)
    requires
        -0x1000_0000_0000 <= a <= 1000 * 0x200_0000_0000_0000,
    ensures
        -0x1000_0000_0000 <= tdiv(a, 1000) <= 0x200_0000_0000_0000,
{
    if a >= 0 {
        vstd::arithmetic::div_mod::lemma_div_is_ordered(a, 1000 * 0x200_0000_0000_0000int, 1000);
        vstd::arithmetic::div_mod::lemma_div_pos_is_pos(a, 1000);
    } else {
        vstd::arithmetic::div_mod::lemma_div_is_ordered(-a, 0x1000_0000_0000int, 1000);
        vstd::arithmetic::div_mod::lemma_div_pos_is_pos(-a, 1000);
    }
}

/// The grid cell, column or row, of a coordinate: negative coordinates
/// fall in cell 0, and cells past `u32::MAX` in that one.
pub open spec fn cell_of(p: int, tile_size: int) -> u32 {
    if p < 0 {
        0
    } else if p / tile_size > u32::MAX {
        u32::MAX
    } else {
        (p / tile_size) as u32
    }
}

/// The grid line of a tile: its column when `vertical`, else its row.
pub open spec fn tile_line(t: Tile, vertical: bool) -> u32 {
    if vertical {
        t.x
    } else {
        t.y
    }
}

/// A tile's place along its grid line: its row when `vertical`, else its
/// column.
pub open spec fn tile_along(t: Tile, vertical: bool) -> u32 {
    if vertical {
        t.y
    } else {
        t.x
    }
}

/// The tile lies on `line`, at or below `at` when `below`, else at or
/// above it.
pub open spec fn on_side(t: Tile, vertical: bool, below: bool, line: u32, at: u32) -> bool {
    tile_line(t, vertical) == line && if below {
        tile_along(t, vertical) <= at
    } else {
        tile_along(t, vertical) >= at
    }
}

/// Along the grid line `line` (a column when `vertical`, else a row), the
/// position of the tile nearest to `at` on the side that `below` picks,
/// `at` itself included.
pub open spec fn nearest(tiles: Seq<Tile>, vertical: bool, below: bool, line: u32, at: u32) -> Option<
    u32,
>
    decreases tiles.len(),
{
    if tiles.len() == 0 {
        None
    } else {
        let rest = nearest(tiles.drop_last(), vertical, below, line, at);
        let p = tile_along(tiles.last(), vertical);
        if on_side(tiles.last(), vertical, below, line, at) {
            match rest {
                Some(q) => if (below && p > q) || (!below && p < q) {
                    Some(p)
                } else {
                    Some(q)
                },
                None => Some(p),
            }
        } else {
            rest
        }
    }
}

/// `nearest` is the largest place (the smallest when not `below`) among the
/// tiles on the line and on the side of `at`, and none when no tile is.
pub proof fn lemma_nearest_is_closest(
    tiles: Seq<Tile>,
    vertical: bool,
    below: bool,
    line: u32,
    at: u32,
)
    ensures
        nearest(tiles, vertical, below, line, at) is None <==> forall|j: int|
            0 <= j < tiles.len() ==> !on_side(#[trigger] tiles[j], vertical, below, line, at),
        nearest(tiles, vertical, below, line, at) is Some ==> exists|i: int|
            0 <= i < tiles.len() && on_side(#[trigger] tiles[i], vertical, below, line, at)
                && tile_along(tiles[i], vertical) == nearest(
                tiles,
                vertical,
                below,
                line,
                at,
            ).unwrap(),
        nearest(tiles, vertical, below, line, at) is Some ==> forall|j: int|
            0 <= j < tiles.len() && on_side(#[trigger] tiles[j], vertical, below, line, at) ==> if below {
                tile_along(tiles[j], vertical) <= nearest(tiles, vertical, below, line, at).unwrap()
            } else {
                tile_along(tiles[j], vertical) >= nearest(tiles, vertical, below, line, at).unwrap()
            },
    decreases tiles.len(),
{
    if tiles.len() > 0 {
        let init = tiles.drop_last();
        lemma_nearest_is_closest(init, vertical, below, line, at);
        assert forall|j: int| 0 <= j < init.len() implies init[j] == tiles[j] by {}
        let last = tiles.len() - 1;
        assert(tiles[last] == tiles.last());
        if on_side(tiles.last(), vertical, below, line, at) {
            match nearest(init, vertical, below, line, at) {
                Some(q) => {
                    let i0 = choose|i: int|
                        0 <= i < init.len() && on_side(#[trigger] init[i], vertical, below, line, at)
                            && tile_along(init[i], vertical) == q;
                    assert(tiles[i0] == init[i0]);
                },
                None => {},
            }
        } else {
            match nearest(init, vertical, below, line, at) {
                Some(q) => {
                    let i0 = choose|i: int|
                        0 <= i < init.len() && on_side(#[trigger] init[i], vertical, below, line, at)
                            && tile_along(init[i], vertical) == q;
                    assert(tiles[i0] == init[i0]);
                },
                None => {},
            }
        }
        assert forall|j: int|
            0 <= j < tiles.len() && on_side(#[trigger] tiles[j], vertical, below, line, at)
                implies j == last || on_side(init[j], vertical, below, line, at) by {
            if j < last {
                assert(init[j] == tiles[j]);
            }
        }
    }
}

fn nearest_tile(tiles: &Vec<Tile>, vertical: bool, below: bool, line: u32, at: u32) -> (r: Option<
    u32,
>)
    ensures
        r == nearest(tiles@, vertical, below, line, at),
{
    let mut best: Option<u32> = None;
    let mut i: usize = 0;
    while i < tiles.len()
        invariant
            i <= tiles.len(),
            best == nearest(tiles@.take(i as int), vertical, below, line, at),
        decreases tiles.len() - i,
    {
        let t = &tiles[i];
        let (l, p) = if vertical {
            (t.x, t.y)
        } else {
            (t.y, t.x)
        };
        let on_side = if below {
            p <= at
        } else {
            p >= at
        };
        if l == line && on_side {
            best = match best {
                Some(q) => if (below && p > q) || (!below && p < q) {
                    Some(p)
                } else {
                    Some(q)
                },
                None => Some(p),
            };
        }
        proof {
            assert(tiles@.take(i + 1).drop_last() =~= tiles@.take(i as int));
        }
        i += 1;
    }
    assert(tiles@.take(tiles.len() as int) =~= tiles@);
    best
}

/// What a map is, as plain values.
pub struct GameMapView {
    pub tile_size: int,
    pub tiles: Seq<TileView>,
    pub decorations: Seq<TileView>,
    pub flag: TileView,
    pub is_flag_reached: bool,
}

/// The level: solid tiles, decorations that nothing collides with, and the
/// goal flag.
pub struct GameMap {
    pub tile_size: i64,
    pub tiles: Vec<Tile>,
    pub decorations: Vec<Tile>,
    pub flag: Tile,
    pub is_flag_reached: bool,
}

/// A solid tile: no shift, drawn at its cell's corner.
pub open spec fn plain_tile(name: Seq<char>, x: u32, y: u32) -> TileView {
    TileView { name, x, y, align_to_center: false, rat_x: 0, rat_y: 0 }
}

/// The level's solid tiles.
pub open spec fn level_tiles() -> Seq<TileView> {
    seq![
        plain_tile("tileYellow_15.png"@, 0, 0),
        plain_tile("tileYellow_09.png"@, 0, 1),
        plain_tile("tileYellow_07.png"@, 0, 2),
        plain_tile("tileYellow_06.png"@, 1, 0),
        plain_tile("tileYellow_06.png"@, 2, 0),
        plain_tile("tileYellow_14.png"@, 3, 0),
        plain_tile("tileYellow_05.png"@, 3, 1),
        plain_tile("tileYellow_15.png"@, 4, 0),
        plain_tile("tileYellow_07.png"@, 4, 1),
        plain_tile("tileYellow_16.png"@, 4, 4),
        plain_tile("tileYellow_06.png"@, 5, 0),
        plain_tile("tileYellow_06.png"@, 5, 4),
        plain_tile("tileYellow_06.png"@, 6, 0),
        plain_tile("tileYellow_17.png"@, 6, 4),
        plain_tile("tileYellow_14.png"@, 7, 0),
        plain_tile("tileYellow_05.png"@, 7, 1),
        plain_tile("tileYellow_04.png"@, 8, 0),
        plain_tile("tileYellow_14.png"@, 8, 1),
        plain_tile("tileYellow_05.png"@, 8, 2),
        plain_tile("tileYellow_04.png"@, 9, 0),
        plain_tile("tileYellow_18.png"@, 9, 1),
        plain_tile("tileYellow_06.png"@, 9, 2),
    ]
}

/// The level's decorations.
pub open spec fn level_decorations() -> Seq<TileView> {
    seq![
        TileView {
            name: "plantGreen_3.png"@,
            x: 3,
            y: 2,
            align_to_center: true,
            rat_x: 0,
            rat_y: 0,
        },
        TileView {
            name: "signArrow_right.png"@,
            x: 0,
            y: 3,
            align_to_center: true,
            rat_x: 0,
            rat_y: 0,
        },
    ]
}

/// The goal flag before it is reached.
pub open spec fn lowered_flag() -> TileView {
    TileView {
        name: "flagGreen_down.png"@,
        x: 4,
        y: 5,
        align_to_center: false,
        rat_x: 300,
        rat_y: -50i64,
    }
}

/// The flag as it stands once the goal is reached.
pub open spec fn raised_flag(flag: TileView) -> TileView {
    TileView { name: "flagGreen_up.png"@, align_to_center: false, rat_x: 300i64, rat_y: -50i64, ..flag }
}

/// What reaching the goal does to a map: the first time the flag is
/// raised, afterwards nothing changes.
pub open spec fn flag_reached_post(before: GameMapView, after: GameMapView) -> bool {
    &&& after.tile_size == before.tile_size
    &&& after.tiles == before.tiles
    &&& after.decorations == before.decorations
    &&& after.is_flag_reached
    &&& after.flag == if before.is_flag_reached {
        before.flag
    } else {
        raised_flag(before.flag)
    }
}

/// Reaching the goal a second time leaves the flag as the first time left it.
pub proof fn lemma_flag_reached_idempotent(m0: GameMapView, m1: GameMapView, m2: GameMapView)
    requires
        flag_reached_post(m0, m1),
        flag_reached_post(m1, m2),
    ensures
        m2.flag == m1.flag,
        m2 == m1,
{
}

impl View for GameMap {
    type V = GameMapView;

    open spec fn view(&self) -> GameMapView {
        GameMapView {
            tile_size: self.tile_size as int,
            tiles: self.tiles@.map_values(|t: Tile| t@),
            decorations: self.decorations@.map_values(|t: Tile| t@),
            flag: self.flag@,
            is_flag_reached: self.is_flag_reached,
        }
    }
}

impl GameMap {
    /// Tiles have a usable size, and a map that records the goal as
    /// reached shows the raised flag.
    pub open spec fn wf(self) -> bool {
        &&& 0 < self.tile_size <= TILE_LIMIT
        &&& self.is_flag_reached ==> self.flag@ == raised_flag(self.flag@)
    }

    pub open spec fn cell(self, pos: Vector2d) -> (u32, u32) {
        (cell_of(pos.x as int, self.tile_size as int), cell_of(pos.y as int, self.tile_size as int))
    }

    /// Top of the highest tile in the player's column at or below the
    /// player's cell, or 0.
    pub open spec fn floor_spec(self, pos: Vector2d) -> int {
        match nearest(self.tiles@, true, true, self.cell(pos).0, self.cell(pos).1) {
            Some(y) => (y + 1) * self.tile_size,
            None => 0,
        }
    }

    /// Bottom of the lowest tile in the player's column at or above the
    /// player's cell, or the screen's `height`.
    pub open spec fn ceiling_spec(self, pos: Vector2d, height: int) -> int {
        match nearest(self.tiles@, true, false, self.cell(pos).0, self.cell(pos).1) {
            Some(y) => y * self.tile_size,
            None => height,
        }
    }

    /// Right side of the nearest tile in the player's row at or left of
    /// the player's cell, or 0.
    pub open spec fn wall_left_spec(self, pos: Vector2d) -> int {
        match nearest(self.tiles@, false, true, self.cell(pos).1, self.cell(pos).0) {
            Some(x) => (x + 1) * self.tile_size,
            None => 0,
        }
    }

    /// Left side of the nearest tile in the player's row at or right of
    /// the player's cell, or the screen's `width`.
    pub open spec fn wall_right_spec(self, pos: Vector2d, width: int) -> int {
        match nearest(self.tiles@, false, false, self.cell(pos).1, self.cell(pos).0) {
            Some(x) => x * self.tile_size,
            None => width,
        }
    }

    /// The map's bounds fall within the screen's range.
    pub proof fn lemma_bounds_in_range(self, pos: Vector2d, screen: Vector2d)
        requires
            self.wf(),
            0 <= screen.x <= COORD_LIMIT,
            0 <= screen.y <= COORD_LIMIT,
        ensures
            0 <= self.floor_spec(pos) <= COORD_LIMIT,
            0 <= self.ceiling_spec(pos, screen.y as int) <= COORD_LIMIT,
            0 <= self.wall_left_spec(pos) <= COORD_LIMIT,
            0 <= self.wall_right_spec(pos, screen.x as int) <= COORD_LIMIT,
    {
        let (cx, cy) = self.cell(pos);
        match nearest(self.tiles@, true, true, cx, cy) {
            Some(y) => lemma_cell_product(y + 1, self.tile_size as int),
            None => {},
        }
        match nearest(self.tiles@, true, false, cx, cy) {
            Some(y) => lemma_cell_product(y as int, self.tile_size as int),
            None => {},
        }
        match nearest(self.tiles@, false, true, cy, cx) {
            Some(x) => lemma_cell_product(x + 1, self.tile_size as int),
            None => {},
        }
        match nearest(self.tiles@, false, false, cy, cx) {
            Some(x) => lemma_cell_product(x as int, self.tile_size as int),
            None => {},
        }
    }

    /// The level, with tiles of `tile_size` subpixels.
    pub fn new(tile_size: i64) -> (r: GameMap)
        ensures
            r@ == (GameMapView {
                tile_size: tile_size as int,
                tiles: level_tiles(),
                decorations: level_decorations(),
                flag: lowered_flag(),
                is_flag_reached: false,
            }),
            r.tile_size == tile_size,
            !r.is_flag_reached,
            0 < tile_size <= TILE_LIMIT ==> r.wf(),
    {
        let tiles = vec![
            Tile::new_tile("tileYellow_15.png", 0, 0),
            Tile::new_tile("tileYellow_09.png", 0, 1),
            Tile::new_tile("tileYellow_07.png", 0, 2),
            Tile::new_tile("tileYellow_06.png", 1, 0),
            Tile::new_tile("tileYellow_06.png", 2, 0),
            Tile::new_tile("tileYellow_14.png", 3, 0),
            Tile::new_tile("tileYellow_05.png", 3, 1),
            Tile::new_tile("tileYellow_15.png", 4, 0),
            Tile::new_tile("tileYellow_07.png", 4, 1),
            Tile::new_tile("tileYellow_16.png", 4, 4),
            Tile::new_tile("tileYellow_06.png", 5, 0),
            Tile::new_tile("tileYellow_06.png", 5, 4),
            Tile::new_tile("tileYellow_06.png", 6, 0),
            Tile::new_tile("tileYellow_17.png", 6, 4),
            Tile::new_tile("tileYellow_14.png", 7, 0),
            Tile::new_tile("tileYellow_05.png", 7, 1),
            Tile::new_tile("tileYellow_04.png", 8, 0),
            Tile::new_tile("tileYellow_14.png", 8, 1),
            Tile::new_tile("tileYellow_05.png", 8, 2),
            Tile::new_tile("tileYellow_04.png", 9, 0),
            Tile::new_tile("tileYellow_18.png", 9, 1),
            Tile::new_tile("tileYellow_06.png", 9, 2),
        ];
        let decorations = vec![
            Tile::new_decoration("plantGreen_3.png", 3, 2, true, 0, 0),
            Tile::new_decoration("signArrow_right.png", 0, 3, true, 0, 0),
        ];
        let flag = Tile::new_decoration("flagGreen_down.png", 4, 5, false, 300, -50);
        let r = GameMap { tile_size, tiles, decorations, flag, is_flag_reached: false };
        assert(r@.tiles =~= level_tiles());
        assert(r@.decorations =~= level_decorations());
        r
    }

    /// The grid cell that holds `pos`.
    pub fn player_pos(&self, pos: Vector2d) -> (r: (u32, u32))
        requires
            self.wf(),
        ensures
            r == self.cell(pos),
    {
        (cell(pos.x, self.tile_size), cell(pos.y, self.tile_size))
    }

    pub fn floor_under_position(&self, pos: Vector2d) -> (r: i64)
        requires
            self.wf(),
        ensures
            r == self.floor_spec(pos),
    {
        let (x, y) = self.player_pos(pos);
        match nearest_tile(&self.tiles, true, true, x, y) {
            Some(ty) => {
                proof {
                    lemma_cell_product((ty + 1) as int, self.tile_size as int);
                }
                ((ty as i64) + 1) * self.tile_size
            },
            None => 0,
        }
    }

    pub fn ceiling_over_position(&self, pos: Vector2d, height: i64) -> (r: i64)
        requires
            self.wf(),
        ensures
            r == self.ceiling_spec(pos, height as int),
    {
        let (x, y) = self.player_pos(pos);
        match nearest_tile(&self.tiles, true, false, x, y) {
            Some(ty) => {
                proof {
                    lemma_cell_product(ty as int, self.tile_size as int);
                }
                (ty as i64) * self.tile_size
            },
            None => height,
        }
    }

    pub fn wall_at_left(&self, pos: Vector2d) -> (r: i64)
        requires
            self.wf(),
        ensures
            r == self.wall_left_spec(pos),
    {
        let (x, y) = self.player_pos(pos);
        match nearest_tile(&self.tiles, false, true, y, x) {
            Some(tx) => {
                proof {
                    lemma_cell_product((tx + 1) as int, self.tile_size as int);
                }
                ((tx as i64) + 1) * self.tile_size
            },
            None => 0,
        }
    }

    pub fn wall_at_right(&self, pos: Vector2d, width: i64) -> (r: i64)
        requires
            self.wf(),
        ensures
            r == self.wall_right_spec(pos, width as int),
    {
        let (x, y) = self.player_pos(pos);
        match nearest_tile(&self.tiles, false, false, y, x) {
            Some(tx) => {
                proof {
                    lemma_cell_product(tx as int, self.tile_size as int);
                }
                (tx as i64) * self.tile_size
            },
            None => width,
        }
    }

    /// Raises the flag, once.
    pub fn flag_reached(&mut self)
        ensures
            flag_reached_post(old(self)@, final(self)@),
            final(self).tile_size == old(self).tile_size,
            old(self).wf() ==> final(self).wf() && final(self).flag@ == raised_flag(old(self).flag@),
    {
        if !self.is_flag_reached {
            self.flag = Tile::new_decoration(
                "flagGreen_up.png",
                self.flag.x,
                self.flag.y,
                false,
                300,
                -50,
            );
            self.is_flag_reached = true;
        }
    }
}

fn cell(p: i64, tile_size: i64) -> (r: u32)
    requires
        tile_size > 0,
    ensures
        r == cell_of(p as int, tile_size as int),
{
    if p < 0 {
        0
    } else {
        let q = p / tile_size;
        if q > u32::MAX as i64 {
            u32::MAX
        } else {
            q as u32
        }
    }
}

} // verus!
