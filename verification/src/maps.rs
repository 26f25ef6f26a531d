//! The tile map of a scene: a grid of tiles, some of them solid, built
//! from a flat row-major array and asked which rectangles hit it.

use vstd::prelude::*;
use vstd::arithmetic::div_mod::lemma_fundamental_div_mod_converse;
use crate::game_obj::ResponseType;
use crate::geometry::{overlapping_rect, vec2, vec_minus_assign, Rect, Vector2D};
use crate::scene::SCENES;

verus! {

/// Width and height of a map tile, in pixels.
pub const TILE_SIZE: i32 = 16;

/// The tile sheets a pixel can be fetched from.
#[allow(clippy::upper_case_acronyms)]
#[derive(Clone, Copy, PartialEq, Eq, Debug, Structural)]
pub enum TILESHEETS {
    TileSheetTest,
}

/// One pixel of a tile sheet.
#[allow(non_snake_case)]
#[allow(clippy::upper_case_acronyms)]
#[derive(Clone, Copy, PartialEq, Eq, Debug, Structural)]
pub struct COLOR {
    pub R: u8,
    pub G: u8,
    pub B: u8,
    pub A: u8,
}

impl COLOR {
    /// The color with the given red, green, blue and alpha parts.
    pub open spec fn of(rgba: [u8; 4]) -> COLOR {
        COLOR { R: rgba[0], G: rgba[1], B: rgba[2], A: rgba[3] }
    }

    /// The color with the given red, green, blue and alpha parts.
    pub fn new(rgba: [u8; 4]) -> (c: COLOR)
        ensures
            c == COLOR::of(rgba),
    {
        COLOR { R: rgba[0], G: rgba[1], B: rgba[2], A: rgba[3] }
    }
}

/// The imported tile sheets: for each sheet its tiles, for each tile its
/// pixels in row-major order.
pub struct TileSheets {
    pub tile_sheet_test: Vec<Vec<[u8; 4]>>,
}

impl TileSheets {
    /// The tiles of `sheet`.
    pub open spec fn tiles_of(&self, sheet: TILESHEETS) -> Seq<Vec<[u8; 4]>> {
        match sheet {
            TILESHEETS::TileSheetTest => self.tile_sheet_test@,
        }
    }
}

/// The color of pixel `pixel` of tile `tile_id` of `sheet`.
pub fn fetch_tile_pixel(sheets: &TileSheets, sheet: TILESHEETS, tile_id: i32, pixel: i32) -> (color:
    Option<COLOR>)
    requires
        0 <= tile_id < sheets.tiles_of(sheet).len(),
        0 <= pixel < sheets.tiles_of(sheet)[tile_id as int]@.len(),
    ensures
        color == Some(COLOR::of(sheets.tiles_of(sheet)[tile_id as int]@[pixel as int])),
{
    match sheet {
        TILESHEETS::TileSheetTest => {
            Some(COLOR::new(sheets.tile_sheet_test[tile_id as usize][pixel as usize]))
        },
    }
}

/// One tile of a map.
#[derive(Clone, Copy, PartialEq, Eq, Debug, Structural)]
pub struct TileData {
    pub pos: Vector2D,
    pub tile_id: i32,
    pub collision: bool,
}

impl TileData {
    fn new(new_pos: Vector2D, new_id: i32, col: bool) -> (t: TileData)
        ensures
            t == (TileData { pos: new_pos, tile_id: new_id, collision: col }),
    {
        TileData { pos: new_pos, tile_id: new_id, collision: col }
    }
}

/// What a map is, as the contracts see it.
pub struct MapView {
    pub height: i32,
    pub width: i32,
    pub tile_size: i32,
    pub current_row: i32,
    pub current_column: i32,
    pub tiles: Seq<TileData>,
}

impl MapView {
    /// The next tile can be placed and the counters advanced within `i32`.
    pub open spec fn can_add(self) -> bool {
        &&& i32::MIN <= self.current_row * self.tile_size <= i32::MAX
        &&& i32::MIN <= self.current_column * self.tile_size <= i32::MAX
        &&& self.current_row < i32::MAX
        &&& self.width > i32::MIN
        &&& self.current_row + 1 > self.width - 1 ==> self.current_column < i32::MAX
    }

    /// The map after one more tile with the given id and collision flag:
    /// the tile stands at the counters' grid position, and the row counter
    /// wraps to zero, advancing the column counter, after `width` tiles.
    pub open spec fn with_tile(self, id: i32, col: i32) -> MapView {
        let tile = TileData {
            pos: Vector2D {
                x: (self.current_row * self.tile_size) as i32,
                y: (self.current_column * self.tile_size) as i32,
            },
            tile_id: id,
            collision: col == 1,
        };
        let wraps = self.current_row + 1 > self.width - 1;
        MapView {
            current_row: if wraps {
                0
            } else {
                (self.current_row + 1) as i32
            },
            current_column: if wraps {
                (self.current_column + 1) as i32
            } else {
                self.current_column
            },
            tiles: self.tiles.push(tile),
            ..self
        }
    }

    /// The rectangle tile `i` covers.
    pub open spec fn tile_rect(self, i: int) -> Rect {
        Rect {
            position: self.tiles[i].pos,
            size: Vector2D { x: self.tile_size, y: self.tile_size },
        }
    }

    /// Every tile's far corner is in `i32`.
    pub open spec fn tiles_fit(self) -> bool {
        forall|i: int| 0 <= i < self.tiles.len() ==> (#[trigger] self.tile_rect(i)).corners_fit()
    }

    /// Tile `i` is solid and shares interior points with `rect`.
    pub open spec fn hits(self, i: int, rect: Rect) -> bool {
        self.tiles[i].collision && self.tile_rect(i).touches(rect)
    }

    /// Some solid tile shares interior points with `rect`.
    pub open spec fn collides(self, rect: Rect) -> bool {
        exists|i: int| 0 <= i < self.tiles.len() && #[trigger] self.hits(i, rect)
    }

    /// What the map answers a collider: `LEVEL` if it hits a solid tile,
    /// `NONE` otherwise.
    pub open spec fn level_response(self, rect: Rect) -> ResponseType {
        if self.collides(rect) {
            ResponseType::LEVEL
        } else {
            ResponseType::NONE
        }
    }

    /// Every tile can be moved by `-offset` within `i32`.
    pub open spec fn shift_fits(self, offset: Vector2D) -> bool {
        forall|i: int| 0 <= i < self.tiles.len() ==> (#[trigger] self.tiles[i]).pos.minus_fits(offset)
    }

    /// The map with every tile moved by `-offset`.
    pub open spec fn shifted(self, offset: Vector2D) -> MapView {
        MapView {
            tiles: Seq::new(
                self.tiles.len(),
                |i: int| TileData { pos: self.tiles[i].pos.minus(offset), ..self.tiles[i] },
            ),
            ..self
        }
    }
}

/// Moving the tiles by nothing leaves the map as it was.
pub proof fn lemma_shift_by_zero(map: MapView)
    ensures
        map.shift_fits(Vector2D { x: 0, y: 0 }),
        map.shifted(Vector2D { x: 0, y: 0 }) == map,
{
    assert(map.shifted(Vector2D { x: 0, y: 0 }).tiles =~= map.tiles);
}

/// The map answers `LEVEL` exactly if some solid tile overlaps the
/// rectangle, and `NONE` exactly if none does. The answer depends on the
/// tiles and the rectangle alone, so asking again gives it again.
pub proof fn lemma_level_response_decided(map: MapView, rect: Rect)
    ensures
        map.level_response(rect) == ResponseType::LEVEL <==> exists|i: int|
            0 <= i < map.tiles.len() && #[trigger] map.hits(i, rect),
        map.level_response(rect) == ResponseType::NONE <==> forall|i: int|
            0 <= i < map.tiles.len() ==> !#[trigger] map.hits(i, rect),
{
}

/// The tile grid of a scene.
pub struct MapInfo {
    height: i32,
    width: i32,
    tile_size: i32,
    current_row: i32,
    current_column: i32,
    map_data: Vec<TileData>,
}

impl View for MapInfo {
    type V = MapView;

    closed spec fn view(&self) -> MapView {
        MapView {
            height: self.height,
            width: self.width,
            tile_size: self.tile_size,
            current_row: self.current_row,
            current_column: self.current_column,
            tiles: self.map_data@,
        }
    }
}

impl MapInfo {
    /// An empty map of the given dimensions, with both counters at zero.
    pub fn new(new_height: i32, new_width: i32, size: i32) -> (map: MapInfo)
        ensures
            map@ == (MapView {
                height: new_height,
                width: new_width,
                tile_size: size,
                current_row: 0,
                current_column: 0,
                tiles: Seq::empty(),
            }),
    {
        MapInfo {
            height: new_height,
            width: new_width,
            current_row: 0,
            current_column: 0,
            tile_size: size,
            map_data: Vec::new(),
        }
    }

    /// Places the next tile of the flat array. It is solid if and only if
    /// `col` is 1.
    pub fn add_tile(&mut self, id: i32, col: i32)
        requires
            old(self)@.can_add(),
        ensures
            final(self)@ == old(self)@.with_tile(id, col),
    {
        let tile_pos = vec2(self.current_row * self.tile_size, self.current_column * self.tile_size);
        let mut has_col = false;
        if col == 1 {
            has_col = true;
        }
        self.map_data.push(TileData::new(tile_pos, id, has_col));
        self.current_row += 1;
        if self.current_row > self.width - 1 {
            self.current_row = 0;
            self.current_column += 1;
        }
    }

    /// The number of tiles placed so far.
    pub fn tile_count(&self) -> (n: usize)
        ensures
            n == self@.tiles.len(),
    {
        self.map_data.len()
    }

    /// Tile `i`.
    pub fn tile(&self, i: usize) -> (t: TileData)
        requires
            i < self@.tiles.len(),
        ensures
            t == self@.tiles[i as int],
    {
        self.map_data[i]
    }

    /// Scans the tiles in the order they were placed and answers `LEVEL`
    /// at the first solid tile that `obj_col` overlaps, `NONE` if there is
    /// none. The map is left as it was, so asking again gives the same
    /// answer.
    pub fn is_colliding(&self, obj_col: Rect) -> (response: ResponseType)
        requires
            self@.tiles_fit(),
            obj_col.corners_fit(),
        ensures
            response == self@.level_response(obj_col),
    {
        let mut i: usize = 0;
        while i < self.map_data.len()
            invariant
                i <= self.map_data.len(),
                self@.tiles_fit(),
                obj_col.corners_fit(),
                forall|k: int| 0 <= k < i ==> !#[trigger] self@.hits(k, obj_col),
            decreases self.map_data.len() - i,
        {
            let tile = self.map_data[i];
            if tile.collision {
                let tile_col = Rect::new(tile.pos, vec2(self.tile_size, self.tile_size));
                assert(tile_col == self@.tile_rect(i as int));
                match overlapping_rect(tile_col, obj_col) {
                    Some(_) => {
                        assert(self@.hits(i as int, obj_col));
                        return ResponseType::LEVEL;
                    },
                    None => {},
                }
            }
            i += 1;
        }
        ResponseType::NONE
    }

    /// Moves every tile by `-offset_val`.
    pub fn offset_tiles(&mut self, offset_val: Vector2D)
        requires
            old(self)@.shift_fits(offset_val),
        ensures
            final(self)@ == old(self)@.shifted(offset_val),
    {
        let mut i: usize = 0;
        while i < self.map_data.len()
            invariant
                i <= self.map_data.len(),
                self.map_data@.len() == old(self).map_data@.len(),
                self.height == old(self).height,
                self.width == old(self).width,
                self.tile_size == old(self).tile_size,
                self.current_row == old(self).current_row,
                self.current_column == old(self).current_column,
                old(self)@.shift_fits(offset_val),
                forall|k: int|
                    0 <= k < i ==> #[trigger] self.map_data@[k] == (TileData {
                        pos: old(self).map_data@[k].pos.minus(offset_val),
                        ..old(self).map_data@[k]
                    }),
                forall|k: int|
                    i <= k < self.map_data@.len() ==> #[trigger] self.map_data@[k] == old(
                        self,
                    ).map_data@[k],
            decreases self.map_data.len() - i,
        {
            let mut tile = self.map_data[i];
            assert(old(self)@.tiles[i as int].pos.minus_fits(offset_val));
            vec_minus_assign(&mut tile.pos, offset_val);
            self.map_data.set(i, tile);
            i += 1;
        }
        assert(self@.tiles =~= old(self)@.shifted(offset_val).tiles);
    }
}

/// Why a tile array cannot become a map.
#[derive(Clone, Copy, PartialEq, Eq, Debug, Structural)]
pub enum MapError {
    /// The declared width and height do not multiply to the array's length.
    TileLookupMismatch,
    /// A declared dimension, in pixels, is beyond `i32`.
    MapTooLarge,
}

/// What stands in the way of an array of `len` entries with the declared
/// `width` and `height`, if anything.
pub open spec fn source_error(width: nat, height: nat, len: nat) -> Option<MapError> {
    if width * height != len {
        Some(MapError::TileLookupMismatch)
    } else if width * TILE_SIZE > i32::MAX || height * TILE_SIZE > i32::MAX {
        Some(MapError::MapTooLarge)
    } else {
        None
    }
}

/// An imported tile array: `width * height` pairs of tile id and collision
/// flag, in row-major order.
pub struct MapSource {
    width: usize,
    height: usize,
    data: Vec<[i32; 2]>,
}

impl MapSource {
    #[verifier::type_invariant]
    spec fn well_formed(self) -> bool {
        source_error(self.width as nat, self.height as nat, self.data@.len()) is None
    }

    /// The declared number of tiles in a row.
    pub closed spec fn width(&self) -> nat {
        self.width as nat
    }

    /// The declared number of rows.
    pub closed spec fn height(&self) -> nat {
        self.height as nat
    }

    /// The pairs of tile id and collision flag.
    pub closed spec fn entries(&self) -> Seq<[i32; 2]> {
        self.data@
    }

    /// Takes an imported array with its declared dimensions, or says why
    /// it cannot be a map.
    pub fn new(width: usize, height: usize, data: Vec<[i32; 2]>) -> (source: Result<
        MapSource,
        MapError,
    >)
        ensures
            match source {
                Ok(s) => {
                    &&& source_error(width as nat, height as nat, data@.len()) is None
                    &&& s.width() == width
                    &&& s.height() == height
                    &&& s.entries() == data@
                },
                Err(e) => source_error(width as nat, height as nat, data@.len()) == Some(e),
            },
    {
        let limit: usize = 0x7ff_ffff;
        let len = data.len();
        match width.checked_mul(height) {
            Some(count) => {
                if count != len {
                    return Err(MapError::TileLookupMismatch);
                }
            },
            None => {
                return Err(MapError::TileLookupMismatch);
            },
        }
        if width > limit || height > limit {
            return Err(MapError::MapTooLarge);
        }
        Ok(MapSource { width, height, data })
    }
}

/// The imported tile arrays, one for each map.
pub struct MapSources {
    pub test_map: MapSource,
}

impl MapSources {
    /// The array a scene's map is built from.
    pub open spec fn source_of(&self, map_scene: SCENES) -> MapSource {
        match map_scene {
            SCENES::TestScene => self.test_map,
            SCENES::Map001 => self.test_map,
        }
    }
}

/// Entry `k` of a row-major array laid out on a grid `width` tiles wide.
pub open spec fn grid_tile(width: nat, entries: Seq<[i32; 2]>, k: int) -> TileData {
    TileData {
        pos: Vector2D {
            x: ((k % (width as int)) * TILE_SIZE) as i32,
            y: ((k / (width as int)) * TILE_SIZE) as i32,
        },
        tile_id: entries[k][0],
        collision: entries[k][1] == 1,
    }
}

/// The map that a tile array describes: tile `k` stands in column
/// `k % width` of row `k / width`, and both counters have come to rest
/// after the last row.
pub open spec fn grid_of(source: MapSource) -> MapView {
    MapView {
        height: source.height() as i32,
        width: source.width() as i32,
        tile_size: TILE_SIZE,
        current_row: 0,
        current_column: if source.width() == 0 {
            0
        } else {
            source.height() as i32
        },
        tiles: Seq::new(
            source.entries().len(),
            |k: int| grid_tile(source.width(), source.entries(), k),
        ),
    }
}

proof fn lemma_column_below_height(col: int, row: int, i: int, w: int, h: int)
    requires
        0 <= row,
        0 <= col,
        0 < w,
        col * w + row == i,
        i < w * h,
    ensures
        col < h,
{
    if col >= h {
        assert(col * w >= h * w) by (nonlinear_arith)
            requires
                col >= h,
                w > 0,
        ;
        assert(h * w == w * h) by (nonlinear_arith);
    }
}

/// Every tile of a grid lies, with its far corner, inside `i32`.
pub proof fn lemma_grid_fits(source: MapSource)
    requires
        source_error(source.width(), source.height(), source.entries().len()) is None,
    ensures
        grid_of(source).tiles_fit(),
{
    let w = source.width() as int;
    let h = source.height() as int;
    let view = grid_of(source);
    assert forall|k: int| 0 <= k < view.tiles.len() implies (#[trigger] view.tile_rect(
        k,
    )).corners_fit() by {
        assert(w > 0) by (nonlinear_arith)
            requires
                0 <= k < w * h,
                w >= 0,
        ;
        vstd::arithmetic::div_mod::lemma_fundamental_div_mod(k, w);
        vstd::arithmetic::div_mod::lemma_mod_bound(k, w);
        vstd::arithmetic::div_mod::lemma_div_pos_is_pos(k, w);
        assert((k / w) * w == w * (k / w)) by (nonlinear_arith);
        lemma_column_below_height(k / w, k % w, k, w, h);
    }
}

/// Builds the tile map of a scene from its imported array.
pub fn make_map(map_scene: SCENES, sources: &MapSources) -> (map: MapInfo)
    ensures
        map@ == grid_of(sources.source_of(map_scene)),
        map@.tiles_fit(),
{
    let source = match map_scene {
        SCENES::TestScene => &sources.test_map,
        SCENES::Map001 => &sources.test_map,
    };
    proof {
        use_type_invariant(source);
        lemma_grid_fits(*source);
    }
    let ghost w = source.width as int;
    let ghost h = source.height as int;
    let mut new_map = MapInfo::new(source.height as i32, source.width as i32, TILE_SIZE);
    let mut i: usize = 0;
    assert(new_map@.current_column * w + new_map@.current_row == 0) by (nonlinear_arith)
        requires
            new_map@.current_column == 0,
            new_map@.current_row == 0,
    ;
    while i < source.data.len()
        invariant
            source_error(source.width as nat, source.height as nat, source.data@.len()) is None,
            w == source.width,
            h == source.height,
            i <= source.data@.len(),
            new_map@.height == h,
            new_map@.width == w,
            new_map@.tile_size == TILE_SIZE,
            0 <= new_map@.current_column,
            0 <= new_map@.current_row,
            w > 0 ==> new_map@.current_row < w,
            w == 0 ==> new_map@.current_column == 0 && new_map@.current_row == 0,
            new_map@.current_column * w + new_map@.current_row == i,
            new_map@.tiles == Seq::new(
                i as nat,
                |k: int| grid_tile(source.width as nat, source.data@, k),
            ),
        decreases source.data.len() - i,
    {
        let ghost row = new_map@.current_row as int;
        let ghost col = new_map@.current_column as int;
        proof {
            assert(w > 0) by (nonlinear_arith)
                requires
                    0 <= i < w * h,
                    w >= 0,
            ;
            lemma_column_below_height(col, row, i as int, w, h);
            lemma_fundamental_div_mod_converse(i as int, w, col, row);
            assert((col + 1) * w == col * w + w) by (nonlinear_arith);
        }
        let entry = source.data[i];
        new_map.add_tile(entry[0], entry[1]);
        assert(new_map@.tiles =~= Seq::new(
            (i + 1) as nat,
            |k: int| grid_tile(source.width as nat, source.data@, k),
        ));
        i += 1;
    }
    proof {
        if w > 0 {
            let col = new_map@.current_column as int;
            let row = new_map@.current_row as int;
            assert(row == 0 && col == h) by (nonlinear_arith)
                requires
                    col * w + row == w * h,
                    0 <= row < w,
                    0 <= col,
            ;
        } else {
            assert(w * h == 0) by (nonlinear_arith)
                requires
                    w == 0,
            ;
        }
        assert(*source == sources.source_of(map_scene));
        assert(new_map@.tiles =~= grid_of(*source).tiles);
    }
    new_map
}

} // verus!
