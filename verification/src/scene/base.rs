//! Ordinary (non-adjacency) geometry construction helpers.
//!
//! The helpers in this module translate logical geometry (grid seeds, ring
//! pairs, fan partitions and rectangle corners) into execution-buffer
//! indices, and append the immutable index range of each ordinary mode.
use vstd::prelude::*;
use super::{VERTEX_COUNT, PrimitiveMode, catalogue_len, writes_mode_range};
use super::adjacency::adjacency_of;

verus! {

/// Two independent closed native QUADSTRIP annuli.
pub const QUAD_STRIP_RING_COUNT: usize = 2;
pub const QUAD_STRIP_RING_SEGMENTS: usize = 64;
pub const QUAD_STRIP_RING_VERTICES_PER_PAIR: usize = 2;
#[verifier::nonlinear]
pub const QUAD_STRIP_RING_VERTICES_PER_RING: usize =
    QUAD_STRIP_RING_SEGMENTS * QUAD_STRIP_RING_VERTICES_PER_PAIR;
pub const QUAD_STRIP_RING_VERTEX_OFFSET: usize = VERTEX_COUNT;
#[verifier::nonlinear]
pub const QUAD_STRIP_RING_VERTEX_COUNT: usize =
    QUAD_STRIP_RING_COUNT * QUAD_STRIP_RING_VERTICES_PER_RING;
pub const QUAD_STRIP_DRAW_COUNT: usize = QUAD_STRIP_RING_COUNT;
#[verifier::nonlinear]
pub const QUAD_STRIP_INDICES_PER_DRAW: usize =
    (QUAD_STRIP_RING_SEGMENTS + 1) * QUAD_STRIP_RING_VERTICES_PER_PAIR;

/// The two annuli expose four independent 64-vertex circular paths.
#[verifier::nonlinear]
pub const RING_CIRCLE_COUNT: usize = QUAD_STRIP_RING_COUNT * QUAD_STRIP_RING_VERTICES_PER_PAIR;
pub const RING_CIRCLE_VERTEX_COUNT: usize = QUAD_STRIP_RING_SEGMENTS;
pub const POINT_RING_DRAW_COUNT: usize = RING_CIRCLE_COUNT;
pub const POINT_RING_INDICES_PER_DRAW: usize = RING_CIRCLE_VERTEX_COUNT;
#[verifier::nonlinear]
pub const POINT_RING_INDEX_COUNT: usize = POINT_RING_DRAW_COUNT * POINT_RING_INDICES_PER_DRAW;
pub const LINE_LIST_RING_DRAW_COUNT: usize = RING_CIRCLE_COUNT;
pub const LINE_LIST_RING_INDICES_PER_DRAW: usize = RING_CIRCLE_VERTEX_COUNT;
#[verifier::nonlinear]
pub const LINE_LIST_RING_INDEX_COUNT: usize =
    LINE_LIST_RING_DRAW_COUNT * LINE_LIST_RING_INDICES_PER_DRAW;
pub const LINE_STRIP_RING_DRAW_COUNT: usize = RING_CIRCLE_COUNT;
pub const LINE_STRIP_RING_INDICES_PER_DRAW: usize = RING_CIRCLE_VERTEX_COUNT + 1;
#[verifier::nonlinear]
pub const LINE_STRIP_RING_INDEX_COUNT: usize =
    LINE_STRIP_RING_DRAW_COUNT * LINE_STRIP_RING_INDICES_PER_DRAW;

/// Shared 32x32 seed plane for the regular point, line, and triangle modes.
pub const LINE_GRID_COLUMNS: usize = 32;
pub const LINE_GRID_ROWS: usize = 32;
#[verifier::nonlinear]
pub const LINE_GRID_VERTEX_COUNT: usize = LINE_GRID_COLUMNS * LINE_GRID_ROWS;
pub const LINE_GRID_VERTEX_OFFSET: usize =
    QUAD_STRIP_RING_VERTEX_OFFSET + QUAD_STRIP_RING_VERTEX_COUNT;
#[verifier::nonlinear]
pub const LINE_GRID_XYZ_BYTES: usize = LINE_GRID_VERTEX_COUNT * 12;
pub const RGB_COLOR_COUNT: usize = 3;

#[verifier::nonlinear]
pub const POINT_GRID_GREEN_INDEX_COUNT: usize = (LINE_GRID_VERTEX_COUNT + 2) / 3;
pub const POINT_GRID_RED_INDEX_COUNT: usize = LINE_GRID_VERTEX_COUNT - POINT_GRID_GREEN_INDEX_COUNT;

#[verifier::nonlinear]
pub const LINE_GRID_TRIANGLE_LIST_INDEX_COUNT: usize =
    (LINE_GRID_COLUMNS - 1) * (LINE_GRID_ROWS - 1) * 6;
#[verifier::nonlinear]
pub const LINE_GRID_TRIANGLE_COUNT: usize = LINE_GRID_TRIANGLE_LIST_INDEX_COUNT / 3;
#[verifier::nonlinear]
pub const TRIANGLE_LIST_COLOR0_INDEX_COUNT: usize = (LINE_GRID_TRIANGLE_COUNT + 2) / 3 * 3;
#[verifier::nonlinear]
pub const TRIANGLE_LIST_COLOR1_INDEX_COUNT: usize = (LINE_GRID_TRIANGLE_COUNT + 1) / 3 * 3;
#[verifier::nonlinear]
pub const TRIANGLE_LIST_COLOR2_INDEX_COUNT: usize = LINE_GRID_TRIANGLE_COUNT / 3 * 3;

#[verifier::nonlinear]
pub const LINE_GRID_TRIANGLE_STRIP_INDEX_COUNT: usize =
    (LINE_GRID_ROWS - 1) * LINE_GRID_COLUMNS * 2;
pub const LINE_GRID_TRIANGLE_FAN_INDEX_COUNT: usize = LINE_GRID_VERTEX_COUNT;
pub const TRIANGLE_FAN_STAGE_COUNT: usize = 7;
pub const TRIANGLE_FAN_VERTEX_COUNTS: [usize; TRIANGLE_FAN_STAGE_COUNT] = [1024, 512, 256, 64, 32, 16, 8];
#[verifier::nonlinear]
pub const TRIANGLE_FAN_CATALOGUE_INDEX_COUNT: usize =
    LINE_GRID_VERTEX_COUNT * TRIANGLE_FAN_STAGE_COUNT;

/// Key 8 mode: non-overlapping 2x2 blocks from the 32x32 seed grid.
#[verifier::nonlinear]
pub const QUAD_LIST_COLUMNS: usize = LINE_GRID_COLUMNS / 2;
#[verifier::nonlinear]
pub const QUAD_LIST_ROWS: usize = LINE_GRID_ROWS / 2;
#[verifier::nonlinear]
pub const QUAD_LIST_CELL_COUNT: usize = QUAD_LIST_COLUMNS * QUAD_LIST_ROWS;
pub const QUAD_LIST_COLOR_DRAW_COUNT: usize = 2;
#[verifier::nonlinear]
pub const QUAD_LIST_COLOR0_CELL_COUNT: usize = (QUAD_LIST_CELL_COUNT + 1) / 2;
#[verifier::nonlinear]
pub const QUAD_LIST_COLOR1_CELL_COUNT: usize = QUAD_LIST_CELL_COUNT / 2;
#[verifier::nonlinear]
pub const QUAD_LIST_COLOR0_INDEX_COUNT: usize = QUAD_LIST_COLOR0_CELL_COUNT * 4;
#[verifier::nonlinear]
pub const QUAD_LIST_COLOR1_INDEX_COUNT: usize = QUAD_LIST_COLOR1_CELL_COUNT * 4;
#[verifier::nonlinear]
pub const QUAD_LIST_INDEX_COUNT: usize = QUAD_LIST_CELL_COUNT * 4;

/// Alternate Key 8 mode: the Key 9 ring vertices grouped without strip reuse.
#[verifier::nonlinear]
pub const QUAD_LIST_RING_QUADS_PER_RING: usize = QUAD_STRIP_RING_SEGMENTS / 2;
#[verifier::nonlinear]
pub const QUAD_LIST_RING_CELL_COUNT: usize = QUAD_STRIP_RING_COUNT * QUAD_LIST_RING_QUADS_PER_RING;
pub const QUAD_LIST_RING_DRAW_COUNT: usize = QUAD_STRIP_RING_COUNT;
pub const QUAD_LIST_RING_INDICES_PER_DRAW: usize = QUAD_STRIP_RING_VERTICES_PER_RING;
pub const QUAD_LIST_RING_INDEX_COUNT: usize = QUAD_STRIP_RING_VERTEX_COUNT;

pub const RECT_LIST_VERTEX_OFFSET: usize = LINE_GRID_VERTEX_OFFSET + LINE_GRID_VERTEX_COUNT;
pub const RECT_LIST_VERTICES_PER_RECTANGLE: usize = 3;
#[verifier::nonlinear]
pub const RECT_LIST_CELL_COUNT: usize = QUAD_STRIP_RING_COUNT * QUAD_STRIP_RING_SEGMENTS;
#[verifier::nonlinear]
pub const RECT_LIST_VERTEX_COUNT: usize = RECT_LIST_CELL_COUNT * RECT_LIST_VERTICES_PER_RECTANGLE;
pub const RECT_LIST_COLOR_DRAW_COUNT: usize = QUAD_STRIP_RING_COUNT;
pub const RECT_LIST_COLOR0_CELL_COUNT: usize = QUAD_STRIP_RING_SEGMENTS;
pub const RECT_LIST_COLOR1_CELL_COUNT: usize = QUAD_STRIP_RING_SEGMENTS;
#[verifier::nonlinear]
pub const RECT_LIST_COLOR0_INDEX_COUNT: usize =
    RECT_LIST_COLOR0_CELL_COUNT * RECT_LIST_VERTICES_PER_RECTANGLE;
#[verifier::nonlinear]
pub const RECT_LIST_COLOR1_INDEX_COUNT: usize =
    RECT_LIST_COLOR1_CELL_COUNT * RECT_LIST_VERTICES_PER_RECTANGLE;
#[verifier::nonlinear]
pub const RECT_LIST_INDEX_COUNT: usize = RECT_LIST_CELL_COUNT * RECT_LIST_VERTICES_PER_RECTANGLE;
pub const EXECUTION_VERTEX_COUNT: usize = RECT_LIST_VERTEX_OFFSET + RECT_LIST_VERTEX_COUNT;

/// The concrete values of the layout constants, for proofs that need them.
pub proof fn lemma_layout_constants()
    ensures
        VERTEX_COUNT == 12,
        QUAD_STRIP_RING_VERTEX_OFFSET == 12,
        QUAD_STRIP_RING_VERTICES_PER_RING == 128,
        QUAD_STRIP_RING_VERTEX_COUNT == 256,
        QUAD_STRIP_INDICES_PER_DRAW == 130,
        RING_CIRCLE_COUNT == 4,
        RING_CIRCLE_VERTEX_COUNT == 64,
        POINT_RING_INDEX_COUNT == 256,
        LINE_LIST_RING_INDEX_COUNT == 256,
        LINE_STRIP_RING_INDICES_PER_DRAW == 65,
        LINE_STRIP_RING_INDEX_COUNT == 260,
        LINE_GRID_VERTEX_COUNT == 1024,
        LINE_GRID_VERTEX_OFFSET == 268,
        LINE_GRID_XYZ_BYTES == 12288,
        POINT_GRID_GREEN_INDEX_COUNT == 342,
        POINT_GRID_RED_INDEX_COUNT == 682,
        LINE_GRID_TRIANGLE_LIST_INDEX_COUNT == 5766,
        LINE_GRID_TRIANGLE_COUNT == 1922,
        TRIANGLE_LIST_COLOR0_INDEX_COUNT == 1923,
        TRIANGLE_LIST_COLOR1_INDEX_COUNT == 1923,
        TRIANGLE_LIST_COLOR2_INDEX_COUNT == 1920,
        LINE_GRID_TRIANGLE_STRIP_INDEX_COUNT == 1984,
        TRIANGLE_FAN_CATALOGUE_INDEX_COUNT == 7168,
        QUAD_LIST_COLUMNS == 16,
        QUAD_LIST_ROWS == 16,
        QUAD_LIST_CELL_COUNT == 256,
        QUAD_LIST_COLOR0_CELL_COUNT == 128,
        QUAD_LIST_COLOR1_CELL_COUNT == 128,
        QUAD_LIST_COLOR0_INDEX_COUNT == 512,
        QUAD_LIST_COLOR1_INDEX_COUNT == 512,
        QUAD_LIST_INDEX_COUNT == 1024,
        QUAD_LIST_RING_CELL_COUNT == 64,
        QUAD_LIST_RING_INDICES_PER_DRAW == 128,
        QUAD_LIST_RING_INDEX_COUNT == 256,
        RECT_LIST_VERTEX_OFFSET == 1292,
        RECT_LIST_CELL_COUNT == 128,
        RECT_LIST_VERTEX_COUNT == 384,
        RECT_LIST_COLOR0_INDEX_COUNT == 192,
        RECT_LIST_COLOR1_INDEX_COUNT == 192,
        RECT_LIST_INDEX_COUNT == 384,
        EXECUTION_VERTEX_COUNT == 1676,
{
    assert(LINE_GRID_TRIANGLE_LIST_INDEX_COUNT == 5766) by (nonlinear_arith);
    assert(QUAD_LIST_CELL_COUNT == 256) by (nonlinear_arith);
}


/// Execution-buffer index of one ring vertex: `radial` 0 is the inner and 1
/// the outer radius of pair `pair` on ring `ring`.
pub open spec fn ring_vertex_index(ring: int, pair: int, radial: int) -> int {
    QUAD_STRIP_RING_VERTEX_OFFSET + ring * QUAD_STRIP_RING_VERTICES_PER_RING
        + pair * QUAD_STRIP_RING_VERTICES_PER_PAIR + radial
}

/// Execution-buffer index of step `step` (taken modulo the segment count)
/// along circle `circle`; circles 2r and 2r+1 are the inner and outer
/// radius of ring r.
pub open spec fn ring_circle_index(circle: int, step: int) -> int {
    ring_vertex_index(
        circle / QUAD_STRIP_RING_VERTICES_PER_PAIR as int,
        step % QUAD_STRIP_RING_SEGMENTS as int,
        circle % QUAD_STRIP_RING_VERTICES_PER_PAIR as int,
    )
}

/// Execution-buffer index of one seed of the 32x32 grid.
pub open spec fn grid_vertex_index(seed: int) -> int {
    LINE_GRID_VERTEX_OFFSET + seed
}

/// Seed visited at `step` by the snake line strip: even rows run left to
/// right, odd rows right to left.
pub open spec fn snake_seed(step: int) -> int {
    let row = step / LINE_GRID_COLUMNS as int;
    let column_in_row = step % LINE_GRID_COLUMNS as int;
    if row % 2 == 0 {
        row * LINE_GRID_COLUMNS + column_in_row
    } else {
        row * LINE_GRID_COLUMNS + (LINE_GRID_COLUMNS - 1 - column_in_row)
    }
}

/// Seed visited at `step` by the ordinary triangle strip: two vertices per
/// grid column in each row band, bands alternating direction.
pub open spec fn strip_seed(step: int) -> int {
    let band = step / (2 * LINE_GRID_COLUMNS as int);
    let pair_step = step % (2 * LINE_GRID_COLUMNS as int);
    let column_step = pair_step / 2;
    let first_in_pair = pair_step % 2 == 0;
    let column = if band % 2 == 0 { column_step } else { LINE_GRID_COLUMNS - 1 - column_step };
    let source_row = if (band % 2 == 0) == first_in_pair { band + 1 } else { band };
    source_row * LINE_GRID_COLUMNS + column
}

/// Execution-buffer index of corner `corner` of rectangle `rectangle`.
pub open spec fn rect_vertex_index(rectangle: int, corner: int) -> int {
    RECT_LIST_VERTEX_OFFSET + rectangle * RECT_LIST_VERTICES_PER_RECTANGLE + corner
}

/// The fan sizes of the seven triangle-fan stages.
pub open spec fn is_fan_size(fan_size: int) -> bool {
    fan_size == 1024 || fan_size == 512 || fan_size == 256 || fan_size == 64 || fan_size == 32
        || fan_size == 16 || fan_size == 8
}

/// Width of the rectangular grid tile that one fan of the given size covers.
pub open spec fn fan_tile_width(fan_size: int) -> int {
    if fan_size == 1024 {
        32
    } else if fan_size == 512 || fan_size == 256 {
        16
    } else if fan_size == 64 || fan_size == 32 {
        8
    } else {
        4
    }
}

/// Height of the rectangular grid tile that one fan of the given size covers.
pub open spec fn fan_tile_height(fan_size: int) -> int {
    fan_size / fan_tile_width(fan_size)
}

/// Seed of slot `slot` of fan `fan` when the grid is cut into tiles of
/// `fan_size` seeds, tiles numbered row by row and slots row by row inside
/// a tile.
pub open spec fn fan_seed(fan_size: int, fan: int, slot: int) -> int {
    let width = fan_tile_width(fan_size);
    let height = fan_tile_height(fan_size);
    let tile_columns = LINE_GRID_COLUMNS as int / width;
    let row = (fan / tile_columns) * height + slot / width;
    let column = (fan % tile_columns) * width + slot % width;
    row * LINE_GRID_COLUMNS + column
}

pub fn quad_strip_ring_vertex(ring: usize, pair: usize, radial: usize) -> (r: u32)
    requires
        ring_vertex_index(ring as int, pair as int, radial as int) <= usize::MAX,
    ensures
        r == ring_vertex_index(ring as int, pair as int, radial as int) as u32,
{
    (QUAD_STRIP_RING_VERTEX_OFFSET + ring * QUAD_STRIP_RING_VERTICES_PER_RING + pair
        * QUAD_STRIP_RING_VERTICES_PER_PAIR + radial) as u32
}

pub fn ring_circle_vertex(circle: usize, step: usize) -> (r: u32)
    requires
        ring_circle_index(circle as int, step as int) <= usize::MAX,
    ensures
        r == ring_circle_index(circle as int, step as int) as u32,
{
    quad_strip_ring_vertex(
        circle / QUAD_STRIP_RING_VERTICES_PER_PAIR,
        step % QUAD_STRIP_RING_SEGMENTS,
        circle % QUAD_STRIP_RING_VERTICES_PER_PAIR,
    )
}

pub fn line_grid_vertex(vertex: usize) -> (r: u32)
    requires
        grid_vertex_index(vertex as int) <= usize::MAX,
    ensures
        r == grid_vertex_index(vertex as int) as u32,
{
    (LINE_GRID_VERTEX_OFFSET + vertex) as u32
}

/// Snake order for the ordinary LINESTRIP across the 32x32 seed grid.
pub fn line_grid_snake_seed_vertex(step: usize) -> (r: usize)
    ensures
        r == snake_seed(step as int),
{
    let row = step / LINE_GRID_COLUMNS;
    let column_in_row = step % LINE_GRID_COLUMNS;
    let column = if row % 2 == 0 {
        column_in_row
    } else {
        LINE_GRID_COLUMNS - 1 - column_in_row
    };
    row * LINE_GRID_COLUMNS + column
}

/// One ordinary Key 5 strip vertex. There are two vertices per grid column
/// in each row band.
pub fn triangle_strip_main_seed_vertex(step: usize) -> (r: usize)
    ensures
        r == strip_seed(step as int),
{
    let vertices_per_band = LINE_GRID_COLUMNS * 2;
    let row = step / vertices_per_band;
    let pair_step = step % vertices_per_band;
    let column_step = pair_step / 2;
    let column = if row % 2 == 0 {
        column_step
    } else {
        LINE_GRID_COLUMNS - 1 - column_step
    };
    let first_in_pair = pair_step % 2 == 0;
    let source_row = if row % 2 == 0 {
        if first_in_pair {
            row + 1
        } else {
            row
        }
    } else if first_in_pair {
        row
    } else {
        row + 1
    };
    source_row * LINE_GRID_COLUMNS + column
}

pub fn triangle_strip_main_vertex(step: usize) -> (r: u32)
    requires
        grid_vertex_index(strip_seed(step as int)) <= usize::MAX,
    ensures
        r == grid_vertex_index(strip_seed(step as int)) as u32,
{
    line_grid_vertex(triangle_strip_main_seed_vertex(step))
}

pub fn rect_list_vertex(rectangle: usize, corner: usize) -> (r: u32)
    requires
        rect_vertex_index(rectangle as int, corner as int) <= usize::MAX,
    ensures
        r == rect_vertex_index(rectangle as int, corner as int) as u32,
{
    (RECT_LIST_VERTEX_OFFSET + rectangle * RECT_LIST_VERTICES_PER_RECTANGLE + corner) as u32
}

/// Map one fan-local slot into its rectangular spatial partition. Every stage
/// consumes all 1,024 seeds exactly once.
pub fn triangle_fan_partition_seed_vertex(fan_size: usize, fan: usize, slot: usize) -> (r: usize)
    requires
        is_fan_size(fan_size as int),
        fan_seed(fan_size as int, fan as int, slot as int) <= usize::MAX,
    ensures
        r == fan_seed(fan_size as int, fan as int, slot as int),
{
    let (tile_width, tile_height): (usize, usize) = match fan_size {
        1024 => (32, 32),
        512 => (16, 32),
        256 => (16, 16),
        64 => (8, 8),
        32 => (8, 4),
        16 => (4, 4),
        _ => (4, 2),
    };
    assert(LINE_GRID_COLUMNS / tile_width >= 1) by (nonlinear_arith)
        requires
            0 < tile_width <= LINE_GRID_COLUMNS,
    ;
    let tile_columns = LINE_GRID_COLUMNS / tile_width;
    let tile_row = fan / tile_columns;
    let tile_column = fan % tile_columns;
    let row = tile_row * tile_height + slot / tile_width;
    let column = tile_column * tile_width + slot % tile_width;
    row * LINE_GRID_COLUMNS + column
}


/// The point list stores the seeds whose ordinal is a multiple of three
/// (green) in increasing order, then every other seed (red) in increasing
/// order.
pub open spec fn point_list_entry(k: int) -> int {
    if k < POINT_GRID_GREEN_INDEX_COUNT {
        grid_vertex_index(3 * k)
    } else {
        let red = k - POINT_GRID_GREEN_INDEX_COUNT;
        grid_vertex_index(3 * (red / 2) + 1 + red % 2)
    }
}

/// The point and line-list rings walk the four circles one after another.
pub open spec fn ring_points_entry(k: int) -> int {
    ring_circle_index(k / RING_CIRCLE_VERTEX_COUNT as int, k % RING_CIRCLE_VERTEX_COUNT as int)
}

/// Each line-strip ring walks its circle and repeats its first point.
pub open spec fn line_strip_rings_entry(k: int) -> int {
    ring_circle_index(
        k / LINE_STRIP_RING_INDICES_PER_DRAW as int,
        k % LINE_STRIP_RING_INDICES_PER_DRAW as int,
    )
}

/// Corner `corner` of grid triangle `triangle`: triangles 2c and 2c+1 split
/// cell c (cells numbered row by row) into its lower-right and upper-left
/// halves, both counter-clockwise.
#[verifier::opaque]
pub open spec fn grid_triangle_corner(triangle: int, corner: int) -> int {
    let cell = triangle / 2;
    let row = cell / (LINE_GRID_COLUMNS - 1);
    let column = cell % (LINE_GRID_COLUMNS - 1);
    let lower_left = grid_vertex_index(row * LINE_GRID_COLUMNS + column);
    let lower_right = grid_vertex_index(row * LINE_GRID_COLUMNS + column + 1);
    let upper_left = grid_vertex_index((row + 1) * LINE_GRID_COLUMNS + column);
    let upper_right = grid_vertex_index((row + 1) * LINE_GRID_COLUMNS + column + 1);
    if triangle % 2 == 0 {
        if corner == 0 { lower_left } else if corner == 1 { lower_right } else { upper_right }
    } else {
        if corner == 0 { lower_left } else if corner == 1 { upper_right } else { upper_left }
    }
}

/// First catalogue offset of the triangles of one colour in the triangle
/// list; colour 3 stands for the end of the list.
pub open spec fn triangle_color_first(color: int) -> int {
    if color == 0 {
        0
    } else if color == 1 {
        TRIANGLE_LIST_COLOR0_INDEX_COUNT as int
    } else if color == 2 {
        TRIANGLE_LIST_COLOR0_INDEX_COUNT + TRIANGLE_LIST_COLOR1_INDEX_COUNT
    } else {
        TRIANGLE_LIST_COLOR0_INDEX_COUNT + TRIANGLE_LIST_COLOR1_INDEX_COUNT
            + TRIANGLE_LIST_COLOR2_INDEX_COUNT
    }
}

/// How many triangle numbers below `n` are congruent to `color` modulo three.
pub open spec fn color_triangles_below(color: int, n: int) -> int {
    (n + 2 - color) / 3
}

/// The triangle list stores the triangles whose number is congruent to
/// colour c modulo three as the c-th colour draw, each in increasing order.
#[verifier::opaque]
pub open spec fn triangle_list_entry(k: int) -> int {
    let color = if k < triangle_color_first(1) {
        0
    } else if k < triangle_color_first(2) {
        1
    } else {
        2
    };
    let local = k - triangle_color_first(color);
    grid_triangle_corner(3 * (local / 3) + color, local % 3)
}

/// Fan size of each triangle-fan stage.
pub open spec fn fan_stage_size(stage: int) -> int {
    TRIANGLE_FAN_VERTEX_COUNTS@[stage] as int
}

/// Each fan stage covers the seed grid once, fan after fan.
#[verifier::opaque]
pub open spec fn triangle_fan_entry(k: int) -> int {
    let fan_size = fan_stage_size(k / LINE_GRID_VERTEX_COUNT as int);
    let local = k % LINE_GRID_VERTEX_COUNT as int;
    grid_vertex_index(fan_seed(fan_size, local / fan_size, local % fan_size))
}

/// Seed of corner `corner` of the 2x2 block at (`quad_row`, `quad_column`),
/// counter-clockwise from its lower-left seed.
pub open spec fn quad_block_seed(quad_row: int, quad_column: int, corner: int) -> int {
    let row = quad_row * 2;
    let column = quad_column * 2;
    if corner == 0 {
        row * LINE_GRID_COLUMNS + column
    } else if corner == 1 {
        row * LINE_GRID_COLUMNS + column + 1
    } else if corner == 2 {
        (row + 1) * LINE_GRID_COLUMNS + column + 1
    } else {
        (row + 1) * LINE_GRID_COLUMNS + column
    }
}

/// The quad list stores the 2x2 blocks of one checkerboard colour, then those
/// of the other, each row by row.
#[verifier::opaque]
pub open spec fn quad_list_entry(k: int) -> int {
    let color = k / QUAD_LIST_COLOR0_INDEX_COUNT as int;
    let local = k % QUAD_LIST_COLOR0_INDEX_COUNT as int;
    let cell = local / 4;
    let quad_row = cell / (QUAD_LIST_COLUMNS as int / 2);
    let quad_column = 2 * (cell % (QUAD_LIST_COLUMNS as int / 2)) + (quad_row + color) % 2;
    grid_vertex_index(quad_block_seed(quad_row, quad_column, local % 4))
}

/// The quad-list rings group each ring's strip vertices by four, two radial
/// pairs per quad.
pub open spec fn quad_list_rings_entry(k: int) -> int {
    let ring = k / QUAD_STRIP_RING_VERTICES_PER_RING as int;
    let local = k % QUAD_STRIP_RING_VERTICES_PER_RING as int;
    let pair = 2 * (local / 4);
    let corner = local % 4;
    if corner == 0 {
        ring_vertex_index(ring, pair, 0)
    } else if corner == 1 {
        ring_vertex_index(ring, pair, 1)
    } else if corner == 2 {
        ring_vertex_index(ring, pair + 1, 1)
    } else {
        ring_vertex_index(ring, pair + 1, 0)
    }
}

/// Each quad strip walks the radial pairs of its ring and repeats pair zero.
pub open spec fn quad_strip_entry(k: int) -> int {
    let ring = k / QUAD_STRIP_INDICES_PER_DRAW as int;
    let local = k % QUAD_STRIP_INDICES_PER_DRAW as int;
    ring_vertex_index(ring, (local / 2) % QUAD_STRIP_RING_SEGMENTS as int, local % 2)
}

/// The rect list stores the three corners of each rectangle in order.
pub open spec fn rect_list_entry(k: int) -> int {
    rect_vertex_index(
        k / RECT_LIST_VERTICES_PER_RECTANGLE as int,
        k % RECT_LIST_VERTICES_PER_RECTANGLE as int,
    )
}


#[verifier::loop_isolation(false)]
fn append_line_list(indices: &mut Vec<u32>, cursor: &mut usize)
    requires
        *old(cursor) + LINE_GRID_VERTEX_COUNT <= old(indices).len(),
    ensures
        *final(cursor) == *old(cursor) + catalogue_len(PrimitiveMode::LineList),
        writes_mode_range(old(indices)@, final(indices)@, *old(cursor) as int, PrimitiveMode::LineList),
{
    proof { lemma_layout_constants(); }
    let ghost before = indices@;
    let first = *cursor;
    for grid_vertex in 0..LINE_GRID_VERTEX_COUNT
        invariant
            first == *cursor,
            first + LINE_GRID_VERTEX_COUNT <= indices.len(),
            indices@.len() == before.len(),
            forall|p: int|
                0 <= p < before.len() && !(first <= p < first + grid_vertex)
                    ==> #[trigger] indices@[p] == before[p],
            forall|p: int|
                first <= p < first + grid_vertex
                    ==> #[trigger] indices@[p] as int == grid_vertex_index(p - first),
    {
        indices.set(*cursor + grid_vertex, line_grid_vertex(grid_vertex));
    }
    *cursor += LINE_GRID_VERTEX_COUNT;
}

#[verifier::loop_isolation(false)]
fn append_line_strip(indices: &mut Vec<u32>, cursor: &mut usize)
    requires
        *old(cursor) + LINE_GRID_VERTEX_COUNT <= old(indices).len(),
    ensures
        *final(cursor) == *old(cursor) + catalogue_len(PrimitiveMode::LineStrip),
        writes_mode_range(old(indices)@, final(indices)@, *old(cursor) as int, PrimitiveMode::LineStrip),
{
    proof { lemma_layout_constants(); }
    let ghost before = indices@;
    let first = *cursor;
    // Visit each row opposite its neighbor, using every seed exactly once.
    for step in 0..LINE_GRID_VERTEX_COUNT
        invariant
            first == *cursor,
            first + LINE_GRID_VERTEX_COUNT <= indices.len(),
            indices@.len() == before.len(),
            forall|p: int|
                0 <= p < before.len() && !(first <= p < first + step)
                    ==> #[trigger] indices@[p] == before[p],
            forall|p: int|
                first <= p < first + step
                    ==> #[trigger] indices@[p] as int == grid_vertex_index(snake_seed(p - first)),
    {
        let seed = line_grid_snake_seed_vertex(step);
        indices.set(*cursor + step, line_grid_vertex(seed));
    }
    *cursor += LINE_GRID_VERTEX_COUNT;
}

#[verifier::loop_isolation(false)]
fn append_triangle_strip(indices: &mut Vec<u32>, cursor: &mut usize)
    requires
        *old(cursor) + LINE_GRID_TRIANGLE_STRIP_INDEX_COUNT <= old(indices).len(),
    ensures
        *final(cursor) == *old(cursor) + catalogue_len(PrimitiveMode::TriangleStrip),
        writes_mode_range(old(indices)@, final(indices)@, *old(cursor) as int, PrimitiveMode::TriangleStrip),
{
    proof { lemma_layout_constants(); }
    let ghost before = indices@;
    let first = *cursor;
    for step in 0..LINE_GRID_TRIANGLE_STRIP_INDEX_COUNT
        invariant
            first == *cursor,
            first + LINE_GRID_TRIANGLE_STRIP_INDEX_COUNT <= indices.len(),
            indices@.len() == before.len(),
            forall|p: int|
                0 <= p < before.len() && !(first <= p < first + step)
                    ==> #[trigger] indices@[p] == before[p],
            forall|p: int|
                first <= p < first + step
                    ==> #[trigger] indices@[p] as int == grid_vertex_index(strip_seed(p - first)),
    {
        indices.set(*cursor + step, triangle_strip_main_vertex(step));
    }
    *cursor += LINE_GRID_TRIANGLE_STRIP_INDEX_COUNT;
}

#[verifier::loop_isolation(false)]
fn append_point_list_rings(indices: &mut Vec<u32>, cursor: &mut usize)
    requires
        *old(cursor) + POINT_RING_INDEX_COUNT <= old(indices).len(),
    ensures
        *final(cursor) == *old(cursor) + catalogue_len(PrimitiveMode::PointListRings),
        writes_mode_range(old(indices)@, final(indices)@, *old(cursor) as int, PrimitiveMode::PointListRings),
{
    proof { lemma_layout_constants(); }
    let ghost before = indices@;
    let first = *cursor;
    for circle in 0..RING_CIRCLE_COUNT
        invariant
            *cursor == first + circle * RING_CIRCLE_VERTEX_COUNT,
            first + POINT_RING_INDEX_COUNT <= indices.len(),
            indices@.len() == before.len(),
            forall|p: int|
                0 <= p < before.len() && !(first <= p < *cursor)
                    ==> #[trigger] indices@[p] == before[p],
            forall|p: int|
                first <= p < *cursor ==> #[trigger] indices@[p] as int == ring_points_entry(p - first),
    {
        for step in 0..RING_CIRCLE_VERTEX_COUNT
            invariant
                *cursor == first + circle * RING_CIRCLE_VERTEX_COUNT + step,
                circle < RING_CIRCLE_COUNT,
                first + POINT_RING_INDEX_COUNT <= indices.len(),
                indices@.len() == before.len(),
                forall|p: int|
                    0 <= p < before.len() && !(first <= p < *cursor)
                        ==> #[trigger] indices@[p] == before[p],
                forall|p: int|
                    first <= p < *cursor ==> #[trigger] indices@[p] as int == ring_points_entry(p - first),
        {
            indices.set(*cursor, ring_circle_vertex(circle, step));
            *cursor += 1;
        }
    }
}

#[verifier::loop_isolation(false)]
fn append_line_list_rings(indices: &mut Vec<u32>, cursor: &mut usize)
    requires
        *old(cursor) + LINE_LIST_RING_INDEX_COUNT <= old(indices).len(),
    ensures
        *final(cursor) == *old(cursor) + catalogue_len(PrimitiveMode::LineListRings),
        writes_mode_range(old(indices)@, final(indices)@, *old(cursor) as int, PrimitiveMode::LineListRings),
{
    proof { lemma_layout_constants(); }
    let ghost before = indices@;
    let first = *cursor;
    // Sequential disjoint pairs produce 32 dashes per circle. No vertex is
    // reused to bridge one dash to the next.
    for circle in 0..RING_CIRCLE_COUNT
        invariant
            *cursor == first + circle * RING_CIRCLE_VERTEX_COUNT,
            first + LINE_LIST_RING_INDEX_COUNT <= indices.len(),
            indices@.len() == before.len(),
            forall|p: int|
                0 <= p < before.len() && !(first <= p < *cursor)
                    ==> #[trigger] indices@[p] == before[p],
            forall|p: int|
                first <= p < *cursor ==> #[trigger] indices@[p] as int == ring_points_entry(p - first),
    {
        for step in 0..RING_CIRCLE_VERTEX_COUNT
            invariant
                *cursor == first + circle * RING_CIRCLE_VERTEX_COUNT + step,
                circle < RING_CIRCLE_COUNT,
                first + LINE_LIST_RING_INDEX_COUNT <= indices.len(),
                indices@.len() == before.len(),
                forall|p: int|
                    0 <= p < before.len() && !(first <= p < *cursor)
                        ==> #[trigger] indices@[p] == before[p],
                forall|p: int|
                    first <= p < *cursor ==> #[trigger] indices@[p] as int == ring_points_entry(p - first),
        {
            indices.set(*cursor, ring_circle_vertex(circle, step));
            *cursor += 1;
        }
    }
}

#[verifier::loop_isolation(false)]
fn append_line_strip_rings(indices: &mut Vec<u32>, cursor: &mut usize)
    requires
        *old(cursor) + LINE_STRIP_RING_INDEX_COUNT <= old(indices).len(),
    ensures
        *final(cursor) == *old(cursor) + catalogue_len(PrimitiveMode::LineStripRings),
        writes_mode_range(old(indices)@, final(indices)@, *old(cursor) as int, PrimitiveMode::LineStripRings),
{
    proof { lemma_layout_constants(); }
    let ghost before = indices@;
    let first = *cursor;
    // Each circle is a separate strip draw; repeat only its first point to
    // close the final segment without connecting distinct radii.
    for circle in 0..RING_CIRCLE_COUNT
        invariant
            *cursor == first + circle * LINE_STRIP_RING_INDICES_PER_DRAW,
            first + LINE_STRIP_RING_INDEX_COUNT <= indices.len(),
            indices@.len() == before.len(),
            forall|p: int|
                0 <= p < before.len() && !(first <= p < *cursor)
                    ==> #[trigger] indices@[p] == before[p],
            forall|p: int|
                first <= p < *cursor ==> #[trigger] indices@[p] as int == line_strip_rings_entry(p - first),
    {
        for step in 0..RING_CIRCLE_VERTEX_COUNT + 1
            invariant
                *cursor == first + circle * LINE_STRIP_RING_INDICES_PER_DRAW + step,
                circle < RING_CIRCLE_COUNT,
                first + LINE_STRIP_RING_INDEX_COUNT <= indices.len(),
                indices@.len() == before.len(),
                forall|p: int|
                    0 <= p < before.len() && !(first <= p < *cursor)
                        ==> #[trigger] indices@[p] == before[p],
                forall|p: int|
                    first <= p < *cursor ==> #[trigger] indices@[p] as int == line_strip_rings_entry(p - first),
        {
            indices.set(*cursor, ring_circle_vertex(circle, step));
            *cursor += 1;
        }
    }
}

#[verifier::loop_isolation(false)]
fn append_quad_list_rings(indices: &mut Vec<u32>, cursor: &mut usize)
    requires
        *old(cursor) + QUAD_LIST_RING_INDEX_COUNT <= old(indices).len(),
    ensures
        *final(cursor) == *old(cursor) + catalogue_len(PrimitiveMode::QuadListRings),
        writes_mode_range(old(indices)@, final(indices)@, *old(cursor) as int, PrimitiveMode::QuadListRings),
{
    proof { lemma_layout_constants(); }
    let ghost before = indices@;
    let first = *cursor;
    // Reinterpret the exact Key 9 vertex stream as independent groups of four.
    // Each group spans two radial pairs, so every following strip segment is
    // absent and becomes a visible angular gap.
    for ring in 0..QUAD_STRIP_RING_COUNT
        invariant
            *cursor == first + ring * QUAD_STRIP_RING_VERTICES_PER_RING,
            first + QUAD_LIST_RING_INDEX_COUNT <= indices.len(),
            indices@.len() == before.len(),
            forall|p: int|
                0 <= p < before.len() && !(first <= p < *cursor)
                    ==> #[trigger] indices@[p] == before[p],
            forall|p: int|
                first <= p < *cursor ==> #[trigger] indices@[p] as int == quad_list_rings_entry(p - first),
    {
        let mut pair: usize = 0;
        while pair < QUAD_STRIP_RING_SEGMENTS
            invariant
                pair % 2 == 0,
                pair <= QUAD_STRIP_RING_SEGMENTS,
                *cursor == first + ring * QUAD_STRIP_RING_VERTICES_PER_RING + pair * 2,
                ring < QUAD_STRIP_RING_COUNT,
                first + QUAD_LIST_RING_INDEX_COUNT <= indices.len(),
                indices@.len() == before.len(),
                forall|p: int|
                    0 <= p < before.len() && !(first <= p < *cursor)
                        ==> #[trigger] indices@[p] == before[p],
                forall|p: int|
                    first <= p < *cursor ==> #[trigger] indices@[p] as int == quad_list_rings_entry(p - first),
            decreases QUAD_STRIP_RING_SEGMENTS - pair,
        {
            let at = *cursor;
            indices.set(at, quad_strip_ring_vertex(ring, pair, 0));
            indices.set(at + 1, quad_strip_ring_vertex(ring, pair, 1));
            indices.set(at + 2, quad_strip_ring_vertex(ring, pair + 1, 1));
            indices.set(at + 3, quad_strip_ring_vertex(ring, pair + 1, 0));
            *cursor += 4;
            pair += 2;
        }
    }
}

#[verifier::loop_isolation(false)]
fn append_quad_strip(indices: &mut Vec<u32>, cursor: &mut usize)
    requires
        *old(cursor) + QUAD_STRIP_DRAW_COUNT * QUAD_STRIP_INDICES_PER_DRAW <= old(indices).len(),
    ensures
        *final(cursor) == *old(cursor) + catalogue_len(PrimitiveMode::QuadStrip),
        writes_mode_range(old(indices)@, final(indices)@, *old(cursor) as int, PrimitiveMode::QuadStrip),
{
    proof { lemma_layout_constants(); }
    let ghost before = indices@;
    let first = *cursor;
    // Each ring is its own draw. Inner/outer pairs progress counter-clockwise;
    // pair zero repeats only at the end of that ring to close it.
    for ring in 0..QUAD_STRIP_RING_COUNT
        invariant
            *cursor == first + ring * QUAD_STRIP_INDICES_PER_DRAW,
            first + QUAD_STRIP_DRAW_COUNT * QUAD_STRIP_INDICES_PER_DRAW <= indices.len(),
            indices@.len() == before.len(),
            forall|p: int|
                0 <= p < before.len() && !(first <= p < *cursor)
                    ==> #[trigger] indices@[p] == before[p],
            forall|p: int|
                first <= p < *cursor ==> #[trigger] indices@[p] as int == quad_strip_entry(p - first),
    {
        for pair in 0..QUAD_STRIP_RING_SEGMENTS + 1
            invariant
                *cursor == first + ring * QUAD_STRIP_INDICES_PER_DRAW + pair * 2,
                ring < QUAD_STRIP_RING_COUNT,
                first + QUAD_STRIP_DRAW_COUNT * QUAD_STRIP_INDICES_PER_DRAW <= indices.len(),
                indices@.len() == before.len(),
                forall|p: int|
                    0 <= p < before.len() && !(first <= p < *cursor)
                        ==> #[trigger] indices@[p] == before[p],
                forall|p: int|
                    first <= p < *cursor ==> #[trigger] indices@[p] as int == quad_strip_entry(p - first),
        {
            let ring_pair = pair % QUAD_STRIP_RING_SEGMENTS;
            let at = *cursor;
            indices.set(at, quad_strip_ring_vertex(ring, ring_pair, 0));
            indices.set(at + 1, quad_strip_ring_vertex(ring, ring_pair, 1));
            *cursor += 2;
        }
    }
}

#[verifier::loop_isolation(false)]
fn append_rect_list(indices: &mut Vec<u32>, cursor: &mut usize)
    requires
        *old(cursor) + RECT_LIST_INDEX_COUNT <= old(indices).len(),
    ensures
        *final(cursor) == *old(cursor) + catalogue_len(PrimitiveMode::RectList),
        writes_mode_range(old(indices)@, final(indices)@, *old(cursor) as int, PrimitiveMode::RectList),
{
    proof { lemma_layout_constants(); }
    let ghost before = indices@;
    let first = *cursor;
    for ring in 0..QUAD_STRIP_RING_COUNT
        invariant
            *cursor == first + ring * QUAD_STRIP_RING_SEGMENTS * RECT_LIST_VERTICES_PER_RECTANGLE,
            first + RECT_LIST_INDEX_COUNT <= indices.len(),
            indices@.len() == before.len(),
            forall|p: int|
                0 <= p < before.len() && !(first <= p < *cursor)
                    ==> #[trigger] indices@[p] == before[p],
            forall|p: int|
                first <= p < *cursor ==> #[trigger] indices@[p] as int == rect_list_entry(p - first),
    {
        for pair in 0..QUAD_STRIP_RING_SEGMENTS
            invariant
                *cursor == first + (ring * QUAD_STRIP_RING_SEGMENTS + pair) * RECT_LIST_VERTICES_PER_RECTANGLE,
                ring < QUAD_STRIP_RING_COUNT,
                first + RECT_LIST_INDEX_COUNT <= indices.len(),
                indices@.len() == before.len(),
                forall|p: int|
                    0 <= p < before.len() && !(first <= p < *cursor)
                        ==> #[trigger] indices@[p] == before[p],
                forall|p: int|
                    first <= p < *cursor ==> #[trigger] indices@[p] as int == rect_list_entry(p - first),
        {
            let rectangle = ring * QUAD_STRIP_RING_SEGMENTS + pair;
            let at = *cursor;
            indices.set(at, rect_list_vertex(rectangle, 0));
            indices.set(at + 1, rect_list_vertex(rectangle, 1));
            indices.set(at + 2, rect_list_vertex(rectangle, 2));
            *cursor += RECT_LIST_VERTICES_PER_RECTANGLE;
        }
    }
}

#[verifier::loop_isolation(false)]
fn append_point_list(indices: &mut Vec<u32>, cursor: &mut usize)
    requires
        *old(cursor) + LINE_GRID_VERTEX_COUNT <= old(indices).len(),
    ensures
        *final(cursor) == *old(cursor) + catalogue_len(PrimitiveMode::PointList),
        writes_mode_range(old(indices)@, final(indices)@, *old(cursor) as int, PrimitiveMode::PointList),
{
    proof { lemma_layout_constants(); }
    let ghost before = indices@;
    let first = *cursor;
    // Store each immediate-color partition contiguously. The source ordinal,
    // rather than screen coordinate, controls green, red, red repetition.
    for grid_vertex in 0..LINE_GRID_VERTEX_COUNT
        invariant
            *cursor == first + (grid_vertex + 2) / 3,
            first + LINE_GRID_VERTEX_COUNT <= indices.len(),
            indices@.len() == before.len(),
            forall|p: int|
                0 <= p < before.len() && !(first <= p < *cursor)
                    ==> #[trigger] indices@[p] == before[p],
            forall|p: int|
                first <= p < *cursor ==> #[trigger] indices@[p] as int == point_list_entry(p - first),
    {
        if grid_vertex % RGB_COLOR_COUNT == 0 {
            indices.set(*cursor, line_grid_vertex(grid_vertex));
            *cursor += 1;
        }
    }
    assert(*cursor == first + POINT_GRID_GREEN_INDEX_COUNT);
    for grid_vertex in 0..LINE_GRID_VERTEX_COUNT
        invariant
            *cursor == first + POINT_GRID_GREEN_INDEX_COUNT + grid_vertex - (grid_vertex + 2) / 3,
            first + LINE_GRID_VERTEX_COUNT <= indices.len(),
            indices@.len() == before.len(),
            forall|p: int|
                0 <= p < before.len() && !(first <= p < *cursor)
                    ==> #[trigger] indices@[p] == before[p],
            forall|p: int|
                first <= p < *cursor ==> #[trigger] indices@[p] as int == point_list_entry(p - first),
    {
        if grid_vertex % RGB_COLOR_COUNT != 0 {
            proof {
                let red = grid_vertex - (grid_vertex + 2) / 3;
                assert(3 * (red / 2) + 1 + red % 2 == grid_vertex);
            }
            indices.set(*cursor, line_grid_vertex(grid_vertex));
            *cursor += 1;
        }
    }
}

proof fn lemma_quad_list_column_step(color: int, quad_row: int, quad_column: int)
    requires
        0 <= color < 2,
        0 <= quad_row < 16,
        0 <= quad_column < 16,
    ensures
        (quad_row + quad_column) % 2 == color ==> (quad_column + 1 - (quad_row + color) % 2) / 2
            == quad_column / 2,
        (quad_row + quad_column) % 2 == color ==> (quad_column + 2 - (quad_row + color) % 2) / 2
            == quad_column / 2 + 1,
        (quad_row + quad_column) % 2 != color ==> (quad_column + 2 - (quad_row + color) % 2) / 2
            == (quad_column + 1 - (quad_row + color) % 2) / 2,
{
}

proof fn lemma_quad_list_cell(color: int, quad_row: int, quad_column: int)
    requires
        0 <= color < 2,
        0 <= quad_row < 16,
        0 <= quad_column < 16,
        (quad_row + quad_column) % 2 == color,
    ensures
        ({
            let k = color * 512 + 4 * (quad_row * 8 + quad_column / 2);
            &&& quad_list_entry(k) == grid_vertex_index(quad_block_seed(quad_row, quad_column, 0))
            &&& quad_list_entry(k + 1) == grid_vertex_index(quad_block_seed(quad_row, quad_column, 1))
            &&& quad_list_entry(k + 2) == grid_vertex_index(quad_block_seed(quad_row, quad_column, 2))
            &&& quad_list_entry(k + 3) == grid_vertex_index(quad_block_seed(quad_row, quad_column, 3))
        }),
{
    lemma_layout_constants();
    reveal(quad_list_entry);
    let cell = quad_row * 8 + quad_column / 2;
    assert(cell / 8 == quad_row);
    assert(cell % 8 == quad_column / 2);
    assert(2 * (quad_column / 2) + (quad_row + color) % 2 == quad_column);
    assert forall|corner: int| 0 <= corner < 4 implies
        #[trigger] quad_list_entry(color * 512 + 4 * cell + corner)
            == grid_vertex_index(quad_block_seed(quad_row, quad_column, corner)) by {
        assert((color * 512 + 4 * cell + corner) / 512 == color);
        assert((color * 512 + 4 * cell + corner) % 512 == 4 * cell + corner);
        assert((4 * cell + corner) / 4 == cell);
        assert((4 * cell + corner) % 4 == corner);
    }
}

fn append_quad_list(indices: &mut Vec<u32>, cursor: &mut usize)
    requires
        *old(cursor) + QUAD_LIST_INDEX_COUNT <= old(indices).len(),
    ensures
        *final(cursor) == *old(cursor) + catalogue_len(PrimitiveMode::QuadList),
        writes_mode_range(old(indices)@, final(indices)@, *old(cursor) as int, PrimitiveMode::QuadList),
{
    proof { lemma_layout_constants(); }
    let ghost before = indices@;
    // Key 8 interpretation: each independent quad consumes one
    // non-overlapping 2x2 block from the 32x32 seed grid.
    let first = *cursor;
    for color in 0..QUAD_LIST_COLOR_DRAW_COUNT
        invariant
            first == *cursor,
            first + QUAD_LIST_INDEX_COUNT <= indices.len(),
            indices@.len() == before.len(),
            forall|p: int|
                0 <= p < before.len() && !(first <= p < first + color * 512)
                    ==> #[trigger] indices@[p] == before[p],
            forall|p: int|
                first <= p < first + color * 512
                    ==> #[trigger] indices@[p] as int == quad_list_entry(p - first),
    {
        proof { lemma_layout_constants(); }
        let color_first = if color == 0 {
            first
        } else {
            first + QUAD_LIST_COLOR0_INDEX_COUNT
        };
        let mut color_cursor = color_first;
        for quad_row in 0..QUAD_LIST_ROWS
            invariant
                first == *cursor,
                color < QUAD_LIST_COLOR_DRAW_COUNT,
                color_first == first + color * 512,
                color_cursor == color_first + 4 * (quad_row * 8),
                first + QUAD_LIST_INDEX_COUNT <= indices.len(),
                indices@.len() == before.len(),
                forall|p: int|
                    0 <= p < before.len() && !(first <= p < color_cursor)
                        ==> #[trigger] indices@[p] == before[p],
                forall|p: int|
                    first <= p < color_cursor ==> #[trigger] indices@[p] as int == quad_list_entry(p - first),
        {
            proof { lemma_layout_constants(); }
            for quad_column in 0..QUAD_LIST_COLUMNS
                invariant
                    first == *cursor,
                    color < QUAD_LIST_COLOR_DRAW_COUNT,
                    quad_row < QUAD_LIST_ROWS,
                    color_first == first + color * 512,
                    color_cursor == color_first + 4 * (quad_row * 8
                        + (quad_column + 1 - (quad_row + color) % 2) / 2),
                    first + QUAD_LIST_INDEX_COUNT <= indices.len(),
                    indices@.len() == before.len(),
                    forall|p: int|
                        0 <= p < before.len() && !(first <= p < color_cursor)
                            ==> #[trigger] indices@[p] == before[p],
                    forall|p: int|
                        first <= p < color_cursor ==> #[trigger] indices@[p] as int == quad_list_entry(p - first),
            {
                proof { lemma_layout_constants(); }
                proof { lemma_quad_list_column_step(color as int, quad_row as int, quad_column as int); }
                if (quad_row + quad_column) % QUAD_LIST_COLOR_DRAW_COUNT == color {
                    let row = quad_row * 2;
                    let column = quad_column * 2;
                    proof { lemma_quad_list_cell(color as int, quad_row as int, quad_column as int); }
                    let at = color_cursor;
                    indices.set(at, line_grid_vertex(row * LINE_GRID_COLUMNS + column));
                    indices.set(at + 1, line_grid_vertex(row * LINE_GRID_COLUMNS + column + 1));
                    indices.set(at + 2, line_grid_vertex((row + 1) * LINE_GRID_COLUMNS + column + 1));
                    indices.set(at + 3, line_grid_vertex((row + 1) * LINE_GRID_COLUMNS + column));
                    color_cursor += 4;
                }
            }
        }
    }
    *cursor += QUAD_LIST_INDEX_COUNT;
}

/// The fan size of each of the seven stages.
pub proof fn lemma_fan_stage_sizes()
    ensures
        fan_stage_size(0) == 1024,
        fan_stage_size(1) == 512,
        fan_stage_size(2) == 256,
        fan_stage_size(3) == 64,
        fan_stage_size(4) == 32,
        fan_stage_size(5) == 16,
        fan_stage_size(6) == 8,
        forall|stage: int| 0 <= stage < TRIANGLE_FAN_STAGE_COUNT ==> is_fan_size(#[trigger] fan_stage_size(stage)),
{
}

/// Slot `slot` of fan `fan` lies inside its stage and its seed inside the grid.
pub proof fn lemma_fan_slot_in_grid(fan_size: int, fan: int, slot: int)
    requires
        is_fan_size(fan_size),
        0 <= fan < LINE_GRID_VERTEX_COUNT as int / fan_size,
        0 <= slot < fan_size,
    ensures
        fan * fan_size + slot < LINE_GRID_VERTEX_COUNT,
        0 <= fan_seed(fan_size, fan, slot) < LINE_GRID_VERTEX_COUNT,
        (fan * fan_size + slot) / fan_size == fan,
        (fan * fan_size + slot) % fan_size == slot,
{
    lemma_layout_constants();
    if fan_size == 1024 {
        assert(fan * fan_size == fan * 1024);
        assert(fan < 1);
        assert(fan_tile_width(fan_size) == 32 && fan_tile_height(fan_size) == 32);
        assert(fan_seed(fan_size, fan, slot) == ((fan / 1) * 32 + slot / 32) * 32 + (fan % 1) * 32 + slot % 32);
    } else if fan_size == 512 {
        assert(fan * fan_size == fan * 512);
        assert(fan < 2);
        assert(fan_tile_width(fan_size) == 16 && fan_tile_height(fan_size) == 32);
        assert(fan_seed(fan_size, fan, slot) == ((fan / 2) * 32 + slot / 16) * 32 + (fan % 2) * 16 + slot % 16);
    } else if fan_size == 256 {
        assert(fan * fan_size == fan * 256);
        assert(fan < 4);
        assert(fan_tile_width(fan_size) == 16 && fan_tile_height(fan_size) == 16);
        assert(fan_seed(fan_size, fan, slot) == ((fan / 2) * 16 + slot / 16) * 32 + (fan % 2) * 16 + slot % 16);
    } else if fan_size == 64 {
        assert(fan * fan_size == fan * 64);
        assert(fan < 16);
        assert(fan_tile_width(fan_size) == 8 && fan_tile_height(fan_size) == 8);
        assert(fan_seed(fan_size, fan, slot) == ((fan / 4) * 8 + slot / 8) * 32 + (fan % 4) * 8 + slot % 8);
    } else if fan_size == 32 {
        assert(fan * fan_size == fan * 32);
        assert(fan < 32);
        assert(fan_tile_width(fan_size) == 8 && fan_tile_height(fan_size) == 4);
        assert(fan_seed(fan_size, fan, slot) == ((fan / 4) * 4 + slot / 8) * 32 + (fan % 4) * 8 + slot % 8);
    } else if fan_size == 16 {
        assert(fan * fan_size == fan * 16);
        assert(fan < 64);
        assert(fan_tile_width(fan_size) == 4 && fan_tile_height(fan_size) == 4);
        assert(fan_seed(fan_size, fan, slot) == ((fan / 8) * 4 + slot / 4) * 32 + (fan % 8) * 4 + slot % 4);
    } else {
        assert(fan_size == 8);
        assert(fan * fan_size == fan * 8);
        assert(fan < 128);
        assert(fan_tile_width(fan_size) == 4 && fan_tile_height(fan_size) == 2);
        assert(fan_seed(fan_size, fan, slot) == ((fan / 8) * 2 + slot / 4) * 32 + (fan % 8) * 4 + slot % 4);
    }
}

/// Every fan size divides the seed count.
pub proof fn lemma_fan_count(fan_size: int)
    requires
        is_fan_size(fan_size),
    ensures
        (LINE_GRID_VERTEX_COUNT as int / fan_size) * fan_size == LINE_GRID_VERTEX_COUNT,
        LINE_GRID_VERTEX_COUNT as int / fan_size >= 1,
{
    lemma_layout_constants();
    if fan_size == 1024 {
        assert((1024int / fan_size) * fan_size == 1 * 1024);
    } else if fan_size == 512 {
        assert((1024int / fan_size) * fan_size == 2 * 512);
    } else if fan_size == 256 {
        assert((1024int / fan_size) * fan_size == 4 * 256);
    } else if fan_size == 64 {
        assert((1024int / fan_size) * fan_size == 16 * 64);
    } else if fan_size == 32 {
        assert((1024int / fan_size) * fan_size == 32 * 32);
    } else if fan_size == 16 {
        assert((1024int / fan_size) * fan_size == 64 * 16);
    } else {
        assert((1024int / fan_size) * fan_size == 128 * 8);
    }
}

proof fn lemma_fan_entry(stage: int, fan: int, slot: int)
    requires
        0 <= stage < TRIANGLE_FAN_STAGE_COUNT,
        0 <= fan < LINE_GRID_VERTEX_COUNT as int / fan_stage_size(stage),
        0 <= slot < fan_stage_size(stage),
    ensures
        triangle_fan_entry(stage * LINE_GRID_VERTEX_COUNT + fan * fan_stage_size(stage) + slot)
            == grid_vertex_index(fan_seed(fan_stage_size(stage), fan, slot)),
{
    lemma_layout_constants();
    lemma_fan_stage_sizes();
    let fan_size = fan_stage_size(stage);
    lemma_fan_slot_in_grid(fan_size, fan, slot);
    let local = fan * fan_size + slot;
    assert((stage * 1024 + local) / 1024 == stage);
    assert((stage * 1024 + local) % 1024 == local);
    reveal(triangle_fan_entry);
}

#[verifier::loop_isolation(false)]
fn append_triangle_fans(
    indices: &mut Vec<u32>,
    cursor: &mut usize,
    fan_first_indices: &mut [u32; TRIANGLE_FAN_STAGE_COUNT],
    fan_index_counts: &mut [u32; TRIANGLE_FAN_STAGE_COUNT],
)
    requires
        *old(cursor) + TRIANGLE_FAN_CATALOGUE_INDEX_COUNT <= old(indices).len(),
    ensures
        *final(cursor) == *old(cursor) + catalogue_len(PrimitiveMode::TriangleFan),
        writes_mode_range(old(indices)@, final(indices)@, *old(cursor) as int, PrimitiveMode::TriangleFan),
        forall|stage: int|
            0 <= stage < TRIANGLE_FAN_STAGE_COUNT ==> #[trigger] final(fan_first_indices)@[stage]
                == (*old(cursor) + stage * LINE_GRID_VERTEX_COUNT) as u32,
        forall|stage: int|
            0 <= stage < TRIANGLE_FAN_STAGE_COUNT ==> #[trigger] final(fan_index_counts)@[stage]
                == fan_stage_size(stage),
{
    proof { lemma_layout_constants(); }
    let ghost before = indices@;
    let first = *cursor;
    // Tile layouts: 32x32, 16x32, 16x16, 8x8, 8x4, 4x4, and 4x2.
    for fan_index in 0..TRIANGLE_FAN_STAGE_COUNT
        invariant
            *cursor == first + fan_index * 1024,
            first + TRIANGLE_FAN_CATALOGUE_INDEX_COUNT <= indices.len(),
            indices@.len() == before.len(),
            forall|stage: int|
                0 <= stage < fan_index ==> #[trigger] fan_first_indices@[stage]
                    == (first + stage * 1024) as u32,
            forall|stage: int|
                0 <= stage < fan_index ==> #[trigger] fan_index_counts@[stage] == fan_stage_size(stage),
            forall|p: int|
                0 <= p < before.len() && !(first <= p < *cursor)
                    ==> #[trigger] indices@[p] == before[p],
            forall|p: int|
                first <= p < *cursor ==> #[trigger] indices@[p] as int == triangle_fan_entry(p - first),
    {
        proof { lemma_fan_stage_sizes(); }
        let fan_size = TRIANGLE_FAN_VERTEX_COUNTS[fan_index];
        assert(fan_size == fan_stage_size(fan_index as int));
        fan_first_indices.set(fan_index, *cursor as u32);
        fan_index_counts.set(fan_index, fan_size as u32);
        proof { lemma_fan_count(fan_size as int); }
        let fan_count = LINE_GRID_VERTEX_COUNT / fan_size;
        assert(0 * fan_size == 0);
        for fan in 0..fan_count
            invariant
                fan_index < TRIANGLE_FAN_STAGE_COUNT,
                fan_size == fan_stage_size(fan_index as int),
                is_fan_size(fan_size as int),
                fan_count == LINE_GRID_VERTEX_COUNT / fan_size,
                fan_count * fan_size == LINE_GRID_VERTEX_COUNT,
                *cursor == first + fan_index * 1024 + fan * fan_size,
                first + TRIANGLE_FAN_CATALOGUE_INDEX_COUNT <= indices.len(),
                indices@.len() == before.len(),
                forall|p: int|
                    0 <= p < before.len() && !(first <= p < *cursor)
                        ==> #[trigger] indices@[p] == before[p],
                forall|p: int|
                    first <= p < *cursor ==> #[trigger] indices@[p] as int == triangle_fan_entry(p - first),
        {
            for slot in 0..fan_size
                invariant
                    fan_index < TRIANGLE_FAN_STAGE_COUNT,
                    fan_size == fan_stage_size(fan_index as int),
                    is_fan_size(fan_size as int),
                    fan_count == LINE_GRID_VERTEX_COUNT / fan_size,
                    fan < fan_count,
                    *cursor == first + fan_index * 1024 + fan * fan_size + slot,
                    first + TRIANGLE_FAN_CATALOGUE_INDEX_COUNT <= indices.len(),
                    indices@.len() == before.len(),
                    forall|p: int|
                        0 <= p < before.len() && !(first <= p < *cursor)
                            ==> #[trigger] indices@[p] == before[p],
                    forall|p: int|
                        first <= p < *cursor ==> #[trigger] indices@[p] as int == triangle_fan_entry(p - first),
            {
                proof {
                    lemma_fan_slot_in_grid(fan_size as int, fan as int, slot as int);
                    lemma_fan_entry(fan_index as int, fan as int, slot as int);
                }
                let seed = triangle_fan_partition_seed_vertex(fan_size, fan, slot);
                indices.set(*cursor, line_grid_vertex(seed));
                *cursor += 1;
            }
            proof {
                assert((fan + 1) * fan_size == fan * fan_size + fan_size) by (nonlinear_arith);
            }
        }
    }
}

proof fn lemma_triangle_count_step(color: int, n: int)
    requires
        0 <= color < 3,
        0 <= n,
    ensures
        n % 3 == color ==> color_triangles_below(color, n) == (n - color) / 3,
        n % 3 == color ==> color_triangles_below(color, n + 1) == color_triangles_below(color, n) + 1,
        n % 3 != color ==> color_triangles_below(color, n + 1) == color_triangles_below(color, n),
        color_triangles_below(color, 0) == 0,
{
}

/// The catalogue offset of every corner of triangle `triangle` of colour `color`.
pub proof fn lemma_triangle_list_corner(color: int, triangle: int, corner: int)
    requires
        0 <= color < 3,
        0 <= triangle < LINE_GRID_TRIANGLE_COUNT,
        triangle % 3 == color,
        0 <= corner < 3,
    ensures
        triangle_color_first(color) + 3 * ((triangle - color) / 3) + corner < triangle_color_first(color + 1),
        triangle_list_entry(triangle_color_first(color) + 3 * ((triangle - color) / 3) + corner)
            == grid_triangle_corner(triangle, corner),
{
    lemma_layout_constants();
    reveal(triangle_list_entry);
    let local = 3 * ((triangle - color) / 3) + corner;
    assert(local / 3 == (triangle - color) / 3);
    assert(local % 3 == corner);
    assert(3 * ((triangle - color) / 3) + color == triangle);
}

/// Where the two triangles of cell (`row`, `column`) land in the colour
/// range of `color`, and how they advance that colour's count.
proof fn lemma_triangle_list_cell(color: int, row: int, column: int)
    requires
        0 <= color < 3,
        0 <= row < 31,
        0 <= column < 31,
    ensures
        ({
            let n = 2 * (row * 31 + column);
            let lower_left = grid_vertex_index(row * 32 + column);
            let lower_right = grid_vertex_index(row * 32 + column + 1);
            let upper_left = grid_vertex_index((row + 1) * 32 + column);
            let upper_right = grid_vertex_index((row + 1) * 32 + column + 1);
            let at_lower = triangle_color_first(color) + 3 * color_triangles_below(color, n);
            let at_upper = triangle_color_first(color) + 3 * color_triangles_below(color, n + 1);
            &&& n % 3 == color ==> {
                &&& at_lower + 2 < triangle_color_first(color + 1)
                &&& triangle_list_entry(at_lower) == lower_left
                &&& triangle_list_entry(at_lower + 1) == lower_right
                &&& triangle_list_entry(at_lower + 2) == upper_right
                &&& color_triangles_below(color, n + 1) == color_triangles_below(color, n) + 1
            }
            &&& n % 3 != color ==> color_triangles_below(color, n + 1) == color_triangles_below(color, n)
            &&& (n + 1) % 3 == color ==> {
                &&& at_upper + 2 < triangle_color_first(color + 1)
                &&& triangle_list_entry(at_upper) == lower_left
                &&& triangle_list_entry(at_upper + 1) == upper_right
                &&& triangle_list_entry(at_upper + 2) == upper_left
                &&& color_triangles_below(color, n + 2) == color_triangles_below(color, n + 1) + 1
            }
            &&& (n + 1) % 3 != color ==> color_triangles_below(color, n + 2)
                == color_triangles_below(color, n + 1)
        }),
{
    lemma_layout_constants();
    let cell = row * 31 + column;
    let n = 2 * cell;
    lemma_triangle_count_step(color, n);
    lemma_triangle_count_step(color, n + 1);
    assert(n / 2 == cell && (n + 1) / 2 == cell);
    assert(cell / 31 == row && cell % 31 == column);
    reveal(grid_triangle_corner);
    if n % 3 == color {
        lemma_triangle_list_corner(color, n, 0);
        lemma_triangle_list_corner(color, n, 1);
        lemma_triangle_list_corner(color, n, 2);
    }
    if (n + 1) % 3 == color {
        lemma_triangle_list_corner(color, n + 1, 0);
        lemma_triangle_list_corner(color, n + 1, 1);
        lemma_triangle_list_corner(color, n + 1, 2);
    }
}

#[verifier::rlimit(40)]
fn append_triangle_list(indices: &mut Vec<u32>, cursor: &mut usize)
    requires
        *old(cursor) + LINE_GRID_TRIANGLE_LIST_INDEX_COUNT <= old(indices).len(),
    ensures
        *final(cursor) == *old(cursor) + catalogue_len(PrimitiveMode::TriangleList),
        writes_mode_range(old(indices)@, final(indices)@, *old(cursor) as int, PrimitiveMode::TriangleList),
{
    proof { lemma_layout_constants(); }
    let ghost before = indices@;
    // Two CCW triangles per cell, packed into red, green, and blue draws.
    let first = *cursor;
    for color in 0..RGB_COLOR_COUNT
        invariant
            first == *cursor,
            first + LINE_GRID_TRIANGLE_LIST_INDEX_COUNT <= indices.len(),
            indices@.len() == before.len(),
            forall|p: int|
                0 <= p < before.len() && !(first <= p < first + triangle_color_first(color as int))
                    ==> #[trigger] indices@[p] == before[p],
            forall|p: int|
                first <= p < first + triangle_color_first(color as int)
                    ==> #[trigger] indices@[p] as int == triangle_list_entry(p - first),
    {
        proof { lemma_layout_constants(); }
        let (color_offset, color_count) = match color {
            0 => (0, TRIANGLE_LIST_COLOR0_INDEX_COUNT),
            1 => (TRIANGLE_LIST_COLOR0_INDEX_COUNT, TRIANGLE_LIST_COLOR1_INDEX_COUNT),
            _ => (
                TRIANGLE_LIST_COLOR0_INDEX_COUNT + TRIANGLE_LIST_COLOR1_INDEX_COUNT,
                TRIANGLE_LIST_COLOR2_INDEX_COUNT,
            ),
        };
        let mut color_cursor = first + color_offset;
        for row in 0..LINE_GRID_ROWS - 1
            invariant
                first == *cursor,
                color < 3,
                color_offset == triangle_color_first(color as int),
                color_offset + color_count == triangle_color_first(color + 1),
                color_cursor == first + color_offset + 3 * color_triangles_below(color as int, 2 * (row * 31)),
                first + LINE_GRID_TRIANGLE_LIST_INDEX_COUNT <= indices.len(),
                indices@.len() == before.len(),
                forall|p: int|
                    0 <= p < before.len() && !(first <= p < color_cursor)
                        ==> #[trigger] indices@[p] == before[p],
                forall|p: int|
                    first <= p < color_cursor ==> #[trigger] indices@[p] as int == triangle_list_entry(p - first),
        {
            proof { lemma_layout_constants(); }
            for column in 0..LINE_GRID_COLUMNS - 1
                invariant
                    first == *cursor,
                    color < 3,
                    row < 31,
                    color_offset == triangle_color_first(color as int),
                    color_offset + color_count == triangle_color_first(color + 1),
                    color_cursor == first + color_offset + 3 * color_triangles_below(
                        color as int,
                        2 * (row * 31 + column),
                    ),
                    first + LINE_GRID_TRIANGLE_LIST_INDEX_COUNT <= indices.len(),
                    indices@.len() == before.len(),
                    forall|p: int|
                        0 <= p < before.len() && !(first <= p < color_cursor)
                            ==> #[trigger] indices@[p] == before[p],
                    forall|p: int|
                        first <= p < color_cursor ==> #[trigger] indices@[p] as int == triangle_list_entry(p - first),
            {
                proof { lemma_layout_constants(); }
                let lower_left = line_grid_vertex(row * LINE_GRID_COLUMNS + column);
                let lower_right = line_grid_vertex(row * LINE_GRID_COLUMNS + column + 1);
                let upper_left = line_grid_vertex((row + 1) * LINE_GRID_COLUMNS + column);
                let upper_right = line_grid_vertex((row + 1) * LINE_GRID_COLUMNS + column + 1);
                let triangle = ((row * (LINE_GRID_COLUMNS - 1) + column) * 2) % 3;
                proof { lemma_triangle_list_cell(color as int, row as int, column as int); }
                if triangle == color {
                    let at = color_cursor;
                    indices.set(at, lower_left);
                    indices.set(at + 1, lower_right);
                    indices.set(at + 2, upper_right);
                    color_cursor += 3;
                }
                if (triangle + 1) % 3 == color {
                    let at = color_cursor;
                    indices.set(at, lower_left);
                    indices.set(at + 1, upper_right);
                    indices.set(at + 2, upper_left);
                    color_cursor += 3;
                }
            }
        }
        assert(color_cursor == first + color_offset + color_count);
    }
    *cursor += LINE_GRID_TRIANGLE_LIST_INDEX_COUNT;
}

/// Append the immutable index range for one ordinary primitive mode.
/// Adjacency modes live in `adjacency` and return `false` untouched.
pub fn append_indices(
    mode: PrimitiveMode,
    indices: &mut Vec<u32>,
    cursor: &mut usize,
    fan_first_indices: &mut [u32; TRIANGLE_FAN_STAGE_COUNT],
    fan_index_counts: &mut [u32; TRIANGLE_FAN_STAGE_COUNT],
) -> (appended: bool)
    requires
        adjacency_of(mode).is_none() ==> *old(cursor) + catalogue_len(mode) <= old(indices).len(),
    ensures
        appended == adjacency_of(mode).is_none(),
        appended ==> *final(cursor) == *old(cursor) + catalogue_len(mode),
        appended ==> writes_mode_range(old(indices)@, final(indices)@, *old(cursor) as int, mode),
        !appended ==> *final(cursor) == *old(cursor) && final(indices)@ == old(indices)@,
        mode == PrimitiveMode::TriangleFan ==> forall|stage: int|
            0 <= stage < TRIANGLE_FAN_STAGE_COUNT ==> #[trigger] final(fan_first_indices)@[stage]
                == (*old(cursor) + stage * LINE_GRID_VERTEX_COUNT) as u32,
        mode == PrimitiveMode::TriangleFan ==> forall|stage: int|
            0 <= stage < TRIANGLE_FAN_STAGE_COUNT ==> #[trigger] final(fan_index_counts)@[stage]
                == fan_stage_size(stage),
        mode != PrimitiveMode::TriangleFan ==> *final(fan_first_indices) == *old(fan_first_indices),
        mode != PrimitiveMode::TriangleFan ==> *final(fan_index_counts) == *old(fan_index_counts),
{
    match mode {
        PrimitiveMode::PointList => append_point_list(indices, cursor),
        PrimitiveMode::PointListRings => append_point_list_rings(indices, cursor),
        PrimitiveMode::LineList => append_line_list(indices, cursor),
        PrimitiveMode::LineListRings => append_line_list_rings(indices, cursor),
        PrimitiveMode::LineStrip => append_line_strip(indices, cursor),
        PrimitiveMode::LineStripRings => append_line_strip_rings(indices, cursor),
        PrimitiveMode::TriangleList => append_triangle_list(indices, cursor),
        PrimitiveMode::TriangleStrip => append_triangle_strip(indices, cursor),
        PrimitiveMode::TriangleFan => {
            append_triangle_fans(indices, cursor, fan_first_indices, fan_index_counts)
        },
        PrimitiveMode::QuadList => append_quad_list(indices, cursor),
        PrimitiveMode::QuadListRings => append_quad_list_rings(indices, cursor),
        PrimitiveMode::QuadStrip => append_quad_strip(indices, cursor),
        PrimitiveMode::RectList => append_rect_list(indices, cursor),
        PrimitiveMode::LineListAdj
        | PrimitiveMode::LineStripAdj
        | PrimitiveMode::TriangleListAdj
        | PrimitiveMode::TriangleStripAdj => return false,
    }
    true
}

} // verus!
