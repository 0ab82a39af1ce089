//! Properties that hold across the primitive modes, the key bindings, the
//! execution index catalogue and the draw batches.
use vstd::prelude::*;
use vstd::arithmetic::div_mod::{lemma_fundamental_div_mod, lemma_fundamental_div_mod_converse};
use super::adjacency::adjacency_of;
use super::base::{
    lemma_layout_constants, lemma_fan_stage_sizes, lemma_fan_slot_in_grid, lemma_fan_count,
    triangle_list_entry, triangle_fan_entry, quad_list_entry, snake_seed, strip_seed, fan_seed, fan_stage_size, grid_triangle_corner,
    triangle_color_first, quad_block_seed, ring_circle_index,
    QUAD_STRIP_RING_VERTEX_OFFSET, LINE_GRID_VERTEX_OFFSET, RECT_LIST_VERTEX_OFFSET,
    EXECUTION_VERTEX_COUNT, LINE_GRID_VERTEX_COUNT, is_fan_size, fan_tile_width, fan_tile_height,
    TRIANGLE_FAN_STAGE_COUNT, lemma_triangle_list_corner,
};
use super::{
    ExecutionIndexCatalogue, draw_span, expected_draw, STAMP_COUNT, batch_draw_count, has_uniform_draws,
    lemma_uniform_draws_cover_range, fan_stage_of, indices_per_draw_of,
    PrimitiveMode, PrimitiveTopology, topology_of, label_text, mode_after_key, number_key_of, catalogue_len, catalogue_entry, slot_of,
    slot_first, lemma_slot_firsts, mode_of_slot, PRIMITIVE_MODE_COUNT, EXECUTION_INDEX_COUNT,
};

verus! {

/// How many modes share a number key: the length of the cycle that the key
/// steps through.
pub open spec fn modes_on_key(key: u8) -> nat {
    if key == 2 || key == 3 {
        3
    } else if key == 1 || key == 4 || key == 5 || key == 8 {
        2
    } else if key == 0 || key == 6 || key == 9 {
        1
    } else {
        0
    }
}

/// The mode reached by pressing `key` `presses` times, starting from `mode`.
pub open spec fn after_presses(mode: PrimitiveMode, key: u8, presses: nat) -> PrimitiveMode
    decreases presses,
{
    if presses == 0 {
        mode
    } else {
        match mode_after_key(after_presses(mode, key, (presses - 1) as nat), key) {
            Some(next) => next,
            None => after_presses(mode, key, (presses - 1) as nat),
        }
    }
}

/// A bound key always selects one of the modes that the key is reserved
/// for, and only keys 0-9 other than 7 are bound.
pub proof fn law_key_selects_its_own_mode(mode: PrimitiveMode, key: u8)
    ensures
        mode_after_key(mode, key) is None <==> (key == 7 || key > 9),
        mode_after_key(mode, key) matches Some(next) ==> number_key_of(next) == key,
{
}

/// A number key steps through the modes that share it in the order the
/// catalogue stores them. Pressed while another key's mode is selected, it
/// selects the first of its modes (never an adjacency placeholder); pressed
/// again, it selects the next of its modes, and after the last one the
/// first again.
pub proof fn law_key_presses_follow_catalogue_order(mode: PrimitiveMode, key: u8)
    ensures
        number_key_of(mode) != key ==> (mode_after_key(mode, key) matches Some(next) ==> {
            &&& adjacency_of(next) is None
            &&& forall|other: PrimitiveMode|
                number_key_of(other) == key ==> slot_of(next) <= #[trigger] slot_of(other)
        }),
        number_key_of(mode) == key ==> (mode_after_key(mode, key) matches Some(next) ==> {
            ||| slot_of(mode) < slot_of(next) && forall|other: PrimitiveMode|
                number_key_of(other) == key ==> !(slot_of(mode) < #[trigger] slot_of(other) < slot_of(
                    next,
                ))
            ||| forall|other: PrimitiveMode|
                number_key_of(other) == key ==> slot_of(next) <= #[trigger] slot_of(other) <= slot_of(
                    mode,
                )
        }),
{
}

/// Pressing the key of the selected mode as many times as that key has
/// modes cycles back to the selected mode: keys 1, 4, 5 and 8 toggle, keys
/// 2 and 3 step through three interpretations, keys 0, 6 and 9 keep theirs.
pub proof fn law_key_cycles_back(mode: PrimitiveMode)
    ensures
        after_presses(mode, number_key_of(mode), modes_on_key(number_key_of(mode))) == mode,
        forall|presses: nat|
            0 < presses < modes_on_key(number_key_of(mode)) ==> #[trigger] after_presses(
                mode,
                number_key_of(mode),
                presses,
            ) != mode,
{
    reveal_with_fuel(after_presses, 4);
    assert forall|presses: nat|
        0 < presses < modes_on_key(number_key_of(mode)) implies #[trigger] after_presses(
            mode,
            number_key_of(mode),
            presses,
        ) != mode by {
        reveal_with_fuel(after_presses, 3);
    }
}

/// The block of execution vertices that a mode's indices address: the ring
/// modes use the quad-strip ring vertices, the rectangle list its own
/// rectangle corners, and every other mode the seed grid.
pub open spec fn source_vertices(mode: PrimitiveMode) -> (int, int) {
    match mode {
        PrimitiveMode::PointListRings
        | PrimitiveMode::LineListRings
        | PrimitiveMode::LineStripRings
        | PrimitiveMode::QuadListRings
        | PrimitiveMode::QuadStrip => (
            QUAD_STRIP_RING_VERTEX_OFFSET as int,
            LINE_GRID_VERTEX_OFFSET as int,
        ),
        PrimitiveMode::RectList => (RECT_LIST_VERTEX_OFFSET as int, EXECUTION_VERTEX_COUNT as int),
        _ => (LINE_GRID_VERTEX_OFFSET as int, RECT_LIST_VERTEX_OFFSET as int),
    }
}

proof fn lemma_grid_modes_in_grid(mode: PrimitiveMode, k: int)
    requires
        0 <= k < catalogue_len(mode),
        source_vertices(mode) == (LINE_GRID_VERTEX_OFFSET as int, RECT_LIST_VERTEX_OFFSET as int),
    ensures
        LINE_GRID_VERTEX_OFFSET <= catalogue_entry(mode, k) < RECT_LIST_VERTEX_OFFSET,
{
    lemma_layout_constants();
    match mode {
        PrimitiveMode::PointList => {
            if k >= 342 {
                let red = k - 342;
                assert(3 * (red / 2) + 1 + red % 2 < 1024);
            }
        },
        PrimitiveMode::TriangleList => {
            reveal(triangle_list_entry);
            reveal(grid_triangle_corner);
            let color = if k < triangle_color_first(1) { 0int } else if k < triangle_color_first(2) { 1int } else { 2int };
            let local = k - triangle_color_first(color);
            let triangle = 3 * (local / 3) + color;
            assert(0 <= triangle < 1922);
            let cell = triangle / 2;
            assert(cell / 31 < 31 && cell % 31 < 31);
        },
        PrimitiveMode::TriangleStrip => {
            assert(k / 64 < 31);
            assert(0 <= strip_seed(k) < 1024);
        },
        PrimitiveMode::TriangleFan => {
            reveal(triangle_fan_entry);
            lemma_fan_stage_sizes();
            let stage = k / 1024;
            let fan_size = fan_stage_size(stage);
            let local = k % 1024;
            lemma_fan_count(fan_size);
            assert(local / fan_size < 1024int / fan_size) by (nonlinear_arith)
                requires
                    0 <= local < 1024,
                    fan_size > 0,
                    (1024int / fan_size) * fan_size == 1024,
            ;
            lemma_fan_slot_in_grid(fan_size, local / fan_size, local % fan_size);
        },
        PrimitiveMode::QuadList => {
            reveal(quad_list_entry);
            let local = k % 512;
            let cell = local / 4;
            let quad_row = cell / 8;
            let quad_column = 2 * (cell % 8) + (quad_row + k / 512) % 2;
            assert(quad_row < 16 && quad_column < 16);
            assert(0 <= quad_block_seed(quad_row, quad_column, local % 4) < 1024);
        },
        _ => {},
    }
}

/// Every catalogue index addresses a vertex of the execution vertex buffer,
/// inside the block of vertices that its mode draws from.
pub proof fn law_catalogue_indices_address_their_vertices(mode: PrimitiveMode, k: int)
    requires
        0 <= k < catalogue_len(mode),
    ensures
        source_vertices(mode).0 <= catalogue_entry(mode, k) < source_vertices(mode).1,
        0 <= source_vertices(mode).0 && source_vertices(mode).1 <= EXECUTION_VERTEX_COUNT,
{
    lemma_layout_constants();
    match mode {
        PrimitiveMode::PointListRings | PrimitiveMode::LineListRings => {
            assert(k / 64 < 4);
        },
        PrimitiveMode::LineStripRings => {
            assert(k / 65 < 4);
        },
        PrimitiveMode::QuadListRings => {
            assert(k / 128 < 2);
        },
        PrimitiveMode::QuadStrip => {
            assert(k / 130 < 2);
        },
        PrimitiveMode::RectList => {},
        _ => {
            lemma_grid_modes_in_grid(mode, k);
        },
    }
}

/// Some catalogue entry of `mode` between offsets `start` and `start + count`
/// addresses `vertex`.
pub open spec fn visited(mode: PrimitiveMode, start: int, count: int, vertex: int) -> bool {
    exists|k: int| start <= k < start + count && #[trigger] catalogue_entry(mode, k) == vertex
}

/// The `count` catalogue entries of `mode` from offset `start` address the
/// `count` vertices from `low` on, each exactly once.
pub open spec fn visits_each_once(mode: PrimitiveMode, start: int, count: int, low: int) -> bool {
    &&& forall|k: int|
        start <= k < start + count ==> low <= #[trigger] catalogue_entry(mode, k) < low + count
    &&& forall|k1: int, k2: int|
        start <= k1 < start + count && start <= k2 < start + count && k1 != k2
            ==> #[trigger] catalogue_entry(mode, k1) != #[trigger] catalogue_entry(mode, k2)
    &&& forall|vertex: int| low <= vertex < low + count ==> #[trigger] visited(mode, start, count, vertex)
}

/// A range with an inverse on both sides visits each of its vertices once.
proof fn lemma_inverse_visits_each_once(
    mode: PrimitiveMode,
    start: int,
    count: int,
    low: int,
    position_of: spec_fn(int) -> int,
)
    requires
        forall|k: int|
            start <= k < start + count ==> low <= #[trigger] catalogue_entry(mode, k) < low + count
                && position_of(catalogue_entry(mode, k)) == k,
        forall|vertex: int|
            low <= vertex < low + count ==> start <= #[trigger] position_of(vertex) < start + count
                && catalogue_entry(mode, position_of(vertex)) == vertex,
    ensures
        visits_each_once(mode, start, count, low),
{
    assert forall|vertex: int| low <= vertex < low + count implies #[trigger] visited(mode, start, count, vertex) by {
        let k = position_of(vertex);
        assert(start <= k < start + count && catalogue_entry(mode, k) == vertex);
    }
}

/// The point list visits every grid seed once: first the seeds whose
/// ordinal is a multiple of three (green), then all the others (red).
pub proof fn law_point_list_partitions_the_grid()
    ensures
        visits_each_once(PrimitiveMode::PointList, 0, 1024, LINE_GRID_VERTEX_OFFSET as int),
        forall|k: int|
            0 <= k < 1024 ==> ((#[trigger] catalogue_entry(PrimitiveMode::PointList, k)
                - LINE_GRID_VERTEX_OFFSET) % 3 == 0 <==> k < 342),
{
    lemma_layout_constants();
    let position_of = |vertex: int|
        {
            let seed = vertex - 268;
            if seed % 3 == 0 {
                seed / 3
            } else {
                342 + 2 * (seed / 3) + seed % 3 - 1
            }
        };
    assert forall|k: int| 0 <= k < 1024 implies 268 <= #[trigger] catalogue_entry(
        PrimitiveMode::PointList,
        k,
    ) < 268 + 1024 && position_of(catalogue_entry(PrimitiveMode::PointList, k)) == k && ((
    catalogue_entry(PrimitiveMode::PointList, k) - 268) % 3 == 0 <==> k < 342) by {
        if k >= 342 {
            let red = k - 342;
            let seed = 3 * (red / 2) + 1 + red % 2;
            assert(seed % 3 == 1 + red % 2 && seed / 3 == red / 2);
        }
    }
    assert forall|vertex: int| 268 <= vertex < 268 + 1024 implies 0 <= #[trigger] position_of(vertex)
        < 1024 && catalogue_entry(PrimitiveMode::PointList, position_of(vertex)) == vertex by {
        let seed = vertex - 268;
        if seed % 3 != 0 {
            let red = 2 * (seed / 3) + seed % 3 - 1;
            assert(red / 2 == seed / 3 && red % 2 == seed % 3 - 1);
        }
    }
    lemma_inverse_visits_each_once(PrimitiveMode::PointList, 0, 1024, 268, position_of);
}

/// The line list and the snake line strip each visit every grid seed once.
pub proof fn law_line_modes_visit_every_seed_once()
    ensures
        visits_each_once(PrimitiveMode::LineList, 0, 1024, LINE_GRID_VERTEX_OFFSET as int),
        visits_each_once(PrimitiveMode::LineStrip, 0, 1024, LINE_GRID_VERTEX_OFFSET as int),
{
    lemma_layout_constants();
    lemma_inverse_visits_each_once(PrimitiveMode::LineList, 0, 1024, 268, |vertex: int| vertex - 268);
    let position_of = |vertex: int|
        {
            let seed = vertex - 268;
            let row = seed / 32;
            let column = seed % 32;
            if row % 2 == 0 {
                row * 32 + column
            } else {
                row * 32 + 31 - column
            }
        };
    assert forall|k: int| 0 <= k < 1024 implies 268 <= #[trigger] catalogue_entry(
        PrimitiveMode::LineStrip,
        k,
    ) < 268 + 1024 && position_of(catalogue_entry(PrimitiveMode::LineStrip, k)) == k by {
        let row = k / 32;
        let seed = snake_seed(k);
        assert(seed / 32 == row);
    }
    assert forall|vertex: int| 268 <= vertex < 268 + 1024 implies 0 <= #[trigger] position_of(vertex)
        < 1024 && catalogue_entry(PrimitiveMode::LineStrip, position_of(vertex)) == vertex by {
        let seed = vertex - 268;
        let step = position_of(vertex);
        assert(step / 32 == seed / 32);
    }
    lemma_inverse_visits_each_once(PrimitiveMode::LineStrip, 0, 1024, 268, position_of);
}

/// Offset, inside its stage, of the fan slot that covers `seed`: the
/// inverse of `fan_seed`.
pub open spec fn fan_position_of_seed(fan_size: int, seed: int) -> int {
    let width = fan_tile_width(fan_size);
    let height = fan_tile_height(fan_size);
    let tile_columns = 32int / width;
    let row = seed / 32;
    let column = seed % 32;
    ((row / height) * tile_columns + column / width) * fan_size + (row % height) * width + column
        % width
}

/// The tile shape of each fan size: `width` columns by `height` rows of
/// seeds, with whole tiles across and down the 32x32 grid.
proof fn lemma_fan_tile_shape(fan_size: int)
    requires
        is_fan_size(fan_size),
    ensures
        fan_tile_width(fan_size) > 0,
        fan_tile_height(fan_size) > 0,
        fan_tile_width(fan_size) * fan_tile_height(fan_size) == fan_size,
        (32int / fan_tile_width(fan_size)) * fan_tile_width(fan_size) == 32,
        (32int / fan_tile_height(fan_size)) * fan_tile_height(fan_size) == 32,
{
    if fan_size == 1024 {
        assert(fan_tile_width(fan_size) == 32 && fan_tile_height(fan_size) == 32);
        assert((32int / 32) * 32 == 32);
        assert((32int / 32) * 32 == 32);
    } else if fan_size == 512 {
        assert(fan_tile_width(fan_size) == 16 && fan_tile_height(fan_size) == 32);
        assert((32int / 32) * 32 == 32);
        assert((32int / 16) * 16 == 32);
    } else if fan_size == 256 {
        assert(fan_tile_width(fan_size) == 16 && fan_tile_height(fan_size) == 16);
        assert((32int / 16) * 16 == 32);
        assert((32int / 16) * 16 == 32);
    } else if fan_size == 64 {
        assert(fan_tile_width(fan_size) == 8 && fan_tile_height(fan_size) == 8);
        assert((32int / 8) * 8 == 32);
        assert((32int / 8) * 8 == 32);
    } else if fan_size == 32 {
        assert(fan_tile_width(fan_size) == 8 && fan_tile_height(fan_size) == 4);
        assert((32int / 4) * 4 == 32);
        assert((32int / 8) * 8 == 32);
    } else if fan_size == 16 {
        assert(fan_tile_width(fan_size) == 4 && fan_tile_height(fan_size) == 4);
        assert((32int / 4) * 4 == 32);
        assert((32int / 4) * 4 == 32);
    } else {
        assert(fan_tile_width(fan_size) == 4 && fan_tile_height(fan_size) == 2);
        assert((32int / 2) * 2 == 32);
        assert((32int / 4) * 4 == 32);
    }
}

/// Slot `slot` of fan `fan` is the seed at row `(fan / tile_columns) *
/// height + slot / width` and column `(fan % tile_columns) * width + slot %
/// width`, and `fan_position_of_seed` recovers `fan * fan_size + slot` from it.
proof fn lemma_fan_seed_layout(fan_size: int, fan: int, slot: int)
    requires
        is_fan_size(fan_size),
        0 <= fan < 1024int / fan_size,
        0 <= slot < fan_size,
    ensures
        0 <= fan_seed(fan_size, fan, slot) < 1024,
        fan_seed(fan_size, fan, slot) / 32 == (fan / (32int / fan_tile_width(fan_size)))
            * fan_tile_height(fan_size) + slot / fan_tile_width(fan_size),
        fan_seed(fan_size, fan, slot) % 32 == (fan % (32int / fan_tile_width(fan_size)))
            * fan_tile_width(fan_size) + slot % fan_tile_width(fan_size),
        fan_position_of_seed(fan_size, fan_seed(fan_size, fan, slot)) == fan * fan_size + slot,
{
    lemma_layout_constants();
    lemma_fan_tile_shape(fan_size);
    lemma_fan_slot_in_grid(fan_size, fan, slot);
    let width = fan_tile_width(fan_size);
    let height = fan_tile_height(fan_size);
    let tile_columns = 32int / width;
    lemma_fundamental_div_mod(fan, tile_columns);
    lemma_fundamental_div_mod(slot, width);
    let tile_row = fan / tile_columns;
    let tile_column = fan % tile_columns;
    let slot_row = slot / width;
    let slot_column = slot % width;
    assert(slot_row < height) by (nonlinear_arith)
        requires
            slot == width * slot_row + slot_column,
            0 <= slot_column < width,
            0 <= slot < width * height,
    ;
    assert(0 <= tile_column * width + slot_column < 32) by (nonlinear_arith)
        requires
            0 <= tile_column < tile_columns,
            0 <= slot_column < width,
            tile_columns * width == 32,
    ;
    let row = tile_row * height + slot_row;
    let column = tile_column * width + slot_column;
    assert(fan_seed(fan_size, fan, slot) == row * 32 + column);
    lemma_fundamental_div_mod_converse(row * 32 + column, 32, row, column);
    lemma_fundamental_div_mod_converse(row, height, tile_row, slot_row);
    lemma_fundamental_div_mod_converse(column, width, tile_column, slot_column);
    assert((tile_row * tile_columns + tile_column) * fan_size + slot_row * width + slot_column == fan
        * fan_size + slot) by (nonlinear_arith)
        requires
            fan == tile_columns * tile_row + tile_column,
            slot == width * slot_row + slot_column,
    ;
}

proof fn lemma_fan_seed_round_trip(fan_size: int, local: int)
    requires
        is_fan_size(fan_size),
        0 <= local < 1024,
    ensures
        0 <= fan_seed(fan_size, local / fan_size, local % fan_size) < 1024,
        fan_position_of_seed(fan_size, fan_seed(fan_size, local / fan_size, local % fan_size)) == local,
{
    lemma_fan_count(fan_size);
    let fan = local / fan_size;
    let slot = local % fan_size;
    lemma_fundamental_div_mod(local, fan_size);
    assert(fan < 1024int / fan_size) by (nonlinear_arith)
        requires
            fan == local / fan_size,
            0 <= local < 1024,
            fan_size > 0,
            (1024int / fan_size) * fan_size == 1024,
    ;
    lemma_fan_seed_layout(fan_size, fan, slot);
}

proof fn lemma_fan_position_round_trip(fan_size: int, seed: int)
    requires
        is_fan_size(fan_size),
        0 <= seed < 1024,
    ensures
        0 <= fan_position_of_seed(fan_size, seed) < 1024,
        fan_seed(
            fan_size,
            fan_position_of_seed(fan_size, seed) / fan_size,
            fan_position_of_seed(fan_size, seed) % fan_size,
        ) == seed,
{
    lemma_fan_tile_shape(fan_size);
    let width = fan_tile_width(fan_size);
    let height = fan_tile_height(fan_size);
    let tile_columns = 32int / width;
    let row = seed / 32;
    let column = seed % 32;
    lemma_fundamental_div_mod(seed, 32);
    lemma_fundamental_div_mod(row, height);
    lemma_fundamental_div_mod(column, width);
    let tile_row = row / height;
    let slot_row = row % height;
    let tile_column = column / width;
    let slot_column = column % width;
    assert(tile_column < tile_columns && tile_row < 32int / height) by (nonlinear_arith)
        requires
            column == width * tile_column + slot_column,
            0 <= slot_column < width,
            0 <= column < 32,
            tile_columns * width == 32,
            row == height * tile_row + slot_row,
            0 <= slot_row < height,
            0 <= row < 32,
            (32int / height) * height == 32,
            tile_row >= 0,
            tile_column >= 0,
    ;
    let fan = tile_row * tile_columns + tile_column;
    let slot = slot_row * width + slot_column;
    assert(0 <= slot < fan_size) by (nonlinear_arith)
        requires
            0 <= slot_row < height,
            0 <= slot_column < width,
            slot == slot_row * width + slot_column,
            fan_size == width * height,
    ;
    assert(fan_position_of_seed(fan_size, seed) == fan * fan_size + slot);
    assert(0 <= fan * fan_size + slot < 1024) by (nonlinear_arith)
        requires
            0 <= tile_row < 32int / height,
            0 <= tile_column < tile_columns,
            fan == tile_row * tile_columns + tile_column,
            0 <= slot < fan_size,
            fan_size == width * height,
            tile_columns * width == 32,
            (32int / height) * height == 32,
    ;
    lemma_fundamental_div_mod_converse(fan * fan_size + slot, fan_size, fan, slot);
    lemma_fundamental_div_mod_converse(fan, tile_columns, tile_row, tile_column);
    lemma_fundamental_div_mod_converse(slot, width, slot_row, slot_column);
    assert(tile_row * height + slot_row == row && tile_column * width + slot_column == column)
        by (nonlinear_arith)
        requires
            row == height * tile_row + slot_row,
            column == width * tile_column + slot_column,
    ;
    assert(fan_seed(fan_size, fan, slot) == row * 32 + column);
}

/// Every triangle-fan stage cuts the seed grid into equal rectangular tiles,
/// one fan per tile, and so consumes all 1,024 seeds exactly once.
pub proof fn law_fan_stage_visits_every_seed_once(stage: int)
    requires
        0 <= stage < TRIANGLE_FAN_STAGE_COUNT,
    ensures
        visits_each_once(PrimitiveMode::TriangleFan, stage * 1024, 1024, LINE_GRID_VERTEX_OFFSET as int),
{
    lemma_layout_constants();
    lemma_fan_stage_sizes();
    reveal(triangle_fan_entry);
    let fan_size = fan_stage_size(stage);
    let start = stage * 1024;
    let position_of = |vertex: int| start + fan_position_of_seed(fan_size, vertex - 268);
    assert forall|k: int| start <= k < start + 1024 implies 268 <= #[trigger] catalogue_entry(
        PrimitiveMode::TriangleFan,
        k,
    ) < 268 + 1024 && position_of(catalogue_entry(PrimitiveMode::TriangleFan, k)) == k by {
        assert(k / 1024 == stage && k % 1024 == k - start);
        lemma_fan_seed_round_trip(fan_size, k - start);
    }
    assert forall|vertex: int| 268 <= vertex < 268 + 1024 implies start <= #[trigger] position_of(vertex)
        < start + 1024 && catalogue_entry(PrimitiveMode::TriangleFan, position_of(vertex)) == vertex by {
        lemma_fan_position_round_trip(fan_size, vertex - 268);
        let k = position_of(vertex);
        assert(k / 1024 == stage && k % 1024 == k - start);
    }
    lemma_inverse_visits_each_once(PrimitiveMode::TriangleFan, start, 1024, 268, position_of);
}

/// Catalogue offset, in the quad list, of the corner of a 2x2 block that
/// covers `seed`: the inverse of `quad_list_entry`.
pub open spec fn quad_list_position_of_seed(seed: int) -> int {
    let row = seed / 32;
    let column = seed % 32;
    let quad_row = row / 2;
    let quad_column = column / 2;
    let color = (quad_row + quad_column) % 2;
    let corner = if row % 2 == 0 { column % 2 } else { 3 - column % 2 };
    color * 512 + 4 * (quad_row * 8 + quad_column / 2) + corner
}

proof fn lemma_quad_list_entry_round_trip(k: int)
    requires
        0 <= k < 1024,
    ensures
        268 <= catalogue_entry(PrimitiveMode::QuadList, k) < 268 + 1024,
        quad_list_position_of_seed(catalogue_entry(PrimitiveMode::QuadList, k) - 268) == k,
{
    lemma_layout_constants();
    reveal(quad_list_entry);
    let color = k / 512;
    let local = k % 512;
    let cell = local / 4;
    let quad_row = cell / 8;
    let quad_column = 2 * (cell % 8) + (quad_row + color) % 2;
    let corner = local % 4;
    let row = 2 * quad_row + if corner >= 2 { 1int } else { 0 };
    let column = 2 * quad_column + if corner == 1 || corner == 2 { 1int } else { 0 };
    assert(quad_block_seed(quad_row, quad_column, corner) == row * 32 + column);
    assert((row * 32 + column) / 32 == row && (row * 32 + column) % 32 == column);
    assert(row / 2 == quad_row && column / 2 == quad_column);
    assert((quad_row + quad_column) % 2 == color);
    assert(quad_column / 2 == cell % 8);
}

proof fn lemma_quad_list_position_round_trip(seed: int)
    requires
        0 <= seed < 1024,
    ensures
        0 <= quad_list_position_of_seed(seed) < 1024,
        catalogue_entry(PrimitiveMode::QuadList, quad_list_position_of_seed(seed)) == seed + 268,
{
    lemma_layout_constants();
    reveal(quad_list_entry);
    let row = seed / 32;
    let column = seed % 32;
    let quad_row = row / 2;
    let quad_column = column / 2;
    let color = (quad_row + quad_column) % 2;
    let corner = if row % 2 == 0 { column % 2 } else { 3 - column % 2 };
    let cell = quad_row * 8 + quad_column / 2;
    let k = color * 512 + 4 * cell + corner;
    assert(k / 512 == color && k % 512 == 4 * cell + corner);
    assert((4 * cell + corner) / 4 == cell && (4 * cell + corner) % 4 == corner);
    assert(cell / 8 == quad_row && cell % 8 == quad_column / 2);
    assert(2 * (quad_column / 2) + (quad_row + color) % 2 == quad_column);
}

/// The quad list consumes every seed of the grid exactly once, as one corner
/// of one 2x2 block.
pub proof fn law_quad_list_visits_every_seed_once()
    ensures
        visits_each_once(PrimitiveMode::QuadList, 0, 1024, LINE_GRID_VERTEX_OFFSET as int),
{
    lemma_layout_constants();
    let position_of = |vertex: int| quad_list_position_of_seed(vertex - 268);
    assert forall|k: int| 0 <= k < 1024 implies 268 <= #[trigger] catalogue_entry(
        PrimitiveMode::QuadList,
        k,
    ) < 268 + 1024 && position_of(catalogue_entry(PrimitiveMode::QuadList, k)) == k by {
        lemma_quad_list_entry_round_trip(k);
    }
    assert forall|vertex: int| 268 <= vertex < 268 + 1024 implies 0 <= #[trigger] position_of(vertex)
        < 1024 && catalogue_entry(PrimitiveMode::QuadList, position_of(vertex)) == vertex by {
        lemma_quad_list_position_round_trip(vertex - 268);
    }
    lemma_inverse_visits_each_once(PrimitiveMode::QuadList, 0, 1024, 268, position_of);
}

/// Catalogue offset, in the quad-list rings, of ring vertex `vertex`
/// (counted from the first ring vertex): the inverse of
/// `quad_list_rings_entry`.
pub open spec fn quad_ring_position_of_vertex(vertex: int) -> int {
    let ring = vertex / 128;
    let pair = (vertex % 128) / 2;
    let radial = vertex % 2;
    let corner = if pair % 2 == 0 { radial } else { 3 - radial };
    ring * 128 + 4 * (pair / 2) + corner
}

/// The quad-list rings reuse every quad-strip ring vertex exactly once.
pub proof fn law_quad_list_rings_visit_every_ring_vertex_once()
    ensures
        visits_each_once(PrimitiveMode::QuadListRings, 0, 256, QUAD_STRIP_RING_VERTEX_OFFSET as int),
{
    lemma_layout_constants();
    let position_of = |vertex: int| quad_ring_position_of_vertex(vertex - 12);
    assert forall|k: int| 0 <= k < 256 implies 12 <= #[trigger] catalogue_entry(
        PrimitiveMode::QuadListRings,
        k,
    ) < 12 + 256 && position_of(catalogue_entry(PrimitiveMode::QuadListRings, k)) == k by {
        let ring = k / 128;
        let local = k % 128;
        let pair = 2 * (local / 4);
        let corner = local % 4;
        let offset = catalogue_entry(PrimitiveMode::QuadListRings, k) - 12;
        assert(offset / 128 == ring);
    }
    assert forall|vertex: int| 12 <= vertex < 12 + 256 implies 0 <= #[trigger] position_of(vertex)
        < 256 && catalogue_entry(PrimitiveMode::QuadListRings, position_of(vertex)) == vertex by {
        let offset = vertex - 12;
        let k = position_of(vertex);
        assert(k / 128 == offset / 128);
    }
    lemma_inverse_visits_each_once(PrimitiveMode::QuadListRings, 0, 256, 12, position_of);
}

/// Each quad strip is closed, its last radial pair repeating its first, and
/// the first 128 indices of ring `ring`'s strip visit that ring's 128
/// vertices exactly once.
pub proof fn law_quad_strips_are_closed_rings(ring: int)
    requires
        0 <= ring < 2,
    ensures
        catalogue_entry(PrimitiveMode::QuadStrip, ring * 130 + 128) == catalogue_entry(
            PrimitiveMode::QuadStrip,
            ring * 130,
        ),
        catalogue_entry(PrimitiveMode::QuadStrip, ring * 130 + 129) == catalogue_entry(
            PrimitiveMode::QuadStrip,
            ring * 130 + 1,
        ),
        visits_each_once(PrimitiveMode::QuadStrip, ring * 130, 128, QUAD_STRIP_RING_VERTEX_OFFSET + ring * 128),
{
    lemma_layout_constants();
    let start = ring * 130;
    let position_of = |vertex: int| vertex - 12 - ring * 128 + start;
    assert forall|k: int| start <= k < start + 128 implies 12 + ring * 128 <= #[trigger] catalogue_entry(
        PrimitiveMode::QuadStrip,
        k,
    ) < 12 + ring * 128 + 128 && position_of(catalogue_entry(PrimitiveMode::QuadStrip, k)) == k by {
        assert(k / 130 == ring && k % 130 == k - start);
    }
    assert forall|vertex: int| 12 + ring * 128 <= vertex < 12 + ring * 128 + 128 implies start
        <= #[trigger] position_of(vertex) < start + 128 && catalogue_entry(
        PrimitiveMode::QuadStrip,
        position_of(vertex),
    ) == vertex by {
        let k = position_of(vertex);
        assert(k / 130 == ring && k % 130 == k - start);
    }
    lemma_inverse_visits_each_once(PrimitiveMode::QuadStrip, start, 128, 12 + ring * 128, position_of);
    assert((start + 128) / 130 == ring && (start + 129) / 130 == ring);
}

/// The point-list and line-list rings walk the four circles of the two
/// annuli, and each line-strip ring walks the same circle and closes it by
/// repeating its first point.
pub proof fn law_ring_modes_share_the_four_circles(circle: int, step: int)
    requires
        0 <= circle < 4,
        0 <= step < 64,
    ensures
        catalogue_entry(PrimitiveMode::PointListRings, circle * 64 + step) == ring_circle_index(circle, step),
        catalogue_entry(PrimitiveMode::LineListRings, circle * 64 + step) == ring_circle_index(circle, step),
        catalogue_entry(PrimitiveMode::LineStripRings, circle * 65 + step) == ring_circle_index(circle, step),
        catalogue_entry(PrimitiveMode::LineStripRings, circle * 65 + 64) == catalogue_entry(
            PrimitiveMode::LineStripRings,
            circle * 65,
        ),
{
    lemma_layout_constants();
    assert((circle * 64 + step) / 64 == circle && (circle * 64 + step) % 64 == step);
    assert((circle * 65 + step) / 65 == circle && (circle * 65 + step) % 65 == step);
    assert((circle * 65 + 64) / 65 == circle && (circle * 65 + 64) % 65 == 64);
}

/// Catalogue offset, in the triangle list, of corner `corner` of grid
/// triangle `triangle`.
pub open spec fn triangle_list_position(triangle: int, corner: int) -> int {
    triangle_color_first(triangle % 3) + 3 * (triangle / 3) + corner
}

/// The triangle list holds each corner of each of the 1,922 grid triangles
/// (two per cell) at its own offset, so every grid triangle is drawn once.
pub proof fn law_triangle_list_holds_every_grid_triangle_once()
    ensures
        forall|triangle: int, corner: int|
            0 <= triangle < 1922 && 0 <= corner < 3 ==> 0 <= triangle_list_position(triangle, corner)
                < catalogue_len(PrimitiveMode::TriangleList) && #[trigger] catalogue_entry(
                PrimitiveMode::TriangleList,
                triangle_list_position(triangle, corner),
            ) == grid_triangle_corner(triangle, corner),
        forall|t1: int, c1: int, t2: int, c2: int|
            0 <= t1 < 1922 && 0 <= c1 < 3 && 0 <= t2 < 1922 && 0 <= c2 < 3 && (t1 != t2 || c1 != c2)
                ==> #[trigger] triangle_list_position(t1, c1) != #[trigger] triangle_list_position(t2, c2),
{
    lemma_layout_constants();
    assert forall|triangle: int, corner: int|
        0 <= triangle < 1922 && 0 <= corner < 3 implies 0 <= triangle_list_position(triangle, corner)
            < catalogue_len(PrimitiveMode::TriangleList) && #[trigger] catalogue_entry(
            PrimitiveMode::TriangleList,
            triangle_list_position(triangle, corner),
        ) == grid_triangle_corner(triangle, corner) by {
        let color = triangle % 3;
        assert((triangle - color) / 3 == triangle / 3);
        lemma_triangle_list_corner(color, triangle, corner);
    }
    assert forall|t1: int, c1: int, t2: int, c2: int|
        0 <= t1 < 1922 && 0 <= c1 < 3 && 0 <= t2 < 1922 && 0 <= c2 < 3 && (t1 != t2 || c1 != c2)
            implies #[trigger] triangle_list_position(t1, c1) != #[trigger] triangle_list_position(t2, c2) by {
        assert((t1 - t1 % 3) / 3 == t1 / 3);
        assert((t2 - t2 % 3) / 3 == t2 / 3);
        lemma_triangle_list_corner(t1 % 3, t1, c1);
        lemma_triangle_list_corner(t2 % 3, t2, c2);
        if t1 % 3 == t2 % 3 && t1 / 3 == t2 / 3 {
            assert(t1 == t2);
        }
    }
}

/// The catalogue range that a batch of `mode` draws from: the mode's range,
/// or, for the triangle fan, the range of the stage with fans of
/// `fan_vertices` vertices.
pub open spec fn batch_range(
    catalogue: ExecutionIndexCatalogue,
    mode: PrimitiveMode,
    fan_vertices: int,
) -> (int, int) {
    if mode == PrimitiveMode::TriangleFan {
        (catalogue.fan_first_indices@[fan_stage_of(fan_vertices)] as int, LINE_GRID_VERTEX_COUNT as int)
    } else {
        (catalogue.first_indices@[slot_of(mode)] as int, catalogue_len(mode) as int)
    }
}

/// The draws of a batch are non-empty, follow each other without gap or
/// overlap, and together cover exactly the catalogue range of the mode (of
/// the fan stage): switching modes only selects ranges of the catalogue.
pub proof fn law_batch_draws_tile_their_range(
    catalogue: ExecutionIndexCatalogue,
    mode: PrimitiveMode,
    fan_vertices: int,
)
    requires
        mode == PrimitiveMode::TriangleFan ==> is_fan_size(fan_vertices),
    ensures
        batch_draw_count(mode, fan_vertices) >= 1,
        draw_span(catalogue, mode, fan_vertices, 0).1 == batch_range(catalogue, mode, fan_vertices).0,
        forall|draw: int|
            0 <= draw < batch_draw_count(mode, fan_vertices) ==> #[trigger] draw_span(
                catalogue,
                mode,
                fan_vertices,
                draw,
            ).0 > 0,
        forall|draw: int|
            0 <= draw < batch_draw_count(mode, fan_vertices) - 1 ==> #[trigger] draw_span(
                catalogue,
                mode,
                fan_vertices,
                draw + 1,
            ).1 == draw_span(catalogue, mode, fan_vertices, draw).1 + draw_span(
                catalogue,
                mode,
                fan_vertices,
                draw,
            ).0,
        ({
            let last = batch_draw_count(mode, fan_vertices) - 1;
            draw_span(catalogue, mode, fan_vertices, last).1 + draw_span(
                catalogue,
                mode,
                fan_vertices,
                last,
            ).0 == batch_range(catalogue, mode, fan_vertices).0 + batch_range(
                catalogue,
                mode,
                fan_vertices,
            ).1
        }),
{
    lemma_layout_constants();
    let count = batch_draw_count(mode, fan_vertices);
    if mode == PrimitiveMode::TriangleFan {
        lemma_fan_count(fan_vertices);
        assert forall|draw: int| 0 <= draw < count - 1 implies #[trigger] draw_span(
            catalogue,
            mode,
            fan_vertices,
            draw + 1,
        ).1 == draw_span(catalogue, mode, fan_vertices, draw).1 + draw_span(
            catalogue,
            mode,
            fan_vertices,
            draw,
        ).0 by {
            assert((draw + 1) * fan_vertices == draw * fan_vertices + fan_vertices) by (nonlinear_arith);
        }
        assert((count - 1) * fan_vertices + fan_vertices == count * fan_vertices) by (nonlinear_arith);
    } else if has_uniform_draws(mode) {
        lemma_uniform_draws_cover_range(mode);
        let per_draw = indices_per_draw_of(mode) as int;
        assert(count >= 1 && per_draw > 0);
        assert forall|draw: int| 0 <= draw < count - 1 implies #[trigger] draw_span(
            catalogue,
            mode,
            fan_vertices,
            draw + 1,
        ).1 == draw_span(catalogue, mode, fan_vertices, draw).1 + draw_span(
            catalogue,
            mode,
            fan_vertices,
            draw,
        ).0 by {
            assert((draw + 1) * per_draw == draw * per_draw + per_draw) by (nonlinear_arith);
        }
        assert((count - 1) * per_draw + per_draw == count * per_draw) by (nonlinear_arith);
    }
}

/// The mode ranges of the catalogue follow each other in slot order and fill
/// the whole index buffer.
pub proof fn law_catalogue_ranges_fill_the_buffer()
    ensures
        slot_first(0) == 0,
        forall|slot: int|
            0 <= slot < PRIMITIVE_MODE_COUNT ==> #[trigger] slot_first(slot + 1) == slot_first(slot)
                + catalogue_len(mode_of_slot(slot)),
        slot_first(PRIMITIVE_MODE_COUNT as int) == EXECUTION_INDEX_COUNT,
{
    lemma_slot_firsts();
}

/// Twice the signed area of the triangle spanned by three grid seeds, in
/// grid units (x grows with the column, y with the row): positive when the
/// seeds are counter-clockwise.
pub open spec fn grid_orientation(a: int, b: int, c: int) -> int {
    orientation(a % 32, a / 32, b % 32, b / 32, c % 32, c / 32)
}

/// Twice the signed area of the triangle (ax, ay), (bx, by), (cx, cy).
pub open spec fn orientation(ax: int, ay: int, bx: int, by: int, cx: int, cy: int) -> int {
    (bx - ax) * (cy - ay) - (by - ay) * (cx - ax)
}

proof fn lemma_seed_coordinates(row: int, column: int)
    requires
        0 <= row < 32,
        0 <= column < 32,
    ensures
        (row * 32 + column) % 32 == column,
        (row * 32 + column) / 32 == row,
{
}

/// Both triangles of every grid cell are wound counter-clockwise.
pub proof fn law_grid_triangles_are_counter_clockwise(triangle: int)
    requires
        0 <= triangle < 1922,
    ensures
        grid_orientation(
            grid_triangle_corner(triangle, 0) - LINE_GRID_VERTEX_OFFSET,
            grid_triangle_corner(triangle, 1) - LINE_GRID_VERTEX_OFFSET,
            grid_triangle_corner(triangle, 2) - LINE_GRID_VERTEX_OFFSET,
        ) > 0,
{
    lemma_layout_constants();
    reveal(grid_triangle_corner);
    let cell = triangle / 2;
    let row = cell / 31;
    let column = cell % 31;
    lemma_seed_coordinates(row, column);
    lemma_seed_coordinates(row, column + 1);
    lemma_seed_coordinates(row + 1, column);
    lemma_seed_coordinates(row + 1, column + 1);
    assert(orientation(column, row, column + 1, row, column + 1, row + 1) == 1) by (nonlinear_arith);
    assert(orientation(column, row, column + 1, row + 1, column, row + 1) == 1) by (nonlinear_arith);
}

/// Every quad of the quad list walks its 2x2 block counter-clockwise from
/// its lower-left seed.
pub proof fn law_quad_blocks_are_counter_clockwise(quad_row: int, quad_column: int)
    requires
        0 <= quad_row < 16,
        0 <= quad_column < 16,
    ensures
        grid_orientation(
            quad_block_seed(quad_row, quad_column, 0),
            quad_block_seed(quad_row, quad_column, 1),
            quad_block_seed(quad_row, quad_column, 2),
        ) > 0,
        grid_orientation(
            quad_block_seed(quad_row, quad_column, 0),
            quad_block_seed(quad_row, quad_column, 2),
            quad_block_seed(quad_row, quad_column, 3),
        ) > 0,
{
    let row = quad_row * 2;
    let column = quad_column * 2;
    lemma_seed_coordinates(row, column);
    lemma_seed_coordinates(row, column + 1);
    lemma_seed_coordinates(row + 1, column);
    lemma_seed_coordinates(row + 1, column + 1);
    assert(orientation(column, row, column + 1, row, column + 1, row + 1) == 1) by (nonlinear_arith);
    assert(orientation(column, row, column + 1, row + 1, column, row + 1) == 1) by (nonlinear_arith);
}

/// Some slot of some fan of size `fan_size` covers `seed`.
pub open spec fn fan_covers(fan_size: int, seed: int) -> bool {
    exists|fan: int, slot: int|
        0 <= fan < 1024int / fan_size && 0 <= slot < fan_size && #[trigger] fan_seed(fan_size, fan, slot)
            == seed
}

/// For each fan size, the fans cut the 32x32 grid into whole `width` x
/// `height` tiles, numbered row by row, each fan's slots running row by row
/// through its tile; the map from (fan, slot) to seed is a bijection onto
/// the 1,024 seeds. `triangle_fan_partition_seed_vertex` computes `fan_seed`.
pub proof fn law_fan_partition_tiles_the_grid(fan_size: int)
    requires
        is_fan_size(fan_size),
    ensures
        forall|fan: int, slot: int|
            0 <= fan < 1024int / fan_size && 0 <= slot < fan_size ==> {
                &&& 0 <= #[trigger] fan_seed(fan_size, fan, slot) < 1024
                &&& fan_seed(fan_size, fan, slot) / 32 == (fan / (32int / fan_tile_width(fan_size)))
                    * fan_tile_height(fan_size) + slot / fan_tile_width(fan_size)
                &&& fan_seed(fan_size, fan, slot) % 32 == (fan % (32int / fan_tile_width(fan_size)))
                    * fan_tile_width(fan_size) + slot % fan_tile_width(fan_size)
            },
        forall|fan1: int, slot1: int, fan2: int, slot2: int|
            0 <= fan1 < 1024int / fan_size && 0 <= slot1 < fan_size && 0 <= fan2 < 1024int / fan_size
                && 0 <= slot2 < fan_size && (fan1 != fan2 || slot1 != slot2) ==> #[trigger] fan_seed(
                fan_size,
                fan1,
                slot1,
            ) != #[trigger] fan_seed(fan_size, fan2, slot2),
        forall|seed: int| 0 <= seed < 1024 ==> #[trigger] fan_covers(fan_size, seed),
        fan_size == 1024 ==> fan_tile_width(fan_size) == 32 && fan_tile_height(fan_size) == 32,
        fan_size == 512 ==> fan_tile_width(fan_size) == 16 && fan_tile_height(fan_size) == 32,
        fan_size == 256 ==> fan_tile_width(fan_size) == 16 && fan_tile_height(fan_size) == 16,
        fan_size == 64 ==> fan_tile_width(fan_size) == 8 && fan_tile_height(fan_size) == 8,
        fan_size == 32 ==> fan_tile_width(fan_size) == 8 && fan_tile_height(fan_size) == 4,
        fan_size == 16 ==> fan_tile_width(fan_size) == 4 && fan_tile_height(fan_size) == 4,
        fan_size == 8 ==> fan_tile_width(fan_size) == 4 && fan_tile_height(fan_size) == 2,
{
    lemma_fan_count(fan_size);
    assert forall|fan: int, slot: int| 0 <= fan < 1024int / fan_size && 0 <= slot < fan_size implies {
        &&& 0 <= #[trigger] fan_seed(fan_size, fan, slot) < 1024
        &&& fan_seed(fan_size, fan, slot) / 32 == (fan / (32int / fan_tile_width(fan_size)))
            * fan_tile_height(fan_size) + slot / fan_tile_width(fan_size)
        &&& fan_seed(fan_size, fan, slot) % 32 == (fan % (32int / fan_tile_width(fan_size)))
            * fan_tile_width(fan_size) + slot % fan_tile_width(fan_size)
    } by {
        lemma_fan_seed_layout(fan_size, fan, slot);
    }
    assert forall|fan1: int, slot1: int, fan2: int, slot2: int|
        0 <= fan1 < 1024int / fan_size && 0 <= slot1 < fan_size && 0 <= fan2 < 1024int / fan_size
            && 0 <= slot2 < fan_size && (fan1 != fan2 || slot1 != slot2) implies #[trigger] fan_seed(
            fan_size,
            fan1,
            slot1,
        ) != #[trigger] fan_seed(fan_size, fan2, slot2) by {
        lemma_fan_seed_layout(fan_size, fan1, slot1);
        lemma_fan_seed_layout(fan_size, fan2, slot2);
        lemma_fundamental_div_mod_converse(fan1 * fan_size + slot1, fan_size, fan1, slot1);
        lemma_fundamental_div_mod_converse(fan2 * fan_size + slot2, fan_size, fan2, slot2);
    }
    assert forall|seed: int| 0 <= seed < 1024 implies #[trigger] fan_covers(fan_size, seed) by {
        lemma_fan_position_round_trip(fan_size, seed);
        let position = fan_position_of_seed(fan_size, seed);
        let fan = position / fan_size;
        let slot = position % fan_size;
        lemma_fundamental_div_mod(position, fan_size);
        assert(fan < 1024int / fan_size) by (nonlinear_arith)
            requires
                fan == position / fan_size,
                0 <= position < 1024,
                fan_size > 0,
                (1024int / fan_size) * fan_size == 1024,
        ;
        assert(fan_seed(fan_size, fan, slot) == seed);
    }
    lemma_fan_tile_shape(fan_size);
}

/// The seventeen modes have seventeen different labels: every two differ in
/// length or in their first character.
pub proof fn law_labels_are_distinct(first: PrimitiveMode, second: PrimitiveMode)
    requires
        first != second,
    ensures
        label_text(first) != label_text(second),
{
    reveal_strlit("point-list-grid");
    reveal_strlit("point-list-four-circles");
    reveal_strlit("line-list-grid");
    reveal_strlit("line-list-four-dashed-circles");
    reveal_strlit("line-list-adj-grid");
    reveal_strlit("line-strip-grid");
    reveal_strlit("line-strip-four-circles");
    reveal_strlit("line-strip-adj-grid");
    reveal_strlit("triangle-list-grid");
    reveal_strlit("triangle-list-adj-grid");
    reveal_strlit("triangle-strip");
    reveal_strlit("triangle-strip-adj-grid");
    reveal_strlit("triangle-fan");
    reveal_strlit("quad-list-checkerboard-grid");
    reveal_strlit("quad-list-gapped-rings");
    reveal_strlit("quad-strip-two-rings");
    reveal_strlit("rect-list-two-rings");
    assert(label_text(first).len() != label_text(second).len() || label_text(first)[0]
        != label_text(second)[0]);
}

/// Row of a seed in the 32x32 grid.
pub open spec fn seed_row(seed: int) -> int {
    seed / 32
}

/// Column of a seed in the 32x32 grid.
pub open spec fn seed_column(seed: int) -> int {
    seed % 32
}

/// Two seeds are equal or touch: they differ by at most one row and at
/// most one column.
pub open spec fn grid_neighbours(a: int, b: int) -> bool {
    -1 <= seed_row(a) - seed_row(b) <= 1 && -1 <= seed_column(a) - seed_column(b) <= 1
}

/// Step `64 * band + pair_step` of the triangle strip, by row and column.
proof fn lemma_strip_seed_at(band: int, pair_step: int)
    requires
        0 <= band < 31,
        0 <= pair_step < 64,
    ensures
        ({
            let s = 64 * band + pair_step;
            let column = if band % 2 == 0 { pair_step / 2 } else { 31 - pair_step / 2 };
            let row = if (band % 2 == 0) == (pair_step % 2 == 0) { band + 1 } else { band };
            &&& 0 <= strip_seed(s) < 1024
            &&& seed_row(strip_seed(s)) == row
            &&& seed_column(strip_seed(s)) == column
        }),
{
    let s = 64 * band + pair_step;
    lemma_fundamental_div_mod_converse(s, 64, band, pair_step);
    let column = if band % 2 == 0 { pair_step / 2 } else { 31 - pair_step / 2 };
    let row = if (band % 2 == 0) == (pair_step % 2 == 0) { band + 1 } else { band };
    assert(strip_seed(s) == row * 32 + column);
    lemma_fundamental_div_mod_converse(strip_seed(s), 32, row, column);
}

/// The seeds of steps `s` and `s + 1` of the triangle strip.
proof fn lemma_strip_step(s: int)
    requires
        0 <= s < 1983,
    ensures
        strip_seed(s) != strip_seed(s + 1),
        grid_neighbours(strip_seed(s), strip_seed(s + 1)),
{
    lemma_fundamental_div_mod(s, 64);
    let band = s / 64;
    let pair_step = s % 64;
    lemma_strip_seed_at(band, pair_step);
    if pair_step < 63 {
        assert(s + 1 == 64 * band + (pair_step + 1));
        lemma_strip_seed_at(band, pair_step + 1);
    } else {
        assert(s + 1 == 64 * (band + 1) + 0);
        lemma_strip_seed_at(band + 1, 0);
    }
}

/// Some step of row band `band` of the triangle strip lands on `seed`.
pub open spec fn strip_band_visits(band: int, seed: int) -> bool {
    exists|s: int| 64 * band <= s < 64 * band + 64 && #[trigger] strip_seed(s) == seed
}

/// The triangle strip is one connected walk over the grid: every step
/// lands on a seed of the row band it belongs to (band `s / 64` spans rows
/// `s / 64` and `s / 64 + 1`) and moves to a different seed at most one row
/// and one column away. Inside a band, any three consecutive steps are
/// three different corners of one grid cell, so each triangle of the strip
/// within a band is a non-degenerate triangle of grid neighbours (only the
/// two triangles that turn into the next band are degenerate). Each band visits every seed of its two rows, the
/// bands in turn covering the grid from the bottom row to the top.
pub proof fn law_triangle_strip_walks_grid_neighbours()
    ensures
        forall|s: int|
            0 <= s < 1984 ==> {
                &&& 0 <= #[trigger] strip_seed(s) < 1024
                &&& (seed_row(strip_seed(s)) == s / 64 || seed_row(strip_seed(s)) == s / 64 + 1)
            },
        forall|s: int, t: int|
            0 <= s && t == s + 1 && t < 1984 ==> #[trigger] strip_seed(s) != #[trigger] strip_seed(t)
                && grid_neighbours(strip_seed(s), strip_seed(t)),
        forall|s: int, u: int|
            0 <= s && u == s + 2 && u < 1984 && s % 64 < 62 ==> #[trigger] strip_seed(s)
                != #[trigger] strip_seed(u) && grid_neighbours(strip_seed(s), strip_seed(u)),
        forall|band: int, seed: int|
            0 <= band < 31 && 0 <= seed < 1024 && (seed_row(seed) == band || seed_row(seed) == band
                + 1) ==> #[trigger] strip_band_visits(band, seed),
{
    assert forall|s: int| 0 <= s < 1984 implies {
        &&& 0 <= #[trigger] strip_seed(s) < 1024
        &&& (seed_row(strip_seed(s)) == s / 64 || seed_row(strip_seed(s)) == s / 64 + 1)
    } by {
        lemma_fundamental_div_mod(s, 64);
        lemma_strip_seed_at(s / 64, s % 64);
    }
    assert forall|s: int, t: int| 0 <= s && t == s + 1 && t < 1984 implies #[trigger] strip_seed(s)
        != #[trigger] strip_seed(t) && grid_neighbours(strip_seed(s), strip_seed(t)) by {
        lemma_strip_step(s);
    }
    assert forall|s: int, u: int| 0 <= s && u == s + 2 && u < 1984 && s % 64 < 62 implies
        #[trigger] strip_seed(s) != #[trigger] strip_seed(u) && grid_neighbours(
        strip_seed(s),
        strip_seed(u),
    ) by {
        lemma_fundamental_div_mod(s, 64);
        let band = s / 64;
        let pair_step = s % 64;
        lemma_strip_seed_at(band, pair_step);
        assert(u == 64 * band + (pair_step + 2));
        lemma_strip_seed_at(band, pair_step + 2);
    }
    assert forall|band: int, seed: int|
        0 <= band < 31 && 0 <= seed < 1024 && (seed_row(seed) == band || seed_row(seed) == band + 1)
        implies #[trigger] strip_band_visits(band, seed) by {
        let row = seed_row(seed);
        let column = seed_column(seed);
        let column_step = if band % 2 == 0 { column } else { 31 - column };
        let pair_step = if (band % 2 == 0) == (row == band + 1) {
            2 * column_step
        } else {
            2 * column_step + 1
        };
        lemma_strip_seed_at(band, pair_step);
        let s = 64 * band + pair_step;
        lemma_fundamental_div_mod(seed, 32);
        lemma_fundamental_div_mod(strip_seed(s), 32);
        assert(strip_seed(s) == seed);
    }
}

/// The name of a topology, as the mode labels spell it.
pub open spec fn topology_name(topology: PrimitiveTopology) -> Seq<char> {
    match topology {
        PrimitiveTopology::PointList => "point-list"@,
        PrimitiveTopology::LineList => "line-list"@,
        PrimitiveTopology::LineListAdj => "line-list-adj"@,
        PrimitiveTopology::LineStrip => "line-strip"@,
        PrimitiveTopology::LineStripAdj => "line-strip-adj"@,
        PrimitiveTopology::TriangleList => "triangle-list"@,
        PrimitiveTopology::TriangleListAdj => "triangle-list-adj"@,
        PrimitiveTopology::TriangleStrip => "triangle-strip"@,
        PrimitiveTopology::TriangleStripAdj => "triangle-strip-adj"@,
        PrimitiveTopology::TriangleFan => "triangle-fan"@,
        PrimitiveTopology::QuadList => "quad-list"@,
        PrimitiveTopology::QuadStrip => "quad-strip"@,
        PrimitiveTopology::RectList => "rect-list"@,
    }
}

/// The adjacency form of a line or triangle topology.
pub open spec fn with_adjacency(topology: PrimitiveTopology) -> PrimitiveTopology {
    match topology {
        PrimitiveTopology::LineList => PrimitiveTopology::LineListAdj,
        PrimitiveTopology::LineStrip => PrimitiveTopology::LineStripAdj,
        PrimitiveTopology::TriangleList => PrimitiveTopology::TriangleListAdj,
        PrimitiveTopology::TriangleStrip => PrimitiveTopology::TriangleStripAdj,
        _ => topology,
    }
}

/// A mode is drawn with the topology of its kind of primitive, whatever
/// vertices it reads: its label begins with the name of its topology; the
/// interpretations that share a number key (grid, circles, rings) share
/// one topology; and the adjacency placeholder of a key uses the adjacency
/// form of that topology, which differs from it.
pub proof fn law_topology_follows_the_primitive(first: PrimitiveMode, second: PrimitiveMode)
    ensures
        ({
            let name = topology_name(topology_of(first));
            &&& name.len() <= label_text(first).len()
            &&& label_text(first).take(name.len() as int) == name
            &&& (name.len() == label_text(first).len() || label_text(first)[name.len() as int] == '-')
        }),
        number_key_of(first) == number_key_of(second) && adjacency_of(first) is None
            && adjacency_of(second) is None ==> topology_of(first) == topology_of(second),
        number_key_of(first) == number_key_of(second) && adjacency_of(first) is Some
            && adjacency_of(second) is None ==> topology_of(first) == with_adjacency(
            topology_of(second),
        ) && topology_of(first) != topology_of(second),
{
    reveal_strlit("point-list-grid");
    reveal_strlit("point-list-four-circles");
    reveal_strlit("line-list-grid");
    reveal_strlit("line-list-four-dashed-circles");
    reveal_strlit("line-list-adj-grid");
    reveal_strlit("line-strip-grid");
    reveal_strlit("line-strip-four-circles");
    reveal_strlit("line-strip-adj-grid");
    reveal_strlit("triangle-list-grid");
    reveal_strlit("triangle-list-adj-grid");
    reveal_strlit("triangle-strip");
    reveal_strlit("triangle-strip-adj-grid");
    reveal_strlit("triangle-fan");
    reveal_strlit("quad-list-checkerboard-grid");
    reveal_strlit("quad-list-gapped-rings");
    reveal_strlit("quad-strip-two-rings");
    reveal_strlit("rect-list-two-rings");
    reveal_strlit("point-list");
    reveal_strlit("line-list");
    reveal_strlit("line-list-adj");
    reveal_strlit("line-strip");
    reveal_strlit("line-strip-adj");
    reveal_strlit("triangle-list");
    reveal_strlit("triangle-list-adj");
    reveal_strlit("triangle-strip-adj");
    reveal_strlit("quad-list");
    reveal_strlit("quad-strip");
    reveal_strlit("rect-list");
    let name = topology_name(topology_of(first));
    assert(label_text(first).take(name.len() as int) =~= name);
}

/// Catalogue offset `k`, counted from the start of `mode`'s range, lies in
/// the index range of draw `draw` of the batch.
pub open spec fn in_draw(
    catalogue: ExecutionIndexCatalogue,
    mode: PrimitiveMode,
    fan_vertices: int,
    draw: int,
    k: int,
) -> bool {
    let (count, first, palette) = draw_span(catalogue, mode, fan_vertices, draw);
    let start = first - catalogue.first_indices@[slot_of(mode)];
    start <= k < start + count
}

/// The checkerboard class of the 2x2 block that covers a seed.
pub open spec fn checkerboard_class(seed: int) -> int {
    ((seed / 32) / 2 + (seed % 32) / 2) % 2
}

/// The colour draws paint each colour class with its own palette entry:
/// draw `d` of the triangle list is painted `colors[d]` (red, green, blue)
/// and holds every corner of every grid triangle numbered `d` modulo
/// three; draw `d` of the quad list is painted `colors[d]` (red, green) and
/// holds every corner of every 2x2 block of checkerboard class `d`; draw
/// `d` of the rectangle list is painted `colors[d]`. So the classes show
/// in different colours whenever their palette entries differ.
pub proof fn law_colour_classes_are_drawn_in_their_palette_colours(
    catalogue: ExecutionIndexCatalogue,
    colors: [u32; STAMP_COUNT],
    fan_vertices: int,
)
    ensures
        forall|draw: int|
            0 <= draw < 3 ==> (#[trigger] expected_draw(
                catalogue,
                PrimitiveMode::TriangleList,
                colors,
                fan_vertices,
                draw,
            )).rgba8_srgb == colors@[draw],
        forall|draw: int|
            0 <= draw < 2 ==> (#[trigger] expected_draw(
                catalogue,
                PrimitiveMode::QuadList,
                colors,
                fan_vertices,
                draw,
            )).rgba8_srgb == colors@[draw],
        forall|draw: int|
            0 <= draw < 2 ==> (#[trigger] expected_draw(
                catalogue,
                PrimitiveMode::RectList,
                colors,
                fan_vertices,
                draw,
            )).rgba8_srgb == colors@[draw],
        forall|triangle: int, corner: int|
            0 <= triangle < 1922 && 0 <= corner < 3 ==> in_draw(
                catalogue,
                PrimitiveMode::TriangleList,
                fan_vertices,
                triangle % 3,
                #[trigger] triangle_list_position(triangle, corner),
            ) && catalogue_entry(PrimitiveMode::TriangleList, triangle_list_position(triangle, corner))
                == grid_triangle_corner(triangle, corner),
        forall|seed: int|
            0 <= seed < 1024 ==> in_draw(
                catalogue,
                PrimitiveMode::QuadList,
                fan_vertices,
                checkerboard_class(seed),
                #[trigger] quad_list_position_of_seed(seed),
            ) && catalogue_entry(PrimitiveMode::QuadList, quad_list_position_of_seed(seed)) == seed
                + LINE_GRID_VERTEX_OFFSET,
{
    lemma_layout_constants();
    law_triangle_list_holds_every_grid_triangle_once();
    assert forall|triangle: int, corner: int| 0 <= triangle < 1922 && 0 <= corner < 3 implies in_draw(
        catalogue,
        PrimitiveMode::TriangleList,
        fan_vertices,
        triangle % 3,
        #[trigger] triangle_list_position(triangle, corner),
    ) by {
        lemma_fundamental_div_mod(triangle, 3);
    }
    assert forall|seed: int| 0 <= seed < 1024 implies in_draw(
        catalogue,
        PrimitiveMode::QuadList,
        fan_vertices,
        checkerboard_class(seed),
        #[trigger] quad_list_position_of_seed(seed),
    ) && catalogue_entry(PrimitiveMode::QuadList, quad_list_position_of_seed(seed)) == seed
        + LINE_GRID_VERTEX_OFFSET by {
        lemma_quad_list_position_round_trip(seed);
        let row = seed / 32;
        let column = seed % 32;
        let quad_row = row / 2;
        let quad_column = column / 2;
        assert(0 <= quad_row < 16 && 0 <= quad_column < 16);
        assert(0 <= 4 * (quad_row * 8 + quad_column / 2) + 3 < 512);
    }
}

} // verus!
