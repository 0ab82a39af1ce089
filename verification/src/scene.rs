//! Re-exportable authored scene document for the Potato Stamps example.
//!
//! This module validates the bytes returned across the storage boundary and
//! produces the GPU-ready index catalogue and draw descriptors.
pub mod adjacency;
pub mod base;
pub mod document;
pub mod document_text;
pub mod laws;

use vstd::prelude::*;
use self::adjacency::{
    adjacency_of, adjacency_mode_len, append_degenerate_indices, is_adjacency_mode,
    LINE_LIST_INDEX_COUNT as LINE_LIST_ADJ_INDEX_COUNT,
    LINE_STRIP_INDEX_COUNT as LINE_STRIP_ADJ_INDEX_COUNT,
    TRIANGLE_LIST_INDEX_COUNT as TRIANGLE_LIST_ADJ_INDEX_COUNT,
    TRIANGLE_STRIP_INDEX_COUNT as TRIANGLE_STRIP_ADJ_INDEX_COUNT,
};
use self::base::{
    append_indices, fan_stage_size, lemma_layout_constants, lemma_fan_stage_sizes, is_fan_size,
    lemma_fan_slot_in_grid, TRIANGLE_FAN_STAGE_COUNT, TRIANGLE_FAN_VERTEX_COUNTS, POINT_GRID_RED_INDEX_COUNT,
    TRIANGLE_LIST_COLOR1_INDEX_COUNT, TRIANGLE_LIST_COLOR2_INDEX_COUNT, QUAD_LIST_COLOR1_INDEX_COUNT,
    RECT_LIST_COLOR1_INDEX_COUNT,
    LINE_GRID_VERTEX_COUNT, POINT_RING_INDEX_COUNT, LINE_LIST_RING_INDEX_COUNT,
    LINE_STRIP_RING_INDEX_COUNT, LINE_GRID_TRIANGLE_LIST_INDEX_COUNT,
    LINE_GRID_TRIANGLE_STRIP_INDEX_COUNT, TRIANGLE_FAN_CATALOGUE_INDEX_COUNT,
    QUAD_LIST_INDEX_COUNT, QUAD_LIST_RING_INDEX_COUNT, QUAD_STRIP_DRAW_COUNT,
    QUAD_STRIP_INDICES_PER_DRAW, RECT_LIST_INDEX_COUNT, POINT_GRID_GREEN_INDEX_COUNT,
    POINT_RING_INDICES_PER_DRAW, LINE_LIST_RING_INDICES_PER_DRAW, LINE_STRIP_RING_INDICES_PER_DRAW,
    TRIANGLE_LIST_COLOR0_INDEX_COUNT, LINE_GRID_TRIANGLE_FAN_INDEX_COUNT, QUAD_LIST_COLOR0_INDEX_COUNT,
    QUAD_LIST_RING_INDICES_PER_DRAW, RECT_LIST_COLOR0_INDEX_COUNT, POINT_RING_DRAW_COUNT,
    LINE_LIST_RING_DRAW_COUNT, LINE_STRIP_RING_DRAW_COUNT, RGB_COLOR_COUNT, QUAD_LIST_COLOR_DRAW_COUNT,
    QUAD_LIST_RING_DRAW_COUNT, RECT_LIST_COLOR_DRAW_COUNT, grid_vertex_index, snake_seed,
    strip_seed, point_list_entry, ring_points_entry, line_strip_rings_entry,
    triangle_list_entry, triangle_fan_entry, quad_list_entry, quad_list_rings_entry,
    quad_strip_entry, rect_list_entry,
};

verus! {

/// Name under which the authored scene document is stored.
pub const DOCUMENT_NAME: &'static str = "potato-stamps.pscene";
/// Name under which the palette bitmap is stored.
pub const COLOR_TEXTURE_NAME: &'static str = "potato-stamps-colors.bmp";
/// Name under which the seed-plane positions are stored.
pub const LINE_GRID_NAME: &'static str = "potato-stamps-line-grid.xyz";
pub const STAMP_COUNT: usize = 4;
pub const VERTICES_PER_STAMP: usize = 3;
pub const VERTEX_COUNT: usize = STAMP_COUNT * VERTICES_PER_STAMP;
pub const INDEX_COUNT: usize = VERTEX_COUNT;
/// The four adjacency modes currently own only minimum-size clear-only placeholders.
pub const LINE_GRID_LINE_LIST_ADJ_INDEX_COUNT: usize = LINE_LIST_ADJ_INDEX_COUNT;
pub const LINE_GRID_LINE_STRIP_ADJ_INDEX_COUNT: usize = LINE_STRIP_ADJ_INDEX_COUNT;
pub const LINE_GRID_TRIANGLE_LIST_ADJ_INDEX_COUNT: usize = TRIANGLE_LIST_ADJ_INDEX_COUNT;
pub const LINE_GRID_TRIANGLE_STRIP_ADJ_INDEX_COUNT: usize = TRIANGLE_STRIP_ADJ_INDEX_COUNT;
pub const PRIMITIVE_MODE_COUNT: usize = 17;
#[verifier::nonlinear]
pub const EXECUTION_INDEX_COUNT: usize = LINE_GRID_VERTEX_COUNT * 3 + POINT_RING_INDEX_COUNT
    + LINE_LIST_RING_INDEX_COUNT + LINE_STRIP_RING_INDEX_COUNT + LINE_GRID_LINE_LIST_ADJ_INDEX_COUNT
    + LINE_GRID_LINE_STRIP_ADJ_INDEX_COUNT + LINE_GRID_TRIANGLE_LIST_INDEX_COUNT
    + LINE_GRID_TRIANGLE_LIST_ADJ_INDEX_COUNT + LINE_GRID_TRIANGLE_STRIP_INDEX_COUNT
    + LINE_GRID_TRIANGLE_STRIP_ADJ_INDEX_COUNT + TRIANGLE_FAN_CATALOGUE_INDEX_COUNT
    + QUAD_LIST_INDEX_COUNT + QUAD_LIST_RING_INDEX_COUNT + QUAD_STRIP_DRAW_COUNT
    * QUAD_STRIP_INDICES_PER_DRAW + RECT_LIST_INDEX_COUNT;

/// Every primitive assembly mode selectable by the number keys.
#[derive(Clone, Copy, Debug, PartialEq, Eq, Structural)]
pub enum PrimitiveMode {
    PointList,
    PointListRings,
    LineList,
    LineListRings,
    LineListAdj,
    LineStrip,
    LineStripRings,
    LineStripAdj,
    TriangleList,
    TriangleListAdj,
    TriangleStrip,
    TriangleStripAdj,
    TriangleFan,
    QuadList,
    QuadListRings,
    QuadStrip,
    RectList,
}

/// The catalogue slot of each mode: its position in `PrimitiveMode::ALL`.
pub open spec fn slot_of(mode: PrimitiveMode) -> int {
    match mode {
        PrimitiveMode::PointList => 0,
        PrimitiveMode::PointListRings => 1,
        PrimitiveMode::LineList => 2,
        PrimitiveMode::LineListRings => 3,
        PrimitiveMode::LineListAdj => 4,
        PrimitiveMode::LineStrip => 5,
        PrimitiveMode::LineStripRings => 6,
        PrimitiveMode::LineStripAdj => 7,
        PrimitiveMode::TriangleList => 8,
        PrimitiveMode::TriangleListAdj => 9,
        PrimitiveMode::TriangleStrip => 10,
        PrimitiveMode::TriangleStripAdj => 11,
        PrimitiveMode::TriangleFan => 12,
        PrimitiveMode::QuadList => 13,
        PrimitiveMode::QuadListRings => 14,
        PrimitiveMode::QuadStrip => 15,
        PrimitiveMode::RectList => 16,
    }
}

/// Number of indices that a mode owns in the execution index catalogue.
pub open spec fn catalogue_len(mode: PrimitiveMode) -> nat {
    match mode {
        PrimitiveMode::PointList => LINE_GRID_VERTEX_COUNT as nat,
        PrimitiveMode::PointListRings => POINT_RING_INDEX_COUNT as nat,
        PrimitiveMode::LineList => LINE_GRID_VERTEX_COUNT as nat,
        PrimitiveMode::LineListRings => LINE_LIST_RING_INDEX_COUNT as nat,
        PrimitiveMode::LineStrip => LINE_GRID_VERTEX_COUNT as nat,
        PrimitiveMode::LineStripRings => LINE_STRIP_RING_INDEX_COUNT as nat,
        PrimitiveMode::TriangleList => LINE_GRID_TRIANGLE_LIST_INDEX_COUNT as nat,
        PrimitiveMode::TriangleStrip => LINE_GRID_TRIANGLE_STRIP_INDEX_COUNT as nat,
        PrimitiveMode::TriangleFan => TRIANGLE_FAN_CATALOGUE_INDEX_COUNT as nat,
        PrimitiveMode::QuadList => QUAD_LIST_INDEX_COUNT as nat,
        PrimitiveMode::QuadListRings => QUAD_LIST_RING_INDEX_COUNT as nat,
        PrimitiveMode::QuadStrip => (QUAD_STRIP_DRAW_COUNT * QUAD_STRIP_INDICES_PER_DRAW) as nat,
        PrimitiveMode::RectList => RECT_LIST_INDEX_COUNT as nat,
        PrimitiveMode::LineListAdj
        | PrimitiveMode::LineStripAdj
        | PrimitiveMode::TriangleListAdj
        | PrimitiveMode::TriangleStripAdj => adjacency_mode_len(mode),
    }
}

/// The index stored at offset `k` of a mode's range in the catalogue.
pub open spec fn catalogue_entry(mode: PrimitiveMode, k: int) -> int {
    match mode {
        PrimitiveMode::PointList => point_list_entry(k),
        PrimitiveMode::PointListRings => ring_points_entry(k),
        PrimitiveMode::LineList => grid_vertex_index(k),
        PrimitiveMode::LineListRings => ring_points_entry(k),
        PrimitiveMode::LineStrip => grid_vertex_index(snake_seed(k)),
        PrimitiveMode::LineStripRings => line_strip_rings_entry(k),
        PrimitiveMode::TriangleList => triangle_list_entry(k),
        PrimitiveMode::TriangleStrip => grid_vertex_index(strip_seed(k)),
        PrimitiveMode::TriangleFan => triangle_fan_entry(k),
        PrimitiveMode::QuadList => quad_list_entry(k),
        PrimitiveMode::QuadListRings => quad_list_rings_entry(k),
        PrimitiveMode::QuadStrip => quad_strip_entry(k),
        PrimitiveMode::RectList => rect_list_entry(k),
        PrimitiveMode::LineListAdj
        | PrimitiveMode::LineStripAdj
        | PrimitiveMode::TriangleListAdj
        | PrimitiveMode::TriangleStripAdj => grid_vertex_index(0),
    }
}

/// `after` is `before` with the range of `mode`'s catalogue indices written
/// at `start` and every other position unchanged.
pub open spec fn writes_mode_range(before: Seq<u32>, after: Seq<u32>, start: int, mode: PrimitiveMode) -> bool {
    &&& after.len() == before.len()
    &&& forall|p: int|
        0 <= p < before.len() && !(start <= p < start + catalogue_len(mode))
            ==> #[trigger] after[p] == before[p]
    &&& forall|p: int|
        start <= p < start + catalogue_len(mode)
            ==> #[trigger] after[p] as int == catalogue_entry(mode, p - start)
}

/// The native assembly topology that the vGPU batch ABI is told for a draw.
#[derive(Clone, Copy, Debug, PartialEq, Eq, Structural)]
pub enum PrimitiveTopology {
    PointList,
    LineList,
    LineListAdj,
    LineStrip,
    LineStripAdj,
    TriangleList,
    TriangleListAdj,
    TriangleStrip,
    TriangleStripAdj,
    TriangleFan,
    QuadList,
    QuadStrip,
    RectList,
}

/// The name of each mode.
pub open spec fn label_text(mode: PrimitiveMode) -> Seq<char> {
    match mode {
        PrimitiveMode::PointList => "point-list-grid"@,
        PrimitiveMode::PointListRings => "point-list-four-circles"@,
        PrimitiveMode::LineList => "line-list-grid"@,
        PrimitiveMode::LineListRings => "line-list-four-dashed-circles"@,
        PrimitiveMode::LineListAdj => "line-list-adj-grid"@,
        PrimitiveMode::LineStrip => "line-strip-grid"@,
        PrimitiveMode::LineStripRings => "line-strip-four-circles"@,
        PrimitiveMode::LineStripAdj => "line-strip-adj-grid"@,
        PrimitiveMode::TriangleList => "triangle-list-grid"@,
        PrimitiveMode::TriangleListAdj => "triangle-list-adj-grid"@,
        PrimitiveMode::TriangleStrip => "triangle-strip"@,
        PrimitiveMode::TriangleStripAdj => "triangle-strip-adj-grid"@,
        PrimitiveMode::TriangleFan => "triangle-fan"@,
        PrimitiveMode::QuadList => "quad-list-checkerboard-grid"@,
        PrimitiveMode::QuadListRings => "quad-list-gapped-rings"@,
        PrimitiveMode::QuadStrip => "quad-strip-two-rings"@,
        PrimitiveMode::RectList => "rect-list-two-rings"@,
    }
}

/// Indices of one draw of a mode (of the first draw, for the modes whose
/// colour draws differ in size; of the whole seed plane for the fan).
pub open spec fn indices_per_draw_of(mode: PrimitiveMode) -> nat {
    match mode {
        PrimitiveMode::PointList => POINT_GRID_GREEN_INDEX_COUNT as nat,
        PrimitiveMode::PointListRings => POINT_RING_INDICES_PER_DRAW as nat,
        PrimitiveMode::LineList | PrimitiveMode::LineStrip => LINE_GRID_VERTEX_COUNT as nat,
        PrimitiveMode::LineListRings => LINE_LIST_RING_INDICES_PER_DRAW as nat,
        PrimitiveMode::LineListAdj => LINE_GRID_LINE_LIST_ADJ_INDEX_COUNT as nat,
        PrimitiveMode::LineStripRings => LINE_STRIP_RING_INDICES_PER_DRAW as nat,
        PrimitiveMode::LineStripAdj => LINE_GRID_LINE_STRIP_ADJ_INDEX_COUNT as nat,
        PrimitiveMode::TriangleList => TRIANGLE_LIST_COLOR0_INDEX_COUNT as nat,
        PrimitiveMode::TriangleListAdj => LINE_GRID_TRIANGLE_LIST_ADJ_INDEX_COUNT as nat,
        PrimitiveMode::TriangleStrip => LINE_GRID_TRIANGLE_STRIP_INDEX_COUNT as nat,
        PrimitiveMode::TriangleStripAdj => LINE_GRID_TRIANGLE_STRIP_ADJ_INDEX_COUNT as nat,
        PrimitiveMode::TriangleFan => LINE_GRID_TRIANGLE_FAN_INDEX_COUNT as nat,
        PrimitiveMode::QuadList => QUAD_LIST_COLOR0_INDEX_COUNT as nat,
        PrimitiveMode::QuadListRings => QUAD_LIST_RING_INDICES_PER_DRAW as nat,
        PrimitiveMode::QuadStrip => QUAD_STRIP_INDICES_PER_DRAW as nat,
        PrimitiveMode::RectList => RECT_LIST_COLOR0_INDEX_COUNT as nat,
    }
}

/// Number of draws of a mode (for the fan, at its full-plane size).
pub open spec fn draw_count_of(mode: PrimitiveMode) -> nat {
    match mode {
        PrimitiveMode::PointList => 2,
        PrimitiveMode::PointListRings => POINT_RING_DRAW_COUNT as nat,
        PrimitiveMode::LineListRings => LINE_LIST_RING_DRAW_COUNT as nat,
        PrimitiveMode::LineStripRings => LINE_STRIP_RING_DRAW_COUNT as nat,
        PrimitiveMode::LineList
        | PrimitiveMode::LineListAdj
        | PrimitiveMode::LineStrip
        | PrimitiveMode::LineStripAdj
        | PrimitiveMode::TriangleStrip
        | PrimitiveMode::TriangleStripAdj
        | PrimitiveMode::TriangleFan => 1,
        PrimitiveMode::TriangleList => RGB_COLOR_COUNT as nat,
        PrimitiveMode::TriangleListAdj => 1,
        PrimitiveMode::QuadList => QUAD_LIST_COLOR_DRAW_COUNT as nat,
        PrimitiveMode::QuadListRings => QUAD_LIST_RING_DRAW_COUNT as nat,
        PrimitiveMode::QuadStrip => QUAD_STRIP_DRAW_COUNT as nat,
        PrimitiveMode::RectList => RECT_LIST_COLOR_DRAW_COUNT as nat,
    }
}

/// The top-row number key of each mode.
pub open spec fn number_key_of(mode: PrimitiveMode) -> u8 {
    match mode {
        PrimitiveMode::PointList | PrimitiveMode::PointListRings => 1,
        PrimitiveMode::LineList | PrimitiveMode::LineListRings | PrimitiveMode::LineListAdj => 2,
        PrimitiveMode::LineStrip | PrimitiveMode::LineStripRings | PrimitiveMode::LineStripAdj => 3,
        PrimitiveMode::TriangleList | PrimitiveMode::TriangleListAdj => 4,
        PrimitiveMode::TriangleStrip | PrimitiveMode::TriangleStripAdj => 5,
        PrimitiveMode::TriangleFan => 6,
        PrimitiveMode::QuadList | PrimitiveMode::QuadListRings => 8,
        PrimitiveMode::QuadStrip => 9,
        PrimitiveMode::RectList => 0,
    }
}

/// The native topology of each mode.
pub open spec fn topology_of(mode: PrimitiveMode) -> PrimitiveTopology {
    match mode {
        PrimitiveMode::PointList | PrimitiveMode::PointListRings => PrimitiveTopology::PointList,
        PrimitiveMode::LineList | PrimitiveMode::LineListRings => PrimitiveTopology::LineList,
        PrimitiveMode::LineListAdj => PrimitiveTopology::LineListAdj,
        PrimitiveMode::LineStrip | PrimitiveMode::LineStripRings => PrimitiveTopology::LineStrip,
        PrimitiveMode::LineStripAdj => PrimitiveTopology::LineStripAdj,
        PrimitiveMode::TriangleList => PrimitiveTopology::TriangleList,
        PrimitiveMode::TriangleListAdj => PrimitiveTopology::TriangleListAdj,
        PrimitiveMode::TriangleStrip => PrimitiveTopology::TriangleStrip,
        PrimitiveMode::TriangleStripAdj => PrimitiveTopology::TriangleStripAdj,
        PrimitiveMode::TriangleFan => PrimitiveTopology::TriangleFan,
        PrimitiveMode::QuadList | PrimitiveMode::QuadListRings => PrimitiveTopology::QuadList,
        PrimitiveMode::QuadStrip => PrimitiveTopology::QuadStrip,
        PrimitiveMode::RectList => PrimitiveTopology::RectList,
    }
}

/// The mode selected when `key` is pressed while `mode` is selected: keys
/// 1, 2, 3, 4, 5 and 8 cycle through the interpretations that share them,
/// keys 0, 6 and 9 select their single mode, and every other key (7
/// included) selects nothing.
pub open spec fn mode_after_key(mode: PrimitiveMode, key: u8) -> Option<PrimitiveMode> {
    if key == 0 {
        Some(PrimitiveMode::RectList)
    } else if key == 1 {
        Some(
            match mode {
                PrimitiveMode::PointList => PrimitiveMode::PointListRings,
                _ => PrimitiveMode::PointList,
            },
        )
    } else if key == 2 {
        Some(
            match mode {
                PrimitiveMode::LineList => PrimitiveMode::LineListRings,
                PrimitiveMode::LineListRings => PrimitiveMode::LineListAdj,
                _ => PrimitiveMode::LineList,
            },
        )
    } else if key == 3 {
        Some(
            match mode {
                PrimitiveMode::LineStrip => PrimitiveMode::LineStripRings,
                PrimitiveMode::LineStripRings => PrimitiveMode::LineStripAdj,
                _ => PrimitiveMode::LineStrip,
            },
        )
    } else if key == 4 {
        Some(
            match mode {
                PrimitiveMode::TriangleList => PrimitiveMode::TriangleListAdj,
                _ => PrimitiveMode::TriangleList,
            },
        )
    } else if key == 5 {
        Some(
            match mode {
                PrimitiveMode::TriangleStrip => PrimitiveMode::TriangleStripAdj,
                _ => PrimitiveMode::TriangleStrip,
            },
        )
    } else if key == 6 {
        Some(PrimitiveMode::TriangleFan)
    } else if key == 8 {
        Some(
            match mode {
                PrimitiveMode::QuadList => PrimitiveMode::QuadListRings,
                _ => PrimitiveMode::QuadList,
            },
        )
    } else if key == 9 {
        Some(PrimitiveMode::QuadStrip)
    } else {
        None
    }
}

impl PrimitiveMode {
    pub const ALL: [PrimitiveMode; PRIMITIVE_MODE_COUNT] = [
        PrimitiveMode::PointList,
        PrimitiveMode::PointListRings,
        PrimitiveMode::LineList,
        PrimitiveMode::LineListRings,
        PrimitiveMode::LineListAdj,
        PrimitiveMode::LineStrip,
        PrimitiveMode::LineStripRings,
        PrimitiveMode::LineStripAdj,
        PrimitiveMode::TriangleList,
        PrimitiveMode::TriangleListAdj,
        PrimitiveMode::TriangleStrip,
        PrimitiveMode::TriangleStripAdj,
        PrimitiveMode::TriangleFan,
        PrimitiveMode::QuadList,
        PrimitiveMode::QuadListRings,
        PrimitiveMode::QuadStrip,
        PrimitiveMode::RectList,
    ];

    pub fn label(self) -> (r: &'static str)
        ensures
            r@ == label_text(self),
    {
        match self {
            Self::PointList => "point-list-grid",
            Self::PointListRings => "point-list-four-circles",
            Self::LineList => "line-list-grid",
            Self::LineListRings => "line-list-four-dashed-circles",
            Self::LineListAdj => "line-list-adj-grid",
            Self::LineStrip => "line-strip-grid",
            Self::LineStripRings => "line-strip-four-circles",
            Self::LineStripAdj => "line-strip-adj-grid",
            Self::TriangleList => "triangle-list-grid",
            Self::TriangleListAdj => "triangle-list-adj-grid",
            Self::TriangleStrip => "triangle-strip",
            Self::TriangleStripAdj => "triangle-strip-adj-grid",
            Self::TriangleFan => "triangle-fan",
            Self::QuadList => "quad-list-checkerboard-grid",
            Self::QuadListRings => "quad-list-gapped-rings",
            Self::QuadStrip => "quad-strip-two-rings",
            Self::RectList => "rect-list-two-rings",
        }
    }

    pub fn indices_per_draw(self) -> (r: usize)
        ensures
            r == indices_per_draw_of(self),
    {
        match self {
            // Point-list's two modulo-three partitions deliberately have
            // unequal ranges. `draw_batch` supplies their exact descriptors.
            Self::PointList => POINT_GRID_GREEN_INDEX_COUNT,
            Self::PointListRings => POINT_RING_INDICES_PER_DRAW,
            Self::LineList | Self::LineStrip => LINE_GRID_VERTEX_COUNT,
            Self::LineListRings => LINE_LIST_RING_INDICES_PER_DRAW,
            Self::LineListAdj => LINE_GRID_LINE_LIST_ADJ_INDEX_COUNT,
            Self::LineStripRings => LINE_STRIP_RING_INDICES_PER_DRAW,
            Self::LineStripAdj => LINE_GRID_LINE_STRIP_ADJ_INDEX_COUNT,
            Self::TriangleList => TRIANGLE_LIST_COLOR0_INDEX_COUNT,
            Self::TriangleListAdj => LINE_GRID_TRIANGLE_LIST_ADJ_INDEX_COUNT,
            Self::TriangleStrip => LINE_GRID_TRIANGLE_STRIP_INDEX_COUNT,
            Self::TriangleStripAdj => LINE_GRID_TRIANGLE_STRIP_ADJ_INDEX_COUNT,
            Self::TriangleFan => LINE_GRID_TRIANGLE_FAN_INDEX_COUNT,
            Self::QuadList => QUAD_LIST_COLOR0_INDEX_COUNT,
            Self::QuadListRings => QUAD_LIST_RING_INDICES_PER_DRAW,
            Self::QuadStrip => QUAD_STRIP_INDICES_PER_DRAW,
            Self::RectList => RECT_LIST_COLOR0_INDEX_COUNT,
        }
    }

    pub fn draw_count(self) -> (r: usize)
        ensures
            r == draw_count_of(self),
    {
        match self {
            Self::PointList => 2,
            Self::PointListRings => POINT_RING_DRAW_COUNT,
            Self::LineListRings => LINE_LIST_RING_DRAW_COUNT,
            Self::LineStripRings => LINE_STRIP_RING_DRAW_COUNT,
            Self::LineList
            | Self::LineListAdj
            | Self::LineStrip
            | Self::LineStripAdj
            | Self::TriangleStrip
            | Self::TriangleStripAdj
            | Self::TriangleFan => 1,
            // Three opaque constant-color draws: red, green, then blue.
            Self::TriangleList => RGB_COLOR_COUNT,
            Self::TriangleListAdj => 1,
            // Red and green independent quads interleave as a checkerboard.
            Self::QuadList => QUAD_LIST_COLOR_DRAW_COUNT,
            Self::QuadListRings => QUAD_LIST_RING_DRAW_COUNT,
            // Two independent rings use the authored RGBA palette in order.
            Self::QuadStrip => QUAD_STRIP_DRAW_COUNT,
            // The screen-space rectangles use the same red/green parity.
            Self::RectList => RECT_LIST_COLOR_DRAW_COUNT,
        }
    }

    pub fn slot(self) -> (r: usize)
        ensures
            r == slot_of(self),
            r < PRIMITIVE_MODE_COUNT,
            Self::ALL@[r as int] == self,
    {
        match self {
            PrimitiveMode::PointList => 0,
            PrimitiveMode::PointListRings => 1,
            PrimitiveMode::LineList => 2,
            PrimitiveMode::LineListRings => 3,
            PrimitiveMode::LineListAdj => 4,
            PrimitiveMode::LineStrip => 5,
            PrimitiveMode::LineStripRings => 6,
            PrimitiveMode::LineStripAdj => 7,
            PrimitiveMode::TriangleList => 8,
            PrimitiveMode::TriangleListAdj => 9,
            PrimitiveMode::TriangleStrip => 10,
            PrimitiveMode::TriangleStripAdj => 11,
            PrimitiveMode::TriangleFan => 12,
            PrimitiveMode::QuadList => 13,
            PrimitiveMode::QuadListRings => 14,
            PrimitiveMode::QuadStrip => 15,
            PrimitiveMode::RectList => 16,
        }
    }

    /// Top-row number key reserved for this native topology. The four `_ADJ`
    /// forms share Keys 2-5 with their ordinary counterpart; pressing the
    /// same key while it is selected toggles the interpretation.
    pub fn number_key(self) -> (r: u8)
        ensures
            r == number_key_of(self),
    {
        match self {
            Self::PointList | Self::PointListRings => 1,
            Self::LineList | Self::LineListRings | Self::LineListAdj => 2,
            Self::LineStrip | Self::LineStripRings | Self::LineStripAdj => 3,
            Self::TriangleList | Self::TriangleListAdj => 4,
            Self::TriangleStrip | Self::TriangleStripAdj => 5,
            Self::TriangleFan => 6,
            Self::QuadList | Self::QuadListRings => 8,
            Self::QuadStrip => 9,
            Self::RectList => 0,
        }
    }

    /// USB HID uses 0x1e..=0x26 for top-row `1`..=`9`, then 0x27 for `0`.
    pub fn number_key_hid_usage(self) -> (r: u8)
        ensures
            r == (if number_key_of(self) == 0 { 0x27 } else { 0x1d + number_key_of(self) }),
    {
        match self.number_key() {
            0 => 0x27,
            key => 0x1d + key,
        }
    }

    pub fn vgpu_topology(self) -> (r: PrimitiveTopology)
        ensures
            r == topology_of(self),
    {
        match self {
            Self::PointList | Self::PointListRings => PrimitiveTopology::PointList,
            Self::LineList | Self::LineListRings => PrimitiveTopology::LineList,
            Self::LineListAdj => PrimitiveTopology::LineListAdj,
            Self::LineStrip | Self::LineStripRings => PrimitiveTopology::LineStrip,
            Self::LineStripAdj => PrimitiveTopology::LineStripAdj,
            Self::TriangleList => PrimitiveTopology::TriangleList,
            Self::TriangleListAdj => PrimitiveTopology::TriangleListAdj,
            Self::TriangleStrip => PrimitiveTopology::TriangleStrip,
            Self::TriangleStripAdj => PrimitiveTopology::TriangleStripAdj,
            Self::TriangleFan => PrimitiveTopology::TriangleFan,
            Self::QuadList | Self::QuadListRings => PrimitiveTopology::QuadList,
            Self::QuadStrip => PrimitiveTopology::QuadStrip,
            Self::RectList => PrimitiveTopology::RectList,
        }
    }

    pub fn requires_adjacency_topology_rendering(self) -> (r: bool)
        ensures
            r == adjacency_of(self).is_some(),
    {
        is_adjacency_mode(self)
    }

    /// Keys 1-3 add circle interpretations before the existing adjacency
    /// stages. Other topology toggles retain their previous cycles.
    pub fn on_number_key_pressed(self, key: u8) -> (r: Option<Self>)
        ensures
            r == mode_after_key(self, key),
    {
        let next = match key {
            0 => Self::RectList,
            1 => match self {
                Self::PointList => Self::PointListRings,
                Self::PointListRings => Self::PointList,
                _ => Self::PointList,
            },
            2 => match self {
                Self::LineList => Self::LineListRings,
                Self::LineListRings => Self::LineListAdj,
                Self::LineListAdj => Self::LineList,
                _ => Self::LineList,
            },
            3 => match self {
                Self::LineStrip => Self::LineStripRings,
                Self::LineStripRings => Self::LineStripAdj,
                Self::LineStripAdj => Self::LineStrip,
                _ => Self::LineStrip,
            },
            4 => match self {
                Self::TriangleList => Self::TriangleListAdj,
                Self::TriangleListAdj => Self::TriangleList,
                _ => Self::TriangleList,
            },
            5 => match self {
                Self::TriangleStrip => Self::TriangleStripAdj,
                Self::TriangleStripAdj => Self::TriangleStrip,
                _ => Self::TriangleStrip,
            },
            6 => Self::TriangleFan,
            // Key 7 has no function.
            7 => return None,
            8 => match self {
                Self::QuadList => Self::QuadListRings,
                Self::QuadListRings => Self::QuadList,
                _ => Self::QuadList,
            },
            9 => Self::QuadStrip,
            _ => return None,
        };
        Some(next)
    }
}

/// The number keys, indexed by key, that are down now and were up at the
/// previous poll: the presses to feed to `on_number_key_pressed`.
#[verifier::rlimit(40)]
pub fn newly_pressed(previous: [bool; 10], down: [bool; 10]) -> (pressed: [bool; 10])
    ensures
        forall|key: int| 0 <= key < 10 ==> #[trigger] pressed@[key] == (down@[key] && !previous@[key]),
{
    let pressed = [
        down[0] && !previous[0],
        down[1] && !previous[1],
        down[2] && !previous[2],
        down[3] && !previous[3],
        down[4] && !previous[4],
        down[5] && !previous[5],
        down[6] && !previous[6],
        down[7] && !previous[7],
        down[8] && !previous[8],
        down[9] && !previous[9],
    ];
    assert(pressed@ =~= Seq::new(10, |key: int| down@[key] && !previous@[key]));
    pressed
}

/// The mode stored at a catalogue slot.
pub open spec fn mode_of_slot(slot: int) -> PrimitiveMode {
    PrimitiveMode::ALL@[slot]
}

/// First catalogue position of the range of the mode at `slot`: the modes
/// are stored back to back in slot order, and slot 17 marks the end.
pub open spec fn slot_first(slot: int) -> int
    decreases slot,
{
    if slot <= 0 {
        0
    } else {
        slot_first(slot - 1) + catalogue_len(mode_of_slot(slot - 1))
    }
}

/// The concrete range boundaries of the catalogue.
pub proof fn lemma_slot_firsts()
    ensures
        slot_first(0) == 0,
        slot_first(1) == 1024,
        slot_first(2) == 1280,
        slot_first(3) == 2304,
        slot_first(4) == 2560,
        slot_first(5) == 2564,
        slot_first(6) == 3588,
        slot_first(7) == 3848,
        slot_first(8) == 3852,
        slot_first(9) == 9618,
        slot_first(10) == 9624,
        slot_first(11) == 11608,
        slot_first(12) == 11614,
        slot_first(13) == 18782,
        slot_first(14) == 19806,
        slot_first(15) == 20062,
        slot_first(16) == 20322,
        slot_first(17) == 20706,
        EXECUTION_INDEX_COUNT == 20706,
{
    lemma_layout_constants();
    assert(mode_of_slot(0) == PrimitiveMode::PointList);
    assert(slot_first(0) == 0);
    assert(catalogue_len(PrimitiveMode::PointList) == 1024);
    assert(slot_first(1) == 1024);
    assert(slot_first(2) == 1280);
    assert(slot_first(3) == 2304);
    assert(slot_first(4) == 2560);
    assert(slot_first(5) == 2564);
    assert(slot_first(6) == 3588);
    assert(slot_first(7) == 3848);
    assert(slot_first(8) == 3852);
    assert(slot_first(9) == 9618);
    assert(slot_first(10) == 9624);
    assert(slot_first(11) == 11608);
    assert(slot_first(12) == 11614);
    assert(slot_first(13) == 18782);
    assert(slot_first(14) == 19806);
    assert(slot_first(15) == 20062);
    assert(slot_first(16) == 20322);
    assert(slot_first(17) == 20706);
}

/// Every primitive interpretation of the 1,024-vertex seeded plane, built
/// once. Frame submission only selects ranges from this catalogue; it never
/// rewrites execution-buffer bytes.
#[derive(Clone, Debug, PartialEq, Eq)]
pub struct ExecutionIndexCatalogue {
    pub indices: Vec<u32>,
    pub first_indices: [u32; PRIMITIVE_MODE_COUNT],
    pub fan_first_indices: [u32; TRIANGLE_FAN_STAGE_COUNT],
    pub fan_index_counts: [u32; TRIANGLE_FAN_STAGE_COUNT],
}

impl ExecutionIndexCatalogue {
    /// The catalogue holds every mode's indices at its slot's range, the range
    /// starts in `first_indices`, and each triangle-fan stage's start and fan
    /// size in the fan arrays.
    pub open spec fn matches_layout(&self) -> bool {
        &&& self.indices@.len() == EXECUTION_INDEX_COUNT
        &&& forall|slot: int|
            0 <= slot < PRIMITIVE_MODE_COUNT ==> #[trigger] self.first_indices@[slot] == slot_first(slot)
        &&& forall|stage: int|
            0 <= stage < TRIANGLE_FAN_STAGE_COUNT ==> #[trigger] self.fan_first_indices@[stage]
                == slot_first(slot_of(PrimitiveMode::TriangleFan)) + stage * LINE_GRID_VERTEX_COUNT
        &&& forall|stage: int|
            0 <= stage < TRIANGLE_FAN_STAGE_COUNT ==> #[trigger] self.fan_index_counts@[stage]
                == fan_stage_size(stage)
        &&& forall|slot: int, p: int|
            #![trigger slot_first(slot), self.indices@[p]]
            0 <= slot < PRIMITIVE_MODE_COUNT && slot_first(slot) <= p < slot_first(slot + 1)
                ==> self.indices@[p] as int == catalogue_entry(mode_of_slot(slot), p - slot_first(slot))
    }
}

/// Build every native primitive interpretation once from the 1,024-vertex
/// seeded plane.
pub fn execution_index_catalogue() -> (catalogue: ExecutionIndexCatalogue)
    ensures
        catalogue.matches_layout(),
        catalogue.starts_fit(),
{
    proof {
        lemma_layout_constants();
        lemma_slot_firsts();
    }
    let mut indices: Vec<u32> = vec![0u32; EXECUTION_INDEX_COUNT];
    let mut first_indices: [u32; PRIMITIVE_MODE_COUNT] = [0u32; PRIMITIVE_MODE_COUNT];
    let mut fan_first_indices: [u32; TRIANGLE_FAN_STAGE_COUNT] = [0u32; TRIANGLE_FAN_STAGE_COUNT];
    let mut fan_index_counts: [u32; TRIANGLE_FAN_STAGE_COUNT] = [0u32; TRIANGLE_FAN_STAGE_COUNT];
    let mut cursor: usize = 0;
    for mode_slot in 0..PRIMITIVE_MODE_COUNT
        invariant
            cursor == slot_first(mode_slot as int),
            indices@.len() == EXECUTION_INDEX_COUNT,
            forall|slot: int|
                0 <= slot < mode_slot ==> #[trigger] first_indices@[slot] == slot_first(slot),
            mode_slot > slot_of(PrimitiveMode::TriangleFan) ==> forall|stage: int|
                0 <= stage < TRIANGLE_FAN_STAGE_COUNT ==> #[trigger] fan_first_indices@[stage]
                    == slot_first(slot_of(PrimitiveMode::TriangleFan)) + stage * LINE_GRID_VERTEX_COUNT,
            mode_slot > slot_of(PrimitiveMode::TriangleFan) ==> forall|stage: int|
                0 <= stage < TRIANGLE_FAN_STAGE_COUNT ==> #[trigger] fan_index_counts@[stage]
                    == fan_stage_size(stage),
            forall|slot: int, p: int|
                #![trigger slot_first(slot), indices@[p]]
                0 <= slot < mode_slot && slot_first(slot) <= p < slot_first(slot + 1)
                    ==> indices@[p] as int == catalogue_entry(mode_of_slot(slot), p - slot_first(slot)),
    {
        proof {
            lemma_layout_constants();
            lemma_slot_firsts();
        }
        let mode = PrimitiveMode::ALL[mode_slot];
        let ghost start = cursor as int;
        let ghost before = indices@;
        first_indices[mode_slot] = cursor as u32;
        if is_adjacency_mode(mode) {
            append_degenerate_indices(&mut indices, &mut cursor, mode);
        } else {
            let appended = append_indices(
                mode,
                &mut indices,
                &mut cursor,
                &mut fan_first_indices,
                &mut fan_index_counts,
            );
            assert(appended);
        }
        assert(writes_mode_range(before, indices@, start, mode));
    }
    let catalogue = ExecutionIndexCatalogue { indices, first_indices, fan_first_indices, fan_index_counts };
    proof {
        assert forall|slot: int| 0 <= slot < PRIMITIVE_MODE_COUNT implies slot_first(slot) <= EXECUTION_INDEX_COUNT by {
            lemma_slot_firsts();
        }
    }
    catalogue
}

/// One draw of an indexed batch: a catalogue range, its immediate colour
/// and the topology the vGPU assembles it with.
#[derive(Clone, Copy, Debug, PartialEq, Eq)]
pub struct IndexedBatchDrawV2 {
    pub index_count: u32,
    pub first_index: u32,
    pub base_vertex: i32,
    pub rgba8_srgb: u32,
    pub topology: PrimitiveTopology,
    pub reserved: u32,
}

/// The draws submitted for one frame, after a clear to `clear_rgba8_srgb`.
#[derive(Clone, Debug, PartialEq, Eq)]
pub struct IndexedDrawBatchV2 {
    pub clear_rgba8_srgb: u32,
    pub draw_count: u32,
    pub draws: Vec<IndexedBatchDrawV2>,
}

/// The stage of the fan cycle whose fans have `fan_size` vertices.
pub open spec fn fan_stage_of(fan_size: int) -> int {
    if fan_size == 1024 {
        0
    } else if fan_size == 512 {
        1
    } else if fan_size == 256 {
        2
    } else if fan_size == 64 {
        3
    } else if fan_size == 32 {
        4
    } else if fan_size == 16 {
        5
    } else {
        6
    }
}

/// The fan sizes `draw_batch_with_fan_size` accepts: one of the seven stages,
/// or more vertices than the plane holds, which yields no draw.
pub open spec fn accepts_fan_size(mode: PrimitiveMode, fan_vertices: int) -> bool {
    mode == PrimitiveMode::TriangleFan ==> (is_fan_size(fan_vertices) || fan_vertices
        > LINE_GRID_VERTEX_COUNT)
}

/// Number of draws in the batch of `mode` (fans of `fan_vertices` vertices
/// for the triangle fan).
pub open spec fn batch_draw_count(mode: PrimitiveMode, fan_vertices: int) -> int {
    if mode == PrimitiveMode::TriangleFan {
        LINE_GRID_VERTEX_COUNT as int / fan_vertices
    } else {
        draw_count_of(mode) as int
    }
}

/// Index count, first catalogue index and palette slot of draw `draw`.
pub open spec fn draw_span(
    catalogue: ExecutionIndexCatalogue,
    mode: PrimitiveMode,
    fan_vertices: int,
    draw: int,
) -> (int, int, int) {
    let first = catalogue.first_indices@[slot_of(mode)] as int;
    match mode {
        PrimitiveMode::PointList => if draw == 0 {
            (POINT_GRID_GREEN_INDEX_COUNT as int, first, 1)
        } else {
            (POINT_GRID_RED_INDEX_COUNT as int, first + POINT_GRID_GREEN_INDEX_COUNT, 0)
        },
        PrimitiveMode::TriangleList => if draw == 0 {
            (TRIANGLE_LIST_COLOR0_INDEX_COUNT as int, first, draw)
        } else if draw == 1 {
            (TRIANGLE_LIST_COLOR1_INDEX_COUNT as int, first + TRIANGLE_LIST_COLOR0_INDEX_COUNT, draw)
        } else {
            (
                TRIANGLE_LIST_COLOR2_INDEX_COUNT as int,
                first + TRIANGLE_LIST_COLOR0_INDEX_COUNT + TRIANGLE_LIST_COLOR1_INDEX_COUNT,
                draw,
            )
        },
        PrimitiveMode::QuadList => if draw == 0 {
            (QUAD_LIST_COLOR0_INDEX_COUNT as int, first, draw)
        } else {
            (QUAD_LIST_COLOR1_INDEX_COUNT as int, first + QUAD_LIST_COLOR0_INDEX_COUNT, draw)
        },
        PrimitiveMode::RectList => if draw == 0 {
            (RECT_LIST_COLOR0_INDEX_COUNT as int, first, draw)
        } else {
            (RECT_LIST_COLOR1_INDEX_COUNT as int, first + RECT_LIST_COLOR0_INDEX_COUNT, draw)
        },
        PrimitiveMode::TriangleFan => (
            fan_vertices,
            catalogue.fan_first_indices@[fan_stage_of(fan_vertices)] + draw * fan_vertices,
            draw % RGB_COLOR_COUNT as int,
        ),
        _ => (
            indices_per_draw_of(mode) as int,
            first + draw * indices_per_draw_of(mode),
            draw,
        ),
    }
}

/// The descriptor of draw `draw` of the batch of `mode`.
pub open spec fn expected_draw(
    catalogue: ExecutionIndexCatalogue,
    mode: PrimitiveMode,
    colors: [u32; STAMP_COUNT],
    fan_vertices: int,
    draw: int,
) -> IndexedBatchDrawV2 {
    let (index_count, first_index, palette) = draw_span(catalogue, mode, fan_vertices, draw);
    IndexedBatchDrawV2 {
        index_count: index_count as u32,
        first_index: first_index as u32,
        base_vertex: 0,
        rgba8_srgb: colors@[palette],
        topology: topology_of(mode),
        reserved: 0,
    }
}

/// The modes whose draws all have `indices_per_draw` indices.
pub open spec fn has_uniform_draws(mode: PrimitiveMode) -> bool {
    !(mode == PrimitiveMode::PointList || mode == PrimitiveMode::TriangleList || mode
        == PrimitiveMode::QuadList || mode == PrimitiveMode::RectList || mode
        == PrimitiveMode::TriangleFan)
}

/// For the modes with uniform draws, the draws exactly cover the mode's
/// catalogue range.
pub proof fn lemma_uniform_draws_cover_range(mode: PrimitiveMode)
    requires
        has_uniform_draws(mode),
    ensures
        draw_count_of(mode) * indices_per_draw_of(mode) == catalogue_len(mode),
{
    lemma_layout_constants();
    let count = draw_count_of(mode);
    let per_draw = indices_per_draw_of(mode);
    assert(count * per_draw == catalogue_len(mode)) by (nonlinear_arith)
        requires
            (count == 1 && per_draw == catalogue_len(mode)) || (count == 4 && per_draw == 64
                && catalogue_len(mode) == 256) || (count == 4 && per_draw == 65 && catalogue_len(mode)
                == 260) || (count == 2 && per_draw == 128 && catalogue_len(mode) == 256) || (count
                == 2 && per_draw == 130 && catalogue_len(mode) == 260),
    ;
}

/// A fan size larger than the plane gives no fan.
proof fn lemma_oversized_fan(fan_vertices: int)
    requires
        fan_vertices > LINE_GRID_VERTEX_COUNT,
    ensures
        LINE_GRID_VERTEX_COUNT as int / fan_vertices == 0,
{
    lemma_layout_constants();
    assert(1024int / fan_vertices == 0) by (nonlinear_arith)
        requires
            fan_vertices > 1024,
    ;
}

/// Position of a fan size in `TRIANGLE_FAN_VERTEX_COUNTS`.
fn fan_stage_index(fan_size: usize) -> (stage: usize)
    requires
        is_fan_size(fan_size as int),
    ensures
        stage == fan_stage_of(fan_size as int),
        stage < TRIANGLE_FAN_STAGE_COUNT,
        fan_stage_size(stage as int) == fan_size,
{
    proof { lemma_fan_stage_sizes(); }
    let mut stage: usize = 0;
    while stage < TRIANGLE_FAN_STAGE_COUNT
        invariant
            stage <= TRIANGLE_FAN_STAGE_COUNT,
            is_fan_size(fan_size as int),
            forall|earlier: int| 0 <= earlier < stage ==> fan_stage_size(earlier) != fan_size,
        decreases TRIANGLE_FAN_STAGE_COUNT - stage,
    {
        proof { lemma_fan_stage_sizes(); }
        if TRIANGLE_FAN_VERTEX_COUNTS[stage] == fan_size {
            return stage;
        }
        stage += 1;
    }
    proof {
        lemma_fan_stage_sizes();
        assert(fan_stage_size(fan_stage_of(fan_size as int)) == fan_size);
    }
    stage
}

impl ExecutionIndexCatalogue {
    /// Every catalogue start leaves room for a whole mode or stage in `u32`.
    pub open spec fn starts_fit(&self) -> bool {
        &&& forall|slot: int|
            0 <= slot < PRIMITIVE_MODE_COUNT ==> #[trigger] self.first_indices@[slot] + EXECUTION_INDEX_COUNT
                <= u32::MAX
        &&& forall|stage: int|
            0 <= stage < TRIANGLE_FAN_STAGE_COUNT ==> #[trigger] self.fan_first_indices@[stage]
                + LINE_GRID_VERTEX_COUNT <= u32::MAX
    }

    /// The first index of every draw of the batch of `mode` (fans of
    /// `fan_vertices` vertices for the triangle fan) fits in `u32`.
    pub open spec fn draws_fit(&self, mode: PrimitiveMode, fan_vertices: int) -> bool {
        forall|draw: int|
            0 <= draw < batch_draw_count(mode, fan_vertices) ==> #[trigger] draw_span(
                *self,
                mode,
                fan_vertices,
                draw,
            ).1 <= u32::MAX
    }

    /// A catalogue whose starts leave room for a whole mode or stage leaves
    /// room for every draw of every batch.
    pub proof fn lemma_starts_fit_gives_draws_fit(&self, mode: PrimitiveMode, fan_vertices: int)
        requires
            self.starts_fit(),
            accepts_fan_size(mode, fan_vertices),
        ensures
            self.draws_fit(mode, fan_vertices),
    {
        lemma_layout_constants();
        lemma_slot_firsts();
        assert forall|draw: int| 0 <= draw < batch_draw_count(mode, fan_vertices) implies #[trigger] draw_span(
            *self,
            mode,
            fan_vertices,
            draw,
        ).1 <= u32::MAX by {
            if mode == PrimitiveMode::TriangleFan {
                if fan_vertices > LINE_GRID_VERTEX_COUNT {
                    lemma_oversized_fan(fan_vertices);
                }
                lemma_fan_stage_sizes();
                lemma_fan_slot_in_grid(fan_vertices, draw, 0);
                assert(0 <= fan_stage_of(fan_vertices) < TRIANGLE_FAN_STAGE_COUNT);
            } else if has_uniform_draws(mode) {
                lemma_uniform_draws_cover_range(mode);
                let per_draw = indices_per_draw_of(mode) as int;
                assert(draw * per_draw <= batch_draw_count(mode, fan_vertices) * per_draw) by (nonlinear_arith)
                    requires
                        0 <= draw < batch_draw_count(mode, fan_vertices),
                        per_draw >= 0,
                ;
            }
        }
    }

    /// Lower one catalogue interpretation to the exact V2 descriptors consumed
    /// by the kernel. The uploaded vertex and index buffers remain unchanged.
    pub fn draw_batch(
        &self,
        mode: PrimitiveMode,
        colors: [u32; STAMP_COUNT],
        clear_rgba8_srgb: u32,
    ) -> (batch: IndexedDrawBatchV2)
        requires
            self.draws_fit(mode, LINE_GRID_VERTEX_COUNT as int),
        ensures
            batch.clear_rgba8_srgb == clear_rgba8_srgb,
            batch.draw_count == batch_draw_count(mode, LINE_GRID_VERTEX_COUNT as int),
            batch.draws@.len() == batch.draw_count,
            forall|draw: int|
                0 <= draw < batch.draws@.len() ==> #[trigger] batch.draws@[draw] == expected_draw(
                    *self,
                    mode,
                    colors,
                    LINE_GRID_VERTEX_COUNT as int,
                    draw,
                ),
    {
        proof { lemma_layout_constants(); }
        self.draw_batch_with_fan_size(mode, colors, clear_rgba8_srgb, LINE_GRID_VERTEX_COUNT)
    }

    pub fn draw_batch_with_fan_size(
        &self,
        mode: PrimitiveMode,
        colors: [u32; STAMP_COUNT],
        clear_rgba8_srgb: u32,
        fan_vertices: usize,
    ) -> (batch: IndexedDrawBatchV2)
        requires
            self.draws_fit(mode, fan_vertices as int),
            accepts_fan_size(mode, fan_vertices as int),
        ensures
            batch.clear_rgba8_srgb == clear_rgba8_srgb,
            batch.draw_count == batch_draw_count(mode, fan_vertices as int),
            batch.draws@.len() == batch.draw_count,
            forall|draw: int|
                0 <= draw < batch.draws@.len() ==> #[trigger] batch.draws@[draw] == expected_draw(
                    *self,
                    mode,
                    colors,
                    fan_vertices as int,
                    draw,
                ),
    {
        proof {
            lemma_layout_constants();
            lemma_fan_stage_sizes();
        }
        let mode_slot = mode.slot();
        let draw_count = if mode == PrimitiveMode::TriangleFan {
            LINE_GRID_VERTEX_COUNT / fan_vertices
        } else {
            mode.draw_count()
        };
        let mut draws: Vec<IndexedBatchDrawV2> = Vec::new();
        for draw in 0..draw_count
            invariant
                self.draws_fit(mode, fan_vertices as int),
                accepts_fan_size(mode, fan_vertices as int),
                mode_slot == slot_of(mode),
                draw_count == batch_draw_count(mode, fan_vertices as int),
                draws@.len() == draw,
                forall|earlier: int|
                    0 <= earlier < draw ==> #[trigger] draws@[earlier] == expected_draw(
                        *self,
                        mode,
                        colors,
                        fan_vertices as int,
                        earlier,
                    ),
        {
            proof {
                lemma_layout_constants();
                lemma_fan_stage_sizes();
                assert(draw_span(*self, mode, fan_vertices as int, draw as int).1 <= u32::MAX);
            }
            let (index_count, first_index, palette_index): (u32, u32, usize) = if mode
                == PrimitiveMode::PointList {
                // Key 1 prepares the viewer for reinterpreted geometry: seed
                // ordinals 0, 3, 6, ... are green and all others are red.
                // These two disjoint index ranges use the existing immediate
                // per-draw RGBA field; no vertex format or shader ABI changes.
                if draw == 0 {
                    (POINT_GRID_GREEN_INDEX_COUNT as u32, self.first_indices[mode_slot], 1)
                } else {
                    (
                        POINT_GRID_RED_INDEX_COUNT as u32,
                        self.first_indices[mode_slot] + POINT_GRID_GREEN_INDEX_COUNT as u32,
                        0,
                    )
                }
            } else if mode == PrimitiveMode::TriangleList {
                let (index_count, first_offset): (usize, usize) = match draw {
                    0 => (TRIANGLE_LIST_COLOR0_INDEX_COUNT, 0),
                    1 => (TRIANGLE_LIST_COLOR1_INDEX_COUNT, TRIANGLE_LIST_COLOR0_INDEX_COUNT),
                    _ => (
                        TRIANGLE_LIST_COLOR2_INDEX_COUNT,
                        TRIANGLE_LIST_COLOR0_INDEX_COUNT + TRIANGLE_LIST_COLOR1_INDEX_COUNT,
                    ),
                };
                (index_count as u32, self.first_indices[mode_slot] + first_offset as u32, draw)
            } else if mode == PrimitiveMode::QuadList {
                let (index_count, first_offset): (usize, usize) = if draw == 0 {
                    (QUAD_LIST_COLOR0_INDEX_COUNT, 0)
                } else {
                    (QUAD_LIST_COLOR1_INDEX_COUNT, QUAD_LIST_COLOR0_INDEX_COUNT)
                };
                (index_count as u32, self.first_indices[mode_slot] + first_offset as u32, draw)
            } else if mode == PrimitiveMode::RectList {
                let (index_count, first_offset): (usize, usize) = if draw == 0 {
                    (RECT_LIST_COLOR0_INDEX_COUNT, 0)
                } else {
                    (RECT_LIST_COLOR1_INDEX_COUNT, RECT_LIST_COLOR0_INDEX_COUNT)
                };
                (index_count as u32, self.first_indices[mode_slot] + first_offset as u32, draw)
            } else if mode == PrimitiveMode::TriangleFan {
                proof {
                    if fan_vertices > LINE_GRID_VERTEX_COUNT {
                        lemma_oversized_fan(fan_vertices as int);
                    }
                    lemma_fan_slot_in_grid(fan_vertices as int, draw as int, 0);
                }
                let stage = fan_stage_index(fan_vertices);
                (
                    fan_vertices as u32,
                    self.fan_first_indices[stage] + draw as u32 * fan_vertices as u32,
                    draw % RGB_COLOR_COUNT,
                )
            } else {
                let per_draw = mode.indices_per_draw();
                proof {
                    lemma_uniform_draws_cover_range(mode);
                    assert(draw * per_draw <= draw_count * per_draw) by (nonlinear_arith)
                        requires
                            draw < draw_count,
                    ;
                }
                (
                    per_draw as u32,
                    self.first_indices[mode_slot] + draw as u32 * per_draw as u32,
                    draw,
                )
            };
            draws.push(
                IndexedBatchDrawV2 {
                    index_count,
                    first_index,
                    base_vertex: 0,
                    // Independent fans cycle the opaque RGB palette; the other
                    // modes retain their authored per-draw palette selection.
                    rgba8_srgb: colors[palette_index],
                    topology: mode.vgpu_topology(),
                    reserved: 0,
                },
            );
        }
        IndexedDrawBatchV2 { clear_rgba8_srgb, draw_count: draw_count as u32, draws }
    }
}

/// A four-texel opaque BMP: red, green, blue, and yellow. The bytes seed
/// storage, then must be read back before palette decoding.
pub const COLOR_TEXTURE_BYTES: [u8; 70] = [
    0x42, 0x4d, 70, 0, 0, 0, 0, 0, 0, 0, 54, 0, 0, 0,  // BMP file header
    40, 0, 0, 0, 4, 0, 0, 0, 1, 0, 0, 0, 1, 0, 32, 0,  // DIB core
    0, 0, 0, 0, 16, 0, 0, 0, 0, 0, 0, 0, 0, 0, 0, 0,  // BI_RGB + resolution
    0, 0, 0, 0, 0, 0, 0, 0,  // palette counts
    0, 0, 255, 255,  // red, BGRA
    0, 255, 0, 255,  // green, BGRA
    255, 0, 0, 255,  // blue, BGRA
    0, 255, 255, 255,  // yellow, BGRA
];

/// Offset of the first pixel in the palette BMP.
pub const PALETTE_PIXEL_OFFSET: usize = 54;

/// The palette BMP is recognised by its size, its `BM` signature and its
/// 4x1 dimensions.
pub open spec fn is_palette_bmp(bytes: Seq<u8>) -> bool {
    &&& bytes.len() == COLOR_TEXTURE_BYTES@.len()
    &&& bytes[0] == 0x42 && bytes[1] == 0x4d
    &&& bytes.subrange(18, 26) == seq![4u8, 0, 0, 0, 1, 0, 0, 0]
}

/// The RGBA colour of the BGRA pixel at `offset`, as the little-endian `u32`
/// of the bytes red, green, blue, alpha.
pub open spec fn pixel_rgba(bytes: Seq<u8>, offset: int) -> u32 {
    (bytes[offset + 2] + bytes[offset + 1] * 0x100 + bytes[offset] * 0x1_0000 + bytes[offset + 3]
        * 0x100_0000) as u32
}

/// Read the four palette colours out of the palette BMP.
pub fn decode_palette_rgba(bytes: &[u8]) -> (palette: Option<[u32; STAMP_COUNT]>)
    ensures
        palette is Some <==> is_palette_bmp(bytes@),
        palette is Some ==> forall|slot: int|
            0 <= slot < STAMP_COUNT ==> #[trigger] palette->0@[slot] == pixel_rgba(
                bytes@,
                PALETTE_PIXEL_OFFSET + 4 * slot,
            ),
{
    if bytes.len() != COLOR_TEXTURE_BYTES.len() || bytes[0] != 0x42 || bytes[1] != 0x4d
        || !(bytes[18] == 4 && bytes[19] == 0 && bytes[20] == 0 && bytes[21] == 0 && bytes[22] == 1
        && bytes[23] == 0 && bytes[24] == 0 && bytes[25] == 0) {
        proof {
            if bytes@.len() == 70 && bytes@[0] == 0x42 && bytes@[1] == 0x4d
                && bytes@.subrange(18, 26) == seq![4u8, 0, 0, 0, 1, 0, 0, 0] {
                assert(bytes@.subrange(18, 26)[0] == bytes@[18]);
                assert(bytes@.subrange(18, 26)[1] == bytes@[19]);
                assert(bytes@.subrange(18, 26)[2] == bytes@[20]);
                assert(bytes@.subrange(18, 26)[3] == bytes@[21]);
                assert(bytes@.subrange(18, 26)[4] == bytes@[22]);
                assert(bytes@.subrange(18, 26)[5] == bytes@[23]);
                assert(bytes@.subrange(18, 26)[6] == bytes@[24]);
                assert(bytes@.subrange(18, 26)[7] == bytes@[25]);
            }
        }
        return None;
    }
    assert(bytes@.subrange(18, 26) =~= seq![4u8, 0, 0, 0, 1, 0, 0, 0]);
    let pixels = &bytes[PALETTE_PIXEL_OFFSET..PALETTE_PIXEL_OFFSET + 16];
    let mut palette: [u32; STAMP_COUNT] = [0u32; STAMP_COUNT];
    for slot in 0..STAMP_COUNT
        invariant
            pixels@ == bytes@.subrange(54, 70),
            bytes@.len() == 70,
            forall|earlier: int|
                0 <= earlier < slot ==> #[trigger] palette@[earlier] == pixel_rgba(
                    bytes@,
                    PALETTE_PIXEL_OFFSET + 4 * earlier,
                ),
    {
        let offset = slot * 4;
        let rgba = pixels[offset + 2] as u32 + pixels[offset + 1] as u32 * 0x100 + pixels[offset] as u32
            * 0x1_0000 + pixels[offset + 3] as u32 * 0x100_0000;
        palette[slot] = rgba;
    }
    Some(palette)
}

} // verus!
