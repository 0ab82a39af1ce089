//! Adjacency-topology geometry skeleton.
//!
//! The native `_ADJ` modes are kept separate from the ordinary grid
//! catalogue. They currently submit one minimum-size, fully degenerate
//! primitive: this preserves the topology selection and makes the unresolved
//! geometry-shader semantics visible without inventing rendered geometry.
use vstd::prelude::*;
use super::PrimitiveMode;
use super::base::{line_grid_vertex, grid_vertex_index};

verus! {

/// Minimum legal input sizes used by the current clear-only placeholders.
pub const LINE_LIST_INDEX_COUNT: usize = 4;
pub const LINE_STRIP_INDEX_COUNT: usize = 4;
pub const TRIANGLE_LIST_INDEX_COUNT: usize = 6;
pub const TRIANGLE_STRIP_INDEX_COUNT: usize = 6;

/// The adjacency topologies exposed by the number-key toggles.
#[derive(Clone, Copy, Debug, PartialEq, Eq, Structural)]
pub enum AdjacencyPrimitive {
    LineList,
    LineStrip,
    TriangleList,
    TriangleStrip,
}

/// The adjacency primitive behind a mode, if it is one of the four `_ADJ` modes.
pub open spec fn adjacency_of(mode: PrimitiveMode) -> Option<AdjacencyPrimitive> {
    match mode {
        PrimitiveMode::LineListAdj => Some(AdjacencyPrimitive::LineList),
        PrimitiveMode::LineStripAdj => Some(AdjacencyPrimitive::LineStrip),
        PrimitiveMode::TriangleListAdj => Some(AdjacencyPrimitive::TriangleList),
        PrimitiveMode::TriangleStripAdj => Some(AdjacencyPrimitive::TriangleStrip),
        _ => None,
    }
}

/// Number of placeholder inputs of an adjacency primitive.
pub open spec fn adjacency_len(primitive: AdjacencyPrimitive) -> nat {
    match primitive {
        AdjacencyPrimitive::LineList => LINE_LIST_INDEX_COUNT as nat,
        AdjacencyPrimitive::LineStrip => LINE_STRIP_INDEX_COUNT as nat,
        AdjacencyPrimitive::TriangleList => TRIANGLE_LIST_INDEX_COUNT as nat,
        AdjacencyPrimitive::TriangleStrip => TRIANGLE_STRIP_INDEX_COUNT as nat,
    }
}

/// Number of placeholder inputs of a mode: zero for the ordinary modes.
pub open spec fn adjacency_mode_len(mode: PrimitiveMode) -> nat {
    match adjacency_of(mode) {
        Some(primitive) => adjacency_len(primitive),
        None => 0,
    }
}

impl AdjacencyPrimitive {
    pub fn from_mode(mode: PrimitiveMode) -> (r: Option<Self>)
        ensures
            r == adjacency_of(mode),
    {
        match mode {
            PrimitiveMode::LineListAdj => Some(Self::LineList),
            PrimitiveMode::LineStripAdj => Some(Self::LineStrip),
            PrimitiveMode::TriangleListAdj => Some(Self::TriangleList),
            PrimitiveMode::TriangleStripAdj => Some(Self::TriangleStrip),
            _ => None,
        }
    }

    pub fn index_count(self) -> (r: usize)
        ensures
            r == adjacency_len(self),
    {
        match self {
            Self::LineList => LINE_LIST_INDEX_COUNT,
            Self::LineStrip => LINE_STRIP_INDEX_COUNT,
            Self::TriangleList => TRIANGLE_LIST_INDEX_COUNT,
            Self::TriangleStrip => TRIANGLE_STRIP_INDEX_COUNT,
        }
    }
}

/// True only for the four native adjacency interpretations.
pub fn is_adjacency_mode(mode: PrimitiveMode) -> (r: bool)
    ensures
        r == adjacency_of(mode).is_some(),
{
    AdjacencyPrimitive::from_mode(mode).is_some()
}

/// Return the placeholder input count for an adjacency topology.
pub fn adjacency_index_count(mode: PrimitiveMode) -> (r: usize)
    ensures
        r == adjacency_mode_len(mode),
{
    match AdjacencyPrimitive::from_mode(mode) {
        Some(primitive) => primitive.index_count(),
        None => 0,
    }
}

/// Append one degenerate adjacency catalogue entry and return its count.
///
/// Every input is the first seeded grid vertex. The caller still binds the
/// actual native adjacency topology, but no geometry-shader interpretation is
/// assumed here and therefore no visible geometry is emitted.
pub fn append_degenerate_indices(indices: &mut Vec<u32>, cursor: &mut usize, mode: PrimitiveMode) -> (count: usize)
    requires
        adjacency_of(mode).is_some(),
        *old(cursor) + adjacency_mode_len(mode) <= old(indices).len(),
    ensures
        count == adjacency_mode_len(mode),
        *final(cursor) == *old(cursor) + count,
        final(indices)@.len() == old(indices)@.len(),
        forall|p: int|
            0 <= p < old(indices)@.len() && !(*old(cursor) <= p < *old(cursor) + count)
                ==> #[trigger] final(indices)@[p] == old(indices)@[p],
        forall|p: int|
            *old(cursor) <= p < *old(cursor) + count
                ==> #[trigger] final(indices)@[p] as int == grid_vertex_index(0),
{
    let count = adjacency_index_count(mode);
    let end = *cursor + count;
    let ghost start = *cursor;
    let ghost before = indices@;
    let mut position = *cursor;
    while position < end
        invariant
            start <= position <= end,
            end == start + count,
            end <= before.len(),
            indices@.len() == before.len(),
            forall|p: int|
                0 <= p < before.len() && !(start <= p < position) ==> #[trigger] indices@[p] == before[p],
            forall|p: int| start <= p < position ==> #[trigger] indices@[p] as int == grid_vertex_index(0),
        decreases end - position,
    {
        indices.set(position, line_grid_vertex(0));
        position += 1;
    }
    *cursor = end;
    count
}

} // verus!
