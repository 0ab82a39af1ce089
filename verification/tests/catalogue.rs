use potato_stamps::scene::base::{
    line_grid_vertex, ring_circle_vertex, LINE_GRID_COLUMNS, LINE_GRID_ROWS,
    LINE_GRID_VERTEX_COUNT, LINE_GRID_VERTEX_OFFSET, LINE_GRID_XYZ_BYTES,
    LINE_STRIP_RING_INDICES_PER_DRAW, POINT_GRID_GREEN_INDEX_COUNT, POINT_GRID_RED_INDEX_COUNT,
    QUAD_LIST_CELL_COUNT, QUAD_LIST_COLOR0_CELL_COUNT, QUAD_LIST_COLOR0_INDEX_COUNT,
    QUAD_LIST_COLOR1_CELL_COUNT, QUAD_LIST_COLOR1_INDEX_COUNT, QUAD_LIST_INDEX_COUNT,
    QUAD_LIST_RING_CELL_COUNT, QUAD_LIST_RING_INDEX_COUNT, QUAD_LIST_RING_INDICES_PER_DRAW,
    QUAD_STRIP_DRAW_COUNT, QUAD_STRIP_INDICES_PER_DRAW, QUAD_STRIP_RING_COUNT,
    QUAD_STRIP_RING_VERTEX_COUNT, QUAD_STRIP_RING_VERTEX_OFFSET,
    QUAD_STRIP_RING_VERTICES_PER_RING, RECT_LIST_CELL_COUNT, RECT_LIST_COLOR0_CELL_COUNT,
    RECT_LIST_COLOR0_INDEX_COUNT, RECT_LIST_COLOR1_CELL_COUNT, RECT_LIST_COLOR1_INDEX_COUNT,
    RING_CIRCLE_COUNT, RING_CIRCLE_VERTEX_COUNT, TRIANGLE_FAN_VERTEX_COUNTS,
};
use potato_stamps::scene::{execution_index_catalogue, ExecutionIndexCatalogue, PrimitiveMode};

fn catalogue() -> ExecutionIndexCatalogue {
    execution_index_catalogue()
}

#[test]
fn seed_plane_is_32_by_32() {
    assert_eq!(LINE_GRID_COLUMNS, 32);
    assert_eq!(LINE_GRID_ROWS, 32);
    assert_eq!(LINE_GRID_VERTEX_COUNT, 1024);
    assert_eq!(LINE_GRID_XYZ_BYTES, 1024 * 12);
}

#[test]
fn adjacency_modes_are_minimum_size_degenerate_draws() {
    let catalogue = catalogue();
    for mode in [
        PrimitiveMode::LineListAdj,
        PrimitiveMode::LineStripAdj,
        PrimitiveMode::TriangleListAdj,
        PrimitiveMode::TriangleStripAdj,
    ] {
        let first = catalogue.first_indices[mode.slot()] as usize;
        let count = mode.indices_per_draw();
        let range = &catalogue.indices[first..first + count];
        assert!(range.iter().all(|&index| index == line_grid_vertex(0)));
        let batch = catalogue.draw_batch(mode, [1, 2, 3, 4], 0);
        assert_eq!(batch.draw_count, 1);
        assert_eq!(batch.draws[0].index_count as usize, count);
        assert_eq!(batch.draws[0].topology, mode.vgpu_topology());
    }
}

#[test]
fn fan_cycle_is_seven_exact_spatial_partitions() {
    assert_eq!(TRIANGLE_FAN_VERTEX_COUNTS, [1024, 512, 256, 64, 32, 16, 8]);
    let catalogue = catalogue();
    for (stage, &fan_size) in TRIANGLE_FAN_VERTEX_COUNTS.iter().enumerate() {
        let first = catalogue.fan_first_indices[stage] as usize;
        let stage_indices = &catalogue.indices[first..first + LINE_GRID_VERTEX_COUNT];
        let mut seen = [false; LINE_GRID_VERTEX_COUNT];
        for &index in stage_indices {
            let seed = index as usize - LINE_GRID_VERTEX_OFFSET;
            assert!(!seen[seed]);
            seen[seed] = true;
        }
        assert!(seen.into_iter().all(|value| value));

        let batch = catalogue.draw_batch_with_fan_size(
            PrimitiveMode::TriangleFan,
            [1, 2, 3, 4],
            0,
            fan_size,
        );
        assert_eq!(batch.draw_count as usize, LINE_GRID_VERTEX_COUNT / fan_size);
        assert_eq!(batch.draws[0].index_count as usize, fan_size);
    }
}

#[test]
fn quad_list_consumes_every_seed_once_and_rect_list_has_two_ring_draws() {
    assert_eq!(QUAD_LIST_CELL_COUNT, 256);
    assert_eq!((QUAD_LIST_COLOR0_CELL_COUNT, QUAD_LIST_COLOR1_CELL_COUNT), (128, 128));
    assert_eq!(QUAD_LIST_INDEX_COUNT, LINE_GRID_VERTEX_COUNT);
    assert_eq!(RECT_LIST_CELL_COUNT, 128);
    assert_eq!((RECT_LIST_COLOR0_CELL_COUNT, RECT_LIST_COLOR1_CELL_COUNT), (64, 64));
    let catalogue = catalogue();
    let first = catalogue.first_indices[PrimitiveMode::QuadList.slot()] as usize;
    let indices = &catalogue.indices[first..first + QUAD_LIST_INDEX_COUNT];
    let mut seen = [false; LINE_GRID_VERTEX_COUNT];
    for &index in indices {
        let seed = index as usize - LINE_GRID_VERTEX_OFFSET;
        assert!(!seen[seed]);
        seen[seed] = true;
    }
    assert!(seen.into_iter().all(|value| value));
    let colors = [1, 2, 3, 4];
    let quads = catalogue.draw_batch(PrimitiveMode::QuadList, colors, 0);
    assert_eq!(quads.draws[0].index_count as usize, QUAD_LIST_COLOR0_INDEX_COUNT);
    assert_eq!(quads.draws[1].index_count as usize, QUAD_LIST_COLOR1_INDEX_COUNT);
    let rects = catalogue.draw_batch(PrimitiveMode::RectList, colors, 0);
    assert_eq!(rects.draws[0].index_count as usize, RECT_LIST_COLOR0_INDEX_COUNT);
    assert_eq!(rects.draws[1].index_count as usize, RECT_LIST_COLOR1_INDEX_COUNT);
}

#[test]
fn key_seven_is_unbound_and_point_list_is_default_shape() {
    assert_eq!(PrimitiveMode::PointList.on_number_key_pressed(7), None);
    assert_eq!(PrimitiveMode::ALL.len(), 17);
    assert_eq!(
        PrimitiveMode::PointList.on_number_key_pressed(1),
        Some(PrimitiveMode::PointListRings)
    );
    assert_eq!(
        PrimitiveMode::PointListRings.on_number_key_pressed(1),
        Some(PrimitiveMode::PointList)
    );
    assert_eq!(
        PrimitiveMode::LineList.on_number_key_pressed(2),
        Some(PrimitiveMode::LineListRings)
    );
    assert_eq!(
        PrimitiveMode::LineListRings.on_number_key_pressed(2),
        Some(PrimitiveMode::LineListAdj)
    );
    assert_eq!(
        PrimitiveMode::LineStrip.on_number_key_pressed(3),
        Some(PrimitiveMode::LineStripRings)
    );
    assert_eq!(
        PrimitiveMode::LineStripRings.on_number_key_pressed(3),
        Some(PrimitiveMode::LineStripAdj)
    );
    assert_eq!(
        PrimitiveMode::QuadList.on_number_key_pressed(8),
        Some(PrimitiveMode::QuadListRings)
    );
    assert_eq!(
        PrimitiveMode::QuadListRings.on_number_key_pressed(8),
        Some(PrimitiveMode::QuadList)
    );
    let batch = catalogue().draw_batch(PrimitiveMode::PointList, [1, 2, 3, 4], 0);
    assert_eq!(batch.draw_count, 2);
    assert_eq!(batch.draws[0].index_count as usize, POINT_GRID_GREEN_INDEX_COUNT);
    assert_eq!(batch.draws[1].index_count as usize, POINT_GRID_RED_INDEX_COUNT);
}

#[test]
fn point_line_and_strip_circle_modes_share_the_four_ring_paths() {
    let catalogue = catalogue();
    for mode in [PrimitiveMode::PointListRings, PrimitiveMode::LineListRings] {
        let first = catalogue.first_indices[mode.slot()] as usize;
        let indices = &catalogue.indices[first..first + QUAD_STRIP_RING_VERTEX_COUNT];
        for circle in 0..RING_CIRCLE_COUNT {
            for step in 0..RING_CIRCLE_VERTEX_COUNT {
                assert_eq!(
                    indices[circle * RING_CIRCLE_VERTEX_COUNT + step],
                    ring_circle_vertex(circle, step)
                );
            }
        }
        let batch = catalogue.draw_batch(mode, [1, 2, 3, 4], 0);
        assert_eq!(batch.draw_count as usize, RING_CIRCLE_COUNT);
    }

    let mode = PrimitiveMode::LineStripRings;
    let first = catalogue.first_indices[mode.slot()] as usize;
    for circle in 0..RING_CIRCLE_COUNT {
        let circle_first = first + circle * LINE_STRIP_RING_INDICES_PER_DRAW;
        let strip = &catalogue.indices[circle_first..circle_first + LINE_STRIP_RING_INDICES_PER_DRAW];
        assert_eq!(strip[0], strip[RING_CIRCLE_VERTEX_COUNT]);
        for step in 0..RING_CIRCLE_VERTEX_COUNT {
            assert_eq!(strip[step], ring_circle_vertex(circle, step));
        }
    }
    let batch = catalogue.draw_batch(mode, [1, 2, 3, 4], 0);
    assert_eq!(batch.draw_count as usize, RING_CIRCLE_COUNT);
    assert_eq!(batch.draws[0].index_count as usize, LINE_STRIP_RING_INDICES_PER_DRAW);
}

#[test]
fn quad_list_rings_reuse_every_quad_strip_vertex_once() {
    let catalogue = catalogue();
    let first = catalogue.first_indices[PrimitiveMode::QuadListRings.slot()] as usize;
    let rings = &catalogue.indices[first..first + QUAD_LIST_RING_INDEX_COUNT];
    assert_eq!(QUAD_LIST_RING_CELL_COUNT, 64);
    assert_eq!(QUAD_LIST_RING_INDEX_COUNT, QUAD_STRIP_RING_VERTEX_COUNT);
    let mut seen = [false; QUAD_STRIP_RING_VERTEX_COUNT];
    for &index in rings {
        let vertex = index as usize - QUAD_STRIP_RING_VERTEX_OFFSET;
        assert!(!seen[vertex]);
        seen[vertex] = true;
    }
    assert!(seen.into_iter().all(|value| value));
    let batch = catalogue.draw_batch(PrimitiveMode::QuadListRings, [1, 2, 3, 4], 0);
    assert_eq!(batch.draw_count, 2);
    assert_eq!(batch.draws[0].index_count as usize, QUAD_LIST_RING_INDICES_PER_DRAW);
    assert_eq!(batch.draws[1].index_count as usize, QUAD_LIST_RING_INDICES_PER_DRAW);
}

#[test]
fn quad_strip_is_two_independent_closed_rings() {
    let catalogue = catalogue();
    let first = catalogue.first_indices[PrimitiveMode::QuadStrip.slot()] as usize;
    assert_eq!(QUAD_STRIP_DRAW_COUNT, 2);
    assert_eq!(QUAD_STRIP_RING_VERTEX_COUNT, 256);
    let mut seen = [false; QUAD_STRIP_RING_VERTEX_COUNT];
    for ring in 0..QUAD_STRIP_RING_COUNT {
        let ring_first = first + ring * QUAD_STRIP_INDICES_PER_DRAW;
        let strip = &catalogue.indices[ring_first..ring_first + QUAD_STRIP_INDICES_PER_DRAW];
        assert_eq!(&strip[..2], &strip[strip.len() - 2..]);
        for &index in &strip[..QUAD_STRIP_RING_VERTICES_PER_RING] {
            let vertex = index as usize - QUAD_STRIP_RING_VERTEX_OFFSET;
            assert!(!seen[vertex]);
            seen[vertex] = true;
        }
    }
    assert!(seen.into_iter().all(|value| value));
    let batch = catalogue.draw_batch(PrimitiveMode::QuadStrip, [1, 2, 3, 4], 0);
    assert_eq!(batch.draw_count, 2);
    assert_eq!(batch.draws[0].index_count as usize, QUAD_STRIP_INDICES_PER_DRAW);
    assert_eq!(batch.draws[1].index_count as usize, QUAD_STRIP_INDICES_PER_DRAW);
}
