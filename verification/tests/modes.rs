use potato_stamps::scene::adjacency::{
    adjacency_index_count, is_adjacency_mode, AdjacencyPrimitive,
};
use potato_stamps::scene::base::{
    line_grid_snake_seed_vertex, quad_strip_ring_vertex, rect_list_vertex,
    triangle_fan_partition_seed_vertex, triangle_strip_main_seed_vertex,
    triangle_strip_main_vertex, EXECUTION_VERTEX_COUNT, LINE_GRID_VERTEX_OFFSET,
    RECT_LIST_VERTEX_OFFSET,
};
use potato_stamps::scene::{
    execution_index_catalogue, newly_pressed, PrimitiveMode, PrimitiveTopology,
    EXECUTION_INDEX_COUNT,
};

#[test]
fn labels_slots_and_keys() {
    assert_eq!(PrimitiveMode::PointList.label(), "point-list-grid");
    assert_eq!(PrimitiveMode::LineListRings.label(), "line-list-four-dashed-circles");
    assert_eq!(PrimitiveMode::RectList.label(), "rect-list-two-rings");
    for (slot, mode) in PrimitiveMode::ALL.into_iter().enumerate() {
        assert_eq!(mode.slot(), slot);
    }
    assert_eq!(PrimitiveMode::PointList.number_key_hid_usage(), 0x1e);
    assert_eq!(PrimitiveMode::TriangleFan.number_key_hid_usage(), 0x23);
    assert_eq!(PrimitiveMode::QuadStrip.number_key_hid_usage(), 0x26);
    assert_eq!(PrimitiveMode::RectList.number_key(), 0);
    assert_eq!(PrimitiveMode::RectList.number_key_hid_usage(), 0x27);
    assert_eq!(PrimitiveMode::QuadListRings.vgpu_topology(), PrimitiveTopology::QuadList);
    assert_eq!(PrimitiveMode::LineStripRings.vgpu_topology(), PrimitiveTopology::LineStrip);
}

#[test]
fn every_bound_key_selects_one_of_its_modes_and_cycles_back() {
    for mode in PrimitiveMode::ALL {
        for key in 0..=255u8 {
            match mode.on_number_key_pressed(key) {
                Some(next) => assert_eq!(next.number_key(), key),
                None => assert!(key == 7 || key > 9),
            }
        }
        let key = mode.number_key();
        let cycle = match key {
            2 | 3 => 3,
            1 | 4 | 5 | 8 => 2,
            _ => 1,
        };
        let mut current = mode;
        for press in 1..=cycle {
            current = current.on_number_key_pressed(key).unwrap();
            assert_eq!(current == mode, press == cycle);
        }
    }
    assert_eq!(
        PrimitiveMode::TriangleListAdj.on_number_key_pressed(4),
        Some(PrimitiveMode::TriangleList)
    );
    assert_eq!(
        PrimitiveMode::LineStripAdj.on_number_key_pressed(3),
        Some(PrimitiveMode::LineStrip)
    );
    assert_eq!(PrimitiveMode::QuadList.on_number_key_pressed(0), Some(PrimitiveMode::RectList));
    assert_eq!(PrimitiveMode::PointList.on_number_key_pressed(10), None);
}

#[test]
fn adjacency_modes_and_placeholder_counts() {
    let adjacency = [
        (PrimitiveMode::LineListAdj, AdjacencyPrimitive::LineList, 4),
        (PrimitiveMode::LineStripAdj, AdjacencyPrimitive::LineStrip, 4),
        (PrimitiveMode::TriangleListAdj, AdjacencyPrimitive::TriangleList, 6),
        (PrimitiveMode::TriangleStripAdj, AdjacencyPrimitive::TriangleStrip, 6),
    ];
    for (mode, primitive, count) in adjacency {
        assert!(is_adjacency_mode(mode));
        assert!(mode.requires_adjacency_topology_rendering());
        assert_eq!(AdjacencyPrimitive::from_mode(mode), Some(primitive));
        assert_eq!(primitive.index_count(), count);
        assert_eq!(adjacency_index_count(mode), count);
    }
    assert!(!is_adjacency_mode(PrimitiveMode::TriangleFan));
    assert_eq!(AdjacencyPrimitive::from_mode(PrimitiveMode::LineList), None);
    assert_eq!(adjacency_index_count(PrimitiveMode::QuadStrip), 0);
}

#[test]
fn vertex_helpers_have_their_formulas() {
    assert_eq!(quad_strip_ring_vertex(1, 3, 1), 12 + 128 + 6 + 1);
    assert_eq!(rect_list_vertex(5, 2), 1292 + 15 + 2);
    assert_eq!(line_grid_snake_seed_vertex(31), 31);
    assert_eq!(line_grid_snake_seed_vertex(32), 63);
    assert_eq!(line_grid_snake_seed_vertex(63), 32);
    assert_eq!(triangle_strip_main_seed_vertex(0), 32);
    assert_eq!(triangle_strip_main_seed_vertex(1), 0);
    assert_eq!(triangle_strip_main_seed_vertex(64), 63);
    assert_eq!(triangle_strip_main_seed_vertex(65), 95);
    assert_eq!(triangle_strip_main_vertex(2), 268 + 33);
    assert_eq!(triangle_fan_partition_seed_vertex(8, 9, 5), 2 * 32 + 4 + 1 + 32);
    assert_eq!(triangle_fan_partition_seed_vertex(512, 1, 17), 32 + 16 + 1);
}

#[test]
fn catalogue_ranges_fill_the_buffer_in_slot_order() {
    let catalogue = execution_index_catalogue();
    assert_eq!(catalogue.indices.len(), EXECUTION_INDEX_COUNT);
    assert_eq!(EXECUTION_INDEX_COUNT, 20706);
    assert_eq!(
        catalogue.first_indices,
        [
            0, 1024, 1280, 2304, 2560, 2564, 3588, 3848, 3852, 9618, 9624, 11608, 11614, 18782,
            19806, 20062, 20322
        ]
    );
    assert_eq!(
        catalogue.fan_first_indices,
        [11614, 12638, 13662, 14686, 15710, 16734, 17758]
    );
    assert_eq!(catalogue.fan_index_counts, [1024, 512, 256, 64, 32, 16, 8]);
    assert!(catalogue.indices.iter().all(|&index| (index as usize) < EXECUTION_VERTEX_COUNT));
    let rect_first = catalogue.first_indices[PrimitiveMode::RectList.slot()] as usize;
    for (k, &index) in catalogue.indices[rect_first..].iter().enumerate() {
        assert_eq!(index as usize, RECT_LIST_VERTEX_OFFSET + k);
    }
}

#[test]
fn every_batch_tiles_its_catalogue_range() {
    let catalogue = execution_index_catalogue();
    let colors = [10, 20, 30, 40];
    for mode in PrimitiveMode::ALL {
        let sizes: Vec<usize> = if mode == PrimitiveMode::TriangleFan {
            vec![1024, 512, 256, 64, 32, 16, 8]
        } else {
            vec![1024]
        };
        for (stage, size) in sizes.into_iter().enumerate() {
            let batch = catalogue.draw_batch_with_fan_size(mode, colors, 7, size);
            assert_eq!(batch.clear_rgba8_srgb, 7);
            assert_eq!(batch.draws.len(), batch.draw_count as usize);
            let (start, len) = if mode == PrimitiveMode::TriangleFan {
                (catalogue.fan_first_indices[stage], 1024)
            } else {
                let slot = mode.slot();
                (
                    catalogue.first_indices[slot],
                    if slot + 1 < 17 {
                        catalogue.first_indices[slot + 1] - catalogue.first_indices[slot]
                    } else {
                        EXECUTION_INDEX_COUNT as u32 - catalogue.first_indices[slot]
                    },
                )
            };
            let mut next = start;
            for draw in &batch.draws {
                assert!(draw.index_count > 0);
                assert_eq!(draw.first_index, next);
                assert_eq!(draw.base_vertex, 0);
                assert_eq!(draw.reserved, 0);
                assert_eq!(draw.topology, mode.vgpu_topology());
                next += draw.index_count;
            }
            assert_eq!(next, start + len);
        }
    }
}

#[test]
fn batch_colours_follow_the_palette_rules() {
    let catalogue = execution_index_catalogue();
    let colors = [10, 20, 30, 40];
    let points = catalogue.draw_batch(PrimitiveMode::PointList, colors, 0);
    assert_eq!((points.draws[0].rgba8_srgb, points.draws[1].rgba8_srgb), (20, 10));
    let triangles = catalogue.draw_batch(PrimitiveMode::TriangleList, colors, 0);
    let counts: Vec<u32> = triangles.draws.iter().map(|draw| draw.index_count).collect();
    assert_eq!(counts, vec![1923, 1923, 1920]);
    let rings = catalogue.draw_batch(PrimitiveMode::PointListRings, colors, 0);
    let ring_colors: Vec<u32> = rings.draws.iter().map(|draw| draw.rgba8_srgb).collect();
    assert_eq!(ring_colors, vec![10, 20, 30, 40]);
    let fans = catalogue.draw_batch_with_fan_size(PrimitiveMode::TriangleFan, colors, 0, 256);
    let fan_colors: Vec<u32> = fans.draws.iter().map(|draw| draw.rgba8_srgb).collect();
    assert_eq!(fan_colors, vec![10, 20, 30, 10]);
    assert_eq!(fans.draws[3].first_index, 11614 + 2 * 1024 + 3 * 256);
    let whole = catalogue.draw_batch(PrimitiveMode::TriangleFan, colors, 0);
    assert_eq!(whole.draw_count, 1);
    assert_eq!(whole.draws[0].first_index, 11614);
}

#[test]
fn oversized_fans_give_an_empty_batch() {
    let catalogue = execution_index_catalogue();
    let batch = catalogue.draw_batch_with_fan_size(PrimitiveMode::TriangleFan, [1, 2, 3, 4], 5, 2048);
    assert_eq!(batch.draw_count, 0);
    assert!(batch.draws.is_empty());
    let ordinary = catalogue.draw_batch_with_fan_size(PrimitiveMode::LineList, [1, 2, 3, 4], 5, 0);
    assert_eq!(ordinary.draw_count, 1);
}

#[test]
fn point_list_is_green_red_red_by_ordinal() {
    let catalogue = execution_index_catalogue();
    let indices = &catalogue.indices[..1024];
    let mut seen = [false; 1024];
    for (k, &index) in indices.iter().enumerate() {
        let seed = index as usize - LINE_GRID_VERTEX_OFFSET;
        assert_eq!(seed % 3 == 0, k < 342);
        assert!(!seen[seed]);
        seen[seed] = true;
    }
    assert!(seen.iter().all(|&value| value));
}

#[test]
fn grid_triangles_wind_counter_clockwise() {
    let catalogue = execution_index_catalogue();
    let first = catalogue.first_indices[PrimitiveMode::TriangleList.slot()] as usize;
    let triangles = &catalogue.indices[first..first + 5766];
    let mut seen = std::collections::HashSet::new();
    for corners in triangles.chunks_exact(3) {
        let point = |index: u32| {
            let seed = (index as usize - LINE_GRID_VERTEX_OFFSET) as i64;
            (seed % 32, seed / 32)
        };
        let (a, b, c) = (point(corners[0]), point(corners[1]), point(corners[2]));
        assert!((b.0 - a.0) * (c.1 - a.1) - (b.1 - a.1) * (c.0 - a.0) > 0);
        let mut key = [corners[0], corners[1], corners[2]];
        key.sort();
        assert!(seen.insert(key));
    }
    assert_eq!(seen.len(), 1922);
}

#[test]
fn the_seventeen_labels_are_distinct() {
    let labels: Vec<&str> = PrimitiveMode::ALL.iter().map(|mode| mode.label()).collect();
    assert_eq!(labels.len(), 17);
    for first in 0..labels.len() {
        for second in first + 1..labels.len() {
            assert_ne!(labels[first], labels[second]);
        }
    }
    assert_eq!(PrimitiveMode::PointList.label(), "point-list-grid");
    assert_eq!(PrimitiveMode::TriangleStrip.label(), "triangle-strip");
    assert_eq!(PrimitiveMode::QuadStrip.label(), "quad-strip-two-rings");
    assert_eq!(PrimitiveMode::RectList.label(), "rect-list-two-rings");
}

#[test]
fn fan_seeds_tile_the_plane() {
    assert_eq!(triangle_fan_partition_seed_vertex(8, 9, 5), 101);
    assert_eq!(triangle_fan_partition_seed_vertex(512, 1, 17), 49);
    assert_eq!(triangle_fan_partition_seed_vertex(1024, 0, 1023), 1023);
    let shapes = [
        (1024usize, 32usize, 32usize),
        (512, 16, 32),
        (256, 16, 16),
        (64, 8, 8),
        (32, 8, 4),
        (16, 4, 4),
        (8, 4, 2),
    ];
    for (fan_size, width, height) in shapes {
        let mut seen = vec![false; 1024];
        let tiles_per_row = 32 / width;
        for fan in 0..1024 / fan_size {
            for slot in 0..fan_size {
                let seed = triangle_fan_partition_seed_vertex(fan_size, fan, slot);
                assert!(seed < 1024);
                assert!(!seen[seed]);
                seen[seed] = true;
                let row = (fan / tiles_per_row) * height + slot / width;
                let column = (fan % tiles_per_row) * width + slot % width;
                assert_eq!(seed, row * 32 + column);
            }
        }
        assert!(seen.iter().all(|&hit| hit));
    }
}

#[test]
fn only_keys_that_go_down_are_pressed() {
    let mut previous = [false; 10];
    previous[1] = true;
    previous[2] = true;
    let mut down = [false; 10];
    down[2] = true;
    down[6] = true;
    let pressed = newly_pressed(previous, down);
    for key in 0..10 {
        assert_eq!(pressed[key], key == 6);
    }
    assert_eq!(newly_pressed(down, down), [false; 10]);
    assert_eq!(newly_pressed([false; 10], [true; 10]), [true; 10]);
}
