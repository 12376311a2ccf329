use raytracer::{flip_rows, nearest_hit, next_step, render_rows, trace_path};
use raytracer::{AspectRatio, Ending, Hop, Step, Surface};
use std::cell::Cell;

#[test]
fn aspect_ratio_keeps_its_parts() {
    let a = AspectRatio::new(16, 9);
    assert_eq!(a.w, 16);
    assert_eq!(a.h, 9);
}

#[test]
fn height_of_two_to_one_image() {
    assert_eq!(AspectRatio::new(2, 1).calc_height(600), 300);
}

#[test]
fn height_cuts_width_into_whole_multiples() {
    assert_eq!(AspectRatio::new(16, 9).calc_height(100), 54);
    assert_eq!(AspectRatio::new(4, 3).calc_height(3), 0);
}

#[test]
fn nearest_of_two_overlapping_hits() {
    assert_eq!(nearest_hit(&vec![Some(9), Some(4)]), Some(1));
    assert_eq!(nearest_hit(&vec![Some(4), Some(9)]), Some(0));
}

#[test]
fn nearest_skips_primitives_without_hit() {
    assert_eq!(nearest_hit(&vec![None, Some(7), None, Some(2), Some(5)]), Some(3));
}

#[test]
fn nearest_of_equal_hits_is_the_later() {
    assert_eq!(nearest_hit(&vec![Some(3), Some(3), Some(8)]), Some(1));
}

#[test]
fn no_hit_in_empty_scene() {
    assert_eq!(nearest_hit(&vec![]), None);
}

#[test]
fn no_hit_when_every_primitive_misses() {
    assert_eq!(nearest_hit(&vec![None, None]), None);
}

#[test]
fn nearest_hit_orders_float_distances_by_bits() {
    let ts: [f32; 3] = [2.5, 0.75, 1.0];
    let keys: Vec<Option<u32>> = ts.iter().map(|t| Some(t.to_bits())).collect();
    assert_eq!(nearest_hit(&keys), Some(1));
}

#[test]
fn flip_reverses_rows() {
    let rows = vec![vec![1, 2], vec![3, 4], vec![5, 6]];
    assert_eq!(flip_rows(rows), vec![vec![5, 6], vec![3, 4], vec![1, 2]]);
}

#[test]
fn flip_of_empty_buffer() {
    let rows: Vec<Vec<u8>> = vec![];
    assert!(flip_rows(rows).is_empty());
}

#[test]
fn render_rows_puts_bottom_row_last() {
    let grid = render_rows(3, 2, |x, y| (x, y));
    assert_eq!(
        grid,
        vec![vec![(0, 1), (1, 1), (2, 1)], vec![(0, 0), (1, 0), (2, 0)]]
    );
}

#[test]
fn render_rows_visits_bottom_row_first() {
    let count = Cell::new(0usize);
    let grid = render_rows(2, 2, |_, _| {
        let n = count.get();
        count.set(n + 1);
        n
    });
    assert_eq!(grid, vec![vec![2, 3], vec![0, 1]]);
}

#[test]
fn step_after_miss_sees_sky() {
    assert_eq!(next_step(3, 50, Surface::Missed), Step::Sky { bounces: 3 });
}

#[test]
fn step_after_absorption_is_black() {
    assert_eq!(next_step(0, 50, Surface::Absorbed), Step::Black);
}

#[test]
fn step_after_scatter_bounces() {
    assert_eq!(next_step(0, 50, Surface::Scattered), Step::Trace { depth: 1 });
}

#[test]
fn step_at_depth_cap_is_black() {
    assert_eq!(next_step(49, 50, Surface::Scattered), Step::Black);
}

#[test]
fn path_that_misses_ends_in_sky() {
    match trace_path(7u32, 50, |_| Hop::Missed) {
        Ending::Sky { ray, bounces } => {
            assert_eq!(ray, 7);
            assert_eq!(bounces, 0);
        }
        Ending::Black => panic!("expected sky"),
    }
}

#[test]
fn path_bounces_until_it_leaves() {
    let end = trace_path(0u32, 50, |r| if *r < 4 { Hop::Scattered(*r + 1) } else { Hop::Missed });
    match end {
        Ending::Sky { ray, bounces } => {
            assert_eq!(ray, 4);
            assert_eq!(bounces, 4);
        }
        Ending::Black => panic!("expected sky"),
    }
}

#[test]
fn absorbed_path_is_black() {
    let end = trace_path(0u32, 50, |r| if *r < 2 { Hop::Scattered(*r + 1) } else { Hop::Absorbed });
    assert!(matches!(end, Ending::Black));
}

#[test]
fn endless_path_stops_at_depth_cap() {
    let calls = Cell::new(0u32);
    let end = trace_path(0u32, 50, |r| {
        calls.set(calls.get() + 1);
        Hop::Scattered(*r + 1)
    });
    assert!(matches!(end, Ending::Black));
    assert_eq!(calls.get(), 50);
}
