use simt_index::context::{Dim3, ThreadContext};
use simt_index::space::{BlockSpace, GlobalSpace, Space};

fn ctx(t: (u32, u32, u32), b: (u32, u32, u32), g: (u32, u32, u32), n: (u32, u32, u32)) -> ThreadContext {
    ThreadContext::new(
        Dim3::new(t.0, t.1, t.2),
        Dim3::new(b.0, b.1, b.2),
        Dim3::new(g.0, g.1, g.2),
        Dim3::new(n.0, n.1, n.2),
    )
}

#[test]
fn dim3_keeps_its_components() {
    let d = Dim3::new(4, 5, 6);
    assert_eq!((d.x, d.y, d.z), (4, 5, 6));
}

#[test]
fn context_keeps_its_four_triples() {
    let c = ctx((1, 2, 3), (4, 5, 6), (7, 8, 9), (10, 11, 12));
    assert_eq!(c.thread_idx, Dim3::new(1, 2, 3));
    assert_eq!(c.block_dim, Dim3::new(4, 5, 6));
    assert_eq!(c.block_idx, Dim3::new(7, 8, 9));
    assert_eq!(c.grid_dim, Dim3::new(10, 11, 12));
}

#[test]
fn block_space_reads_thread_and_group_extent() {
    let c = ctx((2, 3, 1), (8, 4, 2), (5, 6, 7), (9, 9, 9));
    assert_eq!(BlockSpace::index_x(&c), 2);
    assert_eq!(BlockSpace::index_y(&c), 3);
    assert_eq!(BlockSpace::index_z(&c), 1);
    assert_eq!(BlockSpace::size_x(&c), 8);
    assert_eq!(BlockSpace::size_y(&c), 4);
    assert_eq!(BlockSpace::size_z(&c), 2);
}

#[test]
fn global_coordinate_is_thread_plus_group_times_extent() {
    let c = ctx((3, 1, 0), (8, 4, 2), (5, 6, 7), (9, 10, 11));
    assert_eq!(GlobalSpace::index_x(&c), 3 + 5 * 8);
    assert_eq!(GlobalSpace::index_y(&c), 1 + 6 * 4);
    assert_eq!(GlobalSpace::index_z(&c), 0 + 7 * 2);
}

#[test]
fn global_extent_is_group_extent_times_group_count() {
    let c = ctx((3, 1, 0), (8, 4, 2), (5, 6, 7), (9, 10, 11));
    assert_eq!(GlobalSpace::size_x(&c), 72);
    assert_eq!(GlobalSpace::size_y(&c), 40);
    assert_eq!(GlobalSpace::size_z(&c), 22);
}

#[test]
fn global_space_survives_the_largest_registers() {
    let m = u32::MAX;
    let c = ctx((m, m, m), (m, m, m), (m, m, m), (m, m, m));
    let wide = m as u64;
    assert_eq!(GlobalSpace::index_x(&c), wide + wide * wide);
    assert_eq!(GlobalSpace::index_y(&c), 18446744069414584320);
    assert_eq!(GlobalSpace::index_z(&c), 18446744069414584320);
    assert_eq!(GlobalSpace::size_x(&c), wide * wide);
    assert_eq!(GlobalSpace::size_y(&c), 18446744065119617025);
    assert_eq!(GlobalSpace::size_z(&c), 18446744065119617025);
}

#[test]
fn global_coordinate_in_the_third_group() {
    let c = ctx((1, 0, 0), (4, 4, 1), (2, 0, 0), (3, 1, 1));
    assert_eq!(GlobalSpace::index_x(&c), 9);
    assert_eq!(GlobalSpace::index_y(&c), 0);
    assert_eq!(GlobalSpace::index_z(&c), 0);
}

#[test]
fn valid_launch_needs_thread_inside_group_and_group_inside_grid() {
    assert!(ctx((7, 3, 0), (8, 4, 1), (2, 0, 0), (3, 1, 1)).is_valid_launch());
    assert!(!ctx((8, 3, 0), (8, 4, 1), (2, 0, 0), (3, 1, 1)).is_valid_launch());
    assert!(!ctx((7, 4, 0), (8, 4, 1), (2, 0, 0), (3, 1, 1)).is_valid_launch());
    assert!(!ctx((7, 3, 1), (8, 4, 1), (2, 0, 0), (3, 1, 1)).is_valid_launch());
    assert!(!ctx((7, 3, 0), (8, 4, 1), (3, 0, 0), (3, 1, 1)).is_valid_launch());
    assert!(!ctx((7, 3, 0), (8, 4, 1), (2, 1, 0), (3, 1, 1)).is_valid_launch());
    assert!(!ctx((7, 3, 0), (8, 4, 1), (2, 0, 1), (3, 1, 1)).is_valid_launch());
    assert!(!ctx((0, 0, 0), (0, 0, 0), (0, 0, 0), (0, 0, 0)).is_valid_launch());
}
