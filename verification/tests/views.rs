use simt_index::context::{Dim3, ThreadContext};
use simt_index::presence::{
    AllPresent, MissingX, MissingXType, MissingXYType, MissingXYZType, MissingXZType, MissingY,
    MissingYType, MissingYZType, MissingZ, MissingZType,
};
use simt_index::projection::{IndexSource, X, XY, XYZ};
use simt_index::space::{BlockSpace, GlobalSpace};
use simt_index::view::SimtArr;

struct Rank1;
struct Rank3;

fn launch(t: (u32, u32, u32), g: (u32, u32, u32)) -> ThreadContext {
    ThreadContext::new(
        Dim3::new(t.0, t.1, t.2),
        Dim3::new(2, 3, 2),
        Dim3::new(g.0, g.1, g.2),
        Dim3::new(2, 1, 2),
    )
}

#[test]
fn view_reports_its_length() {
    let arr: SimtArr<f32, Rank1, X<BlockSpace>> = SimtArr::new(16);
    assert_eq!(arr.len(), 16);
    let none: SimtArr<u8, Rank1, X<BlockSpace>> = SimtArr::new(0);
    assert_eq!(none.len(), 0);
}

#[test]
fn view_hands_out_the_projected_slot() {
    let arr: SimtArr<f32, Rank3, XY<BlockSpace>> = SimtArr::new(64);
    let c = ThreadContext::new(
        Dim3::new(2, 3, 0),
        Dim3::new(8, 8, 1),
        Dim3::new(0, 0, 0),
        Dim3::new(1, 1, 1),
    );
    assert_eq!(arr.index(&c), 26);
    assert_eq!(arr.try_index(&c), Some(26));
}

#[test]
fn checked_slot_stops_at_the_end_of_the_region() {
    let c = ThreadContext::new(
        Dim3::new(2, 3, 0),
        Dim3::new(8, 8, 1),
        Dim3::new(0, 0, 0),
        Dim3::new(1, 1, 1),
    );
    let exact: SimtArr<f32, Rank3, XY<BlockSpace>> = SimtArr::new(27);
    assert_eq!(exact.try_index(&c), Some(26));
    let short: SimtArr<f32, Rank3, XY<BlockSpace>> = SimtArr::new(26);
    assert_eq!(short.try_index(&c), None);
    let empty: SimtArr<f32, Rank3, XY<BlockSpace>> = SimtArr::new(0);
    assert_eq!(empty.try_index(&c), None);
}

#[test]
fn checked_slot_refuses_an_offset_too_wide_to_form() {
    let m = u32::MAX;
    let c = ThreadContext::new(
        Dim3::new(m, m, m),
        Dim3::new(m, m, m),
        Dim3::new(m, m, m),
        Dim3::new(m, m, m),
    );
    let arr: SimtArr<u8, Rank3, XYZ<GlobalSpace>> = SimtArr::new(usize::MAX);
    assert_eq!(arr.try_index(&c), None);
}

#[test]
fn every_thread_of_a_launch_owns_its_own_slot() {
    // groups of 2 x 3 x 2 threads, 2 x 1 x 2 groups: 4 x 3 x 4 = 48 threads
    let arr: SimtArr<f32, Rank3, XYZ<GlobalSpace>> = SimtArr::new(48);
    let mut seen = vec![false; 48];
    for gz in 0..2 {
        for gx in 0..2 {
            for tz in 0..2 {
                for ty in 0..3 {
                    for tx in 0..2 {
                        let c = launch((tx, ty, tz), (gx, 0, gz));
                        assert!(c.is_valid_launch());
                        let slot = arr.try_index(&c).unwrap();
                        assert_eq!(slot, arr.index(&c));
                        assert_eq!(slot as u64, XYZ::<GlobalSpace>::produce_index(&c));
                        assert!(slot < 48);
                        assert!(!seen[slot]);
                        seen[slot] = true;
                    }
                }
            }
        }
    }
    assert!(seen.iter().all(|s| *s));
}

#[test]
fn binding_three_axes_in_any_order_reaches_the_final_state() {
    let a: AllPresent = MissingXYZType.assoc_x().assoc_y().assoc_z();
    let b: AllPresent = MissingXYZType.assoc_z().assoc_x().assoc_y();
    let c: AllPresent = MissingXYZType.assoc_y().assoc_z().assoc_x();
    let arr: SimtArr<f32, Rank3, XYZ<BlockSpace>> = SimtArr::new(8);
    let ctx = launch((1, 0, 0), (0, 0, 0));
    assert_eq!(a.index(&arr, &ctx), 1);
    assert_eq!(b.index(&arr, &ctx), 1);
    assert_eq!(c.index(&arr, &ctx), 1);
}

#[test]
fn binding_steps_remove_one_axis_each() {
    let _: MissingYZType = MissingXYZType.assoc_x();
    let _: MissingXZType = MissingXYZType.assoc_y();
    let _: MissingXYType = MissingXYZType.assoc_z();
    let _: MissingYType = MissingXYType.assoc_x();
    let _: MissingXType = MissingXYType.assoc_y();
    let _: MissingZType = MissingXZType.assoc_x();
    let _: MissingXType = MissingXZType.assoc_z();
    let _: MissingZType = MissingYZType.assoc_y();
    let _: MissingYType = MissingYZType.assoc_z();
    let _: AllPresent = MissingXType.assoc_x();
    let _: AllPresent = MissingYType.assoc_y();
    let _: AllPresent = MissingZType.assoc_z();
}

#[test]
fn final_state_guards_the_slot_of_a_one_axis_view() {
    let arr: SimtArr<u32, Rank1, X<GlobalSpace>> = SimtArr::new(12);
    let ctx = ThreadContext::new(
        Dim3::new(1, 0, 0),
        Dim3::new(4, 4, 1),
        Dim3::new(2, 0, 0),
        Dim3::new(3, 1, 1),
    );
    let bound = MissingXType.assoc_x();
    assert_eq!(bound.index(&arr, &ctx), 9);
}
