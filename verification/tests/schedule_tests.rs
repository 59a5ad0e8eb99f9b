use c2m_core::connected_components::{initial_parents, plan_components, Convergence, MAX_ITERATIONS};
use c2m_core::delta_stepping::{
    initial_distance_bits, plan_delta_stepping, BucketSweep, INFINITY_BITS, ZERO_BITS,
};
use c2m_core::launch::{DispatchMode, GridSize};
use c2m_core::pingpong::{Pass, PingPong, Slot};

#[test]
fn pingpong_alternates_and_ends_in_last_written() {
    let mut p = PingPong::new(3);
    assert_eq!(p.result_slot(), Slot::Primary);
    assert_eq!(p.next_pass(), Some(Pass { read: Slot::Primary, write: Slot::Secondary }));
    assert_eq!(p.next_pass(), Some(Pass { read: Slot::Secondary, write: Slot::Primary }));
    let last = p.next_pass().unwrap();
    assert_eq!(last, Pass { read: Slot::Primary, write: Slot::Secondary });
    assert_eq!(p.next_pass(), None);
    assert_eq!(p.result_slot(), last.write);
}

#[test]
fn pingpong_without_passes_keeps_initial_buffer() {
    let mut p = PingPong::new(0);
    assert_eq!(p.next_pass(), None);
    assert_eq!(p.result_slot(), Slot::Primary);
    assert_eq!(Slot::Primary.other().other(), Slot::Primary);
}

#[test]
fn initial_distances_mark_only_the_source() {
    let d = initial_distance_bits(5, 2);
    assert_eq!(d, vec![INFINITY_BITS, INFINITY_BITS, ZERO_BITS, INFINITY_BITS, INFINITY_BITS]);
    assert_eq!(f32::from_bits(d[0]), f32::INFINITY);
    assert_eq!(f32::from_bits(d[2]), 0.0);
}

#[test]
fn sweep_runs_until_bucket_empty() {
    let mut s = BucketSweep::start(5);
    assert_eq!(s.max_passes, 10);
    let r = s.next_relaxation().unwrap();
    assert_eq!((r.read, r.write), (Slot::Primary, Slot::Secondary));
    assert_eq!(r.dispatch.mode, DispatchMode::Threads);
    assert_eq!(r.dispatch.grid, GridSize { width: 1, height: 1, depth: 1 });
    s.record(3);
    let r = s.next_relaxation().unwrap();
    assert_eq!((r.read, r.write), (Slot::Secondary, Slot::Primary));
    assert_eq!(r.dispatch.grid.width, 3);
    assert_eq!(r.dispatch.group.width, 3);
    s.record(0);
    assert_eq!(s.next_relaxation(), None);
    assert_eq!(s.pass, 2);
}

#[test]
fn sweep_stops_at_safety_limit() {
    let mut s = BucketSweep::start(2);
    let mut passes = 0;
    while s.next_relaxation().is_some() {
        s.record(7);
        passes += 1;
    }
    assert_eq!(passes, 4);
}

#[test]
fn sweep_on_single_node_graph() {
    let mut s = BucketSweep::start(1);
    assert!(s.next_relaxation().is_some());
    s.record(1);
    assert!(s.next_relaxation().is_some());
    s.record(1);
    assert!(s.next_relaxation().is_none());
}

#[test]
fn delta_stepping_plan_for_readme_graph() {
    let p = plan_delta_stepping(6, 10, 10, 0);
    assert_eq!(p.num_nodes, 5);
    assert_eq!(p.row_ptr_bytes, 24);
    assert_eq!(p.col_idx_bytes, 40);
    assert_eq!(p.weights_bytes, 40);
    assert_eq!(p.dist_bytes, 20);
    assert_eq!(p.bucket_bytes, 20);
    assert_eq!(p.initial_distances, vec![0, INFINITY_BITS, INFINITY_BITS, INFINITY_BITS, INFINITY_BITS]);
    assert_eq!(p.first_bucket_node, 0);
    assert_eq!(p.sweep, BucketSweep { pass: 0, max_passes: 10, bucket_size: 1, current: Slot::Primary });
    assert_eq!(p.result_len, 5);
}

#[test]
fn initial_forest_is_identity() {
    assert_eq!(initial_parents(4), vec![0, 1, 2, 3]);
    assert_eq!(initial_parents(0), Vec::<u32>::new());
}

#[test]
fn convergence_stops_when_nothing_changes() {
    let mut c = Convergence::start();
    assert!(c.runs());
    c.observe(1);
    assert!(c.runs());
    c.observe(5);
    assert!(c.runs());
    c.observe(0);
    assert!(!c.runs());
    assert_eq!(c.iteration, 2);
}

#[test]
fn convergence_runs_at_most_1001_passes() {
    let mut c = Convergence::start();
    let mut passes = 0u32;
    while c.runs() {
        c.observe(1);
        passes += 1;
    }
    assert_eq!(passes, MAX_ITERATIONS + 1);
    assert_eq!(c.iteration, MAX_ITERATIONS);
}

#[test]
fn components_plan_for_readme_graph() {
    let p = plan_components(6, 10, 5);
    assert_eq!(p.row_ptr_bytes, 24);
    assert_eq!(p.col_idx_bytes, 40);
    assert_eq!(p.parent_bytes, 20);
    assert_eq!(p.initial_parents, vec![0, 1, 2, 3, 4]);
    assert_eq!(p.dispatch.grid.width, 5);
    assert_eq!(p.dispatch.group.width, 5);
    assert_eq!(p.convergence, Convergence { iteration: 0, finished: false });
    assert_eq!(p.result_len, 5);
}
