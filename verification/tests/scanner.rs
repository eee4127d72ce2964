use msym::scan::{found_symmetric, ScanState};
use msym::site::{Counts, Site, Strand};

fn cpg(position: u64, strand: Strand, methylated: u64, unmethylated: u64) -> Site {
    Site::new(position, strand, true, Counts::new(methylated, unmethylated))
}

fn other(position: u64, strand: Strand, methylated: u64, unmethylated: u64) -> Site {
    Site::new(position, strand, false, Counts::new(methylated, unmethylated))
}

#[test]
fn found_symmetric_takes_forward_then_reverse_one_apart() {
    let prev = cpg(10, Strand::Forward, 3, 5);
    let curr = cpg(11, Strand::Reverse, 2, 6);
    assert!(found_symmetric(&prev, &curr));
}

#[test]
fn found_symmetric_refuses_reverse_then_forward() {
    let prev = cpg(10, Strand::Reverse, 3, 5);
    let curr = cpg(11, Strand::Forward, 2, 6);
    assert!(!found_symmetric(&prev, &curr));
}

#[test]
fn found_symmetric_refuses_the_same_strand_twice() {
    assert!(!found_symmetric(&cpg(10, Strand::Forward, 1, 1), &cpg(11, Strand::Forward, 1, 1)));
    assert!(!found_symmetric(&cpg(10, Strand::Reverse, 1, 1), &cpg(11, Strand::Reverse, 1, 1)));
}

#[test]
fn found_symmetric_wants_a_distance_of_exactly_one() {
    let prev = cpg(10, Strand::Forward, 1, 1);
    assert!(!found_symmetric(&prev, &cpg(10, Strand::Reverse, 1, 1)));
    assert!(!found_symmetric(&prev, &cpg(12, Strand::Reverse, 1, 1)));
    assert!(!found_symmetric(&prev, &cpg(9, Strand::Reverse, 1, 1)));
    assert!(found_symmetric(&prev, &cpg(11, Strand::Reverse, 1, 1)));
}

#[test]
fn found_symmetric_does_not_look_at_the_class() {
    let prev = other(10, Strand::Forward, 1, 1);
    let curr = other(11, Strand::Reverse, 1, 1);
    assert!(found_symmetric(&prev, &curr));
}

#[test]
fn found_symmetric_at_the_last_position() {
    let last = cpg(u64::MAX, Strand::Forward, 1, 1);
    assert!(!found_symmetric(&last, &cpg(0, Strand::Reverse, 1, 1)));
    assert!(!found_symmetric(&last, &cpg(u64::MAX, Strand::Reverse, 1, 1)));
    let before_last = cpg(u64::MAX - 1, Strand::Forward, 1, 1);
    assert!(found_symmetric(&before_last, &cpg(u64::MAX, Strand::Reverse, 1, 1)));
}

#[test]
fn a_new_state_retains_nothing() {
    let state = ScanState::new();
    assert_eq!(state.prior(), None);
    assert!(!state.prior_is_cpg());
}

#[test]
fn the_first_record_is_never_answered() {
    for first in [
        cpg(0, Strand::Forward, 1, 1),
        cpg(1, Strand::Reverse, 1, 1),
        cpg(11, Strand::Reverse, 2, 6),
        other(1, Strand::Reverse, 1, 1),
    ] {
        let mut state = ScanState::new();
        assert!(state.accepts(&first));
        assert_eq!(state.step(first), None);
        assert_eq!(state.prior(), Some(first));
        assert_eq!(state.prior_is_cpg(), first.is_cpg);
    }
}

#[test]
fn step_merges_forward_and_reverse_halves() {
    let mut state = ScanState::new();
    assert_eq!(state.step(cpg(10, Strand::Forward, 3, 5)), None);
    assert_eq!(
        state.step(cpg(11, Strand::Reverse, 2, 6)),
        Some(cpg(10, Strand::Forward, 5, 11))
    );
}

#[test]
fn step_retains_the_record_as_it_came_in() {
    let forward = cpg(10, Strand::Forward, 3, 5);
    let reverse = cpg(11, Strand::Reverse, 2, 6);
    let mut state = ScanState::new();
    state.step(forward);
    assert_eq!(state.prior(), Some(forward));
    let emitted = state.step(reverse);
    assert!(emitted.is_some());
    assert_eq!(state.prior(), Some(reverse));
    assert!(state.prior_is_cpg());
}

#[test]
fn step_tracks_the_class_of_the_last_record() {
    let mut state = ScanState::new();
    state.step(cpg(10, Strand::Forward, 1, 1));
    assert!(state.prior_is_cpg());
    state.step(other(11, Strand::Reverse, 1, 1));
    assert!(!state.prior_is_cpg());
    state.step(cpg(12, Strand::Reverse, 1, 1));
    assert!(state.prior_is_cpg());
}

#[test]
fn step_ignores_a_pair_whose_first_half_is_no_cpg() {
    let mut state = ScanState::new();
    assert_eq!(state.step(other(10, Strand::Forward, 3, 5)), None);
    assert_eq!(state.step(cpg(11, Strand::Reverse, 2, 6)), None);
}

#[test]
fn step_ignores_a_pair_whose_second_half_is_no_cpg() {
    let mut state = ScanState::new();
    assert_eq!(state.step(cpg(10, Strand::Forward, 3, 5)), None);
    assert_eq!(state.step(other(11, Strand::Reverse, 2, 6)), None);
}

#[test]
fn step_does_not_look_past_the_last_record() {
    let mut state = ScanState::new();
    assert_eq!(state.step(cpg(10, Strand::Forward, 3, 5)), None);
    assert_eq!(state.step(other(10, Strand::Forward, 0, 0)), None);
    assert_eq!(state.step(cpg(11, Strand::Reverse, 2, 6)), None);
}

#[test]
fn step_does_not_chain_onto_a_merged_pair() {
    let mut state = ScanState::new();
    assert_eq!(state.step(cpg(10, Strand::Forward, 1, 2)), None);
    assert_eq!(
        state.step(cpg(11, Strand::Reverse, 3, 4)),
        Some(cpg(10, Strand::Forward, 4, 6))
    );
    assert_eq!(state.step(cpg(12, Strand::Forward, 5, 6)), None);
    assert_eq!(state.prior(), Some(cpg(12, Strand::Forward, 5, 6)));
    assert_eq!(
        state.step(cpg(13, Strand::Reverse, 7, 8)),
        Some(cpg(12, Strand::Forward, 12, 14))
    );
}

#[test]
fn accepts_refuses_only_a_pair_whose_tallies_leave_the_range() {
    let mut state = ScanState::new();
    let forward = cpg(10, Strand::Forward, u64::MAX, 0);
    assert!(state.accepts(&forward));
    state.step(forward);
    assert!(!state.accepts(&cpg(11, Strand::Reverse, 1, 0)));
    assert!(state.accepts(&cpg(11, Strand::Reverse, 0, 7)));
    assert!(state.accepts(&cpg(12, Strand::Reverse, 1, 0)));
    assert!(state.accepts(&cpg(11, Strand::Forward, 1, 0)));
    assert!(state.accepts(&other(11, Strand::Reverse, 1, 0)));
}

#[test]
fn accepts_leaves_the_state_as_it_is() {
    let mut state = ScanState::new();
    let forward = cpg(10, Strand::Forward, 3, 5);
    state.step(forward);
    assert!(state.accepts(&cpg(11, Strand::Reverse, 2, 6)));
    assert_eq!(state.prior(), Some(forward));
    assert!(state.prior_is_cpg());
}

#[test]
fn step_merges_up_to_the_largest_tally() {
    let mut state = ScanState::new();
    state.step(cpg(u64::MAX - 1, Strand::Forward, u64::MAX - 2, 1));
    let reverse = cpg(u64::MAX, Strand::Reverse, 2, u64::MAX - 1);
    assert!(state.accepts(&reverse));
    assert_eq!(
        state.step(reverse),
        Some(cpg(u64::MAX - 1, Strand::Forward, u64::MAX, u64::MAX))
    );
}
