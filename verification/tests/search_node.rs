use rarog::node::{
    stored_bound,
    NodeEntry, node_entry,
    MoveLoop, record_move, start_move_loop,
    forward_pruning_applies, iir_depth, needs_check_test, null_move_allowed, pruning_permissions,
    selectivity_move_index, shallow_pruning_applies,
    Bound, SingularOutcome, capture_futility_prune, capture_history_prune, capture_see_threshold,
    correction_magnitude, cutoff_bonus_pct, futility_margin, is_improving, is_reducible,
    late_move_prune, mate_distance_window, needs_full_depth_research, needs_pv_research,
    no_move_score, node_bound, null_move_reduction, null_move_result, null_move_threshold_met,
    null_verify_depth, probcut_cutoff_score, probcut_move_cap, probcut_see_threshold,
    quiet_futility_prune, quiet_history_prune, quiet_see_threshold, razor_drop,
    reverse_futility_cut, singular_beta, singular_depth, singular_outcome, updates_correction,
};

const MATE: i32 = 32_000;
const MAX_PLY: i32 = 128;
const NONE: i32 = 32_002;

#[test]
fn mate_distance_narrows_the_window() {
    assert_eq!(mate_distance_window(-40_000, 40_000, 3, MATE), (-31_997, 31_996, false));
    assert_eq!(mate_distance_window(-50, 60, 3, MATE), (-50, 60, false));
    assert_eq!(mate_distance_window(31_997, 40_000, 3, MATE), (31_997, 31_996, true));
    assert_eq!(no_move_score(true, 7, MATE), -31_993);
    assert_eq!(no_move_score(false, 7, MATE), 0);
}

#[test]
fn node_evaluation_inputs() {
    assert_eq!(correction_magnitude(120, 100, 120, NONE, false), 20);
    assert_eq!(correction_magnitude(80, 100, 80, NONE, true), 20);
    assert_eq!(correction_magnitude(80, 100, 150, NONE, true), 0);
    assert_eq!(correction_magnitude(80, 100, 150, NONE, false), 20);
    assert_eq!(correction_magnitude(NONE, NONE, NONE, NONE, false), 0);
    assert!(is_improving(false, 50, Some(40), NONE));
    assert!(!is_improving(false, 40, Some(40), NONE));
    assert!(!is_improving(false, 50, Some(NONE), NONE));
    assert!(!is_improving(true, 50, Some(40), NONE));
    assert!(!is_improving(false, 50, None, NONE));
}

#[test]
fn forward_pruning_margins_and_tests() {
    // (70 + 30 * 1) * 5 + (40 * 3) / 128 = 500 + 0
    assert_eq!(futility_margin(5, false, 40, 70, 30, 3), 500);
    // (70 + 0) * 5 + (200 * 3) / 128 = 350 + 4
    assert_eq!(futility_margin(5, true, 200, 70, 30, 3), 354);
    assert!(reverse_futility_cut(8, 700, 200, 500));
    assert!(!reverse_futility_cut(9, 700, 200, 500));
    assert!(!reverse_futility_cut(8, 699, 200, 500));
    assert!(razor_drop(3, -500, 0, 150));
    assert!(!razor_drop(3, -450, 0, 150));
    assert!(!razor_drop(4, -5000, 0, 150));
    assert!(null_move_threshold_met(6, 100, 200, 15, 20, true));
    assert!(!null_move_threshold_met(6, 89, 200, 15, 20, true));
    assert!(!null_move_threshold_met(2, 1000, 200, 15, 20, false));
}

#[test]
fn null_move_reduction_and_result() {
    assert_eq!(null_move_reduction(8, 100, 100), 6);
    assert_eq!(null_move_reduction(8, 499, 100), 7);
    assert_eq!(null_move_reduction(13, 2000, 100), 10);
    assert_eq!(null_move_reduction(8, -50, 100), 6);
    assert_eq!(null_move_result(31_900, 150, MATE, MAX_PLY), 150);
    assert_eq!(null_move_result(400, 150, MATE, MAX_PLY), 400);
    assert_eq!(null_verify_depth(12, 7), Some(5));
    assert_eq!(null_verify_depth(12, 20), Some(1));
    assert_eq!(null_verify_depth(9, 4), None);
}

#[test]
fn probcut_thresholds() {
    assert_eq!(probcut_see_threshold(300, 100, 50), 100);
    assert_eq!(probcut_see_threshold(300, 500, 50), 0);
    assert_eq!(probcut_see_threshold(301, 100, 50), 100);
    assert_eq!(probcut_move_cap(8, 4, true), 12);
    assert_eq!(probcut_move_cap(8, 4, false), 8);
    assert_eq!(probcut_cutoff_score(450, 350, 150), 250);
}

#[test]
fn shallow_move_pruning() {
    assert!(late_move_prune(true, 10, 0, false, 0, 100, 50));
    // margin (100 + 50) * 2 = 300; -400 + 300 <= -100
    assert!(late_move_prune(false, 2, -400, false, -100, 100, 50));
    assert!(!late_move_prune(false, 2, -399, false, -100, 100, 50));
    assert!(!late_move_prune(false, 4, -4000, false, -100, 100, 50));
    assert!(quiet_history_prune(2, -9001, 4, 3000));
    assert!(!quiet_history_prune(2, -9000, 4, 3000));
    assert!(!quiet_history_prune(4, -90000, 4, 3000));
    // -300 + 100 + 80 * 1 + (50 * 3) / 128 = -119 <= -100
    assert!(quiet_futility_prune(1, -300, 50, 0, -100, 8, 100, 80, 3, 5000));
    assert!(!quiet_futility_prune(1, -300, 50, 6000, -100, 8, 100, 80, 3, 5000));
    assert!(!quiet_futility_prune(8, -3000, 50, 0, -100, 8, 100, 80, 3, 5000));
    assert_eq!(quiet_see_threshold(3, 30, 200), -200);
    assert_eq!(quiet_see_threshold(2, 30, 200), -120);
    assert!(capture_history_prune(0, -1));
    assert!(!capture_history_prune(1, -1));
    assert!(!capture_history_prune(0, 0));
    assert!(capture_futility_prune(2, -1000, 320, 0, 6, 200, 100));
    assert!(!capture_futility_prune(2, -600, 320, 0, 6, 200, 100));
    // -(20 * 4) - (-100 / 8) = -80 + 12 = -68
    assert_eq!(capture_see_threshold(4, -100, 20, 300), -68);
    // -(20 * 4) - (100 / 8) = -80 - 12 = -92
    assert_eq!(capture_see_threshold(4, 100, 20, 300), -92);
    assert_eq!(capture_see_threshold(40, 0, 20, 300), -300);
}

#[test]
fn singular_extensions() {
    assert_eq!(singular_beta(500, 2, 10), 480);
    assert_eq!(singular_depth(10), 4);
    assert_eq!(singular_depth(0), 0);
    assert_eq!(
        singular_outcome(400, 480, 600, 500, false, 20),
        SingularOutcome::Extend { extension: 2, singular: true }
    );
    assert_eq!(
        singular_outcome(400, 480, 600, 500, true, 20),
        SingularOutcome::Extend { extension: 1, singular: true }
    );
    assert_eq!(
        singular_outcome(470, 480, 600, 500, false, 20),
        SingularOutcome::Extend { extension: 1, singular: true }
    );
    assert_eq!(singular_outcome(700, 650, 600, 700, false, 20), SingularOutcome::MultiCut(650));
    assert_eq!(
        singular_outcome(550, 480, 450, 500, false, 20),
        SingularOutcome::MultiCut(480)
    );
    assert_eq!(
        singular_outcome(550, 480, 500, 500, false, 20),
        SingularOutcome::Extend { extension: -1, singular: false }
    );
    assert_eq!(
        singular_outcome(550, 480, 600, 500, false, 20),
        SingularOutcome::Extend { extension: 0, singular: false }
    );
}

#[test]
fn late_move_reductions() {
    assert!(is_reducible(3, 2, false, true, false, 0, 0, 0, false, false, false, false));
    assert!(!is_reducible(3, 2, true, true, false, 0, 0, 0, false, false, false, false));
    assert!(is_reducible(3, 4, true, true, false, 0, 0, 0, false, false, false, false));
    assert!(!is_reducible(2, 9, false, true, false, 0, 0, 0, false, false, false, false));
    assert!(!is_reducible(6, 9, false, false, false, 100, 320, 0, false, false, false, false));
    assert!(is_reducible(6, 9, false, false, false, -400, 320, 0, false, false, false, false));
    assert!(is_reducible(6, 9, false, false, true, 100, 320, 0, false, false, false, false));
    assert!(is_reducible(6, 9, false, false, false, 100, 320, 0, true, false, false, false));
    assert!(!is_reducible(6, 9, false, true, false, 0, 0, 0, false, true, false, false));
    assert!(!is_reducible(6, 9, false, true, false, 0, 0, 0, false, false, true, false));
    assert!(!is_reducible(6, 9, false, true, false, 0, 0, 0, false, false, false, true));
    assert!(needs_full_depth_research(2, 51, 50));
    assert!(!needs_full_depth_research(0, 51, 50));
    assert!(!needs_full_depth_research(2, 50, 50));
    assert!(needs_pv_research(true, 60, 50, 100, false));
    assert!(!needs_pv_research(true, 100, 50, 100, false));
    assert!(needs_pv_research(true, 100, 50, 100, true));
    assert!(!needs_pv_research(false, 60, 50, 100, false));
}

#[test]
fn node_results() {
    assert_eq!(node_bound(51, 50), Bound::Exact);
    assert_eq!(node_bound(50, 50), Bound::Upper);
    assert!(updates_correction(false, 100, NONE, 150, MATE, MAX_PLY, Bound::Exact));
    assert!(updates_correction(false, 100, NONE, 50, MATE, MAX_PLY, Bound::Upper));
    assert!(!updates_correction(false, 100, NONE, 150, MATE, MAX_PLY, Bound::Upper));
    assert!(!updates_correction(true, 100, NONE, 150, MATE, MAX_PLY, Bound::Exact));
    assert!(!updates_correction(false, NONE, NONE, 150, MATE, MAX_PLY, Bound::Exact));
    assert!(!updates_correction(false, 100, NONE, 31_900, MATE, MAX_PLY, Bound::Exact));
    assert!(!updates_correction(false, 100, NONE, -31_900, MATE, MAX_PLY, Bound::Exact));
    assert!(updates_correction(false, 100, NONE, 150, MATE, MAX_PLY, Bound::Lower));
    assert!(!updates_correction(false, 100, NONE, 100, MATE, MAX_PLY, Bound::Lower));
    assert!(!updates_correction(false, 100, NONE, 31_900, MATE, MAX_PLY, Bound::Lower));
    assert!(!updates_correction(true, 100, NONE, 150, MATE, MAX_PLY, Bound::Lower));
    assert!(updates_correction(false, 0, -32_001, 100, 32_000, 246, Bound::Lower));
    assert_eq!(stored_bound(150, 50, true), Bound::Lower);
    assert_eq!(stored_bound(51, 50, false), Bound::Exact);
    assert_eq!(stored_bound(50, 50, false), Bound::Upper);
    assert_eq!(cutoff_bonus_pct(100, NONE, 200, 150), 150);
    assert_eq!(cutoff_bonus_pct(300, NONE, 200, 150), 100);
    assert_eq!(cutoff_bonus_pct(NONE, NONE, 200, 150), 100);
}

#[test]
fn node_gates() {
    assert_eq!(iir_depth(true, 6, false, false, true, false), 5);
    assert_eq!(iir_depth(true, 6, false, true, false, true), 5);
    assert_eq!(iir_depth(true, 6, false, true, true, true), 6);
    assert_eq!(iir_depth(true, 3, false, false, false, false), 3);
    assert_eq!(iir_depth(false, 6, false, false, false, false), 6);
    assert_eq!(iir_depth(true, 6, true, false, false, false), 6);

    assert_eq!(pruning_permissions(false, false, false, false, false), (true, true, true, true));
    assert_eq!(pruning_permissions(true, false, true, false, false), (false, true, false, false));
    assert!(forward_pruning_applies((false, true, false, false), false, false));
    assert!(!forward_pruning_applies((false, false, false, false), false, false));
    assert!(!forward_pruning_applies((true, true, true, true), true, false));
    assert!(!forward_pruning_applies((true, true, true, true), false, true));

    let all = |nesting, singular| {
        null_move_allowed(true, true, true, true, nesting, false, false, true, 6, true, singular, true, true)
    };
    assert!(all(0, false));
    assert!(!all(1, false));
    assert!(!all(0, true));
    assert!(!null_move_allowed(true, true, true, false, 0, true, false, false, 6, true, false, true, true));
    assert!(null_move_allowed(true, true, true, false, 3, true, true, false, 6, true, true, true, true));
    assert!(!null_move_allowed(true, true, true, false, 0, false, false, false, 6, false, false, true, false));

    assert!(shallow_pruning_applies(false, 1, 0, MATE, MAX_PLY, true));
    assert!(!shallow_pruning_applies(false, 0, 0, MATE, MAX_PLY, true));
    assert!(!shallow_pruning_applies(false, 1, -31_900, MATE, MAX_PLY, true));
    assert!(!shallow_pruning_applies(false, 1, 0, MATE, MAX_PLY, false));
    assert!(!shallow_pruning_applies(true, 1, 0, MATE, MAX_PLY, true));

    assert_eq!(selectivity_move_index(true, 5, 2), 4);
    assert_eq!(selectivity_move_index(false, 5, 2), 2);
    assert!(needs_check_test(3, 2, true, 0, false));
    assert!(needs_check_test(3, 2, false, -1, false));
    assert!(!needs_check_test(3, 2, false, 0, false));
    assert!(!needs_check_test(3, 1, true, 0, false));
    assert!(!needs_check_test(3, 2, true, 0, true));
}

#[test]
fn move_loop_keeps_best_and_alpha() {
    let mut l = start_move_loop(10, 32_001);
    assert_eq!(l, MoveLoop { best_score: -32_001, best_move: None, alpha: 10, searched: 0 });
    assert!(!record_move(&mut l, 0, 5, 100));
    assert_eq!(l, MoveLoop { best_score: 5, best_move: Some(0), alpha: 10, searched: 1 });
    assert!(!record_move(&mut l, 1, 40, 100));
    assert_eq!(l, MoveLoop { best_score: 40, best_move: Some(1), alpha: 40, searched: 2 });
    assert!(!record_move(&mut l, 2, 30, 100));
    assert_eq!(l, MoveLoop { best_score: 40, best_move: Some(1), alpha: 40, searched: 3 });
    assert!(record_move(&mut l, 3, 120, 100));
    assert_eq!(l, MoveLoop { best_score: 120, best_move: Some(3), alpha: 120, searched: 4 });
}

#[test]
fn node_entry_checks_in_order() {
    assert_eq!(node_entry(true, 5, MAX_PLY, true, -100, 100, 4, MATE), NodeEntry::Stopped);
    assert_eq!(node_entry(false, 127, MAX_PLY, true, -100, 100, 4, MATE), NodeEntry::StaticEval);
    assert_eq!(node_entry(false, 5, MAX_PLY, true, -100, 100, 4, MATE), NodeEntry::Draw);
    assert_eq!(
        node_entry(false, 0, MAX_PLY, true, -100, 100, 4, MATE),
        NodeEntry::Search { alpha: -100, beta: 100 }
    );
    assert_eq!(
        node_entry(false, 5, MAX_PLY, false, -40_000, 40_000, 0, MATE),
        NodeEntry::Quiescence { alpha: -31_995, beta: 31_994 }
    );
    assert_eq!(
        node_entry(false, 5, MAX_PLY, false, 31_995, 40_000, 3, MATE),
        NodeEntry::MateCut(31_995)
    );
}
