//! The decisions of one node of the alpha-beta search: the mate-distance
//! window, forward pruning (reverse futility, razoring, null move, ProbCut),
//! shallow-depth move pruning, singular extensions, late-move reductions and
//! how the node's result is classified. Board work, transposition table and
//! histories stay with the caller, which hands the values in and acts on the
//! answers. Scores and depths are `i32`, as the search keeps them; every
//! sum the search forms must stay within `i32`.
use vstd::prelude::*;

verus! {

/// The value is representable as an `i32`.
pub open spec fn fits_i32(x: int) -> bool {
    i32::MIN <= x <= i32::MAX
}

/// Integer division rounding toward zero, as `/` does on `i32`, for a
/// positive divisor.
pub open spec fn div_trunc(a: int, b: int) -> int {
    if a >= 0 {
        a / b
    } else {
        -((-a) / b)
    }
}

pub open spec fn max_int(a: int, b: int) -> int {
    if a >= b {
        a
    } else {
        b
    }
}

pub open spec fn min_int(a: int, b: int) -> int {
    if a <= b {
        a
    } else {
        b
    }
}

pub open spec fn clamp_int(x: int, lo: int, hi: int) -> int {
    if x < lo {
        lo
    } else if x > hi {
        hi
    } else {
        x
    }
}

/// 1 for an improving node, else 0.
pub open spec fn flag(b: bool) -> int {
    if b {
        1
    } else {
        0
    }
}

// ---------------------------------------------------------------- window

/// A mate found `ply` moves from the root cannot be bettered, so the window
/// is narrowed to `[-mate + ply, mate - ply - 1]`. Returns the new bounds and
/// whether the window closed, in which case the node returns the new alpha.
pub open spec fn mate_distance_window_spec(alpha: int, beta: int, ply: int, mate_score: int) -> (
    int,
    int,
    bool,
) {
    let a = max_int(alpha, -mate_score + ply);
    let b = min_int(beta, mate_score - ply - 1);
    (a, b, a >= b)
}

pub fn mate_distance_window(alpha: i32, beta: i32, ply: i32, mate_score: i32) -> (r: (
    i32,
    i32,
    bool,
))
    requires
        fits_i32(-mate_score),
        fits_i32(-mate_score + ply),
        fits_i32(mate_score - ply),
        fits_i32(mate_score - ply - 1),
    ensures
        (r.0 as int, r.1 as int, r.2) == mate_distance_window_spec(
            alpha as int,
            beta as int,
            ply as int,
            mate_score as int,
        ),
{
    let mate_alpha = -mate_score + ply;
    let mate_beta = mate_score - ply - 1;
    let a = if alpha >= mate_alpha {
        alpha
    } else {
        mate_alpha
    };
    let b = if beta <= mate_beta {
        beta
    } else {
        mate_beta
    };
    (a, b, a >= b)
}

/// The score of a node with no legal move: mated `ply` moves from the root
/// when in check, else a stalemate draw.
pub open spec fn no_move_score_spec(in_check: bool, ply: int, mate_score: int) -> int {
    if in_check {
        -mate_score + ply
    } else {
        0
    }
}

pub fn no_move_score(in_check: bool, ply: i32, mate_score: i32) -> (s: i32)
    requires
        fits_i32(-mate_score),
        fits_i32(-mate_score + ply),
    ensures
        s == no_move_score_spec(in_check, ply as int, mate_score as int),
{
    if in_check {
        -mate_score + ply
    } else {
        0
    }
}

/// How a node starts, in the order it checks: a stopped search returns 0;
/// at the last ply the node returns its corrected static eval; below the
/// root a position that can be claimed drawn returns 0; a mate-distance
/// window that closes returns its alpha; at depth 0 or less the node hands
/// the narrowed window to quiescence; otherwise it searches it.
#[derive(Copy, Clone, Debug, PartialEq, Eq, Structural)]
pub enum NodeEntry {
    /// The search was stopped: return 0.
    Stopped,
    /// The ply limit is reached: return the corrected static eval.
    StaticEval,
    /// A draw can be claimed: return 0.
    Draw,
    /// The mate-distance window closed: return this alpha.
    MateCut(i32),
    /// Search captures only, in this window.
    Quiescence { alpha: i32, beta: i32 },
    /// Search the node in full, in this window.
    Search { alpha: i32, beta: i32 },
}

pub open spec fn node_entry_spec(
    stopped: bool,
    ply: int,
    max_ply: int,
    draw_claimable: bool,
    alpha: int,
    beta: int,
    depth: int,
    mate_score: int,
) -> NodeEntry {
    if stopped {
        NodeEntry::Stopped
    } else if ply >= max_ply - 1 {
        NodeEntry::StaticEval
    } else if ply > 0 && draw_claimable {
        NodeEntry::Draw
    } else {
        let w = mate_distance_window_spec(alpha, beta, ply, mate_score);
        if w.2 {
            NodeEntry::MateCut(w.0 as i32)
        } else if depth <= 0 {
            NodeEntry::Quiescence { alpha: w.0 as i32, beta: w.1 as i32 }
        } else {
            NodeEntry::Search { alpha: w.0 as i32, beta: w.1 as i32 }
        }
    }
}

/// `draw_claimable` is whether the position could be claimed drawn in the
/// search; it is read only below the root.
pub fn node_entry(
    stopped: bool,
    ply: i32,
    max_ply: i32,
    draw_claimable: bool,
    alpha: i32,
    beta: i32,
    depth: i32,
    mate_score: i32,
) -> (e: NodeEntry)
    requires
        ply >= 0,
        max_ply >= 1,
        !stopped && ply < max_ply - 1 && !(ply > 0 && draw_claimable) ==> {
            &&& fits_i32(-mate_score)
            &&& fits_i32(-mate_score + ply)
            &&& fits_i32(mate_score - ply)
            &&& fits_i32(mate_score - ply - 1)
        },
    ensures
        e == node_entry_spec(
            stopped,
            ply as int,
            max_ply as int,
            draw_claimable,
            alpha as int,
            beta as int,
            depth as int,
            mate_score as int,
        ),
{
    if stopped {
        return NodeEntry::Stopped;
    }
    if ply >= max_ply - 1 {
        return NodeEntry::StaticEval;
    }
    if ply > 0 && draw_claimable {
        return NodeEntry::Draw;
    }
    let (a, b, closed) = mate_distance_window(alpha, beta, ply, mate_score);
    if closed {
        NodeEntry::MateCut(a)
    } else if depth <= 0 {
        NodeEntry::Quiescence { alpha: a, beta: b }
    } else {
        NodeEntry::Search { alpha: a, beta: b }
    }
}

// ---------------------------------------------------------------- node evaluation

/// The size of the correction applied to the raw static eval, charged as
/// uncertainty by the pruning margins: 0 without a static eval (in check),
/// and 0 when the switch is on and a transposition-table bound replaced the
/// corrected eval.
pub open spec fn correction_magnitude_spec(
    static_eval: int,
    raw_static_eval: int,
    eval_for_pruning: int,
    value_none: int,
    skip_when_tt_refined: bool,
) -> int {
    if static_eval == value_none {
        0
    } else if skip_when_tt_refined && eval_for_pruning != static_eval {
        0
    } else {
        if static_eval >= raw_static_eval {
            static_eval - raw_static_eval
        } else {
            raw_static_eval - static_eval
        }
    }
}

pub fn correction_magnitude(
    static_eval: i32,
    raw_static_eval: i32,
    eval_for_pruning: i32,
    value_none: i32,
    skip_when_tt_refined: bool,
) -> (c: i32)
    requires
        static_eval != value_none ==> fits_i32(static_eval - raw_static_eval),
        static_eval != value_none ==> fits_i32(raw_static_eval - static_eval),
    ensures
        c == correction_magnitude_spec(
            static_eval as int,
            raw_static_eval as int,
            eval_for_pruning as int,
            value_none as int,
            skip_when_tt_refined,
        ),
{
    let corr = if static_eval == value_none {
        0
    } else if static_eval >= raw_static_eval {
        static_eval - raw_static_eval
    } else {
        raw_static_eval - static_eval
    };
    if skip_when_tt_refined && eval_for_pruning != static_eval {
        0
    } else {
        corr
    }
}

/// The static eval rose over the one two plies back, when both exist.
/// `two_plies_back` is `None` at plies 0 and 1.
pub open spec fn is_improving_spec(
    in_check: bool,
    static_eval: int,
    two_plies_back: Option<i32>,
    value_none: int,
) -> bool {
    !in_check && match two_plies_back {
        Some(prev) => prev != value_none && static_eval > prev,
        None => false,
    }
}

pub fn is_improving(in_check: bool, static_eval: i32, two_plies_back: Option<i32>, value_none: i32) -> (b:
    bool)
    ensures
        b == is_improving_spec(in_check, static_eval as int, two_plies_back, value_none as int),
{
    if in_check {
        return false;
    }
    match two_plies_back {
        Some(prev) => prev != value_none && static_eval > prev,
        None => false,
    }
}

/// Internal iterative reduction: without a usable transposition-table move
/// to order by (none, or off the PV one too shallow to trust), a node at
/// depth 4 or more outside a singular search is searched one ply shallower.
pub open spec fn iir_depth_spec(
    enabled: bool,
    depth: int,
    excluded_move: bool,
    has_tt_move: bool,
    is_pv: bool,
    tt_too_shallow_to_order: bool,
) -> int {
    if enabled && !excluded_move && depth >= 4 && (!has_tt_move || (!is_pv
        && tt_too_shallow_to_order)) {
        depth - 1
    } else {
        depth
    }
}

pub fn iir_depth(
    enabled: bool,
    depth: i32,
    excluded_move: bool,
    has_tt_move: bool,
    is_pv: bool,
    tt_too_shallow_to_order: bool,
) -> (d: i32)
    ensures
        d == iir_depth_spec(enabled, depth as int, excluded_move, has_tt_move, is_pv, tt_too_shallow_to_order),
{
    if enabled && !excluded_move && depth >= 4 && (!has_tt_move || (!is_pv
        && tt_too_shallow_to_order)) {
        depth - 1
    } else {
        depth
    }
}

// ---------------------------------------------------------------- forward pruning

/// Reverse-futility margin: grows with depth, more when not improving, and
/// with the correction's size.
pub open spec fn futility_margin_spec(
    depth: int,
    improving: bool,
    corr_abs: int,
    base: int,
    not_improving_coeff: int,
    corr_scale: int,
) -> int {
    (base + not_improving_coeff * (1 - flag(improving))) * depth + div_trunc(corr_abs * corr_scale, 128)
}

pub fn futility_margin(
    depth: i32,
    improving: bool,
    corr_abs: i32,
    base: i32,
    not_improving_coeff: i32,
    corr_scale: i32,
) -> (m: i32)
    requires
        fits_i32(not_improving_coeff * (1 - flag(improving))),
        fits_i32(base + not_improving_coeff * (1 - flag(improving))),
        fits_i32((base + not_improving_coeff * (1 - flag(improving))) * depth),
        fits_i32(corr_abs * corr_scale),
        fits_i32(futility_margin_spec(depth as int, improving, corr_abs as int, base as int, not_improving_coeff as int, corr_scale as int)),
    ensures
        m == futility_margin_spec(
            depth as int,
            improving,
            corr_abs as int,
            base as int,
            not_improving_coeff as int,
            corr_scale as int,
        ),
{
    let not_improving: i32 = if improving {
        0
    } else {
        1
    };
    let per_ply = base + not_improving_coeff * not_improving;
    let corr = corr_abs * corr_scale / 128;
    per_ply * depth + corr
}

/// Reverse futility: at depth 8 or less, an eval that clears beta by the
/// margin is returned without searching.
pub open spec fn reverse_futility_cut_spec(depth: int, eval_for_pruning: int, beta: int, margin: int) -> bool {
    depth <= 8 && eval_for_pruning - margin >= beta
}

pub fn reverse_futility_cut(depth: i32, eval_for_pruning: i32, beta: i32, margin: i32) -> (b: bool)
    requires
        depth <= 8 ==> fits_i32(eval_for_pruning - margin),
    ensures
        b == reverse_futility_cut_spec(depth as int, eval_for_pruning as int, beta as int, margin as int),
{
    depth <= 8 && eval_for_pruning - margin >= beta
}

/// Razoring: at depth 3 or less, an eval that stays below alpha even with
/// the razoring margin drops straight into quiescence.
pub open spec fn razor_drop_spec(depth: int, eval_for_pruning: int, alpha: int, coeff: int) -> bool {
    depth <= 3 && eval_for_pruning + coeff * depth < alpha
}

pub fn razor_drop(depth: i32, eval_for_pruning: i32, alpha: i32, coeff: i32) -> (b: bool)
    requires
        depth <= 3 ==> fits_i32(coeff * depth),
        depth <= 3 ==> fits_i32(eval_for_pruning + coeff * depth),
    ensures
        b == razor_drop_spec(depth as int, eval_for_pruning as int, alpha as int, coeff as int),
{
    depth <= 3 && eval_for_pruning + coeff * depth < alpha
}

/// The eval-and-depth part of the null-move gate: depth 3 or more, and an
/// eval at least beta less a depth- and improvement-scaled allowance.
pub open spec fn null_move_threshold_met_spec(
    depth: int,
    nmp_eval: int,
    beta: int,
    depth_coeff: int,
    improving_bonus: int,
    improving: bool,
) -> bool {
    depth >= 3 && nmp_eval >= beta - depth_coeff * depth - improving_bonus * flag(improving)
}

pub fn null_move_threshold_met(
    depth: i32,
    nmp_eval: i32,
    beta: i32,
    depth_coeff: i32,
    improving_bonus: i32,
    improving: bool,
) -> (b: bool)
    requires
        depth >= 3 ==> fits_i32(depth_coeff * depth),
        depth >= 3 ==> fits_i32(beta - depth_coeff * depth),
        depth >= 3 ==> fits_i32(improving_bonus * flag(improving)),
        depth >= 3 ==> fits_i32(beta - depth_coeff * depth - improving_bonus * flag(improving)),
    ensures
        b == null_move_threshold_met_spec(
            depth as int,
            nmp_eval as int,
            beta as int,
            depth_coeff as int,
            improving_bonus as int,
            improving,
        ),
{
    if depth < 3 {
        return false;
    }
    let improving_i: i32 = if improving {
        1
    } else {
        0
    };
    nmp_eval >= beta - depth_coeff * depth - improving_bonus * improving_i
}

/// Null-move reduction: 4 plies, a quarter of the depth, and up to 3 more
/// as the eval exceeds beta, one per 200.
pub open spec fn null_move_reduction_spec(depth: int, nmp_eval: int, beta: int) -> int {
    4 + div_trunc(depth, 4) + clamp_int(div_trunc(nmp_eval - beta, 200), 0, 3)
}

pub fn null_move_reduction(depth: i32, nmp_eval: i32, beta: i32) -> (r: i32)
    requires
        fits_i32(nmp_eval - beta),
    ensures
        r == null_move_reduction_spec(depth as int, nmp_eval as int, beta as int),
        4 + div_trunc(depth as int, 4) <= r <= 7 + div_trunc(depth as int, 4),
{
    let surplus = (nmp_eval - beta) / 200;
    let extra = if surplus < 0 {
        0
    } else if surplus > 3 {
        3
    } else {
        surplus
    };
    4 + depth / 4 + extra
}

/// The value a null-move fail-high returns: a fail-high proves only "at
/// least beta", so a mate-range score is replaced by beta.
pub open spec fn null_move_result_spec(score: int, beta: int, mate_score: int, max_ply: int) -> int {
    if score >= mate_score - max_ply {
        beta
    } else {
        score
    }
}

pub fn null_move_result(score: i32, beta: i32, mate_score: i32, max_ply: i32) -> (r: i32)
    requires
        fits_i32(mate_score - max_ply),
    ensures
        r == null_move_result_spec(score as int, beta as int, mate_score as int, max_ply as int),
{
    if score >= mate_score - max_ply {
        beta
    } else {
        score
    }
}

/// A null-move cutoff at depth 10 or more is verified by a search at the
/// reduced depth, at least 1; shallower cutoffs are taken as they stand.
pub open spec fn null_verify_depth_spec(depth: int, reduction: int) -> Option<int> {
    if depth >= 10 {
        Some(max_int(depth - reduction, 1))
    } else {
        None
    }
}

pub fn null_verify_depth(depth: i32, reduction: i32) -> (r: Option<i32>)
    requires
        depth >= 10 ==> fits_i32(depth - reduction),
    ensures
        match r {
            Some(d) => null_verify_depth_spec(depth as int, reduction as int) == Some(d as int),
            None => null_verify_depth_spec(depth as int, reduction as int) == None::<int>,
        },
{
    if depth >= 10 {
        let d = depth - reduction;
        Some(
            if d >= 1 {
                d
            } else {
                1
            },
        )
    } else {
        None
    }
}

/// The SEE a ProbCut capture must reach: the gap from the static eval up to
/// the raised beta, scaled in percent, and never below 0.
pub open spec fn probcut_see_threshold_spec(probcut_beta: int, static_eval: int, gap_scale: int) -> int {
    max_int(div_trunc((probcut_beta - static_eval) * gap_scale, 100), 0)
}

pub fn probcut_see_threshold(probcut_beta: i32, static_eval: i32, gap_scale: i32) -> (t: i32)
    requires
        fits_i32(probcut_beta - static_eval),
        fits_i32((probcut_beta - static_eval) * gap_scale),
    ensures
        t == probcut_see_threshold_spec(probcut_beta as int, static_eval as int, gap_scale as int),
        t >= 0,
{
    let t = (probcut_beta - static_eval) * gap_scale / 100;
    if t >= 0 {
        t
    } else {
        0
    }
}

/// How many ProbCut captures a node may try: a base, plus a bonus at a cut node.
pub open spec fn probcut_move_cap_spec(base: int, cut_bonus: int, cut_node: bool) -> int {
    base + if cut_node {
        cut_bonus
    } else {
        0
    }
}

pub fn probcut_move_cap(base: i32, cut_bonus: i32, cut_node: bool) -> (cap: i32)
    requires
        cut_node ==> fits_i32(base + cut_bonus),
    ensures
        cap == probcut_move_cap_spec(base as int, cut_bonus as int, cut_node),
{
    base + if cut_node {
        cut_bonus
    } else {
        0
    }
}

/// A ProbCut fail-high is returned shifted back by the margin it was found with.
pub open spec fn probcut_cutoff_score_spec(score: int, probcut_beta: int, beta: int) -> int {
    score - (probcut_beta - beta)
}

pub fn probcut_cutoff_score(score: i32, probcut_beta: i32, beta: i32) -> (s: i32)
    requires
        fits_i32(probcut_beta - beta),
        fits_i32(score - (probcut_beta - beta)),
    ensures
        s == probcut_cutoff_score_spec(score as int, probcut_beta as int, beta as int),
{
    score - (probcut_beta - beta)
}

/// Which forward-pruning families may run at a node the table marks as
/// once on the PV: each family only when its switch lets it, every family
/// at any other node. Order: reverse futility, razoring, null move, ProbCut.
pub open spec fn pruning_permissions_spec(
    tt_pv: bool,
    rfp_allow_tt_pv: bool,
    razor_allow_tt_pv: bool,
    nmp_allow_tt_pv: bool,
    probcut_allow_tt_pv: bool,
) -> (bool, bool, bool, bool) {
    (!tt_pv || rfp_allow_tt_pv, !tt_pv || razor_allow_tt_pv, !tt_pv || nmp_allow_tt_pv, !tt_pv
        || probcut_allow_tt_pv)
}

pub fn pruning_permissions(
    tt_pv: bool,
    rfp_allow_tt_pv: bool,
    razor_allow_tt_pv: bool,
    nmp_allow_tt_pv: bool,
    probcut_allow_tt_pv: bool,
) -> (p: (bool, bool, bool, bool))
    ensures
        p == pruning_permissions_spec(
            tt_pv,
            rfp_allow_tt_pv,
            razor_allow_tt_pv,
            nmp_allow_tt_pv,
            probcut_allow_tt_pv,
        ),
{
    (!tt_pv || rfp_allow_tt_pv, !tt_pv || razor_allow_tt_pv, !tt_pv || nmp_allow_tt_pv, !tt_pv
        || probcut_allow_tt_pv)
}

/// The forward-pruning block runs only out of check, outside a singular
/// search, and when at least one family is permitted.
pub open spec fn forward_pruning_applies_spec(
    permissions: (bool, bool, bool, bool),
    in_check: bool,
    excluded_move: bool,
) -> bool {
    (permissions.0 || permissions.1 || permissions.2 || permissions.3) && !in_check
        && !excluded_move
}

pub fn forward_pruning_applies(permissions: (bool, bool, bool, bool), in_check: bool, excluded_move: bool) -> (b: bool)
    ensures
        b == forward_pruning_applies_spec(permissions, in_check, excluded_move),
{
    (permissions.0 || permissions.1 || permissions.2 || permissions.3) && !in_check
        && !excluded_move
}

/// The whole null-move gate: the family enabled, a null move allowed here
/// and permitted at this node; not nested in a verification search when
/// that is switched off; only at an expected cut node when that is asked;
/// not where the table move may prove singular when that guard is on; and
/// the eval threshold met with material that makes zugzwang unlikely.
pub open spec fn null_move_allowed_spec(
    enabled: bool,
    allow_null: bool,
    permitted: bool,
    suppress_in_verification: bool,
    verification_nesting: int,
    require_cut_node: bool,
    cut_node: bool,
    singular_guard: bool,
    depth: int,
    has_tt_move: bool,
    tt_allows_singular: bool,
    threshold_met: bool,
    material_ok: bool,
) -> bool {
    enabled && allow_null && permitted && (!suppress_in_verification || verification_nesting == 0)
        && (!require_cut_node || cut_node) && (!singular_guard || !(depth >= 4 && has_tt_move
        && tt_allows_singular)) && threshold_met && material_ok
}

pub fn null_move_allowed(
    enabled: bool,
    allow_null: bool,
    permitted: bool,
    suppress_in_verification: bool,
    verification_nesting: u32,
    require_cut_node: bool,
    cut_node: bool,
    singular_guard: bool,
    depth: i32,
    has_tt_move: bool,
    tt_allows_singular: bool,
    threshold_met: bool,
    material_ok: bool,
) -> (b: bool)
    ensures
        b == null_move_allowed_spec(
            enabled,
            allow_null,
            permitted,
            suppress_in_verification,
            verification_nesting as int,
            require_cut_node,
            cut_node,
            singular_guard,
            depth as int,
            has_tt_move,
            tt_allows_singular,
            threshold_met,
            material_ok,
        ),
{
    enabled && allow_null && permitted && (!suppress_in_verification || verification_nesting == 0)
        && (!require_cut_node || cut_node) && (!singular_guard || !(depth >= 4 && has_tt_move
        && tt_allows_singular)) && threshold_met && material_ok
}

// ---------------------------------------------------------------- move pruning

/// Shallow-depth move pruning runs only out of check, below the root, once
/// some move has returned a score above the mated range, and while the side
/// to move keeps material other than pawns.
pub open spec fn shallow_pruning_applies_spec(
    in_check: bool,
    ply: int,
    best_score: int,
    mate_score: int,
    max_ply: int,
    has_non_pawn_material: bool,
) -> bool {
    !in_check && ply > 0 && best_score > -mate_score + max_ply && has_non_pawn_material
}

pub fn shallow_pruning_applies(
    in_check: bool,
    ply: i32,
    best_score: i32,
    mate_score: i32,
    max_ply: i32,
    has_non_pawn_material: bool,
) -> (b: bool)
    requires
        fits_i32(-mate_score),
        fits_i32(-mate_score + max_ply),
    ensures
        b == shallow_pruning_applies_spec(
            in_check,
            ply as int,
            best_score as int,
            mate_score as int,
            max_ply as int,
            has_non_pawn_material,
        ),
{
    !in_check && ply > 0 && best_score > -mate_score + max_ply && has_non_pawn_material
}

/// The move index the selectivity rules read: every move considered so far
/// (pruned ones included) when the switch is on, else the moves searched.
pub open spec fn selectivity_move_index_spec(count_considered: bool, considered: int, searched: int) -> int {
    if count_considered {
        considered - 1
    } else {
        searched
    }
}

pub fn selectivity_move_index(count_considered: bool, considered: usize, searched: usize) -> (i: usize)
    requires
        count_considered ==> considered >= 1,
    ensures
        i == selectivity_move_index_spec(count_considered, considered as int, searched as int),
{
    if count_considered {
        considered - 1
    } else {
        searched
    }
}

/// Whether the move is tested for giving check before reductions: from the
/// third move on, at depth 3 or more, for quiet moves and losing captures
/// that do not promote.
pub open spec fn needs_check_test_spec(depth: int, move_index: int, is_quiet: bool, see: int, is_promotion: bool) -> bool {
    depth >= 3 && move_index >= 2 && (is_quiet || see < 0) && !is_promotion
}

pub fn needs_check_test(depth: i32, move_index: usize, is_quiet: bool, see: i32, is_promotion: bool) -> (b: bool)
    ensures
        b == needs_check_test_spec(depth as int, move_index as int, is_quiet, see as int, is_promotion),
{
    depth >= 3 && move_index >= 2 && (is_quiet || see < 0) && !is_promotion
}

/// Margin of the eval-based late-move prune.
pub open spec fn late_move_margin_spec(lmr_depth: int, improving: bool, base: int, not_improving_coeff: int) -> int {
    (base + not_improving_coeff * (1 - flag(improving))) * lmr_depth
}

/// A late quiet move is pruned when move-count pruning fired, or at a
/// prospective depth of 3 or less when the eval plus the margin is no
/// better than alpha.
pub open spec fn late_move_prune_spec(
    move_count_pruning: bool,
    lmr_depth: int,
    eval_for_pruning: int,
    improving: bool,
    alpha: int,
    base: int,
    not_improving_coeff: int,
) -> bool {
    move_count_pruning || (lmr_depth <= 3 && eval_for_pruning + late_move_margin_spec(
        lmr_depth,
        improving,
        base,
        not_improving_coeff,
    ) <= alpha)
}

pub fn late_move_prune(
    move_count_pruning: bool,
    lmr_depth: i32,
    eval_for_pruning: i32,
    improving: bool,
    alpha: i32,
    base: i32,
    not_improving_coeff: i32,
) -> (b: bool)
    requires
        fits_i32(not_improving_coeff * (1 - flag(improving))),
        fits_i32(base + not_improving_coeff * (1 - flag(improving))),
        fits_i32(late_move_margin_spec(lmr_depth as int, improving, base as int, not_improving_coeff as int)),
        !move_count_pruning && lmr_depth <= 3 ==> fits_i32(eval_for_pruning + late_move_margin_spec(lmr_depth as int, improving, base as int, not_improving_coeff as int)),
    ensures
        b == late_move_prune_spec(
            move_count_pruning,
            lmr_depth as int,
            eval_for_pruning as int,
            improving,
            alpha as int,
            base as int,
            not_improving_coeff as int,
        ),
{
    let not_improving: i32 = if improving {
        0
    } else {
        1
    };
    let margin = (base + not_improving_coeff * not_improving) * lmr_depth;
    move_count_pruning || (lmr_depth <= 3 && eval_for_pruning + margin <= alpha)
}

/// A quiet move whose history is far below zero for the prospective depth.
pub open spec fn quiet_history_prune_spec(lmr_depth: int, quiet_hist: int, depth_limit: int, coeff: int) -> bool {
    lmr_depth < depth_limit && quiet_hist < -(coeff * (lmr_depth + 1))
}

pub fn quiet_history_prune(lmr_depth: i32, quiet_hist: i32, depth_limit: i32, coeff: i32) -> (b: bool)
    requires
        lmr_depth < depth_limit ==> fits_i32(coeff * (lmr_depth + 1)),
        lmr_depth < depth_limit ==> fits_i32(-(coeff * (lmr_depth + 1))),
    ensures
        b == quiet_history_prune_spec(lmr_depth as int, quiet_hist as int, depth_limit as int, coeff as int),
{
    lmr_depth < depth_limit && quiet_hist < -(coeff * (lmr_depth + 1))
}

/// Quiet futility: below the depth limit, a quiet move whose eval plus the
/// margin cannot reach alpha, unless its history is good.
pub open spec fn quiet_futility_prune_spec(
    lmr_depth: int,
    eval_for_pruning: int,
    corr_abs: int,
    quiet_hist: int,
    alpha: int,
    depth_limit: int,
    base: int,
    coeff: int,
    corr_scale: int,
    hist_cap: int,
) -> bool {
    lmr_depth < depth_limit && eval_for_pruning + base + coeff * lmr_depth + div_trunc(
        corr_abs * corr_scale,
        128,
    ) <= alpha && quiet_hist < hist_cap
}

pub fn quiet_futility_prune(
    lmr_depth: i32,
    eval_for_pruning: i32,
    corr_abs: i32,
    quiet_hist: i32,
    alpha: i32,
    depth_limit: i32,
    base: i32,
    coeff: i32,
    corr_scale: i32,
    hist_cap: i32,
) -> (b: bool)
    requires
        lmr_depth < depth_limit ==> fits_i32(eval_for_pruning + base),
        lmr_depth < depth_limit ==> fits_i32(coeff * lmr_depth),
        lmr_depth < depth_limit ==> fits_i32(eval_for_pruning + base + coeff * lmr_depth),
        lmr_depth < depth_limit ==> fits_i32(corr_abs * corr_scale),
        lmr_depth < depth_limit ==> fits_i32(
            eval_for_pruning + base + coeff * lmr_depth + div_trunc(corr_abs * corr_scale, 128),
        ),
    ensures
        b == quiet_futility_prune_spec(
            lmr_depth as int,
            eval_for_pruning as int,
            corr_abs as int,
            quiet_hist as int,
            alpha as int,
            depth_limit as int,
            base as int,
            coeff as int,
            corr_scale as int,
            hist_cap as int,
        ),
{
    lmr_depth < depth_limit && eval_for_pruning + base + coeff * lmr_depth + corr_abs * corr_scale
        / 128 <= alpha && quiet_hist < hist_cap
}

/// SEE a quiet move must reach not to be pruned as hanging material:
/// quadratic in the prospective depth, bounded by the cap.
pub open spec fn quiet_see_threshold_spec(lmr_depth: int, coeff: int, cap: int) -> int {
    max_int(-coeff * lmr_depth * lmr_depth, -cap)
}

pub fn quiet_see_threshold(lmr_depth: i32, coeff: i32, cap: i32) -> (t: i32)
    requires
        fits_i32(-coeff),
        fits_i32(-coeff * lmr_depth),
        fits_i32(-coeff * lmr_depth * lmr_depth),
        fits_i32(-cap),
    ensures
        t == quiet_see_threshold_spec(lmr_depth as int, coeff as int, cap as int),
        t >= -cap,
{
    let t = -coeff * lmr_depth * lmr_depth;
    if t >= -cap {
        t
    } else {
        -cap
    }
}

/// A capture whose history has never worked, at a prospective depth below 1.
pub open spec fn capture_history_prune_spec(lmr_depth: int, cap_hist: int) -> bool {
    lmr_depth < 1 && cap_hist < 0
}

pub fn capture_history_prune(lmr_depth: i32, cap_hist: i32) -> (b: bool)
    ensures
        b == capture_history_prune_spec(lmr_depth as int, cap_hist as int),
{
    lmr_depth < 1 && cap_hist < 0
}

/// Capture futility: even winning the captured piece outright, with the
/// margin, does not reach alpha.
pub open spec fn capture_futility_prune_spec(
    lmr_depth: int,
    eval_for_pruning: int,
    captured_value: int,
    alpha: int,
    depth_limit: int,
    base: int,
    coeff: int,
) -> bool {
    lmr_depth < depth_limit && eval_for_pruning + base + captured_value + coeff * lmr_depth <= alpha
}

pub fn capture_futility_prune(
    lmr_depth: i32,
    eval_for_pruning: i32,
    captured_value: i32,
    alpha: i32,
    depth_limit: i32,
    base: i32,
    coeff: i32,
) -> (b: bool)
    requires
        lmr_depth < depth_limit ==> fits_i32(eval_for_pruning + base),
        lmr_depth < depth_limit ==> fits_i32(eval_for_pruning + base + captured_value),
        lmr_depth < depth_limit ==> fits_i32(coeff * lmr_depth),
        lmr_depth < depth_limit ==> fits_i32(
            eval_for_pruning + base + captured_value + coeff * lmr_depth,
        ),
    ensures
        b == capture_futility_prune_spec(
            lmr_depth as int,
            eval_for_pruning as int,
            captured_value as int,
            alpha as int,
            depth_limit as int,
            base as int,
            coeff as int,
        ),
{
    lmr_depth < depth_limit && eval_for_pruning + base + captured_value + coeff * lmr_depth <= alpha
}

/// SEE a capture must reach: scaled by the node's depth, eased by a good
/// capture history (an eighth of it), bounded by the cap.
pub open spec fn capture_see_threshold_spec(depth: int, cap_hist: int, coeff: int, cap: int) -> int {
    max_int(-coeff * depth - div_trunc(cap_hist, 8), -cap)
}

pub fn capture_see_threshold(depth: i32, cap_hist: i32, coeff: i32, cap: i32) -> (t: i32)
    requires
        fits_i32(-coeff),
        fits_i32(-coeff * depth),
        fits_i32(-coeff * depth - div_trunc(cap_hist as int, 8)),
        fits_i32(-cap),
    ensures
        t == capture_see_threshold_spec(depth as int, cap_hist as int, coeff as int, cap as int),
        t >= -cap,
{
    let t = -coeff * depth - cap_hist / 8;
    if t >= -cap {
        t
    } else {
        -cap
    }
}

// ---------------------------------------------------------------- extensions

/// What the singular search around the transposition-table move decided.
#[derive(Copy, Clone, Debug, PartialEq, Eq, Structural)]
pub enum SingularOutcome {
    /// Search the move with this extension (2, 1, 0 or -1); `singular` says
    /// the move was proved singular.
    Extend { extension: i32, singular: bool },
    /// Another move also beats beta: the node returns this score.
    MultiCut(i32),
}

/// The bar the other moves are tested against: the table's score less a
/// depth-scaled margin.
pub open spec fn singular_beta_spec(tt_score: int, mult: int, depth: int) -> int {
    tt_score - mult * depth
}

pub fn singular_beta(tt_score: i32, mult: i32, depth: i32) -> (b: i32)
    requires
        fits_i32(mult * depth),
        fits_i32(tt_score - mult * depth),
    ensures
        b == singular_beta_spec(tt_score as int, mult as int, depth as int),
{
    tt_score - mult * depth
}

/// Depth of the singular search: half of what remains after this ply.
pub open spec fn singular_depth_spec(depth: int) -> int {
    div_trunc(depth - 1, 2)
}

pub fn singular_depth(depth: i32) -> (d: i32)
    requires
        depth > i32::MIN,
    ensures
        d == singular_depth_spec(depth as int),
{
    (depth - 1) / 2
}

/// If nothing else reaches the bar, the move is singular and extended, by 2
/// off the PV when it wins by the double margin; if the bar itself is at or
/// above beta, the node cuts; if the table's score is, the move is reduced
/// by one instead.
pub open spec fn singular_outcome_spec(
    singular_score: int,
    singular_beta: int,
    beta: int,
    tt_score: int,
    is_pv: bool,
    double_margin: int,
) -> SingularOutcome {
    if singular_score < singular_beta {
        SingularOutcome::Extend {
            extension: if !is_pv && singular_score < singular_beta - double_margin {
                2i32
            } else {
                1i32
            },
            singular: true,
        }
    } else if singular_beta >= beta {
        SingularOutcome::MultiCut(singular_beta as i32)
    } else if tt_score >= beta {
        SingularOutcome::Extend { extension: -1i32, singular: false }
    } else {
        SingularOutcome::Extend { extension: 0i32, singular: false }
    }
}

pub fn singular_outcome(
    singular_score: i32,
    singular_beta: i32,
    beta: i32,
    tt_score: i32,
    is_pv: bool,
    double_margin: i32,
) -> (o: SingularOutcome)
    requires
        singular_score < singular_beta && !is_pv ==> fits_i32(singular_beta - double_margin),
    ensures
        o == singular_outcome_spec(
            singular_score as int,
            singular_beta as int,
            beta as int,
            tt_score as int,
            is_pv,
            double_margin as int,
        ),
{
    if singular_score < singular_beta {
        let extension = if !is_pv && singular_score < singular_beta - double_margin {
            2
        } else {
            1
        };
        SingularOutcome::Extend { extension, singular: true }
    } else if singular_beta >= beta {
        SingularOutcome::MultiCut(singular_beta)
    } else if tt_score >= beta {
        SingularOutcome::Extend { extension: -1, singular: false }
    } else {
        SingularOutcome::Extend { extension: 0, singular: false }
    }
}

// ---------------------------------------------------------------- reductions

/// Whether a late move is searched reduced: depth 3 or more, past the first
/// moves (4 at the root, 2 elsewhere), quiet or a capture the node already
/// doubts, and neither a promotion, nor played in check, nor giving check.
/// A capture is doubted once quiets are skipped, when winning its victim
/// still does not reach alpha, or at a cut node.
pub open spec fn is_reducible_spec(
    depth: int,
    move_index: int,
    is_root: bool,
    is_quiet: bool,
    skip_quiets: bool,
    eval_for_pruning: int,
    captured_value: int,
    alpha: int,
    cut_node: bool,
    is_promotion: bool,
    in_check: bool,
    gives_check: bool,
) -> bool {
    let capture_reducible = skip_quiets || eval_for_pruning + captured_value <= alpha || cut_node;
    let first_reducible: int = if is_root {
        4
    } else {
        2
    };
    depth >= 3 && move_index >= first_reducible && (is_quiet || capture_reducible) && !is_promotion
        && !in_check && !gives_check
}

pub fn is_reducible(
    depth: i32,
    move_index: usize,
    is_root: bool,
    is_quiet: bool,
    skip_quiets: bool,
    eval_for_pruning: i32,
    captured_value: i32,
    alpha: i32,
    cut_node: bool,
    is_promotion: bool,
    in_check: bool,
    gives_check: bool,
) -> (b: bool)
    requires
        !skip_quiets ==> fits_i32(eval_for_pruning + captured_value),
    ensures
        b == is_reducible_spec(
            depth as int,
            move_index as int,
            is_root,
            is_quiet,
            skip_quiets,
            eval_for_pruning as int,
            captured_value as int,
            alpha as int,
            cut_node,
            is_promotion,
            in_check,
            gives_check,
        ),
{
    let capture_reducible = skip_quiets || eval_for_pruning + captured_value <= alpha || cut_node;
    let first_reducible: usize = if is_root {
        4
    } else {
        2
    };
    depth >= 3 && move_index >= first_reducible && (is_quiet || capture_reducible) && !is_promotion
        && !in_check && !gives_check
}

/// A reduced search that beat alpha is repeated at full depth, unless the
/// reduction was 0 and it already was one.
pub open spec fn needs_full_depth_research_spec(reduction: int, score: int, alpha: int) -> bool {
    reduction > 0 && score > alpha
}

pub fn needs_full_depth_research(reduction: i32, score: i32, alpha: i32) -> (b: bool)
    ensures
        b == needs_full_depth_research_spec(reduction as int, score as int, alpha as int),
{
    reduction > 0 && score > alpha
}

/// At a PV node a null-window score inside the window is re-searched with
/// the full window; the root does so even on a fail-high, since it must
/// report a playable score.
pub open spec fn needs_pv_research_spec(is_pv: bool, score: int, alpha: int, beta: int, is_root: bool) -> bool {
    is_pv && score > alpha && (is_root || score < beta)
}

pub fn needs_pv_research(is_pv: bool, score: i32, alpha: i32, beta: i32, is_root: bool) -> (b: bool)
    ensures
        b == needs_pv_research_spec(is_pv, score as int, alpha as int, beta as int, is_root),
{
    is_pv && score > alpha && (is_root || score < beta)
}

// ---------------------------------------------------------------- the move loop

/// What the move loop has learned so far: the best score and the move that
/// gave it (by its position in the loop), the raised alpha, and how many
/// moves were searched.
#[derive(Copy, Clone, Debug, PartialEq, Eq, Structural)]
pub struct MoveLoop {
    pub best_score: i32,
    pub best_move: Option<usize>,
    pub alpha: i32,
    pub searched: usize,
}

/// Before any move: no best move, the best score below every real score.
pub open spec fn start_move_loop_spec(alpha: i32, inf_score: i32) -> MoveLoop {
    MoveLoop { best_score: -inf_score as i32, best_move: None, alpha, searched: 0 }
}

pub fn start_move_loop(alpha: i32, inf_score: i32) -> (l: MoveLoop)
    requires
        fits_i32(-inf_score),
    ensures
        l == start_move_loop_spec(alpha, inf_score),
{
    MoveLoop { best_score: -inf_score, best_move: None, alpha, searched: 0 }
}

/// A searched move's score, at loop position `index`: it becomes the best
/// when it beats the best, raises alpha when it beats alpha, and cuts the
/// node when it also reaches beta.
pub open spec fn record_move_spec(l: MoveLoop, index: usize, score: i32, beta: i32) -> (MoveLoop, bool) {
    let better = score > l.best_score;
    let raises = score > l.alpha;
    (
        MoveLoop {
            best_score: if better {
                score
            } else {
                l.best_score
            },
            best_move: if better {
                Some(index)
            } else {
                l.best_move
            },
            alpha: if raises {
                score
            } else {
                l.alpha
            },
            searched: (l.searched + 1) as usize,
        },
        raises && score >= beta,
    )
}

/// Records a searched move; the result says whether the node cuts.
pub fn record_move(l: &mut MoveLoop, index: usize, score: i32, beta: i32) -> (cutoff: bool)
    requires
        old(l).searched < usize::MAX,
    ensures
        (*final(l), cutoff) == record_move_spec(*old(l), index, score, beta),
{
    l.searched = l.searched + 1;
    if score > l.best_score {
        l.best_score = score;
        l.best_move = Some(index);
    }
    if score > l.alpha {
        l.alpha = score;
        score >= beta
    } else {
        false
    }
}

/// The loop state after recording `scores` in order, moves numbered from 0.
pub open spec fn record_all_spec(l: MoveLoop, scores: Seq<i32>, beta: i32) -> MoveLoop
    decreases scores.len(),
{
    if scores.len() == 0 {
        l
    } else {
        record_move_spec(
            record_all_spec(l, scores.drop_last(), beta),
            (scores.len() - 1) as usize,
            scores.last(),
            beta,
        ).0
    }
}

/// The largest of `init` and the scores.
pub open spec fn max_of(init: int, scores: Seq<i32>) -> int
    decreases scores.len(),
{
    if scores.len() == 0 {
        init
    } else {
        max_int(max_of(init, scores.drop_last()), scores.last() as int)
    }
}

/// Whatever order the moves come in, the loop's best score is the largest
/// score seen (or the starting value), alpha is the larger of the window's
/// alpha and that score, every searched move is counted, and a best move is
/// named exactly when some score beat the starting value.
pub proof fn lemma_move_loop_tracks_maxima(l: MoveLoop, scores: Seq<i32>, beta: i32)
    requires
        l.best_move is None,
        l.searched + scores.len() <= usize::MAX,
    ensures
        max_of(l.best_score as int, scores) >= l.best_score,
        record_all_spec(l, scores, beta).best_score == max_of(l.best_score as int, scores),
        record_all_spec(l, scores, beta).alpha == max_of(l.alpha as int, scores),
        record_all_spec(l, scores, beta).searched == l.searched + scores.len(),
        record_all_spec(l, scores, beta).best_move is Some <==> max_of(l.best_score as int, scores)
            > l.best_score,
        record_all_spec(l, scores, beta).best_move matches Some(i) ==> 0 <= i < scores.len()
            && scores[i as int] == max_of(l.best_score as int, scores),
    decreases scores.len(),
{
    if scores.len() > 0 {
        let prefix = scores.drop_last();
        lemma_move_loop_tracks_maxima(l, prefix, beta);
        let before = record_all_spec(l, prefix, beta);
        if let Some(i) = before.best_move {
            assert(scores[i as int] == prefix[i as int]);
        }
    }
}

/// A node cuts on the first move that raises alpha to beta or beyond, and
/// only then: a cutoff's score is at least beta and above the alpha it beat.
pub proof fn lemma_cutoff_needs_beta(l: MoveLoop, index: usize, score: i32, beta: i32)
    ensures
        record_move_spec(l, index, score, beta).1 <==> (score > l.alpha && score >= beta),
        record_move_spec(l, index, score, beta).0.alpha >= l.alpha,
        record_move_spec(l, index, score, beta).0.best_score >= l.best_score,
{
}

// ---------------------------------------------------------------- the node's result

/// The bound a node stores.
#[derive(Copy, Clone, Debug, PartialEq, Eq, Structural)]
pub enum Bound {
    Exact,
    Lower,
    Upper,
}

/// A node that did not cut is exact when its best move raised alpha, else
/// an upper bound.
pub open spec fn node_bound_spec(best_score: int, entry_alpha: int) -> Bound {
    if best_score > entry_alpha {
        Bound::Exact
    } else {
        Bound::Upper
    }
}

/// The bound a node stores with its result: a lower bound when a move cut
/// it, else exact or upper as `node_bound_spec` says.
pub open spec fn stored_bound_spec(best_score: int, entry_alpha: int, cutoff: bool) -> Bound {
    if cutoff {
        Bound::Lower
    } else {
        node_bound_spec(best_score, entry_alpha)
    }
}

pub fn stored_bound(best_score: i32, entry_alpha: i32, cutoff: bool) -> (b: Bound)
    ensures
        b == stored_bound_spec(best_score as int, entry_alpha as int, cutoff),
{
    if cutoff {
        Bound::Lower
    } else {
        node_bound(best_score, entry_alpha)
    }
}

pub fn node_bound(best_score: i32, entry_alpha: i32) -> (b: Bound)
    ensures
        b == node_bound_spec(best_score as int, entry_alpha as int),
{
    if best_score > entry_alpha {
        Bound::Exact
    } else {
        Bound::Upper
    }
}

/// Whether a node trains the eval correction with its result: outside a
/// singular search, with a static eval and a score outside the mate range,
/// when the result is exact, an upper bound below the static eval, or a
/// beta cutoff (a lower bound) above it.
pub open spec fn updates_correction_spec(
    excluded_move: bool,
    static_eval: int,
    value_none: int,
    best_score: int,
    mate_score: int,
    max_ply: int,
    bound: Bound,
) -> bool {
    let magnitude = if best_score < 0 {
        -best_score
    } else {
        best_score
    };
    !excluded_move && static_eval != value_none && magnitude < mate_score - max_ply && (bound
        == Bound::Exact || (bound == Bound::Upper && best_score - static_eval < 0) || (bound
        == Bound::Lower && best_score > static_eval))
}

pub fn updates_correction(
    excluded_move: bool,
    static_eval: i32,
    value_none: i32,
    best_score: i32,
    mate_score: i32,
    max_ply: i32,
    bound: Bound,
) -> (b: bool)
    requires
        !excluded_move && static_eval != value_none ==> best_score > i32::MIN,
        !excluded_move && static_eval != value_none ==> fits_i32(mate_score - max_ply),
        !excluded_move && static_eval != value_none && bound == Bound::Upper ==> fits_i32(
            best_score - static_eval,
        ),
    ensures
        b == updates_correction_spec(
            excluded_move,
            static_eval as int,
            value_none as int,
            best_score as int,
            mate_score as int,
            max_ply as int,
            bound,
        ),
{
    if excluded_move || static_eval == value_none {
        return false;
    }
    let magnitude = if best_score < 0 {
        -best_score
    } else {
        best_score
    };
    if magnitude >= mate_score - max_ply {
        return false;
    }
    bound == Bound::Exact || (bound == Bound::Upper && best_score - static_eval < 0) || (bound
        == Bound::Lower && best_score > static_eval)
}

/// Percentage the cutoff reward is scaled by: the surprise percentage when
/// the static eval sat below beta, 100 otherwise.
pub open spec fn cutoff_bonus_pct_spec(static_eval: int, value_none: int, beta: int, surprise_pct: int) -> int {
    if static_eval != value_none && static_eval < beta {
        surprise_pct
    } else {
        100
    }
}

pub fn cutoff_bonus_pct(static_eval: i32, value_none: i32, beta: i32, surprise_pct: i32) -> (p: i32)
    ensures
        p == cutoff_bonus_pct_spec(static_eval as int, value_none as int, beta as int, surprise_pct as int),
{
    if static_eval != value_none && static_eval < beta {
        surprise_pct
    } else {
        100
    }
}

// ---------------------------------------------------------------- laws

/// The mate-distance step only ever narrows the window it is given, never
/// past the mate bounds of its ply, and it reports the window closed exactly
/// when the new alpha reaches the new beta.
pub proof fn lemma_mate_window_narrows(alpha: int, beta: int, ply: int, mate_score: int)
    ensures
        mate_distance_window_spec(alpha, beta, ply, mate_score).0 >= alpha,
        mate_distance_window_spec(alpha, beta, ply, mate_score).1 <= beta,
        mate_distance_window_spec(alpha, beta, ply, mate_score).0 >= -mate_score + ply,
        mate_distance_window_spec(alpha, beta, ply, mate_score).1 <= mate_score - ply - 1,
        mate_distance_window_spec(alpha, beta, ply, mate_score).2 <==> mate_distance_window_spec(
            alpha,
            beta,
            ply,
            mate_score,
        ).0 >= mate_distance_window_spec(alpha, beta, ply, mate_score).1,
{
}

/// A null-move fail-high keeps its cutoff (the value returned is still at
/// least beta) but never claims a mate: below the mate range whenever beta is.
pub proof fn lemma_null_move_result_is_sound(score: int, beta: int, mate_score: int, max_ply: int)
    requires
        score >= beta,
    ensures
        null_move_result_spec(score, beta, mate_score, max_ply) >= beta,
        beta < mate_score - max_ply ==> null_move_result_spec(score, beta, mate_score, max_ply)
            < mate_score - max_ply,
{
}

/// The ProbCut capture filter can only tighten "the capture does not lose
/// material": its threshold is never below 0.
pub proof fn lemma_probcut_threshold_nonnegative(probcut_beta: int, static_eval: int, gap_scale: int)
    ensures
        probcut_see_threshold_spec(probcut_beta, static_eval, gap_scale) >= 0,
{
}

/// A ProbCut fail-high against the raised bar is a fail-high against beta.
pub proof fn lemma_probcut_cutoff_beats_beta(score: int, probcut_beta: int, beta: int)
    requires
        score >= probcut_beta,
    ensures
        probcut_cutoff_score_spec(score, probcut_beta, beta) >= beta,
{
}

/// The singular search either extends the move by -1, 0, 1 or 2 (2 only off
/// the PV, and a positive extension exactly when the move is singular), or
/// cuts the node with a score of at least beta.
pub proof fn lemma_singular_outcome_bounds(
    singular_score: int,
    singular_beta: int,
    beta: int,
    tt_score: int,
    is_pv: bool,
    double_margin: int,
)
    requires
        fits_i32(singular_beta),
    ensures
        match singular_outcome_spec(singular_score, singular_beta, beta, tt_score, is_pv, double_margin) {
            SingularOutcome::Extend { extension, singular } => -1 <= extension <= 2 && (extension
                == 2 ==> !is_pv) && (singular <==> extension > 0),
            SingularOutcome::MultiCut(score) => score >= beta,
        },
{
}

/// A node with no legal move scores a mate against the side to move when
/// in check (worse the nearer the root) and a draw otherwise.
pub proof fn lemma_no_move_score(in_check: bool, ply: int, mate_score: int)
    requires
        0 <= ply < mate_score,
    ensures
        in_check ==> no_move_score_spec(in_check, ply, mate_score) < 0,
        !in_check ==> no_move_score_spec(in_check, ply, mate_score) == 0,
{
}

/// The stored bound of a node that did not cut is exact exactly when its
/// best score raised alpha.
pub proof fn lemma_node_bound(best_score: int, entry_alpha: int)
    ensures
        (node_bound_spec(best_score, entry_alpha) == Bound::Exact) <==> best_score
            > entry_alpha,
        node_bound_spec(best_score, entry_alpha) != Bound::Lower,
{
}

/// A node that goes on to search (fully or in quiescence) does so in a
/// window no wider than the one it was given, and never when stopped, at
/// the ply limit, or at a claimable draw below the root.
pub proof fn lemma_node_entry_order(
    stopped: bool,
    ply: int,
    max_ply: int,
    draw_claimable: bool,
    alpha: i32,
    beta: i32,
    depth: int,
    mate_score: i32,
)
    requires
        fits_i32(-mate_score + ply),
        fits_i32(mate_score - ply - 1),
    ensures
        match node_entry_spec(stopped, ply, max_ply, draw_claimable, alpha as int, beta as int, depth, mate_score as int) {
            NodeEntry::Quiescence { alpha: a, beta: b } => !stopped && ply < max_ply - 1 && !(ply > 0
                && draw_claimable) && depth <= 0 && alpha <= a && b <= beta && a < b,
            NodeEntry::Search { alpha: a, beta: b } => !stopped && ply < max_ply - 1 && !(ply > 0
                && draw_claimable) && depth > 0 && alpha <= a && b <= beta && a < b,
            NodeEntry::MateCut(a) => !stopped && a >= alpha,
            NodeEntry::Stopped => stopped,
            NodeEntry::StaticEval => !stopped && ply >= max_ply - 1,
            NodeEntry::Draw => !stopped && ply > 0 && draw_claimable,
        },
{
}

/// A node stores a lower bound exactly when a move cut it.
pub proof fn lemma_stored_bound(best_score: int, entry_alpha: int, cutoff: bool)
    ensures
        (stored_bound_spec(best_score, entry_alpha, cutoff) == Bound::Lower) <==> cutoff,
{
}

/// The null-move gate never opens unless every one of its requirements
/// holds; in particular a null move is never tried where the caller
/// forbids one, as directly below another null move.
pub proof fn lemma_null_move_gate_requirements(
    enabled: bool,
    allow_null: bool,
    permitted: bool,
    suppress_in_verification: bool,
    verification_nesting: int,
    require_cut_node: bool,
    cut_node: bool,
    singular_guard: bool,
    depth: int,
    has_tt_move: bool,
    tt_allows_singular: bool,
    threshold_met: bool,
    material_ok: bool,
)
    ensures
        null_move_allowed_spec(
            enabled,
            allow_null,
            permitted,
            suppress_in_verification,
            verification_nesting,
            require_cut_node,
            cut_node,
            singular_guard,
            depth,
            has_tt_move,
            tt_allows_singular,
            threshold_met,
            material_ok,
        ) ==> {
            &&& enabled
            &&& allow_null
            &&& permitted
            &&& threshold_met
            &&& material_ok
            &&& (suppress_in_verification ==> verification_nesting == 0)
            &&& (require_cut_node ==> cut_node)
            &&& !(singular_guard && depth >= 4 && has_tt_move && tt_allows_singular)
        },
{
}

/// Reverse futility only cuts at depth 8 or less, and an eval that cuts
/// keeps cutting when it is higher.
pub proof fn lemma_reverse_futility_monotone(depth: int, eval: int, higher: int, beta: int, margin: int)
    requires
        eval <= higher,
    ensures
        reverse_futility_cut_spec(depth, eval, beta, margin) ==> depth <= 8 && eval - margin >= beta,
        reverse_futility_cut_spec(depth, eval, beta, margin) ==> reverse_futility_cut_spec(
            depth,
            higher,
            beta,
            margin,
        ),
{
}

/// Razoring only drops at depth 3 or less, and an eval that drops keeps
/// dropping when it is lower.
pub proof fn lemma_razor_monotone(depth: int, eval: int, lower: int, alpha: int, coeff: int)
    requires
        lower <= eval,
    ensures
        razor_drop_spec(depth, eval, alpha, coeff) ==> depth <= 3,
        razor_drop_spec(depth, eval, alpha, coeff) ==> razor_drop_spec(depth, lower, alpha, coeff),
{
}

/// The null-move threshold needs depth 3, and an eval that meets it keeps
/// meeting it when it is higher.
pub proof fn lemma_null_threshold_monotone(
    depth: int,
    eval: int,
    higher: int,
    beta: int,
    depth_coeff: int,
    improving_bonus: int,
    improving: bool,
)
    requires
        eval <= higher,
    ensures
        null_move_threshold_met_spec(depth, eval, beta, depth_coeff, improving_bonus, improving)
            ==> depth >= 3,
        null_move_threshold_met_spec(depth, eval, beta, depth_coeff, improving_bonus, improving)
            ==> null_move_threshold_met_spec(
            depth,
            higher,
            beta,
            depth_coeff,
            improving_bonus,
            improving,
        ),
{
}

/// Capture futility never prunes at a prospective depth at or above the
/// limit, prunes only when even winning the victim with the margin stays at
/// or below alpha, and prunes whenever a lower eval would not do better.
pub proof fn lemma_capture_futility_bounds(
    lmr_depth: int,
    eval: int,
    lower: int,
    captured_value: int,
    alpha: int,
    depth_limit: int,
    base: int,
    coeff: int,
)
    requires
        lower <= eval,
    ensures
        lmr_depth >= depth_limit ==> !capture_futility_prune_spec(
            lmr_depth,
            eval,
            captured_value,
            alpha,
            depth_limit,
            base,
            coeff,
        ),
        capture_futility_prune_spec(lmr_depth, eval, captured_value, alpha, depth_limit, base, coeff)
            ==> eval + base + captured_value + coeff * lmr_depth <= alpha,
        capture_futility_prune_spec(lmr_depth, eval, captured_value, alpha, depth_limit, base, coeff)
            ==> capture_futility_prune_spec(
            lmr_depth,
            lower,
            captured_value,
            alpha,
            depth_limit,
            base,
            coeff,
        ),
{
}

/// Quiet futility never prunes at or above its depth limit nor a move whose
/// history reaches the cap, and a pruned move stays pruned at a lower eval.
pub proof fn lemma_quiet_futility_bounds(
    lmr_depth: int,
    eval: int,
    lower: int,
    corr_abs: int,
    quiet_hist: int,
    alpha: int,
    depth_limit: int,
    base: int,
    coeff: int,
    corr_scale: int,
    hist_cap: int,
)
    requires
        lower <= eval,
    ensures
        quiet_futility_prune_spec(lmr_depth, eval, corr_abs, quiet_hist, alpha, depth_limit, base, coeff, corr_scale, hist_cap)
            ==> lmr_depth < depth_limit && quiet_hist < hist_cap,
        quiet_futility_prune_spec(lmr_depth, eval, corr_abs, quiet_hist, alpha, depth_limit, base, coeff, corr_scale, hist_cap)
            ==> quiet_futility_prune_spec(lmr_depth, lower, corr_abs, quiet_hist, alpha, depth_limit, base, coeff, corr_scale, hist_cap),
{
}

/// History pruning needs a prospective depth below its limit and a negative
/// enough history, and a worse history is pruned too.
pub proof fn lemma_quiet_history_prune_monotone(lmr_depth: int, hist: int, worse: int, depth_limit: int, coeff: int)
    requires
        worse <= hist,
    ensures
        quiet_history_prune_spec(lmr_depth, hist, depth_limit, coeff) ==> lmr_depth < depth_limit,
        quiet_history_prune_spec(lmr_depth, hist, depth_limit, coeff) ==> quiet_history_prune_spec(
            lmr_depth,
            worse,
            depth_limit,
            coeff,
        ),
{
}

/// Move-count pruning always prunes; without it a late move is pruned only
/// at a prospective depth of 3 or less.
pub proof fn lemma_late_move_prune_cases(
    move_count_pruning: bool,
    lmr_depth: int,
    eval: int,
    improving: bool,
    alpha: int,
    base: int,
    not_improving_coeff: int,
)
    ensures
        move_count_pruning ==> late_move_prune_spec(move_count_pruning, lmr_depth, eval, improving, alpha, base, not_improving_coeff),
        late_move_prune_spec(move_count_pruning, lmr_depth, eval, improving, alpha, base, not_improving_coeff)
            && !move_count_pruning ==> lmr_depth <= 3,
{
}

/// A reduced move is never the first ones (two, four at the root), never
/// shallower than depth 3, never a promotion, played in check or giving check.
pub proof fn lemma_reductions_spare(
    depth: int,
    move_index: int,
    is_root: bool,
    is_quiet: bool,
    skip_quiets: bool,
    eval: int,
    captured_value: int,
    alpha: int,
    cut_node: bool,
    is_promotion: bool,
    in_check: bool,
    gives_check: bool,
)
    ensures
        is_reducible_spec(depth, move_index, is_root, is_quiet, skip_quiets, eval, captured_value, alpha, cut_node, is_promotion, in_check, gives_check)
            ==> {
            &&& depth >= 3
            &&& move_index >= 2
            &&& (is_root ==> move_index >= 4)
            &&& !is_promotion
            &&& !in_check
            &&& !gives_check
        },
{
}

} // verus!
