//! The goal-policy driven A* pathfinder over the occupancy grid.
//!
//! The movement model offers the four cardinal moves at base cost 10 and
//! diagonal moves, synthesised from two adjacent cardinal moves, at cost 14;
//! a diagonal is only offered when both underlying cardinal cells are
//! themselves trespassable, so paths never cut through blocked corners.
//! A move whose destination is currently occupied by another unit costs an
//! extra 100: occupied cells are avoided but never unreachable.
//!
//! Which cells count as a goal, and which heuristic orders the search, is
//! selected per goal-policy from the requesting NPC's state and kind. The
//! search itself is the A* algorithm of an external crate, called behind a
//! contract; every property of the returned paths stated here is proved from
//! that contract and the verified successor generator.

use vstd::prelude::*;
use crate::components::NpcState;
use crate::grid::{Pos, TransformToGrid, MAX_GRID_DIM};
use crate::occupancy::TrespassableCells;

verus! {

/// Squared Euclidean distance between two cells, in cell units.
pub open spec fn dist_sq(a: Pos, b: Pos) -> int {
    (a.x - b.x) * (a.x - b.x) + (a.y - b.y) * (a.y - b.y)
}

/// The cell's coordinates are small enough for the search arithmetic.
pub open spec fn cell_in_range(p: Pos) -> bool {
    &&& -MAX_GRID_DIM <= p.x <= MAX_GRID_DIM
    &&& -MAX_GRID_DIM <= p.y <= MAX_GRID_DIM
}

/// `b` is one cardinal step away from `a`.
pub open spec fn card_delta(a: Pos, b: Pos) -> bool {
    ||| (b.x == a.x + 1 && b.y == a.y)
    ||| (b.x == a.x - 1 && b.y == a.y)
    ||| (b.x == a.x && b.y == a.y + 1)
    ||| (b.x == a.x && b.y == a.y - 1)
}

/// `b` is a trespassable cardinal neighbour of `a`.
pub open spec fn card_succ(t: TrespassableCells, a: Pos, b: Pos) -> bool {
    card_delta(a, b) && t.spec_trespassable(b)
}

/// `b` arises from `a` by two distinct cardinal moves whose intermediate
/// cells are both trespassable, and is itself trespassable. Two opposite
/// moves compose to `a` itself, so the cell can be its own such neighbour.
pub open spec fn diag_succ(t: TrespassableCells, a: Pos, b: Pos) -> bool {
    t.spec_trespassable(b) && {
        ||| (b.x == a.x + 1 && b.y == a.y + 1 && t.tres_at(a.x + 1, a.y as int) && t.tres_at(
            a.x as int,
            a.y + 1,
        ))
        ||| (b.x == a.x + 1 && b.y == a.y - 1 && t.tres_at(a.x + 1, a.y as int) && t.tres_at(
            a.x as int,
            a.y - 1,
        ))
        ||| (b.x == a.x - 1 && b.y == a.y + 1 && t.tres_at(a.x - 1, a.y as int) && t.tres_at(
            a.x as int,
            a.y + 1,
        ))
        ||| (b.x == a.x - 1 && b.y == a.y - 1 && t.tres_at(a.x - 1, a.y as int) && t.tres_at(
            a.x as int,
            a.y - 1,
        ))
        ||| (b.x == a.x && b.y == a.y && ((t.tres_at(a.x + 1, a.y as int) && t.tres_at(
            a.x - 1,
            a.y as int,
        )) || (t.tres_at(a.x as int, a.y + 1) && t.tres_at(a.x as int, a.y - 1))))
    }
}

/// `b` is a cell the search may move to from `a`.
pub open spec fn is_successor(t: TrespassableCells, a: Pos, b: Pos) -> bool {
    card_succ(t, a, b) || diag_succ(t, a, b)
}

/// Base cost of the move from `a` to `b`: 10 for a cardinal step, 14 for a
/// diagonal one.
pub open spec fn step_base(a: Pos, b: Pos) -> int {
    if card_delta(a, b) {
        10
    } else {
        14
    }
}

/// Full cost of the move from `a` to `b`: the base cost, plus 100 when the
/// destination is currently occupied by another unit.
pub open spec fn step_cost(t: TrespassableCells, a: Pos, b: Pos) -> int {
    step_base(a, b) + if t.occupied(b) {
        100int
    } else {
        0int
    }
}

/// Every consecutive pair of `p` is a legal move.
pub open spec fn path_steps_ok(t: TrespassableCells, p: Seq<Pos>) -> bool {
    forall|i: int| 0 <= i < p.len() - 1 ==> is_successor(t, p[i], #[trigger] p[i + 1])
}

/// The goal-policies the pathfinder distinguishes, as selected from the
/// requesting NPC's state and kind.
#[derive(Clone, Copy, Debug, PartialEq, Eq, Structural)]
pub enum Policy {
    /// Walk exactly onto the goal cell.
    Goto,
    /// Approach the goal but stop short of it, at squared distance 10.
    HunterChase,
    /// Flee the goal until beyond squared distance 25.
    HunterEscape,
    /// Flee the goal until beyond squared distance 100.
    CivilianEscape,
}

/// The policy used for a state and kind; attacking and dead NPCs never
/// request paths.
pub open spec fn spec_policy_of(state: NpcState, is_hunter: bool) -> Option<Policy> {
    match state {
        NpcState::Chase => if is_hunter {
            Some(Policy::HunterChase)
        } else {
            Some(Policy::Goto)
        },
        NpcState::Escape => if is_hunter {
            Some(Policy::HunterEscape)
        } else {
            Some(Policy::CivilianEscape)
        },
        NpcState::Chill => Some(Policy::Goto),
        NpcState::Look => Some(Policy::Goto),
        NpcState::Attack => None,
        NpcState::Dead => None,
    }
}

/// Selects the goal-policy for a state and kind.
pub fn policy_of(state: NpcState, is_hunter: bool) -> (r: Option<Policy>)
    ensures
        r == spec_policy_of(state, is_hunter),
{
    match state {
        NpcState::Chase => if is_hunter {
            Some(Policy::HunterChase)
        } else {
            Some(Policy::Goto)
        },
        NpcState::Escape => if is_hunter {
            Some(Policy::HunterEscape)
        } else {
            Some(Policy::CivilianEscape)
        },
        NpcState::Chill => Some(Policy::Goto),
        NpcState::Look => Some(Policy::Goto),
        NpcState::Attack => None,
        NpcState::Dead => None,
    }
}

/// The termination predicate of a policy: whether `c` counts as having
/// reached the goal `goal`.
pub open spec fn policy_goal(pol: Policy, c: Pos, goal: Pos) -> bool {
    match pol {
        Policy::Goto => c == goal,
        Policy::HunterChase => dist_sq(c, goal) < 10,
        Policy::HunterEscape => dist_sq(c, goal) > 25,
        Policy::CivilianEscape => dist_sq(c, goal) > 100,
    }
}

/// A chain of legal moves from `start` ends in a cell satisfying the
/// policy's goal predicate.
pub open spec fn reaches(t: TrespassableCells, pol: Policy, start: Pos, goal: Pos) -> bool {
    exists|p: Seq<Pos>|
        #![auto]
        p.len() >= 1 && p[0] == start && path_steps_ok(t, p) && policy_goal(
            pol,
            p[p.len() - 1],
            goal,
        )
}

/// The shape of a raw search result: a chain of legal moves from `start`
/// whose last cell, and only whose last cell, satisfies the goal predicate.
pub open spec fn search_result_ok(
    t: TrespassableCells,
    pol: Policy,
    start: Pos,
    goal: Pos,
    p: Seq<Pos>,
) -> bool {
    &&& p.len() >= 1
    &&& p[0] == start
    &&& path_steps_ok(t, p)
    &&& policy_goal(pol, p[p.len() - 1], goal)
    &&& forall|i: int| 0 <= i < p.len() - 1 ==> !policy_goal(pol, #[trigger] p[i], goal)
}

/// Squared Euclidean distance between two cells.
pub fn dist_sq_i64(a: Pos, b: Pos) -> (r: i64)
    requires
        cell_in_range(a),
        cell_in_range(b),
    ensures
        r == dist_sq(a, b),
        0 <= r <= 0x40_0000_0000_0000,
{
    let dx = a.x as i64 - b.x as i64;
    let dy = a.y as i64 - b.y as i64;
    proof {
        assert(dx * dx + dy * dy <= 0x40_0000_0000_0000 && 0 <= dx * dx && 0 <= dy * dy)
            by (nonlinear_arith)
            requires
                -0x40_0000 <= dx <= 0x40_0000,
                -0x40_0000 <= dy <= 0x40_0000,
        ;
    }
    dx * dx + dy * dy
}

/// A successor cell is itself trespassable, whichever move produced it.
pub proof fn lemma_successor_trespassable(t: TrespassableCells, a: Pos, b: Pos)
    requires
        is_successor(t, a, b),
    ensures
        t.spec_trespassable(b),
{
}

/// Produces every legal move out of `p` with its cost: the trespassable
/// cardinal neighbours at base cost 10, and the diagonal composites of two
/// trespassable cardinal moves at base cost 14, each surcharged by 100 when
/// its destination is occupied.
pub fn successors_of(t: &TrespassableCells, p: Pos) -> (r: Vec<(Pos, i64)>)
    requires
        t.wf(),
        cell_in_range(p),
    ensures
        forall|i: int|
            0 <= i < r@.len() ==> is_successor(*t, p, (#[trigger] r@[i]).0) && r@[i].1 == step_cost(
                *t,
                p,
                r@[i].0,
            ),
        forall|b: Pos| #[trigger] is_successor(*t, p, b) ==> exists|i: int|
            0 <= i < r@.len() && r@[i].0 == b,
{
    let right = Pos { x: p.x + 1, y: p.y };
    let left = Pos { x: p.x - 1, y: p.y };
    let up = Pos { x: p.x, y: p.y + 1 };
    let down = Pos { x: p.x, y: p.y - 1 };
    let ne = Pos { x: p.x + 1, y: p.y + 1 };
    let se = Pos { x: p.x + 1, y: p.y - 1 };
    let nw = Pos { x: p.x - 1, y: p.y + 1 };
    let sw = Pos { x: p.x - 1, y: p.y - 1 };
    let r_ok = t.is_trespassable(&right);
    let l_ok = t.is_trespassable(&left);
    let u_ok = t.is_trespassable(&up);
    let d_ok = t.is_trespassable(&down);
    let ne_ok = r_ok && u_ok && t.is_trespassable(&ne);
    let se_ok = r_ok && d_ok && t.is_trespassable(&se);
    let nw_ok = l_ok && u_ok && t.is_trespassable(&nw);
    let sw_ok = l_ok && d_ok && t.is_trespassable(&sw);
    let self_ok = ((r_ok && l_ok) || (u_ok && d_ok)) && t.is_trespassable(&p);
    let mut cands: Vec<(bool, Pos, i64)> = Vec::new();
    cands.push((r_ok, right, 10));
    cands.push((l_ok, left, 10));
    cands.push((u_ok, up, 10));
    cands.push((d_ok, down, 10));
    cands.push((ne_ok, ne, 14));
    cands.push((se_ok, se, 14));
    cands.push((nw_ok, nw, 14));
    cands.push((sw_ok, sw, 14));
    cands.push((self_ok, p, 14));
    proof {
        assert forall|j: int| 0 <= j < cands@.len() && (#[trigger] cands@[j]).0 implies is_successor(
            *t,
            p,
            cands@[j].1,
        ) && cands@[j].2 == step_base(p, cands@[j].1) by {
            if j == 8 {
                assert(diag_succ(*t, p, p));
                assert(!card_delta(p, p));
            }
        }
    }
    let mut r: Vec<(Pos, i64)> = Vec::new();
    let mut i: usize = 0;
    while i < cands.len()
        invariant
            t.wf(),
            i <= cands@.len(),
            forall|j: int|
                0 <= j < cands@.len() && (#[trigger] cands@[j]).0 ==> is_successor(
                    *t,
                    p,
                    cands@[j].1,
                ) && cands@[j].2 == step_base(p, cands@[j].1),
            forall|j: int|
                0 <= j < i && (#[trigger] cands@[j]).0 ==> exists|m: int|
                    0 <= m < r@.len() && r@[m].0 == cands@[j].1,
            forall|m: int|
                0 <= m < r@.len() ==> is_successor(*t, p, (#[trigger] r@[m]).0) && r@[m].1
                    == step_cost(*t, p, r@[m].0),
        decreases cands@.len() - i,
    {
        let (ok, cell, base) = cands[i];
        let ghost r0 = r@;
        if ok {
            let c: i64 = if t.contains_unit(&cell) {
                base + 100
            } else {
                base
            };
            r.push((cell, c));
        }
        proof {
            assert forall|j: int| 0 <= j <= i as int && (#[trigger] cands@[j]).0 implies exists|
                m: int,
            | 0 <= m < r@.len() && r@[m].0 == cands@[j].1 by {
                if j == i as int {
                    assert(r@[r@.len() - 1].0 == cands@[j].1);
                } else {
                    let m = choose|m: int| 0 <= m < r0.len() && r0[m].0 == cands@[j].1;
                    assert(r@[m].0 == cands@[j].1);
                }
            }
        }
        i = i + 1;
    }
    proof {
        assert forall|b: Pos| #[trigger] is_successor(*t, p, b) implies exists|m: int|
            0 <= m < r@.len() && r@[m].0 == b by {
            if card_succ(*t, p, b) {
                if b.x == p.x + 1 && b.y == p.y {
                    assert(b == cands@[0].1 && cands@[0].0);
                } else if b.x == p.x - 1 && b.y == p.y {
                    assert(b == cands@[1].1 && cands@[1].0);
                } else if b.x == p.x && b.y == p.y + 1 {
                    assert(b == cands@[2].1 && cands@[2].0);
                } else {
                    assert(b == cands@[3].1 && cands@[3].0);
                }
            } else {
                if b.x == p.x + 1 && b.y == p.y + 1 {
                    assert(b == cands@[4].1 && cands@[4].0);
                } else if b.x == p.x + 1 && b.y == p.y - 1 {
                    assert(b == cands@[5].1 && cands@[5].0);
                } else if b.x == p.x - 1 && b.y == p.y + 1 {
                    assert(b == cands@[6].1 && cands@[6].0);
                } else if b.x == p.x - 1 && b.y == p.y - 1 {
                    assert(b == cands@[7].1 && cands@[7].0);
                } else {
                    assert(b == cands@[8].1 && cands@[8].0);
                }
            }
        }
    }
    r
}

/// The heuristic value ordering the search frontier for a policy: the
/// y-weighted Manhattan-like distance for the approaching policies, and the
/// inverted squared distance, biasing the search away from the goal, for the
/// fleeing ones.
pub open spec fn spec_heuristic(pol: Policy, c: Pos, goal: Pos) -> int {
    match pol {
        Policy::Goto | Policy::HunterChase => vstd::math::abs(c.x - goal.x) as int + vstd::math::abs(c.y - goal.y) as int * 10,
        Policy::HunterEscape | Policy::CivilianEscape => 9999 - dist_sq(c, goal),
    }
}

/// Computes the heuristic of a policy.
pub fn policy_heuristic(pol: Policy, c: Pos, goal: Pos) -> (h: i64)
    requires
        cell_in_range(c),
        cell_in_range(goal),
    ensures
        h == spec_heuristic(pol, c, goal),
{
    match pol {
        Policy::Goto | Policy::HunterChase => {
            let dx = if c.x >= goal.x {
                c.x as i64 - goal.x as i64
            } else {
                goal.x as i64 - c.x as i64
            };
            let dy = if c.y >= goal.y {
                c.y as i64 - goal.y as i64
            } else {
                goal.y as i64 - c.y as i64
            };
            dx + dy * 10
        },
        Policy::HunterEscape | Policy::CivilianEscape => 9999 - dist_sq_i64(c, goal),
    }
}

/// Evaluates the termination predicate of a policy.
pub fn policy_reached(pol: Policy, c: Pos, goal: Pos) -> (r: bool)
    requires
        cell_in_range(c),
        cell_in_range(goal),
    ensures
        r == policy_goal(pol, c, goal),
{
    match pol {
        Policy::Goto => c.x == goal.x && c.y == goal.y,
        Policy::HunterChase => dist_sq_i64(c, goal) < 10,
        Policy::HunterEscape => dist_sq_i64(c, goal) > 25,
        Policy::CivilianEscape => dist_sq_i64(c, goal) > 100,
    }
}

/// Relies on `pathfinding::prelude::astar`: the returned path comprises both
/// the start and the end node, consecutive nodes come from the successor
/// closure, the end node is the first explored node satisfying the success
/// closure (so no earlier path node satisfies it), and `None` comes back
/// exactly when no chain of successors from the start reaches a success
/// node. The closures only call this crate's verified successor generator,
/// heuristic and goal predicate.
#[verifier::external_body]
fn astar_search(t: &TrespassableCells, start: Pos, goal: Pos, pol: Policy) -> (r: Option<Vec<Pos>>)
    requires
        t.wf(),
        cell_in_range(start),
        cell_in_range(goal),
    ensures
        match r {
            Some(p) => search_result_ok(*t, pol, start, goal, p@),
            None => !reaches(*t, pol, start, goal),
        },
{
    pathfinding::prelude::astar(
        &start,
        |c: &Pos| successors_of(t, *c),
        |c: &Pos| policy_heuristic(pol, *c, goal),
        |c: &Pos| policy_reached(pol, *c, goal),
    ).map(|found| found.0)
}

/// Every cell of a move chain except possibly the first is trespassable.
pub proof fn lemma_path_cells_trespassable(t: TrespassableCells, p: Seq<Pos>)
    requires
        path_steps_ok(t, p),
    ensures
        forall|i: int| 1 <= i < p.len() ==> t.spec_trespassable(#[trigger] p[i]),
{
    assert forall|i: int| 1 <= i < p.len() implies t.spec_trespassable(#[trigger] p[i]) by {
        assert(is_successor(t, p[i - 1], p[(i - 1) + 1]));
        lemma_successor_trespassable(t, p[i - 1], p[i]);
    }
}

/// A prefix of a move chain is a move chain.
pub proof fn lemma_steps_prefix(t: TrespassableCells, p: Seq<Pos>, n: int)
    requires
        path_steps_ok(t, p),
        0 <= n <= p.len(),
    ensures
        path_steps_ok(t, p.subrange(0, n)),
{
    let q = p.subrange(0, n);
    assert forall|i: int| 0 <= i < q.len() - 1 implies is_successor(t, q[i], #[trigger] q[i + 1]) by {
        assert(q[i] == p[i]);
        assert(q[i + 1] == p[i + 1]);
        assert(is_successor(t, p[i], p[i + 1]));
    }
}

/// What holds of every route the pathfinder returns under a policy.
pub open spec fn pathfinder_some_ok(
    p: Seq<Pos>,
    t: TrespassableCells,
    pol: Policy,
    start: Pos,
    goal: Pos,
) -> bool {
    &&& p.len() >= 2
    &&& p[0] == start
    &&& path_steps_ok(t, p)
    &&& forall|i: int| 1 <= i < p.len() ==> t.spec_trespassable(#[trigger] p[i])
    &&& (pol != Policy::HunterChase ==> policy_goal(pol, p[p.len() - 1], goal) && forall|i: int|
        0 <= i < p.len() - 1 ==> !policy_goal(pol, #[trigger] p[i], goal))
    &&& (pol == Policy::HunterChase ==> (forall|i: int|
        0 <= i < p.len() ==> dist_sq(#[trigger] p[i], goal) >= 10) && exists|raw: Seq<Pos>|
        #![auto]
        search_result_ok(t, pol, start, goal, raw) && raw.len() > 5 && p == raw.subrange(
            0,
            raw.len() - 4,
        ))
}

/// When the pathfinder answers "no path": a grid was not ready, the state
/// requests no path, no chain of moves meets the goal predicate, the goal
/// predicate held at the start already, or the hunter's approach came out
/// too short to trim.
pub open spec fn pathfinder_none_ok(
    t: TrespassableCells,
    transformer_ready: bool,
    polo: Option<Policy>,
    start: Pos,
    goal: Pos,
) -> bool {
    ||| !(t.ready && transformer_ready)
    ||| polo is None
    ||| !reaches(t, polo->Some_0, start, goal)
    ||| (polo->Some_0 != Policy::HunterChase && policy_goal(polo->Some_0, start, goal))
    ||| (polo->Some_0 == Policy::HunterChase && exists|raw: Seq<Pos>|
        #![auto]
        search_result_ok(t, Policy::HunterChase, start, goal, raw) && raw.len() <= 5)
}

/// Finds a route from `start_ipos` for the goal `end_ipos` under the policy
/// selected by the NPC's state and kind, once the grids are ready.
///
/// The returned route includes the requesting NPC's own cell first; every
/// later cell is trespassable and each consecutive pair is a legal move, so
/// no returned route crosses a blocked cell or cuts a blocked corner. Under
/// the exact-arrival policy the route ends exactly on the goal; under a
/// fleeing policy it ends at the first cell beyond the policy's squared
/// distance; under the hunter's approach policy every returned cell keeps
/// squared distance at least 10 from the goal, the tail of the raw search
/// result being trimmed by exactly 4 cells. A route that would be a single
/// cell, a goal already met, an unready grid or an exhausted search all
/// yield `None`, which callers treat as "stay put and retry".
pub fn pathfinder(
    start_ipos: Pos,
    end_ipos: Pos,
    trespassable: &TrespassableCells,
    transformer: &TransformToGrid,
    npc_state: NpcState,
    is_hunter: bool,
) -> (r: Option<Vec<Pos>>)
    requires
        trespassable.wf(),
        cell_in_range(start_ipos),
        cell_in_range(end_ipos),
    ensures
        r is Some ==> trespassable.ready && transformer.ready && spec_policy_of(
            npc_state,
            is_hunter,
        ) is Some && pathfinder_some_ok(
            r->Some_0@,
            *trespassable,
            spec_policy_of(npc_state, is_hunter)->Some_0,
            start_ipos,
            end_ipos,
        ),
        r is None ==> pathfinder_none_ok(
            *trespassable,
            transformer.ready,
            spec_policy_of(npc_state, is_hunter),
            start_ipos,
            end_ipos,
        ),
{
    if !(trespassable.ready && transformer.ready) {
        return None;
    }
    let pol = match policy_of(npc_state, is_hunter) {
        Some(pol) => pol,
        None => {
            return None;
        },
    };
    let found = astar_search(trespassable, start_ipos, end_ipos, pol);
    match found {
        None => None,
        Some(path) => {
            proof {
                lemma_path_cells_trespassable(*trespassable, path@);
            }
            match pol {
                Policy::HunterChase => {
                    if path.len() > 5 {
                        let n = path.len() - 4;
                        let ghost raw = path@;
                        let mut out = path;
                        out.truncate(n);
                        proof {
                            lemma_steps_prefix(*trespassable, raw, n as int);
                            lemma_path_cells_trespassable(*trespassable, out@);
                            assert forall|i: int| 0 <= i < out@.len() implies dist_sq(
                                #[trigger] out@[i],
                                end_ipos,
                            ) >= 10 by {
                                assert(out@[i] == raw[i]);
                                assert(!policy_goal(Policy::HunterChase, raw[i], end_ipos));
                            }
                        }
                        Some(out)
                    } else {
                        None
                    }
                },
                _ => {
                    if path.len() > 1 {
                        Some(path)
                    } else {
                        proof {
                            assert(path@[0] == start_ipos);
                            assert(policy_goal(pol, path@[path@.len() - 1], end_ipos));
                        }
                        None
                    }
                },
            }
        },
    }
}


/// A diagonal move appears in a legal step only when the two cardinal cells
/// it cuts across are both trespassable: no path cuts a blocked corner.
pub proof fn lemma_diagonal_needs_corners(t: TrespassableCells, a: Pos, b: Pos)
    requires
        is_successor(t, a, b),
        b.x == a.x + 1,
        b.y == a.y + 1,
    ensures
        t.tres_at(a.x + 1, a.y as int),
        t.tres_at(a.x as int, a.y + 1),
{
}

/// Total cost of a route, step by step.
pub open spec fn path_cost(t: TrespassableCells, p: Seq<Pos>) -> int
    decreases p.len(),
{
    if p.len() <= 1 {
        0
    } else {
        step_cost(t, p[0], p[1]) + path_cost(t, p.drop_first())
    }
}

/// Total base cost of a route, ignoring occupancy.
pub open spec fn path_base_cost(p: Seq<Pos>) -> int
    decreases p.len(),
{
    if p.len() <= 1 {
        0
    } else {
        step_base(p[0], p[1]) + path_base_cost(p.drop_first())
    }
}

/// How many steps of the route land on a currently occupied cell.
pub open spec fn occupied_steps(t: TrespassableCells, p: Seq<Pos>) -> int
    decreases p.len(),
{
    if p.len() <= 1 {
        0
    } else {
        (if t.occupied(p[1]) {
            1int
        } else {
            0int
        }) + occupied_steps(t, p.drop_first())
    }
}

/// Occupied cells surcharge a route's cost by exactly 100 per traversed
/// occupied cell over the same route on an empty grid.
pub proof fn lemma_occupancy_penalty(t: TrespassableCells, p: Seq<Pos>)
    ensures
        path_cost(t, p) == path_base_cost(p) + 100 * occupied_steps(t, p),
    decreases p.len(),
{
    if p.len() > 1 {
        lemma_occupancy_penalty(t, p.drop_first());
    }
}

/// Which moves are legal does not depend on the occupied-cell list: an
/// occupied cell is never rendered unreachable.
pub proof fn lemma_units_never_block(t1: TrespassableCells, t2: TrespassableCells, a: Pos, b: Pos)
    requires
        t1.cells@ == t2.cells@,
    ensures
        is_successor(t1, a, b) == is_successor(t2, a, b),
{
}

/// A legal move chain stays legal under any occupied-cell list.
pub proof fn lemma_units_preserve_steps(
    t1: TrespassableCells,
    t2: TrespassableCells,
    p: Seq<Pos>,
)
    requires
        t1.cells@ == t2.cells@,
        path_steps_ok(t1, p),
    ensures
        path_steps_ok(t2, p),
{
    assert forall|i: int| 0 <= i < p.len() - 1 implies is_successor(t2, p[i], #[trigger] p[i + 1]) by {
        assert(is_successor(t1, p[i], p[i + 1]));
        lemma_units_never_block(t1, t2, p[i], p[i + 1]);
    }
}

/// Whether a goal is reachable does not depend on the occupied-cell list.
pub proof fn lemma_units_preserve_reachability(
    t1: TrespassableCells,
    t2: TrespassableCells,
    pol: Policy,
    start: Pos,
    goal: Pos,
)
    requires
        t1.cells@ == t2.cells@,
    ensures
        reaches(t1, pol, start, goal) == reaches(t2, pol, start, goal),
{
    if reaches(t1, pol, start, goal) {
        let p = choose|p: Seq<Pos>|
            #![auto]
            p.len() >= 1 && p[0] == start && path_steps_ok(t1, p) && policy_goal(
                pol,
                p[p.len() - 1],
                goal,
            );
        lemma_units_preserve_steps(t1, t2, p);
        assert(p.len() >= 1 && p[0] == start && path_steps_ok(t2, p) && policy_goal(
            pol,
            p[p.len() - 1],
            goal,
        ));
    }
    if reaches(t2, pol, start, goal) {
        let p = choose|p: Seq<Pos>|
            #![auto]
            p.len() >= 1 && p[0] == start && path_steps_ok(t2, p) && policy_goal(
                pol,
                p[p.len() - 1],
                goal,
            );
        lemma_units_preserve_steps(t2, t1, p);
        assert(p.len() >= 1 && p[0] == start && path_steps_ok(t1, p) && policy_goal(
            pol,
            p[p.len() - 1],
            goal,
        ));
    }
}


/// On ready grids, an exact-arrival query for a reachable goal other than
/// the start is never refused: the "no path" cases and reachability
/// exclude each other.
pub proof fn lemma_goto_never_refuses_reachable(
    t: TrespassableCells,
    transformer_ready: bool,
    start: Pos,
    goal: Pos,
)
    requires
        t.ready,
        transformer_ready,
        reaches(t, Policy::Goto, start, goal),
        start != goal,
    ensures
        !pathfinder_none_ok(t, transformer_ready, Some(Policy::Goto), start, goal),
{
}

/// An exact-arrival route starts at the requester's cell, steps first into
/// one of its legal neighbours, and ends exactly on the goal.
pub proof fn lemma_goto_route_shape(p: Seq<Pos>, t: TrespassableCells, start: Pos, goal: Pos)
    requires
        pathfinder_some_ok(p, t, Policy::Goto, start, goal),
    ensures
        p[0] == start,
        is_successor(t, start, p[1]),
        p[p.len() - 1] == goal,
{
    assert(is_successor(t, p[0int], p[0int + 1]));
}

/// A fleeing route ends at the first cell beyond the policy's squared
/// distance from the goal: beyond 25 for hunters, beyond 100 for
/// civilians.
pub proof fn lemma_escape_route_flees(p: Seq<Pos>, t: TrespassableCells, start: Pos, goal: Pos)
    requires
        pathfinder_some_ok(p, t, Policy::HunterEscape, start, goal) || pathfinder_some_ok(
            p,
            t,
            Policy::CivilianEscape,
            start,
            goal,
        ),
    ensures
        pathfinder_some_ok(p, t, Policy::HunterEscape, start, goal) ==> dist_sq(
            p[p.len() - 1],
            goal,
        ) > 25 && forall|i: int| 0 <= i < p.len() - 1 ==> dist_sq(#[trigger] p[i], goal) <= 25,
        pathfinder_some_ok(p, t, Policy::CivilianEscape, start, goal) ==> dist_sq(
            p[p.len() - 1],
            goal,
        ) > 100 && forall|i: int| 0 <= i < p.len() - 1 ==> dist_sq(#[trigger] p[i], goal) <= 100,
{
}

/// A hunter's approach route never ends within squared distance 10 of the
/// goal, and is the raw search result with exactly 4 cells trimmed from
/// its tail.
pub proof fn lemma_hunter_chase_route_keeps_distance(
    p: Seq<Pos>,
    t: TrespassableCells,
    start: Pos,
    goal: Pos,
)
    requires
        pathfinder_some_ok(p, t, Policy::HunterChase, start, goal),
    ensures
        dist_sq(p[p.len() - 1], goal) >= 10,
        exists|raw: Seq<Pos>|
            #![auto]
            search_result_ok(t, Policy::HunterChase, start, goal, raw) && raw.len() == p.len() + 4
                && p == raw.subrange(0, p.len() as int),
{
    let raw = choose|raw: Seq<Pos>|
        #![auto]
        search_result_ok(t, Policy::HunterChase, start, goal, raw) && raw.len() > 5 && p
            == raw.subrange(0, raw.len() - 4);
    assert(p.len() == raw.len() - 4);
    assert(raw.len() == p.len() + 4 && p == raw.subrange(0, p.len() as int));
}

} // verus!


