//! The per-tick NPC state machines.
//!
//! Each management function evaluates one NPC for one simulation tick: it
//! takes the sensed surroundings (positions, the line-of-sight probe's
//! answer, the day/night phase, the frame's duration and the tick's random
//! draws), mutates the NPC's own components, and returns the side effects as
//! a list of commands for the surrounding engine to perform — animation
//! triggers, particles, sounds, damage events, projectile throws and the
//! movement target. The state transition itself is captured by a relation
//! between the NPC before and after the call.

use vstd::prelude::*;
use crate::components::{
    AttackTimer, ChillTimer, DayCycle, DespawnTimer, HunterTimer, NpcKind, NpcPath, NpcState,
    ParticleTimer, PlayerLastPos, RosesCollected, TickTimer,
};
use crate::grid::{Pos, TransformToGrid, WorldVec2, MAX_GRID_DIM};
use crate::intercept::{calculate_intercept, intercept_point, InterceptTime};
use crate::occupancy::TrespassableCells;
use crate::pathfinder::{
    cell_in_range, dist_sq, pathfinder, path_steps_ok, policy_goal, reaches, Policy,
};

verus! {

broadcast use vstd::seq_lib::lemma_seq_contains_after_push;

/// How far an NPC spots the player, squared, in world units: hunters.
pub const SPOT_DIST_SQ: i64 = 40000;

/// How far an NPC spots the player, squared, in world units: civilians.
pub const SPOT_DIST_CIV_SQ: i64 = 10000;

/// The distance band threshold, squared: closer means fleeing for hunters
/// and re-engaging for civilians.
pub const THRESHOLD_SQ: i64 = 10000;

/// The upper distance band threshold, squared, for hunters.
pub const UPP_THRESHOLD_SQ: i64 = 40000;

/// Melee range, squared, in world units.
pub const MELEE_SQ: i64 = 256;

/// Beyond this squared distance from the player an NPC's state machine is
/// skipped for the tick.
pub const CULL_SQ: i64 = 1000000;

/// The speed of a thrown projectile, in world units per second.
pub const PROJ_V: i64 = 150;

/// Bound on the world coordinates and velocities the state machines accept.
pub const FIELD_BOUND: i64 = 0x100000;

/// A side effect of one NPC's tick, to be performed by the surrounding
/// engine.
#[derive(Clone, Copy, Debug, PartialEq, Eq, Structural)]
pub enum NpcCommand {
    PlayHurt,
    RemoveCollider,
    SpawnBody,
    Despawn,
    SpawnAngryParticle,
    SpawnQuestionParticle,
    SpawnWarnParticle,
    PlaySoundHit,
    PlaySoundThrow,
    PlayCivilAttack,
    PlayHunterThrow,
    HitPlayer { dmg_type: u8 },
    Arm,
    Disarm,
    PlayIdle,
    PlayWalk,
    TurnLeft,
    TurnRight,
    TurnUp,
    TurnDown,
    MoveToward { dir: WorldVec2 },
    StopMoving,
    ThrowProjectile { at: WorldVec2, variant: u8 },
}

/// One civilian's mutable components.
pub struct Civilian {
    pub state: NpcState,
    pub path: NpcPath,
    pub chill_timer: ChillTimer,
    pub attack_timer: AttackTimer,
    pub particle_timer: ParticleTimer,
}

/// One hunter's mutable components.
pub struct Hunter {
    pub state: NpcState,
    pub path: NpcPath,
    pub hunter_timer: HunterTimer,
    pub chill_timer: ChillTimer,
    pub player_last_pos: PlayerLastPos,
}

/// The sensed surroundings of one NPC for one tick.
pub struct NpcEnv {
    /// The NPC's own world position.
    pub npc_pos: WorldVec2,
    /// The player's world position.
    pub player_pos: WorldVec2,
    /// The player's current velocity, used to lead throws.
    pub player_vel: WorldVec2,
    /// What the line-of-sight ray hit first: `Some(true)` the player,
    /// `Some(false)` something else, `None` nothing at all.
    pub ray_hit_player: Option<bool>,
    /// The day/night phase.
    pub day: DayCycle,
    /// The tick's duration in milliseconds.
    pub dt_ms: u32,
    /// This tick's random wander offset, x part, in cells.
    pub wander_dx: i32,
    /// This tick's random wander offset, y part, in cells.
    pub wander_dy: i32,
    /// This tick's random choice of throwable.
    pub throw_variant: u8,
}

/// Squared distance between two world positions.
pub open spec fn wdist_sq(a: WorldVec2, b: WorldVec2) -> int {
    (a.x - b.x) * (a.x - b.x) + (a.y - b.y) * (a.y - b.y)
}

/// Squared distance between two world positions.
pub fn wdist_sq_i64(a: WorldVec2, b: WorldVec2) -> (r: i64)
    requires
        -FIELD_BOUND <= a.x <= FIELD_BOUND,
        -FIELD_BOUND <= a.y <= FIELD_BOUND,
        -FIELD_BOUND <= b.x <= FIELD_BOUND,
        -FIELD_BOUND <= b.y <= FIELD_BOUND,
    ensures
        r == wdist_sq(a, b),
        0 <= r <= 0x4_0000_0000_0000,
{
    let dx = a.x - b.x;
    let dy = a.y - b.y;
    proof {
        assert(0 <= dx * dx <= 0x1_0000_0000_0000 && 0 <= dy * dy <= 0x1_0000_0000_0000)
            by (nonlinear_arith)
            requires
                -0x200000 <= dx <= 0x200000,
                -0x200000 <= dy <= 0x200000,
        ;
    }
    dx * dx + dy * dy
}

/// The world position lies in the field and lands on a cell the search
/// arithmetic accepts.
pub open spec fn pos_in_field(tf: TransformToGrid, w: WorldVec2) -> bool {
    &&& -FIELD_BOUND <= w.x <= FIELD_BOUND
    &&& -FIELD_BOUND <= w.y <= FIELD_BOUND
    &&& -MAX_GRID_DIM <= tf.cell_x_of(w.x as int) <= MAX_GRID_DIM
    &&& -MAX_GRID_DIM <= tf.cell_y_of(w.y as int) <= MAX_GRID_DIM
}

/// The environment's values are within the machine bounds the state
/// machines compute with.
pub open spec fn env_wf(env: NpcEnv, tf: TransformToGrid) -> bool {
    &&& pos_in_field(tf, env.npc_pos)
    &&& pos_in_field(tf, env.player_pos)
    &&& -FIELD_BOUND <= env.player_vel.x <= FIELD_BOUND
    &&& -FIELD_BOUND <= env.player_vel.y <= FIELD_BOUND
    &&& env.dt_ms <= 0x4000_0000
    &&& -2 <= env.wander_dx < 2
    &&& -2 <= env.wander_dy < 2
    &&& env.throw_variant < 4
}

/// A committed route is either absent or a legal move chain of at least two
/// in-range cells.
pub open spec fn path_wf(p: NpcPath, t: TrespassableCells) -> bool {
    match p.path {
        Some(v) => {
            &&& v@.len() >= 2
            &&& path_steps_ok(t, v@)
            &&& forall|i: int| 0 <= i < v@.len() ==> cell_in_range(#[trigger] v@[i])
        },
        None => true,
    }
}

impl Civilian {
    /// Timers are well-formed and any committed route is valid.
    pub open spec fn wf(self, t: TrespassableCells) -> bool {
        &&& self.chill_timer.timer.wf()
        &&& self.attack_timer.timer.wf()
        &&& self.particle_timer.timer.wf()
        &&& path_wf(self.path, t)
    }
}

impl Hunter {
    /// Timers are well-formed, any committed route is valid, and the
    /// remembered player cell is in range.
    pub open spec fn wf(self, t: TrespassableCells) -> bool {
        &&& self.chill_timer.timer.wf()
        &&& self.hunter_timer.timer.wf()
        &&& path_wf(self.path, t)
        &&& cell_in_range(self.player_last_pos.pos)
    }
}

/// The grid cell a world position falls in, as the transform computes it.
pub open spec fn cell_of(tf: TransformToGrid, w: WorldVec2) -> Pos {
    Pos { x: tf.cell_x_of(w.x as int) as i32, y: tf.cell_y_of(w.y as int) as i32 }
}

/// Whether the player is in sight this tick: the ray hit the player first
/// and the player is within the spot radius.
pub open spec fn spec_in_sight(env: NpcEnv, spot_sq: int) -> bool {
    env.ray_hit_player == Some(true) && wdist_sq(env.npc_pos, env.player_pos) < spot_sq
}

/// The facing that walking toward `(mdx, mdy)` selects: the x axis wins
/// whenever its component is nonzero, else the y component decides, and a
/// zero vector turns nobody.
pub open spec fn facing_cmds_ok(cmds: Seq<NpcCommand>, mdx: int, mdy: int) -> bool {
    if mdx == 0 {
        if mdy > 0 {
            cmds.contains(NpcCommand::TurnUp)
        } else if mdy < 0 {
            cmds.contains(NpcCommand::TurnDown)
        } else {
            true
        }
    } else if mdx > 0 {
        cmds.contains(NpcCommand::TurnRight)
    } else {
        cmds.contains(NpcCommand::TurnLeft)
    }
}

/// A civilian's state after the pre-movement evaluation of its current
/// state.
pub open spec fn civ_mid_state(s0: NpcState, in_sight: bool, night: bool, close: bool) -> NpcState {
    if s0 == NpcState::Chill {
        if in_sight {
            if night {
                NpcState::Escape
            } else {
                NpcState::Chase
            }
        } else {
            NpcState::Chill
        }
    } else if s0 == NpcState::Escape {
        if !night {
            if in_sight {
                NpcState::Chase
            } else {
                NpcState::Chill
            }
        } else {
            NpcState::Escape
        }
    } else {
        // chasing
        if close {
            NpcState::Attack
        } else if in_sight {
            if night {
                NpcState::Escape
            } else {
                NpcState::Chase
            }
        } else {
            NpcState::Chill
        }
    }
}

/// A civilian's state at the end of the tick: the mid-tick state while a
/// route is committed, else re-evaluated from distance and sight.
pub open spec fn civ_end_state(
    s0: NpcState,
    in_sight: bool,
    night: bool,
    dsq: int,
    close: bool,
    has_path: bool,
) -> NpcState {
    if has_path {
        civ_mid_state(s0, in_sight, night, close)
    } else {
        if dsq > THRESHOLD_SQ {
            NpcState::Chill
        } else if in_sight {
            if night {
                NpcState::Escape
            } else {
                NpcState::Chase
            }
        } else {
            NpcState::Chill
        }
    }
}

/// The full tick relation for one civilian: how the components after the
/// tick and the emitted commands follow from the components before it and
/// the sensed surroundings.
pub open spec fn civ_step_rel(
    pre: Civilian,
    post: Civilian,
    cmds: Seq<NpcCommand>,
    env: NpcEnv,
    t: TrespassableCells,
    tf: TransformToGrid,
) -> bool {
    let dsq = wdist_sq(env.npc_pos, env.player_pos);
    let in_sight = spec_in_sight(env, SPOT_DIST_CIV_SQ as int);
    let night = env.day.is_night;
    let close = dsq < MELEE_SQ;
    let npc_cell = cell_of(tf, env.npc_pos);
    let player_cell = cell_of(tf, env.player_pos);
    if dsq > CULL_SQ || env.ray_hit_player is None || pre.state == NpcState::Look {
        post == pre && cmds =~= Seq::<NpcCommand>::empty()
    } else if pre.state == NpcState::Dead {
        let fin = pre.attack_timer.timer.finishes_after(env.dt_ms);
        &&& post.state == NpcState::Dead
        &&& post.attack_timer.timer == pre.attack_timer.timer.spec_ticked(env.dt_ms)
        &&& post.path == pre.path
        &&& post.chill_timer == pre.chill_timer
        &&& post.particle_timer == pre.particle_timer
        &&& cmds.contains(NpcCommand::PlayHurt)
        &&& cmds.contains(NpcCommand::RemoveCollider)
        &&& (cmds.contains(NpcCommand::Despawn) <==> fin)
        &&& (cmds.contains(NpcCommand::SpawnBody) <==> fin)
    } else if pre.state == NpcState::Attack {
        let fin = pre.attack_timer.timer.finishes_after(env.dt_ms);
        &&& post.state == if fin {
            NpcState::Chase
        } else {
            NpcState::Attack
        }
        &&& post.attack_timer.timer == if fin {
            TickTimer { elapsed_ms: 0, duration_ms: pre.attack_timer.timer.duration_ms }
        } else {
            pre.attack_timer.timer.spec_ticked(env.dt_ms)
        }
        &&& post.particle_timer.timer == pre.particle_timer.timer.spec_ticked(env.dt_ms)
        &&& post.path == pre.path
        &&& post.chill_timer == pre.chill_timer
        &&& (cmds.contains(NpcCommand::HitPlayer { dmg_type: 1 }) <==> fin && close)
        &&& (cmds.contains(NpcCommand::PlayCivilAttack) <==> pre.attack_timer.timer.elapsed_ms
            == 0)
        &&& (cmds.contains(NpcCommand::PlaySoundHit) <==> pre.attack_timer.timer.elapsed_ms == 0)
        &&& (cmds.contains(NpcCommand::SpawnAngryParticle) <==> pre.particle_timer.timer
            .finishes_after(env.dt_ms))
    } else {
        let s0 = pre.state;
        let has_path = post.path.path is Some;
        let stop = s0 == NpcState::Chase && close;
        &&& post.state == civ_end_state(s0, in_sight, night, dsq, close, has_path)
        &&& post.attack_timer == pre.attack_timer
        &&& post.particle_timer.timer == if s0 == NpcState::Chase {
            pre.particle_timer.timer.spec_ticked(env.dt_ms)
        } else {
            pre.particle_timer.timer
        }
        &&& post.chill_timer.timer == if s0 == NpcState::Chill && pre.path.path is None {
            pre.chill_timer.timer.spec_ticked(env.dt_ms)
        } else {
            pre.chill_timer.timer
        }
        // an idle civilian requests a wander route at most once per chill
        // period
        &&& (s0 == NpcState::Chill && pre.path.path is None && !pre.chill_timer.timer
            .finishes_after(env.dt_ms) ==> post.path.path is None)
        // a fleeing civilian's committed route ends beyond the fleeing
        // radius from the player's cell
        &&& (s0 == NpcState::Escape && has_path ==> dist_sq(
            post.path.path->Some_0@[post.path.path->Some_0@.len() - 1],
            player_cell,
        ) > 100)
        // a chasing civilian's committed route ends on the player's cell
        &&& (s0 == NpcState::Chase && has_path ==> in_sight && post.path.path->Some_0@[post.path.path->Some_0@.len() - 1] == player_cell)
        // movement: follow the committed route toward the next waypoint,
        // else stand still
        &&& (has_path && !stop ==> cmds.contains(
            NpcCommand::MoveToward {
                dir: WorldVec2 {
                    x: (tf.world_x_of(post.path.path->Some_0@[1].x as int) - env.npc_pos.x) as i64,
                    y: (tf.world_y_of(post.path.path->Some_0@[1].y as int) - env.npc_pos.y) as i64,
                },
            },
        ))
        &&& (!has_path ==> cmds.contains(NpcCommand::StopMoving))
        &&& (stop ==> cmds.contains(NpcCommand::StopMoving))
        &&& (has_path ==> facing_cmds_ok(
            cmds,
            tf.world_x_of(post.path.path->Some_0@[1].x as int) - env.npc_pos.x,
            tf.world_y_of(post.path.path->Some_0@[1].y as int) - env.npc_pos.y,
        ) && cmds.contains(NpcCommand::PlayWalk))
        &&& (cmds.contains(NpcCommand::SpawnWarnParticle) <==> s0 == NpcState::Chill && in_sight)
        &&& (cmds.contains(NpcCommand::Arm) <==> s0 == NpcState::Chase)
        &&& (cmds.contains(NpcCommand::Disarm) <==> s0 == NpcState::Chill || s0
            == NpcState::Escape)
        &&& (cmds.contains(NpcCommand::SpawnQuestionParticle) <==> s0 == NpcState::Chase
            && !in_sight)
    }
}

/// Runs one civilian's state machine for one tick and returns the side
/// effects to perform.
///
/// A civilian further than the culling radius from the player, or whose
/// line-of-sight probe hit nothing, is left untouched. A dead civilian
/// counts down its death timer and despawns exactly when it elapses. An
/// attacking civilian strikes on its attack period and falls back to
/// chasing. Otherwise the civilian re-evaluates its idle/chase/flee state
/// from sight, distance and the day/night phase, requests routes from the
/// pathfinder, consumes its committed route waypoint by waypoint and walks
/// toward the next one.
pub fn manage_civilian(
    civ: &mut Civilian,
    env: &NpcEnv,
    trespassable: &TrespassableCells,
    transformer: &TransformToGrid,
) -> (cmds: Vec<NpcCommand>)
    requires
        old(civ).wf(*trespassable),
        trespassable.wf(),
        transformer.wf(),
        env_wf(*env, *transformer),
    ensures
        final(civ).wf(*trespassable),
        civ_step_rel(*old(civ), *final(civ), cmds@, *env, *trespassable, *transformer),
{
    let mut cmds: Vec<NpcCommand> = Vec::new();
    let dsq = wdist_sq_i64(env.npc_pos, env.player_pos);
    if dsq > CULL_SQ {
        return cmds;
    }
    let hit = match env.ray_hit_player {
        Some(h) => h,
        None => {
            return cmds;
        },
    };
    let in_sight = hit && dsq < SPOT_DIST_CIV_SQ;
    let npc_cell = transformer.from_world_i32(env.npc_pos);
    let player_cell = transformer.from_world_i32(env.player_pos);
    match civ.state {
        NpcState::Look => {},
        NpcState::Dead => {
            let fin = civ.attack_timer.timer.tick(env.dt_ms);
            cmds.push(NpcCommand::PlayHurt);
            cmds.push(NpcCommand::RemoveCollider);
            if fin {
                cmds.push(NpcCommand::SpawnBody);
                cmds.push(NpcCommand::Despawn);
            }
        },
        NpcState::Attack => {
            let pfin = civ.particle_timer.timer.tick(env.dt_ms);
            if pfin {
                cmds.push(NpcCommand::SpawnAngryParticle);
            }
            if civ.attack_timer.timer.elapsed_ms == 0 {
                cmds.push(NpcCommand::PlaySoundHit);
                cmds.push(NpcCommand::PlayCivilAttack);
            }
            let afin = civ.attack_timer.timer.tick(env.dt_ms);
            if afin {
                if dsq < MELEE_SQ {
                    cmds.push(NpcCommand::HitPlayer { dmg_type: 1 });
                }
                civ.state = NpcState::Chase;
                civ.attack_timer.timer.reset();
            }
        },
        _ => {
            let mut stop = false;
            if matches!(civ.state, NpcState::Chill) {
                cmds.push(NpcCommand::Disarm);
                cmds.push(NpcCommand::PlayIdle);
                if civ.path.path.is_none() {
                    let cfin = civ.chill_timer.timer.tick(env.dt_ms);
                    if cfin {
                        let end = Pos {
                            x: npc_cell.x + env.wander_dx,
                            y: npc_cell.y + env.wander_dy,
                        };
                        if trespassable.is_trespassable(&end) {
                            civ.path.path = pathfinder(
                                npc_cell,
                                end,
                                trespassable,
                                transformer,
                                NpcState::Chill,
                                false,
                            );
                        }
                    }
                }
                if in_sight {
                    cmds.push(NpcCommand::SpawnWarnParticle);
                    civ.state = if env.day.is_night {
                        NpcState::Escape
                    } else {
                        NpcState::Chase
                    };
                }
            } else if matches!(civ.state, NpcState::Escape) {
                cmds.push(NpcCommand::Disarm);
                civ.path.path = pathfinder(
                    npc_cell,
                    player_cell,
                    trespassable,
                    transformer,
                    NpcState::Escape,
                    false,
                );
                if !env.day.is_night {
                    civ.state = if in_sight {
                        NpcState::Chase
                    } else {
                        NpcState::Chill
                    };
                }
            } else {
                let pfin = civ.particle_timer.timer.tick(env.dt_ms);
                if pfin {
                    cmds.push(NpcCommand::SpawnAngryParticle);
                }
                cmds.push(NpcCommand::Arm);
                civ.path.path = pathfinder(
                    npc_cell,
                    player_cell,
                    trespassable,
                    transformer,
                    NpcState::Chase,
                    false,
                );
                if in_sight {
                    if env.day.is_night {
                        civ.state = NpcState::Escape;
                    }
                } else {
                    cmds.push(NpcCommand::SpawnQuestionParticle);
                    civ.state = NpcState::Chill;
                    civ.path.path = None;
                }
                if dsq < MELEE_SQ {
                    civ.state = NpcState::Attack;
                    stop = true;
                }
            }
            let mut del = false;
            match &mut civ.path.path {
                Some(path) => {
                    let w1 = path[1];
                    if w1.x == npc_cell.x && w1.y == npc_cell.y {
                        path.remove(0);
                    }
                    if path.len() < 2 {
                        del = true;
                    }
                },
                None => {},
            }
            if del {
                civ.path.path = None;
            }
            match &civ.path.path {
                Some(path) => {
                    let wp = transformer.to_world(path[1]);
                    proof {
                        lemma_waypoint_world_bounded(*transformer, path@[1]);
                    }
                    let mdx = wp.x - env.npc_pos.x;
                    let mdy = wp.y - env.npc_pos.y;
                    if mdx == 0 {
                        if mdy != 0 {
                            if mdy > 0 {
                                cmds.push(NpcCommand::TurnUp);
                            } else {
                                cmds.push(NpcCommand::TurnDown);
                            }
                        }
                    } else {
                        if mdx > 0 {
                            cmds.push(NpcCommand::TurnRight);
                        } else {
                            cmds.push(NpcCommand::TurnLeft);
                        }
                    }
                    cmds.push(NpcCommand::PlayWalk);
                    if !stop {
                        cmds.push(NpcCommand::MoveToward { dir: WorldVec2 { x: mdx, y: mdy } });
                    }
                },
                None => {
                    cmds.push(NpcCommand::StopMoving);
                    if dsq > THRESHOLD_SQ {
                        civ.state = NpcState::Chill;
                    } else {
                        if in_sight {
                            civ.state = if env.day.is_night {
                                NpcState::Escape
                            } else {
                                NpcState::Chase
                            };
                        } else {
                            civ.state = NpcState::Chill;
                        }
                    }
                },
            }
            if stop {
                cmds.push(NpcCommand::StopMoving);
                cmds.push(NpcCommand::PlayIdle);
            }
        },
    }
    cmds
}


/// The world-space centre of an in-range cell stays within machine bounds.
proof fn lemma_waypoint_world_bounded(tf: TransformToGrid, c: Pos)
    requires
        tf.wf(),
        cell_in_range(c),
    ensures
        -0x2_0000_0000_0000 <= tf.world_x_of(c.x as int) <= 0x2_0000_0000_0000,
        -0x2_0000_0000_0000 <= tf.world_y_of(c.y as int) <= 0x2_0000_0000_0000,
{
    assert(-0x1_0000_0000_0000 <= c.x as int * tf.cell_size <= 0x1_0000_0000_0000
        && -0x1_0000_0000_0000 <= c.y as int * tf.cell_size <= 0x1_0000_0000_0000)
        by (nonlinear_arith)
        requires
            -0x100000 <= c.x <= 0x100000,
            -0x100000 <= c.y <= 0x100000,
            0 < tf.cell_size <= 4096,
    ;
}


/// The exact-arrival pathfinder query from `a` to `b` yields a route.
pub open spec fn goto_finds(t: TrespassableCells, tf: TransformToGrid, a: Pos, b: Pos) -> bool {
    t.ready && tf.ready && reaches(t, Policy::Goto, a, b) && a != b
}

/// The hunter's fleeing pathfinder query from `a` away from `b` yields a
/// route.
pub open spec fn hunter_escape_finds(
    t: TrespassableCells,
    tf: TransformToGrid,
    a: Pos,
    b: Pos,
) -> bool {
    t.ready && tf.ready && reaches(t, Policy::HunterEscape, a, b) && !policy_goal(
        Policy::HunterEscape,
        a,
        b,
    )
}

/// The intercept query has a usable solution.
pub open spec fn intercept_solvable(
    shooter_pos: WorldVec2,
    target_pos: WorldVec2,
    target_vel: WorldVec2,
    proj_vel: int,
) -> bool {
    !crate::intercept::intercept_none_ok(shooter_pos, target_pos, target_vel, proj_vel)
}

/// A hunter's state at the end of a chilling, looking, chasing or fleeing
/// tick, as far as it is determined by sight and the pathfinder's spec.
pub open spec fn hunter_step_rel(
    pre: Hunter,
    post: Hunter,
    cmds: Seq<NpcCommand>,
    env: NpcEnv,
    t: TrespassableCells,
    tf: TransformToGrid,
) -> bool {
    let dsq = wdist_sq(env.npc_pos, env.player_pos);
    let in_sight = spec_in_sight(env, SPOT_DIST_SQ as int);
    let npc_cell = cell_of(tf, env.npc_pos);
    let player_cell = cell_of(tf, env.player_pos);
    &&& cmds.len() >= 1 && cmds[0] == NpcCommand::StopMoving
    &&& if dsq > CULL_SQ || env.ray_hit_player is None {
        post == pre && cmds =~= seq![NpcCommand::StopMoving]
    } else if pre.state == NpcState::Dead {
        let fin = pre.hunter_timer.timer.finishes_after(env.dt_ms);
        &&& post.state == NpcState::Dead
        &&& post.hunter_timer.timer == pre.hunter_timer.timer.spec_ticked(env.dt_ms)
        &&& post.path == pre.path
        &&& post.chill_timer == pre.chill_timer
        &&& post.player_last_pos == pre.player_last_pos
        &&& cmds.contains(NpcCommand::PlayHurt)
        &&& cmds.contains(NpcCommand::RemoveCollider)
        &&& (cmds.contains(NpcCommand::Despawn) <==> fin)
        &&& (cmds.contains(NpcCommand::SpawnBody) <==> fin)
    } else if pre.state == NpcState::Attack {
        let fin = pre.hunter_timer.timer.finishes_after(env.dt_ms);
        &&& post.hunter_timer.timer == pre.hunter_timer.timer.spec_ticked(env.dt_ms)
        &&& post.path == pre.path
        &&& post.chill_timer == pre.chill_timer
        &&& if in_sight {
            &&& post.player_last_pos == pre.player_last_pos
            &&& post.state == if dsq < THRESHOLD_SQ {
                NpcState::Escape
            } else if dsq < UPP_THRESHOLD_SQ {
                NpcState::Chase
            } else {
                NpcState::Attack
            }
            &&& (cmds.contains(NpcCommand::PlayHunterThrow) <==> fin)
            &&& (forall|at: WorldVec2, variant: u8|
                #[trigger] cmds.contains(NpcCommand::ThrowProjectile { at, variant }) ==> fin
                    && variant == env.throw_variant && intercept_solvable(
                    env.npc_pos,
                    env.player_pos,
                    env.player_vel,
                    PROJ_V as int,
                ))
        } else {
            &&& post.state == NpcState::Look
            &&& post.player_last_pos.pos == player_cell
            &&& (forall|at: WorldVec2, variant: u8|
                !(#[trigger] cmds.contains(NpcCommand::ThrowProjectile { at, variant })))
        }
    } else {
        let s0 = pre.state;
        let has_path = post.path.path is Some;
        &&& post.hunter_timer == pre.hunter_timer
        &&& post.chill_timer.timer == if s0 == NpcState::Chill && !in_sight && pre.path.path
            is None {
            pre.chill_timer.timer.spec_ticked(env.dt_ms)
        } else {
            pre.chill_timer.timer
        }
        &&& if s0 == NpcState::Chill {
            &&& post.player_last_pos == pre.player_last_pos
            &&& post.state == if in_sight {
                NpcState::Chase
            } else {
                NpcState::Chill
            }
            &&& (!in_sight && pre.path.path is None && !pre.chill_timer.timer.finishes_after(
                env.dt_ms,
            ) ==> post.path.path is None)
        } else if s0 == NpcState::Look {
            &&& post.player_last_pos == pre.player_last_pos
            &&& post.state == if in_sight {
                NpcState::Chase
            } else if goto_finds(t, tf, npc_cell, pre.player_last_pos.pos) {
                NpcState::Look
            } else {
                NpcState::Chill
            }
        } else if s0 == NpcState::Chase {
            &&& if in_sight {
                &&& post.player_last_pos == pre.player_last_pos
                &&& (post.state == NpcState::Chase || post.state == NpcState::Attack)
                &&& (post.state == NpcState::Attack ==> !has_path)
                &&& (dist_sq(npc_cell, player_cell) < 10 ==> post.state == NpcState::Attack)
                &&& (has_path ==> forall|i: int|
                    0 <= i < post.path.path->Some_0@.len() ==> dist_sq(
                        #[trigger] post.path.path->Some_0@[i],
                        player_cell,
                    ) >= 10)
            } else {
                &&& post.state == NpcState::Look
                &&& post.player_last_pos.pos == player_cell
            }
        } else {
            // fleeing
            &&& if in_sight {
                &&& post.player_last_pos == pre.player_last_pos
                &&& post.state == if hunter_escape_finds(t, tf, npc_cell, player_cell) {
                    NpcState::Escape
                } else {
                    NpcState::Attack
                }
                &&& (has_path ==> dist_sq(
                    post.path.path->Some_0@[post.path.path->Some_0@.len() - 1],
                    player_cell,
                ) > 25)
            } else {
                &&& post.state == NpcState::Look
                &&& post.player_last_pos.pos == player_cell
            }
        }
        &&& (has_path ==> cmds.contains(
            NpcCommand::MoveToward {
                dir: WorldVec2 {
                    x: (tf.world_x_of(post.path.path->Some_0@[1].x as int) - env.npc_pos.x) as i64,
                    y: (tf.world_y_of(post.path.path->Some_0@[1].y as int) - env.npc_pos.y) as i64,
                },
            },
        ))
        &&& (has_path ==> facing_cmds_ok(
            cmds,
            tf.world_x_of(post.path.path->Some_0@[1].x as int) - env.npc_pos.x,
            tf.world_y_of(post.path.path->Some_0@[1].y as int) - env.npc_pos.y,
        ) && cmds.contains(NpcCommand::PlayWalk))
        &&& (cmds.contains(NpcCommand::SpawnWarnParticle) <==> in_sight && (s0 == NpcState::Chill
            || s0 == NpcState::Look))
        &&& (cmds.contains(NpcCommand::SpawnQuestionParticle) <==> s0 == NpcState::Look
            && !in_sight && !goto_finds(t, tf, npc_cell, pre.player_last_pos.pos))
        &&& (cmds.contains(NpcCommand::PlayIdle) <==> s0 == NpcState::Chill)
    }
}


/// A solved intercept time's fraction stays within the bounds the point
/// computation accepts.
proof fn lemma_intercept_time_bounds(
    sp: WorldVec2,
    tp: WorldVec2,
    tv: WorldVec2,
    pv: int,
    sol: InterceptTime,
)
    requires
        -FIELD_BOUND <= sp.x <= FIELD_BOUND,
        -FIELD_BOUND <= sp.y <= FIELD_BOUND,
        -FIELD_BOUND <= tp.x <= FIELD_BOUND,
        -FIELD_BOUND <= tp.y <= FIELD_BOUND,
        -FIELD_BOUND <= tv.x <= FIELD_BOUND,
        -FIELD_BOUND <= tv.y <= FIELD_BOUND,
        0 < pv <= FIELD_BOUND,
        crate::intercept::intercept_some_ok(sp, tp, tv, pv, sol),
    ensures
        0 < sol.t_den <= 0x1000_0000_0000_0000,
        0 <= sol.t_num <= 0x1000_0000_0000_0000,
{
    let a = crate::intercept::icoef_a(tv, pv);
    let b = crate::intercept::icoef_b(sp, tp, tv);
    let c = crate::intercept::icoef_c(sp, tp);
    let dis = crate::intercept::idisc(sp, tp, tv, pv);
    assert(0 <= tv.x * tv.x <= 0x100_0000_0000 && 0 <= tv.y * tv.y <= 0x100_0000_0000 && 0 <= pv
        * pv <= 0x100_0000_0000) by (nonlinear_arith)
        requires
            -0x100000 <= tv.x <= 0x100000,
            -0x100000 <= tv.y <= 0x100000,
            0 < pv <= 0x100000,
    ;
    assert(-0x400_0000_0000 <= (tp.x - sp.x) * tv.x <= 0x400_0000_0000 && -0x400_0000_0000 <= (tp.y
        - sp.y) * tv.y <= 0x400_0000_0000 && 0 <= (tp.x - sp.x) * (tp.x - sp.x)
        <= 0x400_0000_0000 && 0 <= (tp.y - sp.y) * (tp.y - sp.y) <= 0x400_0000_0000)
        by (nonlinear_arith)
        requires
            -0x200000 <= tp.x - sp.x <= 0x200000,
            -0x200000 <= tp.y - sp.y <= 0x200000,
            -0x100000 <= tv.x <= 0x100000,
            -0x100000 <= tv.y <= 0x100000,
    ;
    assert(-0x300_0000_0000 <= a <= 0x300_0000_0000);
    assert(-0x1000_0000_0000 <= b <= 0x1000_0000_0000);
    assert(0 <= c <= 0x800_0000_0000);
    assert(0 <= b * b <= 0x100_0000_0000_0000_0000_0000_0000 && -0x180_0000_0000_0000_0000_0000
        <= a * c <= 0x180_0000_0000_0000_0000_0000) by (nonlinear_arith)
        requires
            -0x300_0000_0000 <= a <= 0x300_0000_0000,
            -0x1000_0000_0000 <= b <= 0x1000_0000_0000,
            0 <= c <= 0x800_0000_0000,
    ;
    assert(4 * a * c == 4 * (a * c)) by (nonlinear_arith);
    assert(dis <= 0x101_0000_0000_0000_0000_0000_0000);
    let s = choose|s: int|
        #[trigger] crate::intercept::is_isqrt(s, dis) && sol.t_num == crate::intercept::root_num(
            a,
            b,
            s,
        ) && sol.t_den == 2 * (if a > 0 {
            a
        } else {
            -a
        });
    assert(s <= 0x20_0000_0000_0000) by (nonlinear_arith)
        requires
            0 <= s,
            s * s <= 0x101_0000_0000_0000_0000_0000_0000,
    ;
}

/// Runs one hunter's state machine for one tick and returns the side
/// effects to perform.
///
/// A hunter further than the culling radius, or whose line-of-sight probe
/// hit nothing, only has its movement stopped. A dead hunter counts down
/// its death timer and despawns exactly when it elapses. An attacking
/// hunter faces the player, throws a projectile at the solved intercept
/// point on its throw period while the player is visible, and backs off or
/// re-engages by distance band; losing sight sends it looking for the
/// player's last known cell. Otherwise the hunter idles, wanders,
/// investigates the last known cell, or requests a route chasing or fleeing
/// the player, and walks its committed route waypoint by waypoint.
pub fn manage_hunter(
    h: &mut Hunter,
    env: &NpcEnv,
    trespassable: &TrespassableCells,
    transformer: &TransformToGrid,
) -> (cmds: Vec<NpcCommand>)
    requires
        old(h).wf(*trespassable),
        trespassable.wf(),
        transformer.wf(),
        env_wf(*env, *transformer),
    ensures
        final(h).wf(*trespassable),
        hunter_step_rel(*old(h), *final(h), cmds@, *env, *trespassable, *transformer),
{
    let mut cmds: Vec<NpcCommand> = Vec::new();
    cmds.push(NpcCommand::StopMoving);
    let dsq = wdist_sq_i64(env.npc_pos, env.player_pos);
    if dsq > CULL_SQ {
        return cmds;
    }
    let hit = match env.ray_hit_player {
        Some(h) => h,
        None => {
            return cmds;
        },
    };
    let in_sight = hit && dsq < SPOT_DIST_SQ;
    let npc_cell = transformer.from_world_i32(env.npc_pos);
    let player_cell = transformer.from_world_i32(env.player_pos);
    match h.state {
        NpcState::Dead => {
            let fin = h.hunter_timer.timer.tick(env.dt_ms);
            cmds.push(NpcCommand::PlayHurt);
            cmds.push(NpcCommand::RemoveCollider);
            if fin {
                cmds.push(NpcCommand::SpawnBody);
                cmds.push(NpcCommand::Despawn);
            }
        },
        NpcState::Attack => {
            let fin = h.hunter_timer.timer.tick(env.dt_ms);
            let dx = env.player_pos.x - env.npc_pos.x;
            let dy = env.player_pos.y - env.npc_pos.y;
            let adx = if dx >= 0 {
                dx
            } else {
                -dx
            };
            let ady = if dy >= 0 {
                dy
            } else {
                -dy
            };
            if adx > ady {
                if dx > 0 {
                    cmds.push(NpcCommand::TurnRight);
                } else {
                    cmds.push(NpcCommand::TurnLeft);
                }
            } else {
                if dy > 0 {
                    cmds.push(NpcCommand::TurnUp);
                } else {
                    cmds.push(NpcCommand::TurnDown);
                }
            }
            if in_sight {
                if fin {
                    cmds.push(NpcCommand::PlayHunterThrow);
                    cmds.push(NpcCommand::PlaySoundThrow);
                    match calculate_intercept(env.npc_pos, env.player_pos, env.player_vel, PROJ_V) {
                        Some(sol) => {
                            proof {
                                lemma_intercept_time_bounds(
                                    env.npc_pos,
                                    env.player_pos,
                                    env.player_vel,
                                    PROJ_V as int,
                                    sol,
                                );
                            }
                            match intercept_point(env.player_pos, env.player_vel, sol) {
                                Some(at) => {
                                    cmds.push(
                                        NpcCommand::ThrowProjectile {
                                            at,
                                            variant: env.throw_variant,
                                        },
                                    );
                                },
                                None => {},
                            }
                        },
                        None => {},
                    }
                }
                if dsq < THRESHOLD_SQ {
                    h.state = NpcState::Escape;
                } else if dsq < UPP_THRESHOLD_SQ {
                    h.state = NpcState::Chase;
                }
            } else {
                h.state = NpcState::Look;
                h.player_last_pos.pos = player_cell;
            }
        },
        _ => {
            if matches!(h.state, NpcState::Chill) {
                cmds.push(NpcCommand::PlayIdle);
                if in_sight {
                    h.state = NpcState::Chase;
                    cmds.push(NpcCommand::SpawnWarnParticle);
                } else {
                    if h.path.path.is_none() {
                        let cfin = h.chill_timer.timer.tick(env.dt_ms);
                        if cfin {
                            let end = Pos {
                                x: npc_cell.x + env.wander_dx,
                                y: npc_cell.y + env.wander_dy,
                            };
                            if trespassable.is_trespassable(&end) {
                                h.path.path = pathfinder(
                                    npc_cell,
                                    end,
                                    trespassable,
                                    transformer,
                                    NpcState::Chill,
                                    true,
                                );
                            }
                        }
                    }
                }
            } else if matches!(h.state, NpcState::Look) {
                if in_sight {
                    h.state = NpcState::Chase;
                    cmds.push(NpcCommand::SpawnWarnParticle);
                } else {
                    h.path.path = pathfinder(
                        npc_cell,
                        h.player_last_pos.pos,
                        trespassable,
                        transformer,
                        NpcState::Look,
                        true,
                    );
                    if h.path.path.is_none() {
                        cmds.push(NpcCommand::SpawnQuestionParticle);
                        h.state = NpcState::Chill;
                    }
                }
            } else {
                if in_sight {
                    h.path.path = pathfinder(
                        npc_cell,
                        player_cell,
                        trespassable,
                        transformer,
                        h.state,
                        true,
                    );
                    if h.path.path.is_none() {
                        h.state = NpcState::Attack;
                    }
                } else {
                    h.state = NpcState::Look;
                    h.player_last_pos.pos = player_cell;
                }
            }
            let mut del = false;
            match &mut h.path.path {
                Some(path) => {
                    let w1 = path[1];
                    if w1.x == npc_cell.x && w1.y == npc_cell.y {
                        path.remove(0);
                    }
                    if path.len() < 2 {
                        del = true;
                    }
                },
                None => {},
            }
            if del {
                h.path.path = None;
            }
            match &h.path.path {
                Some(path) => {
                    let wp = transformer.to_world(path[1]);
                    proof {
                        lemma_waypoint_world_bounded(*transformer, path@[1]);
                    }
                    let mdx = wp.x - env.npc_pos.x;
                    let mdy = wp.y - env.npc_pos.y;
                    if mdx == 0 {
                        if mdy != 0 {
                            if mdy > 0 {
                                cmds.push(NpcCommand::TurnUp);
                            } else {
                                cmds.push(NpcCommand::TurnDown);
                            }
                        }
                    } else {
                        if mdx > 0 {
                            cmds.push(NpcCommand::TurnRight);
                        } else {
                            cmds.push(NpcCommand::TurnLeft);
                        }
                    }
                    cmds.push(NpcCommand::PlayWalk);
                    cmds.push(NpcCommand::MoveToward { dir: WorldVec2 { x: mdx, y: mdy } });
                },
                None => {},
            }
        },
    }
    cmds
}


/// The period of an idle NPC's wander timer, in milliseconds.
pub const CHILL_PERIOD_MS: u32 = 1000;

/// The period of a civilian's attack timer, in milliseconds; also its death
/// timer.
pub const ATTACK_PERIOD_MS: u32 = 500;

/// The period of a civilian's particle timer, in milliseconds.
pub const PARTICLE_PERIOD_MS: u32 = 1000;

/// The period of a hunter's throw timer, in milliseconds; also its death
/// timer.
pub const HUNTER_PERIOD_MS: u32 = 500;

/// The period of a spawner's timer, in milliseconds.
pub const SPAWNER_PERIOD_MS: u32 = 500;

/// How long a thrown projectile lives, in milliseconds.
pub const PROJECTILE_LIFETIME_MS: u32 = 6000;

/// The population cap per NPC kind.
pub const POPULATION_CAP: usize = 200;

/// A freshly spawned civilian: idle, with no route, and all timers at the
/// start of their period.
pub fn spawn_civilian() -> (c: Civilian)
    ensures
        c.state == NpcState::Chill,
        c.path.path is None,
        c.chill_timer.timer == (TickTimer { elapsed_ms: 0, duration_ms: CHILL_PERIOD_MS }),
        c.attack_timer.timer == (TickTimer { elapsed_ms: 0, duration_ms: ATTACK_PERIOD_MS }),
        c.particle_timer.timer == (TickTimer { elapsed_ms: 0, duration_ms: PARTICLE_PERIOD_MS }),
        forall|t: TrespassableCells| c.wf(t),
{
    Civilian {
        state: NpcState::Chill,
        path: NpcPath { path: None },
        chill_timer: ChillTimer { timer: TickTimer::new(CHILL_PERIOD_MS) },
        attack_timer: AttackTimer { timer: TickTimer::new(ATTACK_PERIOD_MS) },
        particle_timer: ParticleTimer { timer: TickTimer::new(PARTICLE_PERIOD_MS) },
    }
}

/// A freshly spawned hunter: idle, with no route, no remembered player
/// cell, and all timers at the start of their period.
pub fn spawn_hunter() -> (h: Hunter)
    ensures
        h.state == NpcState::Chill,
        h.path.path is None,
        h.chill_timer.timer == (TickTimer { elapsed_ms: 0, duration_ms: CHILL_PERIOD_MS }),
        h.hunter_timer.timer == (TickTimer { elapsed_ms: 0, duration_ms: HUNTER_PERIOD_MS }),
        h.player_last_pos.pos == (Pos { x: 0, y: 0 }),
        forall|t: TrespassableCells| h.wf(t),
{
    Hunter {
        state: NpcState::Chill,
        path: NpcPath { path: None },
        hunter_timer: HunterTimer { timer: TickTimer::new(HUNTER_PERIOD_MS) },
        chill_timer: ChillTimer { timer: TickTimer::new(CHILL_PERIOD_MS) },
        player_last_pos: PlayerLastPos { pos: Pos { x: 0, y: 0 } },
    }
}

/// One spawner's gate for one tick: a new NPC is due exactly when the
/// spawner's period elapses, this tick's probabilistic gate passed, the
/// kind's population is below its cap, and the day/night phase admits the
/// kind — civilians by day, hunters by night.
pub fn entity_spawner(
    timer: &mut TickTimer,
    kind: NpcKind,
    dt_ms: u32,
    chance: bool,
    population: usize,
    is_night: bool,
) -> (spawn: bool)
    requires
        old(timer).wf(),
        dt_ms <= 0x4000_0000,
    ensures
        *final(timer) == old(timer).spec_ticked(dt_ms),
        spawn <==> old(timer).finishes_after(dt_ms) && chance && population < POPULATION_CAP && (
        kind == NpcKind::Hunter <==> is_night),
{
    let fin = timer.tick(dt_ms);
    let phase_ok = match kind {
        NpcKind::Civilian => !is_night,
        NpcKind::Hunter => is_night,
    };
    fin && chance && population < POPULATION_CAP && phase_ok
}

/// Advances every live projectile's lifetime and reports, per projectile,
/// whether it expired this tick and is to be despawned.
pub fn manage_projectiles(projectiles: &mut Vec<DespawnTimer>, dt_ms: u32) -> (expired: Vec<bool>)
    requires
        forall|i: int| 0 <= i < old(projectiles)@.len() ==> (#[trigger] old(projectiles)@[i]).timer.wf(),
        dt_ms <= 0x4000_0000,
    ensures
        final(projectiles)@.len() == old(projectiles)@.len(),
        expired@.len() == old(projectiles)@.len(),
        forall|i: int|
            0 <= i < old(projectiles)@.len() ==> (#[trigger] expired@[i]) == old(
                projectiles,
            )@[i].timer.finishes_after(dt_ms),
        forall|i: int|
            0 <= i < old(projectiles)@.len() ==> (#[trigger] final(projectiles)@[i]).timer == old(
                projectiles,
            )@[i].timer.spec_ticked(dt_ms),
{
    let mut expired: Vec<bool> = Vec::new();
    let mut i: usize = 0;
    while i < projectiles.len()
        invariant
            i <= projectiles@.len(),
            projectiles@.len() == old(projectiles)@.len(),
            expired@.len() == i,
            dt_ms <= 0x4000_0000,
            forall|j: int|
                0 <= j < old(projectiles)@.len() ==> (#[trigger] old(projectiles)@[j]).timer.wf(),
            forall|j: int|
                i <= j < old(projectiles)@.len() ==> (#[trigger] projectiles@[j]) == old(
                    projectiles,
                )@[j],
            forall|j: int|
                0 <= j < i ==> (#[trigger] expired@[j]) == old(projectiles)@[j].timer
                    .finishes_after(dt_ms),
            forall|j: int|
                0 <= j < i ==> (#[trigger] projectiles@[j]).timer == old(projectiles)@[j].timer
                    .spec_ticked(dt_ms),
        decreases projectiles@.len() - i,
    {
        let mut t = projectiles[i].timer;
        let fin = t.tick(dt_ms);
        projectiles.set(i, DespawnTimer { timer: t });
        expired.push(fin);
        i = i + 1;
    }
    expired
}

/// Whom the player collided with, as far as the kill and damage rules care.
#[derive(Clone, Copy, Debug, PartialEq, Eq, Structural)]
pub enum CollisionPartner {
    Projectile,
    Civilian,
    Hunter,
    Structure,
    RaycastHelp,
    Rose,
}

/// A side effect of one collision event.
#[derive(Clone, Copy, Debug, PartialEq, Eq, Structural)]
pub enum CollisionCommand {
    HitPlayer { dmg_type: u8 },
    DespawnSender,
    KillCivilian,
    KillHunter,
    PlaySoundKill,
    RemovePlayerSensor,
    CollectRose,
    Win,
}

/// Applies the collision rules for one collision-start event between the
/// player and a partner.
///
/// A projectile despawns and, when the player received it, damages the
/// player. A civilian dies when hit at night, the only time the player can
/// kill it. A hunter dies when hit by day, its own kill window; at night it
/// instead deals contact damage to the player. Structures and raycast
/// helpers strip the player's overlap sensor. A rose is collected unless
/// the player is already dead, and collecting the last one wins.
pub fn process_collisions(
    partner: CollisionPartner,
    receiver_is_player: bool,
    is_night: bool,
    player_is_dead: bool,
    roses: &mut RosesCollected,
) -> (cmds: Vec<CollisionCommand>)
    requires
        old(roses).collected < old(roses).max,
    ensures
        final(roses).max == old(roses).max,
        final(roses).collected == if partner == CollisionPartner::Rose && !player_is_dead {
            (old(roses).collected + 1) as u32
        } else {
            old(roses).collected
        },
        cmds@.contains(CollisionCommand::HitPlayer { dmg_type: 0 }) <==> partner
            == CollisionPartner::Projectile && receiver_is_player,
        cmds@.contains(CollisionCommand::DespawnSender) <==> partner
            == CollisionPartner::Projectile,
        cmds@.contains(CollisionCommand::KillCivilian) <==> partner == CollisionPartner::Civilian
            && is_night,
        cmds@.contains(CollisionCommand::KillHunter) <==> partner == CollisionPartner::Hunter
            && !is_night,
        cmds@.contains(CollisionCommand::HitPlayer { dmg_type: 2 }) <==> partner
            == CollisionPartner::Hunter && is_night && receiver_is_player,
        cmds@.contains(CollisionCommand::RemovePlayerSensor) <==> (partner
            == CollisionPartner::Structure || partner == CollisionPartner::RaycastHelp),
        cmds@.contains(CollisionCommand::CollectRose) <==> partner == CollisionPartner::Rose
            && !player_is_dead,
        cmds@.contains(CollisionCommand::Win) <==> partner == CollisionPartner::Rose
            && !player_is_dead && old(roses).collected + 1 == old(roses).max,
{
    let mut cmds: Vec<CollisionCommand> = Vec::new();
    match partner {
        CollisionPartner::Projectile => {
            if receiver_is_player {
                cmds.push(CollisionCommand::HitPlayer { dmg_type: 0 });
            }
            cmds.push(CollisionCommand::DespawnSender);
        },
        CollisionPartner::Civilian => {
            if is_night {
                cmds.push(CollisionCommand::KillCivilian);
                cmds.push(CollisionCommand::PlaySoundKill);
            }
        },
        CollisionPartner::Hunter => {
            if !is_night {
                cmds.push(CollisionCommand::KillHunter);
                cmds.push(CollisionCommand::PlaySoundKill);
            } else {
                if receiver_is_player {
                    cmds.push(CollisionCommand::HitPlayer { dmg_type: 2 });
                }
            }
        },
        CollisionPartner::Structure => {
            cmds.push(CollisionCommand::RemovePlayerSensor);
        },
        CollisionPartner::RaycastHelp => {
            cmds.push(CollisionCommand::RemovePlayerSensor);
        },
        CollisionPartner::Rose => {
            if !player_is_dead {
                cmds.push(CollisionCommand::CollectRose);
                roses.collected = roses.collected + 1;
                if roses.collected == roses.max {
                    cmds.push(CollisionCommand::Win);
                }
            }
        },
    }
    cmds
}

/// Settles a win: the rose count starts over, to be respawned by the
/// engine.
pub fn victory(roses: &mut RosesCollected)
    ensures
        final(roses).collected == 0,
        final(roses).max == old(roses).max,
{
    roses.collected = 0;
}


/// An idle civilian that does not sight the player never leaves the idle
/// state, however the rest of the tick goes.
pub proof fn lemma_chill_civilian_stays(
    pre: Civilian,
    post: Civilian,
    cmds: Seq<NpcCommand>,
    env: NpcEnv,
    t: TrespassableCells,
    tf: TransformToGrid,
)
    requires
        civ_step_rel(pre, post, cmds, env, t, tf),
        pre.state == NpcState::Chill,
        !spec_in_sight(env, SPOT_DIST_CIV_SQ as int),
    ensures
        post.state == NpcState::Chill,
{
}

/// An idle civilian with no committed route requests at most one wander
/// route per chill period: while the period has not elapsed, no route
/// appears and the period keeps counting.
pub proof fn lemma_chill_one_request_per_period(
    pre: Civilian,
    post: Civilian,
    cmds: Seq<NpcCommand>,
    env: NpcEnv,
    t: TrespassableCells,
    tf: TransformToGrid,
)
    requires
        civ_step_rel(pre, post, cmds, env, t, tf),
        pre.state == NpcState::Chill,
        pre.path.path is None,
        !pre.chill_timer.timer.finishes_after(env.dt_ms),
    ensures
        post.path.path is None,
{
}

/// A chasing hunter that sees the player on a cell within its stopping
/// range switches to attacking within the same tick.
pub proof fn lemma_hunter_engages(
    pre: Hunter,
    post: Hunter,
    cmds: Seq<NpcCommand>,
    env: NpcEnv,
    t: TrespassableCells,
    tf: TransformToGrid,
)
    requires
        hunter_step_rel(pre, post, cmds, env, t, tf),
        pre.state == NpcState::Chase,
        spec_in_sight(env, SPOT_DIST_SQ as int),
        dist_sq(cell_of(tf, env.npc_pos), cell_of(tf, env.player_pos)) < 10,
    ensures
        post.state == NpcState::Attack,
{
    assert(wdist_sq(env.npc_pos, env.player_pos) < SPOT_DIST_SQ);
}

/// A dead civilian despawns exactly when its death timer's period elapses,
/// and no earlier.
pub proof fn lemma_civilian_death_timer_exact(
    pre: Civilian,
    post: Civilian,
    cmds: Seq<NpcCommand>,
    env: NpcEnv,
    t: TrespassableCells,
    tf: TransformToGrid,
)
    requires
        civ_step_rel(pre, post, cmds, env, t, tf),
        pre.state == NpcState::Dead,
        wdist_sq(env.npc_pos, env.player_pos) <= CULL_SQ,
        env.ray_hit_player is Some,
    ensures
        cmds.contains(NpcCommand::Despawn) <==> pre.attack_timer.timer.elapsed_ms + env.dt_ms
            >= pre.attack_timer.timer.duration_ms,
{
}

/// A dead hunter despawns exactly when its death timer's period elapses,
/// and no earlier.
pub proof fn lemma_hunter_death_timer_exact(
    pre: Hunter,
    post: Hunter,
    cmds: Seq<NpcCommand>,
    env: NpcEnv,
    t: TrespassableCells,
    tf: TransformToGrid,
)
    requires
        hunter_step_rel(pre, post, cmds, env, t, tf),
        pre.state == NpcState::Dead,
        wdist_sq(env.npc_pos, env.player_pos) <= CULL_SQ,
        env.ray_hit_player is Some,
    ensures
        cmds.contains(NpcCommand::Despawn) <==> pre.hunter_timer.timer.elapsed_ms + env.dt_ms
            >= pre.hunter_timer.timer.duration_ms,
{
}


/// Runs every civilian's state machine for one tick, each against its own
/// sensed surroundings, and returns each one's side effects.
pub fn manage_civilians(
    civs: &mut Vec<Civilian>,
    envs: &Vec<NpcEnv>,
    trespassable: &TrespassableCells,
    transformer: &TransformToGrid,
) -> (all_cmds: Vec<Vec<NpcCommand>>)
    requires
        old(civs)@.len() == envs@.len(),
        forall|i: int| 0 <= i < old(civs)@.len() ==> (#[trigger] old(civs)@[i]).wf(*trespassable),
        forall|i: int| 0 <= i < envs@.len() ==> env_wf(#[trigger] envs@[i], *transformer),
        trespassable.wf(),
        transformer.wf(),
    ensures
        final(civs)@.len() == old(civs)@.len(),
        all_cmds@.len() == old(civs)@.len(),
        forall|i: int|
            0 <= i < old(civs)@.len() ==> (#[trigger] final(civs)@[i]).wf(*trespassable)
                && civ_step_rel(
                old(civs)@[i],
                final(civs)@[i],
                all_cmds@[i]@,
                envs@[i],
                *trespassable,
                *transformer,
            ),
{
    let mut all_cmds: Vec<Vec<NpcCommand>> = Vec::new();
    let mut i: usize = 0;
    while i < civs.len()
        invariant
            i <= civs@.len(),
            civs@.len() == old(civs)@.len(),
            envs@.len() == old(civs)@.len(),
            all_cmds@.len() == i,
            trespassable.wf(),
            transformer.wf(),
            forall|j: int| 0 <= j < envs@.len() ==> env_wf(#[trigger] envs@[j], *transformer),
            forall|j: int| i <= j < civs@.len() ==> (#[trigger] civs@[j]) == old(civs)@[j],
            forall|j: int| i <= j < civs@.len() ==> (#[trigger] civs@[j]).wf(*trespassable),
            forall|j: int|
                0 <= j < i ==> (#[trigger] civs@[j]).wf(*trespassable) && civ_step_rel(
                    old(civs)@[j],
                    civs@[j],
                    all_cmds@[j]@,
                    envs@[j],
                    *trespassable,
                    *transformer,
                ),
        decreases civs@.len() - i,
    {
        let cmds = manage_civilian(&mut civs[i], &envs[i], trespassable, transformer);
        all_cmds.push(cmds);
        i = i + 1;
    }
    all_cmds
}

/// Runs every hunter's state machine for one tick, each against its own
/// sensed surroundings, and returns each one's side effects.
pub fn manage_hunters(
    hunters: &mut Vec<Hunter>,
    envs: &Vec<NpcEnv>,
    trespassable: &TrespassableCells,
    transformer: &TransformToGrid,
) -> (all_cmds: Vec<Vec<NpcCommand>>)
    requires
        old(hunters)@.len() == envs@.len(),
        forall|i: int|
            0 <= i < old(hunters)@.len() ==> (#[trigger] old(hunters)@[i]).wf(*trespassable),
        forall|i: int| 0 <= i < envs@.len() ==> env_wf(#[trigger] envs@[i], *transformer),
        trespassable.wf(),
        transformer.wf(),
    ensures
        final(hunters)@.len() == old(hunters)@.len(),
        all_cmds@.len() == old(hunters)@.len(),
        forall|i: int|
            0 <= i < old(hunters)@.len() ==> (#[trigger] final(hunters)@[i]).wf(*trespassable)
                && hunter_step_rel(
                old(hunters)@[i],
                final(hunters)@[i],
                all_cmds@[i]@,
                envs@[i],
                *trespassable,
                *transformer,
            ),
{
    let mut all_cmds: Vec<Vec<NpcCommand>> = Vec::new();
    let mut i: usize = 0;
    while i < hunters.len()
        invariant
            i <= hunters@.len(),
            hunters@.len() == old(hunters)@.len(),
            envs@.len() == old(hunters)@.len(),
            all_cmds@.len() == i,
            trespassable.wf(),
            transformer.wf(),
            forall|j: int| 0 <= j < envs@.len() ==> env_wf(#[trigger] envs@[j], *transformer),
            forall|j: int| i <= j < hunters@.len() ==> (#[trigger] hunters@[j]) == old(hunters)@[j],
            forall|j: int| i <= j < hunters@.len() ==> (#[trigger] hunters@[j]).wf(*trespassable),
            forall|j: int|
                0 <= j < i ==> (#[trigger] hunters@[j]).wf(*trespassable) && hunter_step_rel(
                    old(hunters)@[j],
                    hunters@[j],
                    all_cmds@[j]@,
                    envs@[j],
                    *trespassable,
                    *transformer,
                ),
        decreases hunters@.len() - i,
    {
        let cmds = manage_hunter(&mut hunters[i], &envs[i], trespassable, transformer);
        all_cmds.push(cmds);
        i = i + 1;
    }
    all_cmds
}

} // verus!






