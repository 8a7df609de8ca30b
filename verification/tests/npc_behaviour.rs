use vampillage::components::{DayCycle, DespawnTimer, NpcKind, NpcState, TickTimer};
use vampillage::grid::{Pos, TransformToGrid, WorldVec2};
use vampillage::occupancy::TrespassableCells;
use vampillage::systems::{
    entity_spawner, manage_civilian, manage_civilians, manage_hunter, manage_hunters,
    manage_projectiles, spawn_civilian, spawn_hunter, NpcCommand, NpcEnv,
};

fn ready_transform() -> TransformToGrid {
    TransformToGrid {
        height: 320,
        transform_x: 0,
        transform_y: 0,
        cell_size: 16,
        grid_size: Pos { x: 20, y: 20 },
        ready: true,
    }
}

fn open_grid() -> TrespassableCells {
    let mut t = TrespassableCells::unready();
    t.init_cells(Pos { x: 20, y: 20 }, &Vec::new());
    t
}

fn env_at(npc: WorldVec2, player: WorldVec2, night: bool, dt_ms: u32) -> NpcEnv {
    NpcEnv {
        npc_pos: npc,
        player_pos: player,
        player_vel: WorldVec2 { x: 0, y: 0 },
        ray_hit_player: Some(true),
        day: DayCycle { is_night: night, is_translating: false },
        dt_ms,
        wander_dx: 1,
        wander_dy: 1,
        throw_variant: 0,
    }
}

#[test]
fn chill_civilian_ignores_a_distant_player_for_ten_ticks() {
    let t = open_grid();
    let tf = ready_transform();
    let mut civ = spawn_civilian();
    // the player stands 500 units away, well outside the 100-unit spot
    // radius; the chill timer runs at 1 s, ticks at 100 ms
    let env = env_at(WorldVec2 { x: 100, y: 100 }, WorldVec2 { x: 600, y: 100 }, false, 100);
    for tick in 1..=10 {
        let _ = manage_civilian(&mut civ, &env, &t, &tf);
        assert_eq!(civ.state, NpcState::Chill, "state changed at tick {}", tick);
        if tick < 10 {
            // no wander route is requested before the period elapses
            assert!(civ.path.path.is_none(), "early route at tick {}", tick);
        }
    }
    // the tenth tick completes the 1 s period: exactly one wander request
    assert!(civ.path.path.is_some());
}

#[test]
fn sighted_civilian_flees_at_night_and_fights_by_day() {
    let t = open_grid();
    let tf = ready_transform();
    let near = WorldVec2 { x: 100, y: 100 };
    let player = WorldVec2 { x: 150, y: 100 };
    let mut civ = spawn_civilian();
    let _ = manage_civilian(&mut civ, &env_at(near, player, true, 16), &t, &tf);
    assert_eq!(civ.state, NpcState::Escape);
    let mut civ = spawn_civilian();
    let _ = manage_civilian(&mut civ, &env_at(near, player, false, 16), &t, &tf);
    assert_eq!(civ.state, NpcState::Chase);
}

#[test]
fn attacking_civilian_strikes_on_its_period_then_chases() {
    let t = open_grid();
    let tf = ready_transform();
    let mut civ = spawn_civilian();
    civ.state = NpcState::Attack;
    let near = WorldVec2 { x: 100, y: 100 };
    let player = WorldVec2 { x: 110, y: 100 };
    // 400 ms in: period not yet over, no strike
    let cmds = manage_civilian(&mut civ, &env_at(near, player, false, 400), &t, &tf);
    assert_eq!(civ.state, NpcState::Attack);
    assert!(!cmds.contains(&NpcCommand::HitPlayer { dmg_type: 1 }));
    // 100 ms more complete the 500 ms attack period: strike and fall back
    let cmds = manage_civilian(&mut civ, &env_at(near, player, false, 100), &t, &tf);
    assert!(cmds.contains(&NpcCommand::HitPlayer { dmg_type: 1 }));
    assert_eq!(civ.state, NpcState::Chase);
}

#[test]
fn dead_civilian_despawns_exactly_at_the_death_timer() {
    let t = open_grid();
    let tf = ready_transform();
    let mut civ = spawn_civilian();
    civ.state = NpcState::Dead;
    let env = env_at(WorldVec2 { x: 100, y: 100 }, WorldVec2 { x: 200, y: 100 }, true, 100);
    // the 500 ms death timer must not fire during the first 400 ms
    for tick in 1..=4 {
        let cmds = manage_civilian(&mut civ, &env, &t, &tf);
        assert_eq!(civ.state, NpcState::Dead);
        assert!(cmds.contains(&NpcCommand::PlayHurt));
        assert!(!cmds.contains(&NpcCommand::Despawn), "despawned early at tick {}", tick);
    }
    // the fifth 100 ms tick reaches exactly 500 ms
    let cmds = manage_civilian(&mut civ, &env, &t, &tf);
    assert!(cmds.contains(&NpcCommand::Despawn));
    assert!(cmds.contains(&NpcCommand::SpawnBody));
}

#[test]
fn chasing_hunter_attacks_within_one_tick_of_melee_range() {
    let t = open_grid();
    let tf = ready_transform();
    let mut hunter = spawn_hunter();
    hunter.state = NpcState::Chase;
    // the player is visible and 8 units away, within the 16-unit band
    let env = env_at(WorldVec2 { x: 104, y: 104 }, WorldVec2 { x: 112, y: 104 }, true, 16);
    let _ = manage_hunter(&mut hunter, &env, &t, &tf);
    assert_eq!(hunter.state, NpcState::Attack);
}

#[test]
fn attacking_hunter_throws_on_its_period_and_backs_off_when_crowded() {
    let t = open_grid();
    let tf = ready_transform();
    let mut hunter = spawn_hunter();
    hunter.state = NpcState::Attack;
    // visible player 80 units away: inside the fleeing band (< 100)
    let env = env_at(WorldVec2 { x: 100, y: 100 }, WorldVec2 { x: 180, y: 100 }, true, 500);
    let cmds = manage_hunter(&mut hunter, &env, &t, &tf);
    assert!(cmds.contains(&NpcCommand::PlayHunterThrow));
    assert!(cmds
        .iter()
        .any(|c| matches!(c, NpcCommand::ThrowProjectile { at: _, variant: 0 })));
    assert_eq!(hunter.state, NpcState::Escape);
}

#[test]
fn attacking_hunter_keeps_chasing_in_the_middle_band() {
    let t = open_grid();
    let tf = ready_transform();
    let mut hunter = spawn_hunter();
    hunter.state = NpcState::Attack;
    // visible player 150 units away: between 100 and 200
    let env = env_at(WorldVec2 { x: 50, y: 100 }, WorldVec2 { x: 200, y: 100 }, true, 100);
    let _ = manage_hunter(&mut hunter, &env, &t, &tf);
    assert_eq!(hunter.state, NpcState::Chase);
}

#[test]
fn hunter_losing_sight_remembers_and_looks() {
    let t = open_grid();
    let tf = ready_transform();
    let mut hunter = spawn_hunter();
    hunter.state = NpcState::Chase;
    let mut env = env_at(WorldVec2 { x: 100, y: 100 }, WorldVec2 { x: 150, y: 150 }, true, 16);
    env.ray_hit_player = Some(false);
    let _ = manage_hunter(&mut hunter, &env, &t, &tf);
    assert_eq!(hunter.state, NpcState::Look);
    let expected = tf.from_world_i32(WorldVec2 { x: 150, y: 150 });
    assert_eq!(hunter.player_last_pos.pos, expected);
}

#[test]
fn npc_with_no_ray_answer_is_left_alone() {
    let t = open_grid();
    let tf = ready_transform();
    let mut civ = spawn_civilian();
    let mut env = env_at(WorldVec2 { x: 100, y: 100 }, WorldVec2 { x: 150, y: 100 }, true, 100);
    env.ray_hit_player = None;
    let cmds = manage_civilian(&mut civ, &env, &t, &tf);
    assert!(cmds.is_empty());
    assert_eq!(civ.state, NpcState::Chill);
    assert!(civ.path.path.is_none());
}

#[test]
fn far_away_npcs_are_culled_for_the_tick() {
    let t = open_grid();
    let tf = ready_transform();
    let mut civ = spawn_civilian();
    // over 1000 units away: the whole state machine is skipped
    let env = env_at(WorldVec2 { x: 0, y: 0 }, WorldVec2 { x: 1200, y: 0 }, false, 100);
    let cmds = manage_civilian(&mut civ, &env, &t, &tf);
    assert!(cmds.is_empty());
    let mut hunter = spawn_hunter();
    let cmds = manage_hunter(&mut hunter, &env, &t, &tf);
    assert_eq!(cmds, vec![NpcCommand::StopMoving]);
}

#[test]
fn civilians_walk_their_committed_route() {
    let t = open_grid();
    let tf = ready_transform();
    let mut civ = spawn_civilian();
    civ.state = NpcState::Chase;
    // visible player 64 units east: a straight route exists
    let env = env_at(WorldVec2 { x: 104, y: 104 }, WorldVec2 { x: 168, y: 104 }, false, 16);
    let cmds = manage_civilian(&mut civ, &env, &t, &tf);
    assert!(civ.path.path.is_some());
    assert!(cmds.contains(&NpcCommand::TurnRight));
    assert!(cmds
        .iter()
        .any(|c| matches!(c, NpcCommand::MoveToward { dir } if dir.x > 0 && dir.y == 0)));
}

#[test]
fn managing_a_crowd_matches_managing_each() {
    let t = open_grid();
    let tf = ready_transform();
    let mut crowd = vec![spawn_civilian(), spawn_civilian()];
    crowd[1].state = NpcState::Chase;
    let envs = vec![
        env_at(WorldVec2 { x: 100, y: 100 }, WorldVec2 { x: 150, y: 100 }, false, 16),
        env_at(WorldVec2 { x: 200, y: 100 }, WorldVec2 { x: 150, y: 100 }, false, 16),
    ];
    let all_cmds = manage_civilians(&mut crowd, &envs, &t, &tf);
    assert_eq!(all_cmds.len(), 2);
    assert_eq!(crowd[0].state, NpcState::Chase);
    assert_eq!(crowd[1].state, NpcState::Chase);
}

#[test]
fn spawner_gates_all_have_to_pass() {
    let mut timer = TickTimer::new(500);
    // period not yet over
    assert!(!entity_spawner(&mut timer, NpcKind::Civilian, 100, true, 0, false));
    // period over but wrong phase for a civilian
    let mut timer = TickTimer::new(500);
    assert!(!entity_spawner(&mut timer, NpcKind::Civilian, 500, true, 0, true));
    // period over, phase right, chance failed
    let mut timer = TickTimer::new(500);
    assert!(!entity_spawner(&mut timer, NpcKind::Civilian, 500, false, 0, false));
    // population cap reached
    let mut timer = TickTimer::new(500);
    assert!(!entity_spawner(&mut timer, NpcKind::Civilian, 500, true, 200, false));
    // all gates pass
    let mut timer = TickTimer::new(500);
    assert!(entity_spawner(&mut timer, NpcKind::Civilian, 500, true, 199, false));
    // hunters spawn by night only
    let mut timer = TickTimer::new(500);
    assert!(entity_spawner(&mut timer, NpcKind::Hunter, 500, true, 0, true));
    let mut timer = TickTimer::new(500);
    assert!(!entity_spawner(&mut timer, NpcKind::Hunter, 500, true, 0, false));
}

#[test]
fn projectiles_expire_after_their_lifetime() {
    let mut projectiles = vec![
        DespawnTimer { timer: TickTimer { elapsed_ms: 5900, duration_ms: 6000 } },
        DespawnTimer { timer: TickTimer { elapsed_ms: 100, duration_ms: 6000 } },
    ];
    let expired = manage_projectiles(&mut projectiles, 100);
    assert_eq!(expired, vec![true, false]);
    assert_eq!(projectiles[1].timer.elapsed_ms, 200);
}

#[test]
fn timers_report_one_finish_per_period() {
    let mut timer = TickTimer::new(1000);
    let mut finishes = 0;
    for _ in 0..25 {
        if timer.tick(100) {
            finishes += 1;
        }
    }
    assert_eq!(finishes, 2);
    assert_eq!(timer.elapsed_ms, 500);
}

#[test]
fn looking_hunter_gives_up_on_unreachable_memories() {
    // the remembered cell sits in a separate walled-off room
    let mut t = TrespassableCells::unready();
    let mut obstacles: Vec<Pos> = Vec::new();
    for i in 0..20 {
        obstacles.push(Pos { x: 10, y: i });
    }
    t.init_cells(Pos { x: 20, y: 20 }, &obstacles);
    let tf = ready_transform();
    let mut hunter = spawn_hunter();
    hunter.state = NpcState::Look;
    // hunter on the left of the wall, memory on the right
    hunter.player_last_pos.pos = Pos { x: 15, y: 10 };
    let mut env = env_at(WorldVec2 { x: 40, y: 160 }, WorldVec2 { x: 56, y: 160 }, true, 16);
    env.ray_hit_player = Some(false);
    let cmds = manage_hunter(&mut hunter, &env, &t, &tf);
    assert_eq!(hunter.state, NpcState::Chill);
    assert!(cmds.contains(&NpcCommand::SpawnQuestionParticle));
}

#[test]
fn looking_hunter_walks_to_a_reachable_memory() {
    let t = open_grid();
    let tf = ready_transform();
    let mut hunter = spawn_hunter();
    hunter.state = NpcState::Look;
    hunter.player_last_pos.pos = Pos { x: 15, y: 10 };
    let mut env = env_at(WorldVec2 { x: 40, y: 160 }, WorldVec2 { x: 56, y: 160 }, true, 16);
    env.ray_hit_player = Some(false);
    let _ = manage_hunter(&mut hunter, &env, &t, &tf);
    assert_eq!(hunter.state, NpcState::Look);
    assert!(hunter.path.path.is_some());
}

#[test]
fn idle_npcs_warn_when_spotting_the_player() {
    let t = open_grid();
    let tf = ready_transform();
    let mut hunter = spawn_hunter();
    let env = env_at(WorldVec2 { x: 100, y: 100 }, WorldVec2 { x: 150, y: 100 }, true, 16);
    let cmds = manage_hunter(&mut hunter, &env, &t, &tf);
    assert_eq!(hunter.state, NpcState::Chase);
    assert!(cmds.contains(&NpcCommand::SpawnWarnParticle));
    let mut civ = spawn_civilian();
    let cmds = manage_civilian(&mut civ, &env, &t, &tf);
    assert!(cmds.contains(&NpcCommand::SpawnWarnParticle));
}

#[test]
fn fleeing_hunters_commit_to_a_route_beyond_their_radius() {
    let t = open_grid();
    let tf = ready_transform();
    let mut hunter = spawn_hunter();
    hunter.state = NpcState::Escape;
    // player right next to the hunter and visible
    let env = env_at(WorldVec2 { x: 160, y: 160 }, WorldVec2 { x: 168, y: 160 }, true, 16);
    let _ = manage_hunter(&mut hunter, &env, &t, &tf);
    assert_eq!(hunter.state, NpcState::Escape);
    let path = hunter.path.path.as_ref().expect("an open yard offers escape");
    let goal = tf.from_world_i32(WorldVec2 { x: 168, y: 160 });
    let last = *path.last().unwrap();
    let dx = (last.x - goal.x) as i64;
    let dy = (last.y - goal.y) as i64;
    assert!(dx * dx + dy * dy > 25);
}

#[test]
fn a_crowd_of_hunters_is_managed_elementwise() {
    let t = open_grid();
    let tf = ready_transform();
    let mut pack = vec![spawn_hunter(), spawn_hunter()];
    pack[1].state = NpcState::Dead;
    let envs = vec![
        env_at(WorldVec2 { x: 100, y: 100 }, WorldVec2 { x: 150, y: 100 }, true, 100),
        env_at(WorldVec2 { x: 200, y: 100 }, WorldVec2 { x: 150, y: 100 }, true, 500),
    ];
    let all_cmds = manage_hunters(&mut pack, &envs, &t, &tf);
    assert_eq!(pack[0].state, NpcState::Chase);
    assert_eq!(pack[1].state, NpcState::Dead);
    assert!(all_cmds[1].contains(&NpcCommand::Despawn));
}
