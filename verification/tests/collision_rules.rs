use vampillage::components::RosesCollected;
use vampillage::systems::{process_collisions, victory, CollisionCommand, CollisionPartner};

fn roses(collected: u32, max: u32) -> RosesCollected {
    RosesCollected { collected, max }
}

#[test]
fn projectiles_hit_the_player_and_vanish() {
    let mut r = roses(0, 3);
    let cmds = process_collisions(CollisionPartner::Projectile, true, false, false, &mut r);
    assert!(cmds.contains(&CollisionCommand::HitPlayer { dmg_type: 0 }));
    assert!(cmds.contains(&CollisionCommand::DespawnSender));
    let cmds = process_collisions(CollisionPartner::Projectile, false, false, false, &mut r);
    assert!(!cmds.contains(&CollisionCommand::HitPlayer { dmg_type: 0 }));
    assert!(cmds.contains(&CollisionCommand::DespawnSender));
}

#[test]
fn civilians_die_only_in_their_night_kill_window() {
    let mut r = roses(0, 3);
    let cmds = process_collisions(CollisionPartner::Civilian, true, true, false, &mut r);
    assert!(cmds.contains(&CollisionCommand::KillCivilian));
    assert!(cmds.contains(&CollisionCommand::PlaySoundKill));
    let cmds = process_collisions(CollisionPartner::Civilian, true, false, false, &mut r);
    assert!(cmds.is_empty());
}

#[test]
fn hunters_die_by_day_and_maul_by_night() {
    let mut r = roses(0, 3);
    let cmds = process_collisions(CollisionPartner::Hunter, true, false, false, &mut r);
    assert!(cmds.contains(&CollisionCommand::KillHunter));
    let cmds = process_collisions(CollisionPartner::Hunter, true, true, false, &mut r);
    assert!(!cmds.contains(&CollisionCommand::KillHunter));
    assert!(cmds.contains(&CollisionCommand::HitPlayer { dmg_type: 2 }));
}

#[test]
fn structures_strip_the_player_sensor() {
    let mut r = roses(0, 3);
    let cmds = process_collisions(CollisionPartner::Structure, true, false, false, &mut r);
    assert_eq!(cmds, vec![CollisionCommand::RemovePlayerSensor]);
    let cmds = process_collisions(CollisionPartner::RaycastHelp, true, false, false, &mut r);
    assert_eq!(cmds, vec![CollisionCommand::RemovePlayerSensor]);
}

#[test]
fn collecting_the_last_rose_wins() {
    let mut r = roses(0, 2);
    let cmds = process_collisions(CollisionPartner::Rose, true, false, false, &mut r);
    assert!(cmds.contains(&CollisionCommand::CollectRose));
    assert!(!cmds.contains(&CollisionCommand::Win));
    assert_eq!(r.collected, 1);
    let cmds = process_collisions(CollisionPartner::Rose, true, false, false, &mut r);
    assert!(cmds.contains(&CollisionCommand::Win));
    assert_eq!(r.collected, 2);
    victory(&mut r);
    assert_eq!(r.collected, 0);
    assert_eq!(r.max, 2);
}

#[test]
fn dead_players_collect_nothing() {
    let mut r = roses(0, 2);
    let cmds = process_collisions(CollisionPartner::Rose, true, false, true, &mut r);
    assert!(cmds.is_empty());
    assert_eq!(r.collected, 0);
}
