use vampillage::grid::{floor_div_i64, Pos, TransformToGrid, WorldVec2};

fn level_transform() -> TransformToGrid {
    TransformToGrid {
        height: 160,
        transform_x: 0,
        transform_y: 0,
        cell_size: 16,
        grid_size: Pos { x: 10, y: 10 },
        ready: true,
    }
}

#[test]
fn floor_division_rounds_down() {
    assert_eq!(floor_div_i64(31, 16), 1);
    assert_eq!(floor_div_i64(0, 16), 0);
    assert_eq!(floor_div_i64(-1, 16), -1);
    assert_eq!(floor_div_i64(-16, 16), -1);
    assert_eq!(floor_div_i64(-17, 16), -2);
}

#[test]
fn world_to_cell_floors_and_flips_y() {
    let tf = level_transform();
    // a point just inside the top-left world corner of the level
    let c = tf.from_world_i32(WorldVec2 { x: 8, y: 152 });
    assert_eq!(c, Pos { x: 0, y: 0 });
    // a point near the level's bottom-left lands on the last row
    let c = tf.from_world_i32(WorldVec2 { x: 8, y: 8 });
    assert_eq!(c, Pos { x: 0, y: 9 });
    // x floors, y counts down from the top
    let c = tf.from_world_i32(WorldVec2 { x: 47, y: 100 });
    assert_eq!(c, Pos { x: 2, y: 3 });
}

#[test]
fn cell_to_world_gives_cell_centres() {
    let tf = level_transform();
    let w = tf.to_world(Pos { x: 3, y: 4 });
    assert_eq!(w, WorldVec2 { x: 56, y: 88 });
    let w = tf.to_world(Pos { x: 0, y: 0 });
    assert_eq!(w, WorldVec2 { x: 8, y: 152 });
}

#[test]
fn world_roundtrip_recovers_the_cell() {
    let tf = level_transform();
    for x in -3..13 {
        for y in -3..13 {
            let c = Pos { x, y };
            assert_eq!(tf.from_world_i32(tf.to_world(c)), c);
        }
    }
}

#[test]
fn unready_transform_reports_unready() {
    let tf = TransformToGrid::unready();
    assert!(!tf.ready);
}

#[test]
fn negative_world_positions_map_to_negative_cells() {
    let tf = level_transform();
    let c = tf.from_world_i32(WorldVec2 { x: -1, y: 161 });
    assert_eq!(c, Pos { x: -1, y: -1 });
}

#[test]
fn level_loading_builds_a_ready_transform() {
    let tf = TransformToGrid::from_level(640, 320, 0, -16).expect("small level");
    assert!(tf.ready);
    assert_eq!(tf.grid_size, Pos { x: 40, y: 20 });
    assert_eq!(tf.cell_size, 16);
    // oversized geometry is refused
    assert!(TransformToGrid::from_level(1 << 40, 320, 0, 0).is_none());
    assert!(TransformToGrid::from_level(-1, 320, 0, 0).is_none());
}
