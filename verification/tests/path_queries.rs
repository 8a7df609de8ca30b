use vampillage::components::NpcState;
use vampillage::grid::{Pos, TransformToGrid};
use vampillage::occupancy::TrespassableCells;
use vampillage::pathfinder::pathfinder;

fn ready_transform() -> TransformToGrid {
    TransformToGrid {
        height: 160,
        transform_x: 0,
        transform_y: 0,
        cell_size: 16,
        grid_size: Pos { x: 10, y: 10 },
        ready: true,
    }
}

fn open_grid(w: i32, h: i32) -> TrespassableCells {
    let mut t = TrespassableCells::unready();
    t.init_cells(Pos { x: w, y: h }, &Vec::new());
    t
}

fn grid_with_obstacles(w: i32, h: i32, blocked: &[Pos]) -> TrespassableCells {
    // init_cells takes bottom-up rows; flip each blocked matrix cell back
    let raw: Vec<Pos> = blocked.iter().map(|p| Pos { x: p.x, y: h - p.y - 1 }).collect();
    let mut t = TrespassableCells::unready();
    t.init_cells(Pos { x: w, y: h }, &raw);
    for p in blocked {
        assert!(!t.is_trespassable(p));
    }
    t
}

fn dist_sq(a: Pos, b: Pos) -> i64 {
    let dx = (a.x - b.x) as i64;
    let dy = (a.y - b.y) as i64;
    dx * dx + dy * dy
}

fn assert_step_shape(t: &TrespassableCells, path: &[Pos]) {
    for w in path.windows(2) {
        let (a, b) = (w[0], w[1]);
        let dx = (b.x - a.x).abs();
        let dy = (b.y - a.y).abs();
        assert!(dx <= 1 && dy <= 1, "step too long: {:?} -> {:?}", a, b);
        assert!(t.is_trespassable(&b), "blocked cell on path: {:?}", b);
        if dx == 1 && dy == 1 {
            // no cutting through blocked corners
            assert!(t.is_trespassable(&Pos { x: b.x, y: a.y }));
            assert!(t.is_trespassable(&Pos { x: a.x, y: b.y }));
        }
    }
}

#[test]
fn goto_reaches_the_goal_on_an_open_grid() {
    let t = open_grid(10, 10);
    let tf = ready_transform();
    let start = Pos { x: 0, y: 0 };
    let goal = Pos { x: 7, y: 4 };
    let path = pathfinder(start, goal, &t, &tf, NpcState::Chill, false).expect("open grid");
    assert_eq!(path[0], start);
    assert_eq!(*path.last().unwrap(), goal);
    assert_step_shape(&t, &path);
}

#[test]
fn goto_fails_when_walled_off() {
    // a full vertical wall at x == 2
    let wall: Vec<Pos> = (0..5).map(|y| Pos { x: 2, y }).collect();
    let t = grid_with_obstacles(5, 5, &wall);
    let tf = ready_transform();
    let r = pathfinder(Pos { x: 0, y: 0 }, Pos { x: 4, y: 4 }, &t, &tf, NpcState::Chill, false);
    assert!(r.is_none());
}

#[test]
fn goto_at_the_goal_already_is_no_path() {
    let t = open_grid(5, 5);
    let tf = ready_transform();
    let r = pathfinder(Pos { x: 2, y: 2 }, Pos { x: 2, y: 2 }, &t, &tf, NpcState::Chill, false);
    assert!(r.is_none());
}

#[test]
fn unready_grids_give_no_path() {
    let t = open_grid(5, 5);
    let mut tf = ready_transform();
    tf.ready = false;
    assert!(pathfinder(Pos { x: 0, y: 0 }, Pos { x: 3, y: 3 }, &t, &tf, NpcState::Chill, false)
        .is_none());
    let unready = TrespassableCells::unready();
    let tf = ready_transform();
    assert!(pathfinder(Pos { x: 0, y: 0 }, Pos { x: 3, y: 3 }, &unready, &tf, NpcState::Chill,
        false).is_none());
}

#[test]
fn attacking_and_dead_npcs_get_no_path() {
    let t = open_grid(5, 5);
    let tf = ready_transform();
    assert!(pathfinder(Pos { x: 0, y: 0 }, Pos { x: 3, y: 3 }, &t, &tf, NpcState::Attack, false)
        .is_none());
    assert!(pathfinder(Pos { x: 0, y: 0 }, Pos { x: 3, y: 3 }, &t, &tf, NpcState::Dead, true)
        .is_none());
}

#[test]
fn blocked_corners_are_not_cut() {
    // the diagonal to (1,1) must not be taken when both cardinals around
    // it are blocked; with them blocked the goal is unreachable entirely
    let t = grid_with_obstacles(2, 2, &[Pos { x: 1, y: 0 }, Pos { x: 0, y: 1 }]);
    let tf = ready_transform();
    let r = pathfinder(Pos { x: 0, y: 0 }, Pos { x: 1, y: 1 }, &t, &tf, NpcState::Chill, false);
    assert!(r.is_none());
}

#[test]
fn occupied_cells_are_avoided_but_not_blocking() {
    let tf = ready_transform();
    // a 3-wide corridor: the straight middle cell is occupied, a detour
    // around it is cheaper than the 100-point surcharge
    let mut t = open_grid(3, 3);
    t.update_units(&vec![Pos { x: 1, y: 1 }]);
    let path = pathfinder(Pos { x: 0, y: 1 }, Pos { x: 2, y: 1 }, &t, &tf, NpcState::Chill, false)
        .expect("detour exists");
    assert!(!path.contains(&Pos { x: 1, y: 1 }));
    // a 3x1 corridor: every way through is occupied, the path still exists
    let mut narrow = open_grid(3, 1);
    narrow.update_units(&vec![Pos { x: 1, y: 0 }]);
    let path = pathfinder(Pos { x: 0, y: 0 }, Pos { x: 2, y: 0 }, &narrow, &tf, NpcState::Chill,
        false).expect("occupied cells never block");
    assert!(path.contains(&Pos { x: 1, y: 0 }));
}

#[test]
fn hunter_escape_ends_beyond_its_radius() {
    let t = open_grid(11, 11);
    let tf = ready_transform();
    let start = Pos { x: 5, y: 5 };
    let goal = Pos { x: 5, y: 5 };
    let path = pathfinder(start, goal, &t, &tf, NpcState::Escape, true).expect("open grid");
    assert_eq!(path[0], start);
    assert!(dist_sq(*path.last().unwrap(), goal) > 25);
    assert_step_shape(&t, &path);
    // every cell before the last is still within the radius
    for p in &path[..path.len() - 1] {
        assert!(dist_sq(*p, goal) <= 25);
    }
}

#[test]
fn civilian_escape_flees_further_than_hunters() {
    let t = open_grid(25, 25);
    let tf = ready_transform();
    let start = Pos { x: 12, y: 12 };
    let goal = Pos { x: 12, y: 12 };
    let path = pathfinder(start, goal, &t, &tf, NpcState::Escape, false).expect("open grid");
    assert!(dist_sq(*path.last().unwrap(), goal) > 100);
    for p in &path[..path.len() - 1] {
        assert!(dist_sq(*p, goal) <= 100);
    }
}

#[test]
fn escape_already_beyond_the_radius_is_no_path() {
    let t = open_grid(11, 11);
    let tf = ready_transform();
    let r = pathfinder(Pos { x: 0, y: 0 }, Pos { x: 10, y: 10 }, &t, &tf, NpcState::Escape, true);
    assert!(r.is_none());
}

#[test]
fn hunter_chase_trims_four_cells_and_keeps_distance() {
    let t = open_grid(12, 1);
    let tf = ready_transform();
    let start = Pos { x: 0, y: 0 };
    let goal = Pos { x: 11, y: 0 };
    // the raw path stops at the first cell with squared distance < 10,
    // which is (8,0); its 9 cells lose exactly 4 from the tail
    let path = pathfinder(start, goal, &t, &tf, NpcState::Chase, true).expect("long approach");
    assert_eq!(path.len(), 5);
    assert_eq!(path[0], start);
    assert_eq!(*path.last().unwrap(), Pos { x: 4, y: 0 });
    for p in &path {
        assert!(dist_sq(*p, goal) >= 10);
    }
}

#[test]
fn hunter_chase_close_by_is_no_path() {
    let t = open_grid(8, 1);
    let tf = ready_transform();
    // the raw path to within range is 5 cells or shorter: no path
    let r = pathfinder(Pos { x: 0, y: 0 }, Pos { x: 5, y: 0 }, &t, &tf, NpcState::Chase, true);
    assert!(r.is_none());
}

#[test]
fn civilian_chase_walks_exactly_to_the_goal() {
    let t = open_grid(8, 8);
    let tf = ready_transform();
    let start = Pos { x: 1, y: 1 };
    let goal = Pos { x: 6, y: 2 };
    let path = pathfinder(start, goal, &t, &tf, NpcState::Chase, false).expect("open grid");
    assert_eq!(*path.last().unwrap(), goal);
    assert_step_shape(&t, &path);
}
