use vampillage::grid::Pos;
use vampillage::occupancy::TrespassableCells;

fn open_grid(w: i32, h: i32) -> TrespassableCells {
    let mut t = TrespassableCells::unready();
    t.init_cells(Pos { x: w, y: h }, &Vec::new());
    t
}

#[test]
fn fresh_grid_is_unready() {
    let t = TrespassableCells::unready();
    assert!(!t.ready);
    assert!(!t.is_trespassable(&Pos { x: 0, y: 0 }));
}

#[test]
fn init_marks_everything_walkable_but_obstacles() {
    let mut t = TrespassableCells::unready();
    // obstacle rows arrive counted from the bottom: ldtk row 0 is matrix row 3
    t.init_cells(Pos { x: 4, y: 4 }, &vec![Pos { x: 1, y: 0 }, Pos { x: 2, y: 3 }]);
    assert!(t.ready);
    assert!(!t.is_trespassable(&Pos { x: 1, y: 3 }));
    assert!(!t.is_trespassable(&Pos { x: 2, y: 0 }));
    let mut open = 0;
    for x in 0..4 {
        for y in 0..4 {
            if t.is_trespassable(&Pos { x, y }) {
                open += 1;
            }
        }
    }
    assert_eq!(open, 14);
}

#[test]
fn out_of_bounds_is_never_trespassable() {
    let t = open_grid(4, 4);
    assert!(!t.is_trespassable(&Pos { x: -1, y: 0 }));
    assert!(!t.is_trespassable(&Pos { x: 0, y: -1 }));
    assert!(!t.is_trespassable(&Pos { x: 4, y: 0 }));
    assert!(!t.is_trespassable(&Pos { x: 0, y: 4 }));
}

#[test]
fn unit_grid_is_rebuilt_from_scratch() {
    let mut t = open_grid(4, 4);
    t.update_units(&vec![Pos { x: 1, y: 1 }, Pos { x: 2, y: 2 }]);
    assert!(t.contains_unit(&Pos { x: 1, y: 1 }));
    assert!(t.contains_unit(&Pos { x: 2, y: 2 }));
    assert!(!t.contains_unit(&Pos { x: 3, y: 3 }));
    t.update_units(&vec![Pos { x: 3, y: 3 }]);
    assert!(!t.contains_unit(&Pos { x: 1, y: 1 }));
    assert!(t.contains_unit(&Pos { x: 3, y: 3 }));
    // occupancy does not change walkability
    assert!(t.is_trespassable(&Pos { x: 3, y: 3 }));
}
