use snake_core::constants::{GRID_X_SIZE, GRID_Y_SIZE};
use snake_core::game_context::Point;

fn every_cell() -> Vec<Point> {
    let mut cells = Vec::new();
    for y in 0..GRID_Y_SIZE as i32 {
        for x in 0..GRID_X_SIZE as i32 {
            cells.push(Point(x, y));
        }
    }
    cells
}

#[test]
fn spawn_avoids_occupied_cells() {
    let occupied = vec![Point(5, 5), Point(4, 5), Point(3, 5)];
    for _ in 0..50 {
        let p = Point::new_no_intersect(&occupied).expect("free cells exist");
        assert!(p.0 >= 0 && p.0 < GRID_X_SIZE as i32);
        assert!(p.1 >= 0 && p.1 < GRID_Y_SIZE as i32);
        assert!(!occupied.contains(&p));
    }
}

#[test]
fn spawn_on_empty_grid_is_in_grid() {
    let p = Point::new_no_intersect(&Vec::new()).expect("grid is empty");
    assert!(p.0 >= 0 && p.0 < GRID_X_SIZE as i32);
    assert!(p.1 >= 0 && p.1 < GRID_Y_SIZE as i32);
}

#[test]
fn spawn_finds_the_single_free_cell() {
    let mut occupied = every_cell();
    occupied.retain(|p| *p != Point(7, 7));
    let p = Point::new_no_intersect(&occupied).expect("one cell is free");
    assert_eq!(p, Point(7, 7));
}

#[test]
fn spawn_on_full_grid_reports_no_cell() {
    let occupied = every_cell();
    assert_eq!(Point::new_no_intersect(&occupied), None);
}

#[test]
fn point_add_is_componentwise() {
    assert_eq!(Point(2, 3).add(Point(-1, 4)), Point(1, 7));
    assert_eq!(Point(0, 0).add(Point(0, -1)), Point(0, -1));
}

#[test]
fn point_default_is_in_grid() {
    for _ in 0..20 {
        let p = Point::default();
        assert!(p.0 >= 0 && p.0 < GRID_X_SIZE as i32);
        assert!(p.1 >= 0 && p.1 < GRID_Y_SIZE as i32);
    }
}
