use echonet::echo::{echo_at_target, plan_echo_spawn, update_echo_movement, EchoPath, ECHO_SPEED};
use echonet::geom::Pos;

#[test]
fn echo_path_hands_out_ids_front_first() {
    let mut path = EchoPath::default();
    assert!(path.is_empty());
    path.set_path(vec![4, 5, 6]);
    assert!(!path.is_empty());
    assert_eq!(path.get_next_node_in_path(), Some(4));
    assert_eq!(path.get_next_node_in_path(), Some(5));
    assert_eq!(path.get_next_node_in_path(), Some(6));
    assert_eq!(path.get_next_node_in_path(), None);
    path.set_path(vec![1]);
    path.clear();
    assert!(path.is_empty());
}

#[test]
fn spawn_plan_needs_a_path_starting_at_the_start_node() {
    let mut path = EchoPath::default();
    assert!(plan_echo_spawn(&mut path, 0, ECHO_SPEED).is_none());

    path.set_path(vec![3, 1, 2]);
    assert!(plan_echo_spawn(&mut path, 0, ECHO_SPEED).is_none());
    // A rejected plan leaves the pending path alone.
    assert!(!path.is_empty());

    let echo = plan_echo_spawn(&mut path, 3, ECHO_SPEED).unwrap();
    assert_eq!(echo.current_node, 3);
    assert_eq!(echo.path, vec![3, 1, 2]);
    assert_eq!(echo.target_node, 2);
    assert_eq!(echo.speed, ECHO_SPEED);
    assert_eq!(echo.progress_on_connection, 0);
    assert_eq!(echo.current_segment_index, 0);
    // A successful plan drains the pending path.
    assert!(path.is_empty());
}

#[test]
fn echo_interpolates_then_snaps_along_its_path() {
    let positions = vec![Pos { x: 0, y: 0 }, Pos { x: 100, y: 0 }, Pos { x: 200, y: 0 }];
    let mut path = EchoPath::default();
    path.set_path(vec![0, 1, 2]);
    let mut echo = plan_echo_spawn(&mut path, 0, 150).unwrap();

    // 100 ms at 150 units/s over a 100-unit segment: 15% of the way.
    let pos = update_echo_movement(&mut echo, &positions, 100).unwrap();
    assert_eq!(pos, Pos { x: 15, y: 0 });
    assert_eq!(echo.progress_on_connection, 150_000);
    assert_eq!(echo.current_segment_index, 0);
    assert_eq!(echo.current_node, 0);
    assert!(!echo_at_target(&echo));

    // A whole second overshoots the segment: snap to the next node.
    let pos = update_echo_movement(&mut echo, &positions, 1000).unwrap();
    assert_eq!(pos, Pos { x: 100, y: 0 });
    assert_eq!(echo.progress_on_connection, 0);
    assert_eq!(echo.current_segment_index, 1);
    assert_eq!(echo.current_node, 1);
    assert!(!echo_at_target(&echo));

    let pos = update_echo_movement(&mut echo, &positions, 1000).unwrap();
    assert_eq!(pos, Pos { x: 200, y: 0 });
    assert_eq!(echo.current_node, 2);
    assert!(echo_at_target(&echo));

    // At the path's end the echo stays put.
    assert_eq!(update_echo_movement(&mut echo, &positions, 1000), None);
    assert_eq!(echo.current_node, 2);
    assert_eq!(echo.current_segment_index, 2);
}

#[test]
fn echo_crosses_a_zero_length_segment_at_once() {
    let positions = vec![Pos { x: 40, y: 40 }, Pos { x: 40, y: 40 }];
    let mut path = EchoPath::default();
    path.set_path(vec![0, 1]);
    let mut echo = plan_echo_spawn(&mut path, 0, 150).unwrap();
    let pos = update_echo_movement(&mut echo, &positions, 1).unwrap();
    assert_eq!(pos, Pos { x: 40, y: 40 });
    assert_eq!(echo.current_segment_index, 1);
    assert!(echo_at_target(&echo));
}

#[test]
fn echo_moves_along_a_diagonal_segment() {
    // Segment (0,0) to (30,40): length 50. 150 units/s for 100 ms covers
    // 15 units: 30% of the segment.
    let positions = vec![Pos { x: 0, y: 0 }, Pos { x: 30, y: 40 }];
    let mut path = EchoPath::default();
    path.set_path(vec![0, 1]);
    let mut echo = plan_echo_spawn(&mut path, 0, 150).unwrap();
    let pos = update_echo_movement(&mut echo, &positions, 100).unwrap();
    assert_eq!(echo.progress_on_connection, 300_000);
    assert_eq!(pos, Pos { x: 9, y: 12 });
}
