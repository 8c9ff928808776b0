use echonet::connect::{
    begin_level, check_puzzle_completion, drag_press, drag_release, get_level_spec,
    level_complete_button_action, normalize_pair, CurrentLevel, DragState, PlayerAttempt,
    PuzzleSpec, MAX_LEVELS,
};
use echonet::geom::Pos;
use echonet::state::{GameButtonAction, GameState};

#[test]
fn pairs_are_normalized_smaller_id_first() {
    assert_eq!(normalize_pair(2, 1), (1, 2));
    assert_eq!(normalize_pair(1, 2), (1, 2));
    assert_eq!(normalize_pair(3, 3), (3, 3));
}

#[test]
fn drawn_connections_are_recorded_once() {
    let mut attempt = PlayerAttempt::default();
    assert!(attempt.record_connection_attempt(2, 1));
    assert_eq!(attempt.drawn_connections, vec![(1, 2)]);
    // The same edge drawn the other way round is a duplicate.
    assert!(!attempt.record_connection_attempt(1, 2));
    assert!(!attempt.record_connection_attempt(2, 1));
    assert!(attempt.record_connection_attempt(0, 1));
    assert_eq!(attempt.drawn_connections, vec![(1, 2), (0, 1)]);
    attempt.clear();
    assert!(attempt.drawn_connections.is_empty());
}

#[test]
fn completion_is_set_equality_regardless_of_order() {
    let puzzle = get_level_spec(0);
    let mut attempt = PlayerAttempt::default();
    assert!(!check_puzzle_completion(&attempt, &puzzle));

    // The same two edges, drawn in the other order and orientation.
    attempt.record_connection_attempt(2, 1);
    assert!(!check_puzzle_completion(&attempt, &puzzle));
    attempt.record_connection_attempt(1, 0);
    assert!(check_puzzle_completion(&attempt, &puzzle));
}

#[test]
fn an_extra_connection_spoils_completion() {
    let puzzle = get_level_spec(0);
    let mut attempt = PlayerAttempt::default();
    attempt.record_connection_attempt(0, 1);
    attempt.record_connection_attempt(1, 2);
    attempt.record_connection_attempt(0, 2);
    assert!(!check_puzzle_completion(&attempt, &puzzle));
}

#[test]
fn puzzle_table_and_fallback() {
    let first = get_level_spec(0);
    assert_eq!(
        first.node_positions,
        vec![Pos { x: -150, y: 0 }, Pos { x: 0, y: 100 }, Pos { x: 150, y: 0 }]
    );
    assert_eq!(first.correct_connections, vec![(0, 1), (1, 2)]);

    let second = get_level_spec(1);
    assert_eq!(second.node_positions.len(), 5);
    assert_eq!(
        second.correct_connections,
        vec![(0, 2), (1, 2), (2, 3), (2, 4)]
    );

    // An id past the table falls back to the first puzzle.
    let beyond = get_level_spec(7);
    assert_eq!(beyond.node_positions, first.node_positions);
    assert_eq!(beyond.correct_connections, first.correct_connections);
}

#[test]
fn beginning_a_level_installs_the_table_and_wraps() {
    let mut current = CurrentLevel { level_id: 5, total_levels: 0 };
    let spec = begin_level(&mut current);
    assert_eq!(current.level_id, 0);
    assert_eq!(current.total_levels, MAX_LEVELS);
    assert_eq!(spec.correct_connections, get_level_spec(0).correct_connections);

    let mut current = CurrentLevel { level_id: 1, total_levels: 0 };
    let spec = begin_level(&mut current);
    assert_eq!(current.level_id, 1);
    assert_eq!(spec.correct_connections, get_level_spec(1).correct_connections);
}

#[test]
fn default_puzzle_connects_a_pair() {
    let spec = PuzzleSpec::default();
    assert_eq!(spec.node_positions, vec![Pos { x: -100, y: 0 }, Pos { x: 100, y: 0 }]);
    assert_eq!(spec.correct_connections, vec![(0, 1)]);
    let drag = DragState::default();
    assert!(drag.start_node.is_none());
}

#[test]
fn drags_start_only_on_the_activated_node() {
    let positions = vec![Pos { x: 0, y: 0 }, Pos { x: 100, y: 0 }];
    assert_eq!(drag_press(Some(0), &positions, Pos { x: 10, y: 0 }), Some(0));
    assert_eq!(drag_press(Some(0), &positions, Pos { x: 30, y: 0 }), None);
    // A press near an unselected node starts nothing.
    assert_eq!(drag_press(None, &positions, Pos { x: 10, y: 0 }), None);
    assert_eq!(drag_press(Some(1), &positions, Pos { x: 99, y: 0 }), Some(1));
}

#[test]
fn drags_end_on_the_first_other_node_hit() {
    let positions = vec![Pos { x: 0, y: 0 }, Pos { x: 10, y: 0 }, Pos { x: 20, y: 0 }];
    // The drag's own start node never counts as its end.
    assert_eq!(drag_release(0, &positions, Pos { x: 0, y: 0 }), Some(1));
    assert_eq!(drag_release(1, &positions, Pos { x: 11, y: 0 }), Some(0));
    assert_eq!(drag_release(0, &positions, Pos { x: 500, y: 0 }), None);
}

#[test]
fn next_level_button_advances_while_a_level_remains() {
    let mut current = CurrentLevel { level_id: 0, total_levels: 2 };
    assert!(current.has_next_level());
    let r = level_complete_button_action(GameButtonAction::NextLevel, &mut current);
    assert_eq!(r, Some(GameState::LoadingLevel));
    assert_eq!(current.level_id, 1);

    assert!(!current.has_next_level());
    let r = level_complete_button_action(GameButtonAction::NextLevel, &mut current);
    assert_eq!(r, None);
    assert_eq!(current.level_id, 1);

    let r = level_complete_button_action(GameButtonAction::BackToMenu, &mut current);
    assert_eq!(r, Some(GameState::MainMenu));
    let r = level_complete_button_action(GameButtonAction::RestartLevel, &mut current);
    assert_eq!(r, None);
}
