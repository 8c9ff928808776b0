use echonet::geom::Pos;
use echonet::level::LevelManager;
use echonet::node::{
    activate_node, color_for_node_state, find_clicked_node, find_node_index_by_id,
    newly_deactivated, GameNode, NodeState, Rgb,
};
use echonet::puzzle::{
    check_level_completion, check_level_fail, connection_color, level_fail_transition,
    node_with_id_active, LevelFailCheck,
};
use echonet::sequence::{sequence_deviates, sequence_matches_required, PlayerActivationSequence};
use echonet::state::GameState;
use echonet::timer::GameTimer;

fn game_node(id: usize, x: i64, y: i64, state: NodeState) -> GameNode {
    GameNode { id, position: Pos { x, y }, state }
}

#[test]
fn activation_sequence_suppresses_duplicates() {
    let mut seq = PlayerActivationSequence::default();
    seq.add_activated_node(3);
    seq.add_activated_node(1);
    seq.add_activated_node(3);
    seq.add_activated_node(2);
    assert_eq!(seq.activated_node_ids, vec![3, 1, 2]);
    seq.clear();
    assert!(seq.activated_node_ids.is_empty());
}

#[test]
fn matches_required_is_a_prefix_check() {
    assert!(sequence_matches_required(&vec![0, 1, 2], &vec![0, 1, 2]));
    // Extra activations after the required prefix still match.
    assert!(sequence_matches_required(&vec![0, 1, 2, 9], &vec![0, 1, 2]));
    assert!(!sequence_matches_required(&vec![0, 1], &vec![0, 1, 2]));
    assert!(!sequence_matches_required(&vec![0, 2, 1], &vec![0, 1, 2]));
    assert!(sequence_matches_required(&vec![], &vec![]));
    assert!(sequence_matches_required(&vec![5], &vec![]));
}

#[test]
fn deviates_when_not_a_prefix_of_required() {
    assert!(!sequence_deviates(&vec![], &vec![0, 1, 2]));
    assert!(!sequence_deviates(&vec![0, 1], &vec![0, 1, 2]));
    assert!(sequence_deviates(&vec![0, 2], &vec![0, 1, 2]));
    // Going past the required sequence's end is a deviation.
    assert!(sequence_deviates(&vec![0, 1, 2, 9], &vec![0, 1, 2]));
}

#[test]
fn clicking_activates_idle_and_activating_nodes_only() {
    let mut seq = PlayerActivationSequence::default();

    let mut state = NodeState::Idle;
    assert!(activate_node(&mut state, &mut seq, 4));
    assert!(matches!(state, NodeState::Active));
    assert_eq!(seq.activated_node_ids, vec![4]);

    let mut state = NodeState::Activating;
    assert!(activate_node(&mut state, &mut seq, 5));
    assert!(matches!(state, NodeState::Active));
    assert_eq!(seq.activated_node_ids, vec![4, 5]);

    let mut state = NodeState::Active;
    assert!(!activate_node(&mut state, &mut seq, 6));
    assert!(matches!(state, NodeState::Active));

    let mut state = NodeState::Target;
    assert!(!activate_node(&mut state, &mut seq, 7));
    assert!(matches!(state, NodeState::Target));

    let mut state = NodeState::Start;
    assert!(!activate_node(&mut state, &mut seq, 8));
    assert!(matches!(state, NodeState::Start));

    assert_eq!(seq.activated_node_ids, vec![4, 5]);
}

#[test]
fn find_node_by_id_returns_first_match() {
    let nodes = vec![
        game_node(2, 0, 0, NodeState::Idle),
        game_node(7, 10, 0, NodeState::Idle),
        game_node(7, 20, 0, NodeState::Active),
    ];
    assert_eq!(find_node_index_by_id(&nodes, 7), Some(1));
    assert_eq!(find_node_index_by_id(&nodes, 2), Some(0));
    assert_eq!(find_node_index_by_id(&nodes, 9), None);
}

#[test]
fn clicks_hit_strictly_within_the_radius() {
    let positions = vec![Pos { x: 0, y: 0 }, Pos { x: 50, y: 0 }];
    assert_eq!(find_clicked_node(&positions, Pos { x: 24, y: 0 }), Some(0));
    // Exactly 25 world units away is a miss.
    assert_eq!(find_clicked_node(&positions, Pos { x: 25, y: 0 }), None);
    assert_eq!(find_clicked_node(&positions, Pos { x: 40, y: 0 }), Some(1));
    assert_eq!(find_clicked_node(&positions, Pos { x: 500, y: 500 }), None);
}

#[test]
fn deactivated_nodes_are_those_missing_from_the_current_set() {
    assert_eq!(newly_deactivated(&vec![1, 2, 3], &vec![2]), vec![1, 3]);
    assert_eq!(newly_deactivated(&vec![], &vec![2]), Vec::<usize>::new());
    assert_eq!(newly_deactivated(&vec![4, 5], &vec![]), vec![4, 5]);
    assert_eq!(newly_deactivated(&vec![4, 5], &vec![4, 5]), Vec::<usize>::new());
}

#[test]
fn level_table_holds_three_levels_in_order() {
    let manager = LevelManager::default();
    assert_eq!(manager.current_level_index, 0);
    assert_eq!(manager.levels.len(), 3);
    assert_eq!(manager.levels[0].name, "The Basics");
    assert_eq!(manager.levels[1].name, "A Fork in the Road");
    assert_eq!(manager.levels[2].name, "Ordered Activation");
    for (k, level) in manager.levels.iter().enumerate() {
        assert_eq!(level.id, k + 1);
        assert_eq!(level.start_node_index, 0);
        assert!(level.time_limit_ms.is_some());
    }
    assert_eq!(manager.levels[0].connections, vec![(0, 1), (1, 2)]);
    assert_eq!(
        manager.levels[0].required_activation_sequence,
        Some(vec![0, 1, 2])
    );
    assert_eq!(
        manager.levels[1].required_activation_sequence,
        Some(vec![0, 1, 3])
    );
    assert_eq!(
        manager.levels[2].required_activation_sequence,
        Some(vec![0, 2, 1])
    );
    assert_eq!(manager.levels[2].target_node_index, 4);
    assert_eq!(manager.levels[0].time_limit_ms, Some(30000));
}

#[test]
fn level_manager_advances_until_the_last_level() {
    let mut manager = LevelManager::default();
    assert!(manager.load_next_level());
    assert_eq!(manager.current_level_index, 1);
    assert!(manager.load_next_level());
    assert_eq!(manager.current_level_index, 2);
    assert!(!manager.load_next_level());
    assert_eq!(manager.current_level_index, 2);
    assert_eq!(manager.get_current_level().unwrap().id, 3);
}

#[test]
fn level_manager_reset_wraps_an_out_of_range_index() {
    let mut manager = LevelManager::default();
    manager.current_level_index = 7;
    assert!(manager.get_current_level().is_none());
    manager.reset_current_level();
    assert_eq!(manager.current_level_index, 0);
    manager.current_level_index = 2;
    manager.reset_current_level();
    assert_eq!(manager.current_level_index, 2);
}

#[test]
fn timer_expires_only_with_a_limit() {
    let mut timer = GameTimer::default();
    timer.tick(100_000);
    assert!(!timer.expired());
    timer.arm(Some(30000));
    assert_eq!(timer.elapsed_ms, 0);
    timer.tick(29_999);
    assert!(!timer.expired());
    timer.tick(1);
    assert!(timer.expired());
}

#[test]
fn timer_saturates_at_the_top_of_range() {
    let mut timer = GameTimer::default();
    timer.elapsed_ms = u64::MAX - 5;
    timer.tick(100);
    assert_eq!(timer.elapsed_ms, u64::MAX);
}

#[test]
fn completion_needs_active_target_and_matching_order() {
    let manager = LevelManager::default();
    let level = &manager.levels[0];
    let mut player = PlayerActivationSequence::default();
    player.add_activated_node(0);
    player.add_activated_node(1);
    assert!(!check_level_completion(true, &player, level));
    player.add_activated_node(2);
    assert!(check_level_completion(true, &player, level));
    assert!(!check_level_completion(false, &player, level));

    let mut wrong_order = PlayerActivationSequence::default();
    wrong_order.add_activated_node(0);
    wrong_order.add_activated_node(2);
    wrong_order.add_activated_node(1);
    assert!(!check_level_completion(true, &wrong_order, level));
}

#[test]
fn failure_check_reports_timeout_then_deviation() {
    let manager = LevelManager::default();
    let level = &manager.levels[0];
    let mut timer = GameTimer::default();
    timer.arm(level.time_limit_ms);

    let mut player = PlayerActivationSequence::default();
    player.add_activated_node(0);
    assert_eq!(check_level_fail(&timer, &player, level), LevelFailCheck::InProgress);

    player.add_activated_node(2);
    assert_eq!(check_level_fail(&timer, &player, level), LevelFailCheck::Deviated);

    timer.tick(30000);
    assert_eq!(check_level_fail(&timer, &player, level), LevelFailCheck::TimedOut);

    assert_eq!(
        level_fail_transition(LevelFailCheck::TimedOut),
        Some(GameState::GameOver)
    );
    assert_eq!(level_fail_transition(LevelFailCheck::Deviated), None);
    assert_eq!(level_fail_transition(LevelFailCheck::InProgress), None);
}

#[test]
fn node_with_id_active_scans_states() {
    let nodes = vec![
        game_node(0, 0, 0, NodeState::Start),
        game_node(1, 10, 0, NodeState::Active),
        game_node(2, 20, 0, NodeState::Target),
    ];
    assert!(node_with_id_active(&nodes, 1));
    assert!(!node_with_id_active(&nodes, 2));
    assert!(!node_with_id_active(&nodes, 9));
}

#[test]
fn connection_colors_follow_endpoint_states() {
    let yellow = Rgb { r: 255, g: 255, b: 0 };
    let orange = Rgb { r: 255, g: 165, b: 0 };
    let gray = Rgb { r: 128, g: 128, b: 128 };
    assert_eq!(connection_color(true, None, None), yellow);
    assert_eq!(
        connection_color(false, Some(NodeState::Active), Some(NodeState::Start)),
        yellow
    );
    assert_eq!(
        connection_color(false, Some(NodeState::Active), Some(NodeState::Idle)),
        orange
    );
    assert_eq!(connection_color(false, Some(NodeState::Target), None), orange);
    assert_eq!(
        connection_color(false, Some(NodeState::Idle), Some(NodeState::Activating)),
        gray
    );
    assert_eq!(connection_color(false, None, None), gray);
}

#[test]
fn node_state_colors() {
    assert_eq!(
        color_for_node_state(&NodeState::Idle),
        Rgb { r: 128, g: 128, b: 128 }
    );
    assert_eq!(
        color_for_node_state(&NodeState::Active),
        Rgb { r: 255, g: 255, b: 0 }
    );
    assert_eq!(
        color_for_node_state(&NodeState::Start),
        Rgb { r: 0, g: 255, b: 0 }
    );
    assert_eq!(
        color_for_node_state(&NodeState::Target),
        Rgb { r: 255, g: 0, b: 0 }
    );
    assert_eq!(
        color_for_node_state(&NodeState::Activating),
        Rgb { r: 255, g: 165, b: 0 }
    );
}
