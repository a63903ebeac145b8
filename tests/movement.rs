use toejam::movement::{direction, move_player, Direction, MoveKey, Position, MOVE_SPEED};

#[test]
fn single_key_moves_one_step() {
    let mut players = vec![Position { x: 100, y: -50 }];
    assert!(move_player(&[MoveKey::Up], &mut players));
    assert_eq!(players, vec![Position { x: 100, y: -37 }]);
}

#[test]
fn letter_keys_match_arrow_keys() {
    assert_eq!(direction(&[MoveKey::W]), Direction { x: 0, y: 1 });
    assert_eq!(direction(&[MoveKey::S]), Direction { x: 0, y: -1 });
    assert_eq!(direction(&[MoveKey::A]), Direction { x: -1, y: 0 });
    assert_eq!(direction(&[MoveKey::D]), Direction { x: 1, y: 0 });
}

#[test]
fn diagonal_moves_on_both_axes() {
    let mut players = vec![Position { x: 0, y: 0 }, Position { x: 7, y: 9 }];
    move_player(&[MoveKey::Left, MoveKey::S], &mut players);
    assert_eq!(
        players,
        vec![
            Position { x: -13, y: -13 },
            Position { x: 7 - MOVE_SPEED, y: 9 - MOVE_SPEED }
        ]
    );
}

#[test]
fn arrow_and_letter_of_one_direction_count_once() {
    assert_eq!(direction(&[MoveKey::Right, MoveKey::D, MoveKey::D]), Direction { x: 1, y: 0 });
}

#[test]
fn no_keys_leave_positions_unchanged() {
    let mut players = vec![Position { x: 3, y: 4 }];
    assert!(!move_player(&[], &mut players));
    assert_eq!(players, vec![Position { x: 3, y: 4 }]);
}

#[test]
fn opposing_keys_leave_positions_unchanged() {
    let mut players = vec![Position { x: 3, y: 4 }];
    move_player(&[MoveKey::Up, MoveKey::Down, MoveKey::A, MoveKey::Right], &mut players);
    assert_eq!(players, vec![Position { x: 3, y: 4 }]);
    assert!(!move_player(&[MoveKey::W, MoveKey::S], &mut players));
    assert_eq!(players, vec![Position { x: 3, y: 4 }]);
}

#[test]
fn one_cancelled_axis_keeps_the_other() {
    let mut players = vec![Position { x: 0, y: 0 }];
    move_player(&[MoveKey::Up, MoveKey::Down, MoveKey::D], &mut players);
    assert_eq!(players, vec![Position { x: 13, y: 0 }]);
}

#[test]
fn no_players_is_fine() {
    let mut players: Vec<Position> = Vec::new();
    move_player(&[MoveKey::Up], &mut players);
    assert!(players.is_empty());
}
