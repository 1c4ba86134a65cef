use p2pio::error::FatalError;
use p2pio::heading::PlayerHeading;
use p2pio::player::{Player, PlayerStore};

#[test]
fn test_player_get_position() {
    let mut player = Player::spawn(3, 10, 10, 0);

    assert_eq!(player.get_position(0), (10, 10));
    for (heading, expected_position) in [
        (PlayerHeading::Up, (10, 11)),
        (PlayerHeading::Down, (10, 9)),
        (PlayerHeading::Left, (9, 10)),
        (PlayerHeading::Right, (11, 10)),
    ]
    .iter()
    {
        player.set_heading(*heading);
        assert_eq!(player.get_heading(), *heading);
        assert_eq!(&player.get_position(1), expected_position, "Heading {:?}", heading);
    }
}

#[test]
fn test_spawn_players() {
    let player1 = Player::spawn(1, 10, 10, 0);
    let player2 = Player::spawn(2, 10, 42, 5);

    // A spawned player stands still until its first input.
    assert_eq!(player1.get_position(5), (10, 10));
    assert_eq!(player2.get_position(5), (10, 42));

    assert_eq!(player1.get_position(10), (10, 10));
    assert_eq!(player2.get_position(10), (10, 42));
}

#[test]
fn test_spawn_then_heading_projects_displacement() {
    for (heading, expected) in [
        (PlayerHeading::Up, (3, 4 + 7)),
        (PlayerHeading::Down, (3, 4 - 7)),
        (PlayerHeading::Left, (3 - 7, 4)),
        (PlayerHeading::Right, (3 + 7, 4)),
        (PlayerHeading::NoHeading, (3, 4)),
    ] {
        let mut p = Player::spawn(9, 3, 4, 2);
        p.set_heading(heading);
        assert_eq!(p.get_position(9), expected, "Heading {:?}", heading);
    }
}

#[test]
fn test_composition_law() {
    let mut p = Player::spawn(1, 0, 0, 0);
    p.apply_input(PlayerHeading::Up, 0);
    p.apply_input(PlayerHeading::Right, 10);
    // 10 ticks moving up, then 15 ticks moving right.
    assert_eq!(p.get_position(25), (15, 10));
}

#[test]
fn test_apply_input_commits_travel() {
    let mut p = Player::spawn(4, 100, -50, 20);
    p.apply_input(PlayerHeading::Down, 20);
    p.apply_input(PlayerHeading::Left, 26);
    // Six ticks down were committed before the heading switched.
    assert_eq!(p.get_heading(), PlayerHeading::Left);
    assert_eq!(p.get_position(26), (100, -56));
    assert_eq!(p.get_position(30), (96, -56));
}

#[test]
fn test_heading_codes() {
    for (h, c) in [
        (PlayerHeading::Up, 0i64),
        (PlayerHeading::Down, 1),
        (PlayerHeading::Left, 2),
        (PlayerHeading::Right, 3),
        (PlayerHeading::NoHeading, 4),
    ] {
        assert_eq!(h.as_i64(), c);
        assert_eq!(i64::from(h), c);
        assert_eq!(PlayerHeading::from_i64(c), Ok(h));
    }
    assert_eq!(
        PlayerHeading::from_i64(5),
        Err(FatalError::HeadingCodeOutOfRange)
    );
    assert_eq!(
        PlayerHeading::from_i64(-1),
        Err(FatalError::HeadingCodeOutOfRange)
    );
}

#[test]
fn test_store_load_save() {
    let mut store = PlayerStore::new();
    assert!(store.load(7).is_none());

    store.save(Player::spawn(7, 1, 2, 3));
    let p = store.load(7).expect("stored baseline");
    assert_eq!(p.get_position(3), (1, 2));
    assert_eq!(p.get_heading(), PlayerHeading::NoHeading);

    // Saving again overwrites by value.
    store.save(Player::spawn(7, 8, 9, 10));
    let p = store.load(7).expect("stored baseline");
    assert_eq!(p.get_position(10), (8, 9));
    assert!(store.load(8).is_none());
}
