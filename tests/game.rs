use manifest_orders::Piece::{Cookie, Milk};
use manifest_orders::{Game, GameState};

#[test]
fn game_displays_correctly() {
    for (game, expected) in [
        (
            Game {
                board: [[Some(Cookie); 4], [None; 4], [None; 4], [None; 4]],
            },
            "\
⬜🍪⬛⬛⬛⬜
⬜🍪⬛⬛⬛⬜
⬜🍪⬛⬛⬛⬜
⬜🍪⬛⬛⬛⬜
⬜⬜⬜⬜⬜⬜
🍪 wins!
",
        ),
        (
            Game {
                board: [
                    [Some(Milk), Some(Cookie), Some(Cookie), Some(Cookie)],
                    [Some(Cookie), Some(Milk), Some(Milk), Some(Milk)],
                    [Some(Milk), Some(Cookie), Some(Cookie), Some(Cookie)],
                    [Some(Cookie), Some(Milk), Some(Milk), Some(Milk)],
                ],
            },
            "\
⬜🥛🍪🥛🍪⬜
⬜🍪🥛🍪🥛⬜
⬜🍪🥛🍪🥛⬜
⬜🍪🥛🍪🥛⬜
⬜⬜⬜⬜⬜⬜
No winner.
",
        ),
        (
            Game {
                board: [
                    [None, None, None, Some(Cookie)],
                    [None, None, Some(Cookie), Some(Milk)],
                    [None, Some(Cookie), Some(Milk), Some(Milk)],
                    [Some(Cookie), Some(Milk), Some(Milk), Some(Milk)],
                ],
            },
            "\
⬜⬛⬛⬛🍪⬜
⬜⬛⬛🍪🥛⬜
⬜⬛🍪🥛🥛⬜
⬜🍪🥛🥛🥛⬜
⬜⬜⬜⬜⬜⬜
🍪 wins!
",
        ),
    ] {
        assert_eq!(expected, game.to_string());
    }
}

#[test]
fn can_add_pieces_to_game() {
    let mut game = Game::new();
    game.place(Milk, 1);
    game.place(Cookie, 1);
    game.place(Milk, 2);
    game.place(Cookie, 3);
    game.place(Milk, 2);

    assert_eq!(
        Game {
            board: [
                [None, None, Some(Cookie), Some(Milk)],
                [None, None, Some(Milk), Some(Milk)],
                [None, None, None, Some(Cookie)],
                [None, None, None, None],
            ]
        },
        game
    );
}

#[test]
fn new_game_is_empty_and_going_on() {
    let game = Game::new();
    assert_eq!(game.board, [[None; 4]; 4]);
    assert_eq!(game.get_state(), GameState::NotEnded);
    assert_eq!(
        game.to_string(),
        "⬜⬛⬛⬛⬛⬜\n⬜⬛⬛⬛⬛⬜\n⬜⬛⬛⬛⬛⬜\n⬜⬛⬛⬛⬛⬜\n⬜⬜⬜⬜⬜⬜\n"
    );
}

#[test]
fn full_column_takes_no_more_pieces() {
    let mut game = Game::new();
    assert!(game.place(Milk, 1));
    assert!(game.place(Cookie, 1));
    assert!(game.place(Milk, 1));
    assert!(game.place(Cookie, 1));
    assert!(!game.place(Milk, 1));
    assert_eq!(game.board[0], [Some(Cookie), Some(Milk), Some(Cookie), Some(Milk)]);
}

#[test]
fn no_piece_after_a_win() {
    let mut game = Game::new();
    for column in 1..=4 {
        assert!(game.place(Milk, column));
    }
    assert_eq!(game.get_state(), GameState::Winner(Milk));
    assert!(!game.place(Cookie, 1));
    assert_eq!(game.board[0], [None, None, None, Some(Milk)]);
    game.reset();
    assert_eq!(game, Game::new());
}

#[test]
fn states_of_lines() {
    let anti = Game {
        board: [
            [None, None, None, Some(Milk)],
            [None, None, Some(Milk), Some(Cookie)],
            [None, Some(Milk), Some(Cookie), Some(Cookie)],
            [Some(Milk), Some(Cookie), Some(Cookie), Some(Cookie)],
        ],
    };
    assert_eq!(anti.get_state(), GameState::Winner(Milk));
    let diagonal = Game {
        board: [
            [Some(Cookie), None, None, Some(Milk)],
            [None, Some(Cookie), None, Some(Milk)],
            [None, None, Some(Cookie), Some(Milk)],
            [None, None, None, Some(Cookie)],
        ],
    };
    assert_eq!(diagonal.get_state(), GameState::Winner(Cookie));
    let draw = Game {
        board: [
            [Some(Milk), Some(Cookie), Some(Cookie), Some(Cookie)],
            [Some(Cookie), Some(Milk), Some(Milk), Some(Milk)],
            [Some(Milk), Some(Cookie), Some(Cookie), Some(Cookie)],
            [Some(Cookie), Some(Milk), Some(Milk), Some(Milk)],
        ],
    };
    assert_eq!(draw.get_state(), GameState::Draw);
}
