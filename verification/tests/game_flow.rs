use cosmwasm_std::{generic_err, to_binary, HandleResponse, InitResponse, StdError, StdResult};
use pasture_game::contract::{handle, init, query};
use pasture_game::error::GameError;
use pasture_game::geometry::{Coords, Herd, Orientation};
use pasture_game::msg::{HandleMsg, QueryAnswer, QueryMsg};
use pasture_game::pasture::{Pasture, Shot};
use pasture_game::player::Credentials;
use pasture_game::store::GameStore;
use serde::ser::{Serialize, SerializeStruct, Serializer};

struct WireCoords(Coords);

struct WireHerd(Herd);

struct WireShot(Shot);

struct WirePasture {
    herds: Vec<WireHerd>,
    shots: Vec<WireShot>,
}

impl Serialize for WireCoords {
    fn serialize<S: Serializer>(&self, serializer: S) -> Result<S::Ok, S::Error> {
        let mut out = serializer.serialize_struct("Coords", 2)?;
        out.serialize_field("x", &self.0.x)?;
        out.serialize_field("y", &self.0.y)?;
        out.end()
    }
}

impl Serialize for WireHerd {
    fn serialize<S: Serializer>(&self, serializer: S) -> Result<S::Ok, S::Error> {
        let orientation = match self.0.orientation {
            Orientation::Horizontal => "horizontal",
            Orientation::Vertical => "vertical",
        };
        let mut out = serializer.serialize_struct("Herd", 3)?;
        out.serialize_field("coords", &WireCoords(self.0.coords))?;
        out.serialize_field("length", &self.0.length)?;
        out.serialize_field("orientation", orientation)?;
        out.end()
    }
}

impl Serialize for WireShot {
    fn serialize<S: Serializer>(&self, serializer: S) -> Result<S::Ok, S::Error> {
        let mut out = serializer.serialize_struct("Shot", 2)?;
        out.serialize_field("coords", &WireCoords(self.0.coords()))?;
        out.serialize_field("hit", &self.0.outcome())?;
        out.end()
    }
}

impl Serialize for WirePasture {
    fn serialize<S: Serializer>(&self, serializer: S) -> Result<S::Ok, S::Error> {
        let mut out = serializer.serialize_struct("Pasture", 2)?;
        out.serialize_field("herds", &self.herds)?;
        out.serialize_field("shots", &self.shots)?;
        out.end()
    }
}

fn wire(pasture: &Pasture) -> WirePasture {
    WirePasture {
        herds: pasture.herds().iter().map(|h| WireHerd(*h)).collect(),
        shots: pasture.shots().iter().map(|s| WireShot(*s)).collect(),
    }
}

fn credentials(game: &str, username: &str, password: &str) -> Credentials {
    Credentials {
        game: game.to_string(),
        username: username.to_string(),
        password: password.to_string(),
    }
}

fn respond(store: &mut GameStore, msg: HandleMsg) -> StdResult<HandleResponse> {
    let game = msg.game_name().clone();
    match handle(store, msg) {
        Ok(()) => Ok(HandleResponse::default()),
        Err(e) => Err(generic_err(e.describe(&game))),
    }
}

fn my_pasture(store: &GameStore, credentials: Credentials) -> Pasture {
    match query(store, QueryMsg::MyPasture { credentials }) {
        Ok(QueryAnswer::Pasture(p)) => p,
        other => panic!("Unexpected answer: {:?}", other),
    }
}

fn first_fleet() -> Vec<Herd> {
    vec![
        Herd::new(0, 0, 2, Orientation::Horizontal),
        Herd::new(3, 2, 3, Orientation::Horizontal),
        Herd::new(4, 6, 3, Orientation::Vertical),
        Herd::new(6, 0, 4, Orientation::Horizontal),
        Herd::new(2, 2, 5, Orientation::Vertical),
    ]
}

fn second_fleet() -> Vec<Herd> {
    vec![
        Herd::new(6, 5, 2, Orientation::Vertical),
        Herd::new(1, 4, 3, Orientation::Horizontal),
        Herd::new(4, 4, 3, Orientation::Horizontal),
        Herd::new(8, 3, 4, Orientation::Vertical),
        Herd::new(5, 9, 5, Orientation::Horizontal),
    ]
}

#[test]
fn main_game_flow() {
    let mut store = init();
    let res: InitResponse = InitResponse::default();
    assert_eq!(0, res.messages.len());

    // Create new game with "foo" name
    let msg = HandleMsg::NewGame { name: "foo".to_string() };
    let res: HandleResponse = respond(&mut store, msg).unwrap();
    assert_eq!(0, res.messages.len());

    // Create new game with "foo" name duplicated - ERROR
    let msg = HandleMsg::NewGame { name: "foo".to_string() };
    let res = respond(&mut store, msg);

    match res.unwrap_err() {
        StdError::GenericErr { msg, .. } => {
            assert_eq!(msg, "game with name \"foo\" already exists")
        }
        e => panic!("Unexpected error: {:?}", e),
    }

    // Player1 - Join the game "foo" with this pasture
    //    | 0 | 1 | 2 | 3 | 4 | 5 | 6 | 7 | 8 | 9 |
    //    |---------------------------------------|
    //  0 | X | x |   |   |   |   | X | x | x | x |
    //  1 |   |   |   |   |   |   |   |   |   |   |
    //  2 |   |   | X | X | x | x |   |   |   |   |
    //  3 |   |   | x |   |   |   |   |   |   |   |
    //  4 |   |   | x |   |   |   |   |   |   |   |
    //  5 |   |   | x |   |   |   |   |   |   |   |
    //  6 |   |   | x |   | X |   |   |   |   |   |
    //  7 |   |   |   |   | x |   |   |   |   |   |
    //  8 |   |   |   |   | x |   |   |   |   |   |
    //  9 |   |   |   |   |   |   |   |   |   |   |
    //    |---------------------------------------|
    let msg = HandleMsg::Join {
        credentials: Credentials {
            game: "foo".to_string(),
            username: "player1".to_string(),
            password: "1111".to_string(),
        },
        pasture: Pasture::new(
            vec![
                // 2x Length Herds
                Herd::new(0, 0, 2, Orientation::Horizontal),
                // 3x Length Herds
                Herd::new(3, 2, 3, Orientation::Horizontal),
                Herd::new(4, 6, 3, Orientation::Vertical),
                // 4x Length Herds
                Herd::new(6, 0, 4, Orientation::Horizontal),
                // 5x Length Herds
                Herd::new(2, 2, 5, Orientation::Vertical),
            ],
            vec![],
        )
        .unwrap(),
    };

    let res: HandleResponse = respond(&mut store, msg).unwrap();
    assert_eq!(0, res.messages.len());

    // Player2 - Join the game "foo" with this pasture
    //    | 0 | 1 | 2 | 3 | 4 | 5 | 6 | 7 | 8 | 9 |
    //    |---------------------------------------|
    //  0 |   |   |   |   |   |   |   |   |   |   |
    //  1 |   |   |   |   |   |   |   |   |   |   |
    //  2 |   |   |   |   |   |   |   |   |   |   |
    //  3 |   |   |   |   |   |   |   |   | X |   |
    //  4 |   | X | x | x | X | x | x |   | x |   |
    //  5 |   |   |   |   |   |   | X |   | x |   |
    //  6 |   |   |   |   |   |   | x |   | x |   |
    //  7 |   |   |   |   |   |   |   |   |   |   |
    //  8 |   |   |   |   |   |   |   |   |   |   |
    //  9 |   |   |   |   |   | X | x | x | x | x |
    //    |---------------------------------------|
    let msg = HandleMsg::Join {
        credentials: Credentials {
            game: "foo".to_string(),
            username: "player2".to_string(),
            password: "2222".to_string(),
        },
        pasture: Pasture::new(
            vec![
                // 2x Length Herds
                Herd::new(6, 5, 2, Orientation::Vertical),
                // 3x Length Herds
                Herd::new(1, 4, 3, Orientation::Horizontal),
                Herd::new(4, 4, 3, Orientation::Horizontal),
                // 4x Length Herds
                Herd::new(8, 3, 4, Orientation::Vertical),
                // 5x Length Herds
                Herd::new(5, 9, 5, Orientation::Horizontal),
            ],
            vec![],
        )
        .unwrap(),
    };

    let res: HandleResponse = respond(&mut store, msg).unwrap();
    assert_eq!(0, res.messages.len());

    // Player 1 - Query pasture created
    let res = to_binary(&wire(&my_pasture(
        &store,
        Credentials {
            game: "foo".to_string(),
            username: "player1".to_string(),
            password: "1111".to_string(),
        },
    )))
    .unwrap();
    assert_eq!("eyJoZXJkcyI6W3siY29vcmRzIjp7IngiOjAsInkiOjB9LCJsZW5ndGgiOjIsIm9yaWVudGF0aW9uIjoiaG9yaXpvbnRhbCJ9LHsiY29vcmRzIjp7IngiOjMsInkiOjJ9LCJsZW5ndGgiOjMsIm9yaWVudGF0aW9uIjoiaG9yaXpvbnRhbCJ9LHsiY29vcmRzIjp7IngiOjQsInkiOjZ9LCJsZW5ndGgiOjMsIm9yaWVudGF0aW9uIjoidmVydGljYWwifSx7ImNvb3JkcyI6eyJ4Ijo2LCJ5IjowfSwibGVuZ3RoIjo0LCJvcmllbnRhdGlvbiI6Imhvcml6b250YWwifSx7ImNvb3JkcyI6eyJ4IjoyLCJ5IjoyfSwibGVuZ3RoIjo1LCJvcmllbnRhdGlvbiI6InZlcnRpY2FsIn1dLCJzaG90cyI6W119", res.to_base64());

    // Player 2 - Query pasture created: each player is shown their own board
    let res = to_binary(&wire(&my_pasture(
        &store,
        Credentials {
            game: "foo".to_string(),
            username: "player2".to_string(),
            password: "2222".to_string(),
        },
    )))
    .unwrap();
    assert_eq!("eyJoZXJkcyI6W3siY29vcmRzIjp7IngiOjYsInkiOjV9LCJsZW5ndGgiOjIsIm9yaWVudGF0aW9uIjoidmVydGljYWwifSx7ImNvb3JkcyI6eyJ4IjoxLCJ5Ijo0fSwibGVuZ3RoIjozLCJvcmllbnRhdGlvbiI6Imhvcml6b250YWwifSx7ImNvb3JkcyI6eyJ4Ijo0LCJ5Ijo0fSwibGVuZ3RoIjozLCJvcmllbnRhdGlvbiI6Imhvcml6b250YWwifSx7ImNvb3JkcyI6eyJ4Ijo4LCJ5IjozfSwibGVuZ3RoIjo0LCJvcmllbnRhdGlvbiI6InZlcnRpY2FsIn0seyJjb29yZHMiOnsieCI6NSwieSI6OX0sImxlbmd0aCI6NSwib3JpZW50YXRpb24iOiJob3Jpem9udGFsIn1dLCJzaG90cyI6W119", res.to_base64());
}

fn full_game() -> GameStore {
    let mut store = init();
    handle(&mut store, HandleMsg::NewGame { name: "foo".to_string() }).unwrap();
    handle(
        &mut store,
        HandleMsg::Join {
            credentials: credentials("foo", "player1", "1111"),
            pasture: Pasture::new(first_fleet(), vec![]).unwrap(),
        },
    )
    .unwrap();
    handle(
        &mut store,
        HandleMsg::Join {
            credentials: credentials("foo", "player2", "2222"),
            pasture: Pasture::new(second_fleet(), vec![]).unwrap(),
        },
    )
    .unwrap();
    store
}

fn shoot(store: &mut GameStore, who: Credentials, x: u8, y: u8) -> Result<(), GameError> {
    handle(store, HandleMsg::Shoot { coords: Coords { x, y }, credentials: who })
}

fn confirm(store: &mut GameStore, who: Credentials, x: u8, y: u8) -> Result<(), GameError> {
    handle(store, HandleMsg::Confirm { coords: Coords { x, y }, credentials: who })
}

fn turn_of(store: &GameStore) -> usize {
    store.load(&"foo".to_string()).unwrap().turn()
}

#[test]
fn second_new_game_with_the_same_name_is_refused() {
    let mut store = init();
    assert_eq!(handle(&mut store, HandleMsg::NewGame { name: "foo".to_string() }), Ok(()));
    assert_eq!(handle(&mut store, HandleMsg::NewGame { name: "bar".to_string() }), Ok(()));
    assert_eq!(
        handle(&mut store, HandleMsg::NewGame { name: "foo".to_string() }),
        Err(GameError::GameAlreadyExists)
    );
    let store = &mut full_game();
    let before = store.load(&"foo".to_string());
    assert_eq!(
        handle(store, HandleMsg::NewGame { name: "foo".to_string() }),
        Err(GameError::GameAlreadyExists)
    );
    assert_eq!(store.load(&"foo".to_string()), before);
}

#[test]
fn requests_on_an_unknown_game_are_refused() {
    let mut store = full_game();
    let stranger = credentials("bar", "player1", "1111");
    assert_eq!(
        handle(
            &mut store,
            HandleMsg::Join {
                credentials: stranger.clone(),
                pasture: Pasture::new(first_fleet(), vec![]).unwrap(),
            }
        ),
        Err(GameError::GameNotFound)
    );
    assert_eq!(shoot(&mut store, stranger.clone(), 0, 0), Err(GameError::GameNotFound));
    assert_eq!(confirm(&mut store, stranger.clone(), 0, 0), Err(GameError::GameNotFound));
    assert_eq!(
        query(&store, QueryMsg::MyPasture { credentials: stranger.clone() }),
        Err(GameError::GameNotFound)
    );
    assert_eq!(
        query(&store, QueryMsg::MyShots { credentials: stranger.clone() }),
        Err(GameError::GameNotFound)
    );
    assert_eq!(
        query(&store, QueryMsg::LastShot { credentials: stranger }),
        Err(GameError::GameNotFound)
    );
}

#[test]
fn play_needs_two_seated_players() {
    let mut store = init();
    handle(&mut store, HandleMsg::NewGame { name: "foo".to_string() }).unwrap();
    let one = credentials("foo", "player1", "1111");
    assert_eq!(shoot(&mut store, one.clone(), 0, 0), Err(GameError::GameNotFull));
    handle(
        &mut store,
        HandleMsg::Join {
            credentials: one.clone(),
            pasture: Pasture::new(first_fleet(), vec![]).unwrap(),
        },
    )
    .unwrap();
    assert_eq!(shoot(&mut store, one.clone(), 0, 0), Err(GameError::GameNotFull));
    assert_eq!(confirm(&mut store, one.clone(), 0, 0), Err(GameError::GameNotFull));
    assert_eq!(
        query(&store, QueryMsg::MyPasture { credentials: one.clone() }),
        Err(GameError::GameNotFull)
    );
    assert_eq!(
        query(&store, QueryMsg::MyShots { credentials: one.clone() }),
        Err(GameError::GameNotFull)
    );
    assert_eq!(
        query(&store, QueryMsg::LastShot { credentials: one }),
        Err(GameError::GameNotFull)
    );
    // an outsider learns no more than that the game is not under way
    assert_eq!(
        query(&store, QueryMsg::MyPasture { credentials: credentials("foo", "eve", "0000") }),
        Err(GameError::GameNotFull)
    );
}

#[test]
fn joining_is_refused_when_full_or_taken_or_already_shot_at() {
    let mut store = full_game();
    assert_eq!(
        handle(
            &mut store,
            HandleMsg::Join {
                credentials: credentials("foo", "player3", "3333"),
                pasture: Pasture::new(first_fleet(), vec![]).unwrap(),
            }
        ),
        Err(GameError::GameFull)
    );

    let mut store = init();
    handle(&mut store, HandleMsg::NewGame { name: "foo".to_string() }).unwrap();
    handle(
        &mut store,
        HandleMsg::Join {
            credentials: credentials("foo", "player1", "1111"),
            pasture: Pasture::new(first_fleet(), vec![]).unwrap(),
        },
    )
    .unwrap();
    assert_eq!(
        handle(
            &mut store,
            HandleMsg::Join {
                credentials: credentials("foo", "player1", "other"),
                pasture: Pasture::new(second_fleet(), vec![]).unwrap(),
            }
        ),
        Err(GameError::DuplicatePlayer)
    );
    let shot_at = Pasture::new(
        second_fleet(),
        vec![Shot::Resolved { coords: Coords { x: 0, y: 0 }, hit: false }],
    )
    .unwrap();
    assert_eq!(
        handle(
            &mut store,
            HandleMsg::Join { credentials: credentials("foo", "player2", "2222"), pasture: shot_at }
        ),
        Err(GameError::InvalidPlacement)
    );
    assert_eq!(store.load(&"foo".to_string()).unwrap().seats().len(), 1);
}

#[test]
fn the_turn_passes_with_each_acknowledged_shot() {
    let mut store = full_game();
    let one = credentials("foo", "player1", "1111");
    let two = credentials("foo", "player2", "2222");
    assert_eq!(turn_of(&store), 0);

    // the first seat opens; the second may not
    assert_eq!(shoot(&mut store, two.clone(), 0, 0), Err(GameError::NotYourTurn));
    assert_eq!(shoot(&mut store, one.clone(), 6, 5), Ok(()));
    assert_eq!(turn_of(&store), 0);
    assert_eq!(
        query(&store, QueryMsg::LastShot { credentials: two.clone() }),
        Ok(QueryAnswer::LastShot(Some(Shot::Pending { coords: Coords { x: 6, y: 5 } })))
    );

    // no second shot before the acknowledgement, from either player
    assert_eq!(shoot(&mut store, one.clone(), 1, 1), Err(GameError::NotYourTurn));
    assert_eq!(shoot(&mut store, one.clone(), 6, 5), Err(GameError::NotYourTurn));
    assert_eq!(shoot(&mut store, two.clone(), 1, 1), Err(GameError::NotYourTurn));

    // only the player fired at acknowledges
    assert_eq!(confirm(&mut store, one.clone(), 6, 5), Err(GameError::PermissionDenied));
    assert_eq!(
        confirm(&mut store, credentials("foo", "player2", "wrong"), 6, 5),
        Err(GameError::PermissionDenied)
    );
    assert_eq!(confirm(&mut store, two.clone(), 6, 5), Ok(()));
    assert_eq!(turn_of(&store), 1);
    assert_eq!(
        query(&store, QueryMsg::LastShot { credentials: one.clone() }),
        Ok(QueryAnswer::LastShot(Some(Shot::Resolved { coords: Coords { x: 6, y: 5 }, hit: true })))
    );

    // nothing is left to acknowledge
    assert_eq!(confirm(&mut store, one.clone(), 6, 5), Err(GameError::NoPendingShot));

    // now the second seat shoots, and misses
    assert_eq!(shoot(&mut store, one.clone(), 1, 1), Err(GameError::NotYourTurn));
    assert_eq!(shoot(&mut store, two.clone(), 9, 9), Ok(()));
    assert_eq!(confirm(&mut store, one.clone(), 0, 0), Ok(()));
    assert_eq!(turn_of(&store), 0);
    assert_eq!(
        query(&store, QueryMsg::LastShot { credentials: two.clone() }),
        Ok(QueryAnswer::LastShot(Some(Shot::Resolved {
            coords: Coords { x: 9, y: 9 },
            hit: false
        })))
    );

    // a cell is fired on once
    assert_eq!(shoot(&mut store, one.clone(), 6, 5), Err(GameError::DuplicateShot));
    assert_eq!(shoot(&mut store, one.clone(), 6, 6), Ok(()));
    assert_eq!(turn_of(&store), 0);
}

#[test]
fn a_refused_request_changes_nothing() {
    let mut store = full_game();
    let one = credentials("foo", "player1", "1111");
    let two = credentials("foo", "player2", "2222");
    shoot(&mut store, one.clone(), 6, 5).unwrap();
    let before = store.load(&"foo".to_string()).unwrap();
    assert!(shoot(&mut store, one.clone(), 7, 7).is_err());
    assert!(confirm(&mut store, one.clone(), 6, 5).is_err());
    assert!(handle(&mut store, HandleMsg::NewGame { name: "foo".to_string() }).is_err());
    assert!(handle(
        &mut store,
        HandleMsg::Join { credentials: two, pasture: Pasture::new(vec![], vec![]).unwrap() }
    )
    .is_err());
    assert_eq!(store.load(&"foo".to_string()).unwrap(), before);
}

#[test]
fn boards_and_shots_are_shown_to_their_player_alone() {
    let mut store = full_game();
    let one = credentials("foo", "player1", "1111");
    let two = credentials("foo", "player2", "2222");
    shoot(&mut store, one.clone(), 6, 5).unwrap();
    confirm(&mut store, two.clone(), 6, 5).unwrap();
    shoot(&mut store, two.clone(), 5, 5).unwrap();

    for outsider in [
        credentials("foo", "eve", "1111"),
        credentials("foo", "player1", "2222"),
        credentials("foo", "player2", ""),
        credentials("foo", "", ""),
    ] {
        assert_eq!(
            query(&store, QueryMsg::MyPasture { credentials: outsider.clone() }),
            Err(GameError::PermissionDenied)
        );
        assert_eq!(
            query(&store, QueryMsg::MyShots { credentials: outsider.clone() }),
            Err(GameError::PermissionDenied)
        );
        assert_eq!(
            query(&store, QueryMsg::LastShot { credentials: outsider }),
            Err(GameError::PermissionDenied)
        );
    }

    let first_board = Pasture::new(
        first_fleet(),
        vec![Shot::Pending { coords: Coords { x: 5, y: 5 } }],
    )
    .unwrap();
    let second_board = Pasture::new(
        second_fleet(),
        vec![Shot::Resolved { coords: Coords { x: 6, y: 5 }, hit: true }],
    )
    .unwrap();
    assert_eq!(
        query(&store, QueryMsg::MyPasture { credentials: one.clone() }),
        Ok(QueryAnswer::Pasture(first_board))
    );
    assert_eq!(
        query(&store, QueryMsg::MyPasture { credentials: two.clone() }),
        Ok(QueryAnswer::Pasture(second_board))
    );
    assert_eq!(
        query(&store, QueryMsg::MyShots { credentials: one.clone() }),
        Ok(QueryAnswer::Shots(vec![Shot::Resolved { coords: Coords { x: 6, y: 5 }, hit: true }]))
    );
    assert_eq!(
        query(&store, QueryMsg::MyShots { credentials: two.clone() }),
        Ok(QueryAnswer::Shots(vec![Shot::Pending { coords: Coords { x: 5, y: 5 } }]))
    );

    // asking again, with nothing done in between, gives the same answers
    let again = to_binary(&wire(&my_pasture(&store, one.clone()))).unwrap();
    assert_eq!(again, to_binary(&wire(&my_pasture(&store, one.clone()))).unwrap());
    assert_eq!(
        query(&store, QueryMsg::MyShots { credentials: one.clone() }),
        query(&store, QueryMsg::MyShots { credentials: one })
    );
}

#[test]
fn no_shot_was_fired_last_in_a_fresh_game() {
    let store = full_game();
    assert_eq!(
        query(&store, QueryMsg::LastShot { credentials: credentials("foo", "player1", "1111") }),
        Ok(QueryAnswer::LastShot(None))
    );
    assert_eq!(
        query(&store, QueryMsg::MyShots { credentials: credentials("foo", "player2", "2222") }),
        Ok(QueryAnswer::Shots(vec![]))
    );
}

#[test]
fn refusals_say_why() {
    assert_eq!(
        GameError::GameAlreadyExists.describe("foo"),
        "game with name \"foo\" already exists"
    );
    assert_eq!(
        GameError::GameAlreadyExists.describe("a\"b\\c"),
        "game with name \"a\\\"b\\\\c\" already exists"
    );
    assert_eq!(GameError::GameNotFound.describe("bar"), "game with name \"bar\" not found");
    assert_eq!(GameError::GameNotFull.describe("foo"), "The game is still waiting for players");
    assert_eq!(GameError::GameFull.describe("foo"), "The game is already full");
    assert_eq!(
        GameError::DuplicatePlayer.describe("foo"),
        "A player of this name has already joined the game"
    );
    assert_eq!(
        GameError::InvalidPlacement.describe("foo"),
        "The pasture is not a valid placement"
    );
    assert_eq!(GameError::DuplicateShot.describe("foo"), "This cell has already been shot at");
    assert_eq!(GameError::NoPendingShot.describe("foo"), "There is no shot to confirm");
    assert_eq!(GameError::NotYourTurn.describe("foo"), "It's not your turn");
    assert_eq!(
        GameError::PermissionDenied.describe("foo"),
        "You do not have permissions to do this"
    );
}
