//! The engine's entry points: each request is one transaction on the store
//! of games, and each question is answered from it.

use crate::error::GameError;
use crate::game::{Game, GameView};
use crate::geometry::Coords;
use crate::msg::{HandleMsg, HandleMsgView, QueryAnswer, QueryAnswerView, QueryMsg, QueryMsgView};
use crate::pasture::{Pasture, PastureView, Shot};
use crate::player::{Credentials, CredentialsView, Player, PlayerView};
use crate::store::{lookup, GameStore};
use vstd::prelude::*;

verus! {

/// What opening a game under `name` leads to, given what is kept under
/// that name.
pub open spec fn new_game_step(kept: Option<GameView>, name: Seq<char>) -> Result<
    GameView,
    GameError,
> {
    match kept {
        Some(_) => Err(GameError::GameAlreadyExists),
        None => Ok(GameView::empty(name)),
    }
}

/// What a player's joining leads to, given the game that is kept.
pub open spec fn join_step(
    kept: Option<GameView>,
    credentials: CredentialsView,
    pasture: PastureView,
) -> Result<GameView, GameError> {
    match kept {
        None => Err(GameError::GameNotFound),
        Some(g) => g.add_player(
            PlayerView { username: credentials.username, password: credentials.password, pasture },
        ),
    }
}

/// What a shot at `coords` leads to, given the game that is kept. Only the
/// player on turn may shoot.
pub open spec fn shoot_step(kept: Option<GameView>, credentials: CredentialsView, coords: Coords)
    -> Result<GameView, GameError> {
    match kept {
        None => Err(GameError::GameNotFound),
        Some(g) => if !g.is_full() {
            Err(GameError::GameNotFull)
        } else if g.seat_of(credentials) != Some(g.turn) {
            Err(GameError::NotYourTurn)
        } else {
            g.shoot(coords)
        },
    }
}

/// What an acknowledgement leads to, given the game that is kept. Only the
/// player whose board was fired at may acknowledge.
pub open spec fn confirm_step(kept: Option<GameView>, credentials: CredentialsView) -> Result<
    GameView,
    GameError,
> {
    match kept {
        None => Err(GameError::GameNotFound),
        Some(g) => if !g.is_full() {
            Err(GameError::GameNotFull)
        } else if g.seat_of(credentials) != Some(1 - g.turn) {
            Err(GameError::PermissionDenied)
        } else {
            g.confirm_shot()
        },
    }
}

/// What a request leads to, given the game that is kept under the name it
/// is about: the game to keep from then on, or the refusal.
pub open spec fn step(kept: Option<GameView>, msg: HandleMsgView) -> Result<GameView, GameError> {
    match msg {
        HandleMsgView::NewGame { name } => new_game_step(kept, name),
        HandleMsgView::Join { pasture, credentials } => join_step(kept, credentials, pasture),
        HandleMsgView::Shoot { coords, credentials } => shoot_step(kept, credentials, coords),
        HandleMsgView::Confirm { credentials, .. } => confirm_step(kept, credentials),
    }
}

/// The store after a request: the outcome is kept under the name that the
/// request is about, and a refused request leaves the store as it was.
pub open spec fn store_after(kept: Map<Seq<char>, GameView>, msg: HandleMsgView) -> Map<
    Seq<char>,
    GameView,
> {
    match step(lookup(kept, msg.game()), msg) {
        Ok(g) => kept.insert(msg.game(), g),
        Err(_) => kept,
    }
}

/// A transaction on the game kept under `name`: with the outcome `Ok` the
/// new game is kept in place of the old one and nothing else changes; with
/// a refusal nothing changes at all.
pub open spec fn committed(
    before: Map<Seq<char>, GameView>,
    after: Map<Seq<char>, GameView>,
    name: Seq<char>,
    outcome: Result<GameView, GameError>,
    reply: Result<(), GameError>,
) -> bool {
    match outcome {
        Ok(g) => reply is Ok && after == before.insert(name, g),
        Err(e) => reply == Err::<(), GameError>(e) && after == before,
    }
}

/// The asking player's own board, given the game that is kept.
pub open spec fn my_pasture(kept: Option<GameView>, credentials: CredentialsView) -> Result<
    PastureView,
    GameError,
> {
    match kept {
        None => Err(GameError::GameNotFound),
        Some(g) => if !g.is_full() {
            Err(GameError::GameNotFull)
        } else {
            match g.seat_of(credentials) {
                Some(i) => Ok(g.seats[i].pasture),
                None => Err(GameError::PermissionDenied),
            }
        },
    }
}

/// The shots that the asking player has fired, given the game that is kept.
pub open spec fn my_shots(kept: Option<GameView>, credentials: CredentialsView) -> Result<
    Seq<Shot>,
    GameError,
> {
    match kept {
        None => Err(GameError::GameNotFound),
        Some(g) => if !g.is_full() {
            Err(GameError::GameNotFull)
        } else {
            match g.seat_of(credentials) {
                Some(i) => Ok(g.shots_fired_by(i)),
                None => Err(GameError::PermissionDenied),
            }
        },
    }
}

/// The shot fired last in the game, for either player, given the game that
/// is kept.
pub open spec fn last_shot(kept: Option<GameView>, credentials: CredentialsView) -> Result<
    Option<Shot>,
    GameError,
> {
    match kept {
        None => Err(GameError::GameNotFound),
        Some(g) => if !g.is_full() {
            Err(GameError::GameNotFull)
        } else {
            match g.seat_of(credentials) {
                Some(_) => Ok(g.last_shot()),
                None => Err(GameError::PermissionDenied),
            }
        },
    }
}

/// The answer to a question, given the game that is kept under the name
/// it is about.
pub open spec fn answer(kept: Option<GameView>, msg: QueryMsgView) -> Result<
    QueryAnswerView,
    GameError,
> {
    match msg {
        QueryMsgView::MyPasture { credentials } => match my_pasture(kept, credentials) {
            Ok(p) => Ok(QueryAnswerView::Pasture(p)),
            Err(e) => Err(e),
        },
        QueryMsgView::MyShots { credentials } => match my_shots(kept, credentials) {
            Ok(s) => Ok(QueryAnswerView::Shots(s)),
            Err(e) => Err(e),
        },
        QueryMsgView::LastShot { credentials } => match last_shot(kept, credentials) {
            Ok(s) => Ok(QueryAnswerView::LastShot(s)),
            Err(e) => Err(e),
        },
    }
}

/// Sets the engine up: a store that keeps no game.
pub fn init() -> (store: GameStore)
    ensures
        store.wf(),
        store@ == Map::<Seq<char>, GameView>::empty(),
{
    GameStore::new()
}

/// Carries out a request as one transaction on the store.
pub fn handle(store: &mut GameStore, msg: HandleMsg) -> (r: Result<(), GameError>)
    requires
        old(store).wf(),
        msg.wf(),
    ensures
        final(store).wf(),
        final(store)@ == store_after(old(store)@, msg@),
        committed(
            old(store)@,
            final(store)@,
            msg@.game(),
            step(lookup(old(store)@, msg@.game()), msg@),
            r,
        ),
{
    match msg {
        HandleMsg::NewGame { name } => try_new_game(store, name),
        HandleMsg::Join { pasture, credentials } => try_join(store, credentials, pasture),
        HandleMsg::Shoot { coords, credentials } => try_shoot(store, credentials, coords),
        HandleMsg::Confirm { coords, credentials } => try_confirm(store, credentials, coords),
    }
}

/// Opens a game under `name`, with nobody seated. Refused with
/// `GameAlreadyExists` when a game is kept under that name.
pub fn try_new_game(store: &mut GameStore, name: String) -> (r: Result<(), GameError>)
    requires
        old(store).wf(),
    ensures
        final(store).wf(),
        committed(
            old(store)@,
            final(store)@,
            name@,
            new_game_step(lookup(old(store)@, name@), name@),
            r,
        ),
{
    if store.contains(&name) {
        return Err(GameError::GameAlreadyExists);
    }
    store.save(Game::new(name));
    Ok(())
}

/// Seats a player, under the name and secret of the credentials and with
/// the board `pasture`, in the game that the credentials name.
pub fn try_join(store: &mut GameStore, credentials: Credentials, pasture: Pasture) -> (r: Result<
    (),
    GameError,
>)
    requires
        old(store).wf(),
        pasture.wf(),
    ensures
        final(store).wf(),
        committed(
            old(store)@,
            final(store)@,
            credentials@.game,
            join_step(lookup(old(store)@, credentials@.game), credentials@, pasture@),
            r,
        ),
{
    let mut game = match store.load(&credentials.game) {
        Some(g) => g,
        None => {
            return Err(GameError::GameNotFound);
        },
    };
    let player = Player::new(credentials.username, credentials.password, pasture);
    match game.add_player(player) {
        Ok(_) => {},
        Err(e) => {
            return Err(e);
        },
    }
    store.save(game);
    Ok(())
}

/// Fires at `coords` for the player of the credentials. Refused with
/// `NotYourTurn` unless the credentials speak for the player on turn.
pub fn try_shoot(store: &mut GameStore, credentials: Credentials, coords: Coords) -> (r: Result<
    (),
    GameError,
>)
    requires
        old(store).wf(),
    ensures
        final(store).wf(),
        committed(
            old(store)@,
            final(store)@,
            credentials@.game,
            shoot_step(lookup(old(store)@, credentials@.game), credentials@, coords),
            r,
        ),
{
    let mut game = match store.load(&credentials.game) {
        Some(g) => g,
        None => {
            return Err(GameError::GameNotFound);
        },
    };
    if !game.is_full() {
        return Err(GameError::GameNotFull);
    }
    match game.seat_of(&credentials) {
        Some(i) => {
            if i != game.turn() {
                return Err(GameError::NotYourTurn);
            }
        },
        None => {
            return Err(GameError::NotYourTurn);
        },
    }
    match game.shoot(coords) {
        Ok(_) => {},
        Err(e) => {
            return Err(e);
        },
    }
    store.save(game);
    Ok(())
}

/// Acknowledges the pending shot for the player of the credentials and
/// passes the turn to that player. Refused with `PermissionDenied` unless
/// the credentials speak for the player whose board was fired at. The cell
/// named in the request is not consulted: a board holds at most one pending
/// shot, and that shot is the one resolved.
pub fn try_confirm(store: &mut GameStore, credentials: Credentials, coords: Coords) -> (r: Result<
    (),
    GameError,
>)
    requires
        old(store).wf(),
    ensures
        final(store).wf(),
        committed(
            old(store)@,
            final(store)@,
            credentials@.game,
            confirm_step(lookup(old(store)@, credentials@.game), credentials@),
            r,
        ),
{
    let mut game = match store.load(&credentials.game) {
        Some(g) => g,
        None => {
            return Err(GameError::GameNotFound);
        },
    };
    if !game.is_full() {
        return Err(GameError::GameNotFull);
    }
    match game.seat_of(&credentials) {
        Some(i) => {
            if i == game.turn() {
                return Err(GameError::PermissionDenied);
            }
        },
        None => {
            return Err(GameError::PermissionDenied);
        },
    }
    match game.confirm_shot() {
        Ok(_) => {},
        Err(e) => {
            return Err(e);
        },
    }
    store.save(game);
    Ok(())
}

/// Answers a question from the store.
pub fn query(store: &GameStore, msg: QueryMsg) -> (r: Result<QueryAnswer, GameError>)
    requires
        store.wf(),
    ensures
        match r {
            Ok(a) => answer(lookup(store@, msg@.credentials().game), msg@) == Ok::<
                QueryAnswerView,
                GameError,
            >(a@),
            Err(e) => answer(lookup(store@, msg@.credentials().game), msg@) == Err::<
                QueryAnswerView,
                GameError,
            >(e),
        },
{
    match msg {
        QueryMsg::MyPasture { credentials } => match try_get_my_pasture(store, credentials) {
            Ok(p) => Ok(QueryAnswer::Pasture(p)),
            Err(e) => Err(e),
        },
        QueryMsg::MyShots { credentials } => match try_get_my_shots(store, credentials) {
            Ok(s) => Ok(QueryAnswer::Shots(s)),
            Err(e) => Err(e),
        },
        QueryMsg::LastShot { credentials } => match try_get_last_shot(store, credentials) {
            Ok(s) => Ok(QueryAnswer::LastShot(s)),
            Err(e) => Err(e),
        },
    }
}

/// The game that the credentials name, once both players are seated.
fn load_full(store: &GameStore, credentials: &Credentials) -> (r: Result<Game, GameError>)
    requires
        store.wf(),
    ensures
        match r {
            Ok(g) => lookup(store@, credentials@.game) == Some(g@) && g.wf() && g@.is_full(),
            Err(e) => match lookup(store@, credentials@.game) {
                None => e == GameError::GameNotFound,
                Some(g) => !g.is_full() && e == GameError::GameNotFull,
            },
        },
{
    let game = match store.load(&credentials.game) {
        Some(g) => g,
        None => {
            return Err(GameError::GameNotFound);
        },
    };
    if !game.is_full() {
        return Err(GameError::GameNotFull);
    }
    Ok(game)
}

/// The board of the player of the credentials: the fleet, and the shots
/// it has received. Refused with `PermissionDenied` unless the credentials
/// speak for a seated player.
pub fn try_get_my_pasture(store: &GameStore, credentials: Credentials) -> (r: Result<
    Pasture,
    GameError,
>)
    requires
        store.wf(),
    ensures
        match r {
            Ok(p) => my_pasture(lookup(store@, credentials@.game), credentials@) == Ok::<
                PastureView,
                GameError,
            >(p@),
            Err(e) => my_pasture(lookup(store@, credentials@.game), credentials@) == Err::<
                PastureView,
                GameError,
            >(e),
        },
{
    let game = match load_full(store, &credentials) {
        Ok(g) => g,
        Err(e) => {
            return Err(e);
        },
    };
    match game.seat_of(&credentials) {
        Some(i) => Ok(game.seats()[i].board().clone()),
        None => Err(GameError::PermissionDenied),
    }
}

/// The shots that the player of the credentials has fired, in order: those
/// that the other player's board has received. Refused with
/// `PermissionDenied` unless the credentials speak for a seated player.
pub fn try_get_my_shots(store: &GameStore, credentials: Credentials) -> (r: Result<
    Vec<Shot>,
    GameError,
>)
    requires
        store.wf(),
    ensures
        match r {
            Ok(s) => my_shots(lookup(store@, credentials@.game), credentials@) == Ok::<
                Seq<Shot>,
                GameError,
            >(s@),
            Err(e) => my_shots(lookup(store@, credentials@.game), credentials@) == Err::<
                Seq<Shot>,
                GameError,
            >(e),
        },
{
    let game = match load_full(store, &credentials) {
        Ok(g) => g,
        Err(e) => {
            return Err(e);
        },
    };
    match game.seat_of(&credentials) {
        Some(i) => game.shots_fired_by(i),
        None => Err(GameError::PermissionDenied),
    }
}

/// The shot fired last in the game, pending or resolved, for either
/// player. Refused with `PermissionDenied` unless the credentials speak for
/// a seated player.
pub fn try_get_last_shot(store: &GameStore, credentials: Credentials) -> (r: Result<
    Option<Shot>,
    GameError,
>)
    requires
        store.wf(),
    ensures
        r == last_shot(lookup(store@, credentials@.game), credentials@),
{
    let game = match load_full(store, &credentials) {
        Ok(g) => g,
        Err(e) => {
            return Err(e);
        },
    };
    match game.seat_of(&credentials) {
        Some(_) => game.last_shot(),
        None => Err(GameError::PermissionDenied),
    }
}

} // verus!
