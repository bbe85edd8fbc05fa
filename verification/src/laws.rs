//! What holds of the engine whatever is asked of it, and in whatever order.

use crate::contract::{confirm_step, my_pasture, my_shots, shoot_step, step, store_after};
use crate::error::GameError;
use crate::game::{GameView, Lifecycle};
use crate::geometry::Coords;
use crate::msg::HandleMsgView;
use crate::pasture::{PastureView, Shot};
use crate::player::{CredentialsView, PlayerView};
use crate::store::{lookup, store_sound};
use vstd::prelude::*;

verus! {

/// The store after a run of requests, carried out one after the other.
pub open spec fn store_after_all(kept: Map<Seq<char>, GameView>, msgs: Seq<HandleMsgView>) -> Map<
    Seq<char>,
    GameView,
>
    decreases msgs.len(),
{
    if msgs.len() == 0 {
        kept
    } else {
        store_after(store_after_all(kept, msgs.drop_last()), msgs.last())
    }
}

/// A request carries a sound board, where it carries one.
pub open spec fn request_sound(msg: HandleMsgView) -> bool {
    msg matches HandleMsgView::Join { pasture, .. } ==> pasture.wf()
}

/// No request takes a game out of the store.
pub proof fn games_are_kept_for_good(
    kept: Map<Seq<char>, GameView>,
    msgs: Seq<HandleMsgView>,
    name: Seq<char>,
)
    requires
        kept.contains_key(name),
    ensures
        store_after_all(kept, msgs).contains_key(name),
    decreases msgs.len(),
{
    if msgs.len() > 0 {
        games_are_kept_for_good(kept, msgs.drop_last(), name);
    }
}

/// Once a game was asked for under a name, whatever came of that and
/// whatever was asked in between, asking for a game under the same name is
/// refused with `GameAlreadyExists` and changes nothing.
pub proof fn second_new_game_is_refused(
    kept: Map<Seq<char>, GameView>,
    name: Seq<char>,
    between: Seq<HandleMsgView>,
)
    ensures
        ({
            let first = store_after(kept, HandleMsgView::NewGame { name });
            let later = store_after_all(first, between);
            &&& step(lookup(later, name), HandleMsgView::NewGame { name }) == Err::<
                GameView,
                GameError,
            >(GameError::GameAlreadyExists)
            &&& store_after(later, HandleMsgView::NewGame { name }) == later
        }),
{
    let first = store_after(kept, HandleMsgView::NewGame { name });
    assert(first.contains_key(name));
    games_are_kept_for_good(first, between, name);
}

/// Players are seated in the order in which they join, and when the second
/// is seated the turn is the first player's and no shot has been fired.
pub proof fn the_first_seat_opens(g: GameView, p: PlayerView)
    requires
        g.wf(),
        p.wf(),
        g.add_player(p) is Ok,
    ensures
        ({
            let after = g.add_player(p)->Ok_0;
            &&& after.seats == g.seats.push(p)
            &&& after.name == g.name
            &&& after.turn == 0
            &&& g.lifecycle() == Lifecycle::Empty ==> after.lifecycle() == Lifecycle::Joining
            &&& g.lifecycle() == Lifecycle::Joining ==> after.lifecycle() == Lifecycle::Full
                && after.chronicle().len() == 0 && after.last_shot() is None
        }),
{
}

/// A sound request on a sound game leads to a sound game of the same name:
/// the seats, the histories and the turn stay in step whatever is asked.
pub proof fn requests_keep_games_sound(kept: Option<GameView>, msg: HandleMsgView)
    requires
        kept matches Some(g) ==> g.wf() && g.name == msg.game(),
        request_sound(msg),
    ensures
        step(kept, msg) matches Ok(g) ==> g.wf() && g.name == msg.game(),
{
}

/// A sound store stays sound under every sound request.
pub proof fn requests_keep_the_store_sound(kept: Map<Seq<char>, GameView>, msg: HandleMsgView)
    requires
        store_sound(kept),
        request_sound(msg),
    ensures
        store_sound(store_after(kept, msg)),
{
    requests_keep_games_sound(lookup(kept, msg.game()), msg);
}

/// In a sound game at most one shot is pending, and it is pending on the
/// board of the player who is not on turn.
pub proof fn one_shot_pending_at_most(g: GameView)
    requires
        g.wf(),
        g.is_full(),
    ensures
        !g.on_turn().pasture.has_pending(),
        forall|i: int, k: int|
            0 <= i < 2 && 0 <= k < g.seats[i].pasture.shots.len()
                && #[trigger] g.seats[i].pasture.shots[k] is Pending ==> i == 1 - g.turn && k
                == g.seats[i].pasture.shots.len() - 1,
{
}

/// When the player at seat `s` has fired and the player at the other seat
/// acknowledges, whatever cell the acknowledgement names, the
/// acknowledgement is accepted and the turn is the other player's. Until
/// then no further shot is accepted, from either player: each is refused
/// with `NotYourTurn`.
pub proof fn shot_and_acknowledgement_pass_the_turn(
    g: GameView,
    s: int,
    shooter: CredentialsView,
    coords: Coords,
    other: CredentialsView,
    named: Coords,
    anyone: CredentialsView,
    again: Coords,
)
    requires
        g.wf(),
        g.is_full(),
        g.seat_of(shooter) == Some(s),
        g.seat_of(other) == Some(1 - s),
        step(Some(g), HandleMsgView::Shoot { coords, credentials: shooter }) is Ok,
    ensures
        ({
            let fired = step(Some(g), HandleMsgView::Shoot { coords, credentials: shooter })->Ok_0;
            let confirmed = step(
                Some(fired),
                HandleMsgView::Confirm { coords: named, credentials: other },
            );
            &&& g.turn == s
            &&& fired.turn == s
            &&& fired.last_shot() == Some(Shot::Pending { coords })
            &&& step(Some(fired), HandleMsgView::Shoot { coords: again, credentials: anyone })
                == Err::<GameView, GameError>(GameError::NotYourTurn)
            &&& confirmed is Ok
            &&& confirmed->Ok_0.turn == 1 - s
            &&& confirmed->Ok_0.last_shot() == Some(
                Shot::Resolved { coords, hit: g.seats[1 - s].pasture.occupied(coords) },
            )
        }),
{
    let fired = step(Some(g), HandleMsgView::Shoot { coords, credentials: shooter })->Ok_0;
    assert(fired == g.shoot(coords)->Ok_0);
    let board = g.waiting().pasture.record_shot(coords)->Ok_0;
    assert(fired.seats[1 - s].pasture == board);
    assert(board.has_pending());
    assert(fired.seat_of(other) == Some(1 - s));
}

/// In a game with both players seated, a player's own board and the
/// shots that the player has fired are for that player alone: credentials
/// that match neither seat are refused with `PermissionDenied`, and the
/// credentials of a seat are always given that seat's board and the shots
/// that the other board has received.
pub proof fn boards_are_private(g: GameView, c: CredentialsView)
    requires
        g.wf(),
        g.is_full(),
    ensures
        !g.seats[0].matches(c) && !g.seats[1].matches(c) ==> my_pasture(Some(g), c) == Err::<
            PastureView,
            GameError,
        >(GameError::PermissionDenied) && my_shots(Some(g), c) == Err::<Seq<Shot>, GameError>(
            GameError::PermissionDenied,
        ),
        forall|i: int|
            0 <= i < 2 && c.game == g.name && (#[trigger] g.seats[i]).matches(c) ==> my_pasture(
                Some(g),
                c,
            ) == Ok::<PastureView, GameError>(g.seats[i].pasture) && my_shots(Some(g), c) == Ok::<
                Seq<Shot>,
                GameError,
            >(g.seats[1 - i].pasture.shots),
{
}

/// A board taken apart into its herds and its shots and built again from
/// them is the same board: same herds, same shots, same order.
pub proof fn board_is_rebuilt_from_its_parts(p: PastureView)
    requires
        p.wf(),
    ensures
        PastureView::assemble(p.herds, p.shots) == Ok::<PastureView, GameError>(p),
{
}

/// The shot fired last is the last of the game's shots in the order in
/// which they were fired, and there is none only when no shot was fired.
/// The turn is the first seat's exactly when as many shots were
/// acknowledged as is even.
pub proof fn last_shot_is_the_latest(g: GameView)
    requires
        g.wf(),
        g.is_full(),
    ensures
        g.last_shot() == if g.chronicle().len() == 0 {
            None::<Shot>
        } else {
            Some(g.chronicle().last())
        },
        forall|t: int| 0 <= t < g.chronicle().len() - 1 ==> #[trigger] g.chronicle()[t] is Resolved,
        ({
            let acknowledged = g.chronicle().len() - if g.waiting().pasture.has_pending() {
                1int
            } else {
                0int
            };
            g.turn == acknowledged % 2
        }),
{
}

/// A shot that is accepted is the game's latest from then on, and all
/// earlier shots stay as they were.
pub proof fn a_shot_extends_the_chronicle(g: GameView, coords: Coords)
    requires
        g.wf(),
        g.is_full(),
        g.shoot(coords) is Ok,
    ensures
        g.shoot(coords)->Ok_0.chronicle() == g.chronicle().push(Shot::Pending { coords }),
{
    let after = g.shoot(coords)->Ok_0;
    assert(after.chronicle() =~= g.chronicle().push(Shot::Pending { coords }));
}

/// An acknowledgement that is accepted resolves the game's latest shot, as
/// a hit exactly when a herd of the board fired at stands on its cell, and
/// all earlier shots stay as they were.
pub proof fn an_acknowledgement_resolves_the_latest_shot(g: GameView)
    requires
        g.wf(),
        g.is_full(),
        g.confirm_shot() is Ok,
    ensures
        g.chronicle().len() > 0,
        g.chronicle().last() is Pending,
        g.confirm_shot()->Ok_0.chronicle() == g.chronicle().update(
            g.chronicle().len() - 1,
            Shot::Resolved {
                coords: g.chronicle().last().target(),
                hit: g.waiting().pasture.occupied(g.chronicle().last().target()),
            },
        ),
{
    let after = g.confirm_shot()->Ok_0;
    assert(after.chronicle() =~= g.chronicle().update(
        g.chronicle().len() - 1,
        g.waiting().pasture.verdict(),
    ));
}

} // verus!
