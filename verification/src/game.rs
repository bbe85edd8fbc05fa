//! The game: its two seats, whose turn it is, and the handshake of a shot
//! and its acknowledgement.

use crate::error::GameError;
use crate::geometry::Coords;
use crate::pasture::{copy_shots, PastureView, Shot};
use crate::player::{Credentials, CredentialsView, Player, PlayerView};
use vstd::prelude::*;

verus! {

/// How far a game has come: nobody seated, one player seated, or both
/// seated and play under way.
#[derive(Clone, Copy, Debug, PartialEq, Eq, Structural)]
pub enum Lifecycle {
    Empty,
    Joining,
    Full,
}

/// What a game holds: its name, the seated players in the order in which
/// they joined, and the seat whose turn it is.
pub struct GameView {
    pub name: Seq<char>,
    pub seats: Seq<PlayerView>,
    pub turn: int,
}

impl GameView {
    /// The game of that name in which nobody is seated yet.
    pub open spec fn empty(name: Seq<char>) -> GameView {
        GameView { name, seats: Seq::empty(), turn: 0 }
    }

    pub open spec fn is_full(self) -> bool {
        self.seats.len() == 2
    }

    pub open spec fn lifecycle(self) -> Lifecycle {
        if self.seats.len() == 0 {
            Lifecycle::Empty
        } else if self.seats.len() == 1 {
            Lifecycle::Joining
        } else {
            Lifecycle::Full
        }
    }

    /// The player whose turn it is, in a full game.
    pub open spec fn on_turn(self) -> PlayerView {
        self.seats[self.turn]
    }

    /// The player whose turn it is not, in a full game.
    pub open spec fn waiting(self) -> PlayerView {
        self.seats[1 - self.turn]
    }

    /// The number of shots that the board of seat `i` has received.
    pub open spec fn received(self, i: int) -> int {
        self.seats[i].pasture.shots.len() as int
    }

    /// In a full game the histories and the turn agree: the first seat
    /// shoots first, the seats shoot in turn, the turn passes when a shot is
    /// acknowledged, and only the board of the waiting player can hold a
    /// pending shot.
    pub open spec fn in_step(self) -> bool {
        let awaited: int = if self.waiting().pasture.has_pending() {
            1
        } else {
            0
        };
        &&& !self.on_turn().pasture.has_pending()
        &&& if self.turn == 0 {
            self.received(1) == self.received(0) + awaited
        } else {
            self.received(0) + 1 == self.received(1) + awaited
        }
    }

    pub open spec fn wf(self) -> bool {
        &&& self.seats.len() <= 2
        &&& forall|i: int| 0 <= i < self.seats.len() ==> (#[trigger] self.seats[i]).wf()
        &&& 0 <= self.turn < 2
        &&& !self.is_full() ==> self.turn == 0 && forall|i: int|
            0 <= i < self.seats.len() ==> (#[trigger] self.seats[i]).pasture.shots.len() == 0
        &&& self.is_full() ==> self.seats[0].username != self.seats[1].username && self.in_step()
    }

    /// The seat for which the credentials speak, if they speak for one.
    pub open spec fn seat_of(self, c: CredentialsView) -> Option<int> {
        if c.game != self.name {
            None
        } else if self.seats.len() > 0 && self.seats[0].matches(c) {
            Some(0)
        } else if self.seats.len() > 1 && self.seats[1].matches(c) {
            Some(1)
        } else {
            None
        }
    }

    /// The same game with another board at seat `i`.
    pub open spec fn with_board(self, i: int, board: PastureView) -> GameView {
        GameView {
            name: self.name,
            seats: self.seats.update(i, self.seats[i].with_pasture(board)),
            turn: self.turn,
        }
    }

    /// The game after the player took the next open seat, or the refusal.
    pub open spec fn add_player(self, p: PlayerView) -> Result<GameView, GameError> {
        if self.seats.len() >= 2 {
            Err(GameError::GameFull)
        } else if self.seats.len() == 1 && self.seats[0].username == p.username {
            Err(GameError::DuplicatePlayer)
        } else if p.pasture.shots.len() > 0 {
            Err(GameError::InvalidPlacement)
        } else {
            Ok(GameView { name: self.name, seats: self.seats.push(p), turn: self.turn })
        }
    }

    /// The game after the player on turn fired at `c`, or the refusal.
    pub open spec fn shoot(self, c: Coords) -> Result<GameView, GameError> {
        if !self.is_full() {
            Err(GameError::GameNotFull)
        } else if self.waiting().pasture.has_pending() {
            Err(GameError::NotYourTurn)
        } else {
            match self.waiting().pasture.record_shot(c) {
                Ok(board) => Ok(self.with_board(1 - self.turn, board)),
                Err(e) => Err(e),
            }
        }
    }

    /// The game after the waiting player acknowledged the pending shot and
    /// the turn passed to that player, or the refusal.
    pub open spec fn confirm_shot(self) -> Result<GameView, GameError> {
        if !self.is_full() {
            Err(GameError::GameNotFull)
        } else {
            match self.waiting().pasture.resolve_pending_shot() {
                Ok(board) => Ok(
                    GameView {
                        name: self.name,
                        seats: self.seats.update(
                            1 - self.turn,
                            self.waiting().with_pasture(board),
                        ),
                        turn: 1 - self.turn,
                    },
                ),
                Err(e) => Err(e),
            }
        }
    }

    /// The shot fired last in a full game, pending or resolved: the pending
    /// one if there is one, else the one whose acknowledgement gave the
    /// player on turn the turn.
    pub open spec fn last_shot(self) -> Option<Shot> {
        if self.waiting().pasture.has_pending() {
            self.waiting().pasture.last_shot()
        } else {
            self.on_turn().pasture.last_shot()
        }
    }

    /// Every shot of a full game, in the order in which the shots were
    /// fired: the first seat fires first, at the second board, and the seats
    /// fire in turn.
    pub open spec fn chronicle(self) -> Seq<Shot> {
        Seq::new(
            (self.received(0) + self.received(1)) as nat,
            |t: int|
                if t % 2 == 0 {
                    self.seats[1].pasture.shots[t / 2]
                } else {
                    self.seats[0].pasture.shots[t / 2]
                },
        )
    }

    /// The shots that seat `i` has fired, in order: those that the other
    /// board has received.
    pub open spec fn shots_fired_by(self, i: int) -> Seq<Shot> {
        self.seats[1 - i].pasture.shots
    }
}

/// A game between two players.
#[derive(Debug, PartialEq, Eq)]
pub struct Game {
    name: String,
    seats: Vec<Player>,
    turn: usize,
}

impl View for Game {
    type V = GameView;

    closed spec fn view(&self) -> GameView {
        GameView {
            name: self.name@,
            seats: self.seats@.map_values(|p: Player| p@),
            turn: self.turn as int,
        }
    }
}

/// What the seats hold, player by player.
pub open spec fn seats_view(seats: Seq<Player>) -> Seq<PlayerView> {
    seats.map_values(|p: Player| p@)
}

impl Game {
    pub open spec fn wf(&self) -> bool {
        self@.wf()
    }

    /// A new game of that name, with nobody seated.
    pub fn new(name: String) -> (g: Game)
        ensures
            g@ == GameView::empty(name@),
            g.wf(),
    {
        let g = Game { name, seats: Vec::new(), turn: 0 };
        assert(g@.seats =~= Seq::empty());
        g
    }

    /// Puts together a game from what was kept of it: its name, its seated
    /// players and the seat on turn. `None` unless these make a game that
    /// play can have led to.
    pub fn restore(name: String, seats: Vec<Player>, turn: usize) -> (r: Option<Game>)
        requires
            forall|i: int| 0 <= i < seats.len() ==> (#[trigger] seats[i]).wf(),
        ensures
            match r {
                Some(g) => g.wf() && g@ == (GameView {
                    name: name@,
                    seats: seats_view(seats@),
                    turn: turn as int,
                }),
                None => !(GameView {
                    name: name@,
                    seats: seats_view(seats@),
                    turn: turn as int,
                }).wf(),
            },
    {
        let ghost kept = GameView { name: name@, seats: seats_view(seats@), turn: turn as int };
        let n: usize = seats.len();
        if n > 2 || turn >= 2 {
            return None;
        }
        if n < 2 {
            if turn != 0 {
                return None;
            }
            if n == 1 && seats[0].board().shots().len() > 0 {
                assert(kept.seats[0].pasture.shots.len() > 0);
                return None;
            }
        } else {
            if *seats[0].username() == *seats[1].username() {
                return None;
            }
            if seats[turn].board().has_pending() {
                return None;
            }
            let pending: bool = seats[1 - turn].board().has_pending();
            let first: usize = seats[0].board().shots().len();
            let second: usize = seats[1].board().shots().len();
            let in_step: bool = if turn == 0 {
                if pending {
                    second > 0 && second - 1 == first
                } else {
                    second == first
                }
            } else {
                if pending {
                    first == second
                } else {
                    second > 0 && second - 1 == first
                }
            };
            if !in_step {
                return None;
            }
        }
        Some(Game { name, seats, turn })
    }

    pub fn name(&self) -> (s: &String)
        ensures
            s@ == self@.name,
    {
        &self.name
    }

    /// The seated players, in the order in which they joined.
    pub fn seats(&self) -> (s: &Vec<Player>)
        ensures
            seats_view(s@) == self@.seats,
    {
        &self.seats
    }

    /// The seat whose turn it is.
    pub fn turn(&self) -> (t: usize)
        ensures
            t == self@.turn,
    {
        self.turn
    }

    pub fn state(&self) -> (s: Lifecycle)
        ensures
            s == self@.lifecycle(),
    {
        if self.seats.len() == 0 {
            Lifecycle::Empty
        } else if self.seats.len() == 1 {
            Lifecycle::Joining
        } else {
            Lifecycle::Full
        }
    }

    pub fn is_full(&self) -> (b: bool)
        ensures
            b == self@.is_full(),
    {
        self.seats.len() == 2
    }

    /// Seats the player at the next open seat. Refused with `GameFull` when
    /// both seats are taken, with `DuplicatePlayer` when the seated player
    /// has the same name, and with `InvalidPlacement` when the board offered
    /// has already received shots.
    pub fn add_player(&mut self, player: Player) -> (r: Result<(), GameError>)
        requires
            old(self).wf(),
            player.wf(),
        ensures
            final(self).wf(),
            match r {
                Ok(_) => old(self)@.add_player(player@) == Ok::<GameView, GameError>(final(self)@),
                Err(e) => old(self)@.add_player(player@) == Err::<GameView, GameError>(e)
                    && final(self)@ == old(self)@,
            },
    {
        if self.seats.len() >= 2 {
            return Err(GameError::GameFull);
        }
        if self.seats.len() == 1 && *self.seats[0].username() == *player.username() {
            return Err(GameError::DuplicatePlayer);
        }
        if player.board().shots().len() > 0 {
            return Err(GameError::InvalidPlacement);
        }
        self.seats.push(player);
        assert(self@.seats =~= old(self)@.seats.push(player@));
        Ok(())
    }

    /// The player whose turn it is. Refused with `GameNotFull` while a seat
    /// is open.
    pub fn player(&self) -> (r: Result<&Player, GameError>)
        requires
            self.wf(),
        ensures
            match r {
                Ok(p) => self@.is_full() && p@ == self@.on_turn(),
                Err(e) => !self@.is_full() && e == GameError::GameNotFull,
            },
    {
        if self.seats.len() != 2 {
            return Err(GameError::GameNotFull);
        }
        Ok(&self.seats[self.turn])
    }

    /// The player whose turn it is not. Refused with `GameNotFull` while a
    /// seat is open.
    pub fn opponent(&self) -> (r: Result<&Player, GameError>)
        requires
            self.wf(),
        ensures
            match r {
                Ok(p) => self@.is_full() && p@ == self@.waiting(),
                Err(e) => !self@.is_full() && e == GameError::GameNotFull,
            },
    {
        if self.seats.len() != 2 {
            return Err(GameError::GameNotFull);
        }
        Ok(&self.seats[1 - self.turn])
    }

    /// The seat for which the credentials speak, if they speak for one.
    pub fn seat_of(&self, credentials: &Credentials) -> (r: Option<usize>)
        ensures
            match r {
                Some(i) => self@.seat_of(credentials@) == Some(i as int),
                None => self@.seat_of(credentials@) is None,
            },
    {
        if credentials.game != self.name {
            return None;
        }
        if self.seats.len() > 0 && self.seats[0].matches_credentials(credentials) {
            return Some(0);
        }
        if self.seats.len() > 1 && self.seats[1].matches_credentials(credentials) {
            return Some(1);
        }
        None
    }

    /// Fires at `c` for the player on turn: the shot is recorded as pending
    /// on the other board and returned. Refused with `GameNotFull` while a
    /// seat is open, with `NotYourTurn` while an earlier shot awaits its
    /// acknowledgement, and with `DuplicateShot` when `c` was fired on
    /// before.
    pub fn shoot(&mut self, c: Coords) -> (r: Result<Shot, GameError>)
        requires
            old(self).wf(),
        ensures
            final(self).wf(),
            match r {
                Ok(s) => s == (Shot::Pending { coords: c }) && old(self)@.shoot(c) == Ok::<
                    GameView,
                    GameError,
                >(final(self)@),
                Err(e) => old(self)@.shoot(c) == Err::<GameView, GameError>(e) && final(self)@
                    == old(self)@,
            },
    {
        if self.seats.len() != 2 {
            return Err(GameError::GameNotFull);
        }
        let target: usize = 1 - self.turn;
        if self.seats[target].board().has_pending() {
            return Err(GameError::NotYourTurn);
        }
        let r = self.seats[target].record_shot(c);
        proof {
            if r is Ok {
                let board = self@.seats[target as int].pasture;
                assert(self@.seats =~= old(self)@.with_board(1 - old(self)@.turn, board).seats);
            } else {
                assert(self@.seats =~= old(self)@.seats);
            }
        }
        r
    }

    /// Acknowledges the pending shot for the waiting player: the shot is
    /// resolved as a hit or a miss and returned, and the turn passes to the
    /// waiting player. Refused with `GameNotFull` while a seat is open and
    /// with `NoPendingShot` when no shot awaits its acknowledgement.
    pub fn confirm_shot(&mut self) -> (r: Result<Shot, GameError>)
        requires
            old(self).wf(),
        ensures
            final(self).wf(),
            match r {
                Ok(s) => s == old(self)@.waiting().pasture.verdict() && old(self)@.confirm_shot()
                    == Ok::<GameView, GameError>(final(self)@),
                Err(e) => old(self)@.confirm_shot() == Err::<GameView, GameError>(e)
                    && final(self)@ == old(self)@,
            },
    {
        if self.seats.len() != 2 {
            return Err(GameError::GameNotFull);
        }
        let target: usize = 1 - self.turn;
        let r = self.seats[target].resolve_pending_shot();
        proof {
            if r is Ok {
                assert(self@.seats =~= old(self)@.confirm_shot().unwrap().seats);
            } else {
                assert(self@.seats =~= old(self)@.seats);
            }
        }
        if r.is_ok() {
            self.turn = target;
        }
        r
    }

    /// The shots that the player at `seat` has fired, in order. Refused
    /// with `GameNotFull` while a seat is open.
    pub fn shots_fired_by(&self, seat: usize) -> (r: Result<Vec<Shot>, GameError>)
        requires
            self.wf(),
            seat < 2,
        ensures
            match r {
                Ok(s) => self@.is_full() && s@ == self@.shots_fired_by(seat as int),
                Err(e) => !self@.is_full() && e == GameError::GameNotFull,
            },
    {
        if self.seats.len() != 2 {
            return Err(GameError::GameNotFull);
        }
        Ok(copy_shots(self.seats[1 - seat].board().shots()))
    }

    /// The shot fired last, pending or resolved, if any was fired.
    pub fn last_shot(&self) -> (r: Result<Option<Shot>, GameError>)
        requires
            self.wf(),
        ensures
            match r {
                Ok(s) => self@.is_full() && s == self@.last_shot(),
                Err(e) => !self@.is_full() && e == GameError::GameNotFull,
            },
    {
        if self.seats.len() != 2 {
            return Err(GameError::GameNotFull);
        }
        let waiting = self.seats[1 - self.turn].board();
        if waiting.has_pending() {
            Ok(waiting.last_shot())
        } else {
            Ok(self.seats[self.turn].board().last_shot())
        }
    }
}

impl Clone for Game {
    fn clone(&self) -> (g: Game)
        ensures
            g@ == self@,
    {
        let mut seats: Vec<Player> = Vec::new();
        let mut i: usize = 0;
        while i < self.seats.len()
            invariant
                i <= self.seats.len(),
                seats_view(seats@) == seats_view(self.seats@).take(i as int),
            decreases self.seats.len() - i,
        {
            let ghost before = seats@;
            seats.push(self.seats[i].clone());
            assert(seats_view(seats@) =~= seats_view(before).push(self.seats@[i as int]@));
            assert(seats_view(seats@) =~= seats_view(self.seats@).take(i + 1));
            i = i + 1;
        }
        assert(seats_view(seats@) =~= seats_view(self.seats@));
        Game { name: self.name.clone(), seats, turn: self.turn }
    }
}

} // verus!
