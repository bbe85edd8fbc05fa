//! A seated player, and the credentials by which requests are matched
//! to a seat.

use crate::error::GameError;
use crate::geometry::Coords;
use crate::pasture::{Pasture, PastureView, Shot};
use vstd::prelude::*;

verus! {

/// What a request presents to act for a player: the game, the player's
/// name in it, and the player's secret.
#[derive(Debug, PartialEq, Eq)]
pub struct Credentials {
    pub game: String,
    pub username: String,
    pub password: String,
}

pub struct CredentialsView {
    pub game: Seq<char>,
    pub username: Seq<char>,
    pub password: Seq<char>,
}

impl View for Credentials {
    type V = CredentialsView;

    open spec fn view(&self) -> CredentialsView {
        CredentialsView { game: self.game@, username: self.username@, password: self.password@ }
    }
}

impl Credentials {
    pub fn new(game: String, username: String, password: String) -> (c: Credentials)
        ensures
            c@ == (CredentialsView { game: game@, username: username@, password: password@ }),
    {
        Credentials { game, username, password }
    }
}

impl Clone for Credentials {
    fn clone(&self) -> (c: Credentials)
        ensures
            c@ == self@,
    {
        Credentials {
            game: self.game.clone(),
            username: self.username.clone(),
            password: self.password.clone(),
        }
    }
}

/// What a seat holds: the player's name and secret, and the player's board.
pub struct PlayerView {
    pub username: Seq<char>,
    pub password: Seq<char>,
    pub pasture: PastureView,
}

impl PlayerView {
    pub open spec fn wf(self) -> bool {
        self.pasture.wf()
    }

    /// Whether the credentials name this player and hold the player's
    /// secret.
    pub open spec fn matches(self, c: CredentialsView) -> bool {
        self.username == c.username && self.password == c.password
    }

    /// The same player with another board.
    pub open spec fn with_pasture(self, pasture: PastureView) -> PlayerView {
        PlayerView { username: self.username, password: self.password, pasture }
    }
}

/// A player seated in a game, who owns one board.
#[derive(Debug, PartialEq, Eq)]
pub struct Player {
    username: String,
    password: String,
    pasture: Pasture,
}

impl View for Player {
    type V = PlayerView;

    closed spec fn view(&self) -> PlayerView {
        PlayerView { username: self.username@, password: self.password@, pasture: self.pasture@ }
    }
}

impl Player {
    pub open spec fn wf(&self) -> bool {
        self@.wf()
    }

    pub fn new(username: String, password: String, pasture: Pasture) -> (p: Player)
        ensures
            p@ == (PlayerView { username: username@, password: password@, pasture: pasture@ }),
    {
        Player { username, password, pasture }
    }

    pub fn username(&self) -> (s: &String)
        ensures
            s@ == self@.username,
    {
        &self.username
    }

    pub fn password(&self) -> (s: &String)
        ensures
            s@ == self@.password,
    {
        &self.password
    }

    /// The player's board, whoever asks.
    pub fn board(&self) -> (p: &Pasture)
        ensures
            p@ == self@.pasture,
    {
        &self.pasture
    }

    /// Whether the credentials name this player and hold the player's
    /// secret.
    pub fn matches_credentials(&self, credentials: &Credentials) -> (b: bool)
        ensures
            b == self@.matches(credentials@),
    {
        self.username == credentials.username && self.password == credentials.password
    }

    /// The player's board, for the player alone.
    pub fn pasture(&self, credentials: &Credentials) -> (r: Option<&Pasture>)
        ensures
            r is Some <==> self@.matches(credentials@),
            r matches Some(p) ==> p@ == self@.pasture,
    {
        if self.matches_credentials(credentials) {
            Some(&self.pasture)
        } else {
            None
        }
    }

    /// Records a shot at `c` on the player's board.
    pub fn record_shot(&mut self, c: Coords) -> (r: Result<Shot, GameError>)
        requires
            old(self).wf(),
        ensures
            final(self).wf(),
            match r {
                Ok(s) => s == (Shot::Pending { coords: c }) && old(self)@.pasture.record_shot(c)
                    == Ok::<PastureView, GameError>(final(self)@.pasture),
                Err(e) => old(self)@.pasture.record_shot(c) == Err::<PastureView, GameError>(e)
                    && final(self)@.pasture == old(self)@.pasture,
            },
            final(self)@ == old(self)@.with_pasture(final(self)@.pasture),
    {
        self.pasture.record_shot(c)
    }

    /// Resolves the shot that is pending on the player's board.
    pub fn resolve_pending_shot(&mut self) -> (r: Result<Shot, GameError>)
        requires
            old(self).wf(),
        ensures
            final(self).wf(),
            match r {
                Ok(s) => s == old(self)@.pasture.verdict()
                    && old(self)@.pasture.resolve_pending_shot() == Ok::<PastureView, GameError>(
                    final(self)@.pasture,
                ),
                Err(e) => old(self)@.pasture.resolve_pending_shot() == Err::<
                    PastureView,
                    GameError,
                >(e) && final(self)@.pasture == old(self)@.pasture,
            },
            final(self)@ == old(self)@.with_pasture(final(self)@.pasture),
    {
        self.pasture.resolve_pending_shot()
    }
}

impl Clone for Player {
    fn clone(&self) -> (p: Player)
        ensures
            p@ == self@,
    {
        Player {
            username: self.username.clone(),
            password: self.password.clone(),
            pasture: self.pasture.clone(),
        }
    }
}

} // verus!
