//! The reasons for which a request is turned down.

use vstd::prelude::*;
use vstd::string::StringExecFns;

verus! {

/// The text that `{:?}` writes for a string: the string between double
/// quotes, with the characters that `str`'s `Debug` escapes written as
/// their escapes.
pub uninterp spec fn debug_text(s: Seq<char>) -> Seq<char>;

/// Formats `s` with `format!("{:?}", ..)`, that is with `str`'s `Debug`.
/// Believed, not proved: the text depends on `s` alone, so it is
/// `debug_text` of `s`.
#[verifier::external_body]
fn debug_quoted(s: &str) -> (r: String)
    ensures
        r@ == debug_text(s@),
{
    format!("{:?}", s)
}

/// Why a request was refused. A refused request changes nothing.
#[derive(Clone, Copy, Debug, PartialEq, Eq, Structural)]
pub enum GameError {
    /// A game of that name is already kept.
    GameAlreadyExists,
    /// No game of that name is kept.
    GameNotFound,
    /// The request needs two seated players and the game has fewer.
    GameNotFull,
    /// Both seats of the game are taken.
    GameFull,
    /// The name of the joining player is already seated in the game.
    DuplicatePlayer,
    /// The board offered is not a legal one.
    InvalidPlacement,
    /// The cell was fired on before.
    DuplicateShot,
    /// No shot awaits its acknowledgement.
    NoPendingShot,
    /// The player who asked to shoot may not shoot now.
    NotYourTurn,
    /// The player who asked is not entitled to what was asked.
    PermissionDenied,
}

impl GameError {
    /// What the refusal says to the player who asked, about the game named
    /// `game`.
    pub open spec fn text(self, game: Seq<char>) -> Seq<char> {
        match self {
            GameError::GameAlreadyExists => "game with name "@ + debug_text(game)
                + " already exists"@,
            GameError::GameNotFound => "game with name "@ + debug_text(game) + " not found"@,
            GameError::GameNotFull => "The game is still waiting for players"@,
            GameError::GameFull => "The game is already full"@,
            GameError::DuplicatePlayer => "A player of this name has already joined the game"@,
            GameError::InvalidPlacement => "The pasture is not a valid placement"@,
            GameError::DuplicateShot => "This cell has already been shot at"@,
            GameError::NoPendingShot => "There is no shot to confirm"@,
            GameError::NotYourTurn => "It's not your turn"@,
            GameError::PermissionDenied => "You do not have permissions to do this"@,
        }
    }

    /// What the refusal says to the player who asked, about the game named
    /// `game`.
    pub fn describe(&self, game: &str) -> (r: String)
        ensures
            r@ == self.text(game@),
    {
        match self {
            GameError::GameAlreadyExists => {
                let mut s = String::from_str("game with name ");
                let quoted = debug_quoted(game);
                s.append(quoted.as_str());
                s.append(" already exists");
                s
            },
            GameError::GameNotFound => {
                let mut s = String::from_str("game with name ");
                let quoted = debug_quoted(game);
                s.append(quoted.as_str());
                s.append(" not found");
                s
            },
            GameError::GameNotFull => String::from_str("The game is still waiting for players"),
            GameError::GameFull => String::from_str("The game is already full"),
            GameError::DuplicatePlayer => String::from_str(
                "A player of this name has already joined the game",
            ),
            GameError::InvalidPlacement => String::from_str("The pasture is not a valid placement"),
            GameError::DuplicateShot => String::from_str("This cell has already been shot at"),
            GameError::NoPendingShot => String::from_str("There is no shot to confirm"),
            GameError::NotYourTurn => String::from_str("It's not your turn"),
            GameError::PermissionDenied => String::from_str(
                "You do not have permissions to do this",
            ),
        }
    }
}

} // verus!
