//! The requests that the engine takes, and what it answers to a question.

use crate::geometry::Coords;
use crate::pasture::{Pasture, PastureView, Shot};
use crate::player::{Credentials, CredentialsView};
use vstd::prelude::*;

verus! {

/// A request that changes a game.
#[derive(Debug, PartialEq, Eq)]
pub enum HandleMsg {
    /// Open a game under `name`.
    NewGame { name: String },
    /// Take a seat with the board `pasture`.
    Join { pasture: Pasture, credentials: Credentials },
    /// Fire at `coords` on the other player's board.
    Shoot { coords: Coords, credentials: Credentials },
    /// Acknowledge the shot that was fired at one's own board.
    Confirm { coords: Coords, credentials: Credentials },
}

pub enum HandleMsgView {
    NewGame { name: Seq<char> },
    Join { pasture: PastureView, credentials: CredentialsView },
    Shoot { coords: Coords, credentials: CredentialsView },
    Confirm { coords: Coords, credentials: CredentialsView },
}

impl HandleMsgView {
    /// The name of the game that the request is about.
    pub open spec fn game(self) -> Seq<char> {
        match self {
            HandleMsgView::NewGame { name } => name,
            HandleMsgView::Join { credentials, .. } => credentials.game,
            HandleMsgView::Shoot { credentials, .. } => credentials.game,
            HandleMsgView::Confirm { credentials, .. } => credentials.game,
        }
    }
}

impl View for HandleMsg {
    type V = HandleMsgView;

    open spec fn view(&self) -> HandleMsgView {
        match *self {
            HandleMsg::NewGame { name } => HandleMsgView::NewGame { name: name@ },
            HandleMsg::Join { pasture, credentials } => HandleMsgView::Join {
                pasture: pasture@,
                credentials: credentials@,
            },
            HandleMsg::Shoot { coords, credentials } => HandleMsgView::Shoot {
                coords,
                credentials: credentials@,
            },
            HandleMsg::Confirm { coords, credentials } => HandleMsgView::Confirm {
                coords,
                credentials: credentials@,
            },
        }
    }
}

impl HandleMsg {
    /// A request carries a sound board, where it carries one.
    pub open spec fn wf(&self) -> bool {
        *self matches HandleMsg::Join { pasture, .. } ==> pasture.wf()
    }

    /// The name of the game that the request is about.
    pub fn game_name(&self) -> (s: &String)
        ensures
            s@ == self@.game(),
    {
        match self {
            HandleMsg::NewGame { name } => name,
            HandleMsg::Join { credentials, .. } => &credentials.game,
            HandleMsg::Shoot { credentials, .. } => &credentials.game,
            HandleMsg::Confirm { credentials, .. } => &credentials.game,
        }
    }
}

/// A question about a game. None changes anything.
#[derive(Debug, PartialEq, Eq)]
pub enum QueryMsg {
    /// The asking player's own board.
    MyPasture { credentials: Credentials },
    /// The shots that the asking player has fired.
    MyShots { credentials: Credentials },
    /// The shot fired last in the game.
    LastShot { credentials: Credentials },
}

pub enum QueryMsgView {
    MyPasture { credentials: CredentialsView },
    MyShots { credentials: CredentialsView },
    LastShot { credentials: CredentialsView },
}

impl QueryMsgView {
    /// The credentials that the question presents.
    pub open spec fn credentials(self) -> CredentialsView {
        match self {
            QueryMsgView::MyPasture { credentials } => credentials,
            QueryMsgView::MyShots { credentials } => credentials,
            QueryMsgView::LastShot { credentials } => credentials,
        }
    }
}

impl View for QueryMsg {
    type V = QueryMsgView;

    open spec fn view(&self) -> QueryMsgView {
        match *self {
            QueryMsg::MyPasture { credentials } => QueryMsgView::MyPasture {
                credentials: credentials@,
            },
            QueryMsg::MyShots { credentials } => QueryMsgView::MyShots {
                credentials: credentials@,
            },
            QueryMsg::LastShot { credentials } => QueryMsgView::LastShot {
                credentials: credentials@,
            },
        }
    }
}

impl QueryMsg {
    /// The name of the game that the question is about.
    pub fn game_name(&self) -> (s: &String)
        ensures
            s@ == self@.credentials().game,
    {
        match self {
            QueryMsg::MyPasture { credentials } => &credentials.game,
            QueryMsg::MyShots { credentials } => &credentials.game,
            QueryMsg::LastShot { credentials } => &credentials.game,
        }
    }
}

/// The answer to a question.
#[derive(Debug, PartialEq, Eq)]
pub enum QueryAnswer {
    Pasture(Pasture),
    Shots(Vec<Shot>),
    LastShot(Option<Shot>),
}

pub enum QueryAnswerView {
    Pasture(PastureView),
    Shots(Seq<Shot>),
    LastShot(Option<Shot>),
}

impl View for QueryAnswer {
    type V = QueryAnswerView;

    open spec fn view(&self) -> QueryAnswerView {
        match *self {
            QueryAnswer::Pasture(p) => QueryAnswerView::Pasture(p@),
            QueryAnswer::Shots(s) => QueryAnswerView::Shots(s@),
            QueryAnswer::LastShot(s) => QueryAnswerView::LastShot(s),
        }
    }
}

} // verus!
