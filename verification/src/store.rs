//! The games that are kept, each under its name.

use crate::game::{Game, GameView};
use vstd::prelude::*;

verus! {

/// What is kept under `name`, if anything.
pub open spec fn lookup(kept: Map<Seq<char>, GameView>, name: Seq<char>) -> Option<GameView> {
    if kept.contains_key(name) {
        Some(kept[name])
    } else {
        None
    }
}

/// Every game that is kept is sound and is kept under its own name.
pub open spec fn store_sound(kept: Map<Seq<char>, GameView>) -> bool {
    forall|name: Seq<char>| #[trigger]
        kept.contains_key(name) ==> kept[name].wf() && kept[name].name == name
}

/// The games that are kept. A name is the key of at most one game.
#[derive(Debug)]
pub struct GameStore {
    games: Vec<Game>,
}

impl GameStore {
    /// Whether the game at index `i` is the one kept under `name`.
    spec fn holds_at(&self, i: int, name: Seq<char>) -> bool {
        0 <= i < self.games.len() && self.games[i]@.name == name
    }

    /// Every game kept is a sound one, and no two have the same name.
    pub closed spec fn wf(&self) -> bool {
        &&& forall|i: int| 0 <= i < self.games.len() ==> (#[trigger] self.games[i]).wf()
        &&& forall|i: int, j: int|
            0 <= i < j < self.games.len() ==> (#[trigger] self.games[i])@.name != (
            #[trigger] self.games[j])@.name
    }

    /// A sound store keeps sound games, each under its own name.
    pub proof fn kept_games_are_sound(&self)
        requires
            self.wf(),
        ensures
            store_sound(self@),
    {
        assert forall|name: Seq<char>| #[trigger] self@.contains_key(name) implies self@[name].wf()
            && self@[name].name == name by {
            let i = choose|i: int| self.holds_at(i, name);
            assert(self.games[i].wf());
        }
    }

    /// A store that keeps no game.
    pub fn new() -> (s: GameStore)
        ensures
            s.wf(),
            s@ == Map::<Seq<char>, GameView>::empty(),
    {
        let s = GameStore { games: Vec::new() };
        assert(s@ =~= Map::<Seq<char>, GameView>::empty());
        s
    }

    /// The index at which the game of that name is kept.
    fn find(&self, name: &String) -> (r: Option<usize>)
        ensures
            match r {
                Some(i) => self.holds_at(i as int, name@),
                None => forall|i: int| !self.holds_at(i, name@),
            },
    {
        let mut i: usize = 0;
        while i < self.games.len()
            invariant
                i <= self.games.len(),
                forall|k: int| 0 <= k < i ==> !self.holds_at(k, name@),
            decreases self.games.len() - i,
        {
            if *self.games[i].name() == *name {
                return Some(i);
            }
            i = i + 1;
        }
        None
    }

    /// Whether a game is kept under `name`.
    pub fn contains(&self, name: &String) -> (b: bool)
        requires
            self.wf(),
        ensures
            b == self@.contains_key(name@),
    {
        match self.find(name) {
            Some(i) => {
                assert(self.holds_at(i as int, name@));
                true
            },
            None => false,
        }
    }

    /// A copy of the game kept under `name`, if one is.
    pub fn load(&self, name: &String) -> (r: Option<Game>)
        requires
            self.wf(),
        ensures
            match r {
                Some(g) => lookup(self@, name@) == Some(g@) && g.wf() && g@.name == name@,
                None => lookup(self@, name@) is None,
            },
    {
        match self.find(name) {
            Some(i) => {
                assert(self.holds_at(i as int, name@));
                let ghost k = choose|k: int| self.holds_at(k, name@);
                assert(k == i);
                Some(self.games[i].clone())
            },
            None => None,
        }
    }

    /// Keeps the game under its name, in place of the game kept under that
    /// name before, if one was.
    pub fn save(&mut self, game: Game)
        requires
            old(self).wf(),
            game.wf(),
        ensures
            final(self).wf(),
            final(self)@ == old(self)@.insert(game@.name, game@),
    {
        let ghost name = game@.name;
        let found = self.find(game.name());
        let ghost at: int = match found {
            Some(i) => i as int,
            None => self.games.len() as int,
        };
        match found {
            Some(i) => {
                self.games.set(i, game);
            },
            None => {
                self.games.push(game);
            },
        }
        proof {
            assert(self.holds_at(at, name));
            assert forall|k: int, key: Seq<char>| k != at implies (self.holds_at(k, key) <==> old(
                self,
            ).holds_at(k, key)) by {
                if 0 <= k < old(self).games.len() {
                    assert(self.games[k] == old(self).games[k]);
                }
            }
            assert forall|k: int| self.holds_at(k, name) implies k == at by {
                if k != at {
                    assert(old(self).holds_at(k, name));
                }
            }
            assert forall|key: Seq<char>| #[trigger]
                self@.contains_key(key) <==> (key == name || old(self)@.contains_key(key)) by {
                if old(self)@.contains_key(key) && key != name {
                    let k = choose|k: int| old(self).holds_at(k, key);
                    assert(self.holds_at(k, key));
                }
                if self@.contains_key(key) && key != name {
                    let k = choose|k: int| self.holds_at(k, key);
                    assert(old(self).holds_at(k, key));
                }
            }
            assert forall|key: Seq<char>| #[trigger] self@.contains_key(key) implies self@[key]
                == old(self)@.insert(name, game@)[key] by {
                let k = choose|k: int| self.holds_at(k, key);
                if key != name {
                    assert(old(self).holds_at(k, key));
                    let k0 = choose|k0: int| old(self).holds_at(k0, key);
                    assert(k0 == k);
                }
            }
            assert(self@ =~= old(self)@.insert(name, game@));
            assert forall|i: int| 0 <= i < self.games.len() implies (
            #[trigger] self.games[i]).wf() by {
                if i != at {
                    assert(self.games[i] == old(self).games[i]);
                }
            }
            assert forall|i: int, j: int| 0 <= i < j < self.games.len() implies (
            #[trigger] self.games[i])@.name != (#[trigger] self.games[j])@.name by {
                let key = self.games[i]@.name;
                if self.games[j]@.name == key {
                    assert(self.holds_at(i, key) && self.holds_at(j, key));
                    if i != at && j != at {
                        assert(old(self).holds_at(i, key) && old(self).holds_at(j, key));
                    }
                }
            }
        }
    }
}

impl View for GameStore {
    type V = Map<Seq<char>, GameView>;

    closed spec fn view(&self) -> Map<Seq<char>, GameView> {
        Map::new(
            |name: Seq<char>| exists|i: int| self.holds_at(i, name),
            |name: Seq<char>| self.games[choose|i: int| self.holds_at(i, name)]@,
        )
    }
}

} // verus!
