//! A player's board: the herds placed on it and the shots it has received.

use crate::error::GameError;
use crate::geometry::{herd_within_bounds, herds_overlap, Coords, Herd, Orientation, GRID_SIZE};
use vstd::prelude::*;

verus! {

/// A shot fired at a cell: first pending, then resolved as a hit or a miss
/// by the board that received it.
#[derive(Clone, Copy, Debug, PartialEq, Eq, Structural)]
pub enum Shot {
    Pending { coords: Coords },
    Resolved { coords: Coords, hit: bool },
}

impl Shot {
    /// The cell the shot was fired at.
    pub open spec fn target(self) -> Coords {
        match self {
            Shot::Pending { coords } => coords,
            Shot::Resolved { coords, .. } => coords,
        }
    }

    pub fn pending(coords: Coords) -> (s: Shot)
        ensures
            s == (Shot::Pending { coords }),
    {
        Shot::Pending { coords }
    }

    pub fn resolved(coords: Coords, hit: bool) -> (s: Shot)
        ensures
            s == (Shot::Resolved { coords, hit }),
    {
        Shot::Resolved { coords, hit }
    }

    pub fn coords(&self) -> (c: Coords)
        ensures
            c == self.target(),
    {
        match self {
            Shot::Pending { coords } => *coords,
            Shot::Resolved { coords, .. } => *coords,
        }
    }

    pub fn is_pending(&self) -> (b: bool)
        ensures
            b == (*self is Pending),
    {
        match self {
            Shot::Pending { .. } => true,
            Shot::Resolved { .. } => false,
        }
    }

    /// Whether the shot hit a herd, once that is known.
    pub fn outcome(&self) -> (o: Option<bool>)
        ensures
            o == match *self {
                Shot::Pending { .. } => None::<bool>,
                Shot::Resolved { hit, .. } => Some(hit),
            },
    {
        match self {
            Shot::Pending { .. } => None,
            Shot::Resolved { hit, .. } => Some(*hit),
        }
    }
}

/// Whether some herd of the fleet stands on the point `p`.
pub open spec fn fleet_covers(herds: Seq<Herd>, p: (int, int)) -> bool {
    exists|i: int| 0 <= i < herds.len() && (#[trigger] herds[i]).covers(p)
}

/// The set of points on which the fleet stands.
pub open spec fn fleet_cells(herds: Seq<Herd>) -> Set<(int, int)> {
    Set::new(|p: (int, int)| fleet_covers(herds, p))
}

/// The sum of the lengths of the herds.
pub open spec fn total_length(herds: Seq<Herd>) -> nat
    decreases herds.len(),
{
    if herds.len() == 0 {
        0
    } else {
        total_length(herds.drop_last()) + herds.last().length as nat
    }
}

/// The cells on which the fleet stands, herd by herd in the order of the
/// fleet, and each herd's cells in order from its origin.
pub open spec fn fleet_cell_list(herds: Seq<Herd>) -> Seq<Coords>
    decreases herds.len(),
{
    if herds.len() == 0 {
        Seq::empty()
    } else {
        fleet_cell_list(herds.drop_last()) + herds.last().cell_list()
    }
}

/// A fleet may be placed when each herd has at least one cell and lies on
/// the grid, and no two herds share a cell.
pub open spec fn fleet_valid(herds: Seq<Herd>) -> bool {
    &&& forall|i: int|
        0 <= i < herds.len() ==> (#[trigger] herds[i]).length > 0 && herds[i].in_bounds(
            GRID_SIZE as int,
        )
    &&& forall|i: int, j: int|
        0 <= i < j < herds.len() ==> !(#[trigger] herds[i]).overlaps(#[trigger] herds[j])
}

/// Whether some shot of the history was fired at `c`.
pub open spec fn fired_at(shots: Seq<Shot>, c: Coords) -> bool {
    exists|i: int| 0 <= i < shots.len() && (#[trigger] shots[i]).target() == c
}

/// A history of shots received is sound for a fleet when no cell was fired
/// on twice, only the latest shot may still be pending, and each resolved
/// shot is a hit exactly when the fleet stands on its cell.
pub open spec fn history_valid(herds: Seq<Herd>, shots: Seq<Shot>) -> bool {
    &&& forall|i: int, j: int|
        0 <= i < j < shots.len() ==> (#[trigger] shots[i]).target() != (
        #[trigger] shots[j]).target()
    &&& forall|i: int| 0 <= i < shots.len() - 1 ==> #[trigger] shots[i] is Resolved
    &&& forall|i: int|
        0 <= i < shots.len() ==> ((#[trigger] shots[i]) matches Shot::Resolved { coords, hit }
            ==> hit == fleet_covers(herds, coords.cell()))
}

/// What a board holds: its herds, and the shots received in the order in
/// which they were fired.
pub struct PastureView {
    pub herds: Seq<Herd>,
    pub shots: Seq<Shot>,
}

impl PastureView {
    pub open spec fn wf(self) -> bool {
        fleet_valid(self.herds) && history_valid(self.herds, self.shots)
    }

    /// Whether some herd stands on the cell `c`.
    pub open spec fn occupied(self, c: Coords) -> bool {
        fleet_covers(self.herds, c.cell())
    }

    /// Whether the cell `c` was fired on, be the shot resolved or pending.
    pub open spec fn fired_on(self, c: Coords) -> bool {
        fired_at(self.shots, c)
    }

    /// Whether the latest shot still awaits its acknowledgement.
    pub open spec fn has_pending(self) -> bool {
        self.shots.len() > 0 && self.shots.last() is Pending
    }

    /// The latest shot received, if any.
    pub open spec fn last_shot(self) -> Option<Shot> {
        if self.shots.len() > 0 {
            Some(self.shots.last())
        } else {
            None
        }
    }

    /// The board built from a fleet and a history, or the refusal.
    pub open spec fn assemble(herds: Seq<Herd>, shots: Seq<Shot>) -> Result<
        PastureView,
        GameError,
    > {
        let board = PastureView { herds, shots };
        if board.wf() {
            Ok(board)
        } else {
            Err(GameError::InvalidPlacement)
        }
    }

    /// The board after a shot at `c` was recorded, or the refusal.
    pub open spec fn record_shot(self, c: Coords) -> Result<PastureView, GameError> {
        if self.fired_on(c) {
            Err(GameError::DuplicateShot)
        } else if self.has_pending() {
            Err(GameError::NotYourTurn)
        } else {
            Ok(
                PastureView {
                    herds: self.herds,
                    shots: self.shots.push(Shot::Pending { coords: c }),
                },
            )
        }
    }

    /// The pending shot as it is once resolved by this board.
    pub open spec fn verdict(self) -> Shot {
        let c = self.shots.last().target();
        Shot::Resolved { coords: c, hit: self.occupied(c) }
    }

    /// The board after its pending shot was resolved, or the refusal.
    pub open spec fn resolve_pending_shot(self) -> Result<PastureView, GameError> {
        if self.has_pending() {
            Ok(
                PastureView {
                    herds: self.herds,
                    shots: self.shots.update(self.shots.len() - 1, self.verdict()),
                },
            )
        } else {
            Err(GameError::NoPendingShot)
        }
    }
}

/// Whether some herd of `herds` stands on the cell `c`.
pub fn fleet_stands_on(herds: &Vec<Herd>, c: Coords) -> (b: bool)
    ensures
        b == fleet_covers(herds@, c.cell()),
{
    let mut i: usize = 0;
    while i < herds.len()
        invariant
            i <= herds.len(),
            forall|k: int| 0 <= k < i ==> !(#[trigger] herds@[k]).covers(c.cell()),
        decreases herds.len() - i,
    {
        if herds[i].stands_on(c) {
            return true;
        }
        i = i + 1;
    }
    false
}

/// Whether some shot of `shots` was fired at the cell `c`.
pub fn shots_include(shots: &Vec<Shot>, c: Coords) -> (b: bool)
    ensures
        b == fired_at(shots@, c),
{
    let mut i: usize = 0;
    while i < shots.len()
        invariant
            i <= shots.len(),
            forall|k: int| 0 <= k < i ==> (#[trigger] shots@[k]).target() != c,
        decreases shots.len() - i,
    {
        if shots[i].coords() == c {
            return true;
        }
        i = i + 1;
    }
    false
}

/// Whether the fleet may be placed.
pub fn fleet_may_be_placed(herds: &Vec<Herd>) -> (b: bool)
    ensures
        b == fleet_valid(herds@),
{
    let mut i: usize = 0;
    while i < herds.len()
        invariant
            i <= herds.len(),
            forall|k: int|
                0 <= k < i ==> (#[trigger] herds@[k]).length > 0 && herds@[k].in_bounds(
                    GRID_SIZE as int,
                ),
            forall|k: int, j: int|
                0 <= k < j < i ==> !(#[trigger] herds@[k]).overlaps(#[trigger] herds@[j]),
        decreases herds.len() - i,
    {
        if herds[i].length == 0 || !herd_within_bounds(&herds[i], GRID_SIZE) {
            return false;
        }
        let mut k: usize = 0;
        while k < i
            invariant
                k <= i < herds.len(),
                forall|m: int| 0 <= m < k ==> !(#[trigger] herds@[m]).overlaps(herds@[i as int]),
            decreases i - k,
        {
            if herds_overlap(&herds[k], &herds[i]) {
                return false;
            }
            k = k + 1;
        }
        i = i + 1;
    }
    true
}

/// Whether the history of shots is sound for the fleet.
pub fn history_is_sound(herds: &Vec<Herd>, shots: &Vec<Shot>) -> (b: bool)
    ensures
        b == history_valid(herds@, shots@),
{
    let mut i: usize = 0;
    while i < shots.len()
        invariant
            i <= shots.len(),
            forall|k: int, j: int|
                0 <= k < j < i ==> (#[trigger] shots@[k]).target() != (
                #[trigger] shots@[j]).target(),
            forall|k: int| 0 <= k < i && k < shots.len() - 1 ==> #[trigger] shots@[k] is Resolved,
            forall|k: int|
                0 <= k < i ==> ((#[trigger] shots@[k]) matches Shot::Resolved { coords, hit }
                    ==> hit == fleet_covers(herds@, coords.cell())),
        decreases shots.len() - i,
    {
        match shots[i] {
            Shot::Pending { .. } => {
                if i + 1 < shots.len() {
                    return false;
                }
            },
            Shot::Resolved { coords, hit } => {
                if hit != fleet_stands_on(herds, coords) {
                    return false;
                }
            },
        }
        let mut k: usize = 0;
        while k < i
            invariant
                k <= i < shots.len(),
                forall|m: int|
                    0 <= m < k ==> (#[trigger] shots@[m]).target() != shots@[i as int].target(),
            decreases i - k,
        {
            if shots[k].coords() == shots[i].coords() {
                return false;
            }
            k = k + 1;
        }
        i = i + 1;
    }
    true
}

/// A player's board. Its fleet is placed once and for all; its history
/// grows by one shot at a time.
#[derive(Debug, PartialEq, Eq)]
pub struct Pasture {
    herds: Vec<Herd>,
    shots: Vec<Shot>,
}

impl View for Pasture {
    type V = PastureView;

    closed spec fn view(&self) -> PastureView {
        PastureView { herds: self.herds@, shots: self.shots@ }
    }
}

impl Pasture {
    /// Every board that exists is a legal one.
    pub open spec fn wf(&self) -> bool {
        self@.wf()
    }

    /// Builds a board from a fleet and the shots received so far. The board
    /// is refused with `InvalidPlacement` unless the fleet may be placed and
    /// the history is sound for it.
    pub fn new(herds: Vec<Herd>, shots: Vec<Shot>) -> (r: Result<Pasture, GameError>)
        ensures
            match r {
                Ok(p) => PastureView::assemble(herds@, shots@) == Ok::<PastureView, GameError>(p@),
                Err(e) => PastureView::assemble(herds@, shots@) == Err::<PastureView, GameError>(e),
            },
    {
        if fleet_may_be_placed(&herds) && history_is_sound(&herds, &shots) {
            Ok(Pasture { herds, shots })
        } else {
            Err(GameError::InvalidPlacement)
        }
    }

    pub fn herds(&self) -> (h: &Vec<Herd>)
        ensures
            h@ == self@.herds,
    {
        &self.herds
    }

    pub fn shots(&self) -> (s: &Vec<Shot>)
        ensures
            s@ == self@.shots,
    {
        &self.shots
    }

    /// Whether some herd stands on the cell `c`.
    pub fn is_occupied(&self, c: Coords) -> (b: bool)
        ensures
            b == self@.occupied(c),
    {
        fleet_stands_on(&self.herds, c)
    }

    /// The cells on which the fleet stands, herd by herd in the order of
    /// the fleet, and each herd's cells in order from its origin.
    pub fn occupied_cells(&self) -> (cells: Vec<Coords>)
        requires
            self.wf(),
        ensures
            cells@ == fleet_cell_list(self@.herds),
    {
        let mut cells: Vec<Coords> = Vec::new();
        let mut i: usize = 0;
        while i < self.herds.len()
            invariant
                i <= self.herds.len(),
                fleet_valid(self.herds@),
                cells@ == fleet_cell_list(self.herds@.take(i as int)),
            decreases self.herds.len() - i,
        {
            let herd = self.herds[i];
            proof {
                assert(herd.in_bounds(GRID_SIZE as int));
                assert(self.herds@.take(i + 1).drop_last() =~= self.herds@.take(i as int));
            }
            let mut k: u8 = 0;
            while k < herd.length
                invariant
                    k <= herd.length,
                    herd.in_bounds(GRID_SIZE as int),
                    cells@ == fleet_cell_list(self.herds@.take(i as int)) + herd.cell_list().take(
                        k as int,
                    ),
                decreases herd.length - k,
            {
                proof {
                    assert(herd.covers(herd.cell_at(k as int)));
                }
                let c = match herd.orientation {
                    Orientation::Horizontal => Coords { x: herd.coords.x + k, y: herd.coords.y },
                    Orientation::Vertical => Coords { x: herd.coords.x, y: herd.coords.y + k },
                };
                cells.push(c);
                assert(herd.cell_list().take(k + 1) =~= herd.cell_list().take(k as int).push(c));
                k = k + 1;
            }
            assert(herd.cell_list().take(herd.length as int) =~= herd.cell_list());
            i = i + 1;
        }
        assert(self.herds@.take(i as int) =~= self.herds@);
        cells
    }

    /// The herd that stands on the cell `c`, if one does.
    pub fn herd_at(&self, c: Coords) -> (r: Option<Herd>)
        ensures
            r is Some <==> self@.occupied(c),
            r matches Some(h) ==> exists|i: int|
                0 <= i < self@.herds.len() && #[trigger] self@.herds[i] == h && h.covers(c.cell())
                    && forall|k: int| 0 <= k < i ==> !(#[trigger] self@.herds[k]).covers(c.cell()),
    {
        let mut i: usize = 0;
        while i < self.herds.len()
            invariant
                i <= self.herds.len(),
                forall|k: int| 0 <= k < i ==> !(#[trigger] self.herds@[k]).covers(c.cell()),
            decreases self.herds.len() - i,
        {
            if self.herds[i].stands_on(c) {
                return Some(self.herds[i]);
            }
            i = i + 1;
        }
        None
    }

    /// Whether the cell `c` was fired on, be the shot resolved or pending.
    pub fn was_fired_on(&self, c: Coords) -> (b: bool)
        ensures
            b == self@.fired_on(c),
    {
        shots_include(&self.shots, c)
    }

    /// Whether the latest shot still awaits its acknowledgement.
    pub fn has_pending(&self) -> (b: bool)
        ensures
            b == self@.has_pending(),
    {
        let n: usize = self.shots.len();
        n > 0 && self.shots[n - 1].is_pending()
    }

    /// The latest shot received, if any.
    pub fn last_shot(&self) -> (s: Option<Shot>)
        ensures
            s == self@.last_shot(),
    {
        let n: usize = self.shots.len();
        if n > 0 {
            Some(self.shots[n - 1])
        } else {
            None
        }
    }

    /// Records a shot at `c` as pending and returns it. Refused with
    /// `DuplicateShot` when `c` was fired on before, and with `NotYourTurn`
    /// while an earlier shot awaits its acknowledgement.
    pub fn record_shot(&mut self, c: Coords) -> (r: Result<Shot, GameError>)
        requires
            old(self).wf(),
        ensures
            final(self).wf(),
            match r {
                Ok(s) => s == (Shot::Pending { coords: c }) && old(self)@.record_shot(c) == Ok::<
                    PastureView,
                    GameError,
                >(final(self)@),
                Err(e) => old(self)@.record_shot(c) == Err::<PastureView, GameError>(e)
                    && final(self)@ == old(self)@,
            },
    {
        if shots_include(&self.shots, c) {
            return Err(GameError::DuplicateShot);
        }
        if self.has_pending() {
            return Err(GameError::NotYourTurn);
        }
        let shot = Shot::Pending { coords: c };
        self.shots.push(shot);
        Ok(shot)
    }

    /// Resolves the pending shot as a hit or a miss and returns it. Refused
    /// with `NoPendingShot` when no shot awaits its acknowledgement.
    pub fn resolve_pending_shot(&mut self) -> (r: Result<Shot, GameError>)
        requires
            old(self).wf(),
        ensures
            final(self).wf(),
            match r {
                Ok(s) => s == old(self)@.verdict() && old(self)@.resolve_pending_shot() == Ok::<
                    PastureView,
                    GameError,
                >(final(self)@),
                Err(e) => old(self)@.resolve_pending_shot() == Err::<PastureView, GameError>(e)
                    && final(self)@ == old(self)@,
            },
    {
        if !self.has_pending() {
            return Err(GameError::NoPendingShot);
        }
        let n: usize = self.shots.len();
        let c = self.shots[n - 1].coords();
        let shot = Shot::Resolved { coords: c, hit: fleet_stands_on(&self.herds, c) };
        self.shots.set(n - 1, shot);
        Ok(shot)
    }
}

impl Clone for Pasture {
    fn clone(&self) -> (r: Pasture)
        ensures
            r@ == self@,
    {
        Pasture { herds: copy_herds(&self.herds), shots: copy_shots(&self.shots) }
    }
}

/// A copy of the herds, in the same order.
pub fn copy_herds(herds: &Vec<Herd>) -> (r: Vec<Herd>)
    ensures
        r@ == herds@,
{
    let mut out: Vec<Herd> = Vec::new();
    let mut i: usize = 0;
    while i < herds.len()
        invariant
            i <= herds.len(),
            out@ == herds@.take(i as int),
        decreases herds.len() - i,
    {
        out.push(herds[i]);
        i = i + 1;
    }
    assert(out@ =~= herds@);
    out
}

/// A copy of the shots, in the same order.
pub fn copy_shots(shots: &Vec<Shot>) -> (r: Vec<Shot>)
    ensures
        r@ == shots@,
{
    let mut out: Vec<Shot> = Vec::new();
    let mut i: usize = 0;
    while i < shots.len()
        invariant
            i <= shots.len(),
            out@ == shots@.take(i as int),
        decreases shots.len() - i,
    {
        out.push(shots[i]);
        i = i + 1;
    }
    assert(out@ =~= shots@);
    out
}


/// A herd stands on exactly as many cells as it is long.
pub proof fn herd_cell_count(h: Herd)
    ensures
        h.cells().finite(),
        h.cells().len() == h.length,
    decreases h.length,
{
    if h.length == 0 {
        assert(h.cells() =~= Set::empty());
    } else {
        let shorter = Herd { length: (h.length - 1) as u8, ..h };
        herd_cell_count(shorter);
        let last = h.cell_at(h.length - 1);
        assert(!shorter.cells().contains(last));
        assert(h.cells() =~= shorter.cells().insert(last));
    }
}

/// A fleet whose herds share no cell stands on exactly as many cells as its
/// herds are long in total.
pub proof fn fleet_cell_count(herds: Seq<Herd>)
    requires
        forall|i: int, j: int|
            0 <= i < j < herds.len() ==> !(#[trigger] herds[i]).overlaps(#[trigger] herds[j]),
    ensures
        fleet_cells(herds).finite(),
        fleet_cells(herds).len() == total_length(herds),
    decreases herds.len(),
{
    if herds.len() == 0 {
        assert(fleet_cells(herds) =~= Set::empty());
    } else {
        let rest = herds.drop_last();
        let h = herds.last();
        fleet_cell_count(rest);
        herd_cell_count(h);
        assert forall|p: (int, int)| fleet_covers(herds, p) <==> fleet_covers(rest, p) || h.covers(
            p,
        ) by {
            if fleet_covers(rest, p) {
                let i = choose|i: int| 0 <= i < rest.len() && (#[trigger] rest[i]).covers(p);
                assert(herds[i].covers(p));
            }
            if h.covers(p) {
                assert(herds[herds.len() - 1].covers(p));
            }
            if fleet_covers(herds, p) {
                let i = choose|i: int| 0 <= i < herds.len() && (#[trigger] herds[i]).covers(p);
                if i < rest.len() {
                    assert(rest[i].covers(p));
                }
            }
        }
        assert(fleet_cells(herds) =~= fleet_cells(rest).union(h.cells()));
        assert(fleet_cells(rest).disjoint(h.cells())) by {
            assert forall|p: (int, int)| fleet_cells(rest).contains(p) implies !h.cells().contains(
                p,
            ) by {
                let i = choose|i: int| 0 <= i < rest.len() && (#[trigger] rest[i]).covers(p);
                assert(herds[i] == rest[i]);
                if h.covers(p) {
                    assert(herds[i].overlaps(herds[herds.len() - 1]));
                }
            }
        }
        vstd::set_lib::lemma_set_disjoint_lens(fleet_cells(rest), h.cells());
    }
}

/// Every fleet that may be placed makes a board, with no shot received
/// yet, and that board's fleet stands on as many cells as its herds are
/// long in total.
pub proof fn valid_fleet_makes_a_board(herds: Seq<Herd>)
    requires
        fleet_valid(herds),
    ensures
        PastureView::assemble(herds, Seq::empty()) == Ok::<PastureView, GameError>(
            PastureView { herds, shots: Seq::empty() },
        ),
        fleet_cells(herds).finite(),
        fleet_cells(herds).len() == total_length(herds),
{
    fleet_cell_count(herds);
}

/// The list of a herd's cells holds each cell of a herd on the grid once.
pub proof fn herd_cells_are_listed_once(h: Herd)
    requires
        h.in_bounds(GRID_SIZE as int),
    ensures
        h.cell_list().len() == h.length,
        h.cell_list().no_duplicates(),
        forall|k: int| 0 <= k < h.length ==> (#[trigger] h.cell_list()[k]).cell() == h.cell_at(k),
        forall|c: Coords| h.cell_list().contains(c) <==> h.covers(c.cell()),
{
    assert forall|k: int| 0 <= k < h.length implies (#[trigger] h.cell_list()[k]).cell()
        == h.cell_at(k) by {
        assert(h.covers(h.cell_at(k)));
    }
    assert forall|c: Coords| h.cell_list().contains(c) <==> h.covers(c.cell()) by {
        if h.covers(c.cell()) {
            let k = match h.orientation {
                Orientation::Horizontal => c.x - h.coords.x,
                Orientation::Vertical => c.y - h.coords.y,
            };
            assert(h.cell_list()[k] == c);
        }
        if h.cell_list().contains(c) {
            let k = choose|k: int| 0 <= k < h.cell_list().len() && h.cell_list()[k] == c;
            assert(h.covers(h.cell_at(k)));
        }
    }
}

/// The list of the cells of a fleet that may be placed holds each cell on
/// which the fleet stands once, and so is as long as the herds are in
/// total.
pub proof fn fleet_cells_are_listed_once(herds: Seq<Herd>)
    requires
        fleet_valid(herds),
    ensures
        fleet_cell_list(herds).no_duplicates(),
        fleet_cell_list(herds).len() == total_length(herds),
        forall|c: Coords| fleet_cell_list(herds).contains(c) <==> fleet_covers(herds, c.cell()),
    decreases herds.len(),
{
    if herds.len() > 0 {
        let rest = herds.drop_last();
        let h = herds.last();
        let before = fleet_cell_list(rest);
        fleet_cells_are_listed_once(rest);
        herd_cells_are_listed_once(h);
        assert forall|c: Coords| (before + h.cell_list()).contains(c) <==> fleet_covers(
            herds,
            c.cell(),
        ) by {
            if fleet_covers(rest, c.cell()) {
                let i = choose|i: int| 0 <= i < rest.len() && (#[trigger] rest[i]).covers(c.cell());
                assert(herds[i].covers(c.cell()));
                assert(before.contains(c));
                let k = choose|k: int| 0 <= k < before.len() && before[k] == c;
                assert((before + h.cell_list())[k] == c);
            }
            if h.covers(c.cell()) {
                assert(herds[herds.len() - 1].covers(c.cell()));
                assert(h.cell_list().contains(c));
                let k = choose|k: int| 0 <= k < h.cell_list().len() && h.cell_list()[k] == c;
                assert((before + h.cell_list())[before.len() + k] == c);
            }
            if fleet_covers(herds, c.cell()) {
                let i = choose|i: int|
                    0 <= i < herds.len() && (#[trigger] herds[i]).covers(c.cell());
                if i < rest.len() {
                    assert(rest[i].covers(c.cell()));
                }
            }
            if (before + h.cell_list()).contains(c) {
                let k = choose|k: int|
                    0 <= k < (before + h.cell_list()).len() && (before + h.cell_list())[k] == c;
                if k < before.len() {
                    assert(before.contains(c));
                } else {
                    assert(h.cell_list()[k - before.len()] == c);
                    assert(h.cell_list().contains(c));
                }
            }
        }
        assert forall|i: int, j: int|
            0 <= i < before.len() && 0 <= j < h.cell_list().len() implies before[i]
            != h.cell_list()[j] by {
            let c = before[i];
            assert(before.contains(c));
            if c == h.cell_list()[j] {
                assert(h.cell_list().contains(c));
                let m = choose|m: int| 0 <= m < rest.len() && (#[trigger] rest[m]).covers(c.cell());
                assert(herds[m] == rest[m]);
                assert(herds[m].overlaps(herds[herds.len() - 1]));
            }
        }
        vstd::seq_lib::lemma_no_dup_in_concat(before, h.cell_list());
    }
}

} // verus!
