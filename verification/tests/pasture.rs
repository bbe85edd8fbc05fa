use pasture_game::error::GameError;
use pasture_game::geometry::{occupied_cells, Coords, Herd, Orientation, GRID_SIZE};
use pasture_game::pasture::{
    copy_herds, copy_shots, fleet_may_be_placed, fleet_stands_on, history_is_sound, shots_include,
    Pasture, Shot,
};

fn fleet() -> Vec<Herd> {
    vec![
        Herd::new(0, 0, 2, Orientation::Horizontal),
        Herd::new(3, 2, 3, Orientation::Horizontal),
        Herd::new(4, 6, 3, Orientation::Vertical),
        Herd::new(6, 0, 4, Orientation::Horizontal),
        Herd::new(2, 2, 5, Orientation::Vertical),
    ]
}

fn at(x: u8, y: u8) -> Coords {
    Coords { x, y }
}

#[test]
fn a_valid_fleet_makes_a_board() {
    let board = Pasture::new(fleet(), vec![]).unwrap();
    assert_eq!(board.herds(), &fleet());
    assert_eq!(board.shots(), &Vec::<Shot>::new());
    assert!(!board.has_pending());
    assert_eq!(board.last_shot(), None);
    // the composition of the fleet is not prescribed
    assert!(Pasture::new(vec![], vec![]).is_ok());
    assert!(Pasture::new(vec![Herd::new(0, 0, 10, Orientation::Horizontal)], vec![]).is_ok());
}

#[test]
fn the_fleet_stands_on_as_many_cells_as_its_herds_are_long() {
    let board = Pasture::new(fleet(), vec![]).unwrap();
    let total: usize = fleet().iter().map(|h| h.length as usize).sum();
    assert_eq!(total, 17);
    let mut occupied: usize = 0;
    for x in 0..GRID_SIZE {
        for y in 0..GRID_SIZE {
            if board.is_occupied(at(x, y)) {
                occupied += 1;
            }
        }
    }
    assert_eq!(occupied, 17);
    assert_eq!(
        board.occupied_cells(),
        vec![
            at(0, 0),
            at(1, 0),
            at(3, 2),
            at(4, 2),
            at(5, 2),
            at(4, 6),
            at(4, 7),
            at(4, 8),
            at(6, 0),
            at(7, 0),
            at(8, 0),
            at(9, 0),
            at(2, 2),
            at(2, 3),
            at(2, 4),
            at(2, 5),
            at(2, 6),
        ]
    );
    assert_eq!(Pasture::new(vec![], vec![]).unwrap().occupied_cells(), vec![]);
    let mut listed: Vec<Coords> = Vec::new();
    for h in fleet() {
        listed.extend(occupied_cells(&h).unwrap());
    }
    assert_eq!(listed.len(), 17);
    for (i, c) in listed.iter().enumerate() {
        assert!(board.is_occupied(*c));
        assert!(!listed[..i].contains(c));
    }
}

#[test]
fn a_fleet_off_the_grid_or_overlapping_is_refused() {
    let mut off = fleet();
    off.push(Herd::new(7, 9, 4, Orientation::Horizontal));
    assert_eq!(Pasture::new(off, vec![]), Err(GameError::InvalidPlacement));

    let mut crossing = fleet();
    crossing.push(Herd::new(0, 4, 4, Orientation::Horizontal));
    assert_eq!(Pasture::new(crossing, vec![]), Err(GameError::InvalidPlacement));

    let mut twice = fleet();
    twice.push(Herd::new(0, 0, 2, Orientation::Horizontal));
    assert_eq!(Pasture::new(twice, vec![]), Err(GameError::InvalidPlacement));

    let mut empty_herd = fleet();
    empty_herd.push(Herd::new(9, 9, 0, Orientation::Horizontal));
    assert_eq!(Pasture::new(empty_herd, vec![]), Err(GameError::InvalidPlacement));

    assert!(fleet_may_be_placed(&fleet()));
    assert!(!fleet_may_be_placed(&vec![Herd::new(10, 0, 1, Orientation::Vertical)]));
    assert!(!fleet_may_be_placed(&vec![
        Herd::new(1, 1, 2, Orientation::Vertical),
        Herd::new(0, 2, 2, Orientation::Horizontal)
    ]));
}

#[test]
fn a_history_must_be_sound_for_the_fleet() {
    let hit = Shot::Resolved { coords: at(0, 0), hit: true };
    let miss = Shot::Resolved { coords: at(9, 9), hit: false };
    let pending = Shot::Pending { coords: at(5, 5) };
    assert!(Pasture::new(fleet(), vec![hit, miss, pending]).is_ok());
    assert!(history_is_sound(&fleet(), &vec![hit, miss, pending]));
    // a hit recorded where no herd stands, a miss where one does
    assert_eq!(
        Pasture::new(fleet(), vec![Shot::Resolved { coords: at(9, 9), hit: true }]),
        Err(GameError::InvalidPlacement)
    );
    assert_eq!(
        Pasture::new(fleet(), vec![Shot::Resolved { coords: at(0, 0), hit: false }]),
        Err(GameError::InvalidPlacement)
    );
    // a shot left pending behind a later one
    assert_eq!(Pasture::new(fleet(), vec![pending, miss]), Err(GameError::InvalidPlacement));
    assert_eq!(
        Pasture::new(fleet(), vec![pending, Shot::Pending { coords: at(6, 6) }]),
        Err(GameError::InvalidPlacement)
    );
    // a cell fired on twice
    assert_eq!(Pasture::new(fleet(), vec![miss, hit, miss]), Err(GameError::InvalidPlacement));
    assert_eq!(
        Pasture::new(fleet(), vec![miss, Shot::Pending { coords: at(9, 9) }]),
        Err(GameError::InvalidPlacement)
    );
    assert!(!history_is_sound(&fleet(), &vec![pending, miss]));
}

#[test]
fn a_shot_is_recorded_pending_and_resolved_by_the_board() {
    let mut board = Pasture::new(fleet(), vec![]).unwrap();
    assert_eq!(board.resolve_pending_shot(), Err(GameError::NoPendingShot));

    assert_eq!(board.record_shot(at(3, 2)), Ok(Shot::Pending { coords: at(3, 2) }));
    assert!(board.has_pending());
    assert!(board.was_fired_on(at(3, 2)));
    assert!(!board.was_fired_on(at(2, 3)));
    assert_eq!(board.last_shot(), Some(Shot::Pending { coords: at(3, 2) }));
    assert_eq!(board.shots(), &vec![Shot::Pending { coords: at(3, 2) }]);

    // one shot at a time, and each cell once
    assert_eq!(board.record_shot(at(4, 2)), Err(GameError::NotYourTurn));
    assert_eq!(board.record_shot(at(3, 2)), Err(GameError::DuplicateShot));
    assert_eq!(board.shots(), &vec![Shot::Pending { coords: at(3, 2) }]);

    assert_eq!(board.resolve_pending_shot(), Ok(Shot::Resolved { coords: at(3, 2), hit: true }));
    assert!(!board.has_pending());
    assert_eq!(board.resolve_pending_shot(), Err(GameError::NoPendingShot));
    assert_eq!(board.record_shot(at(3, 2)), Err(GameError::DuplicateShot));

    assert_eq!(board.record_shot(at(1, 1)), Ok(Shot::Pending { coords: at(1, 1) }));
    assert_eq!(board.resolve_pending_shot(), Ok(Shot::Resolved { coords: at(1, 1), hit: false }));
    // a shot may fall outside the grid; it hits nothing
    assert_eq!(board.record_shot(at(200, 3)), Ok(Shot::Pending { coords: at(200, 3) }));
    assert_eq!(board.resolve_pending_shot(), Ok(Shot::Resolved { coords: at(200, 3), hit: false }));
    assert_eq!(
        board.shots(),
        &vec![
            Shot::Resolved { coords: at(3, 2), hit: true },
            Shot::Resolved { coords: at(1, 1), hit: false },
            Shot::Resolved { coords: at(200, 3), hit: false },
        ]
    );
    assert_eq!(board.herds(), &fleet());
}

#[test]
fn the_board_knows_what_stands_on_a_cell() {
    let board = Pasture::new(fleet(), vec![]).unwrap();
    assert_eq!(board.herd_at(at(2, 6)), Some(Herd::new(2, 2, 5, Orientation::Vertical)));
    assert_eq!(board.herd_at(at(9, 0)), Some(Herd::new(6, 0, 4, Orientation::Horizontal)));
    assert_eq!(board.herd_at(at(2, 7)), None);
    assert!(board.is_occupied(at(4, 8)));
    assert!(!board.is_occupied(at(4, 9)));
    assert!(fleet_stands_on(&fleet(), at(1, 0)));
    assert!(!fleet_stands_on(&fleet(), at(2, 0)));
    assert!(!fleet_stands_on(&vec![], at(0, 0)));
}

#[test]
fn a_board_is_rebuilt_from_its_herds_and_shots() {
    let mut board = Pasture::new(fleet(), vec![]).unwrap();
    board.record_shot(at(0, 0)).unwrap();
    board.resolve_pending_shot().unwrap();
    board.record_shot(at(7, 7)).unwrap();
    board.resolve_pending_shot().unwrap();
    board.record_shot(at(2, 2)).unwrap();
    let rebuilt = Pasture::new(copy_herds(board.herds()), copy_shots(board.shots())).unwrap();
    assert_eq!(rebuilt, board);
    assert_eq!(rebuilt.herds(), &fleet());
    assert_eq!(
        rebuilt.shots(),
        &vec![
            Shot::Resolved { coords: at(0, 0), hit: true },
            Shot::Resolved { coords: at(7, 7), hit: false },
            Shot::Pending { coords: at(2, 2) },
        ]
    );
    assert_eq!(board.clone(), board);
}

#[test]
fn a_shot_tells_its_cell_and_its_outcome() {
    let p = Shot::pending(at(1, 2));
    assert_eq!(p, Shot::Pending { coords: at(1, 2) });
    assert_eq!(p.coords(), at(1, 2));
    assert!(p.is_pending());
    assert_eq!(p.outcome(), None);
    let r = Shot::resolved(at(3, 4), true);
    assert_eq!(r, Shot::Resolved { coords: at(3, 4), hit: true });
    assert_eq!(r.coords(), at(3, 4));
    assert!(!r.is_pending());
    assert_eq!(r.outcome(), Some(true));
    assert_eq!(Shot::resolved(at(3, 4), false).outcome(), Some(false));
    assert!(shots_include(&vec![p, r], at(3, 4)));
    assert!(!shots_include(&vec![p, r], at(4, 3)));
}
