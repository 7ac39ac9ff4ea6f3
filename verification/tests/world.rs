use evosim_core::error::SimError;
use evosim_core::life::{Gene, Genome, Organism};
use evosim_core::random::RandomSource;
use evosim_core::render::Color;
use evosim_core::world::{Board, Tile};

const WHITE: Color = Color { r: 255, g: 255, b: 255 };

fn occupied_cells(board: &Board) -> Vec<(usize, usize)> {
    let mut cells = Vec::new();
    for y in 0..board.height() {
        for x in 0..board.width() {
            if board.organism_at(x, y).is_some() {
                cells.push((x, y));
            }
        }
    }
    cells
}

fn snapshot(board: &Board) -> Vec<Option<Organism>> {
    let mut cells = Vec::new();
    for y in 0..board.height() {
        for x in 0..board.width() {
            cells.push(board.organism_at(x, y).cloned());
        }
    }
    cells
}

fn organism_with(x: usize, y: usize, values: &[u32]) -> Organism {
    Organism { x, y, genome: Genome::from_genes(values.iter().map(|v| Gene::new(*v)).collect()) }
}

fn assert_population(board: &Board, count: usize, genome_size: usize) {
    let cells = occupied_cells(board);
    assert_eq!(cells.len(), count);
    for (x, y) in cells {
        assert!(x < board.width() && y < board.height());
        let organism = board.organism_at(x, y).unwrap();
        assert_eq!((organism.x, organism.y), (x, y));
        assert_eq!(organism.genome.len(), genome_size);
    }
}

#[test]
fn tile_new_is_empty() {
    assert!(Tile::new().organism.is_none());
}

#[test]
fn tile_clear_removes_the_organism() {
    let mut tile = Tile { organism: Some(organism_with(0, 0, &[1])) };
    tile.clear();
    assert!(tile.organism.is_none());
}

#[test]
fn tile_clear_is_idempotent() {
    let mut tile = Tile::new();
    tile.clear();
    assert!(tile.organism.is_none());
    tile.clear();
    assert!(tile.organism.is_none());
}

#[test]
fn board_new_has_the_given_dimensions_and_is_empty() {
    for (w, h) in [(1usize, 1usize), (5, 5), (3, 7), (7, 3), (50, 50), (1, 20)] {
        let board = Board::new(w, h);
        assert_eq!(board.width(), w);
        assert_eq!(board.height(), h);
        assert!(occupied_cells(&board).is_empty());
        for y in 0..h {
            for x in 0..w {
                assert!(board.organism_at(x, y).is_none());
                assert_eq!(board.color_at(x, y), Ok(WHITE));
            }
        }
    }
}

#[test]
fn board_with_a_zero_dimension_keeps_both_dimensions() {
    let board = Board::new(0, 0);
    assert_eq!((board.width(), board.height()), (0, 0));
    let board = Board::new(5, 0);
    assert_eq!((board.width(), board.height()), (5, 0));
    let board = Board::new(0, 5);
    assert_eq!((board.width(), board.height()), (0, 5));
}

#[test]
fn board_without_tiles_rejects_every_query_and_every_organism() {
    for (w, h) in [(0usize, 0usize), (5, 0), (0, 5)] {
        let mut board = Board::new(w, h);
        assert_eq!(board.color_at(0, 0), Err(SimError::OutOfBounds));
        assert!(board.organism_at(0, 0).is_none());
        assert_eq!(board.place(organism_with(0, 0, &[1])), Err(SimError::OutOfBounds));
        board.clear();
        assert_eq!((board.width(), board.height()), (w, h));
        assert!(board.has_room_for(0));
        assert!(!board.has_room_for(1));
        assert_eq!(board.populate_with_random_organisms(0, 3), Ok(()));
        assert_eq!(board.populate_with_random_organisms(1, 3), Err(SimError::Capacity));
    }
}

#[test]
fn has_room_for_compares_with_width_times_height() {
    let board = Board::new(4, 3);
    assert!(board.has_room_for(0));
    assert!(board.has_room_for(11));
    assert!(board.has_room_for(12));
    assert!(!board.has_room_for(13));
    assert!(!board.has_room_for(usize::MAX));
}

#[test]
fn place_puts_the_organism_on_its_tile() {
    let mut board = Board::new(4, 3);
    let organism = organism_with(3, 1, &[1, 2]);
    assert_eq!(board.place(organism.clone()), Ok(()));
    assert_eq!(board.organism_at(3, 1), Some(&organism));
    assert_eq!(occupied_cells(&board), vec![(3, 1)]);
    assert_eq!(board.color_at(3, 1), Ok(Color { r: 198, g: 104, b: 150 }));
    assert_eq!(board.color_at(1, 2), Ok(WHITE));
    assert_eq!((board.width(), board.height()), (4, 3));
}

#[test]
fn place_uses_x_for_the_column_and_y_for_the_row() {
    let mut board = Board::new(5, 2);
    assert_eq!(board.place(organism_with(4, 1, &[7])), Ok(()));
    assert_eq!(board.place(organism_with(1, 4, &[7])), Err(SimError::OutOfBounds));
    assert_eq!(board.place(organism_with(5, 0, &[7])), Err(SimError::OutOfBounds));
    assert_eq!(board.place(organism_with(0, 2, &[7])), Err(SimError::OutOfBounds));
    assert_eq!(occupied_cells(&board), vec![(4, 1)]);
    let mut board = Board::new(2, 5);
    assert_eq!(board.place(organism_with(1, 4, &[7])), Ok(()));
    assert_eq!(board.place(organism_with(4, 1, &[7])), Err(SimError::OutOfBounds));
    assert_eq!(occupied_cells(&board), vec![(1, 4)]);
}

#[test]
fn place_replaces_the_previous_organism() {
    let mut board = Board::new(2, 2);
    board.place(organism_with(1, 1, &[1])).unwrap();
    board.place(organism_with(0, 0, &[9])).unwrap();
    let second = organism_with(1, 1, &[2, 1]);
    board.place(second.clone()).unwrap();
    assert_eq!(board.organism_at(1, 1), Some(&second));
    assert_eq!(board.organism_at(0, 0), Some(&organism_with(0, 0, &[9])));
    assert_eq!(occupied_cells(&board), vec![(0, 0), (1, 1)]);
}

#[test]
fn rejected_place_leaves_the_board_unchanged() {
    let mut board = Board::new(3, 3);
    board.place(organism_with(2, 2, &[5])).unwrap();
    let before = snapshot(&board);
    assert_eq!(board.place(organism_with(3, 3, &[6])), Err(SimError::OutOfBounds));
    assert_eq!(board.place(organism_with(usize::MAX, 0, &[6])), Err(SimError::OutOfBounds));
    assert_eq!(snapshot(&board), before);
}

#[test]
fn color_at_outside_the_board_is_rejected() {
    let board = Board::new(3, 2);
    assert_eq!(board.color_at(3, 0), Err(SimError::OutOfBounds));
    assert_eq!(board.color_at(0, 2), Err(SimError::OutOfBounds));
    assert_eq!(board.color_at(3, 2), Err(SimError::OutOfBounds));
    assert_eq!(board.color_at(usize::MAX, usize::MAX), Err(SimError::OutOfBounds));
    assert_eq!(board.color_at(2, 1), Ok(WHITE));
}

#[test]
fn color_at_is_the_color_of_the_organism() {
    let mut rng = RandomSource::from_seed(31);
    let mut board = Board::new(6, 4);
    board.populate_with(12, 3, &mut rng).unwrap();
    for y in 0..4 {
        for x in 0..6 {
            match board.organism_at(x, y) {
                Some(organism) => assert_eq!(board.color_at(x, y), Ok(organism.color())),
                None => assert_eq!(board.color_at(x, y), Ok(WHITE)),
            }
        }
    }
}

#[test]
fn clear_then_every_tile_shows_the_background() {
    let mut rng = RandomSource::from_seed(13);
    let mut board = Board::new(7, 5);
    board.populate_with(20, 2, &mut rng).unwrap();
    assert_eq!(occupied_cells(&board).len(), 20);
    board.clear();
    assert_eq!((board.width(), board.height()), (7, 5));
    for y in 0..5 {
        for x in 0..7 {
            assert!(board.organism_at(x, y).is_none());
            assert_eq!(board.color_at(x, y), Ok(WHITE));
        }
    }
}

#[test]
fn clear_on_an_empty_board_changes_nothing() {
    let mut board = Board::new(3, 3);
    board.clear();
    assert_eq!((board.width(), board.height()), (3, 3));
    assert!(occupied_cells(&board).is_empty());
}

#[test]
fn populate_places_exactly_count_organisms() {
    let mut rng = RandomSource::from_seed(42);
    let cases: [(usize, usize, usize, usize); 6] =
        [(5, 5, 10, 2), (5, 5, 0, 2), (5, 5, 1, 0), (3, 9, 13, 4), (9, 3, 13, 4), (1, 1, 1, 1)];
    for (w, h, count, size) in cases {
        let mut board = Board::new(w, h);
        assert_eq!(board.populate_with(count, size, &mut rng), Ok(()));
        assert_eq!((board.width(), board.height()), (w, h));
        assert_population(&board, count, size);
    }
}

#[test]
fn populate_with_random_organisms_places_exactly_count_organisms() {
    let mut board = Board::new(50, 50);
    assert_eq!(board.populate_with_random_organisms(10, 2), Ok(()));
    assert_population(&board, 10, 2);
}

#[test]
fn populate_can_fill_the_whole_board() {
    let mut rng = RandomSource::from_seed(6);
    for (w, h) in [(1usize, 1usize), (4, 4), (2, 13), (13, 2), (20, 20)] {
        let mut board = Board::new(w, h);
        assert_eq!(board.populate_with(w * h, 1, &mut rng), Ok(()));
        assert_population(&board, w * h, 1);
    }
}

#[test]
fn populate_replaces_the_previous_population() {
    let mut rng = RandomSource::from_seed(77);
    let mut board = Board::new(6, 6);
    board.populate_with(30, 2, &mut rng).unwrap();
    board.populate_with(4, 5, &mut rng).unwrap();
    assert_population(&board, 4, 5);
}

#[test]
fn populate_is_reproducible_from_the_seed() {
    let mut first = Board::new(8, 8);
    let mut second = Board::new(8, 8);
    first.populate_with(20, 3, &mut RandomSource::from_seed(5)).unwrap();
    second.populate_with(20, 3, &mut RandomSource::from_seed(5)).unwrap();
    assert_eq!(snapshot(&first), snapshot(&second));
    let mut third = Board::new(8, 8);
    third.populate_with(20, 3, &mut RandomSource::from_seed(6)).unwrap();
    assert_ne!(snapshot(&first), snapshot(&third));
}

#[test]
fn populate_spreads_over_the_board() {
    let mut seen = vec![false; 12];
    for seed in 0..200 {
        let mut board = Board::new(4, 3);
        board.populate_with(1, 1, &mut RandomSource::from_seed(seed)).unwrap();
        let (x, y) = occupied_cells(&board)[0];
        seen[y * 4 + x] = true;
    }
    assert!(seen.iter().all(|hit| *hit));
}

#[test]
fn populate_beyond_capacity_is_rejected_and_changes_nothing() {
    let mut rng = RandomSource::from_seed(9);
    let mut board = Board::new(4, 3);
    board.populate_with(5, 2, &mut rng).unwrap();
    let before = snapshot(&board);
    assert_eq!(board.populate_with(13, 2, &mut rng), Err(SimError::Capacity));
    assert_eq!(snapshot(&board), before);
    assert_eq!(board.populate_with(usize::MAX, 2, &mut rng), Err(SimError::Capacity));
    assert_eq!(snapshot(&board), before);
    assert_eq!(board.populate_with_random_organisms(13, 2), Err(SimError::Capacity));
    assert_eq!(snapshot(&board), before);
    assert_eq!((board.width(), board.height()), (4, 3));
}

#[test]
fn one_by_one_board_holds_one_organism() {
    let mut rng = RandomSource::from_seed(2024);
    let mut board = Board::new(1, 1);
    assert_eq!(board.populate_with(1, 3, &mut rng), Ok(()));
    assert_eq!(occupied_cells(&board), vec![(0, 0)]);
    let organism = board.organism_at(0, 0).unwrap();
    assert_eq!((organism.x, organism.y), (0, 0));
    assert_eq!(organism.genome.len(), 3);
    let color = board.color_at(0, 0).unwrap();
    assert_ne!(color, WHITE);
    assert_eq!(color, organism.color());
    assert_eq!(board.color_at(1, 0), Err(SimError::OutOfBounds));
    assert_eq!(board.color_at(0, 1), Err(SimError::OutOfBounds));
    assert_eq!(board.color_at(1, 1), Err(SimError::OutOfBounds));
    assert_eq!(board.color_at(7, 3), Err(SimError::OutOfBounds));
}

#[test]
fn five_by_five_board_rejects_twenty_six_organisms() {
    let mut board = Board::new(5, 5);
    assert_eq!(board.populate_with_random_organisms(26, 2), Err(SimError::Capacity));
    assert!(occupied_cells(&board).is_empty());
    let mut rng = RandomSource::from_seed(1);
    assert_eq!(board.populate_with(26, 2, &mut rng), Err(SimError::Capacity));
    assert!(occupied_cells(&board).is_empty());
    assert_eq!(board.populate_with(25, 2, &mut rng), Ok(()));
    assert_population(&board, 25, 2);
}
