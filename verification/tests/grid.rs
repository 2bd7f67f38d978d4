use noise_explorer::consts::{GRID_SIZE_X, GRID_SIZE_Y, SCREEN_H, SCREEN_W};
use noise_explorer::grid::{GridSweep, SweepEvent};

#[test]
fn grid_and_screen_have_their_fixed_sizes() {
    assert_eq!((GRID_SIZE_X, GRID_SIZE_Y), (96, 60));
    assert_eq!((SCREEN_W, SCREEN_H), (1920, 1080));
}

#[test]
fn sweep_walks_rows_from_left_to_right() {
    let mut sweep = GridSweep::new(3, 2);
    assert_eq!(sweep.cell_count(), 6);
    let expected = vec![
        SweepEvent::Cell { index: 0, column: 0, row: 0 },
        SweepEvent::Cell { index: 1, column: 1, row: 0 },
        SweepEvent::Cell { index: 2, column: 2, row: 0 },
        SweepEvent::RowEnd { row: 0 },
        SweepEvent::Cell { index: 3, column: 0, row: 1 },
        SweepEvent::Cell { index: 4, column: 1, row: 1 },
        SweepEvent::Cell { index: 5, column: 2, row: 1 },
        SweepEvent::RowEnd { row: 1 },
        SweepEvent::Done,
        SweepEvent::Done,
    ];
    let mut events = Vec::new();
    for _ in 0..expected.len() {
        events.push(sweep.advance());
    }
    assert_eq!(events, expected);
    assert!(sweep.is_finished());
}

#[test]
fn sweep_is_finished_only_after_the_last_row_end() {
    let mut sweep = GridSweep::new(1, 1);
    assert!(!sweep.is_finished());
    assert_eq!(sweep.advance(), SweepEvent::Cell { index: 0, column: 0, row: 0 });
    assert!(!sweep.is_finished());
    assert_eq!(sweep.advance(), SweepEvent::RowEnd { row: 0 });
    assert!(sweep.is_finished());
    assert_eq!(sweep.advance(), SweepEvent::Done);
    assert!(sweep.is_finished());
}

#[test]
fn cells_of_one_row_see_the_same_number_of_row_ends() {
    let mut sweep = GridSweep::new(GRID_SIZE_X, GRID_SIZE_Y);
    let mut row_ends = 0;
    let mut cells = 0;
    loop {
        match sweep.advance() {
            SweepEvent::Cell { index, column, row } => {
                assert_eq!(row, row_ends);
                assert_eq!(index, cells);
                assert_eq!(index, column + row * GRID_SIZE_X);
                cells += 1;
            }
            SweepEvent::RowEnd { row } => {
                assert_eq!(row, row_ends);
                assert_eq!(cells, (row + 1) * GRID_SIZE_X);
                row_ends += 1;
            }
            SweepEvent::Done => break,
        }
    }
    assert_eq!(row_ends, GRID_SIZE_Y);
    assert_eq!(cells, GRID_SIZE_X * GRID_SIZE_Y);
    assert_eq!(cells, sweep.cell_count());
}

#[test]
fn time_moves_on_once_per_row() {
    // With a step of 3 per row end, a sweep over 7 rows moves the time from 10 to 10 + 7 * 3.
    let mut sweep = GridSweep::new(4, 7);
    let (mut time, step): (i64, i64) = (10, 3);
    let mut seen_in_row: Vec<Vec<i64>> = vec![Vec::new(); 7];
    loop {
        match sweep.advance() {
            SweepEvent::Cell { row, .. } => seen_in_row[row].push(time),
            SweepEvent::RowEnd { .. } => time += step,
            SweepEvent::Done => break,
        }
    }
    assert_eq!(time, 10 + 7 * 3);
    for (row, seen) in seen_in_row.iter().enumerate() {
        assert_eq!(seen, &vec![10 + 3 * row as i64; 4]);
    }
}

#[test]
fn rows_without_columns_still_end() {
    let mut sweep = GridSweep::new(0, 3);
    assert_eq!(sweep.cell_count(), 0);
    assert_eq!(sweep.advance(), SweepEvent::RowEnd { row: 0 });
    assert_eq!(sweep.advance(), SweepEvent::RowEnd { row: 1 });
    assert_eq!(sweep.advance(), SweepEvent::RowEnd { row: 2 });
    assert_eq!(sweep.advance(), SweepEvent::Done);
}

#[test]
fn grid_without_rows_is_finished_at_once() {
    let mut sweep = GridSweep::new(5, 0);
    assert!(sweep.is_finished());
    assert_eq!(sweep.cell_count(), 0);
    assert_eq!(sweep.advance(), SweepEvent::Done);
    assert!(sweep.is_finished());
}
