use term_editor::location::Location;
use term_editor::terminal::Position;

fn at(line: usize, column: usize) -> Location {
    Location { line, column }
}

#[test]
fn origin_is_line_zero_column_zero() {
    assert_eq!(Location::origin(), at(0, 0));
}

#[test]
fn down_steps_one_line() {
    assert_eq!(at(3, 5).down(24), at(4, 5));
}

#[test]
fn down_stops_at_the_last_row() {
    assert_eq!(at(22, 5).down(24), at(23, 5));
    assert_eq!(at(23, 5).down(24), at(23, 5));
}

#[test]
fn down_from_below_the_screen_comes_back_to_the_last_row() {
    assert_eq!(at(100, 2).down(24), at(23, 2));
}

#[test]
fn down_on_a_screen_without_rows_is_line_zero() {
    assert_eq!(at(0, 1).down(0), at(0, 1));
    assert_eq!(at(0, 1).down(1), at(0, 1));
}

#[test]
fn down_at_the_largest_line_does_not_overflow() {
    assert_eq!(at(usize::MAX, 0).down(u16::MAX), at(65534, 0));
}

#[test]
fn up_steps_one_line() {
    assert_eq!(at(3, 5).up(), at(2, 5));
}

#[test]
fn up_stops_at_the_first_line() {
    assert_eq!(at(1, 5).up(), at(0, 5));
    assert_eq!(at(0, 5).up(), at(0, 5));
}

#[test]
fn right_steps_one_column() {
    assert_eq!(at(3, 5).right(80), at(3, 6));
}

#[test]
fn right_stops_at_the_last_column() {
    assert_eq!(at(3, 78).right(80), at(3, 79));
    assert_eq!(at(3, 79).right(80), at(3, 79));
}

#[test]
fn right_on_a_screen_without_columns_is_column_zero() {
    assert_eq!(at(3, 1).right(0), at(3, 0));
    assert_eq!(at(3, 1).right(1), at(3, 0));
}

#[test]
fn left_steps_one_column() {
    assert_eq!(at(3, 5).left(1), at(3, 4));
}

#[test]
fn left_stops_at_the_lower_bound() {
    assert_eq!(at(3, 2).left(1), at(3, 1));
    assert_eq!(at(3, 1).left(1), at(3, 1));
    assert_eq!(at(3, 1).left(0), at(3, 0));
    assert_eq!(at(3, 0).left(0), at(3, 0));
}

#[test]
fn left_from_before_the_lower_bound_goes_to_it() {
    assert_eq!(at(3, 0).left(4), at(3, 4));
}

#[test]
fn next_line_goes_down_and_back_to_the_lower_bound() {
    assert_eq!(at(3, 17).next_line(24, 1), at(4, 1));
    assert_eq!(at(3, 17).next_line(24, 0), at(4, 0));
}

#[test]
fn next_line_on_the_last_row_stays_on_it() {
    assert_eq!(at(23, 17).next_line(24, 1), at(23, 1));
}

#[test]
fn moves_keep_the_other_coordinate() {
    let start = at(10, 20);
    assert_eq!(start.down(24).column, 20);
    assert_eq!(start.up().column, 20);
    assert_eq!(start.right(80).line, 10);
    assert_eq!(start.left(1).line, 10);
}

#[test]
fn many_downs_and_ups_stay_on_the_screen() {
    let mut location = at(0, 1);
    for step in 0..200 {
        location = if step % 3 == 2 { location.up() } else { location.down(10) };
        assert!(location.line <= 9);
    }
    for _ in 0..50 {
        location = location.up();
    }
    assert_eq!(location, at(0, 1));
}

#[test]
fn many_lefts_and_rights_stay_on_the_screen() {
    let mut location = at(0, 1);
    for step in 0..200 {
        location = if step % 4 == 3 { location.left(1) } else { location.right(10) };
        assert!(1 <= location.column && location.column <= 9);
    }
    for _ in 0..50 {
        location = location.left(1);
    }
    assert_eq!(location, at(0, 1));
}

#[test]
fn to_position_swaps_the_axes() {
    assert_eq!(at(2, 7).to_position(), Position { x: 7, y: 2 });
    assert_eq!(at(0, 0).to_position(), Position { x: 0, y: 0 });
}

#[test]
fn to_position_stops_at_the_last_cell() {
    assert_eq!(at(65535, 65535).to_position(), Position { x: 65535, y: 65535 });
    assert_eq!(at(65536, 3).to_position(), Position { x: 3, y: 65535 });
    assert_eq!(at(3, 70000).to_position(), Position { x: 65535, y: 3 });
}

#[test]
fn to_screen_position_without_scrolling() {
    assert_eq!(
        at(2, 7).to_screen_position(Location::origin()),
        Some(Position { x: 7, y: 2 })
    );
}

#[test]
fn to_screen_position_takes_the_offset_off() {
    assert_eq!(at(12, 7).to_screen_position(at(10, 3)), Some(Position { x: 4, y: 2 }));
    assert_eq!(at(10, 3).to_screen_position(at(10, 3)), Some(Position { x: 0, y: 0 }));
}

#[test]
fn to_screen_position_before_the_offset_shows_nowhere() {
    assert_eq!(at(9, 7).to_screen_position(at(10, 3)), None);
    assert_eq!(at(12, 2).to_screen_position(at(10, 3)), None);
}

#[test]
fn to_screen_position_too_far_behind_the_offset_shows_nowhere() {
    assert_eq!(at(65536, 0).to_screen_position(Location::origin()), None);
    assert_eq!(at(0, 65536).to_screen_position(Location::origin()), None);
    assert_eq!(
        at(65535, 65535).to_screen_position(Location::origin()),
        Some(Position { x: 65535, y: 65535 })
    );
}

#[test]
fn from_screen_position_puts_the_offset_on() {
    assert_eq!(
        Location::from_screen_position(Position { x: 4, y: 2 }, at(10, 3)),
        Some(at(12, 7))
    );
    assert_eq!(
        Location::from_screen_position(Position { x: 7, y: 2 }, Location::origin()),
        Some(at(2, 7))
    );
}

#[test]
fn from_screen_position_that_cannot_be_counted_is_none() {
    assert_eq!(
        Location::from_screen_position(Position { x: 0, y: 1 }, at(usize::MAX, 0)),
        None
    );
    assert_eq!(
        Location::from_screen_position(Position { x: 1, y: 0 }, at(0, usize::MAX)),
        None
    );
    assert_eq!(
        Location::from_screen_position(Position { x: 0, y: 0 }, at(usize::MAX, usize::MAX)),
        Some(at(usize::MAX, usize::MAX))
    );
}

#[test]
fn screen_round_trip_without_scrolling() {
    for line in [0usize, 1, 23, 65535] {
        for column in [0usize, 1, 79, 65535] {
            let location = at(line, column);
            let position = location.to_screen_position(Location::origin()).unwrap();
            assert_eq!(
                Location::from_screen_position(position, Location::origin()),
                Some(location)
            );
        }
    }
}

#[test]
fn screen_round_trip_with_scrolling() {
    let offset = at(100, 40);
    let location = at(123, 45);
    let position = location.to_screen_position(offset).unwrap();
    assert_eq!(position, Position { x: 5, y: 23 });
    assert_eq!(Location::from_screen_position(position, offset), Some(location));
}

#[test]
fn document_round_trip() {
    let offset = at(100, 40);
    let position = Position { x: 9, y: 8 };
    let location = Location::from_screen_position(position, offset).unwrap();
    assert_eq!(location.to_screen_position(offset), Some(position));
}
